//! What can go wrong in a run or while the record is written, and how it is described.

use crate::text::{decimal, decimal_text};
use vstd::prelude::*;

verus! {

/// Why a run ended without a result.
#[derive(Debug, Clone, PartialEq, Eq)]
pub enum TransformError {
    /// The selected text could not be read.
    Capture { reason: String },
    /// No key is stored for the active provider.
    MissingCredential { provider: String },
    /// The request did not reach the provider, or no response came back.
    Transport { reason: String },
    /// The provider answered with a status outside the success range.
    Api { status: u16, body: String },
    /// The provider's answer could not be read as a response.
    MalformedResponse { reason: String },
    /// The provider's answer held no text.
    EmptyResponse,
}

/// The mathematical content of a `TransformError`.
pub enum TransformErrorView {
    Capture { reason: Seq<char> },
    MissingCredential { provider: Seq<char> },
    Transport { reason: Seq<char> },
    Api { status: u16, body: Seq<char> },
    MalformedResponse { reason: Seq<char> },
    EmptyResponse,
}

impl View for TransformError {
    type V = TransformErrorView;

    open spec fn view(&self) -> TransformErrorView {
        match self {
            TransformError::Capture { reason } => TransformErrorView::Capture { reason: reason@ },
            TransformError::MissingCredential { provider } => TransformErrorView::MissingCredential {
                provider: provider@,
            },
            TransformError::Transport { reason } => TransformErrorView::Transport {
                reason: reason@,
            },
            TransformError::Api { status, body } => TransformErrorView::Api {
                status: *status,
                body: body@,
            },
            TransformError::MalformedResponse { reason } => TransformErrorView::MalformedResponse {
                reason: reason@,
            },
            TransformError::EmptyResponse => TransformErrorView::EmptyResponse,
        }
    }
}

/// The text that describes an error to the user and the operator.
pub open spec fn description(e: TransformErrorView) -> Seq<char> {
    match e {
        TransformErrorView::Capture { reason } => "Error getting selected text: "@ + reason,
        TransformErrorView::MissingCredential { provider } =>
            "API key not configured for provider: "@ + provider,
        TransformErrorView::Transport { reason } => "Request failed: "@ + reason,
        TransformErrorView::Api { status, body } => if body.len() == 0 {
            "API request failed with status: "@ + decimal(status as nat)
        } else {
            "API request failed with status: "@ + decimal(status as nat) + " - "@ + body
        },
        TransformErrorView::MalformedResponse { reason } => "Failed to parse response: "@ + reason,
        TransformErrorView::EmptyResponse => "No response from API"@,
    }
}

impl TransformError {
    /// Describes the error in words.
    pub fn describe(&self) -> (text: String)
        ensures
            text@ == description(self@),
    {
        match self {
            TransformError::Capture { reason } => {
                let mut text = "Error getting selected text: ".to_owned();
                text.append(reason.as_str());
                text
            },
            TransformError::MissingCredential { provider } => {
                let mut text = "API key not configured for provider: ".to_owned();
                text.append(provider.as_str());
                text
            },
            TransformError::Transport { reason } => {
                let mut text = "Request failed: ".to_owned();
                text.append(reason.as_str());
                text
            },
            TransformError::Api { status, body } => {
                let mut text = "API request failed with status: ".to_owned();
                let code = decimal_text(*status as u64);
                text.append(code.as_str());
                if !body.as_str().is_empty() {
                    text.append(" - ");
                    text.append(body.as_str());
                }
                text
            },
            TransformError::MalformedResponse { reason } => {
                let mut text = "Failed to parse response: ".to_owned();
                text.append(reason.as_str());
                text
            },
            TransformError::EmptyResponse => "No response from API".to_owned(),
        }
    }
}

/// Why the record could not be written.
#[derive(Debug, Clone, PartialEq, Eq)]
pub enum PersistenceError {
    /// The record could not be encoded.
    Serialize { reason: String },
    /// The encoded record could not be written to its file.
    Write { reason: String },
}

/// The mathematical content of a `PersistenceError`.
pub enum PersistenceErrorView {
    Serialize { reason: Seq<char> },
    Write { reason: Seq<char> },
}

impl View for PersistenceError {
    type V = PersistenceErrorView;

    open spec fn view(&self) -> PersistenceErrorView {
        match self {
            PersistenceError::Serialize { reason } => PersistenceErrorView::Serialize {
                reason: reason@,
            },
            PersistenceError::Write { reason } => PersistenceErrorView::Write { reason: reason@ },
        }
    }
}

/// The text that describes a failed write of the record.
pub open spec fn persistence_description(e: PersistenceErrorView) -> Seq<char> {
    match e {
        PersistenceErrorView::Serialize { reason } => "Failed to serialize settings: "@ + reason,
        PersistenceErrorView::Write { reason } => "Failed to write settings: "@ + reason,
    }
}

impl PersistenceError {
    /// Describes the error in words.
    pub fn describe(&self) -> (text: String)
        ensures
            text@ == persistence_description(self@),
    {
        match self {
            PersistenceError::Serialize { reason } => {
                let mut text = "Failed to serialize settings: ".to_owned();
                text.append(reason.as_str());
                text
            },
            PersistenceError::Write { reason } => {
                let mut text = "Failed to write settings: ".to_owned();
                text.append(reason.as_str());
                text
            },
        }
    }
}

} // verus!
