//! One run of the tool, from hotkey to side effects, as a state machine: the caller performs
//! each action that a step hands out and reports what happened as the next event.

use crate::error::{description, TransformError, TransformErrorView};
use crate::provider::{
    build_request, extract_text, is_success, kind_of, provider_kind, request_of, response_shape,
    shape_of, successful, text_of, Operation, ProviderKind, ProviderRequest, ProviderRequestView,
    ProviderResponse, ProviderResponseView,
};
use crate::settings::{resolved_key, Settings, SettingsView};
use crate::text::{blank, is_blank, preview, preview_of};
use vstd::prelude::*;

pub mod laws;

verus! {

/// Which announcements a run makes, as configured when the run loaded its settings.
#[derive(Debug, Clone, Copy, PartialEq, Eq, Structural)]
pub struct Feedback {
    pub sound: bool,
    pub notifications: bool,
}

/// How a run ended.
#[derive(Debug, Clone, PartialEq, Eq)]
pub enum Outcome {
    /// Nothing was selected: the run did nothing, which is no failure.
    Skipped,
    /// The result was produced and handed to the clipboard.
    Completed { text: String },
    /// The run was given up.
    Failed { error: TransformError },
}

/// Where a run stands.
#[derive(Debug, Clone, PartialEq, Eq)]
pub enum Stage {
    /// Not started.
    Idle,
    /// Waiting for the selected text.
    Capturing,
    /// Waiting for the settings; `text` is the captured selection.
    Loading { text: String },
    /// Waiting for the provider's response to the request.
    Sending { provider: ProviderKind, feedback: Feedback },
    /// Waiting for the body of a response that was refused with `status`.
    ReadingError { status: u16, feedback: Feedback },
    /// Waiting for the decoded body of a successful response.
    Parsing { provider: ProviderKind, feedback: Feedback },
    /// Waiting for the clipboard write of the result `text`.
    Delivering { text: String, feedback: Feedback },
    /// Over.
    Finished { outcome: Outcome },
}

/// A run of one operation.
#[derive(Debug, Clone, PartialEq, Eq)]
pub struct Pipeline {
    pub operation: Operation,
    pub stage: Stage,
}

/// What the caller reports to a run.
#[derive(Debug, Clone)]
pub enum Event {
    /// The hotkey fired.
    Triggered,
    /// The selected text could not be read.
    CaptureFailed { reason: String },
    /// The selected text.
    Captured { text: String },
    /// The settings, after load and migration.
    SettingsLoaded { settings: Settings },
    /// The request could not be sent, or no response came back.
    SendFailed { reason: String },
    /// The provider responded with `status`.
    Responded { status: u16 },
    /// The body of a refused response, empty where it could not be read.
    ErrorBody { body: String },
    /// The body of a successful response could not be decoded.
    ParseFailed { reason: String },
    /// The decoded body of a successful response.
    Parsed { response: ProviderResponse },
    /// The clipboard write was tried; `ok` tells whether it succeeded.
    ClipboardWritten { ok: bool },
}

/// What a run asks the caller to do.
#[derive(Debug, Clone, PartialEq, Eq)]
pub enum Action {
    /// Read the selected text and report it.
    CaptureSelection,
    /// Load the settings and report them.
    LoadSettings,
    /// Record that a run of this operation is in flight.
    MarkBusy,
    /// Send the request as an HTTP POST and report the response's status.
    Post { request: ProviderRequest },
    /// Read the response's body as text and report it.
    ReadErrorBody,
    /// Decode the response's body in the shape of `provider` and report it.
    ParseBody { provider: ProviderKind },
    /// Put `text` on the clipboard and report whether that worked.
    WriteClipboard { text: String },
    /// Play the completion sound.
    PlaySound,
    /// Show a notification.
    Notify { title: String, body: String },
    /// Write `message` to the operator's diagnostic channel.
    Report { message: String },
    /// Record that this run is no longer in flight.
    MarkIdle,
}

/// The mathematical content of an `Outcome`.
pub enum OutcomeView {
    Skipped,
    Completed { text: Seq<char> },
    Failed { error: TransformErrorView },
}

/// The mathematical content of a `Stage`.
pub enum StageView {
    Idle,
    Capturing,
    Loading { text: Seq<char> },
    Sending { provider: ProviderKind, feedback: Feedback },
    ReadingError { status: u16, feedback: Feedback },
    Parsing { provider: ProviderKind, feedback: Feedback },
    Delivering { text: Seq<char>, feedback: Feedback },
    Finished { outcome: OutcomeView },
}

/// The mathematical content of a `Pipeline`.
pub struct PipelineView {
    pub operation: Operation,
    pub stage: StageView,
}

/// The mathematical content of an `Event`.
pub enum EventView {
    Triggered,
    CaptureFailed { reason: Seq<char> },
    Captured { text: Seq<char> },
    SettingsLoaded { settings: SettingsView },
    SendFailed { reason: Seq<char> },
    Responded { status: u16 },
    ErrorBody { body: Seq<char> },
    ParseFailed { reason: Seq<char> },
    Parsed { response: ProviderResponseView },
    ClipboardWritten { ok: bool },
}

/// The mathematical content of an `Action`.
pub enum ActionView {
    CaptureSelection,
    LoadSettings,
    MarkBusy,
    Post { request: ProviderRequestView },
    ReadErrorBody,
    ParseBody { provider: ProviderKind },
    WriteClipboard { text: Seq<char> },
    PlaySound,
    Notify { title: Seq<char>, body: Seq<char> },
    Report { message: Seq<char> },
    MarkIdle,
}

impl View for Outcome {
    type V = OutcomeView;

    open spec fn view(&self) -> OutcomeView {
        match self {
            Outcome::Skipped => OutcomeView::Skipped,
            Outcome::Completed { text } => OutcomeView::Completed { text: text@ },
            Outcome::Failed { error } => OutcomeView::Failed { error: error@ },
        }
    }
}

impl View for Stage {
    type V = StageView;

    open spec fn view(&self) -> StageView {
        match self {
            Stage::Idle => StageView::Idle,
            Stage::Capturing => StageView::Capturing,
            Stage::Loading { text } => StageView::Loading { text: text@ },
            Stage::Sending { provider, feedback } => StageView::Sending {
                provider: *provider,
                feedback: *feedback,
            },
            Stage::ReadingError { status, feedback } => StageView::ReadingError {
                status: *status,
                feedback: *feedback,
            },
            Stage::Parsing { provider, feedback } => StageView::Parsing {
                provider: *provider,
                feedback: *feedback,
            },
            Stage::Delivering { text, feedback } => StageView::Delivering {
                text: text@,
                feedback: *feedback,
            },
            Stage::Finished { outcome } => StageView::Finished { outcome: outcome@ },
        }
    }
}

impl View for Pipeline {
    type V = PipelineView;

    open spec fn view(&self) -> PipelineView {
        PipelineView { operation: self.operation, stage: self.stage@ }
    }
}

impl View for Event {
    type V = EventView;

    open spec fn view(&self) -> EventView {
        match self {
            Event::Triggered => EventView::Triggered,
            Event::CaptureFailed { reason } => EventView::CaptureFailed { reason: reason@ },
            Event::Captured { text } => EventView::Captured { text: text@ },
            Event::SettingsLoaded { settings } => EventView::SettingsLoaded {
                settings: settings@,
            },
            Event::SendFailed { reason } => EventView::SendFailed { reason: reason@ },
            Event::Responded { status } => EventView::Responded { status: *status },
            Event::ErrorBody { body } => EventView::ErrorBody { body: body@ },
            Event::ParseFailed { reason } => EventView::ParseFailed { reason: reason@ },
            Event::Parsed { response } => EventView::Parsed { response: response@ },
            Event::ClipboardWritten { ok } => EventView::ClipboardWritten { ok: *ok },
        }
    }
}

impl View for Action {
    type V = ActionView;

    open spec fn view(&self) -> ActionView {
        match self {
            Action::CaptureSelection => ActionView::CaptureSelection,
            Action::LoadSettings => ActionView::LoadSettings,
            Action::MarkBusy => ActionView::MarkBusy,
            Action::Post { request } => ActionView::Post { request: request@ },
            Action::ReadErrorBody => ActionView::ReadErrorBody,
            Action::ParseBody { provider } => ActionView::ParseBody { provider: *provider },
            Action::WriteClipboard { text } => ActionView::WriteClipboard { text: text@ },
            Action::PlaySound => ActionView::PlaySound,
            Action::Notify { title, body } => ActionView::Notify { title: title@, body: body@ },
            Action::Report { message } => ActionView::Report { message: message@ },
            Action::MarkIdle => ActionView::MarkIdle,
        }
    }
}

/// The mathematical content of a list of actions.
pub open spec fn actions_view(actions: Seq<Action>) -> Seq<ActionView> {
    Seq::new(actions.len(), |i: int| actions[i]@)
}

/// Title of the notification that announces a result.
pub open spec fn success_title_of(operation: Operation) -> Seq<char> {
    match operation {
        Operation::Polish => "Text Polished"@,
        Operation::Translate => "Text Translated"@,
    }
}

/// Body of the notification that announces the result `text`: a lead line and the preview.
pub open spec fn success_body_of(operation: Operation, text: Seq<char>) -> Seq<char> {
    match operation {
        Operation::Polish => "Polished text copied to clipboard:\n"@ + preview_of(text),
        Operation::Translate => "Translated text copied to clipboard:\n"@ + preview_of(text),
    }
}

/// Title of the notification that announces a failure.
pub open spec fn failure_title_of(operation: Operation) -> Seq<char> {
    match operation {
        Operation::Polish => "Polish Failed"@,
        Operation::Translate => "Translation Failed"@,
    }
}

/// The message of a failed transformation, used for the diagnostic channel and as the body of
/// the failure notification.
pub open spec fn failure_message_of(operation: Operation, error: TransformErrorView) -> Seq<
    char,
> {
    match operation {
        Operation::Polish => "Failed to polish text: "@ + description(error),
        Operation::Translate => "Failed to translate text: "@ + description(error),
    }
}

/// The diagnostic message of a failed clipboard write.
pub open spec fn clipboard_failure_message() -> Seq<char> {
    "Failed to write to clipboard"@
}

/// The text of the busy indicator.
pub open spec fn tooltip_of(processing: bool) -> Seq<char> {
    if processing {
        "Polish Language - Processing..."@
    } else {
        "Polish Language"@
    }
}

/// The announcements that `s` asks for.
pub open spec fn feedback_of(s: SettingsView) -> Feedback {
    Feedback { sound: s.sound_enabled, notifications: s.notifications_enabled }
}

/// A run of `operation` that has not started.
pub open spec fn initial(operation: Operation) -> PipelineView {
    PipelineView { operation: operation, stage: StageView::Idle }
}

/// A run of `operation` that ended with `outcome`.
pub open spec fn finished(operation: Operation, outcome: OutcomeView) -> PipelineView {
    PipelineView { operation: operation, stage: StageView::Finished { outcome: outcome } }
}

/// A run is in flight from the moment it marks itself busy until it marks itself idle.
pub open spec fn in_flight(stage: StageView) -> bool {
    stage is Sending || stage is ReadingError || stage is Parsing || stage is Delivering
}

/// One action where `wanted`, none otherwise.
pub open spec fn optional(wanted: bool, action: ActionView) -> Seq<ActionView> {
    if wanted {
        seq![action]
    } else {
        Seq::empty()
    }
}

/// A run in flight gives up with `error`: the failure is reported, announced where
/// notifications are on, and the run marks itself idle. The clipboard is not touched.
pub open spec fn give_up(operation: Operation, feedback: Feedback, error: TransformErrorView)
    -> (PipelineView, Seq<ActionView>) {
    (
        finished(operation, OutcomeView::Failed { error: error }),
        seq![ActionView::Report { message: failure_message_of(operation, error) }] + optional(
            feedback.notifications,
            ActionView::Notify {
                title: failure_title_of(operation),
                body: failure_message_of(operation, error),
            },
        ) + seq![ActionView::MarkIdle],
    )
}

/// The clipboard write of the result `text` was tried: a failed write is reported and
/// nothing more, then the announcements follow and the run marks itself idle.
pub open spec fn conclude(operation: Operation, text: Seq<char>, feedback: Feedback, ok: bool)
    -> (PipelineView, Seq<ActionView>) {
    (
        finished(operation, OutcomeView::Completed { text: text }),
        optional(!ok, ActionView::Report { message: clipboard_failure_message() }) + optional(
            feedback.sound,
            ActionView::PlaySound,
        ) + optional(
            feedback.notifications,
            ActionView::Notify {
                title: success_title_of(operation),
                body: success_body_of(operation, text),
            },
        ) + seq![ActionView::MarkIdle],
    )
}

/// The run stays as it is and asks for nothing.
pub open spec fn ignore(p: PipelineView) -> (PipelineView, Seq<ActionView>) {
    (p, Seq::empty())
}

/// The state after `event` and the actions to perform, in order. An event that the current
/// stage does not wait for changes nothing and asks for nothing.
pub open spec fn transition(p: PipelineView, event: EventView) -> (PipelineView, Seq<ActionView>) {
    match p.stage {
        StageView::Idle => match event {
            EventView::Triggered => (
                PipelineView { operation: p.operation, stage: StageView::Capturing },
                seq![ActionView::CaptureSelection],
            ),
            _ => ignore(p),
        },
        StageView::Capturing => match event {
            EventView::CaptureFailed { reason } => {
                let error = TransformErrorView::Capture { reason: reason };
                (
                    finished(p.operation, OutcomeView::Failed { error: error }),
                    seq![ActionView::Report { message: description(error) }],
                )
            },
            EventView::Captured { text } => if blank(text) {
                (finished(p.operation, OutcomeView::Skipped), Seq::empty())
            } else {
                (
                    PipelineView { operation: p.operation, stage: StageView::Loading { text: text } },
                    seq![ActionView::LoadSettings],
                )
            },
            _ => ignore(p),
        },
        StageView::Loading { text } => match event {
            EventView::SettingsLoaded { settings } => if resolved_key(settings).len() == 0 {
                let error = TransformErrorView::MissingCredential { provider: settings.provider };
                (
                    finished(p.operation, OutcomeView::Failed { error: error }),
                    seq![ActionView::Report { message: description(error) }],
                )
            } else {
                (
                    PipelineView {
                        operation: p.operation,
                        stage: StageView::Sending {
                            provider: kind_of(settings.provider),
                            feedback: feedback_of(settings),
                        },
                    },
                    seq![
                        ActionView::MarkBusy,
                        ActionView::Post { request: request_of(p.operation, text, settings) },
                    ],
                )
            },
            _ => ignore(p),
        },
        StageView::Sending { provider, feedback } => match event {
            EventView::SendFailed { reason } => give_up(
                p.operation,
                feedback,
                TransformErrorView::Transport { reason: reason },
            ),
            EventView::Responded { status } => if successful(status) {
                (
                    PipelineView {
                        operation: p.operation,
                        stage: StageView::Parsing { provider: provider, feedback: feedback },
                    },
                    seq![ActionView::ParseBody { provider: provider }],
                )
            } else {
                (
                    PipelineView {
                        operation: p.operation,
                        stage: StageView::ReadingError { status: status, feedback: feedback },
                    },
                    seq![ActionView::ReadErrorBody],
                )
            },
            _ => ignore(p),
        },
        StageView::ReadingError { status, feedback } => match event {
            EventView::ErrorBody { body } => give_up(
                p.operation,
                feedback,
                TransformErrorView::Api { status: status, body: body },
            ),
            _ => ignore(p),
        },
        StageView::Parsing { provider, feedback } => match event {
            EventView::ParseFailed { reason } => give_up(
                p.operation,
                feedback,
                TransformErrorView::MalformedResponse { reason: reason },
            ),
            EventView::Parsed { response } => if shape_of(response) == provider {
                match text_of(response) {
                    Ok(text) => (
                        PipelineView {
                            operation: p.operation,
                            stage: StageView::Delivering { text: text, feedback: feedback },
                        },
                        seq![ActionView::WriteClipboard { text: text }],
                    ),
                    Err(error) => give_up(p.operation, feedback, error),
                }
            } else {
                ignore(p)
            },
            _ => ignore(p),
        },
        StageView::Delivering { text, feedback } => match event {
            EventView::ClipboardWritten { ok } => conclude(p.operation, text, feedback, ok),
            _ => ignore(p),
        },
        StageView::Finished { outcome } => ignore(p),
    }
}

/// The state after a sequence of events and all actions asked for on the way, in order.
pub open spec fn run(p: PipelineView, events: Seq<EventView>) -> (PipelineView, Seq<ActionView>)
    decreases events.len(),
{
    if events.len() == 0 {
        (p, Seq::empty())
    } else {
        let first = transition(p, events[0]);
        let rest = run(first.0, events.drop_first());
        (rest.0, first.1 + rest.1)
    }
}

/// How often `action` stands in `actions`.
pub open spec fn count(actions: Seq<ActionView>, action: ActionView) -> nat
    decreases actions.len(),
{
    if actions.len() == 0 {
        0
    } else {
        count(actions.drop_last(), action) + if actions.last() == action {
            1nat
        } else {
            0nat
        }
    }
}

/// Whether an action reaches beyond the run's own bookkeeping and diagnostics: the network,
/// the clipboard, the sound or a notification.
pub open spec fn reaches_out(action: ActionView) -> bool {
    action is Post || action is ReadErrorBody || action is ParseBody || action is WriteClipboard
        || action is PlaySound || action is Notify
}

/// Whether an action asks the caller for something to report back.
pub open spec fn awaits_report(action: ActionView) -> bool {
    action is CaptureSelection || action is LoadSettings || action is Post
        || action is ReadErrorBody || action is ParseBody || action is WriteClipboard
}

/// Whether a run in this stage counts as one run in flight.
pub open spec fn flight(stage: StageView) -> nat {
    if in_flight(stage) {
        1
    } else {
        0
    }
}

/// Title of the notification that announces a result.
pub fn success_title(operation: Operation) -> (title: String)
    ensures
        title@ == success_title_of(operation),
{
    match operation {
        Operation::Polish => "Text Polished".to_owned(),
        Operation::Translate => "Text Translated".to_owned(),
    }
}

/// Body of the notification that announces the result `text`.
pub fn success_body(operation: Operation, text: &str) -> (body: String)
    ensures
        body@ == success_body_of(operation, text@),
{
    let mut body = match operation {
        Operation::Polish => "Polished text copied to clipboard:\n".to_owned(),
        Operation::Translate => "Translated text copied to clipboard:\n".to_owned(),
    };
    let shown = preview(text);
    body.append(shown.as_str());
    body
}

/// Title of the notification that announces a failure.
pub fn failure_title(operation: Operation) -> (title: String)
    ensures
        title@ == failure_title_of(operation),
{
    match operation {
        Operation::Polish => "Polish Failed".to_owned(),
        Operation::Translate => "Translation Failed".to_owned(),
    }
}

/// The message of a failed transformation.
pub fn failure_message(operation: Operation, error: &TransformError) -> (message: String)
    ensures
        message@ == failure_message_of(operation, error@),
{
    let mut message = match operation {
        Operation::Polish => "Failed to polish text: ".to_owned(),
        Operation::Translate => "Failed to translate text: ".to_owned(),
    };
    let details = error.describe();
    message.append(details.as_str());
    message
}

/// The text of the busy indicator.
pub fn tray_tooltip(processing: bool) -> (tooltip: &'static str)
    ensures
        tooltip@ == tooltip_of(processing),
{
    if processing {
        "Polish Language - Processing..."
    } else {
        "Polish Language"
    }
}

/// The announcements that `settings` asks for.
pub fn feedback(settings: &Settings) -> (wanted: Feedback)
    ensures
        wanted == feedback_of(settings@),
{
    Feedback { sound: settings.sound_enabled, notifications: settings.notifications_enabled }
}

/// The run stays at `stage` and asks for nothing.
fn stay(operation: Operation, stage: Stage) -> (next: (Pipeline, Vec<Action>))
    ensures
        (next.0@, actions_view(next.1@)) == ignore(
            PipelineView { operation: operation, stage: stage@ },
        ),
{
    let actions: Vec<Action> = Vec::new();
    assert(actions_view(actions@) =~= Seq::<ActionView>::empty());
    (Pipeline { operation, stage }, actions)
}

/// The run moves to `stage` and asks for `action`.
fn advance(operation: Operation, stage: Stage, action: Action) -> (next: (Pipeline, Vec<Action>))
    ensures
        next.0@ == (PipelineView { operation: operation, stage: stage@ }),
        actions_view(next.1@) == seq![action@],
{
    let mut actions: Vec<Action> = Vec::new();
    actions.push(action);
    assert(actions_view(actions@) =~= seq![action@]);
    (Pipeline { operation, stage }, actions)
}

/// The run ends before it was in flight: `error` is reported and nothing else happens.
fn abort(operation: Operation, error: TransformError) -> (next: (Pipeline, Vec<Action>))
    ensures
        next.0@ == finished(operation, OutcomeView::Failed { error: error@ }),
        actions_view(next.1@) == seq![ActionView::Report { message: description(error@) }],
{
    let message = error.describe();
    advance(
        operation,
        Stage::Finished { outcome: Outcome::Failed { error } },
        Action::Report { message },
    )
}

/// A run in flight gives up with `error`.
fn fail(operation: Operation, wanted: Feedback, error: TransformError) -> (next: (
    Pipeline,
    Vec<Action>,
))
    ensures
        (next.0@, actions_view(next.1@)) == give_up(operation, wanted, error@),
{
    let mut actions: Vec<Action> = Vec::new();
    actions.push(Action::Report { message: failure_message(operation, &error) });
    if wanted.notifications {
        actions.push(
            Action::Notify {
                title: failure_title(operation),
                body: failure_message(operation, &error),
            },
        );
    }
    actions.push(Action::MarkIdle);
    assert(actions_view(actions@) =~= give_up(operation, wanted, error@).1);
    (Pipeline { operation, stage: Stage::Finished { outcome: Outcome::Failed { error } } }, actions)
}

/// The clipboard write of the result `text` was tried.
fn finish(operation: Operation, text: String, wanted: Feedback, ok: bool) -> (next: (
    Pipeline,
    Vec<Action>,
))
    ensures
        (next.0@, actions_view(next.1@)) == conclude(operation, text@, wanted, ok),
{
    let mut actions: Vec<Action> = Vec::new();
    if !ok {
        actions.push(Action::Report { message: "Failed to write to clipboard".to_owned() });
    }
    if wanted.sound {
        actions.push(Action::PlaySound);
    }
    if wanted.notifications {
        actions.push(
            Action::Notify {
                title: success_title(operation),
                body: success_body(operation, text.as_str()),
            },
        );
    }
    actions.push(Action::MarkIdle);
    assert(actions_view(actions@) =~= conclude(operation, text@, wanted, ok).1);
    (
        Pipeline { operation, stage: Stage::Finished { outcome: Outcome::Completed { text } } },
        actions,
    )
}

impl Pipeline {
    /// A run of `operation` that has not started.
    pub fn new(operation: Operation) -> (pipeline: Pipeline)
        ensures
            pipeline@ == initial(operation),
    {
        Pipeline { operation, stage: Stage::Idle }
    }

    /// Whether the run is over.
    pub fn is_finished(&self) -> (over: bool)
        ensures
            over == (self@.stage is Finished),
    {
        match &self.stage {
            Stage::Finished { .. } => true,
            _ => false,
        }
    }

    /// Whether the run has marked itself busy and not yet idle.
    pub fn is_in_flight(&self) -> (busy: bool)
        ensures
            busy == in_flight(self@.stage),
    {
        match &self.stage {
            Stage::Sending { .. } => true,
            Stage::ReadingError { .. } => true,
            Stage::Parsing { .. } => true,
            Stage::Delivering { .. } => true,
            _ => false,
        }
    }

    /// How the run ended, once it is over.
    pub fn outcome(&self) -> (outcome: Option<&Outcome>)
        ensures
            match outcome {
                Some(o) => self@.stage == (StageView::Finished { outcome: o@ }),
                None => !(self@.stage is Finished),
            },
    {
        match &self.stage {
            Stage::Finished { outcome } => Some(outcome),
            _ => None,
        }
    }

    /// Takes the run one step further: the state after `event`, and the actions to perform
    /// in order before the next event is reported.
    pub fn step(self, event: Event) -> (next: (Pipeline, Vec<Action>))
        ensures
            (next.0@, actions_view(next.1@)) == transition(self@, event@),
    {
        let operation = self.operation;
        match self.stage {
            Stage::Idle => match event {
                Event::Triggered => advance(operation, Stage::Capturing, Action::CaptureSelection),
                _ => stay(operation, Stage::Idle),
            },
            Stage::Capturing => match event {
                Event::CaptureFailed { reason } => abort(
                    operation,
                    TransformError::Capture { reason },
                ),
                Event::Captured { text } => {
                    if is_blank(text.as_str()) {
                        let next = stay(
                            operation,
                            Stage::Finished { outcome: Outcome::Skipped },
                        );
                        next
                    } else {
                        advance(operation, Stage::Loading { text }, Action::LoadSettings)
                    }
                },
                _ => stay(operation, Stage::Capturing),
            },
            Stage::Loading { text } => match event {
                Event::SettingsLoaded { settings } => {
                    if settings.get_current_api_key().as_str().is_empty() {
                        abort(
                            operation,
                            TransformError::MissingCredential { provider: settings.provider },
                        )
                    } else {
                        let request = build_request(operation, text.as_str(), &settings);
                        let stage = Stage::Sending {
                            provider: provider_kind(settings.provider.as_str()),
                            feedback: feedback(&settings),
                        };
                        let mut actions: Vec<Action> = Vec::new();
                        actions.push(Action::MarkBusy);
                        actions.push(Action::Post { request });
                        assert(actions_view(actions@) =~= seq![
                            ActionView::MarkBusy,
                            ActionView::Post { request: request@ },
                        ]);
                        (Pipeline { operation, stage }, actions)
                    }
                },
                _ => stay(operation, Stage::Loading { text }),
            },
            Stage::Sending { provider, feedback } => match event {
                Event::SendFailed { reason } => fail(
                    operation,
                    feedback,
                    TransformError::Transport { reason },
                ),
                Event::Responded { status } => {
                    if is_success(status) {
                        advance(
                            operation,
                            Stage::Parsing { provider, feedback },
                            Action::ParseBody { provider },
                        )
                    } else {
                        advance(
                            operation,
                            Stage::ReadingError { status, feedback },
                            Action::ReadErrorBody,
                        )
                    }
                },
                _ => stay(operation, Stage::Sending { provider, feedback }),
            },
            Stage::ReadingError { status, feedback } => match event {
                Event::ErrorBody { body } => fail(
                    operation,
                    feedback,
                    TransformError::Api { status, body },
                ),
                _ => stay(operation, Stage::ReadingError { status, feedback }),
            },
            Stage::Parsing { provider, feedback } => match event {
                Event::ParseFailed { reason } => fail(
                    operation,
                    feedback,
                    TransformError::MalformedResponse { reason },
                ),
                Event::Parsed { response } => {
                    if response_shape(&response) == provider {
                        match extract_text(&response) {
                            Ok(text) => {
                                let copy = text.clone();
                                advance(
                                    operation,
                                    Stage::Delivering { text, feedback },
                                    Action::WriteClipboard { text: copy },
                                )
                            },
                            Err(error) => fail(operation, feedback, error),
                        }
                    } else {
                        stay(operation, Stage::Parsing { provider, feedback })
                    }
                },
                _ => stay(operation, Stage::Parsing { provider, feedback }),
            },
            Stage::Delivering { text, feedback } => match event {
                Event::ClipboardWritten { ok } => finish(operation, text, feedback, ok),
                _ => stay(operation, Stage::Delivering { text, feedback }),
            },
            Stage::Finished { outcome } => stay(operation, Stage::Finished { outcome }),
        }
    }
}

} // verus!
