//! Decision core of a desktop tool that rewrites the selected text on a hotkey: the text is
//! polished or translated by a remote language model and the result is put on the clipboard.
//!
//! The crate holds every decision of such a run and performs none of its effects.
//!
//! - [`settings`] is the configuration record: defaults, the key of the active provider, and
//!   the move of the legacy single key into the per-provider table ([`api_keys`]).
//! - [`provider`] builds the request for each backend and reads the text out of its response.
//! - [`pipeline`] is one run as a state machine: each step takes what the caller reports and
//!   hands out the actions to perform next.
//! - [`guard`] counts the runs in flight per operation.
//! - [`error`] names the failures and describes them; [`text`] holds the string helpers.
//!
//! Contracts are stated over the mathematical views of the data: texts are `Seq<char>`, the
//! key table is a `Map`, and every record has a view type with the same fields.

pub mod api_keys;
pub mod error;
pub mod guard;
pub mod pipeline;
pub mod provider;
pub mod settings;
pub mod text;
