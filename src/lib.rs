//! Serialised access to a single-threaded script engine.
//!
//! Callers hand source text to a [`dispatcher::JsExecutor`]; a lone worker owns
//! the engine and answers each request exactly once through its completion
//! slot. The worker's decisions are the state machine of [`worker`]; what
//! holds of every run of it is proved in [`trace`].
mod channel;
pub mod dispatcher;
pub mod reply;
pub mod trace;
pub mod worker;

pub use dispatcher::{open_request, settle, submission, JsExecutor, MAX_CAPACITY};
pub use reply::{Reply, TransportError};
pub use worker::{Action, Event, Phase, Request, Worker};
