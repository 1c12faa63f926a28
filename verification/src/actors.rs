//! The daemon's actors: store, callbacks, tasks, resources and their supervisor.

use vstd::prelude::*;

pub mod callback;
pub mod resource;
pub mod store;
pub mod supervisor;
pub mod task;

use crate::error::{internal, AppError, ErrorView};
use crate::text::join2;

verus! {

/// Seconds after which a call of any actor gives up.
pub const CALL_TIMEOUT_SECS: u64 = 5;

/// What became of one actor call.
#[derive(Debug)]
pub enum CallOutcome<T> {
    /// The actor replied.
    Success(Result<T, AppError>),
    /// No reply came within the timeout.
    Timeout,
    /// The actor dropped the reply port.
    SenderError,
    /// The message was not delivered; the text says why.
    Messaging(String),
}

/// Flatten the outcome of an actor call: a transport failure is an internal error.
pub fn call<T>(outcome: CallOutcome<T>) -> (result: Result<T, AppError>)
    ensures
        match outcome {
            CallOutcome::Success(inner) => result == inner,
            CallOutcome::Timeout => result matches Err(error) && error@ == (ErrorView::Internal {
                message: "actor call timed out"@,
            }),
            CallOutcome::SenderError => result matches Err(error) && error@ == (
            ErrorView::Internal { message: "actor call sender error"@ }),
            CallOutcome::Messaging(text) => result matches Err(error) && error@ == (
            ErrorView::Internal { message: "actor messaging: "@ + text@ }),
        },
{
    match outcome {
        CallOutcome::Success(inner) => inner,
        CallOutcome::Timeout => Err(internal("actor call timed out")),
        CallOutcome::SenderError => Err(internal("actor call sender error")),
        CallOutcome::Messaging(text) => Err(
            AppError::Internal { message: join2("actor messaging: ", text.as_str()) },
        ),
    }
}

} // verus!
