//! The local route through which a co-located release watcher polls its authority.

use vstd::prelude::*;

use crate::error::{result_view, AppError, ErrorView};
use crate::ids::{ActionId, ResourceId, TaskId};
use crate::resource::ResourceRevision;
use crate::text::{decimal, decimal_digits, join2};

verus! {

/// Version of the watcher poll schema.
pub const RELEASE_WATCHER_PROTOCOL_VERSION: u32 = 1;

/// The identities that a watcher command was started with.
#[derive(Debug, Clone, Copy, PartialEq, Eq, Structural)]
pub struct ReleaseWatcherCommand {
    pub resource_id: ResourceId,
    pub action_id: ActionId,
    pub state_revision: ResourceRevision,
    pub trainer_task_id: TaskId,
    pub watcher_task_id: TaskId,
}

/// One poll of a watcher.
#[derive(Debug, Clone, Copy, PartialEq, Eq, Structural)]
pub struct ReleaseWatcherPollRequest {
    pub protocol_version: u32,
    pub watcher: ReleaseWatcherCommand,
}

/// The authority's answer to one poll.
#[derive(Debug)]
pub enum ReleaseWatcherPollOutcome {
    WatcherNotRunning,
    WaitingForTrainerStart,
    WaitingForCheckpoint,
    CompletedResultAwaitingTrainerExit,
    TrainerCompleted,
    ReleaseSettled,
    /// The exact trainer stop was committed at this checkpoint.
    StopCommitted { generation_id: String },
    Attention { reason: String },
}

/// The poll response.
#[derive(Debug)]
pub struct ReleaseWatcherPollResponse {
    pub protocol_version: u32,
    pub outcome: ReleaseWatcherPollOutcome,
}

/// What [`poll_request`] makes of a decoded body.
pub open spec fn poll_request_view(
    body: Result<ReleaseWatcherPollRequest, String>,
) -> Result<ReleaseWatcherPollRequest, ErrorView> {
    match body {
        Err(error) => Err(
            ErrorView::Usage { message: "invalid release watcher poll: "@ + error@ },
        ),
        Ok(request) => if request.protocol_version == RELEASE_WATCHER_PROTOCOL_VERSION {
            Ok(request)
        } else {
            Err(
                ErrorView::Usage {
                    message: "unsupported release watcher protocol version "@ + decimal_digits(
                        request.protocol_version as nat,
                    ),
                },
            )
        },
    }
}

/// Check a decoded poll body; `body` is the decoder's error text when it is not one.
pub fn poll_request(body: Result<ReleaseWatcherPollRequest, String>) -> (request: Result<
    ReleaseWatcherPollRequest,
    AppError,
>)
    ensures
        result_view(request) == poll_request_view(body),
{
    match body {
        Err(error) => Err(
            AppError::Usage { message: join2("invalid release watcher poll: ", error.as_str()) },
        ),
        Ok(request) => {
            if request.protocol_version != RELEASE_WATCHER_PROTOCOL_VERSION {
                let version = decimal(request.protocol_version as u64);
                return Err(
                    AppError::Usage {
                        message: join2(
                            "unsupported release watcher protocol version ",
                            version.as_str(),
                        ),
                    },
                );
            }
            Ok(request)
        },
    }
}

/// The answer to a poll, from the store's reply.
///
/// The outer error is the question's own failure; the inner text is a storage
/// failure that the watcher may retry.
pub fn poll_response(
    reply: Result<Result<ReleaseWatcherPollOutcome, String>, AppError>,
) -> (response: Result<ReleaseWatcherPollResponse, AppError>)
    ensures
        match reply {
            Ok(Ok(outcome)) => response == Ok::<ReleaseWatcherPollResponse, AppError>(
                ReleaseWatcherPollResponse {
                    protocol_version: RELEASE_WATCHER_PROTOCOL_VERSION,
                    outcome,
                },
            ),
            Ok(Err(error)) => result_view(response) == Err::<ReleaseWatcherPollResponse, ErrorView>(
                ErrorView::Internal { message: "release watcher poll storage: "@ + error@ },
            ),
            Err(error) => response == Err::<ReleaseWatcherPollResponse, AppError>(error),
        },
{
    match reply {
        Ok(Ok(outcome)) => Ok(
            ReleaseWatcherPollResponse {
                protocol_version: RELEASE_WATCHER_PROTOCOL_VERSION,
                outcome,
            },
        ),
        Ok(Err(error)) => Err(
            AppError::Internal {
                message: join2("release watcher poll storage: ", error.as_str()),
            },
        ),
        Err(error) => Err(error),
    }
}

} // verus!
