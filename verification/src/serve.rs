//! Start of a worker for an inserted task, outside the supervisor.

use vstd::prelude::*;

use crate::actors::store::StoreMsg;
use crate::domain::{ExitReason, ProcessGroupExitEvidence, ProcessStatus, TaskRow};
use crate::error::{error_text, AppError};
use crate::ids::TaskId;

verus! {

/// Next part of starting a worker.
#[derive(Debug)]
pub enum SpawnStep {
    /// Take the task's lock, which its worker inherits.
    AcquireLock { id: TaskId, next: AwaitLock },
    /// Start the worker.
    Spawn { id: TaskId, next: AwaitSpawned },
    AskPid { message: StoreMsg, next: AwaitPid },
    /// Have the supervisor watch the task.
    Watch { id: TaskId, next: AwaitWatched },
    AskExit { message: StoreMsg, next: AwaitExit },
    AskTask { message: StoreMsg, next: AwaitFailedTask },
    AskReports { message: StoreMsg, next: AwaitFailedReports },
    /// Deliver the task's end, then answer with the error.
    Deliver { row: TaskRow, reports: Vec<String>, error: AppError },
    Done(Result<(), AppError>),
}

/// Waiting for the task's lock.
#[derive(Debug, Clone, Copy, PartialEq, Eq, Structural)]
pub struct AwaitLock {
    pub id: TaskId,
}

/// Waiting for the worker.
#[derive(Debug, Clone, Copy, PartialEq, Eq, Structural)]
pub struct AwaitSpawned {
    pub id: TaskId,
}

/// Waiting for the saved pid.
#[derive(Debug, Clone, Copy, PartialEq, Eq, Structural)]
pub struct AwaitPid {
    pub id: TaskId,
}

/// Waiting for the supervisor.
#[derive(Debug, Clone, Copy, PartialEq, Eq, Structural)]
pub struct AwaitWatched;

/// Waiting for the saved failure.
#[derive(Debug)]
pub struct AwaitExit {
    pub id: TaskId,
    pub error: AppError,
}

/// Waiting for the failed task.
#[derive(Debug)]
pub struct AwaitFailedTask {
    pub id: TaskId,
    pub error: AppError,
}

/// Waiting for the failed task's reports.
#[derive(Debug)]
pub struct AwaitFailedReports {
    pub row: TaskRow,
    pub error: AppError,
}

/// Start a worker after a successful insert, then have the supervisor watch it.
pub fn spawn_and_watch(id: TaskId) -> (step: SpawnStep)
    ensures
        step == (SpawnStep::AcquireLock { id, next: AwaitLock { id } }),
{
    SpawnStep::AcquireLock { id, next: AwaitLock { id } }
}

impl AwaitLock {
    /// No worker starts without its lock.
    pub fn on_lock(self, locked: Result<(), AppError>) -> (step: SpawnStep)
        ensures
            step == (match locked {
                Err(error) => SpawnStep::Done(Err(error)),
                Ok(_) => SpawnStep::Spawn { id: self.id, next: AwaitSpawned { id: self.id } },
            }),
    {
        match locked {
            Err(error) => SpawnStep::Done(Err(error)),
            Ok(_) => SpawnStep::Spawn { id: self.id, next: AwaitSpawned { id: self.id } },
        }
    }
}

impl AwaitSpawned {
    /// A started worker's pid is saved; a task whose worker did not start has failed.
    pub fn on_spawned(self, spawned: Result<i32, AppError>) -> (step: SpawnStep)
        ensures
            match spawned {
                Ok(pid) => step == (SpawnStep::AskPid {
                    message: StoreMsg::SetPid { id: self.id, pid },
                    next: AwaitPid { id: self.id },
                }),
                Err(error) => {
                    &&& step matches SpawnStep::AskExit { message, next }
                    &&& message matches StoreMsg::CasExit { id, from, reason, evidence }
                    &&& id == self.id
                    &&& from == ProcessStatus::Queued
                    &&& reason matches ExitReason::SpawnFailed { message: text }
                    &&& text@ == error_text(error@)
                    &&& evidence == ProcessGroupExitEvidence::NoChildSpawned
                    &&& next == (AwaitExit { id: self.id, error })
                },
            },
    {
        match spawned {
            Ok(pid) => SpawnStep::AskPid {
                message: StoreMsg::SetPid { id: self.id, pid },
                next: AwaitPid { id: self.id },
            },
            Err(error) => SpawnStep::AskExit {
                message: StoreMsg::CasExit {
                    id: self.id,
                    from: ProcessStatus::Queued,
                    reason: ExitReason::SpawnFailed { message: error.to_string() },
                    evidence: ProcessGroupExitEvidence::NoChildSpawned,
                },
                next: AwaitExit { id: self.id, error },
            },
        }
    }
}

impl AwaitPid {
    /// Watch a worker whose pid is saved.
    pub fn on_saved(self, saved: Result<(), AppError>) -> (step: SpawnStep)
        ensures
            step == (match saved {
                Err(error) => SpawnStep::Done(Err(error)),
                Ok(_) => SpawnStep::Watch { id: self.id, next: AwaitWatched },
            }),
    {
        match saved {
            Err(error) => SpawnStep::Done(Err(error)),
            Ok(_) => SpawnStep::Watch { id: self.id, next: AwaitWatched },
        }
    }
}

impl AwaitWatched {
    /// The supervisor's answer is the caller's.
    pub fn on_watched(self, watched: Result<(), AppError>) -> (step: SpawnStep)
        ensures
            step == SpawnStep::Done(watched),
    {
        SpawnStep::Done(watched)
    }
}

impl AwaitExit {
    /// Go on with the stored task, whether or not this call changed it.
    pub fn on_exit(self, changed: Result<bool, AppError>) -> (step: SpawnStep)
        ensures
            step == (match changed {
                Err(error) => SpawnStep::Done(Err(error)),
                Ok(_) => SpawnStep::AskTask {
                    message: StoreMsg::GetTask { id: self.id },
                    next: AwaitFailedTask { id: self.id, error: self.error },
                },
            }),
    {
        match changed {
            Err(error) => SpawnStep::Done(Err(error)),
            Ok(_) => SpawnStep::AskTask {
                message: StoreMsg::GetTask { id: self.id },
                next: AwaitFailedTask { id: self.id, error: self.error },
            },
        }
    }
}

impl AwaitFailedTask {
    /// Ask for the reports that the task's end carries.
    pub fn on_task(self, reply: Result<Option<TaskRow>, AppError>) -> (step: SpawnStep)
        ensures
            step == (match reply {
                Err(error) => SpawnStep::Done(Err(error)),
                Ok(None) => SpawnStep::Done(Err(AppError::TaskNotFound { id: self.id })),
                Ok(Some(row)) => SpawnStep::AskReports {
                    message: StoreMsg::Reports { id: self.id },
                    next: AwaitFailedReports { row, error: self.error },
                },
            }),
    {
        match reply {
            Err(error) => SpawnStep::Done(Err(error)),
            Ok(None) => SpawnStep::Done(Err(AppError::TaskNotFound { id: self.id })),
            Ok(Some(row)) => SpawnStep::AskReports {
                message: StoreMsg::Reports { id: self.id },
                next: AwaitFailedReports { row, error: self.error },
            },
        }
    }
}

impl AwaitFailedReports {
    /// Deliver the end; the caller still gets the spawn error.
    pub fn on_reports(self, reply: Result<Vec<String>, AppError>) -> (step: SpawnStep)
        ensures
            step == (match reply {
                Err(error) => SpawnStep::Done(Err(error)),
                Ok(reports) => SpawnStep::Deliver { row: self.row, reports, error: self.error },
            }),
    {
        match reply {
            Err(error) => SpawnStep::Done(Err(error)),
            Ok(reports) => SpawnStep::Deliver { row: self.row, reports, error: self.error },
        }
    }
}

} // verus!
