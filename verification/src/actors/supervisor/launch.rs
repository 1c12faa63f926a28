//! Workers of accepted tasks: the runner lock, the process, its pid, and the row of a
//! task whose worker could not start.

use vstd::prelude::*;

use crate::actors::store::StoreMsg;
use crate::actors::supervisor::{identity_matches, matching_identity};
use crate::actors::supervisor::{callback_executable, resolved_executable, CodexLookup};
use crate::domain::{
    needed_files, new_queued_task, prompt_files, queued_row, ExitReason, NormalizedSpec,
    ProcessGroupExitEvidence, ProcessStatus, PromptFiles, TaskPlacement, TaskRow,
};
use crate::error::{error_text, AppError, ErrorView};
use crate::ids::{hyphenated, MachineId, TaskId};
use crate::submission::{CallbackExecutable, ExecutorIdentity};
use crate::text::{decimal, decimal_digits, join2, join3};
use crate::time::Timestamp;

verus! {

/// Whether a start failure is reported to the caller or only kept in the row.
#[derive(Debug, Clone, Copy, PartialEq, Eq, Structural)]
pub enum SpawnMode {
    /// The acceptance already answered, so a start failure only finishes the row.
    Accepted,
    /// The caller waits for the start.
    Fresh,
}

/// Next part of starting one worker.
#[derive(Debug)]
pub enum SpawnStep {
    /// Prepare the task's files.
    Prepare { next: AwaitFiles },
    /// Take the runner lock.
    Lock { next: AwaitLock },
    /// Start the worker, handing it the lock.
    Run { next: AwaitRun },
    /// Save the worker's pid.
    AskPid { message: StoreMsg, next: AwaitPid },
    /// Finish the row of a task whose worker could not start.
    AskExit { message: StoreMsg, next: AwaitExit },
    /// Give the task its actor, whose result is the result.
    Watch { task: TaskId },
    Done(Result<(), AppError>),
}

/// Waiting for a task's files.
#[derive(Debug, Clone, Copy, PartialEq, Eq, Structural)]
pub struct AwaitFiles {
    pub task: TaskId,
}

/// Waiting for a task's runner lock.
#[derive(Debug, Clone, Copy, PartialEq, Eq, Structural)]
pub struct AwaitLock {
    pub task: TaskId,
    pub mode: SpawnMode,
}

/// Waiting for a task's worker.
#[derive(Debug, Clone, Copy, PartialEq, Eq, Structural)]
pub struct AwaitRun {
    pub task: TaskId,
    pub mode: SpawnMode,
}

/// Waiting for a worker's pid to be saved.
#[derive(Debug, Clone, Copy, PartialEq, Eq, Structural)]
pub struct AwaitPid {
    pub task: TaskId,
}

/// Waiting for the row of a task whose worker could not start.
#[derive(Debug)]
pub struct AwaitExit {
    /// Result once the row is finished.
    pub result: Result<(), AppError>,
}

/// Whether a step finishes a queued row with the failure of its start.
pub open spec fn finishes_row(
    step: SpawnStep,
    task: TaskId,
    failure: ErrorView,
    result: Result<(), AppError>,
) -> bool {
    &&& step matches SpawnStep::AskExit { message, next }
    &&& message matches StoreMsg::CasExit { id, from, reason, evidence }
    &&& reason matches ExitReason::SpawnFailed { message: text }
    &&& id == task
    &&& from == ProcessStatus::Queued
    &&& evidence == ProcessGroupExitEvidence::NoChildSpawned
    &&& text@ == error_text(failure)
    &&& next.result == result
}

/// Result of a start failure in each mode.
pub open spec fn failure_result(mode: SpawnMode, failure: AppError) -> Result<(), AppError> {
    match mode {
        SpawnMode::Accepted => Ok(()),
        SpawnMode::Fresh => Err(failure),
    }
}

fn finish_spawn_failed(task: TaskId, mode: SpawnMode, failure: AppError) -> (step: SpawnStep)
    ensures
        finishes_row(step, task, failure@, failure_result(mode, failure)),
{
    let message = failure.to_string();
    SpawnStep::AskExit {
        message: StoreMsg::CasExit {
            id: task,
            from: ProcessStatus::Queued,
            reason: ExitReason::SpawnFailed { message },
            evidence: ProcessGroupExitEvidence::NoChildSpawned,
        },
        next: AwaitExit {
            result: match mode {
                SpawnMode::Accepted => Ok(()),
                SpawnMode::Fresh => Err(failure),
            },
        },
    }
}

/// Prepare the files of a task that this call inserted, then start its worker.
pub fn spawn_inserted(task: TaskId) -> (step: SpawnStep)
    ensures
        step == (SpawnStep::Prepare { next: AwaitFiles { task } }),
{
    SpawnStep::Prepare { next: AwaitFiles { task } }
}

/// Start the worker of an accepted task.
pub fn launch_accepted(task: TaskId) -> (step: SpawnStep)
    ensures
        step == (SpawnStep::Lock { next: AwaitLock { task, mode: SpawnMode::Accepted } }),
{
    SpawnStep::Lock { next: AwaitLock { task, mode: SpawnMode::Accepted } }
}

impl AwaitFiles {
    /// A preparation failure finishes the committed row, so it never waits for a worker
    /// that cannot start.
    pub fn on_prepared(self, reply: Result<(), AppError>) -> (step: SpawnStep)
        ensures
            match reply {
                Ok(_) => step == (SpawnStep::Lock {
                    next: AwaitLock { task: self.task, mode: SpawnMode::Accepted },
                }),
                Err(error) => finishes_row(step, self.task, error@, Ok(())),
            },
    {
        match reply {
            Ok(_) => launch_accepted(self.task),
            Err(error) => finish_spawn_failed(self.task, SpawnMode::Accepted, error),
        }
    }
}

impl AwaitLock {
    /// Start the worker only while holding the runner lock.
    ///
    /// A held lock of an accepted task means that its worker already runs, so the task is
    /// only watched.
    pub fn on_lock(self, reply: Result<(), AppError>) -> (step: SpawnStep)
        ensures
            match reply {
                Ok(_) => step == (SpawnStep::Run {
                    next: AwaitRun { task: self.task, mode: self.mode },
                }),
                Err(error) => if self.mode == SpawnMode::Accepted && error is LockHeld {
                    step == (SpawnStep::Watch { task: self.task })
                } else {
                    finishes_row(step, self.task, error@, failure_result(self.mode, error))
                },
            },
    {
        match (self.mode, reply) {
            (_, Ok(_)) => SpawnStep::Run { next: AwaitRun { task: self.task, mode: self.mode } },
            (SpawnMode::Accepted, Err(AppError::LockHeld { .. })) => SpawnStep::Watch {
                task: self.task,
            },
            (mode, Err(error)) => finish_spawn_failed(self.task, mode, error),
        }
    }
}

/// Refusal of a pid outside the signed range.
pub open spec fn pid_refusal(task: TaskId, pid: u32) -> ErrorView {
    ErrorView::Internal {
        message: "runner pid "@ + decimal_digits(pid as nat) + " for task "@ + (hyphenated(task.0)
            + " does not fit a signed process id"@),
    }
}

/// Save a started runner's pid, refusing one outside the signed range that the store keeps.
pub fn record_pid(task: TaskId, pid: u32) -> (message: Result<StoreMsg, AppError>)
    ensures
        pid <= i32::MAX ==> message == Ok::<StoreMsg, AppError>(
            StoreMsg::SetPid { id: task, pid: pid as i32 },
        ),
        pid > i32::MAX ==> (message matches Err(error) && error@ == pid_refusal(task, pid)),
{
    if pid <= 0x7fff_ffff {
        return Ok(StoreMsg::SetPid { id: task, pid: pid as i32 });
    }
    let number = decimal(pid as u64);
    let uuid = task.text();
    let head = join3("runner pid ", number.as_str(), " for task ");
    let tail = join2(uuid.as_str(), " does not fit a signed process id");
    Err(AppError::Internal { message: join2(head.as_str(), tail.as_str()) })
}

impl AwaitRun {
    /// Save the pid of a worker that started.
    pub fn on_run(self, reply: Result<u32, AppError>) -> (step: SpawnStep)
        ensures
            match reply {
                Ok(pid) => if pid <= i32::MAX {
                    step == (SpawnStep::AskPid {
                        message: StoreMsg::SetPid { id: self.task, pid: pid as i32 },
                        next: AwaitPid { task: self.task },
                    })
                } else {
                    step matches SpawnStep::Done(Err(error)) && error@ == pid_refusal(self.task, pid)
                },
                Err(error) => finishes_row(
                    step,
                    self.task,
                    error@,
                    failure_result(self.mode, error),
                ),
            },
    {
        match reply {
            Ok(pid) => match record_pid(self.task, pid) {
                Ok(message) => SpawnStep::AskPid { message, next: AwaitPid { task: self.task } },
                Err(error) => SpawnStep::Done(Err(error)),
            },
            Err(error) => finish_spawn_failed(self.task, self.mode, error),
        }
    }
}

impl AwaitPid {
    /// Watch the task once its worker's pid is saved.
    pub fn on_saved(self, reply: Result<(), AppError>) -> (step: SpawnStep)
        ensures
            step == (match reply {
                Ok(_) => SpawnStep::Watch { task: self.task },
                Err(error) => SpawnStep::Done(Err(error)),
            }),
    {
        match reply {
            Ok(_) => SpawnStep::Watch { task: self.task },
            Err(error) => SpawnStep::Done(Err(error)),
        }
    }
}

impl AwaitExit {
    /// Report the start failure where the caller waits for it.
    pub fn on_finished(self, reply: Result<bool, AppError>) -> (step: SpawnStep)
        ensures
            step == (match reply {
                Ok(_) => SpawnStep::Done(self.result),
                Err(error) => SpawnStep::Done(Err(error)),
            }),
    {
        match reply {
            Ok(_) => SpawnStep::Done(self.result),
            Err(error) => SpawnStep::Done(Err(error)),
        }
    }
}

/// A local launch that waits for the executable of its callbacks.
#[derive(Debug)]
pub struct AwaitLocalCodex {
    pub row: TaskRow,
    pub placement: TaskPlacement,
    pub spec: NormalizedSpec,
    pub machine: MachineId,
}

/// A local launch that waits for its row.
#[derive(Debug, Clone, Copy, PartialEq, Eq, Structural)]
pub struct AwaitLocalRow {
    pub task: TaskId,
}

/// Launch a local task; the executable of its callbacks is looked up where the task runs.
pub fn launch(
    row: TaskRow,
    placement: TaskPlacement,
    spec: NormalizedSpec,
    machine: MachineId,
) -> (lookup: CodexLookup<AwaitLocalCodex>)
    ensures
        lookup == (CodexLookup {
            path: placement.env.path,
            cwd: placement.cwd,
            next: AwaitLocalCodex { row, placement, spec, machine },
        }),
{
    CodexLookup {
        path: placement.env.path.clone(),
        cwd: placement.cwd.clone(),
        next: AwaitLocalCodex { row, placement, spec, machine },
    }
}

impl AwaitLocalCodex {
    /// Insert the row; the worker starts only after the row exists, and a missing executable
    /// only fails the task's callbacks.
    pub fn on_codex(self, resolved: Result<String, AppError>) -> (asked: (StoreMsg, AwaitLocalRow))
        ensures
            exists|codex: CallbackExecutable| #[trigger]
                resolved_executable(resolved, codex) && asked.0 == (StoreMsg::InsertLocalTask {
                    row: self.row,
                    placement: self.placement,
                    spec: self.spec,
                    machine: self.machine,
                    codex,
                }),
            asked.1 == (AwaitLocalRow { task: self.row.id }),
    {
        let task = self.row.id;
        let message = StoreMsg::InsertLocalTask {
            row: self.row,
            placement: self.placement,
            spec: self.spec,
            machine: self.machine,
            codex: callback_executable(resolved),
        };
        (message, AwaitLocalRow { task })
    }
}

impl AwaitLocalRow {
    /// Lock and start the worker of the inserted row.
    pub fn on_inserted(self, reply: Result<(), AppError>) -> (step: SpawnStep)
        ensures
            step == (match reply {
                Ok(_) => SpawnStep::Lock {
                    next: AwaitLock { task: self.task, mode: SpawnMode::Fresh },
                },
                Err(error) => SpawnStep::Done(Err(error)),
            }),
    {
        match reply {
            Ok(_) => SpawnStep::Lock {
                next: AwaitLock { task: self.task, mode: SpawnMode::Fresh },
            },
            Err(error) => SpawnStep::Done(Err(error)),
        }
    }
}

/// Validated executor-local inputs with the original normalized retry content.
#[derive(Debug)]
pub struct RemoteLaunch {
    /// Global task identity.
    pub task: TaskId,
    /// Fixed callback owner.
    pub origin: MachineId,
    /// Fixed execution owner.
    pub execution: MachineId,
    /// Original normalized request.
    pub spec: NormalizedSpec,
    /// Executor-expanded directory, environment and program.
    pub placement: TaskPlacement,
    pub created_at: Timestamp,
}

/// Next part of one remote launch.
#[derive(Debug)]
pub enum RemoteLaunchStep {
    AskIdentity { message: StoreMsg, next: AwaitIdentity },
    /// Prepare the task's directory, and write these prompt files into it.
    Prepare { task: TaskId, files: Option<PromptFiles>, next: AwaitPrepared },
    AskInsert { message: StoreMsg, next: AwaitInserted },
    /// Start the accepted task's worker.
    Launch { step: SpawnStep, next: AwaitLaunched },
    AskFinal { message: StoreMsg, next: AwaitFinal },
    Done(Result<ExecutorIdentity, AppError>),
}

/// Waiting for the identity that an earlier request left.
#[derive(Debug)]
pub struct AwaitIdentity {
    pub request: RemoteLaunch,
}

/// Waiting for the task's files.
#[derive(Debug)]
pub struct AwaitPrepared {
    pub request: RemoteLaunch,
}

/// Waiting for the identity that the insertion left.
#[derive(Debug)]
pub struct AwaitInserted {
    pub task: TaskId,
    pub origin: MachineId,
    pub execution: MachineId,
    pub spec: NormalizedSpec,
}

/// Waiting for the worker of the accepted task.
#[derive(Debug, Clone, Copy, PartialEq, Eq, Structural)]
pub struct AwaitLaunched {
    pub task: TaskId,
}

/// Waiting for the identity after the launch.
#[derive(Debug, Clone, Copy, PartialEq, Eq, Structural)]
pub struct AwaitFinal {
    pub task: TaskId,
}

/// Accept a remote task, and launch it only if this request won acceptance.
pub fn launch_remote(request: RemoteLaunch) -> (step: RemoteLaunchStep)
    ensures
        step == (RemoteLaunchStep::AskIdentity {
            message: StoreMsg::ExecutorIdentity { id: request.task },
            next: AwaitIdentity { request },
        }),
{
    RemoteLaunchStep::AskIdentity {
        message: StoreMsg::ExecutorIdentity { id: request.task },
        next: AwaitIdentity { request },
    }
}

impl AwaitIdentity {
    /// A retained identity answers an exact retry and refuses any other.
    pub fn on_identity(self, reply: Result<Option<ExecutorIdentity>, AppError>) -> (step:
        RemoteLaunchStep)
        ensures
            step == (match reply {
                Err(error) => RemoteLaunchStep::Done(Err(error)),
                Ok(Some(identity)) => RemoteLaunchStep::Done(
                    if identity_matches(
                        identity,
                        self.request.spec@,
                        self.request.origin,
                        self.request.execution,
                    ) {
                        Ok(identity)
                    } else {
                        Err(AppError::ClusterTaskConflict { task: self.request.task })
                    },
                ),
                Ok(None) => RemoteLaunchStep::Prepare {
                    task: self.request.task,
                    files: needed_files(self.request.spec.workload),
                    next: AwaitPrepared { request: self.request },
                },
            }),
    {
        match reply {
            Err(error) => RemoteLaunchStep::Done(Err(error)),
            Ok(Some(identity)) => RemoteLaunchStep::Done(
                matching_identity(
                    identity,
                    &self.request.spec,
                    self.request.origin,
                    self.request.execution,
                    self.request.task,
                ),
            ),
            Ok(None) => RemoteLaunchStep::Prepare {
                task: self.request.task,
                files: prompt_files(&self.request.spec.workload),
                next: AwaitPrepared { request: self.request },
            },
        }
    }
}

/// Whether a step inserts the request's identity, queued row and first event together.
pub open spec fn inserts_request(step: RemoteLaunchStep, request: RemoteLaunch) -> bool {
    &&& step matches RemoteLaunchStep::AskInsert { message, next }
    &&& message matches StoreMsg::InsertRemoteTask { row, placement, spec, origin, execution }
    &&& row == queued_row(
        request.task,
        request.spec.thread,
        request.spec.timeout,
        request.created_at,
    )
    &&& placement == request.placement
    &&& spec@ == request.spec@
    &&& origin == request.origin
    &&& execution == request.execution
    &&& next == (AwaitInserted {
        task: request.task,
        origin: request.origin,
        execution: request.execution,
        spec: request.spec,
    })
}

impl AwaitPrepared {
    /// Insert the identity, the queued row and the first event together.
    pub fn on_prepared(self, reply: Result<(), AppError>) -> (step: RemoteLaunchStep)
        ensures
            match reply {
                Err(error) => step == RemoteLaunchStep::Done(Err(error)),
                Ok(_) => inserts_request(step, self.request),
            },
    {
        match reply {
            Err(error) => RemoteLaunchStep::Done(Err(error)),
            Ok(_) => {
                let request = self.request;
                let row = new_queued_task(
                    request.task,
                    request.spec.thread,
                    request.spec.timeout,
                    request.created_at,
                );
                RemoteLaunchStep::AskInsert {
                    message: StoreMsg::InsertRemoteTask {
                        row,
                        placement: request.placement,
                        spec: request.spec.duplicate(),
                        origin: request.origin,
                        execution: request.execution,
                    },
                    next: AwaitInserted {
                        task: request.task,
                        origin: request.origin,
                        execution: request.execution,
                        spec: request.spec,
                    },
                }
            },
        }
    }
}

impl AwaitInserted {
    /// Launch only an acceptance; a concurrent rejection is answered as it is.
    pub fn on_inserted(self, reply: Result<ExecutorIdentity, AppError>) -> (step: RemoteLaunchStep)
        ensures
            step == (match reply {
                Err(error) => RemoteLaunchStep::Done(Err(error)),
                Ok(identity) => if !identity_matches(
                    identity,
                    self.spec@,
                    self.origin,
                    self.execution,
                ) {
                    RemoteLaunchStep::Done(Err(AppError::ClusterTaskConflict { task: self.task }))
                } else if identity is Accepted {
                    RemoteLaunchStep::Launch {
                        step: SpawnStep::Lock {
                            next: AwaitLock { task: self.task, mode: SpawnMode::Accepted },
                        },
                        next: AwaitLaunched { task: self.task },
                    }
                } else {
                    RemoteLaunchStep::Done(Ok(identity))
                },
            }),
    {
        let identity = match reply {
            Ok(identity) => identity,
            Err(error) => {
                return RemoteLaunchStep::Done(Err(error));
            },
        };
        match matching_identity(identity, &self.spec, self.origin, self.execution, self.task) {
            Err(error) => RemoteLaunchStep::Done(Err(error)),
            Ok(ExecutorIdentity::Accepted(_)) => RemoteLaunchStep::Launch {
                step: launch_accepted(self.task),
                next: AwaitLaunched { task: self.task },
            },
            Ok(identity) => RemoteLaunchStep::Done(Ok(identity)),
        }
    }
}

impl AwaitLaunched {
    /// The acceptance stands whatever became of its launch, so it is read back.
    pub fn on_launched(self) -> (step: RemoteLaunchStep)
        ensures
            step == (RemoteLaunchStep::AskFinal {
                message: StoreMsg::ExecutorIdentity { id: self.task },
                next: AwaitFinal { task: self.task },
            }),
    {
        RemoteLaunchStep::AskFinal {
            message: StoreMsg::ExecutorIdentity { id: self.task },
            next: AwaitFinal { task: self.task },
        }
    }
}

impl AwaitFinal {
    /// Answer with the identity as it is now.
    pub fn on_identity(self, reply: Result<Option<ExecutorIdentity>, AppError>) -> (step:
        RemoteLaunchStep)
        ensures
            step == RemoteLaunchStep::Done(
                match reply {
                    Err(error) => Err(error),
                    Ok(Some(identity)) => Ok(identity),
                    Ok(None) => Err(AppError::TaskNotFound { id: self.task }),
                },
            ),
    {
        RemoteLaunchStep::Done(
            match reply {
                Err(error) => Err(error),
                Ok(Some(identity)) => Ok(identity),
                Ok(None) => Err(AppError::TaskNotFound { id: self.task }),
            },
        )
    }
}

} // verus!
