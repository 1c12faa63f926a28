//! Resource-owned launches: assigned tasks, release watchers, returns, and background tasks.
//!
//! Every launch commits its task records before any spawn, and only the call whose
//! transaction inserted a row starts its worker.

use vstd::prelude::*;

use crate::actors::resource::messages::ResourceMsg;
use crate::actors::resource::reconcile::ReleaseWatcherLaunch;
use crate::actors::resource::watcher::{bound_command, command_of, PreparedActionTask};
use crate::actors::resource::{
    BackgroundLaunchResult, ReleaseWatcherAcceptance, ReleaseWatcherAcceptanceError,
    ReleaseWatcherLaunchResult, ResourceTaskAcceptance, RestoreLaunchResult,
};
use crate::actors::store::{
    storage_cause, EventError, IdentityError, ResourceStoreError, ResourceTaskAcceptanceInput,
    StoreFailure, StoreMsg,
};
use crate::actors::supervisor::{callback_executable, resolved_executable, CodexLookup};
use crate::domain::{NormalizedSpec, ProcessStatus, SpecDigest, TaskEnv};
use crate::error::{error_text, internal, AppError, ErrorView};
use crate::ids::{hyphenated, ActionId, MachineId, RequestId, ResourceId, TaskId, ThreadId};
use crate::release_watcher_api::ReleaseWatcherCommand;
use crate::resource::{
    ActionTaskIdentity, Loan, RejectionView, ReleaseWatcherIntent, RemoteBackgroundLaunchReceipt,
    ResourceActionRejection, ResourceRevision, ReturnDecisionWindow, ReturnLaunch,
    ReturnTaskOrigin, SupervisorActionAuthority,
};
use crate::submission::{CallbackContext, CallbackExecutable, OriginRoute};
use crate::text::{decimal, decimal_digits, join2, join3};

verus! {

/// Next part of one launch after the store answered it.
///
/// `A` is the acceptance, `E` the store's refusal, and `R` what the resource actor hears.
#[derive(Debug)]
pub enum LaunchStep<A, E, R> {
    /// Prepare and start the worker of the row that this call inserted.
    Spawn { task: TaskId, next: AwaitSpawn<A, R> },
    /// Give a running task its actor.
    Watch { task: TaskId, next: AwaitObserved<A, R> },
    /// Reconcile the resource that owns a queued row.
    Reconcile { resource: ResourceId, next: AwaitObserved<A, R> },
    /// Tell the resource actor, when one runs, how the launch finished, and answer.
    Done { report: Option<R>, result: Result<Result<A, E>, AppError> },
}

/// Waiting for the worker of an inserted row.
#[derive(Debug)]
pub struct AwaitSpawn<A, R> {
    pub acceptance: A,
    /// Report when the worker was started or its failure is in the row.
    pub inserted: Option<R>,
    /// Report when the committed row may have no worker.
    pub uncertain: Option<R>,
}

/// Waiting for the actor of an existing row.
#[derive(Debug)]
pub struct AwaitObserved<A, R> {
    pub acceptance: A,
    pub observed: Option<R>,
}

impl<A, R> AwaitSpawn<A, R> {
    /// Report what became of the one spawn attempt.
    pub fn on_spawned<E>(self, reply: Result<(), AppError>) -> (step: LaunchStep<A, E, R>)
        ensures
            step == (match reply {
                Ok(_) => LaunchStep::<A, E, R>::Done {
                    report: self.inserted,
                    result: Ok(Ok(self.acceptance)),
                },
                Err(error) => LaunchStep::Done { report: self.uncertain, result: Err(error) },
            }),
    {
        match reply {
            Ok(_) => LaunchStep::Done { report: self.inserted, result: Ok(Ok(self.acceptance)) },
            Err(error) => LaunchStep::Done { report: self.uncertain, result: Err(error) },
        }
    }
}

impl<A, R> AwaitObserved<A, R> {
    /// Report the observed row; a failure to observe it reports nothing.
    pub fn on_observed<E>(self, reply: Result<(), AppError>) -> (step: LaunchStep<A, E, R>)
        ensures
            step == (match reply {
                Ok(_) => LaunchStep::<A, E, R>::Done {
                    report: self.observed,
                    result: Ok(Ok(self.acceptance)),
                },
                Err(error) => LaunchStep::Done { report: None, result: Err(error) },
            }),
    {
        match reply {
            Ok(_) => LaunchStep::Done { report: self.observed, result: Ok(Ok(self.acceptance)) },
            Err(error) => LaunchStep::Done { report: None, result: Err(error) },
        }
    }
}

/// What became of telling the resource actor that a launch starts.
#[derive(Debug)]
pub enum StartTold {
    /// No actor of the resource runs.
    NoActor,
    Told,
    /// The actor could not be told; the text says why.
    Failed(String),
}

/// Whether the resource actor hears how a launch finishes.
#[derive(Debug, Clone, Copy, PartialEq, Eq, Structural)]
pub struct LaunchReporter {
    pub has_actor: bool,
}

impl LaunchReporter {
    /// A launch goes on only when the resource actor, where one runs, was told of it.
    pub fn start(told: StartTold) -> (reporter: Result<LaunchReporter, AppError>)
        ensures
            match told {
                StartTold::NoActor => reporter == Ok::<LaunchReporter, AppError>(
                    LaunchReporter { has_actor: false },
                ),
                StartTold::Told => reporter == Ok::<LaunchReporter, AppError>(
                    LaunchReporter { has_actor: true },
                ),
                StartTold::Failed(text) => reporter matches Err(error) && error@ == (
                ErrorView::Internal { message: "actor messaging: "@ + text@ }),
            },
    {
        match told {
            StartTold::NoActor => Ok(LaunchReporter { has_actor: false }),
            StartTold::Told => Ok(LaunchReporter { has_actor: true }),
            StartTold::Failed(text) => Err(
                AppError::Internal { message: join2("actor messaging: ", text.as_str()) },
            ),
        }
    }

    /// What the resource actor, where one runs, is told of the finished launch.
    pub fn finish<R>(self, report: Option<R>) -> (told: Option<R>)
        ensures
            told == if self.has_actor {
                report
            } else {
                None
            },
    {
        if self.has_actor {
            report
        } else {
            None
        }
    }
}

/// The task whose worker a step starts.
pub open spec fn spawned_task<A, E, R>(step: LaunchStep<A, E, R>) -> Option<TaskId> {
    match step {
        LaunchStep::Spawn { task, .. } => Some(task),
        _ => None,
    }
}

/// Whether a step fails because the store answered for another task.
pub open spec fn unexpected_identity<A, E, R>(
    step: LaunchStep<A, E, R>,
    report: Option<R>,
    what: Seq<char>,
    task: TaskId,
) -> bool {
    step matches LaunchStep::Done { report: found, result: Err(error) } && found == report && error@
        == (ErrorView::Internal {
        message: what + " acceptance returned an unexpected identity for "@ + hyphenated(task.0),
    })
}

fn unexpected<A, E, R>(report: Option<R>, what: &str, task: TaskId) -> (step: LaunchStep<A, E, R>)
    ensures
        unexpected_identity(step, report, what@, task),
{
    let uuid = task.text();
    LaunchStep::Done {
        report,
        result: Err(
            AppError::Internal {
                message: join3(
                    what,
                    " acceptance returned an unexpected identity for ",
                    uuid.as_str(),
                ),
            },
        ),
    }
}

/// Launch of an assigned request's task.
pub type AssignedStep = LaunchStep<ResourceTaskAcceptance, ResourceStoreError, ()>;

/// What follows the store's answer to an assigned task.
pub open spec fn assigned_launch(
    launch: AssignedLaunch,
    reply: Result<Result<ResourceTaskAcceptance, ResourceStoreError>, AppError>,
    step: AssignedStep,
) -> bool {
    match reply {
        Err(error) => step == (AssignedStep::Done { report: None, result: Err(error) }),
        Ok(Err(error)) => step == (AssignedStep::Done { report: None, result: Ok(Err(error)) }),
        Ok(Ok(acceptance)) => match acceptance {
            ResourceTaskAcceptance::Inserted { task } => if task == launch.task_id {
                step == (AssignedStep::Spawn {
                    task,
                    next: AwaitSpawn { acceptance, inserted: None, uncertain: None },
                })
            } else {
                unexpected_identity(step, None, "resource task"@, launch.task_id)
            },
            ResourceTaskAcceptance::Existing { task, state } => if task != launch.task_id {
                unexpected_identity(step, None, "resource task"@, launch.task_id)
            } else if state == ProcessStatus::Queued {
                step == (AssignedStep::Reconcile {
                    resource: launch.resource_id,
                    next: AwaitObserved { acceptance, observed: None },
                })
            } else if state == ProcessStatus::Running {
                step == (AssignedStep::Watch {
                    task,
                    next: AwaitObserved { acceptance, observed: None },
                })
            } else {
                step == (AssignedStep::Done { report: None, result: Ok(Ok(acceptance)) })
            },
        },
    }
}

/// Waiting for the acceptance of an assigned request's task.
#[derive(Debug, Clone, Copy, PartialEq, Eq, Structural)]
pub struct AssignedLaunch {
    pub task_id: TaskId,
    pub resource_id: ResourceId,
}

/// The question that accepts an assigned request's task, and what waits for its answer.
pub fn launch_assigned_resource_task(input: ResourceTaskAcceptanceInput) -> (asked: (
    StoreMsg,
    AssignedLaunch,
))
    ensures
        asked == (
            StoreMsg::AcceptAssignedResourceTask { input },
            AssignedLaunch { task_id: input.task_id, resource_id: input.resource_id },
        ),
{
    let launch = AssignedLaunch { task_id: input.task_id, resource_id: input.resource_id };
    (StoreMsg::AcceptAssignedResourceTask { input }, launch)
}

/// Spawn only a fresh insertion; an existing row is reconciled, watched or left alone.
pub fn on_assigned_accepted(
    launch: AssignedLaunch,
    reply: Result<Result<ResourceTaskAcceptance, ResourceStoreError>, AppError>,
) -> (step: AssignedStep)
    ensures
        assigned_launch(launch, reply, step),
{
    let acceptance = match reply {
        Ok(Ok(acceptance)) => acceptance,
        Ok(Err(error)) => {
            return LaunchStep::Done { report: None, result: Ok(Err(error)) };
        },
        Err(error) => {
            return LaunchStep::Done { report: None, result: Err(error) };
        },
    };
    match acceptance {
        ResourceTaskAcceptance::Inserted { task } if task == launch.task_id => LaunchStep::Spawn {
            task,
            next: AwaitSpawn { acceptance, inserted: None, uncertain: None },
        },
        ResourceTaskAcceptance::Existing { task, state } if task == launch.task_id => match state {
            ProcessStatus::Queued => LaunchStep::Reconcile {
                resource: launch.resource_id,
                next: AwaitObserved { acceptance, observed: None },
            },
            ProcessStatus::Running => LaunchStep::Watch {
                task,
                next: AwaitObserved { acceptance, observed: None },
            },
            _ => LaunchStep::Done { report: None, result: Ok(Ok(acceptance)) },
        },
        _ => unexpected(None, "resource task", launch.task_id),
    }
}

/// Launch of a bound release watcher.
pub type WatcherStep = LaunchStep<ReleaseWatcherAcceptance, ReleaseWatcherAcceptanceError, ()>;

/// Next part of preparing one watcher launch.
#[derive(Debug)]
pub enum WatcherLaunchStep {
    /// Build the canonical command of the intent.
    BuildSpec {
        command: ReleaseWatcherCommand,
        executable: String,
        thread: ThreadId,
        next: AwaitWatcherSpec,
    },
    /// Environment of the row that an earlier acceptance left, if it did.
    AskRow { message: StoreMsg, next: AwaitWatcherEnv },
    AskRoute { message: StoreMsg, next: AwaitWatcherRoute },
    /// Capture this executor's environment.
    Capture { next: AwaitWatcherContext },
    ResolveCodex { lookup: CodexLookup<AwaitWatcherCodex> },
    AskAcceptance { message: StoreMsg, next: AwaitWatcherAccepted },
    Failed(AppError),
}

/// Waiting for the canonical command of a watcher.
#[derive(Debug)]
pub struct AwaitWatcherSpec {
    pub launch: ReleaseWatcherLaunch,
}

/// Waiting for the environment that an earlier acceptance saved.
#[derive(Debug)]
pub struct AwaitWatcherEnv {
    pub launch: ReleaseWatcherLaunch,
    pub spec: NormalizedSpec,
}

/// Waiting for the route that an earlier acceptance saved.
#[derive(Debug)]
pub struct AwaitWatcherRoute {
    pub launch: ReleaseWatcherLaunch,
    pub spec: NormalizedSpec,
    pub saved_env: Option<TaskEnv>,
}

/// Waiting for the captured environment of a first acceptance.
#[derive(Debug)]
pub struct AwaitWatcherContext {
    pub launch: ReleaseWatcherLaunch,
    pub spec: NormalizedSpec,
}

/// Waiting for the executable that a watcher's callbacks use.
#[derive(Debug)]
pub struct AwaitWatcherCodex {
    pub launch: ReleaseWatcherLaunch,
    pub spec: NormalizedSpec,
    pub env: TaskEnv,
}

/// Waiting for the acceptance of a watcher.
#[derive(Debug, Clone, Copy, PartialEq, Eq, Structural)]
pub struct AwaitWatcherAccepted {
    pub task: TaskId,
}

/// Accept one bound watcher; the store rejects any command that differs from its intent.
pub fn launch_bound_release_watcher(launch: ReleaseWatcherLaunch) -> (step: WatcherLaunchStep)
    ensures
        step == (WatcherLaunchStep::BuildSpec {
            command: command_of(launch.resource_id, launch.intent),
            executable: launch.executable,
            thread: launch.supervisor.thread,
            next: AwaitWatcherSpec { launch },
        }),
{
    WatcherLaunchStep::BuildSpec {
        command: bound_command(launch.resource_id, &launch.intent),
        executable: launch.executable.clone(),
        thread: launch.supervisor.thread,
        next: AwaitWatcherSpec { launch },
    }
}

/// The question that accepts a watcher with this environment and callback.
pub open spec fn watcher_acceptance(
    launch: ReleaseWatcherLaunch,
    spec: NormalizedSpec,
    env: TaskEnv,
    callback: CallbackContext,
) -> WatcherLaunchStep {
    WatcherLaunchStep::AskAcceptance {
        message: StoreMsg::AcceptReleaseWatcherForAuthority {
            authority_machine: launch.authority_machine,
            resource_id: launch.resource_id,
            supervisor: launch.supervisor,
            intent: launch.intent,
            spec,
            env,
            callback,
            executable: launch.executable,
        },
        next: AwaitWatcherAccepted { task: launch.intent.watcher_task_id },
    }
}

fn ask_watcher_acceptance(
    launch: ReleaseWatcherLaunch,
    spec: NormalizedSpec,
    env: TaskEnv,
    callback: CallbackContext,
) -> (step: WatcherLaunchStep)
    ensures
        step == watcher_acceptance(launch, spec, env, callback),
{
    WatcherLaunchStep::AskAcceptance {
        message: StoreMsg::AcceptReleaseWatcherForAuthority {
            authority_machine: launch.authority_machine,
            resource_id: launch.resource_id,
            supervisor: launch.supervisor,
            intent: launch.intent,
            spec,
            env,
            callback,
            executable: launch.executable,
        },
        next: AwaitWatcherAccepted { task: launch.intent.watcher_task_id },
    }
}

impl AwaitWatcherSpec {
    /// Look for what an earlier acceptance of this watcher saved.
    pub fn on_spec(self, built: Result<NormalizedSpec, AppError>) -> (step: WatcherLaunchStep)
        ensures
            step == (match built {
                Err(error) => WatcherLaunchStep::Failed(error),
                Ok(spec) => WatcherLaunchStep::AskRow {
                    message: StoreMsg::GetTask { id: self.launch.intent.watcher_task_id },
                    next: AwaitWatcherEnv { launch: self.launch, spec },
                },
            }),
    {
        match built {
            Err(error) => WatcherLaunchStep::Failed(error),
            Ok(spec) => WatcherLaunchStep::AskRow {
                message: StoreMsg::GetTask { id: self.launch.intent.watcher_task_id },
                next: AwaitWatcherEnv { launch: self.launch, spec },
            },
        }
    }
}

impl AwaitWatcherEnv {
    /// `reply` holds the environment of the saved row, if there is a row.
    pub fn on_row(self, reply: Result<Option<TaskEnv>, AppError>) -> (step: WatcherLaunchStep)
        ensures
            step == (match reply {
                Err(error) => WatcherLaunchStep::Failed(error),
                Ok(saved_env) => WatcherLaunchStep::AskRoute {
                    message: StoreMsg::OriginRouteByRequest {
                        request: self.launch.intent.request_id,
                    },
                    next: AwaitWatcherRoute { launch: self.launch, spec: self.spec, saved_env },
                },
            }),
    {
        match reply {
            Err(error) => WatcherLaunchStep::Failed(error),
            Ok(saved_env) => WatcherLaunchStep::AskRoute {
                message: StoreMsg::OriginRouteByRequest { request: self.launch.intent.request_id },
                next: AwaitWatcherRoute { launch: self.launch, spec: self.spec, saved_env },
            },
        }
    }
}

impl AwaitWatcherRoute {
    /// Reuse the environment and callback saved by an earlier acceptance of this watcher.
    ///
    /// The daemon environment can differ after a restart and must not turn an exact retry
    /// into a conflict.
    pub fn on_route(self, reply: Result<Option<OriginRoute>, AppError>) -> (step: WatcherLaunchStep)
        ensures
            match reply {
                Err(error) => step == WatcherLaunchStep::Failed(error),
                Ok(route) => match (self.saved_env, route) {
                    (Some(env), Some(route)) if route.task == self.launch.intent.watcher_task_id =>
                        step == watcher_acceptance(self.launch, self.spec, env, route.callback),
                    _ => step == (WatcherLaunchStep::Capture {
                        next: AwaitWatcherContext { launch: self.launch, spec: self.spec },
                    }),
                },
            },
    {
        let route = match reply {
            Ok(route) => route,
            Err(error) => {
                return WatcherLaunchStep::Failed(error);
            },
        };
        match (self.saved_env, route) {
            (Some(env), Some(route)) if route.task == self.launch.intent.watcher_task_id =>
                ask_watcher_acceptance(self.launch, self.spec, env, route.callback),
            _ => WatcherLaunchStep::Capture {
                next: AwaitWatcherContext { launch: self.launch, spec: self.spec },
            },
        }
    }
}

impl AwaitWatcherContext {
    /// Look up the executable of the watcher's callbacks in the daemon's own environment.
    pub fn on_captured(self, env: TaskEnv) -> (step: WatcherLaunchStep)
        ensures
            step == (WatcherLaunchStep::ResolveCodex {
                lookup: CodexLookup {
                    path: env.path,
                    cwd: self.spec.cwd,
                    next: AwaitWatcherCodex { launch: self.launch, spec: self.spec, env },
                },
            }),
    {
        WatcherLaunchStep::ResolveCodex {
            lookup: CodexLookup {
                path: env.path.clone(),
                cwd: self.spec.cwd.clone(),
                next: AwaitWatcherCodex { launch: self.launch, spec: self.spec, env },
            },
        }
    }
}

impl AwaitWatcherCodex {
    /// Accept with the daemon's own environment, which the callbacks share.
    pub fn on_codex(self, resolved: Result<String, AppError>) -> (step: WatcherLaunchStep)
        ensures
            exists|codex: CallbackExecutable| #[trigger]
                resolved_executable(resolved, codex) && step == watcher_acceptance(
                    self.launch,
                    self.spec,
                    self.env,
                    CallbackContext { env: self.env, cwd: self.spec.cwd, codex },
                ),
    {
        let codex = callback_executable(resolved);
        let callback = CallbackContext {
            env: self.env.clone(),
            cwd: self.spec.cwd.clone(),
            codex,
        };
        ask_watcher_acceptance(self.launch, self.spec, self.env, callback)
    }
}

/// What follows the store's answer to a bound watcher.
pub open spec fn watcher_launched(
    task_id: TaskId,
    reply: Result<Result<ReleaseWatcherAcceptance, ReleaseWatcherAcceptanceError>, AppError>,
    step: WatcherStep,
) -> bool {
    match reply {
        Err(error) => step == (WatcherStep::Done { report: None, result: Err(error) }),
        Ok(Err(error)) => step == (WatcherStep::Done { report: None, result: Ok(Err(error)) }),
        Ok(Ok(acceptance)) => match acceptance {
            ReleaseWatcherAcceptance::Inserted { task } => if task == task_id {
                step == (WatcherStep::Spawn {
                    task,
                    next: AwaitSpawn { acceptance, inserted: None, uncertain: None },
                })
            } else {
                unexpected_identity(step, None, "release watcher"@, task_id)
            },
            ReleaseWatcherAcceptance::Existing { task, state } => if task != task_id {
                unexpected_identity(step, None, "release watcher"@, task_id)
            } else if state == ProcessStatus::Running {
                step == (WatcherStep::Watch {
                    task,
                    next: AwaitObserved { acceptance, observed: None },
                })
            } else {
                step == (WatcherStep::Done { report: None, result: Ok(Ok(acceptance)) })
            },
            ReleaseWatcherAcceptance::UnsupportedRemoteSupervisor { .. } => step == (
            WatcherStep::Done { report: None, result: Ok(Ok(acceptance)) }),
        },
    }
}

impl AwaitWatcherAccepted {
    /// Spawn only a fresh insertion.
    ///
    /// A queued row found again may already have a worker or a lost spawn, and a free
    /// runner lock does not tell them apart, so it is only observed.
    pub fn on_accepted(
        self,
        reply: Result<Result<ReleaseWatcherAcceptance, ReleaseWatcherAcceptanceError>, AppError>,
    ) -> (step: WatcherStep)
        ensures
            watcher_launched(self.task, reply, step),
    {
        let acceptance = match reply {
            Ok(Ok(acceptance)) => acceptance,
            Ok(Err(error)) => {
                return LaunchStep::Done { report: None, result: Ok(Err(error)) };
            },
            Err(error) => {
                return LaunchStep::Done { report: None, result: Err(error) };
            },
        };
        match acceptance {
            ReleaseWatcherAcceptance::Inserted { task } if task == self.task => LaunchStep::Spawn {
                task,
                next: AwaitSpawn { acceptance, inserted: None, uncertain: None },
            },
            ReleaseWatcherAcceptance::Existing { task, state } if task == self.task => {
                if state == ProcessStatus::Running {
                    LaunchStep::Watch { task, next: AwaitObserved { acceptance, observed: None } }
                } else {
                    LaunchStep::Done { report: None, result: Ok(Ok(acceptance)) }
                }
            },
            ReleaseWatcherAcceptance::UnsupportedRemoteSupervisor { .. } => LaunchStep::Done {
                report: None,
                result: Ok(Ok(acceptance)),
            },
            _ => unexpected(None, "release watcher", self.task),
        }
    }
}

/// Acceptance of one return task.
#[derive(Debug, Clone, Copy, PartialEq, Eq, Structural)]
pub enum ReturnTaskAcceptance {
    Inserted { task: TaskId },
    Existing { task: TaskId, state: ProcessStatus },
    UnsupportedRemoteSupervisor { supervisor_machine: MachineId },
}

/// A loan that a return closed.
#[derive(Debug, Clone, Copy, PartialEq, Eq, Structural)]
pub struct ReturnClosure {
    pub loan: Loan,
    pub state_revision: ResourceRevision,
}

/// Why the store refused a return decision.
#[derive(Debug)]
pub enum ReturnDecisionError {
    Storage(AppError),
    Encoding(AppError),
    Identity(IdentityError),
    TaskRecords(AppError),
    Resource(ResourceStoreError),
    RevisionExhausted { revision: ResourceRevision },
    NotCurrentSupervisor,
    OriginMismatch,
    ActionNotPending { action_id: ActionId },
    InvalidReturnNotice { action_id: ActionId },
    StaleRevision { expected: ResourceRevision, actual: ResourceRevision },
    SpecMismatch,
    ConflictingRetry { request_id: RequestId },
    IdentityConflict { task_id: TaskId },
    /// The return task has not ended; the text says so.
    RestoreNotEnded { text: String },
    RestoreReleaseUnproven { text: String },
    RestoreOwnershipUnproven { text: String },
    Rejected { text: String },
    HoldRejected { text: String },
    BackgroundTaskMismatch { text: String },
}

/// The failure inside a resource error that leaves the result unknown: one of the storage, at
/// whatever layer, or an internal one of the task's own records.
pub open spec fn unknown_cause(error: ResourceStoreError) -> Option<AppError> {
    match error {
        ResourceStoreError::Storage(cause) => Some(cause),
        ResourceStoreError::Identity(IdentityError::Storage(cause)) => Some(cause),
        ResourceStoreError::Event(EventError::Storage(cause)) => Some(cause),
        ResourceStoreError::TaskPreparation(cause) if cause is Internal => Some(cause),
        ResourceStoreError::TaskRow(cause) if cause is Internal => Some(cause),
        _ => None,
    }
}

/// What one return-decision error means: a definitive rejection or an unknown outcome.
pub open spec fn decision_rejection(error: ReturnDecisionError) -> Result<
    RejectionView,
    ErrorView,
> {
    match error {
        ReturnDecisionError::Storage(error) => Err(error@),
        ReturnDecisionError::Encoding(error) => Err(error@),
        ReturnDecisionError::Identity(IdentityError::Storage(error)) => Err(error@),
        ReturnDecisionError::Identity(_) => Ok(RejectionView::IdentityConflict),
        ReturnDecisionError::TaskRecords(error) => if error is Internal {
            Err(error@)
        } else {
            Ok(RejectionView::DecisionRejected { reason: error_text(error@) })
        },
        ReturnDecisionError::Resource(error) => match unknown_cause(error) {
            Some(cause) => Err(cause@),
            None => Ok(RejectionView::ActionNotPending),
        },
        ReturnDecisionError::RevisionExhausted { revision } => Err(
            ErrorView::Internal {
                message: "resource revision ResourceRevision("@ + decimal_digits(revision.0 as nat)
                    + ") cannot be incremented"@,
            },
        ),
        ReturnDecisionError::NotCurrentSupervisor => Ok(RejectionView::NotCurrentSupervisor),
        ReturnDecisionError::OriginMismatch => Ok(RejectionView::NotCurrentSupervisor),
        ReturnDecisionError::ActionNotPending { .. } => Ok(RejectionView::ActionNotPending),
        ReturnDecisionError::InvalidReturnNotice { .. } => Ok(RejectionView::ActionNotPending),
        ReturnDecisionError::StaleRevision { expected, actual } => Ok(
            RejectionView::StaleRevision { expected, actual },
        ),
        ReturnDecisionError::SpecMismatch => Ok(RejectionView::SpecMismatch),
        ReturnDecisionError::ConflictingRetry { .. } => Ok(RejectionView::ConflictingRetry),
        ReturnDecisionError::IdentityConflict { .. } => Ok(RejectionView::IdentityConflict),
        ReturnDecisionError::RestoreNotEnded { text } => Ok(
            RejectionView::RestoreNotResolvable { reason: text@ },
        ),
        ReturnDecisionError::RestoreReleaseUnproven { text } => Ok(
            RejectionView::RestoreNotResolvable { reason: text@ },
        ),
        ReturnDecisionError::RestoreOwnershipUnproven { text } => Ok(
            RejectionView::RestoreNotResolvable { reason: text@ },
        ),
        ReturnDecisionError::Rejected { text } => Ok(
            RejectionView::DecisionRejected { reason: text@ },
        ),
        ReturnDecisionError::HoldRejected { text } => Ok(
            RejectionView::DecisionRejected { reason: text@ },
        ),
        ReturnDecisionError::BackgroundTaskMismatch { text } => Ok(
            RejectionView::DecisionRejected { reason: text@ },
        ),
    }
}

/// A resource error of a return decision: a refusal, unless it leaves the result unknown.
fn resource_rejection(error: ResourceStoreError) -> (result: Result<
    ResourceActionRejection,
    AppError,
>)
    ensures
        result == (match unknown_cause(error) {
            Some(cause) => Err(cause),
            None => Ok(ResourceActionRejection::ActionNotPending),
        }),
{
    match error {
        ResourceStoreError::Storage(cause)
        | ResourceStoreError::Identity(IdentityError::Storage(cause))
        | ResourceStoreError::Event(EventError::Storage(cause)) => Err(cause),
        ResourceStoreError::TaskPreparation(cause) | ResourceStoreError::TaskRow(cause) => {
            if let AppError::Internal { .. } = &cause {
                return Err(cause);
            }
            Ok(ResourceActionRejection::ActionNotPending)
        },
        _ => Ok(ResourceActionRejection::ActionNotPending),
    }
}

/// Split one return-decision error into a definitive rejection or an unknown outcome.
///
/// Storage, encoding, and internal task-record failures leave the result unknown, so they
/// stay errors and are never reported as a refusal.
pub fn return_decision_rejection(error: ReturnDecisionError) -> (result: Result<
    ResourceActionRejection,
    AppError,
>)
    ensures
        match decision_rejection(error) {
            Ok(reason) => result matches Ok(found) && found@ == reason,
            Err(error) => result matches Err(found) && found@ == error,
        },
{
    match error {
        ReturnDecisionError::Storage(error) | ReturnDecisionError::Encoding(error) => Err(error),
        ReturnDecisionError::Identity(IdentityError::Storage(error)) => Err(error),
        ReturnDecisionError::Identity(_) | ReturnDecisionError::IdentityConflict { .. } => Ok(
            ResourceActionRejection::IdentityConflict,
        ),
        ReturnDecisionError::TaskRecords(error) => {
            if let AppError::Internal { .. } = &error {
                return Err(error);
            }
            Ok(ResourceActionRejection::DecisionRejected { reason: error.to_string() })
        },
        ReturnDecisionError::Resource(error) => resource_rejection(error),
        ReturnDecisionError::RevisionExhausted { revision } => {
            let number = decimal(revision.0);
            Err(
                AppError::Internal {
                    message: join3(
                        "resource revision ResourceRevision(",
                        number.as_str(),
                        ") cannot be incremented",
                    ),
                },
            )
        },
        ReturnDecisionError::NotCurrentSupervisor | ReturnDecisionError::OriginMismatch => Ok(
            ResourceActionRejection::NotCurrentSupervisor,
        ),
        ReturnDecisionError::ActionNotPending { .. }
        | ReturnDecisionError::InvalidReturnNotice { .. } => Ok(
            ResourceActionRejection::ActionNotPending,
        ),
        ReturnDecisionError::StaleRevision { expected, actual } => Ok(
            ResourceActionRejection::StaleRevision { expected, actual },
        ),
        ReturnDecisionError::SpecMismatch => Ok(ResourceActionRejection::SpecMismatch),
        ReturnDecisionError::ConflictingRetry { .. } => Ok(
            ResourceActionRejection::ConflictingRetry,
        ),
        ReturnDecisionError::RestoreNotEnded { text }
        | ReturnDecisionError::RestoreReleaseUnproven { text }
        | ReturnDecisionError::RestoreOwnershipUnproven { text } => Ok(
            ResourceActionRejection::RestoreNotResolvable { reason: text },
        ),
        ReturnDecisionError::Rejected { text }
        | ReturnDecisionError::HoldRejected { text }
        | ReturnDecisionError::BackgroundTaskMismatch { text } => Ok(
            ResourceActionRejection::DecisionRejected { reason: text },
        ),
    }
}

/// Receipt of an accepted supervisor action.
#[derive(Debug, Clone, Copy, PartialEq, Eq, Structural)]
pub struct ActionTaskReceipt {
    pub kind: ResourceActionKind,
    pub authority: SupervisorActionAuthority,
    pub request_id: RequestId,
    pub task_id: TaskId,
    pub normalized_spec_sha256: SpecDigest,
}

/// What a supervisor action launches.
#[derive(Debug, Clone, Copy, PartialEq, Eq, Structural)]
pub enum ResourceActionKind {
    ReleaseWatcher,
    Return,
}

/// Acceptance of a supervisor action's task.
#[derive(Debug, Clone, Copy, PartialEq, Eq, Structural)]
pub enum ActionTaskAcceptance {
    Inserted,
    Existing { state: ProcessStatus },
}

/// The authority's answer to one remote-supervisor operation.
#[derive(Debug)]
pub enum ResourceActionOutcome {
    Prepared { task: PreparedActionTask },
    Accepted { receipt: ActionTaskReceipt, acceptance: ActionTaskAcceptance },
    Closed { loan: Loan, state_revision: ResourceRevision },
    ReturnHeld { window: ReturnDecisionWindow },
    Rejected { reason: ResourceActionRejection },
}

/// Whether an outcome is what a return-decision error means.
pub open spec fn rejected_return(
    result: Result<ResourceActionOutcome, AppError>,
    error: ReturnDecisionError,
) -> bool {
    match decision_rejection(error) {
        Ok(view) => result matches Ok(ResourceActionOutcome::Rejected { reason }) && reason@ == view,
        Err(view) => result matches Err(found) && found@ == view,
    }
}

/// Keep storage failures retryable and turn every domain refusal into a typed rejection.
pub fn return_rejection(error: ReturnDecisionError) -> (result: Result<
    ResourceActionOutcome,
    AppError,
>)
    ensures
        rejected_return(result, error),
{
    match return_decision_rejection(error) {
        Ok(reason) => Ok(ResourceActionOutcome::Rejected { reason }),
        Err(error) => Err(error),
    }
}

/// Launch of a fixed return task.
pub type ReturnStep = LaunchStep<ReturnTaskAcceptance, ReturnDecisionError, RestoreLaunchResult>;

/// A return launch: what the resource actor hears first, and the question that binds it.
#[derive(Debug)]
pub struct ReturnStart {
    pub started: ResourceMsg,
    pub message: StoreMsg,
    pub next: AwaitReturnAccepted,
}

/// Waiting for the binding of a return task.
#[derive(Debug, Clone, Copy, PartialEq, Eq, Structural)]
pub struct AwaitReturnAccepted {
    pub action_id: ActionId,
    pub task_id: TaskId,
}

/// The start of one return launch.
pub open spec fn return_start(
    authority: SupervisorActionAuthority,
    launch: ReturnLaunch,
    executor_env: TaskEnv,
    origin: ReturnTaskOrigin,
) -> ReturnStart {
    ReturnStart {
        started: ResourceMsg::RestoreLaunchStarted {
            action_id: authority.action_id,
            task_id: launch.task_id,
        },
        message: StoreMsg::AcceptReturnTaskForAuthority {
            authority,
            launch,
            executor_env,
            origin,
        },
        next: AwaitReturnAccepted { action_id: authority.action_id, task_id: launch.task_id },
    }
}

/// Bind one fixed return task, and spawn it only when this call inserted it.
pub fn launch_return_task(
    authority: SupervisorActionAuthority,
    launch: ReturnLaunch,
    executor_env: TaskEnv,
    origin: ReturnTaskOrigin,
) -> (start: ReturnStart)
    ensures
        start == return_start(authority, launch, executor_env, origin),
{
    let task_id = launch.task_id;
    ReturnStart {
        started: ResourceMsg::RestoreLaunchStarted { action_id: authority.action_id, task_id },
        message: StoreMsg::AcceptReturnTaskForAuthority {
            authority,
            launch,
            executor_env,
            origin,
        },
        next: AwaitReturnAccepted { action_id: authority.action_id, task_id },
    }
}

/// What follows the store's answer to a return task.
pub open spec fn return_launched(
    task_id: TaskId,
    reply: Result<Result<ReturnTaskAcceptance, ReturnDecisionError>, AppError>,
    step: ReturnStep,
) -> bool {
    match reply {
        Err(error) => step == (ReturnStep::Done {
            report: Some(RestoreLaunchResult::NotInserted),
            result: Err(error),
        }),
        Ok(Err(error)) => step == (ReturnStep::Done {
            report: Some(RestoreLaunchResult::NotInserted),
            result: Ok(Err(error)),
        }),
        Ok(Ok(acceptance)) => match acceptance {
            ReturnTaskAcceptance::Inserted { task } => if task == task_id {
                step == (ReturnStep::Spawn {
                    task,
                    next: AwaitSpawn {
                        acceptance,
                        inserted: Some(RestoreLaunchResult::Inserted),
                        uncertain: Some(RestoreLaunchResult::NotInserted),
                    },
                })
            } else {
                unexpected_identity(
                    step,
                    Some(RestoreLaunchResult::NotInserted),
                    "return task"@,
                    task_id,
                )
            },
            ReturnTaskAcceptance::Existing { task, state } => if task != task_id {
                unexpected_identity(
                    step,
                    Some(RestoreLaunchResult::NotInserted),
                    "return task"@,
                    task_id,
                )
            } else if state == ProcessStatus::Running {
                step == (ReturnStep::Watch {
                    task,
                    next: AwaitObserved {
                        acceptance,
                        observed: Some(RestoreLaunchResult::Existing { state }),
                    },
                })
            } else {
                step == (ReturnStep::Done {
                    report: Some(RestoreLaunchResult::Existing { state }),
                    result: Ok(Ok(acceptance)),
                })
            },
            ReturnTaskAcceptance::UnsupportedRemoteSupervisor { .. } => step == (ReturnStep::Done {
                report: Some(RestoreLaunchResult::NotInserted),
                result: Ok(Ok(acceptance)),
            }),
        },
    }
}

impl AwaitReturnAccepted {
    /// What the resource actor hears of the finished launch.
    pub fn finished(self, reporter: LaunchReporter, report: Option<RestoreLaunchResult>) -> (message:
        Option<ResourceMsg>)
        ensures
            message == (match report {
                Some(result) if reporter.has_actor => Some(
                    ResourceMsg::RestoreLaunchFinished {
                        action_id: self.action_id,
                        task_id: self.task_id,
                        result,
                    },
                ),
                _ => None,
            }),
    {
        match reporter.finish(report) {
            Some(result) => Some(
                ResourceMsg::RestoreLaunchFinished {
                    action_id: self.action_id,
                    task_id: self.task_id,
                    result,
                },
            ),
            None => None,
        }
    }

    /// Spawn only a fresh insertion; an existing binding is observed and never respawned.
    pub fn on_accepted(
        self,
        reply: Result<Result<ReturnTaskAcceptance, ReturnDecisionError>, AppError>,
    ) -> (step: ReturnStep)
        ensures
            return_launched(self.task_id, reply, step),
    {
        let not_inserted = Some(RestoreLaunchResult::NotInserted);
        let acceptance = match reply {
            Ok(Ok(acceptance)) => acceptance,
            Ok(Err(error)) => {
                return LaunchStep::Done { report: not_inserted, result: Ok(Err(error)) };
            },
            Err(error) => {
                return LaunchStep::Done { report: not_inserted, result: Err(error) };
            },
        };
        match acceptance {
            ReturnTaskAcceptance::Inserted { task } if task == self.task_id => LaunchStep::Spawn {
                task,
                next: AwaitSpawn {
                    acceptance,
                    inserted: Some(RestoreLaunchResult::Inserted),
                    // the committed row may have no worker, so it must show as attention
                    uncertain: not_inserted,
                },
            },
            ReturnTaskAcceptance::Existing { task, state } if task == self.task_id => {
                let observed = Some(RestoreLaunchResult::Existing { state });
                if state == ProcessStatus::Running {
                    LaunchStep::Watch { task, next: AwaitObserved { acceptance, observed } }
                } else {
                    LaunchStep::Done { report: observed, result: Ok(Ok(acceptance)) }
                }
            },
            ReturnTaskAcceptance::UnsupportedRemoteSupervisor { .. } => LaunchStep::Done {
                report: not_inserted,
                result: Ok(Ok(acceptance)),
            },
            _ => unexpected(not_inserted, "return task", self.task_id),
        }
    }
}

/// A supervisor's decision about a pending return.
#[derive(Debug)]
pub enum ReturnDecision {
    NoResume { reason: String },
    Launch(ReturnLaunch),
}

/// Durable result of one supervisor return decision.
#[derive(Debug, Clone, Copy, PartialEq, Eq, Structural)]
pub enum ReturnDecisionOutcome {
    /// The no-resume decision closed the loan.
    Closed(ReturnClosure),
    /// The launch decision bound a task, or found the exact earlier binding.
    Launch(ReturnTaskAcceptance),
}

/// Next part of one return decision.
#[derive(Debug)]
pub enum DecideStep {
    AskClosed { message: StoreMsg, next: AwaitNoResume },
    ResolveCodex { lookup: CodexLookup<AwaitReturnCodex> },
    Launch { start: ReturnStart },
}

/// Waiting for the closure of a loan without a return task.
#[derive(Debug, Clone, Copy, PartialEq, Eq, Structural)]
pub struct AwaitNoResume {
    pub resource_id: ResourceId,
}

/// Waiting for the executable that a return task's callbacks use.
#[derive(Debug)]
pub struct AwaitReturnCodex {
    pub authority: SupervisorActionAuthority,
    pub launch: ReturnLaunch,
    pub env: TaskEnv,
}

/// Directory that a return task's callbacks run in: that of the supervisor's own command, or
/// the daemon's state directory for work that holds none.
pub open spec fn callback_directory(launch: ReturnLaunch, root: Seq<char>) -> Seq<char> {
    match launch.supervisor_spec {
        Some(spec) => spec.cwd@,
        None => root,
    }
}

/// Apply one co-located supervisor's return decision.
///
/// `env` is this executor's environment, and `root` the daemon's state directory.
pub fn decide_return(
    authority: SupervisorActionAuthority,
    decision: ReturnDecision,
    env: TaskEnv,
    root: &str,
) -> (step: DecideStep)
    ensures
        match decision {
            ReturnDecision::NoResume { reason } => step == (DecideStep::AskClosed {
                message: StoreMsg::RecordNoResumeForAuthority { authority, reason },
                next: AwaitNoResume { resource_id: authority.resource_id },
            }),
            ReturnDecision::Launch(launch) => {
                &&& step matches DecideStep::ResolveCodex { lookup }
                &&& lookup.path == env.path
                &&& lookup.cwd@ == callback_directory(launch, root@)
                &&& lookup.next == (AwaitReturnCodex { authority, launch, env })
            },
        },
{
    match decision {
        ReturnDecision::NoResume { reason } => DecideStep::AskClosed {
            message: StoreMsg::RecordNoResumeForAuthority { authority, reason },
            next: AwaitNoResume { resource_id: authority.resource_id },
        },
        ReturnDecision::Launch(launch) => {
            let cwd = match &launch.supervisor_spec {
                Some(spec) => spec.cwd.clone(),
                None => root.to_owned(),
            };
            DecideStep::ResolveCodex {
                lookup: CodexLookup {
                    path: env.path.clone(),
                    cwd,
                    next: AwaitReturnCodex { authority, launch, env },
                },
            }
        },
    }
}

impl AwaitReturnCodex {
    /// Launch the return task; a missing executable only fails its callbacks.
    pub fn on_codex(self, resolved: Result<String, AppError>) -> (step: DecideStep)
        ensures
            step matches DecideStep::Launch { start } && exists|callback_codex: CallbackExecutable|
                #[trigger] resolved_executable(resolved, callback_codex) && start == return_start(
                    self.authority,
                    self.launch,
                    self.env,
                    ReturnTaskOrigin::Local { callback_codex },
                ),
    {
        let callback_codex = callback_executable(resolved);
        DecideStep::Launch {
            start: launch_return_task(
                self.authority,
                self.launch,
                self.env,
                ReturnTaskOrigin::Local { callback_codex },
            ),
        }
    }
}

/// A decision's answer, and the resource actor to wake before it.
#[derive(Debug)]
pub struct Decided {
    pub wake: Option<ResourceId>,
    pub result: Result<Result<ReturnDecisionOutcome, ReturnDecisionError>, AppError>,
}

impl AwaitNoResume {
    /// Wake the resource actor only after its loan closed.
    pub fn on_closed(self, reply: Result<Result<ReturnClosure, ReturnDecisionError>, AppError>) -> (decided:
        Decided)
        ensures
            decided == (match reply {
                Ok(Ok(closure)) => Decided {
                    wake: Some(self.resource_id),
                    result: Ok(Ok(ReturnDecisionOutcome::Closed(closure))),
                },
                Ok(Err(error)) => Decided { wake: None, result: Ok(Err(error)) },
                Err(error) => Decided { wake: None, result: Err(error) },
            }),
    {
        match reply {
            Ok(Ok(closure)) => Decided {
                wake: Some(self.resource_id),
                result: Ok(Ok(ReturnDecisionOutcome::Closed(closure))),
            },
            Ok(Err(error)) => Decided { wake: None, result: Ok(Err(error)) },
            Err(error) => Decided { wake: None, result: Err(error) },
        }
    }
}

/// The answer of a launch decision.
pub fn decided_launch(
    launched: Result<Result<ReturnTaskAcceptance, ReturnDecisionError>, AppError>,
) -> (result: Result<Result<ReturnDecisionOutcome, ReturnDecisionError>, AppError>)
    ensures
        result == (match launched {
            Ok(Ok(acceptance)) => Ok(Ok(ReturnDecisionOutcome::Launch(acceptance))),
            Ok(Err(error)) => Ok(Err(error)),
            Err(error) => Err(error),
        }),
{
    match launched {
        Ok(Ok(acceptance)) => Ok(Ok(ReturnDecisionOutcome::Launch(acceptance))),
        Ok(Err(error)) => Ok(Err(error)),
        Err(error) => Err(error),
    }
}

/// Acceptance of one first background launch.
#[derive(Debug, Clone, Copy, PartialEq, Eq, Structural)]
pub enum BackgroundLaunchAcceptance {
    Inserted { task: TaskId },
    Existing { task: TaskId, state: ProcessStatus },
    UnsupportedRemoteSupervisor { supervisor_machine: MachineId },
}

/// Why the store refused a first background launch.
#[derive(Debug)]
pub struct BackgroundLaunchError {
    pub text: String,
}

/// Launch of a first background task.
pub type BackgroundStep = LaunchStep<
    BackgroundLaunchAcceptance,
    BackgroundLaunchError,
    BackgroundLaunchResult,
>;

/// A background launch: what the resource actor hears first, and the question that binds it.
#[derive(Debug)]
pub struct BackgroundStart {
    pub resource_id: ResourceId,
    pub started: ResourceMsg,
    pub message: StoreMsg,
    pub next: AwaitBackgroundBound,
}

/// Waiting for the binding of a background launch.
#[derive(Debug, Clone, Copy, PartialEq, Eq, Structural)]
pub struct AwaitBackgroundBound {
    pub request_id: RequestId,
}

impl AwaitBackgroundBound {
    /// What the resource actor hears of the finished launch.
    pub fn finished(self, reporter: LaunchReporter, report: Option<BackgroundLaunchResult>) -> (
    message: Option<ResourceMsg>)
        ensures
            message == (match report {
                Some(result) if reporter.has_actor => Some(
                    ResourceMsg::BackgroundLaunchFinished { request_id: self.request_id, result },
                ),
                _ => None,
            }),
    {
        match reporter.finish(report) {
            Some(result) => Some(
                ResourceMsg::BackgroundLaunchFinished { request_id: self.request_id, result },
            ),
            None => None,
        }
    }
}

/// Caller inputs for one first background launch on this authority.
#[derive(Debug)]
pub struct BackgroundLaunch {
    pub resource_id: ResourceId,
    /// Stable caller retry identity.
    pub request_id: RequestId,
    pub spec: NormalizedSpec,
    /// Executor environment captured by the co-located supervisor.
    pub env: TaskEnv,
    /// Directory used to find the executable of the task's callbacks.
    pub callback_cwd: String,
}

/// Waiting for the executable that a background task's callbacks use.
#[derive(Debug)]
pub struct AwaitBackgroundCodex {
    pub machine: MachineId,
    pub launch: BackgroundLaunch,
}

/// How one co-located background launch starts under a task identity.
pub open spec fn background_start(
    machine: MachineId,
    launch: BackgroundLaunch,
    task_id: TaskId,
    callback_codex: CallbackExecutable,
) -> BackgroundStart {
    BackgroundStart {
        resource_id: launch.resource_id,
        started: ResourceMsg::BackgroundLaunchStarted { request_id: launch.request_id },
        message: StoreMsg::AcceptBackgroundLaunchForAuthority {
            authority_machine: machine,
            resource_id: launch.resource_id,
            request_id: launch.request_id,
            task_id,
            spec: launch.spec,
            env: launch.env,
            callback_codex,
        },
        next: AwaitBackgroundBound { request_id: launch.request_id },
    }
}

/// Bind one co-located first background launch, and spawn it only when this call inserted it.
pub fn launch_background(machine: MachineId, launch: BackgroundLaunch) -> (lookup: CodexLookup<
    AwaitBackgroundCodex,
>)
    ensures
        lookup == (CodexLookup {
            path: launch.env.path,
            cwd: launch.callback_cwd,
            next: AwaitBackgroundCodex { machine, launch },
        }),
{
    CodexLookup {
        path: launch.env.path.clone(),
        cwd: launch.callback_cwd.clone(),
        next: AwaitBackgroundCodex { machine, launch },
    }
}

impl AwaitBackgroundCodex {
    /// Bind the launch; a missing executable only fails the task's callbacks.
    ///
    /// `task_id` is fresh; the store keeps the identity saved by an earlier exact launch.
    pub fn on_codex(self, resolved: Result<String, AppError>, task_id: TaskId) -> (start:
        BackgroundStart)
        ensures
            exists|codex: CallbackExecutable| #[trigger]
                resolved_executable(resolved, codex) && start == background_start(
                    self.machine,
                    self.launch,
                    task_id,
                    codex,
                ),
    {
        let codex = callback_executable(resolved);
        BackgroundStart {
            resource_id: self.launch.resource_id,
            started: ResourceMsg::BackgroundLaunchStarted { request_id: self.launch.request_id },
            message: StoreMsg::AcceptBackgroundLaunchForAuthority {
                authority_machine: self.machine,
                resource_id: self.launch.resource_id,
                request_id: self.launch.request_id,
                task_id,
                spec: self.launch.spec,
                env: self.launch.env,
                callback_codex: codex,
            },
            next: AwaitBackgroundBound { request_id: self.launch.request_id },
        }
    }
}

/// Bind one remote supervisor's first background launch, and spawn it only on insertion.
///
/// The resource's actor must be ensured first. The task runs with this authority's executor
/// environment, `env`. The callback context stays in the route that the supervisor machine
/// saved.
pub fn launch_remote_background(
    receipt: RemoteBackgroundLaunchReceipt,
    spec: NormalizedSpec,
    env: TaskEnv,
) -> (start: BackgroundStart)
    ensures
        start == (BackgroundStart {
            resource_id: receipt.binding.assignment.resource_id,
            started: ResourceMsg::BackgroundLaunchStarted { request_id: receipt.request_id },
            message: StoreMsg::AcceptRemoteBackgroundLaunchForAuthority { receipt, spec, env },
            next: AwaitBackgroundBound { request_id: receipt.request_id },
        }),
{
    BackgroundStart {
        resource_id: receipt.binding.assignment.resource_id,
        started: ResourceMsg::BackgroundLaunchStarted { request_id: receipt.request_id },
        message: StoreMsg::AcceptRemoteBackgroundLaunchForAuthority { receipt, spec, env },
        next: AwaitBackgroundBound { request_id: receipt.request_id },
    }
}

/// What follows the store's answer to a first background launch.
pub open spec fn background_launched(
    reply: Result<Result<BackgroundLaunchAcceptance, BackgroundLaunchError>, AppError>,
) -> BackgroundStep {
    match reply {
        Err(error) => BackgroundStep::Done {
            report: Some(BackgroundLaunchResult::NotInserted),
            result: Err(error),
        },
        Ok(Err(error)) => BackgroundStep::Done {
            report: Some(BackgroundLaunchResult::NotInserted),
            result: Ok(Err(error)),
        },
        Ok(Ok(acceptance)) => match acceptance {
            BackgroundLaunchAcceptance::Inserted { task } => BackgroundStep::Spawn {
                task,
                next: AwaitSpawn {
                    acceptance,
                    inserted: Some(BackgroundLaunchResult::Inserted),
                    uncertain: Some(BackgroundLaunchResult::NotInserted),
                },
            },
            BackgroundLaunchAcceptance::Existing { task, state } => if state
                == ProcessStatus::Running {
                BackgroundStep::Watch {
                    task,
                    next: AwaitObserved {
                        acceptance,
                        observed: Some(BackgroundLaunchResult::Existing),
                    },
                }
            } else {
                BackgroundStep::Done {
                    report: Some(BackgroundLaunchResult::Existing),
                    result: Ok(Ok(acceptance)),
                }
            },
            BackgroundLaunchAcceptance::UnsupportedRemoteSupervisor { .. } => BackgroundStep::Done {
                report: Some(BackgroundLaunchResult::NotInserted),
                result: Ok(Ok(acceptance)),
            },
        },
    }
}

/// Apply one store launch binding, and spawn the task only when the store inserted it.
///
/// A queued row found again may already have a worker or may have lost its spawn, and a
/// free runner lock cannot tell them apart, so it is never respawned here.
pub fn bind_background_launch(
    reply: Result<Result<BackgroundLaunchAcceptance, BackgroundLaunchError>, AppError>,
) -> (step: BackgroundStep)
    ensures
        step == background_launched(reply),
{
    let not_inserted = Some(BackgroundLaunchResult::NotInserted);
    let acceptance = match reply {
        Ok(Ok(acceptance)) => acceptance,
        Ok(Err(error)) => {
            return LaunchStep::Done { report: not_inserted, result: Ok(Err(error)) };
        },
        // the store may have committed; the resource owner treats a queued row as uncertain
        Err(error) => {
            return LaunchStep::Done { report: not_inserted, result: Err(error) };
        },
    };
    match acceptance {
        BackgroundLaunchAcceptance::Inserted { task } => LaunchStep::Spawn {
            task,
            next: AwaitSpawn {
                acceptance,
                inserted: Some(BackgroundLaunchResult::Inserted),
                uncertain: not_inserted,
            },
        },
        BackgroundLaunchAcceptance::Existing { task, state } => {
            let observed = Some(BackgroundLaunchResult::Existing);
            if state == ProcessStatus::Running {
                LaunchStep::Watch { task, next: AwaitObserved { acceptance, observed } }
            } else {
                LaunchStep::Done { report: observed, result: Ok(Ok(acceptance)) }
            }
        },
        BackgroundLaunchAcceptance::UnsupportedRemoteSupervisor { .. } => LaunchStep::Done {
            report: not_inserted,
            result: Ok(Ok(acceptance)),
        },
    }
}

/// One operation of a remote supervisor.
#[derive(Debug)]
pub enum ResourceActionOperation {
    PrepareReleaseWatcher { observed_background_task: TaskId },
    LaunchReleaseWatcher { observed_background_task: TaskId, task: ActionTaskIdentity },
    PrepareReturn { launch: ReturnLaunch },
    LaunchReturn { launch: ReturnLaunch, normalized_spec_sha256: SpecDigest },
    NoResume { reason: String },
    HoldReturn { hold_secs: u64 },
    ResolveEndedRestore { task_id: TaskId, reason: String },
}

/// A validated operation and the action it is done under.
#[derive(Debug)]
pub struct ResourceActionRequest {
    pub authority: SupervisorActionAuthority,
    pub operation: ResourceActionOperation,
}

/// Next part of one remote-supervisor operation.
#[derive(Debug)]
pub enum ActionStep {
    /// Make sure of the resource's actor, then send it this message.
    CallActor { resource_id: ResourceId, message: ResourceMsg, next: AwaitActorPrepared },
    /// Build the authority's own watcher command.
    BuildWatcher { command: ReleaseWatcherCommand, thread: ThreadId, next: AwaitRemoteCommand },
    AskPrepared { message: StoreMsg, next: AwaitReturnPrepared },
    LaunchReturn { start: ReturnStart, next: AwaitReturnLaunched },
    AskClosed { message: StoreMsg, next: AwaitClosed },
    AskHeld { message: StoreMsg, next: AwaitHeld },
    /// Tell the resource actor that the watcher launch starts, then ask.
    AskWatcher { started: ResourceMsg, message: StoreMsg, next: AwaitRemoteAccepted },
    /// Wake the resource actor where one is named, and answer.
    Done { wake: Option<ResourceId>, result: Result<ResourceActionOutcome, AppError> },
}

/// Waiting for the resource actor's preparation.
#[derive(Debug, Clone, Copy, PartialEq, Eq, Structural)]
pub struct AwaitActorPrepared;

/// Waiting for the authority's own watcher command.
#[derive(Debug, Clone, Copy, PartialEq, Eq, Structural)]
pub struct AwaitRemoteCommand {
    pub authority: SupervisorActionAuthority,
    pub observed_background_task: TaskId,
    pub task: ActionTaskIdentity,
}

/// Waiting for the canonical return task.
#[derive(Debug, Clone, Copy, PartialEq, Eq, Structural)]
pub struct AwaitReturnPrepared {
    pub request_id: RequestId,
    pub task_id: TaskId,
}

/// Waiting for the launch of a return task.
#[derive(Debug, Clone, Copy, PartialEq, Eq, Structural)]
pub struct AwaitReturnLaunched {
    pub receipt: ActionTaskReceipt,
}

/// Waiting for a loan's closure.
#[derive(Debug, Clone, Copy, PartialEq, Eq, Structural)]
pub struct AwaitClosed {
    pub resource_id: ResourceId,
}

/// Waiting for a moved return window.
#[derive(Debug, Clone, Copy, PartialEq, Eq, Structural)]
pub struct AwaitHeld;

/// Waiting for the acceptance of a remote supervisor's watcher.
#[derive(Debug, Clone, Copy, PartialEq, Eq, Structural)]
pub struct AwaitRemoteAccepted {
    pub authority: SupervisorActionAuthority,
    pub task_id: TaskId,
}

/// What one remote-supervisor operation starts.
pub open spec fn action_started(request: ResourceActionRequest, env: TaskEnv) -> ActionStep {
    let authority = request.authority;
    match request.operation {
        ResourceActionOperation::PrepareReleaseWatcher { observed_background_task } =>
            ActionStep::CallActor {
                resource_id: authority.resource_id,
                message: ResourceMsg::PrepareRemoteWatcher { authority, observed_background_task },
                next: AwaitActorPrepared,
            },
        ResourceActionOperation::LaunchReleaseWatcher { observed_background_task, task } =>
            ActionStep::BuildWatcher {
                command: ReleaseWatcherCommand {
                    resource_id: authority.resource_id,
                    action_id: authority.action_id,
                    state_revision: authority.expected_state_revision,
                    trainer_task_id: observed_background_task,
                    watcher_task_id: task.task_id,
                },
                thread: authority.supervisor.thread,
                next: AwaitRemoteCommand { authority, observed_background_task, task },
            },
        ResourceActionOperation::PrepareReturn { launch } => ActionStep::AskPrepared {
            message: StoreMsg::PrepareReturnTaskForAuthority {
                authority,
                launch,
                executor_env: env,
            },
            next: AwaitReturnPrepared { request_id: launch.request_id, task_id: launch.task_id },
        },
        ResourceActionOperation::LaunchReturn { launch, normalized_spec_sha256 } =>
            ActionStep::LaunchReturn {
                start: return_start(
                    authority,
                    launch,
                    env,
                    ReturnTaskOrigin::Remote { normalized_spec_sha256 },
                ),
                next: AwaitReturnLaunched {
                    receipt: ActionTaskReceipt {
                        kind: ResourceActionKind::Return,
                        authority,
                        request_id: launch.request_id,
                        task_id: launch.task_id,
                        normalized_spec_sha256,
                    },
                },
            },
        ResourceActionOperation::NoResume { reason } => ActionStep::AskClosed {
            message: StoreMsg::RecordNoResumeForAuthority { authority, reason },
            next: AwaitClosed { resource_id: authority.resource_id },
        },
        ResourceActionOperation::HoldReturn { hold_secs } => ActionStep::AskHeld {
            message: StoreMsg::HoldReturnForAuthority { authority, hold_secs },
            next: AwaitHeld,
        },
        ResourceActionOperation::ResolveEndedRestore { task_id, reason } => ActionStep::AskClosed {
            message: StoreMsg::ResolveEndedRestoreForAuthority { authority, task_id, reason },
            next: AwaitClosed { resource_id: authority.resource_id },
        },
    }
}

/// Apply one validated remote-supervisor operation on this authority.
///
/// Prepare operations only derive or bind identities. Launch operations commit the task
/// records and exact receipt before any spawn. `env` is this authority's executor environment,
/// which a return task runs in.
pub fn resource_action(request: ResourceActionRequest, env: TaskEnv) -> (step: ActionStep)
    ensures
        step == action_started(request, env),
{
    let authority = request.authority;
    match request.operation {
        ResourceActionOperation::PrepareReleaseWatcher { observed_background_task } =>
            ActionStep::CallActor {
                resource_id: authority.resource_id,
                message: ResourceMsg::PrepareRemoteWatcher { authority, observed_background_task },
                next: AwaitActorPrepared,
            },
        ResourceActionOperation::LaunchReleaseWatcher { observed_background_task, task } =>
            launch_remote_release_watcher(authority, observed_background_task, task),
        ResourceActionOperation::PrepareReturn { launch } => {
            let next = AwaitReturnPrepared {
                request_id: launch.request_id,
                task_id: launch.task_id,
            };
            ActionStep::AskPrepared {
                message: StoreMsg::PrepareReturnTaskForAuthority {
                    authority,
                    launch,
                    executor_env: env,
                },
                next,
            }
        },
        ResourceActionOperation::LaunchReturn { launch, normalized_spec_sha256 } => {
            let receipt = ActionTaskReceipt {
                kind: ResourceActionKind::Return,
                authority,
                request_id: launch.request_id,
                task_id: launch.task_id,
                normalized_spec_sha256,
            };
            ActionStep::LaunchReturn {
                start: launch_return_task(
                    authority,
                    launch,
                    env,
                    ReturnTaskOrigin::Remote { normalized_spec_sha256 },
                ),
                next: AwaitReturnLaunched { receipt },
            }
        },
        ResourceActionOperation::NoResume { reason } => ActionStep::AskClosed {
            message: StoreMsg::RecordNoResumeForAuthority { authority, reason },
            next: AwaitClosed { resource_id: authority.resource_id },
        },
        ResourceActionOperation::HoldReturn { hold_secs } => ActionStep::AskHeld {
            message: StoreMsg::HoldReturnForAuthority { authority, hold_secs },
            next: AwaitHeld,
        },
        ResourceActionOperation::ResolveEndedRestore { task_id, reason } => ActionStep::AskClosed {
            message: StoreMsg::ResolveEndedRestoreForAuthority { authority, task_id, reason },
            next: AwaitClosed { resource_id: authority.resource_id },
        },
    }
}

/// Accept a remote supervisor's bound watcher and spawn only a fresh insertion.
///
/// The authority rebuilds its own command; the store rejects any other identity.
pub fn launch_remote_release_watcher(
    authority: SupervisorActionAuthority,
    observed_background_task: TaskId,
    task: ActionTaskIdentity,
) -> (step: ActionStep)
    ensures
        step == (ActionStep::BuildWatcher {
            command: ReleaseWatcherCommand {
                resource_id: authority.resource_id,
                action_id: authority.action_id,
                state_revision: authority.expected_state_revision,
                trainer_task_id: observed_background_task,
                watcher_task_id: task.task_id,
            },
            thread: authority.supervisor.thread,
            next: AwaitRemoteCommand { authority, observed_background_task, task },
        }),
{
    ActionStep::BuildWatcher {
        command: ReleaseWatcherCommand {
            resource_id: authority.resource_id,
            action_id: authority.action_id,
            state_revision: authority.expected_state_revision,
            trainer_task_id: observed_background_task,
            watcher_task_id: task.task_id,
        },
        thread: authority.supervisor.thread,
        next: AwaitRemoteCommand { authority, observed_background_task, task },
    }
}

impl AwaitActorPrepared {
    /// The actor's refusal is the operation's rejection.
    pub fn on_prepared(
        self,
        reply: Result<Result<PreparedActionTask, ResourceActionRejection>, AppError>,
    ) -> (step: ActionStep)
        ensures
            step == (ActionStep::Done {
                wake: None,
                result: match reply {
                    Err(error) => Err(error),
                    Ok(Ok(task)) => Ok(ResourceActionOutcome::Prepared { task }),
                    Ok(Err(reason)) => Ok(ResourceActionOutcome::Rejected { reason }),
                },
            }),
    {
        ActionStep::Done {
            wake: None,
            result: match reply {
                Err(error) => Err(error),
                Ok(Ok(task)) => Ok(ResourceActionOutcome::Prepared { task }),
                Ok(Err(reason)) => Ok(ResourceActionOutcome::Rejected { reason }),
            },
        }
    }
}

impl AwaitReturnPrepared {
    /// The canonical return task with the identities that the supervisor fixed.
    pub fn on_prepared(
        self,
        reply: Result<Result<(NormalizedSpec, SpecDigest), ReturnDecisionError>, AppError>,
    ) -> (step: ActionStep)
        ensures
            step matches ActionStep::Done { wake, result } && wake is None && match reply {
                Err(error) => result == Err::<ResourceActionOutcome, AppError>(error),
                Ok(Ok((spec, normalized_spec_sha256))) => result == Ok::<
                    ResourceActionOutcome,
                    AppError,
                >(
                    ResourceActionOutcome::Prepared {
                        task: PreparedActionTask {
                            request_id: self.request_id,
                            task_id: self.task_id,
                            spec,
                            normalized_spec_sha256,
                        },
                    },
                ),
                Ok(Err(error)) => rejected_return(result, error),
            },
    {
        let result = match reply {
            Err(error) => Err(error),
            Ok(Ok((spec, normalized_spec_sha256))) => Ok(
                ResourceActionOutcome::Prepared {
                    task: PreparedActionTask {
                        request_id: self.request_id,
                        task_id: self.task_id,
                        spec,
                        normalized_spec_sha256,
                    },
                },
            ),
            Ok(Err(error)) => return_rejection(error),
        };
        ActionStep::Done { wake: None, result }
    }
}

impl AwaitReturnLaunched {
    /// The receipt of an accepted return, or the typed refusal.
    pub fn on_launched(
        self,
        launched: Result<Result<ReturnTaskAcceptance, ReturnDecisionError>, AppError>,
    ) -> (step: ActionStep)
        ensures
            step matches ActionStep::Done { wake, result } && wake is None && match launched {
                Err(error) => result == Err::<ResourceActionOutcome, AppError>(error),
                Ok(Ok(ReturnTaskAcceptance::Inserted { .. })) => result == Ok::<
                    ResourceActionOutcome,
                    AppError,
                >(
                    ResourceActionOutcome::Accepted {
                        receipt: self.receipt,
                        acceptance: ActionTaskAcceptance::Inserted,
                    },
                ),
                Ok(Ok(ReturnTaskAcceptance::Existing { state, .. })) => result == Ok::<
                    ResourceActionOutcome,
                    AppError,
                >(
                    ResourceActionOutcome::Accepted {
                        receipt: self.receipt,
                        acceptance: ActionTaskAcceptance::Existing { state },
                    },
                ),
                Ok(Ok(ReturnTaskAcceptance::UnsupportedRemoteSupervisor { .. })) => result == Ok::<
                    ResourceActionOutcome,
                    AppError,
                >(
                    ResourceActionOutcome::Rejected {
                        reason: ResourceActionRejection::NotCurrentSupervisor,
                    },
                ),
                Ok(Err(error)) => rejected_return(result, error),
            },
    {
        let result = match launched {
            Err(error) => Err(error),
            Ok(Ok(ReturnTaskAcceptance::Inserted { .. })) => Ok(
                ResourceActionOutcome::Accepted {
                    receipt: self.receipt,
                    acceptance: ActionTaskAcceptance::Inserted,
                },
            ),
            Ok(Ok(ReturnTaskAcceptance::Existing { state, .. })) => Ok(
                ResourceActionOutcome::Accepted {
                    receipt: self.receipt,
                    acceptance: ActionTaskAcceptance::Existing { state },
                },
            ),
            Ok(Ok(ReturnTaskAcceptance::UnsupportedRemoteSupervisor { .. })) => Ok(
                ResourceActionOutcome::Rejected {
                    reason: ResourceActionRejection::NotCurrentSupervisor,
                },
            ),
            Ok(Err(error)) => return_rejection(error),
        };
        ActionStep::Done { wake: None, result }
    }
}

impl AwaitClosed {
    /// Wake the resource actor only after its loan closed.
    pub fn closed_outcome(
        self,
        reply: Result<Result<ReturnClosure, ReturnDecisionError>, AppError>,
    ) -> (step: ActionStep)
        ensures
            step matches ActionStep::Done { wake, result } && match reply {
                Err(error) => wake is None && result == Err::<ResourceActionOutcome, AppError>(
                    error,
                ),
                Ok(Ok(closure)) => wake == Some(self.resource_id) && result == Ok::<
                    ResourceActionOutcome,
                    AppError,
                >(
                    ResourceActionOutcome::Closed {
                        loan: closure.loan,
                        state_revision: closure.state_revision,
                    },
                ),
                Ok(Err(error)) => wake is None && rejected_return(result, error),
            },
    {
        match reply {
            Err(error) => ActionStep::Done { wake: None, result: Err(error) },
            Ok(Ok(closure)) => ActionStep::Done {
                wake: Some(self.resource_id),
                result: Ok(
                    ResourceActionOutcome::Closed {
                        loan: closure.loan,
                        state_revision: closure.state_revision,
                    },
                ),
            },
            Ok(Err(error)) => ActionStep::Done { wake: None, result: return_rejection(error) },
        }
    }
}

impl AwaitHeld {
    /// The moved window, or the typed refusal.
    pub fn on_held(
        self,
        reply: Result<Result<ReturnDecisionWindow, ReturnDecisionError>, AppError>,
    ) -> (step: ActionStep)
        ensures
            step matches ActionStep::Done { wake, result } && wake is None && match reply {
                Err(error) => result == Err::<ResourceActionOutcome, AppError>(error),
                Ok(Ok(window)) => result == Ok::<ResourceActionOutcome, AppError>(
                    ResourceActionOutcome::ReturnHeld { window },
                ),
                Ok(Err(error)) => rejected_return(result, error),
            },
    {
        let result = match reply {
            Err(error) => Err(error),
            Ok(Ok(window)) => Ok(ResourceActionOutcome::ReturnHeld { window }),
            Ok(Err(error)) => return_rejection(error),
        };
        ActionStep::Done { wake: None, result }
    }
}

impl AwaitRemoteCommand {
    /// Tell the resource actor that the launch starts, and ask for the acceptance.
    ///
    /// `built` holds the canonical command and the executable it names, and `env` is this
    /// authority's executor environment.
    pub fn on_command(
        self,
        built: Result<(NormalizedSpec, String), AppError>,
        env: TaskEnv,
    ) -> (step: ActionStep)
        ensures
            step == (match built {
                Err(error) => ActionStep::Done { wake: None, result: Err(error) },
                Ok((spec, executable)) => ActionStep::AskWatcher {
                    started: ResourceMsg::RemoteWatcherLaunchStarted {
                        action_id: self.authority.action_id,
                        watcher_task_id: self.task.task_id,
                    },
                    message: StoreMsg::AcceptRemoteReleaseWatcherForAuthority {
                        authority: self.authority,
                        observed_background_task: self.observed_background_task,
                        task: self.task,
                        spec,
                        env,
                        executable,
                    },
                    next: AwaitRemoteAccepted {
                        authority: self.authority,
                        task_id: self.task.task_id,
                    },
                },
            }),
    {
        match built {
            Err(error) => ActionStep::Done { wake: None, result: Err(error) },
            Ok((spec, executable)) => ActionStep::AskWatcher {
                started: ResourceMsg::RemoteWatcherLaunchStarted {
                    action_id: self.authority.action_id,
                    watcher_task_id: self.task.task_id,
                },
                message: StoreMsg::AcceptRemoteReleaseWatcherForAuthority {
                    authority: self.authority,
                    observed_background_task: self.observed_background_task,
                    task: self.task,
                    spec,
                    env,
                    executable,
                },
                next: AwaitRemoteAccepted { authority: self.authority, task_id: self.task.task_id },
            },
        }
    }
}

/// An accepted supervisor action.
#[derive(Debug, Clone, Copy, PartialEq, Eq, Structural)]
pub struct AcceptedActionTask {
    pub receipt: ActionTaskReceipt,
    pub acceptance: ActionTaskAcceptance,
}

/// Why the store refused a supervisor action.
#[derive(Debug)]
pub enum ResourceActionError {
    Rejected(ResourceActionRejection),
    Storage(AppError),
}

/// Launch of a remote supervisor's watcher.
pub type RemoteWatcherStep = LaunchStep<
    AcceptedActionTask,
    ResourceActionRejection,
    ReleaseWatcherLaunchResult,
>;

/// What follows the store's answer to a remote supervisor's watcher.
pub open spec fn remote_watcher_launched(
    task_id: TaskId,
    reply: Result<Result<AcceptedActionTask, ResourceActionError>, AppError>,
) -> RemoteWatcherStep {
    match reply {
        Ok(Ok(accepted)) => match accepted.acceptance {
            ActionTaskAcceptance::Inserted => RemoteWatcherStep::Spawn {
                task: task_id,
                next: AwaitSpawn {
                    acceptance: accepted,
                    inserted: Some(ReleaseWatcherLaunchResult::Inserted),
                    uncertain: Some(ReleaseWatcherLaunchResult::Uncertain),
                },
            },
            ActionTaskAcceptance::Existing { state } => if state == ProcessStatus::Running {
                RemoteWatcherStep::Watch {
                    task: task_id,
                    next: AwaitObserved {
                        acceptance: accepted,
                        observed: Some(ReleaseWatcherLaunchResult::Existing { state }),
                    },
                }
            } else {
                RemoteWatcherStep::Done {
                    report: Some(ReleaseWatcherLaunchResult::Existing { state }),
                    result: Ok(Ok(accepted)),
                }
            },
        },
        Ok(Err(ResourceActionError::Rejected(reason))) => RemoteWatcherStep::Done {
            report: Some(ReleaseWatcherLaunchResult::Rejected),
            result: Ok(Err(reason)),
        },
        Ok(Err(ResourceActionError::Storage(error))) => RemoteWatcherStep::Done {
            report: Some(ReleaseWatcherLaunchResult::Uncertain),
            result: Err(error),
        },
        Err(error) => RemoteWatcherStep::Done {
            report: Some(ReleaseWatcherLaunchResult::Uncertain),
            result: Err(error),
        },
    }
}

impl AwaitRemoteAccepted {
    /// What the resource actor hears of the finished launch.
    pub fn finished(
        self,
        reporter: LaunchReporter,
        report: Option<ReleaseWatcherLaunchResult>,
    ) -> (message: Option<ResourceMsg>)
        ensures
            message == (match report {
                Some(result) if reporter.has_actor => Some(
                    ResourceMsg::WatcherLaunchFinished {
                        action_id: self.authority.action_id,
                        watcher_task_id: self.task_id,
                        result,
                    },
                ),
                _ => None,
            }),
    {
        match reporter.finish(report) {
            Some(result) => Some(
                ResourceMsg::WatcherLaunchFinished {
                    action_id: self.authority.action_id,
                    watcher_task_id: self.task_id,
                    result,
                },
            ),
            None => None,
        }
    }

    /// Spawn only a fresh insertion; an existing acceptance is observed and never respawned.
    pub fn on_accepted(
        self,
        reply: Result<Result<AcceptedActionTask, ResourceActionError>, AppError>,
    ) -> (step: RemoteWatcherStep)
        ensures
            step == remote_watcher_launched(self.task_id, reply),
    {
        let accepted = match reply {
            Ok(Ok(accepted)) => accepted,
            Ok(Err(ResourceActionError::Rejected(reason))) => {
                return LaunchStep::Done {
                    report: Some(ReleaseWatcherLaunchResult::Rejected),
                    result: Ok(Err(reason)),
                };
            },
            Ok(Err(ResourceActionError::Storage(error))) | Err(error) => {
                return LaunchStep::Done {
                    report: Some(ReleaseWatcherLaunchResult::Uncertain),
                    result: Err(error),
                };
            },
        };
        match accepted.acceptance {
            ActionTaskAcceptance::Inserted => LaunchStep::Spawn {
                task: self.task_id,
                next: AwaitSpawn {
                    acceptance: accepted,
                    inserted: Some(ReleaseWatcherLaunchResult::Inserted),
                    // the committed row may have no worker, so it must show as attention
                    uncertain: Some(ReleaseWatcherLaunchResult::Uncertain),
                },
            },
            ActionTaskAcceptance::Existing { state } => {
                let observed = Some(ReleaseWatcherLaunchResult::Existing { state });
                if state == ProcessStatus::Running {
                    LaunchStep::Watch {
                        task: self.task_id,
                        next: AwaitObserved { acceptance: accepted, observed },
                    }
                } else {
                    LaunchStep::Done { report: observed, result: Ok(Ok(accepted)) }
                }
            },
        }
    }
}

/// The answer of a remote supervisor's watcher launch.
pub fn remote_watcher_outcome(
    launched: Result<Result<AcceptedActionTask, ResourceActionRejection>, AppError>,
) -> (result: Result<ResourceActionOutcome, AppError>)
    ensures
        result == (match launched {
            Err(error) => Err(error),
            Ok(Ok(accepted)) => Ok(
                ResourceActionOutcome::Accepted {
                    receipt: accepted.receipt,
                    acceptance: accepted.acceptance,
                },
            ),
            Ok(Err(reason)) => Ok(ResourceActionOutcome::Rejected { reason }),
        }),
{
    match launched {
        Err(error) => Err(error),
        Ok(Ok(accepted)) => Ok(
            ResourceActionOutcome::Accepted {
                receipt: accepted.receipt,
                acceptance: accepted.acceptance,
            },
        ),
        Ok(Err(reason)) => Ok(ResourceActionOutcome::Rejected { reason }),
    }
}

/// Only the call whose transaction inserted a row starts its worker: every launch spawns
/// exactly when the store reports an insertion of the launch's own task.
pub proof fn only_insertions_spawn(
    assigned_to: AssignedLaunch,
    assigned: Result<Result<ResourceTaskAcceptance, ResourceStoreError>, AppError>,
    assigned_step: AssignedStep,
    watcher: Result<Result<ReleaseWatcherAcceptance, ReleaseWatcherAcceptanceError>, AppError>,
    watcher_step: WatcherStep,
    returned: Result<Result<ReturnTaskAcceptance, ReturnDecisionError>, AppError>,
    return_step: ReturnStep,
    background: Result<Result<BackgroundLaunchAcceptance, BackgroundLaunchError>, AppError>,
    remote: Result<Result<AcceptedActionTask, ResourceActionError>, AppError>,
    task: TaskId,
)
    requires
        assigned_launch(assigned_to, assigned, assigned_step),
        watcher_launched(task, watcher, watcher_step),
        return_launched(task, returned, return_step),
    ensures
        spawned_task(assigned_step) == (match assigned {
            Ok(Ok(ResourceTaskAcceptance::Inserted { task })) if task == assigned_to.task_id => Some(
                task,
            ),
            _ => None,
        }),
        spawned_task(watcher_step) == (match watcher {
            Ok(Ok(ReleaseWatcherAcceptance::Inserted { task: inserted })) if inserted == task =>
                Some(task),
            _ => None,
        }),
        spawned_task(return_step) == (match returned {
            Ok(Ok(ReturnTaskAcceptance::Inserted { task: inserted })) if inserted == task => Some(
                task,
            ),
            _ => None,
        }),
        spawned_task(background_launched(background)) == (match background {
            Ok(Ok(BackgroundLaunchAcceptance::Inserted { task: inserted })) => Some(inserted),
            _ => None,
        }),
        spawned_task(remote_watcher_launched(task, remote)) == (match remote {
            Ok(Ok(accepted)) if accepted.acceptance == ActionTaskAcceptance::Inserted => Some(task),
            _ => None,
        }),
{
}

/// A failure of the storage at whatever layer, of an encoding or of the task records
/// themselves is never reported as a refusal, so its operation can be retried.
pub proof fn unknown_returns_stay_retryable(error: ReturnDecisionError, cause: AppError)
    requires
        ({
            ||| error == ReturnDecisionError::Storage(cause)
            ||| error == ReturnDecisionError::Encoding(cause)
            ||| error == ReturnDecisionError::Identity(IdentityError::Storage(cause))
            ||| error matches ReturnDecisionError::Resource(refused) && storage_cause(
                StoreFailure::Resource(refused),
            ) == Some(cause)
            ||| cause is Internal && {
                ||| error == ReturnDecisionError::TaskRecords(cause)
                ||| error == ReturnDecisionError::Resource(ResourceStoreError::TaskRow(cause))
                ||| error == ReturnDecisionError::Resource(
                    ResourceStoreError::TaskPreparation(cause),
                )
            }
        }),
    ensures
        decision_rejection(error) == Err::<RejectionView, ErrorView>(cause@),
{
}

} // verus!
