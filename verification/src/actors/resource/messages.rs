//! Messages of one resource actor and what each of them starts.

use vstd::prelude::*;

use crate::actors::resource::reconcile::{
    no_effects, reconcile_and_refresh, AwaitQueue, Pass, ReconcileStep, ResourceActorState,
};
use crate::actors::resource::watcher::{
    prepare_remote_watcher, row_status, status_of_row, status_step, watcher_status,
    AwaitWatcherRow, PrepareInput, PrepareStep, PreparedActionTask, WatcherStatusStep,
};
use crate::actors::resource::{
    attempt_after, serving_assignment, serving_pair, ActivationAttempt, ActivationKey,
    BackgroundLaunchAttempt, BackgroundLaunchResult, LaunchAttempt, LaunchProgress,
    ReleaseWatcherLaunchResult, ReleaseWatcherStatus, ResourceQueueReconcileOutcome,
    ResourceTaskActivationResult, RestoreLaunchAttempt, RestoreLaunchKey, RestoreLaunchResult,
    WatcherLaunchAttempt, WatcherLaunchKey,
};
use crate::actors::store::StoreMsg;
use crate::domain::TaskRow;
use crate::error::AppError;
use crate::ids::{ActionId, RequestId, TaskId};
use crate::resource::{
    Loan, LoanPhase, LoanState, Resource, ResourceActionRejection, ResourceRequest,
    ResourceSnapshot, SupervisorActionAuthority,
};

verus! {

/// Messages for one resource actor.
#[derive(Debug)]
pub enum ResourceMsg {
    /// Reconcile current authority-owned queue state and refresh this actor's snapshot.
    Reconcile,
    /// Wake only when one exact assigned task reached a task-layer terminal event.
    TaskTerminal { task_id: TaskId },
    /// Reconcile after this actor commits a queue transition.
    Wake,
    /// Return the actor identity and the latest authority-owned snapshot.
    Inspect,
    /// Result of one asynchronous, exact assigned-task launch request.
    ActivationFinished {
        request_id: RequestId,
        task_id: TaskId,
        result: ResourceTaskActivationResult,
    },
    /// Wake when a durable event for one task was delivered; only the bound return task matters.
    TaskProgress { task_id: TaskId },
    /// The supervisor is about to bind and launch one fixed return task.
    RestoreLaunchStarted { action_id: ActionId, task_id: TaskId },
    /// Result of the supervisor's one bind-and-launch request for a return task.
    RestoreLaunchFinished { action_id: ActionId, task_id: TaskId, result: RestoreLaunchResult },
    /// The supervisor is about to bind and launch one first background task.
    BackgroundLaunchStarted { request_id: RequestId },
    /// Result of the supervisor's one bind-and-launch request for a first background task.
    BackgroundLaunchFinished { request_id: RequestId, result: BackgroundLaunchResult },
    /// Bind and baseline the watcher for a remote supervisor, then return its canonical task.
    PrepareRemoteWatcher {
        authority: SupervisorActionAuthority,
        observed_background_task: TaskId,
    },
    /// The supervisor is about to accept a remote supervisor's bound watcher.
    RemoteWatcherLaunchStarted { action_id: ActionId, watcher_task_id: TaskId },
    /// Result of one asynchronous, bound release-watcher launch request.
    WatcherLaunchFinished {
        action_id: ActionId,
        watcher_task_id: TaskId,
        result: ReleaseWatcherLaunchResult,
    },
}

/// Read-only view of one resource actor.
#[derive(Debug)]
pub struct ResourceActorInspection {
    /// Identity of the actor that returned this snapshot.
    pub actor_id: u64,
    /// Durable resource state refreshed after the most recent reconciliation.
    pub resource: Resource,
    /// Durable active or attention loan restored by the actor, if present.
    pub loan: Option<Loan>,
    /// Latest typed queue outcome, if a reconciliation has completed.
    pub reconcile_outcome: Option<ResourceQueueReconcileOutcome>,
    /// Bound watcher state for the current release action, if one applies.
    pub release_watcher: Option<ReleaseWatcherStatus>,
}

/// What one message starts.
#[derive(Debug)]
pub enum HandleStep {
    /// One pass; its outcome is the reply where the message asked for one.
    Reconcile { step: ReconcileStep },
    /// Whether the ended task is the one being served.
    AskServing { message: StoreMsg, next: AwaitServing },
    /// The row that tells the launched watcher's status.
    AskWatcher { message: StoreMsg, next: AwaitLaunched },
    /// A remote supervisor's watcher is being prepared.
    Prepare { step: PrepareStep, next: AwaitPrepared },
    /// The preparation replies, and one pass follows it.
    Prepared {
        reply: Result<Result<PreparedActionTask, ResourceActionRejection>, AppError>,
        step: ReconcileStep,
    },
    Inspected { state: ResourceActorState, inspection: ResourceActorInspection },
    Settled { state: ResourceActorState },
    Failed { state: ResourceActorState, error: AppError },
}

/// Waiting for the requests that name the served task.
#[derive(Debug)]
pub struct AwaitServing {
    pub state: ResourceActorState,
    pub task_id: TaskId,
}

/// Waiting for the row of a watcher whose launch was answered.
#[derive(Debug)]
pub struct AwaitLaunched {
    pub state: ResourceActorState,
    pub row: AwaitWatcherRow,
}

/// Waiting for a remote supervisor's preparation.
#[derive(Debug)]
pub struct AwaitPrepared {
    pub state: ResourceActorState,
}

/// The pass that this state starts.
pub open spec fn pass_of(state: ResourceActorState) -> ReconcileStep {
    ReconcileStep::AskQueue {
        message: StoreMsg::ReconcileResourceQueue {
            authority_machine: state.authority_machine,
            resource_id: state.resource.id,
        },
        next: AwaitQueue { pass: Pass { state, effects: no_effects() } },
    }
}

/// The bound return task of the actor's loan.
pub open spec fn return_task(state: ResourceActorState) -> Option<TaskId> {
    match state.loan {
        Some(loan) => match loan.state {
            LoanState::Active { phase: LoanPhase::Restoring { resume_task_id, .. } } => Some(
                resume_task_id,
            ),
            _ => None,
        },
        None => None,
    }
}

/// The bound return task of the actor's loan.
fn restoring_task_id(state: &ResourceActorState) -> (task: Option<TaskId>)
    ensures
        task == return_task(*state),
{
    match state.loan {
        Some(loan) => match loan.state {
            LoanState::Active { phase: LoanPhase::Restoring { resume_task_id, .. } } => Some(
                resume_task_id,
            ),
            _ => None,
        },
        None => None,
    }
}

/// Whether the actor's loan serves a request.
pub open spec fn is_serving(state: ResourceActorState) -> bool {
    state.loan matches Some(loan) && loan.state matches LoanState::Active { phase } && phase
        is Serving
}

/// The snapshot that the actor holds.
pub open spec fn held_snapshot(state: ResourceActorState) -> ResourceSnapshot {
    ResourceSnapshot { resource: state.resource, loan: state.loan }
}

/// The attempt after a reply for `key`, where there is one.
pub open spec fn answered<K, R>(attempt: Option<LaunchAttempt<K, R>>, key: K, result: R) -> Option<
    LaunchAttempt<K, R>,
> {
    match attempt {
        Some(attempt) => Some(attempt_after(attempt, key, result)),
        None => None,
    }
}

/// Whether an attempt takes a reply for `key`.
pub open spec fn takes_reply<K, R>(attempt: Option<LaunchAttempt<K, R>>, key: K) -> bool {
    attempt matches Some(attempt) && attempt.key == key && attempt.progress is Pending
}

/// What an ended task starts.
pub open spec fn task_ended(state: ResourceActorState, task_id: TaskId) -> HandleStep {
    if return_task(state) == Some(task_id) || state.pending_background_task == Some(task_id) {
        HandleStep::Reconcile { step: pass_of(state) }
    } else if is_serving(state) {
        HandleStep::AskServing {
            message: StoreMsg::ResourceRequests {
                authority_machine: state.authority_machine,
                resource_id: state.resource.id,
            },
            next: AwaitServing { state, task_id },
        }
    } else {
        HandleStep::Settled { state }
    }
}

/// What a delivered task event starts.
pub open spec fn task_progressed(state: ResourceActorState, task_id: TaskId) -> HandleStep {
    if return_task(state) == Some(task_id) || state.pending_background_task == Some(task_id) || (
    state.watcher_launch matches Some(attempt) && attempt.key.watcher_task_id == task_id) {
        HandleStep::Reconcile { step: pass_of(state) }
    } else {
        HandleStep::Settled { state }
    }
}

/// What the reply of a task launch starts: a stale reply starts nothing.
pub open spec fn activation_finished(
    state: ResourceActorState,
    key: ActivationKey,
    result: ResourceTaskActivationResult,
) -> HandleStep {
    if takes_reply(state.activation_attempt, key) {
        HandleStep::Reconcile {
            step: pass_of(
                ResourceActorState {
                    activation_attempt: answered(state.activation_attempt, key, result),
                    ..state
                },
            ),
        }
    } else {
        HandleStep::Settled { state }
    }
}

/// What the reply of a watcher launch starts: a stale reply starts nothing.
pub open spec fn watcher_finished(
    state: ResourceActorState,
    key: WatcherLaunchKey,
    result: ReleaseWatcherLaunchResult,
) -> HandleStep {
    if takes_reply(state.watcher_launch, key) {
        let attempt = LaunchAttempt { key, progress: LaunchProgress::Finished(result) };
        let state = ResourceActorState { watcher_launch: Some(attempt), ..state };
        match status_step(attempt, state.resource.supervisor.machine) {
            WatcherStatusStep::Known(status) => HandleStep::Settled {
                state: ResourceActorState { release_watcher: Some(status), ..state },
            },
            WatcherStatusStep::Ask { message, next } => HandleStep::AskWatcher {
                message,
                next: AwaitLaunched { state, row: next },
            },
        }
    } else {
        HandleStep::Settled { state }
    }
}

/// What one message starts.
pub open spec fn handled(myself: u64, message: ResourceMsg, state: ResourceActorState) -> HandleStep {
    match message {
        ResourceMsg::Reconcile => HandleStep::Reconcile { step: pass_of(state) },
        ResourceMsg::Wake => HandleStep::Reconcile { step: pass_of(state) },
        ResourceMsg::TaskTerminal { task_id } => task_ended(state, task_id),
        ResourceMsg::TaskProgress { task_id } => task_progressed(state, task_id),
        ResourceMsg::RestoreLaunchStarted { action_id, task_id } => HandleStep::Settled {
            state: ResourceActorState {
                restore_launch: Some(
                    LaunchAttempt {
                        key: RestoreLaunchKey { action_id, task_id },
                        progress: LaunchProgress::Pending,
                    },
                ),
                ..state
            },
        },
        ResourceMsg::RestoreLaunchFinished { action_id, task_id, result } =>
            HandleStep::Reconcile {
                step: pass_of(
                    ResourceActorState {
                        restore_launch: answered(
                            state.restore_launch,
                            RestoreLaunchKey { action_id, task_id },
                            result,
                        ),
                        ..state
                    },
                ),
            },
        ResourceMsg::BackgroundLaunchStarted { request_id } => HandleStep::Settled {
            state: ResourceActorState {
                background_launch: Some(
                    LaunchAttempt { key: request_id, progress: LaunchProgress::Pending },
                ),
                ..state
            },
        },
        ResourceMsg::BackgroundLaunchFinished { request_id, result } => HandleStep::Reconcile {
            step: pass_of(
                ResourceActorState {
                    background_launch: answered(state.background_launch, request_id, result),
                    ..state
                },
            ),
        },
        ResourceMsg::ActivationFinished { request_id, task_id, result } => activation_finished(
            state,
            ActivationKey { request_id, task_id },
            result,
        ),
        ResourceMsg::WatcherLaunchFinished { action_id, watcher_task_id, result } =>
            watcher_finished(state, WatcherLaunchKey { action_id, watcher_task_id }, result),
        ResourceMsg::RemoteWatcherLaunchStarted { action_id, watcher_task_id } =>
            HandleStep::Settled {
                state: ResourceActorState {
                    watcher_launch: Some(
                        LaunchAttempt {
                            key: WatcherLaunchKey { action_id, watcher_task_id },
                            progress: LaunchProgress::Pending,
                        },
                    ),
                    ..state
                },
            },
        ResourceMsg::PrepareRemoteWatcher { authority, observed_background_task } => {
            let input = PrepareInput {
                authority_machine: state.authority_machine,
                resource_id: state.resource.id,
                authority,
                observed_background_task,
            };
            HandleStep::Prepare {
                step: PrepareStep::AskSnapshot {
                    message: StoreMsg::ResourceSnapshotsForAuthority {
                        authority_machine: state.authority_machine,
                    },
                    next: input,
                },
                next: AwaitPrepared { state },
            }
        },
        ResourceMsg::Inspect => HandleStep::Inspected {
            state,
            inspection: ResourceActorInspection {
                actor_id: myself,
                resource: state.resource,
                loan: state.loan,
                reconcile_outcome: state.reconcile_outcome,
                release_watcher: state.release_watcher,
            },
        },
    }
}

/// Actor that reconciles one resource from store-owned state.
#[derive(Debug, Clone, Copy)]
pub struct ResourceActor;

impl ResourceActor {
    /// Start what one message asks for.
    pub fn handle(myself: u64, message: ResourceMsg, state: ResourceActorState) -> (step: HandleStep)
        ensures
            step == handled(myself, message, state),
    {
        let mut state = state;
        match message {
            ResourceMsg::Reconcile | ResourceMsg::Wake => reconcile(state),
            ResourceMsg::TaskTerminal { task_id } => handle_task_terminal(state, task_id),
            ResourceMsg::TaskProgress { task_id } => handle_task_progress(state, task_id),
            ResourceMsg::RestoreLaunchStarted { action_id, task_id } => {
                state.restore_launch =
                Some(RestoreLaunchAttempt::pending(RestoreLaunchKey { action_id, task_id }));
                HandleStep::Settled { state }
            },
            ResourceMsg::RestoreLaunchFinished { action_id, task_id, result } => {
                if let Some(attempt) = state.restore_launch {
                    let mut attempt = attempt;
                    attempt.finish(RestoreLaunchKey { action_id, task_id }, result);
                    state.restore_launch = Some(attempt);
                }
                reconcile(state)
            },
            ResourceMsg::BackgroundLaunchStarted { request_id } => {
                state.background_launch = Some(BackgroundLaunchAttempt::pending(request_id));
                HandleStep::Settled { state }
            },
            ResourceMsg::BackgroundLaunchFinished { request_id, result } => {
                if let Some(attempt) = state.background_launch {
                    let mut attempt = attempt;
                    attempt.finish(request_id, result);
                    state.background_launch = Some(attempt);
                }
                reconcile(state)
            },
            ResourceMsg::ActivationFinished { request_id, task_id, result } =>
                handle_activation_finished(state, ActivationKey { request_id, task_id }, result),
            ResourceMsg::WatcherLaunchFinished { action_id, watcher_task_id, result } =>
                handle_watcher_launch_finished(
                    state,
                    WatcherLaunchKey { action_id, watcher_task_id },
                    result,
                ),
            ResourceMsg::PrepareRemoteWatcher { authority, observed_background_task } => {
                let step = prepare_remote_watcher(
                    PrepareInput {
                        authority_machine: state.authority_machine,
                        resource_id: state.resource.id,
                        authority,
                        observed_background_task,
                    },
                );
                HandleStep::Prepare { step, next: AwaitPrepared { state } }
            },
            ResourceMsg::RemoteWatcherLaunchStarted { action_id, watcher_task_id } => {
                // only this lifetime's own accepted request may show a queued row as launching
                state.watcher_launch =
                Some(
                    WatcherLaunchAttempt::pending(WatcherLaunchKey { action_id, watcher_task_id }),
                );
                HandleStep::Settled { state }
            },
            ResourceMsg::Inspect => {
                let inspection = ResourceActorInspection {
                    actor_id: myself,
                    resource: state.resource,
                    loan: state.loan,
                    reconcile_outcome: match &state.reconcile_outcome {
                        Some(outcome) => Some(outcome.clone()),
                        None => None,
                    },
                    release_watcher: state.release_watcher,
                };
                HandleStep::Inspected { state, inspection }
            },
        }
    }
}

fn reconcile(state: ResourceActorState) -> (step: HandleStep)
    ensures
        step == (HandleStep::Reconcile { step: pass_of(state) }),
{
    HandleStep::Reconcile { step: reconcile_and_refresh(state) }
}

fn handle_task_terminal(state: ResourceActorState, task_id: TaskId) -> (step: HandleStep)
    ensures
        step == task_ended(state, task_id),
{
    if restoring_task_id(&state) == Some(task_id) || state.pending_background_task == Some(
        task_id,
    ) {
        return reconcile(state);
    }
    let serving = match state.loan {
        Some(loan) => match loan.state {
            LoanState::Active { phase: LoanPhase::Serving { .. } } => true,
            _ => false,
        },
        None => false,
    };
    if !serving {
        return HandleStep::Settled { state };
    }
    HandleStep::AskServing {
        message: StoreMsg::ResourceRequests {
            authority_machine: state.authority_machine,
            resource_id: state.resource.id,
        },
        next: AwaitServing { state, task_id },
    }
}

fn handle_task_progress(state: ResourceActorState, task_id: TaskId) -> (step: HandleStep)
    ensures
        step == task_progressed(state, task_id),
{
    let watched = match state.watcher_launch {
        Some(attempt) => attempt.key.watcher_task_id == task_id,
        None => false,
    };
    if restoring_task_id(&state) == Some(task_id) || state.pending_background_task == Some(task_id)
        || watched {
        reconcile(state)
    } else {
        HandleStep::Settled { state }
    }
}

fn handle_activation_finished(
    state: ResourceActorState,
    key: ActivationKey,
    result: ResourceTaskActivationResult,
) -> (step: HandleStep)
    ensures
        step == activation_finished(state, key, result),
{
    let mut state = state;
    if let Some(attempt) = state.activation_attempt {
        let mut attempt: ActivationAttempt = attempt;
        if attempt.finish(key, result) {
            state.activation_attempt = Some(attempt);
            return reconcile(state);
        }
    }
    HandleStep::Settled { state }
}

fn handle_watcher_launch_finished(
    state: ResourceActorState,
    key: WatcherLaunchKey,
    result: ReleaseWatcherLaunchResult,
) -> (step: HandleStep)
    ensures
        step == watcher_finished(state, key, result),
{
    let mut state = state;
    let mut attempt = match state.watcher_launch {
        Some(attempt) => attempt,
        None => {
            return HandleStep::Settled { state };
        },
    };
    if !attempt.finish(key, result) {
        return HandleStep::Settled { state };
    }
    state.watcher_launch = Some(attempt);
    match watcher_status(attempt, state.resource.supervisor.machine) {
        WatcherStatusStep::Known(status) => {
            state.release_watcher = Some(status);
            HandleStep::Settled { state }
        },
        WatcherStatusStep::Ask { message, next } => HandleStep::AskWatcher {
            message,
            next: AwaitLaunched { state, row: next },
        },
    }
}

impl AwaitServing {
    /// Reconcile only when the ended task is the one being served.
    pub fn on_requests(self, reply: Result<Vec<ResourceRequest>, AppError>) -> (step: HandleStep)
        ensures
            step == (match reply {
                Err(error) => HandleStep::Failed { state: self.state, error },
                Ok(requests) => if serving_pair(held_snapshot(self.state), requests@) matches Some(
                    (_, request),
                ) && request.task_id == self.task_id {
                    HandleStep::Reconcile { step: pass_of(self.state) }
                } else {
                    HandleStep::Settled { state: self.state }
                },
            }),
    {
        let requests = match reply {
            Ok(requests) => requests,
            Err(error) => {
                return HandleStep::Failed { state: self.state, error };
            },
        };
        let snapshot = ResourceSnapshot { resource: self.state.resource, loan: self.state.loan };
        if let Some((_, request)) = serving_assignment(&snapshot, &requests) {
            if request.task_id == self.task_id {
                return reconcile(self.state);
            }
        }
        HandleStep::Settled { state: self.state }
    }
}

impl AwaitLaunched {
    /// The launched watcher's status is shown until the next pass.
    pub fn on_row(self, reply: Result<Option<TaskRow>, AppError>) -> (step: HandleStep)
        ensures
            step == (match reply {
                Err(error) => HandleStep::Failed { state: self.state, error },
                Ok(row) => HandleStep::Settled {
                    state: ResourceActorState {
                        release_watcher: Some(
                            status_of_row(self.row.key, self.row.inserted, row_status(row)),
                        ),
                        ..self.state
                    },
                },
            }),
    {
        match reply {
            Err(error) => HandleStep::Failed { state: self.state, error },
            Ok(row) => {
                let mut state = self.state;
                state.release_watcher = Some(self.row.on_row(row));
                HandleStep::Settled { state }
            },
        }
    }
}

impl AwaitPrepared {
    /// Reply with the finished preparation, refused or failed ones too, and reconcile.
    pub fn resume(self, step: PrepareStep) -> (next: HandleStep)
        ensures
            next == (match step {
                PrepareStep::Done(prepared) => HandleStep::Prepared {
                    reply: Ok(prepared),
                    step: pass_of(self.state),
                },
                PrepareStep::Failed(error) => HandleStep::Prepared {
                    reply: Err(error),
                    step: pass_of(self.state),
                },
                _ => HandleStep::Prepare { step, next: self },
            }),
    {
        match step {
            PrepareStep::Done(prepared) => HandleStep::Prepared {
                reply: Ok(prepared),
                step: reconcile_and_refresh(self.state),
            },
            PrepareStep::Failed(error) => HandleStep::Prepared {
                reply: Err(error),
                step: reconcile_and_refresh(self.state),
            },
            step => HandleStep::Prepare { step, next: self },
        }
    }
}

} // verus!
