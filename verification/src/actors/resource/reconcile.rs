//! One reconciliation of a resource actor, from question to question.
//!
//! A pass asks the store to reconcile the queue, proves a pending release or
//! watches for it, advances the assigned task, observes a bound return task and a
//! first background launch, and serves queued work once a return window closed.
//! Each answer decides the next question; the pass ends with the actor's new state,
//! the effects to perform, and the outcome to report.

use vstd::prelude::*;

use crate::actors::resource::watcher::{
    bind_release_watcher, bind_start, row_status, status_of_row, status_step, watcher_status,
    AwaitWatcherRow, BindInput, BindStep, WatcherBinding, WatcherStatusStep,
};
use crate::actors::resource::{
    awaiting_release, awaiting_return_action, completion_reason, release_awaited,
    release_proof_attention_reason, release_proof_reason, restoring, restoring_loan,
    return_awaited, serving_assignment, serving_pair, task_completion_attention_reason,
    ActivationAttempt, ActivationKey, AssignedResourceTaskAttention, BackgroundLaunchAttempt,
    BackgroundLaunchResult, CompleteReleaseError, LaunchAttempt, LaunchProgress,
    ReleaseProofFailure, ReleaseWatcherLaunchResult, ReleaseWatcherStatus,
    ResourceQueueAttentionReason, ResourceQueueReconcileOutcome, ResourceTaskActivationResult,
    RestoreLaunchAttempt, RestoreLaunchKey, RestoreLaunchResult, WatcherLaunchAttempt,
    WatcherLaunchKey,
};
use crate::actors::store::{
    AssignedResourceTaskReconcileInput, ResourceTaskAcceptanceInput, StoreMsg,
};
use crate::domain::{ProcessStatus, TaskEnv, TaskRow};
use crate::error::{internal, result_view, AppError, ErrorView};
use crate::ids::{hyphenated, ActionId, MachineId, RequestId, ResourceId, TaskId};
use crate::resource::{
    Loan, LoanPhase, LoanState, ReleaseWatcherIntent, Resource, ResourceRequest, ResourceSnapshot,
    RestoreAttentionReason, ReturnDecisionWindow, SupervisorAddress,
};
use crate::text::join3;
use crate::time::Timestamp;

verus! {

/// Wake armed for the saved deadline of one pending return action.
///
/// The store decides from its saved window whether the deadline passed, so a
/// wake that fires early, or before a hold moved the deadline, only arms again.
#[derive(Debug, Clone, Copy, PartialEq, Eq, Structural)]
pub struct ReturnDeadlineWake {
    pub action_id: ActionId,
    pub deadline_at: Timestamp,
}

impl ReturnDeadlineWake {
    /// Whether this wake will still fire for the deadline of `window`.
    pub open spec fn covering(self, window: ReturnDecisionWindow, fired: bool) -> bool {
        !fired && self.action_id == window.action_id && self.deadline_at == window.deadline_at
    }

    /// Whether this wake will still fire for the deadline of `window`.
    pub fn covers(self, window: ReturnDecisionWindow, fired: bool) -> (covers: bool)
        ensures
            covers == self.covering(window, fired),
    {
        !fired && self.action_id == window.action_id && self.deadline_at == window.deadline_at
    }
}

/// State of one resource actor.
#[derive(Debug)]
pub struct ResourceActorState {
    pub authority_machine: MachineId,
    pub resource: Resource,
    pub loan: Option<Loan>,
    pub reconcile_outcome: Option<ResourceQueueReconcileOutcome>,
    pub activation_attempt: Option<ActivationAttempt>,
    pub watcher_launch: Option<WatcherLaunchAttempt>,
    pub release_watcher: Option<ReleaseWatcherStatus>,
    pub restore_launch: Option<RestoreLaunchAttempt>,
    pub background_launch: Option<BackgroundLaunchAttempt>,
    pub pending_background_task: Option<TaskId>,
    pub return_deadline_wake: Option<ReturnDeadlineWake>,
}

impl ResourceActorState {
    /// The state of an actor that has asked for no launch yet.
    pub fn new(authority_machine: MachineId, resource: Resource, loan: Option<Loan>) -> (state:
        ResourceActorState)
        ensures
            state == (ResourceActorState {
                authority_machine,
                resource,
                loan,
                reconcile_outcome: None,
                activation_attempt: None,
                watcher_launch: None,
                release_watcher: None,
                restore_launch: None,
                background_launch: None,
                pending_background_task: None,
                return_deadline_wake: None,
            }),
    {
        ResourceActorState {
            authority_machine,
            resource,
            loan,
            reconcile_outcome: None,
            activation_attempt: None,
            watcher_launch: None,
            release_watcher: None,
            restore_launch: None,
            background_launch: None,
            pending_background_task: None,
            return_deadline_wake: None,
        }
    }
}

/// Inputs of one release-watcher launch with a local callback route.
#[derive(Debug)]
pub struct ReleaseWatcherLaunch {
    pub authority_machine: MachineId,
    pub resource_id: ResourceId,
    pub supervisor: SupervisorAddress,
    pub intent: ReleaseWatcherIntent,
    pub executable: String,
}

/// What a pass asks the actor to do besides its questions.
#[derive(Debug)]
pub struct ReconcileEffects {
    /// Ask the supervisor to launch the assigned task.
    pub launch_task: Option<ResourceTaskAcceptanceInput>,
    /// Ask the supervisor to launch the bound watcher.
    pub launch_watcher: Option<ReleaseWatcherLaunch>,
    /// Arm a wake for this window's deadline.
    pub arm_return_wake: Option<ReturnDecisionWindow>,
    /// Reconcile again because a completed task freed the loan for the next request.
    pub wake_for_next_assignment: bool,
    /// Reconcile again because a closed return may have opened the next loan.
    pub wake_after_restore: bool,
    /// Reconcile again because a closed return window started serving.
    pub wake_after_deadline: bool,
}

/// No effect.
pub open spec fn no_effects() -> ReconcileEffects {
    ReconcileEffects {
        launch_task: None,
        launch_watcher: None,
        arm_return_wake: None,
        wake_for_next_assignment: false,
        wake_after_restore: false,
        wake_after_deadline: false,
    }
}

/// A pass in progress: the actor's state so far and the effects so far.
#[derive(Debug)]
pub struct Pass {
    pub state: ResourceActorState,
    pub effects: ReconcileEffects,
}

/// Result of completing a release.
#[derive(Debug, Clone, Copy, PartialEq, Eq, Structural)]
pub enum ReleaseCompletionResult {
    /// The loan now serves a request.
    Assigned { loan: Loan },
    /// No request waits, so the loan goes to its return.
    ReturnRequired { loan: Loan },
}

impl ReleaseCompletionResult {
    /// The loan that replaced the awaiting one.
    pub open spec fn loan(self) -> Loan {
        match self {
            ReleaseCompletionResult::Assigned { loan } => loan,
            ReleaseCompletionResult::ReturnRequired { loan } => loan,
        }
    }
}

/// Progress of an accepted assigned task.
#[derive(Debug, Clone, Copy, PartialEq, Eq, Structural)]
pub enum AssignedResourceTaskProgress {
    Queued,
    Running,
}

/// The store's answer about one assigned task.
#[derive(Debug, Clone, Copy, PartialEq, Eq, Structural)]
pub enum AssignedResourceTaskReconcileOutcome {
    Attention(AssignedResourceTaskAttention),
    Active(AssignedResourceTaskProgress),
    /// The task ended and its completion is committed.
    Completed {
        /// Whether the loan was assigned to the next request.
        next_assignment: bool,
    },
    NotAccepted,
}

/// The store's answer about a restoring loan.
#[derive(Debug, Clone, Copy, PartialEq, Eq, Structural)]
pub enum RestoreReconcileOutcome {
    NotRestoring,
    Queued { loan: Loan, action_id: ActionId, task_id: TaskId },
    Attention { loan: Loan, action_id: ActionId, task_id: TaskId, reason: RestoreAttentionReason },
    ForegroundRunning { loan: Loan },
    ForegroundEnded,
    Closed,
}

/// The store's answer about an undecided return.
#[derive(Debug, Clone, Copy, PartialEq, Eq, Structural)]
pub enum ReturnDeadlineOutcome {
    Open { window: ReturnDecisionWindow },
    NotAwaiting,
    NoQueuedRequest,
    Served { loan: Loan },
}

/// The pending first background launch of a resource.
#[derive(Debug, Clone, Copy, PartialEq, Eq, Structural)]
pub struct BackgroundLaunchView {
    pub request_id: RequestId,
    pub task_id: TaskId,
    /// Whether its task row is still queued.
    pub queued: bool,
    /// The task whose start or end still matters.
    pub pending_task: Option<TaskId>,
    /// Whether it ended before registration with no release proof.
    pub awaits_operator_release: bool,
}

/// Progress of the task assigned to the current serving loan.
#[derive(Debug)]
pub enum ServingProgress {
    /// No request is assigned to a serving loan.
    Unassigned,
    /// The assigned task ended, and the store committed its completion into this loan.
    Completed { loan: Loan },
    /// The task layer accepted the assigned task.
    Accepted {
        loan: Loan,
        request: ResourceRequest,
        progress: AssignedResourceTaskProgress,
        /// Whether this actor lifetime's own launch request inserted the task.
        inserted_by_this_actor: bool,
    },
    /// This actor just asked the supervisor to launch the assigned task.
    LaunchRequested { loan: Loan },
    /// The task is not accepted, and this actor lifetime already asked to launch it.
    LaunchAttempted {
        request: ResourceRequest,
        progress: LaunchProgress<ResourceTaskActivationResult>,
    },
    /// The assigned task needs attention.
    Attention { request: ResourceRequest, reason: ResourceQueueAttentionReason },
}

/// Whether an earlier launch request leaves the task's start uncertain.
pub open spec fn launch_uncertain(progress: LaunchProgress<ResourceTaskActivationResult>) -> bool {
    match progress {
        LaunchProgress::Pending => true,
        LaunchProgress::Finished(result) => match result {
            ResourceTaskActivationResult::Inserted => false,
            ResourceTaskActivationResult::Existing { state } => state == ProcessStatus::Queued,
            ResourceTaskActivationResult::Prevented => true,
            ResourceTaskActivationResult::Uncertain => true,
        },
    }
}

/// Queue outcome for serving progress, or nothing to keep the earlier outcome.
pub open spec fn serving_result(progress: ServingProgress) -> Option<
    ResourceQueueReconcileOutcome,
> {
    match progress {
        ServingProgress::Unassigned => None,
        ServingProgress::Completed { loan } => Some(
            ResourceQueueReconcileOutcome::LoanAlreadyActive { loan },
        ),
        ServingProgress::LaunchRequested { loan } => Some(
            ResourceQueueReconcileOutcome::LoanAlreadyActive { loan },
        ),
        ServingProgress::Attention { request, reason } => Some(
            ResourceQueueReconcileOutcome::AttentionRequired { request, reason },
        ),
        ServingProgress::Accepted { loan, request, progress, inserted_by_this_actor } => if progress
            == AssignedResourceTaskProgress::Queued && !inserted_by_this_actor {
            Some(
                ResourceQueueReconcileOutcome::AttentionRequired {
                    request,
                    reason: ResourceQueueAttentionReason::AcceptedTaskLaunchUncertain {
                        task_id: request.task_id,
                    },
                },
            )
        } else {
            Some(ResourceQueueReconcileOutcome::LoanAlreadyActive { loan })
        },
        ServingProgress::LaunchAttempted { request, progress } => if launch_uncertain(progress) {
            Some(
                ResourceQueueReconcileOutcome::AttentionRequired {
                    request,
                    reason: ResourceQueueAttentionReason::AssignedTaskLaunchUncertain {
                        task_id: request.task_id,
                    },
                },
            )
        } else {
            None
        },
    }
}

/// Queue outcome for serving progress, or `None` to keep the earlier outcome.
///
/// Only this actor's own inserted launch may still be starting; an existing
/// queued row from before is never respawned here.
pub fn serving_outcome(progress: ServingProgress) -> (outcome: Option<
    ResourceQueueReconcileOutcome,
>)
    ensures
        outcome == serving_result(progress),
{
    match progress {
        ServingProgress::Unassigned => None,
        ServingProgress::Completed { loan } | ServingProgress::LaunchRequested { loan } => Some(
            ResourceQueueReconcileOutcome::LoanAlreadyActive { loan },
        ),
        ServingProgress::Attention { request, reason } => Some(
            ResourceQueueReconcileOutcome::AttentionRequired { request, reason },
        ),
        ServingProgress::Accepted {
            request,
            progress: AssignedResourceTaskProgress::Queued,
            inserted_by_this_actor: false,
            ..
        } => {
            let task_id = request.task_id;
            Some(
                ResourceQueueReconcileOutcome::AttentionRequired {
                    request,
                    reason: ResourceQueueAttentionReason::AcceptedTaskLaunchUncertain { task_id },
                },
            )
        },
        ServingProgress::Accepted { loan, .. } => Some(
            ResourceQueueReconcileOutcome::LoanAlreadyActive { loan },
        ),
        ServingProgress::LaunchAttempted { request, progress } => {
            let task_id = request.task_id;
            let uncertain = match progress {
                LaunchProgress::Pending => true,
                LaunchProgress::Finished(result) => match result {
                    ResourceTaskActivationResult::Prevented
                    | ResourceTaskActivationResult::Uncertain => true,
                    ResourceTaskActivationResult::Existing { state } => state
                        == ProcessStatus::Queued,
                    ResourceTaskActivationResult::Inserted => false,
                },
            };
            if uncertain {
                Some(
                    ResourceQueueReconcileOutcome::AttentionRequired {
                        request,
                        reason: ResourceQueueAttentionReason::AssignedTaskLaunchUncertain {
                            task_id,
                        },
                    },
                )
            } else {
                None
            }
        },
    }
}

/// Next part of one pass.
#[derive(Debug)]
pub enum ReconcileStep {
    AskQueue { message: StoreMsg, next: AwaitQueue },
    AskSnapshot { message: StoreMsg, next: AwaitSnapshot },
    AskRelease { message: StoreMsg, next: AwaitRelease },
    AskReleased { message: StoreMsg, next: AwaitReleased },
    /// Whether an uncertain watcher launch left a row.
    AskCommitted { message: StoreMsg, next: AwaitCommitted },
    /// The watcher is being bound.
    Bind { bind: BindStep, next: WatcherContext },
    /// Whether the remote supervisor launched its watcher.
    AskRemoteWatcher { message: StoreMsg, next: AwaitRemoteWatcher },
    AskWatcher { message: StoreMsg, next: AwaitWatcher },
    AskRequests { message: StoreMsg, next: AwaitRequests },
    AskAssigned { message: StoreMsg, next: AwaitAssigned },
    AskCompleted { message: StoreMsg, next: AwaitCompleted },
    AskRestoring { message: StoreMsg, next: AwaitRestoring },
    AskQueueAgain { message: StoreMsg, next: AwaitQueueAgain },
    AskRestored { message: StoreMsg, next: AwaitRestored },
    AskBackground { message: StoreMsg, next: AwaitBackground },
    AskDeadline { message: StoreMsg, next: AwaitDeadline },
    AskServed { message: StoreMsg, next: AwaitServed },
    Finished {
        state: ResourceActorState,
        effects: ReconcileEffects,
        outcome: ResourceQueueReconcileOutcome,
    },
    Failed { state: ResourceActorState, effects: ReconcileEffects, error: AppError },
}

/// Waiting for the queue reconciliation.
#[derive(Debug)]
pub struct AwaitQueue {
    pub pass: Pass,
}

/// Waiting for the first snapshot.
#[derive(Debug)]
pub struct AwaitSnapshot {
    pub pass: Pass,
    pub queue_outcome: ResourceQueueReconcileOutcome,
}

/// Waiting for the completion of a pending release.
#[derive(Debug)]
pub struct AwaitRelease {
    pub pass: Pass,
    pub snapshot: ResourceSnapshot,
    pub loan: Loan,
    pub action_id: ActionId,
    pub trainer_task_id: TaskId,
}

/// Waiting for the snapshot after a committed release.
#[derive(Debug)]
pub struct AwaitReleased {
    pub pass: Pass,
    pub loan: Loan,
}

/// What the watcher of an unproven release is progressed with.
#[derive(Debug)]
pub struct WatcherContext {
    pub pass: Pass,
    pub snapshot: ResourceSnapshot,
    pub failure: ReleaseProofFailure,
}

/// Waiting for the row of an uncertain watcher launch.
#[derive(Debug)]
pub struct AwaitCommitted {
    pub context: WatcherContext,
    pub attempt: WatcherLaunchAttempt,
}

/// Waiting for the row of a remote supervisor's watcher.
#[derive(Debug)]
pub struct AwaitRemoteWatcher {
    pub context: WatcherContext,
    pub watcher_task_id: TaskId,
}

/// Waiting for the row that tells the watcher's status.
#[derive(Debug)]
pub struct AwaitWatcher {
    pub context: WatcherContext,
    pub row: AwaitWatcherRow,
}

/// Waiting for the resource's requests.
#[derive(Debug)]
pub struct AwaitRequests {
    pub pass: Pass,
    pub snapshot: ResourceSnapshot,
    /// Outcome when nothing is being served.
    pub fallback: ResourceQueueReconcileOutcome,
}

/// Waiting for the assigned task.
#[derive(Debug)]
pub struct AwaitAssigned {
    pub pass: Pass,
    pub snapshot: ResourceSnapshot,
    pub fallback: ResourceQueueReconcileOutcome,
    pub loan: Loan,
    pub request: ResourceRequest,
}

/// Waiting for the snapshot after an assigned task completed.
#[derive(Debug)]
pub struct AwaitCompleted {
    pub pass: Pass,
    pub next_assignment: bool,
}

/// Waiting for the bound return task.
#[derive(Debug)]
pub struct AwaitRestoring {
    pub pass: Pass,
    pub snapshot: ResourceSnapshot,
    pub outcome: ResourceQueueReconcileOutcome,
    pub loan: Loan,
    pub action_id: ActionId,
    pub task_id: TaskId,
}

/// Waiting for the queue after a return closed.
#[derive(Debug)]
pub struct AwaitQueueAgain {
    pub pass: Pass,
}

/// Waiting for the snapshot after a return closed.
#[derive(Debug)]
pub struct AwaitRestored {
    pub pass: Pass,
    pub outcome: ResourceQueueReconcileOutcome,
}

/// Waiting for the pending first background launch.
#[derive(Debug)]
pub struct AwaitBackground {
    pub pass: Pass,
    pub snapshot: ResourceSnapshot,
    pub outcome: ResourceQueueReconcileOutcome,
}

/// Waiting for the return window.
#[derive(Debug)]
pub struct AwaitDeadline {
    pub pass: Pass,
    pub snapshot: ResourceSnapshot,
    pub outcome: ResourceQueueReconcileOutcome,
}

/// Waiting for the snapshot after a closed return window started serving.
#[derive(Debug)]
pub struct AwaitServed {
    pub pass: Pass,
    pub loan: Loan,
}

/// The first snapshot of a resource in a list.
pub open spec fn first_snapshot(snapshots: Seq<ResourceSnapshot>, id: ResourceId) -> Option<
    ResourceSnapshot,
>
    decreases snapshots.len(),
{
    if snapshots.len() == 0 {
        None
    } else if snapshots[0].resource.id == id {
        Some(snapshots[0])
    } else {
        first_snapshot(snapshots.drop_first(), id)
    }
}

/// The snapshot of a resource that its authority must still hold.
pub open spec fn loaded_snapshot(
    reply: Result<Vec<ResourceSnapshot>, AppError>,
    id: ResourceId,
) -> Result<ResourceSnapshot, ErrorView> {
    match reply {
        Err(error) => Err(error@),
        Ok(snapshots) => match first_snapshot(snapshots@, id) {
            Some(snapshot) => Ok(snapshot),
            None => Err(
                ErrorView::Internal {
                    message: "resource "@ + hyphenated(id.0)
                        + " disappeared from its authority store during reconciliation"@,
                },
            ),
        },
    }
}

/// Pick one resource's snapshot from its authority's list.
pub fn find_snapshot(snapshots: &Vec<ResourceSnapshot>, id: ResourceId) -> (found: Option<
    ResourceSnapshot,
>)
    ensures
        found == first_snapshot(snapshots@, id),
{
    let mut index: usize = 0;
    proof {
        assert(snapshots@.skip(0) =~= snapshots@);
    }
    while index < snapshots.len()
        invariant
            index <= snapshots.len(),
            first_snapshot(snapshots@, id) == first_snapshot(snapshots@.skip(index as int), id),
        decreases snapshots.len() - index,
    {
        proof {
            assert(snapshots@.skip(index as int)[0] == snapshots@[index as int]);
            assert(snapshots@.skip(index as int).drop_first() =~= snapshots@.skip(
                index as int + 1,
            ));
        }
        if snapshots[index].resource.id == id {
            return Some(snapshots[index]);
        }
        index += 1;
    }
    None
}

/// The snapshot of a resource that its authority must still hold.
pub fn load_snapshot(reply: Result<Vec<ResourceSnapshot>, AppError>, id: ResourceId) -> (snapshot:
    Result<ResourceSnapshot, AppError>)
    ensures
        result_view(snapshot) == loaded_snapshot(reply, id),
{
    let snapshots = match reply {
        Ok(snapshots) => snapshots,
        Err(error) => {
            return Err(error);
        },
    };
    match find_snapshot(&snapshots, id) {
        Some(snapshot) => Ok(snapshot),
        None => {
            let uuid = id.text();
            Err(
                AppError::Internal {
                    message: join3(
                        "resource ",
                        uuid.as_str(),
                        " disappeared from its authority store during reconciliation",
                    ),
                },
            )
        },
    }
}

/// Whether a pass failed with this error, keeping its state and effects.
pub open spec fn failed_with(step: ReconcileStep, pass: Pass, error: ErrorView) -> bool {
    step matches ReconcileStep::Failed { state, effects, error: found } && state == pass.state
        && effects == pass.effects && found@ == error
}

/// The question for the authority's snapshots.
pub open spec fn snapshots_question(pass: Pass) -> StoreMsg {
    StoreMsg::ResourceSnapshotsForAuthority { authority_machine: pass.state.authority_machine }
}

/// The end of a pass: the actor keeps the last snapshot and the outcome it reports.
pub open spec fn finished(
    pass: Pass,
    snapshot: ResourceSnapshot,
    outcome: ResourceQueueReconcileOutcome,
) -> ReconcileStep {
    ReconcileStep::Finished {
        state: ResourceActorState {
            resource: snapshot.resource,
            loan: snapshot.loan,
            reconcile_outcome: Some(outcome),
            ..pass.state
        },
        effects: pass.effects,
        outcome,
    }
}

/// The pass with no return wake armed.
pub open spec fn without_return_wake(pass: Pass) -> Pass {
    Pass { state: ResourceActorState { return_deadline_wake: None, ..pass.state }, ..pass }
}

/// The part of a pass that serves queued work after an undecided return.
pub open spec fn deadline_part(
    pass: Pass,
    snapshot: ResourceSnapshot,
    outcome: ResourceQueueReconcileOutcome,
) -> ReconcileStep {
    match return_awaited(snapshot) {
        None => finished(without_return_wake(pass), snapshot, outcome),
        Some(_) => ReconcileStep::AskDeadline {
            message: StoreMsg::ServeAfterReturnDeadline {
                authority_machine: pass.state.authority_machine,
                resource_id: snapshot.resource.id,
            },
            next: AwaitDeadline { pass, snapshot, outcome },
        },
    }
}

/// The part of a pass that observes a first background launch.
pub open spec fn background_part(
    pass: Pass,
    snapshot: ResourceSnapshot,
    outcome: ResourceQueueReconcileOutcome,
) -> ReconcileStep {
    ReconcileStep::AskBackground {
        message: StoreMsg::BackgroundLaunchForAuthority {
            authority_machine: pass.state.authority_machine,
            resource_id: snapshot.resource.id,
        },
        next: AwaitBackground { pass, snapshot, outcome },
    }
}

/// The return action that a loan is in, decided or not.
pub open spec fn return_action(snapshot: ResourceSnapshot) -> Option<ActionId> {
    match snapshot.loan {
        Some(loan) => match loan.state {
            LoanState::Active { phase: LoanPhase::AwaitingReturn { action_id } } => Some(action_id),
            LoanState::Active { phase: LoanPhase::Restoring { action_id, .. } } => Some(action_id),
            _ => None,
        },
        None => None,
    }
}

/// A return launch request, kept only while its action is the loan's.
pub open spec fn kept_restore_launch(
    attempt: Option<RestoreLaunchAttempt>,
    action: Option<ActionId>,
) -> Option<RestoreLaunchAttempt> {
    match attempt {
        Some(attempt) => if action == Some(attempt.key.action_id) {
            Some(attempt)
        } else {
            None
        },
        None => None,
    }
}

/// The part of a pass that observes the bound return task.
pub open spec fn restore_part(
    pass: Pass,
    snapshot: ResourceSnapshot,
    outcome: ResourceQueueReconcileOutcome,
) -> ReconcileStep {
    let kept = Pass {
        state: ResourceActorState {
            restore_launch: kept_restore_launch(
                pass.state.restore_launch,
                return_action(snapshot),
            ),
            ..pass.state
        },
        ..pass
    };
    match restoring_loan(snapshot) {
        None => background_part(kept, snapshot, outcome),
        Some((loan, action_id, task_id)) => ReconcileStep::AskRestoring {
            message: StoreMsg::ReconcileRestoringLoanForAuthority {
                authority_machine: pass.state.authority_machine,
                resource_id: snapshot.resource.id,
            },
            next: AwaitRestoring { pass: kept, snapshot, outcome, loan, action_id, task_id },
        },
    }
}

/// The part of a pass that advances the assigned task.
pub open spec fn serving_part(
    pass: Pass,
    snapshot: ResourceSnapshot,
    fallback: ResourceQueueReconcileOutcome,
) -> ReconcileStep {
    ReconcileStep::AskRequests {
        message: StoreMsg::ResourceRequests {
            authority_machine: pass.state.authority_machine,
            resource_id: snapshot.resource.id,
        },
        next: AwaitRequests { pass, snapshot, fallback },
    }
}

/// The pass once no release is awaited any more.
pub open spec fn released(pass: Pass) -> Pass {
    Pass {
        state: ResourceActorState { watcher_launch: None, release_watcher: None, ..pass.state },
        ..pass
    }
}

/// The pass after serving progress: a reported outcome replaces the fallback.
pub open spec fn after_serving(
    pass: Pass,
    snapshot: ResourceSnapshot,
    fallback: ResourceQueueReconcileOutcome,
    progress: ServingProgress,
) -> ReconcileStep {
    restore_part(
        pass,
        snapshot,
        match serving_result(progress) {
            Some(outcome) => outcome,
            None => fallback,
        },
    )
}

/// The pass once the watcher of an unproven release has its status.
///
/// The loan is still awaiting release, so no request can be serving.
pub open spec fn watched(context: WatcherContext, status: Option<ReleaseWatcherStatus>) ->
    ReconcileStep {
    restore_part(
        Pass {
            state: ResourceActorState {
                release_watcher: status,
                activation_attempt: None,
                ..context.pass.state
            },
            ..context.pass
        },
        context.snapshot,
        context.failure.outcome(),
    )
}

/// The watcher's status, or the question that tells it.
pub open spec fn status_part(context: WatcherContext, attempt: WatcherLaunchAttempt) ->
    ReconcileStep {
    match status_step(attempt, context.pass.state.resource.supervisor.machine) {
        WatcherStatusStep::Known(status) => watched(context, Some(status)),
        WatcherStatusStep::Ask { message, next } => ReconcileStep::AskWatcher {
            message,
            next: AwaitWatcher { context, row: next },
        },
    }
}

/// What the watcher of this context is bound from.
pub open spec fn bind_input(context: WatcherContext) -> BindInput {
    BindInput {
        authority_machine: context.pass.state.authority_machine,
        resource: context.snapshot.resource,
        loan: context.failure.loan,
        action_id: context.failure.action_id,
        trainer_task_id: context.failure.trainer_task_id,
    }
}

/// The context with another launch request.
pub open spec fn with_watcher_launch(
    context: WatcherContext,
    attempt: Option<WatcherLaunchAttempt>,
) -> WatcherContext {
    WatcherContext {
        pass: Pass {
            state: ResourceActorState { watcher_launch: attempt, ..context.pass.state },
            ..context.pass
        },
        ..context
    }
}

/// The part of a pass that binds, launches or observes the watcher of an unproven release.
pub open spec fn watcher_part(context: WatcherContext) -> ReconcileStep {
    match context.pass.state.watcher_launch {
        Some(attempt) => if attempt.key.action_id != context.failure.action_id {
            ReconcileStep::Bind {
                bind: bind_start(bind_input(context)),
                next: with_watcher_launch(context, None),
            }
        } else if attempt.progress == LaunchProgress::Finished(
            ReleaseWatcherLaunchResult::Uncertain,
        ) {
            ReconcileStep::AskCommitted {
                message: StoreMsg::GetTask { id: attempt.key.watcher_task_id },
                next: AwaitCommitted { context, attempt },
            }
        } else {
            status_part(context, attempt)
        },
        None => ReconcileStep::Bind { bind: bind_start(bind_input(context)), next: context },
    }
}

/// The context once the bound watcher's one launch was requested.
pub open spec fn watcher_requested(
    context: WatcherContext,
    intent: ReleaseWatcherIntent,
    executable: String,
) -> WatcherContext {
    let attempt = LaunchAttempt {
        key: WatcherLaunchKey {
            action_id: context.failure.action_id,
            watcher_task_id: intent.watcher_task_id,
        },
        progress: LaunchProgress::Pending,
    };
    let requested = with_watcher_launch(context, Some(attempt));
    WatcherContext {
        pass: Pass {
            effects: ReconcileEffects {
                launch_watcher: Some(
                    ReleaseWatcherLaunch {
                        authority_machine: context.pass.state.authority_machine,
                        resource_id: context.snapshot.resource.id,
                        supervisor: context.snapshot.resource.supervisor,
                        intent,
                        executable,
                    },
                ),
                ..context.pass.effects
            },
            ..requested.pass
        },
        ..requested
    }
}

/// Start one pass.
pub fn reconcile_and_refresh(state: ResourceActorState) -> (step: ReconcileStep)
    ensures
        step == (ReconcileStep::AskQueue {
            message: StoreMsg::ReconcileResourceQueue {
                authority_machine: state.authority_machine,
                resource_id: state.resource.id,
            },
            next: AwaitQueue { pass: Pass { state, effects: no_effects() } },
        }),
{
    ReconcileStep::AskQueue {
        message: StoreMsg::ReconcileResourceQueue {
            authority_machine: state.authority_machine,
            resource_id: state.resource.id,
        },
        next: AwaitQueue {
            pass: Pass {
                state,
                effects: ReconcileEffects {
                    launch_task: None,
                    launch_watcher: None,
                    arm_return_wake: None,
                    wake_for_next_assignment: false,
                    wake_after_restore: false,
                    wake_after_deadline: false,
                },
            },
        },
    }
}

fn fail(pass: Pass, error: AppError) -> (step: ReconcileStep)
    ensures
        step == (ReconcileStep::Failed { state: pass.state, effects: pass.effects, error }),
{
    ReconcileStep::Failed { state: pass.state, effects: pass.effects, error }
}

fn finish_pass(pass: Pass, snapshot: ResourceSnapshot, outcome: ResourceQueueReconcileOutcome) -> (step:
    ReconcileStep)
    ensures
        step == finished(pass, snapshot, outcome),
{
    let mut state = pass.state;
    state.resource = snapshot.resource;
    state.loan = snapshot.loan;
    state.reconcile_outcome = Some(outcome.clone());
    ReconcileStep::Finished { state, effects: pass.effects, outcome }
}

fn enter_deadline(
    pass: Pass,
    snapshot: ResourceSnapshot,
    outcome: ResourceQueueReconcileOutcome,
) -> (step: ReconcileStep)
    ensures
        step == deadline_part(pass, snapshot, outcome),
{
    if awaiting_return_action(&snapshot).is_none() {
        let mut pass = pass;
        pass.state.return_deadline_wake = None;
        return finish_pass(pass, snapshot, outcome);
    }
    ReconcileStep::AskDeadline {
        message: StoreMsg::ServeAfterReturnDeadline {
            authority_machine: pass.state.authority_machine,
            resource_id: snapshot.resource.id,
        },
        next: AwaitDeadline { pass, snapshot, outcome },
    }
}

fn enter_background(
    pass: Pass,
    snapshot: ResourceSnapshot,
    outcome: ResourceQueueReconcileOutcome,
) -> (step: ReconcileStep)
    ensures
        step == background_part(pass, snapshot, outcome),
{
    ReconcileStep::AskBackground {
        message: StoreMsg::BackgroundLaunchForAuthority {
            authority_machine: pass.state.authority_machine,
            resource_id: snapshot.resource.id,
        },
        next: AwaitBackground { pass, snapshot, outcome },
    }
}

/// Observe the bound return task and close the loan by its saved execution mode.
fn reconcile_restore(
    pass: Pass,
    snapshot: ResourceSnapshot,
    outcome: ResourceQueueReconcileOutcome,
) -> (step: ReconcileStep)
    ensures
        step == restore_part(pass, snapshot, outcome),
{
    let mut pass = pass;
    let pending_action = match snapshot.loan {
        Some(loan) => match loan.state {
            LoanState::Active { phase: LoanPhase::AwaitingReturn { action_id } } => Some(action_id),
            LoanState::Active { phase: LoanPhase::Restoring { action_id, .. } } => Some(action_id),
            _ => None,
        },
        None => None,
    };
    if let Some(attempt) = pass.state.restore_launch {
        if pending_action != Some(attempt.key.action_id) {
            pass.state.restore_launch = None;
        }
    }
    match restoring(&snapshot) {
        None => enter_background(pass, snapshot, outcome),
        Some((loan, action_id, task_id)) => ReconcileStep::AskRestoring {
            message: StoreMsg::ReconcileRestoringLoanForAuthority {
                authority_machine: pass.state.authority_machine,
                resource_id: snapshot.resource.id,
            },
            next: AwaitRestoring { pass, snapshot, outcome, loan, action_id, task_id },
        },
    }
}

fn enter_serving(
    pass: Pass,
    snapshot: ResourceSnapshot,
    fallback: ResourceQueueReconcileOutcome,
) -> (step: ReconcileStep)
    ensures
        step == serving_part(pass, snapshot, fallback),
{
    ReconcileStep::AskRequests {
        message: StoreMsg::ResourceRequests {
            authority_machine: pass.state.authority_machine,
            resource_id: snapshot.resource.id,
        },
        next: AwaitRequests { pass, snapshot, fallback },
    }
}

fn finish_serving(
    pass: Pass,
    snapshot: ResourceSnapshot,
    fallback: ResourceQueueReconcileOutcome,
    progress: ServingProgress,
) -> (step: ReconcileStep)
    ensures
        step == after_serving(pass, snapshot, fallback, progress),
{
    let outcome = match serving_outcome(progress) {
        Some(outcome) => outcome,
        None => fallback,
    };
    reconcile_restore(pass, snapshot, outcome)
}

impl AwaitQueue {
    /// Read the durable state that the reconciled queue left.
    pub fn on_queue(self, reply: Result<ResourceQueueReconcileOutcome, AppError>) -> (step:
        ReconcileStep)
        ensures
            step == (match reply {
                Err(error) => ReconcileStep::Failed {
                    state: self.pass.state,
                    effects: self.pass.effects,
                    error,
                },
                Ok(queue_outcome) => ReconcileStep::AskSnapshot {
                    message: snapshots_question(self.pass),
                    next: AwaitSnapshot { pass: self.pass, queue_outcome },
                },
            }),
    {
        match reply {
            Err(error) => fail(self.pass, error),
            Ok(queue_outcome) => ReconcileStep::AskSnapshot {
                message: StoreMsg::ResourceSnapshotsForAuthority {
                    authority_machine: self.pass.state.authority_machine,
                },
                next: AwaitSnapshot { pass: self.pass, queue_outcome },
            },
        }
    }
}

impl AwaitSnapshot {
    /// Complete a pending release, or go on with the assigned task.
    pub fn on_snapshot(self, reply: Result<Vec<ResourceSnapshot>, AppError>) -> (step:
        ReconcileStep)
        ensures
            match loaded_snapshot(reply, self.pass.state.resource.id) {
                Err(error) => failed_with(step, self.pass, error),
                Ok(snapshot) => match release_awaited(snapshot) {
                    None => step == serving_part(
                        released(self.pass),
                        snapshot,
                        self.queue_outcome,
                    ),
                    Some((loan, action_id, trainer_task_id)) => step == (
                    ReconcileStep::AskRelease {
                        message: StoreMsg::CompleteReleaseForAuthority {
                            authority_machine: self.pass.state.authority_machine,
                            resource_id: snapshot.resource.id,
                            action_id,
                            expected_state_revision: snapshot.resource.state_revision,
                        },
                        next: AwaitRelease {
                            pass: self.pass,
                            snapshot,
                            loan,
                            action_id,
                            trainer_task_id,
                        },
                    }),
                },
            },
    {
        let snapshot = match load_snapshot(reply, self.pass.state.resource.id) {
            Ok(snapshot) => snapshot,
            Err(error) => {
                return fail(self.pass, error);
            },
        };
        match awaiting_release(&snapshot) {
            None => {
                let mut pass = self.pass;
                pass.state.watcher_launch = None;
                pass.state.release_watcher = None;
                enter_serving(pass, snapshot, self.queue_outcome)
            },
            Some((loan, action_id, trainer_task_id)) => ReconcileStep::AskRelease {
                message: StoreMsg::CompleteReleaseForAuthority {
                    authority_machine: self.pass.state.authority_machine,
                    resource_id: snapshot.resource.id,
                    action_id,
                    expected_state_revision: snapshot.resource.state_revision,
                },
                next: AwaitRelease {
                    pass: self.pass,
                    snapshot,
                    loan,
                    action_id,
                    trainer_task_id,
                },
            },
        }
    }
}

impl AwaitRelease {
    /// A refused completion keeps the loan reserved and turns to its watcher.
    pub fn on_release(
        self,
        reply: Result<Result<ReleaseCompletionResult, CompleteReleaseError>, AppError>,
    ) -> (step: ReconcileStep)
        ensures
            step == (match reply {
                Err(error) => ReconcileStep::Failed {
                    state: self.pass.state,
                    effects: self.pass.effects,
                    error,
                },
                Ok(Ok(result)) => ReconcileStep::AskReleased {
                    message: snapshots_question(self.pass),
                    next: AwaitReleased { pass: self.pass, loan: result.loan() },
                },
                Ok(Err(error)) => watcher_part(
                    WatcherContext {
                        pass: self.pass,
                        snapshot: self.snapshot,
                        failure: ReleaseProofFailure {
                            loan: self.loan,
                            action_id: self.action_id,
                            trainer_task_id: self.trainer_task_id,
                            reason: release_proof_reason(error),
                        },
                    },
                ),
            }),
    {
        match reply {
            Err(error) => fail(self.pass, error),
            Ok(
                Ok(
                    ReleaseCompletionResult::Assigned { loan }
                    | ReleaseCompletionResult::ReturnRequired { loan },
                ),
            ) => ReconcileStep::AskReleased {
                message: StoreMsg::ResourceSnapshotsForAuthority {
                    authority_machine: self.pass.state.authority_machine,
                },
                next: AwaitReleased { pass: self.pass, loan },
            },
            Ok(Err(error)) => {
                let failure = ReleaseProofFailure {
                    loan: self.loan,
                    action_id: self.action_id,
                    trainer_task_id: self.trainer_task_id,
                    reason: release_proof_attention_reason(error),
                };
                progress_release_watcher(
                    WatcherContext { pass: self.pass, snapshot: self.snapshot, failure },
                )
            },
        }
    }
}

impl AwaitReleased {
    /// The loan that replaced the awaiting one is active unless serving says more.
    pub fn on_snapshot(self, reply: Result<Vec<ResourceSnapshot>, AppError>) -> (step:
        ReconcileStep)
        ensures
            match loaded_snapshot(reply, self.pass.state.resource.id) {
                Err(error) => failed_with(step, self.pass, error),
                Ok(snapshot) => step == serving_part(
                    released(self.pass),
                    snapshot,
                    ResourceQueueReconcileOutcome::LoanAlreadyActive { loan: self.loan },
                ),
            },
    {
        let snapshot = match load_snapshot(reply, self.pass.state.resource.id) {
            Ok(snapshot) => snapshot,
            Err(error) => {
                return fail(self.pass, error);
            },
        };
        let mut pass = self.pass;
        pass.state.watcher_launch = None;
        pass.state.release_watcher = None;
        enter_serving(
            pass,
            snapshot,
            ResourceQueueReconcileOutcome::LoanAlreadyActive { loan: self.loan },
        )
    }
}

/// Bind, baseline, and request the one watcher for a running trainer.
///
/// Every step reuses saved identities first, so a retry or restart binds the same
/// watcher task and request instead of allocating replacements.
fn progress_release_watcher(context: WatcherContext) -> (step: ReconcileStep)
    ensures
        step == watcher_part(context),
{
    let mut context = context;
    if let Some(attempt) = context.pass.state.watcher_launch {
        if attempt.key.action_id == context.failure.action_id {
            if let LaunchProgress::Finished(ReleaseWatcherLaunchResult::Uncertain) =
                attempt.progress {
                return ReconcileStep::AskCommitted {
                    message: StoreMsg::GetTask { id: attempt.key.watcher_task_id },
                    next: AwaitCommitted { context, attempt },
                };
            }
            return show_watcher(context, attempt);
        }
        context.pass.state.watcher_launch = None;
    }
    start_bind(context)
}

fn start_bind(context: WatcherContext) -> (step: ReconcileStep)
    ensures
        step == (ReconcileStep::Bind { bind: bind_start(bind_input(context)), next: context }),
{
    let bind = bind_release_watcher(
        BindInput {
            authority_machine: context.pass.state.authority_machine,
            resource: context.snapshot.resource,
            loan: context.failure.loan,
            action_id: context.failure.action_id,
            trainer_task_id: context.failure.trainer_task_id,
        },
    );
    ReconcileStep::Bind { bind, next: context }
}

fn show_watcher(context: WatcherContext, attempt: WatcherLaunchAttempt) -> (step: ReconcileStep)
    ensures
        step == status_part(context, attempt),
{
    match watcher_status(attempt, context.pass.state.resource.supervisor.machine) {
        WatcherStatusStep::Known(status) => leave_watcher(context, Some(status)),
        WatcherStatusStep::Ask { message, next } => ReconcileStep::AskWatcher {
            message,
            next: AwaitWatcher { context, row: next },
        },
    }
}

fn leave_watcher(context: WatcherContext, status: Option<ReleaseWatcherStatus>) -> (step:
    ReconcileStep)
    ensures
        step == watched(context, status),
{
    let mut pass = context.pass;
    pass.state.release_watcher = status;
    pass.state.activation_attempt = None;
    reconcile_restore(pass, context.snapshot, context.failure.into_outcome())
}

impl AwaitCommitted {
    /// Without a row the uncertain request accepted nothing, so asking again with the
    /// same saved identity cannot start a second worker.
    pub fn on_row(self, reply: Result<Option<TaskRow>, AppError>) -> (step: ReconcileStep)
        ensures
            step == (match reply {
                Err(error) => ReconcileStep::Failed {
                    state: self.context.pass.state,
                    effects: self.context.pass.effects,
                    error,
                },
                Ok(Some(_)) => status_part(self.context, self.attempt),
                Ok(None) => ReconcileStep::Bind {
                    bind: bind_start(bind_input(self.context)),
                    next: with_watcher_launch(self.context, None),
                },
            }),
    {
        match reply {
            Err(error) => fail(self.context.pass, error),
            Ok(Some(_)) => show_watcher(self.context, self.attempt),
            Ok(None) => {
                let mut context = self.context;
                context.pass.state.watcher_launch = None;
                start_bind(context)
            },
        }
    }
}

impl WatcherContext {
    /// Continue after one part of the binding.
    ///
    /// A co-located supervisor's watcher is launched here; a remote supervisor's
    /// machine launches its own.
    pub fn resume(self, bind: BindStep) -> (step: ReconcileStep)
        ensures
            step == (match bind {
                BindStep::Failed(error) => ReconcileStep::Failed {
                    state: self.pass.state,
                    effects: self.pass.effects,
                    error,
                },
                BindStep::Done(WatcherBinding::NotNeeded) => watched(self, None),
                BindStep::Done(WatcherBinding::Attention(reason)) => watched(
                    self,
                    Some(
                        ReleaseWatcherStatus::Attention {
                            action_id: self.failure.action_id,
                            reason,
                        },
                    ),
                ),
                BindStep::Done(WatcherBinding::Bound { intent, executable }) => if
                    self.snapshot.resource.supervisor.machine
                    != self.pass.state.authority_machine {
                    ReconcileStep::AskRemoteWatcher {
                        message: StoreMsg::GetTask { id: intent.watcher_task_id },
                        next: AwaitRemoteWatcher {
                            context: self,
                            watcher_task_id: intent.watcher_task_id,
                        },
                    }
                } else {
                    watched(
                        watcher_requested(self, intent, executable),
                        Some(
                            ReleaseWatcherStatus::Launching {
                                action_id: self.failure.action_id,
                                watcher_task_id: intent.watcher_task_id,
                            },
                        ),
                    )
                },
                _ => ReconcileStep::Bind { bind, next: self },
            }),
    {
        match bind {
            BindStep::Failed(error) => fail(self.pass, error),
            BindStep::Done(WatcherBinding::NotNeeded) => leave_watcher(self, None),
            BindStep::Done(WatcherBinding::Attention(reason)) => {
                let action_id = self.failure.action_id;
                leave_watcher(self, Some(ReleaseWatcherStatus::Attention { action_id, reason }))
            },
            BindStep::Done(WatcherBinding::Bound { intent, executable }) => {
                let watcher_task_id = intent.watcher_task_id;
                if self.snapshot.resource.supervisor.machine != self.pass.state.authority_machine {
                    return ReconcileStep::AskRemoteWatcher {
                        message: StoreMsg::GetTask { id: watcher_task_id },
                        next: AwaitRemoteWatcher { context: self, watcher_task_id },
                    };
                }
                let mut context = self;
                let attempt: WatcherLaunchAttempt = LaunchAttempt {
                    key: WatcherLaunchKey {
                        action_id: context.failure.action_id,
                        watcher_task_id,
                    },
                    progress: LaunchProgress::Pending,
                };
                context.pass.state.watcher_launch = Some(attempt);
                context.pass.effects.launch_watcher =
                Some(
                    ReleaseWatcherLaunch {
                        authority_machine: context.pass.state.authority_machine,
                        resource_id: context.snapshot.resource.id,
                        supervisor: context.snapshot.resource.supervisor,
                        intent,
                        executable,
                    },
                );
                show_watcher(context, attempt)
            },
            bind => ReconcileStep::Bind { bind, next: self },
        }
    }
}

impl AwaitRemoteWatcher {
    /// Observe a remote supervisor's watcher without launching it from this actor.
    ///
    /// A row that this actor lifetime did not see accepted is observed like any existing
    /// acceptance, so a queued row whose spawn may have been lost needs attention.
    pub fn on_row(self, reply: Result<Option<TaskRow>, AppError>) -> (step: ReconcileStep)
        ensures
            step == (match reply {
                Err(error) => ReconcileStep::Failed {
                    state: self.context.pass.state,
                    effects: self.context.pass.effects,
                    error,
                },
                Ok(None) => watched(
                    self.context,
                    Some(
                        ReleaseWatcherStatus::AwaitingRemoteSupervisor {
                            action_id: self.context.failure.action_id,
                            watcher_task_id: self.watcher_task_id,
                            supervisor_machine: self.context.snapshot.resource.supervisor.machine,
                        },
                    ),
                ),
                Ok(Some(_)) => status_part(
                    self.context,
                    LaunchAttempt {
                        key: WatcherLaunchKey {
                            action_id: self.context.failure.action_id,
                            watcher_task_id: self.watcher_task_id,
                        },
                        progress: LaunchProgress::Finished(ReleaseWatcherLaunchResult::Uncertain),
                    },
                ),
            }),
    {
        let action_id = self.context.failure.action_id;
        let watcher_task_id = self.watcher_task_id;
        match reply {
            Err(error) => fail(self.context.pass, error),
            Ok(None) => {
                let supervisor_machine = self.context.snapshot.resource.supervisor.machine;
                leave_watcher(
                    self.context,
                    Some(
                        ReleaseWatcherStatus::AwaitingRemoteSupervisor {
                            action_id,
                            watcher_task_id,
                            supervisor_machine,
                        },
                    ),
                )
            },
            Ok(Some(_)) => show_watcher(
                self.context,
                LaunchAttempt {
                    key: WatcherLaunchKey { action_id, watcher_task_id },
                    progress: LaunchProgress::Finished(ReleaseWatcherLaunchResult::Uncertain),
                },
            ),
        }
    }
}

impl AwaitWatcher {
    /// The status once the watcher's row is known.
    pub fn on_row(self, reply: Result<Option<TaskRow>, AppError>) -> (step: ReconcileStep)
        ensures
            step == (match reply {
                Err(error) => ReconcileStep::Failed {
                    state: self.context.pass.state,
                    effects: self.context.pass.effects,
                    error,
                },
                Ok(row) => watched(
                    self.context,
                    Some(status_of_row(self.row.key, self.row.inserted, row_status(row))),
                ),
            }),
    {
        match reply {
            Err(error) => fail(self.context.pass, error),
            Ok(row) => leave_watcher(self.context, Some(self.row.on_row(row))),
        }
    }
}

/// A task launch request, kept only while its assignment is the current one.
pub open spec fn kept_activation(
    attempt: Option<ActivationAttempt>,
    serving: Option<(Loan, ResourceRequest)>,
) -> Option<ActivationAttempt> {
    match (attempt, serving) {
        (Some(attempt), Some((_, request))) => if attempt.key == (ActivationKey {
            request_id: request.request_id,
            task_id: request.task_id,
        }) {
            Some(attempt)
        } else {
            None
        },
        _ => None,
    }
}

impl AwaitRequests {
    /// Find the assigned request and ask about its task.
    pub fn on_requests(self, reply: Result<Vec<ResourceRequest>, AppError>) -> (step: ReconcileStep)
        ensures
            match reply {
                Err(error) => step == (ReconcileStep::Failed {
                    state: self.pass.state,
                    effects: self.pass.effects,
                    error,
                }),
                Ok(requests) => {
                    let serving = serving_pair(self.snapshot, requests@);
                    let kept = Pass {
                        state: ResourceActorState {
                            activation_attempt: kept_activation(
                                self.pass.state.activation_attempt,
                                serving,
                            ),
                            ..self.pass.state
                        },
                        ..self.pass
                    };
                    match serving {
                        None => step == restore_part(kept, self.snapshot, self.fallback),
                        Some((loan, request)) => step == (ReconcileStep::AskAssigned {
                            message: StoreMsg::AssignedResourceTaskReconcile {
                                input: AssignedResourceTaskReconcileInput {
                                    authority_machine: self.pass.state.authority_machine,
                                    resource_id: request.resource_id,
                                    loan_id: loan.id,
                                    request_id: request.request_id,
                                    task_id: request.task_id,
                                    expected_state_revision: self.snapshot.resource.state_revision,
                                },
                            },
                            next: AwaitAssigned {
                                pass: kept,
                                snapshot: self.snapshot,
                                fallback: self.fallback,
                                loan,
                                request,
                            },
                        }),
                    }
                },
            },
    {
        let requests = match reply {
            Ok(requests) => requests,
            Err(error) => {
                return fail(self.pass, error);
            },
        };
        let mut pass = self.pass;
        match serving_assignment(&self.snapshot, &requests) {
            None => {
                pass.state.activation_attempt = None;
                finish_serving(pass, self.snapshot, self.fallback, ServingProgress::Unassigned)
            },
            Some((loan, request)) => {
                if let Some(attempt) = pass.state.activation_attempt {
                    if attempt.key.request_id != request.request_id || attempt.key.task_id
                        != request.task_id {
                        pass.state.activation_attempt = None;
                    }
                }
                let input = AssignedResourceTaskReconcileInput {
                    authority_machine: pass.state.authority_machine,
                    resource_id: request.resource_id,
                    loan_id: loan.id,
                    request_id: request.request_id,
                    task_id: request.task_id,
                    expected_state_revision: self.snapshot.resource.state_revision,
                };
                ReconcileStep::AskAssigned {
                    message: StoreMsg::AssignedResourceTaskReconcile { input },
                    next: AwaitAssigned {
                        pass,
                        snapshot: self.snapshot,
                        fallback: self.fallback,
                        loan,
                        request,
                    },
                }
            },
        }
    }
}

/// What launches the assigned task of a serving loan.
pub open spec fn acceptance_input(
    authority_machine: MachineId,
    snapshot: ResourceSnapshot,
    loan: Loan,
    request: ResourceRequest,
    env: TaskEnv,
) -> ResourceTaskAcceptanceInput {
    ResourceTaskAcceptanceInput {
        authority_machine,
        resource_id: request.resource_id,
        request_id: request.request_id,
        task_id: request.task_id,
        acceptance_sequence: request.acceptance_sequence,
        loan_id: loan.id,
        expected_state_revision: snapshot.resource.state_revision,
        command_spec: request.spec,
        executor_env: env,
    }
}

/// The pass and its progress once the assigned task turned out not to be accepted.
pub open spec fn task_launched(
    pass: Pass,
    snapshot: ResourceSnapshot,
    loan: Loan,
    request: ResourceRequest,
    env: TaskEnv,
) -> (Pass, ServingProgress) {
    match pass.state.activation_attempt {
        Some(attempt) => (
            pass,
            ServingProgress::LaunchAttempted { request, progress: attempt.progress },
        ),
        None => (
            Pass {
                state: ResourceActorState {
                    activation_attempt: Some(
                        LaunchAttempt {
                            key: ActivationKey {
                                request_id: request.request_id,
                                task_id: request.task_id,
                            },
                            progress: LaunchProgress::Pending,
                        },
                    ),
                    ..pass.state
                },
                effects: ReconcileEffects {
                    launch_task: Some(
                        acceptance_input(
                            pass.state.authority_machine,
                            snapshot,
                            loan,
                            request,
                            env,
                        ),
                    ),
                    ..pass.effects
                },
            },
            ServingProgress::LaunchRequested { loan },
        ),
    }
}

/// Ask the supervisor once per actor lifetime to launch the assigned task.
fn launch_assigned_task(
    pass: Pass,
    snapshot: &ResourceSnapshot,
    loan: Loan,
    request: ResourceRequest,
    env: TaskEnv,
) -> (launched: (Pass, ServingProgress))
    ensures
        launched == task_launched(pass, *snapshot, loan, request, env),
{
    let mut pass = pass;
    if let Some(attempt) = pass.state.activation_attempt {
        let progress = attempt.progress;
        return (pass, ServingProgress::LaunchAttempted { request, progress });
    }
    let input = ResourceTaskAcceptanceInput {
        authority_machine: pass.state.authority_machine,
        resource_id: request.resource_id,
        request_id: request.request_id,
        task_id: request.task_id,
        acceptance_sequence: request.acceptance_sequence,
        loan_id: loan.id,
        expected_state_revision: snapshot.resource.state_revision,
        command_spec: request.spec,
        executor_env: env,
    };
    pass.state.activation_attempt =
    Some(
        LaunchAttempt {
            key: ActivationKey { request_id: request.request_id, task_id: request.task_id },
            progress: LaunchProgress::Pending,
        },
    );
    pass.effects.launch_task = Some(input);
    (pass, ServingProgress::LaunchRequested { loan })
}

impl AwaitAssigned {
    /// Reconcile the assigned task of the serving loan, and launch it once when needed.
    ///
    /// `env` is this executor's environment, which a launched task runs in.
    pub fn on_assigned(
        self,
        reply: Result<Result<AssignedResourceTaskReconcileOutcome, String>, AppError>,
        env: TaskEnv,
    ) -> (step: ReconcileStep)
        ensures
            step == (match reply {
                Err(error) => ReconcileStep::Failed {
                    state: self.pass.state,
                    effects: self.pass.effects,
                    error,
                },
                Ok(Err(_)) => after_serving(
                    self.pass,
                    self.snapshot,
                    self.fallback,
                    ServingProgress::Attention {
                        request: self.request,
                        reason: ResourceQueueAttentionReason::AssignedTaskReconcileFailed {
                            task_id: self.request.task_id,
                        },
                    },
                ),
                Ok(Ok(AssignedResourceTaskReconcileOutcome::Attention(reason))) => after_serving(
                    self.pass,
                    self.snapshot,
                    self.fallback,
                    ServingProgress::Attention {
                        request: self.request,
                        reason: completion_reason(self.request.task_id, reason),
                    },
                ),
                Ok(Ok(AssignedResourceTaskReconcileOutcome::Active(progress))) => after_serving(
                    self.pass,
                    self.snapshot,
                    self.fallback,
                    ServingProgress::Accepted {
                        loan: self.loan,
                        request: self.request,
                        progress,
                        inserted_by_this_actor: self.pass.state.activation_attempt matches Some(
                            attempt,
                        ) && attempt.progress == LaunchProgress::Finished(
                            ResourceTaskActivationResult::Inserted,
                        ),
                    },
                ),
                Ok(Ok(AssignedResourceTaskReconcileOutcome::Completed { next_assignment })) =>
                    ReconcileStep::AskCompleted {
                        message: snapshots_question(self.pass),
                        next: AwaitCompleted { pass: self.pass, next_assignment },
                    },
                Ok(Ok(AssignedResourceTaskReconcileOutcome::NotAccepted)) => {
                    let launched = task_launched(
                        self.pass,
                        self.snapshot,
                        self.loan,
                        self.request,
                        env,
                    );
                    after_serving(launched.0, self.snapshot, self.fallback, launched.1)
                },
            }),
    {
        let task_id = self.request.task_id;
        match reply {
            Err(error) => fail(self.pass, error),
            Ok(Err(_)) => finish_serving(
                self.pass,
                self.snapshot,
                self.fallback,
                ServingProgress::Attention {
                    request: self.request,
                    reason: ResourceQueueAttentionReason::AssignedTaskReconcileFailed { task_id },
                },
            ),
            Ok(Ok(AssignedResourceTaskReconcileOutcome::Attention(reason))) => finish_serving(
                self.pass,
                self.snapshot,
                self.fallback,
                ServingProgress::Attention {
                    request: self.request,
                    reason: task_completion_attention_reason(task_id, reason),
                },
            ),
            Ok(Ok(AssignedResourceTaskReconcileOutcome::Active(progress))) => {
                let inserted_by_this_actor = match self.pass.state.activation_attempt {
                    Some(attempt) => match attempt.progress {
                        LaunchProgress::Finished(ResourceTaskActivationResult::Inserted) => true,
                        _ => false,
                    },
                    None => false,
                };
                finish_serving(
                    self.pass,
                    self.snapshot,
                    self.fallback,
                    ServingProgress::Accepted {
                        loan: self.loan,
                        request: self.request,
                        progress,
                        inserted_by_this_actor,
                    },
                )
            },
            Ok(Ok(AssignedResourceTaskReconcileOutcome::Completed { next_assignment })) =>
                ReconcileStep::AskCompleted {
                    message: StoreMsg::ResourceSnapshotsForAuthority {
                        authority_machine: self.pass.state.authority_machine,
                    },
                    next: AwaitCompleted { pass: self.pass, next_assignment },
                },
            Ok(Ok(AssignedResourceTaskReconcileOutcome::NotAccepted)) => {
                let (pass, progress) = launch_assigned_task(
                    self.pass,
                    &self.snapshot,
                    self.loan,
                    self.request,
                    env,
                );
                finish_serving(pass, self.snapshot, self.fallback, progress)
            },
        }
    }
}

/// The pass once a completed task freed the loan, waking again for a next assignment.
pub open spec fn completed_pass(pass: Pass, next_assignment: bool) -> Pass {
    if next_assignment {
        Pass {
            effects: ReconcileEffects { wake_for_next_assignment: true, ..pass.effects },
            ..pass
        }
    } else {
        pass
    }
}

impl AwaitCompleted {
    /// A committed completion always leaves an active loan.
    pub fn on_snapshot(self, reply: Result<Vec<ResourceSnapshot>, AppError>) -> (step:
        ReconcileStep)
        ensures
            match loaded_snapshot(reply, self.pass.state.resource.id) {
                Err(error) => failed_with(step, self.pass, error),
                Ok(snapshot) => match snapshot.loan {
                    None => failed_with(
                        step,
                        self.pass,
                        ErrorView::Internal {
                            message: "resource task completion removed its active loan"@,
                        },
                    ),
                    Some(loan) => step == restore_part(
                        completed_pass(self.pass, self.next_assignment),
                        snapshot,
                        ResourceQueueReconcileOutcome::LoanAlreadyActive { loan },
                    ),
                },
            },
    {
        let snapshot = match load_snapshot(reply, self.pass.state.resource.id) {
            Ok(snapshot) => snapshot,
            Err(error) => {
                return fail(self.pass, error);
            },
        };
        let loan = match snapshot.loan {
            Some(loan) => loan,
            None => {
                return fail(
                    self.pass,
                    internal("resource task completion removed its active loan"),
                );
            },
        };
        let mut pass = self.pass;
        if self.next_assignment {
            pass.effects.wake_for_next_assignment = true;
        }
        reconcile_restore(
            pass,
            snapshot,
            ResourceQueueReconcileOutcome::LoanAlreadyActive { loan },
        )
    }
}

/// Whether this actor's own request for a return task is in flight or inserted it.
pub open spec fn restore_launching(
    attempt: Option<RestoreLaunchAttempt>,
    action_id: ActionId,
    task_id: TaskId,
) -> bool {
    attempt matches Some(attempt) && attempt.key == (RestoreLaunchKey { action_id, task_id }) && (
    attempt.progress is Pending || attempt.progress == LaunchProgress::Finished(
        RestoreLaunchResult::Inserted,
    ))
}

fn restore_inserted(result: RestoreLaunchResult) -> (inserted: bool)
    ensures
        inserted == (result == RestoreLaunchResult::Inserted),
{
    result == RestoreLaunchResult::Inserted
}

impl AwaitRestoring {
    /// Observe the bound return task.
    ///
    /// A queued row is a launch in progress only while this actor's own supervisor
    /// request is pending or inserted it; otherwise its worker may never start. After
    /// closure the queue is reconciled again, so requests accepted after the return
    /// reservation open the next loan under the normal rules.
    pub fn on_restoring(self, reply: Result<Result<RestoreReconcileOutcome, String>, AppError>) -> (step:
        ReconcileStep)
        ensures
            step == (match reply {
                Err(error) => ReconcileStep::Failed {
                    state: self.pass.state,
                    effects: self.pass.effects,
                    error,
                },
                Ok(Err(_)) => background_part(
                    self.pass,
                    self.snapshot,
                    ResourceQueueReconcileOutcome::RestoreAttentionRequired {
                        loan: self.loan,
                        action_id: self.action_id,
                        task_id: self.task_id,
                        reason: RestoreAttentionReason::ReconcileFailed,
                    },
                ),
                Ok(Ok(RestoreReconcileOutcome::NotRestoring)) => background_part(
                    self.pass,
                    self.snapshot,
                    self.outcome,
                ),
                Ok(Ok(RestoreReconcileOutcome::Queued { loan, action_id, task_id })) =>
                    background_part(
                        self.pass,
                        self.snapshot,
                        if restore_launching(self.pass.state.restore_launch, action_id, task_id) {
                            ResourceQueueReconcileOutcome::LoanAlreadyActive { loan }
                        } else {
                            ResourceQueueReconcileOutcome::RestoreAttentionRequired {
                                loan,
                                action_id,
                                task_id,
                                reason: RestoreAttentionReason::LaunchUncertain,
                            }
                        },
                    ),
                Ok(Ok(RestoreReconcileOutcome::Attention { loan, action_id, task_id, reason })) =>
                    background_part(
                        self.pass,
                        self.snapshot,
                        ResourceQueueReconcileOutcome::RestoreAttentionRequired {
                            loan,
                            action_id,
                            task_id,
                            reason,
                        },
                    ),
                Ok(Ok(RestoreReconcileOutcome::ForegroundRunning { loan })) => background_part(
                    self.pass,
                    self.snapshot,
                    ResourceQueueReconcileOutcome::LoanAlreadyActive { loan },
                ),
                Ok(
                    Ok(
                        RestoreReconcileOutcome::ForegroundEnded
                        | RestoreReconcileOutcome::Closed,
                    ),
                ) => {
                    let pass = Pass {
                        state: ResourceActorState { restore_launch: None, ..self.pass.state },
                        ..self.pass
                    };
                    ReconcileStep::AskQueueAgain {
                        message: StoreMsg::ReconcileResourceQueue {
                            authority_machine: self.pass.state.authority_machine,
                            resource_id: self.snapshot.resource.id,
                        },
                        next: AwaitQueueAgain { pass },
                    }
                },
            }),
    {
        match reply {
            Err(error) => fail(self.pass, error),
            Ok(Err(_)) => enter_background(
                self.pass,
                self.snapshot,
                ResourceQueueReconcileOutcome::RestoreAttentionRequired {
                    loan: self.loan,
                    action_id: self.action_id,
                    task_id: self.task_id,
                    reason: RestoreAttentionReason::ReconcileFailed,
                },
            ),
            Ok(Ok(RestoreReconcileOutcome::NotRestoring)) => enter_background(
                self.pass,
                self.snapshot,
                self.outcome,
            ),
            Ok(Ok(RestoreReconcileOutcome::Queued { loan, action_id, task_id })) => {
                let key = RestoreLaunchKey { action_id, task_id };
                let launching = match self.pass.state.restore_launch {
                    Some(attempt) => attempt.launching(
                        key,
                        restore_inserted,
                    ),
                    None => false,
                };
                let outcome = if launching {
                    ResourceQueueReconcileOutcome::LoanAlreadyActive { loan }
                } else {
                    ResourceQueueReconcileOutcome::RestoreAttentionRequired {
                        loan,
                        action_id,
                        task_id,
                        reason: RestoreAttentionReason::LaunchUncertain,
                    }
                };
                enter_background(self.pass, self.snapshot, outcome)
            },
            Ok(Ok(RestoreReconcileOutcome::Attention { loan, action_id, task_id, reason })) =>
                enter_background(
                    self.pass,
                    self.snapshot,
                    ResourceQueueReconcileOutcome::RestoreAttentionRequired {
                        loan,
                        action_id,
                        task_id,
                        reason,
                    },
                ),
            Ok(Ok(RestoreReconcileOutcome::ForegroundRunning { loan })) => enter_background(
                self.pass,
                self.snapshot,
                ResourceQueueReconcileOutcome::LoanAlreadyActive { loan },
            ),
            Ok(
                Ok(RestoreReconcileOutcome::ForegroundEnded | RestoreReconcileOutcome::Closed),
            ) => {
                let mut pass = self.pass;
                pass.state.restore_launch = None;
                ReconcileStep::AskQueueAgain {
                    message: StoreMsg::ReconcileResourceQueue {
                        authority_machine: pass.state.authority_machine,
                        resource_id: self.snapshot.resource.id,
                    },
                    next: AwaitQueueAgain { pass },
                }
            },
        }
    }
}

impl AwaitQueueAgain {
    /// Read the durable state that the next reconciliation left.
    pub fn on_queue(self, reply: Result<ResourceQueueReconcileOutcome, AppError>) -> (step:
        ReconcileStep)
        ensures
            step == (match reply {
                Err(error) => ReconcileStep::Failed {
                    state: self.pass.state,
                    effects: self.pass.effects,
                    error,
                },
                Ok(outcome) => ReconcileStep::AskRestored {
                    message: snapshots_question(self.pass),
                    next: AwaitRestored { pass: self.pass, outcome },
                },
            }),
    {
        match reply {
            Err(error) => fail(self.pass, error),
            Ok(outcome) => ReconcileStep::AskRestored {
                message: StoreMsg::ResourceSnapshotsForAuthority {
                    authority_machine: self.pass.state.authority_machine,
                },
                next: AwaitRestored { pass: self.pass, outcome },
            },
        }
    }
}

impl AwaitRestored {
    /// A newly opened loan still needs its watcher and assignment steps, so the actor wakes.
    pub fn on_snapshot(self, reply: Result<Vec<ResourceSnapshot>, AppError>) -> (step:
        ReconcileStep)
        ensures
            match loaded_snapshot(reply, self.pass.state.resource.id) {
                Err(error) => failed_with(step, self.pass, error),
                Ok(snapshot) => step == background_part(
                    Pass {
                        effects: ReconcileEffects {
                            wake_after_restore: true,
                            ..self.pass.effects
                        },
                        ..self.pass
                    },
                    snapshot,
                    self.outcome,
                ),
            },
    {
        let snapshot = match load_snapshot(reply, self.pass.state.resource.id) {
            Ok(snapshot) => snapshot,
            Err(error) => {
                return fail(self.pass, error);
            },
        };
        let mut pass = self.pass;
        pass.effects.wake_after_restore = true;
        enter_background(pass, snapshot, self.outcome)
    }
}

/// Whether this actor's own request for a first background launch is in flight or inserted it.
pub open spec fn background_launching(
    attempt: Option<BackgroundLaunchAttempt>,
    request_id: RequestId,
) -> bool {
    attempt matches Some(attempt) && attempt.key == request_id && (attempt.progress is Pending
        || attempt.progress == LaunchProgress::Finished(BackgroundLaunchResult::Inserted))
}

fn background_inserted(result: BackgroundLaunchResult) -> (inserted: bool)
    ensures
        inserted == (result == BackgroundLaunchResult::Inserted),
{
    result == BackgroundLaunchResult::Inserted
}

/// Outcome that a first background launch puts in place of the earlier one, if any.
pub open spec fn background_outcome(
    attempt: Option<BackgroundLaunchAttempt>,
    view: Option<BackgroundLaunchView>,
    outcome: ResourceQueueReconcileOutcome,
) -> Option<ResourceQueueReconcileOutcome> {
    match view {
        None => None,
        Some(view) => if view.awaits_operator_release && outcome
            is NoQueuedRequest {
            Some(
                ResourceQueueReconcileOutcome::BackgroundLaunchReleaseUnproven {
                    request_id: view.request_id,
                    task_id: view.task_id,
                },
            )
        } else if view.queued && !background_launching(attempt, view.request_id) {
            Some(
                ResourceQueueReconcileOutcome::BackgroundLaunchUncertain { task_id: view.task_id },
            )
        } else {
            None
        },
    }
}

impl AwaitBackground {
    /// Track the pending first background launch and surface its unproven states.
    ///
    /// A launch that ended before registration with no release proof keeps the resource
    /// reserved even with an empty queue, so it replaces an empty-queue outcome.
    pub fn on_background(self, reply: Result<Option<BackgroundLaunchView>, AppError>) -> (step:
        ReconcileStep)
        ensures
            step == (match reply {
                Err(error) => ReconcileStep::Failed {
                    state: self.pass.state,
                    effects: self.pass.effects,
                    error,
                },
                Ok(view) => deadline_part(
                    Pass {
                        state: ResourceActorState {
                            pending_background_task: match view {
                                Some(view) => view.pending_task,
                                None => None,
                            },
                            ..self.pass.state
                        },
                        ..self.pass
                    },
                    self.snapshot,
                    match background_outcome(
                        self.pass.state.background_launch,
                        view,
                        self.outcome,
                    ) {
                        Some(outcome) => outcome,
                        None => self.outcome,
                    },
                ),
            }),
    {
        let view = match reply {
            Ok(view) => view,
            Err(error) => {
                return fail(self.pass, error);
            },
        };
        let mut pass = self.pass;
        let view = match view {
            Some(view) => {
                pass.state.pending_background_task = view.pending_task;
                view
            },
            None => {
                pass.state.pending_background_task = None;
                return enter_deadline(pass, self.snapshot, self.outcome);
            },
        };
        if view.awaits_operator_release {
            if let ResourceQueueReconcileOutcome::NoQueuedRequest = &self.outcome {
                return enter_deadline(
                    pass,
                    self.snapshot,
                    ResourceQueueReconcileOutcome::BackgroundLaunchReleaseUnproven {
                        request_id: view.request_id,
                        task_id: view.task_id,
                    },
                );
            }
        }
        if !view.queued {
            return enter_deadline(pass, self.snapshot, self.outcome);
        }
        let launching = match pass.state.background_launch {
            Some(attempt) => attempt.launching(
                view.request_id,
                background_inserted,
            ),
            None => false,
        };
        if launching {
            return enter_deadline(pass, self.snapshot, self.outcome);
        }
        enter_deadline(
            pass,
            self.snapshot,
            ResourceQueueReconcileOutcome::BackgroundLaunchUncertain { task_id: view.task_id },
        )
    }
}

/// The pass with one wake armed for the deadline of `window`, replacing a wake for an
/// older deadline and one that already fired.
pub open spec fn return_wake_armed(pass: Pass, window: ReturnDecisionWindow, fired: bool) -> Pass {
    if pass.state.return_deadline_wake matches Some(armed) && armed.covering(window, fired) {
        pass
    } else {
        Pass {
            state: ResourceActorState {
                return_deadline_wake: Some(
                    ReturnDeadlineWake {
                        action_id: window.action_id,
                        deadline_at: window.deadline_at,
                    },
                ),
                ..pass.state
            },
            effects: ReconcileEffects { arm_return_wake: Some(window), ..pass.effects },
        }
    }
}

/// Arm one wake for the deadline of `window`, replacing a wake for an older deadline.
///
/// `fired` tells whether the armed wake already fired.
fn arm_return_deadline_wake(pass: Pass, window: ReturnDecisionWindow, fired: bool) -> (armed: Pass)
    ensures
        armed == return_wake_armed(pass, window, fired),
{
    let mut pass = pass;
    if let Some(armed) = pass.state.return_deadline_wake {
        if armed.covers(window, fired) {
            return pass;
        }
    }
    pass.state.return_deadline_wake =
    Some(
        ReturnDeadlineWake { action_id: window.action_id, deadline_at: window.deadline_at },
    );
    pass.effects.arm_return_wake = Some(window);
    pass
}

impl AwaitDeadline {
    /// Serve queued work from an undecided return once its window closes.
    ///
    /// While the window is open, one wake is armed for its saved deadline. The store
    /// serves the next queued request only after the deadline, so the supervisor's
    /// decision and this transition cannot both win.
    pub fn on_deadline(
        self,
        reply: Result<Result<ReturnDeadlineOutcome, String>, AppError>,
        wake_fired: bool,
    ) -> (step: ReconcileStep)
        ensures
            step == (match reply {
                Err(error) => ReconcileStep::Failed {
                    state: self.pass.state,
                    effects: self.pass.effects,
                    error,
                },
                Ok(Err(_)) => finished(self.pass, self.snapshot, self.outcome),
                Ok(Ok(ReturnDeadlineOutcome::Open { window })) => finished(
                    return_wake_armed(self.pass, window, wake_fired),
                    self.snapshot,
                    self.outcome,
                ),
                Ok(
                    Ok(ReturnDeadlineOutcome::NotAwaiting | ReturnDeadlineOutcome::NoQueuedRequest),
                ) => finished(without_return_wake(self.pass), self.snapshot, self.outcome),
                Ok(Ok(ReturnDeadlineOutcome::Served { loan })) => ReconcileStep::AskServed {
                    message: snapshots_question(self.pass),
                    next: AwaitServed { pass: without_return_wake(self.pass), loan },
                },
            }),
    {
        match reply {
            Err(error) => fail(self.pass, error),
            Ok(Err(_)) => finish_pass(self.pass, self.snapshot, self.outcome),
            Ok(Ok(ReturnDeadlineOutcome::Open { window })) => {
                let pass = arm_return_deadline_wake(self.pass, window, wake_fired);
                finish_pass(pass, self.snapshot, self.outcome)
            },
            Ok(
                Ok(ReturnDeadlineOutcome::NotAwaiting | ReturnDeadlineOutcome::NoQueuedRequest),
            ) => {
                // a request accepted later reconciles this actor again
                let mut pass = self.pass;
                pass.state.return_deadline_wake = None;
                finish_pass(pass, self.snapshot, self.outcome)
            },
            Ok(Ok(ReturnDeadlineOutcome::Served { loan })) => {
                let mut pass = self.pass;
                pass.state.return_deadline_wake = None;
                ReconcileStep::AskServed {
                    message: StoreMsg::ResourceSnapshotsForAuthority {
                        authority_machine: pass.state.authority_machine,
                    },
                    next: AwaitServed { pass, loan },
                }
            },
        }
    }
}

impl AwaitServed {
    /// The serving loan still needs its assignment launch, so the actor wakes.
    pub fn on_snapshot(self, reply: Result<Vec<ResourceSnapshot>, AppError>) -> (step:
        ReconcileStep)
        ensures
            match loaded_snapshot(reply, self.pass.state.resource.id) {
                Err(error) => failed_with(step, self.pass, error),
                Ok(snapshot) => step == finished(
                    Pass {
                        effects: ReconcileEffects {
                            wake_after_deadline: true,
                            ..self.pass.effects
                        },
                        ..self.pass
                    },
                    snapshot,
                    ResourceQueueReconcileOutcome::LoanAlreadyActive { loan: self.loan },
                ),
            },
    {
        let snapshot = match load_snapshot(reply, self.pass.state.resource.id) {
            Ok(snapshot) => snapshot,
            Err(error) => {
                return fail(self.pass, error);
            },
        };
        let mut pass = self.pass;
        pass.effects.wake_after_deadline = true;
        finish_pass(
            pass,
            snapshot,
            ResourceQueueReconcileOutcome::LoanAlreadyActive { loan: self.loan },
        )
    }
}

/// One launch request per assigned task and actor lifetime: once a pass asked for the
/// launch of a request, no later pass over the same assignment asks again.
pub proof fn assigned_tasks_are_requested_once(
    first: Pass,
    first_snapshot: ResourceSnapshot,
    first_loan: Loan,
    later: Pass,
    later_snapshot: ResourceSnapshot,
    later_loan: Loan,
    request: ResourceRequest,
    env: TaskEnv,
    later_env: TaskEnv,
)
    requires
        later.state.activation_attempt == kept_activation(
            task_launched(
                first,
                first_snapshot,
                first_loan,
                request,
                env,
            ).0.state.activation_attempt,
            Some((later_loan, request)),
        ),
        first.state.activation_attempt == kept_activation(
            first.state.activation_attempt,
            Some((first_loan, request)),
        ),
    ensures
        task_launched(later, later_snapshot, later_loan, request, later_env).0 == later,
        task_launched(later, later_snapshot, later_loan, request, later_env).1 is LaunchAttempted,
{
}

/// A queued row that this actor lifetime did not insert is never reported as starting: an
/// accepted task, a return task and a first background task all need attention.
pub proof fn foreign_queued_rows_need_attention(
    loan: Loan,
    request: ResourceRequest,
    restore: Option<RestoreLaunchAttempt>,
    background: Option<BackgroundLaunchAttempt>,
    view: BackgroundLaunchView,
    outcome: ResourceQueueReconcileOutcome,
    action_id: ActionId,
    task_id: TaskId,
)
    requires
        restore is None || restore->0.key.task_id != task_id || (restore->0.progress is Finished
            && restore->0.progress->0 != RestoreLaunchResult::Inserted),
        background is None || background->0.key != view.request_id || (background->0.progress
            is Finished && background->0.progress->0 != BackgroundLaunchResult::Inserted),
        view.queued,
    ensures
        serving_result(
            ServingProgress::Accepted {
                loan,
                request,
                progress: AssignedResourceTaskProgress::Queued,
                inserted_by_this_actor: false,
            },
        ) matches Some(ResourceQueueReconcileOutcome::AttentionRequired { .. }),
        !restore_launching(restore, action_id, task_id),
        background_outcome(background, Some(view), outcome) matches Some(
            ResourceQueueReconcileOutcome::BackgroundLaunchReleaseUnproven { .. }
            | ResourceQueueReconcileOutcome::BackgroundLaunchUncertain { .. },
        ),
{
}

/// What a step has in hand.
pub open spec fn held_pass(step: ReconcileStep) -> Pass {
    match step {
        ReconcileStep::AskQueue { next, .. } => next.pass,
        ReconcileStep::AskSnapshot { next, .. } => next.pass,
        ReconcileStep::AskRelease { next, .. } => next.pass,
        ReconcileStep::AskReleased { next, .. } => next.pass,
        ReconcileStep::AskCommitted { next, .. } => next.context.pass,
        ReconcileStep::Bind { next, .. } => next.pass,
        ReconcileStep::AskRemoteWatcher { next, .. } => next.context.pass,
        ReconcileStep::AskWatcher { next, .. } => next.context.pass,
        ReconcileStep::AskRequests { next, .. } => next.pass,
        ReconcileStep::AskAssigned { next, .. } => next.pass,
        ReconcileStep::AskCompleted { next, .. } => next.pass,
        ReconcileStep::AskRestoring { next, .. } => next.pass,
        ReconcileStep::AskQueueAgain { next, .. } => next.pass,
        ReconcileStep::AskRestored { next, .. } => next.pass,
        ReconcileStep::AskBackground { next, .. } => next.pass,
        ReconcileStep::AskDeadline { next, .. } => next.pass,
        ReconcileStep::AskServed { next, .. } => next.pass,
        ReconcileStep::Finished { state, effects, .. } => Pass { state, effects },
        ReconcileStep::Failed { state, effects, .. } => Pass { state, effects },
    }
}

/// While a release is unproven the loan stays reserved: watching for it launches no task,
/// and an older task launch is forgotten once the watcher has its status.
pub proof fn unproven_releases_launch_no_task(
    context: WatcherContext,
    status: Option<ReleaseWatcherStatus>,
    intent: ReleaseWatcherIntent,
    executable: String,
)
    ensures
        held_pass(watcher_part(context)).effects.launch_task == context.pass.effects.launch_task,
        held_pass(watched(context, status)).effects == context.pass.effects,
        held_pass(watched(context, status)).state.activation_attempt is None,
        held_pass(
            watched(watcher_requested(context, intent, executable), status),
        ).effects.launch_task == context.pass.effects.launch_task,
{
}

/// An open return window always has a wake ahead of it: one that already fired, or that was
/// armed for another deadline, is armed again, and one that still covers it is kept.
pub proof fn open_windows_have_a_wake_ahead(pass: Pass, window: ReturnDecisionWindow, fired: bool)
    ensures
        return_wake_armed(pass, window, fired).state.return_deadline_wake matches Some(wake)
            && wake.covering(window, false),
        fired ==> return_wake_armed(pass, window, fired).effects.arm_return_wake == Some(window),
        !fired ==> return_wake_armed(
            return_wake_armed(pass, window, fired),
            window,
            false,
        ) == return_wake_armed(pass, window, fired),
{
}

} // verus!
