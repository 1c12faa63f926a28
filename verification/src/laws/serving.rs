//! Reconciling a resource: what one pass asks, launches and reports for the loan it finds.

use vstd::prelude::*;

use crate::actors::resource::reconcile::{
    find_snapshot, first_snapshot, load_snapshot, reconcile_and_refresh, serving_outcome,
    AssignedResourceTaskProgress, AssignedResourceTaskReconcileOutcome, AwaitAssigned,
    AwaitBackground, AwaitCommitted, AwaitCompleted, AwaitDeadline, AwaitQueue, AwaitQueueAgain,
    AwaitRelease, AwaitReleased, AwaitRemoteWatcher, AwaitRequests, AwaitRestored, AwaitRestoring,
    AwaitServed, AwaitSnapshot, AwaitWatcher, BackgroundLaunchView, Pass, ReconcileEffects,
    ReconcileStep, ReleaseCompletionResult, ResourceActorState, RestoreReconcileOutcome,
    ReturnDeadlineOutcome, ServingProgress, WatcherContext,
};
use crate::actors::resource::watcher::{
    BindStep, WatcherBinding, WatcherStatusStep,
};
use crate::actors::resource::{
    first_assigned, release_proof_attention_reason, serving_assignment,
    task_completion_attention_reason, AssignedResourceTaskAttention, BackgroundLaunchResult,
    CompleteReleaseError, LaunchProgress, ReleaseProofAttentionReason, ReleaseWatcherLaunchResult,
    ReleaseWatcherStatus, ResourceQueueAttentionReason, ResourceQueueReconcileOutcome,
    ResourceTaskActivationResult, RestoreLaunchResult,
};
use crate::actors::store::StoreMsg;
use crate::domain::{ProcessStatus, TaskEnv, TaskRow};
use crate::error::AppError;
use crate::ids::{LoanId, RequestId, ResourceId, TaskId};
use crate::resource::{
    Loan, LoanPhase, LoanState, ResourceRequest, ResourceRequestState, ResourceSnapshot,
    RestoreAttentionReason, ReturnDecisionWindow,
};

verus! {

/// For accepted work the reported outcome is the loan, already active, except for a row that is
/// still queued and that this actor lifetime did not insert: exactly that one needs attention,
/// as an uncertain launch of the accepted task. A running task is never reported as uncertain,
/// whoever inserted it.
pub proof fn accepted_work_is_uncertain_only_while_foreign_and_queued(
    loan: Loan,
    request: ResourceRequest,
    progress: AssignedResourceTaskProgress,
    inserted_by_this_actor: bool,
    outcome: Option<ResourceQueueReconcileOutcome>,
)
    requires
        call_ensures(
            serving_outcome,
            (ServingProgress::Accepted { loan, request, progress, inserted_by_this_actor },),
            outcome,
        ),
    ensures
        progress is Running ==> outcome == Some(
            ResourceQueueReconcileOutcome::LoanAlreadyActive { loan },
        ),
        inserted_by_this_actor ==> outcome == Some(
            ResourceQueueReconcileOutcome::LoanAlreadyActive { loan },
        ),
        outcome == Some(
            ResourceQueueReconcileOutcome::AttentionRequired {
                request,
                reason: ResourceQueueAttentionReason::AcceptedTaskLaunchUncertain {
                    task_id: request.task_id,
                },
            },
        ) <==> progress is Queued && !inserted_by_this_actor,
        outcome == Some(ResourceQueueReconcileOutcome::LoanAlreadyActive { loan }) <==> !(progress
            is Queued && !inserted_by_this_actor),
{
}

/// A launch that was tried is uncertain unless it inserted the task, or found it beyond the
/// queue; then the queue's own outcome stands.
pub proof fn tried_launches_are_certain_only_with_a_task(
    request: ResourceRequest,
    progress: LaunchProgress<ResourceTaskActivationResult>,
    outcome: Option<ResourceQueueReconcileOutcome>,
)
    requires
        call_ensures(
            serving_outcome,
            (ServingProgress::LaunchAttempted { request, progress },),
            outcome,
        ),
    ensures
        outcome is None <==> (progress matches LaunchProgress::Finished(result) && (result
            is Inserted || (result matches ResourceTaskActivationResult::Existing { state } && state
            != ProcessStatus::Queued))),
        outcome is Some ==> outcome == Some(
            ResourceQueueReconcileOutcome::AttentionRequired {
                request,
                reason: ResourceQueueAttentionReason::AssignedTaskLaunchUncertain {
                    task_id: request.task_id,
                },
            },
        ),
{
}

/// Without an assignment the queue's outcome stands; completed work and a launch that was just
/// requested report their loan, and attention is reported as it was found.
pub proof fn other_progress_is_reported_as_found(
    progress: ServingProgress,
    outcome: Option<ResourceQueueReconcileOutcome>,
)
    requires
        call_ensures(serving_outcome, (progress,), outcome),
    ensures
        progress is Unassigned ==> outcome is None,
        progress matches ServingProgress::Completed { loan } ==> outcome == Some(
            ResourceQueueReconcileOutcome::LoanAlreadyActive { loan },
        ),
        progress matches ServingProgress::LaunchRequested { loan } ==> outcome == Some(
            ResourceQueueReconcileOutcome::LoanAlreadyActive { loan },
        ),
        progress matches ServingProgress::Attention { request, reason } ==> outcome == Some(
            ResourceQueueReconcileOutcome::AttentionRequired { request, reason },
        ),
{
}

/// The phase of a snapshot's active loan.
pub open spec fn phase_of(snapshot: ResourceSnapshot) -> Option<LoanPhase> {
    match snapshot.loan {
        Some(loan) => match loan.state {
            LoanState::Active { phase } => Some(phase),
            _ => None,
        },
        None => None,
    }
}

/// Whether one actor state differs from another at most in what it launched for a return.
pub open spec fn but_for_return_launch(
    left: ResourceActorState,
    right: ResourceActorState,
) -> bool {
    left == (ResourceActorState { restore_launch: left.restore_launch, ..right })
}

/// Whether a return launch stays known: exactly while the loan is still about its own action.
pub open spec fn keeps_return_launch(
    kept: ResourceActorState,
    before: ResourceActorState,
    snapshot: ResourceSnapshot,
) -> bool {
    &&& kept.restore_launch is None || kept.restore_launch == before.restore_launch
    &&& kept.restore_launch is Some <==> (before.restore_launch matches Some(attempt) && (phase_of(
        snapshot,
    ) == Some(LoanPhase::AwaitingReturn { action_id: attempt.key.action_id }) || (phase_of(
        snapshot,
    ) matches Some(LoanPhase::Restoring { action_id, .. }) && action_id == attempt.key.action_id)))
}

/// Whether a step goes on from the assigned work with an outcome: to the loan's return where it
/// is being restored, with that loan's own action and task, and to the background launch
/// otherwise.
pub open spec fn goes_on(
    step: ReconcileStep,
    pass: Pass,
    snapshot: ResourceSnapshot,
    outcome: ResourceQueueReconcileOutcome,
) -> bool {
    match step {
        ReconcileStep::AskRestoring { message, next } => {
            &&& phase_of(snapshot) == Some(
                LoanPhase::Restoring { action_id: next.action_id, resume_task_id: next.task_id },
            )
            &&& Some(next.loan) == snapshot.loan
            &&& message == (StoreMsg::ReconcileRestoringLoanForAuthority {
                authority_machine: pass.state.authority_machine,
                resource_id: snapshot.resource.id,
            })
            &&& next.snapshot == snapshot
            &&& next.outcome == outcome
            &&& next.pass.effects == pass.effects
            &&& but_for_return_launch(next.pass.state, pass.state)
            &&& keeps_return_launch(next.pass.state, pass.state, snapshot)
        },
        ReconcileStep::AskBackground { message, next } => {
            &&& !(phase_of(snapshot) matches Some(LoanPhase::Restoring { .. }))
            &&& message == (StoreMsg::BackgroundLaunchForAuthority {
                authority_machine: pass.state.authority_machine,
                resource_id: snapshot.resource.id,
            })
            &&& next.snapshot == snapshot
            &&& next.outcome == outcome
            &&& next.pass.effects == pass.effects
            &&& but_for_return_launch(next.pass.state, pass.state)
            &&& keeps_return_launch(next.pass.state, pass.state, snapshot)
        },
        _ => false,
    }
}

/// Whether a step fails with an error and leaves a pass as it is.
pub open spec fn fails_as_it_is(step: ReconcileStep, pass: Pass, error: AppError) -> bool {
    step == (ReconcileStep::Failed { state: pass.state, effects: pass.effects, error })
}

/// An accepted task that runs is reported as the active loan that it serves, whoever inserted
/// it; a queued one is reported so exactly if this actor lifetime inserted it, and needs
/// attention otherwise. Nothing is launched for it either way.
pub proof fn assigned_work_that_runs_is_active(
    wait: AwaitAssigned,
    progress: AssignedResourceTaskProgress,
    env: TaskEnv,
    step: ReconcileStep,
)
    requires
        call_ensures(
            AwaitAssigned::on_assigned,
            (wait, Ok(Ok(AssignedResourceTaskReconcileOutcome::Active(progress))), env),
            step,
        ),
    ensures
        ({
            let inserted = wait.pass.state.activation_attempt matches Some(attempt)
                && attempt.progress == LaunchProgress::Finished(
                ResourceTaskActivationResult::Inserted,
            );
            let active = ResourceQueueReconcileOutcome::LoanAlreadyActive { loan: wait.loan };
            let uncertain = ResourceQueueReconcileOutcome::AttentionRequired {
                request: wait.request,
                reason: ResourceQueueAttentionReason::AcceptedTaskLaunchUncertain {
                    task_id: wait.request.task_id,
                },
            };
            &&& progress is Running ==> goes_on(step, wait.pass, wait.snapshot, active)
            &&& progress is Queued && inserted ==> goes_on(step, wait.pass, wait.snapshot, active)
            &&& progress is Queued && !inserted ==> goes_on(
                step,
                wait.pass,
                wait.snapshot,
                uncertain,
            )
        }),
{
}

/// Work that the store could not judge needs attention for the assigned task, and work that it
/// judged unsafe needs the attention that it named. A failed call fails the pass.
pub proof fn unsafe_assigned_work_needs_attention(
    wait: AwaitAssigned,
    message: String,
    attention: AssignedResourceTaskAttention,
    error: AppError,
    env: TaskEnv,
    reason: ResourceQueueAttentionReason,
    steps: (ReconcileStep, ReconcileStep, ReconcileStep),
)
    requires
        call_ensures(AwaitAssigned::on_assigned, (wait, Ok(Err(message)), env), steps.0),
        call_ensures(
            AwaitAssigned::on_assigned,
            (wait, Ok(Ok(AssignedResourceTaskReconcileOutcome::Attention(attention))), env),
            steps.1,
        ),
        call_ensures(AwaitAssigned::on_assigned, (wait, Err(error), env), steps.2),
        call_ensures(
            task_completion_attention_reason,
            (wait.request.task_id, attention),
            reason,
        ),
    ensures
        goes_on(
            steps.0,
            wait.pass,
            wait.snapshot,
            ResourceQueueReconcileOutcome::AttentionRequired {
                request: wait.request,
                reason: ResourceQueueAttentionReason::AssignedTaskReconcileFailed {
                    task_id: wait.request.task_id,
                },
            },
        ),
        goes_on(
            steps.1,
            wait.pass,
            wait.snapshot,
            ResourceQueueReconcileOutcome::AttentionRequired { request: wait.request, reason },
        ),
        fails_as_it_is(steps.2, wait.pass, error),
{
}

/// The attention names the assigned task and its cause: two causes are told apart unless both
/// say that the request, the loan or the task is another one.
pub proof fn attention_names_its_cause(
    task_id: TaskId,
    left: AssignedResourceTaskAttention,
    right: AssignedResourceTaskAttention,
    left_reason: ResourceQueueAttentionReason,
    right_reason: ResourceQueueAttentionReason,
)
    requires
        call_ensures(task_completion_attention_reason, (task_id, left), left_reason),
        call_ensures(task_completion_attention_reason, (task_id, right), right_reason),
    ensures
        left_reason == right_reason <==> left == right || ((left is RequestChanged || left
            is LoanChanged || left is TaskIdentityMismatch) && (right is RequestChanged || right
            is LoanChanged || right is TaskIdentityMismatch)),
        left is RequestChanged || left is LoanChanged || left is TaskIdentityMismatch <==> left_reason
            == (ResourceQueueAttentionReason::AssignedTaskIdentityMismatch { task_id }),
        left is StaleRevision <==> left_reason == (
        ResourceQueueAttentionReason::AssignedTaskStaleRevision { task_id }),
        left is ServingReleaseUnverified <==> left_reason
            == ResourceQueueAttentionReason::UnverifiedServingRelease,
        left is TaskLost <==> left_reason == (ResourceQueueAttentionReason::AssignedTaskLost {
            task_id,
        }),
        left is ExitWitnessUnconfirmed <==> left_reason == (
        ResourceQueueAttentionReason::AssignedTaskExitUnconfirmed { task_id }),
        left is InvalidNoChildSpawnEvidence <==> left_reason == (
        ResourceQueueAttentionReason::AssignedTaskNoChildSpawnProofInvalid { task_id }),
        left matches AssignedResourceTaskAttention::OwnershipUncertain(risk) ==> left_reason == (
        ResourceQueueAttentionReason::AssignedTaskOwnershipUncertain { task_id, risk }),
{
}

/// Work that is not accepted yet is launched once: the pass that finds no attempt for it
/// requests the launch of exactly that request's task under its loan, and a pass that finds one
/// requests nothing.
pub proof fn unaccepted_work_is_launched_once(
    wait: AwaitAssigned,
    env: TaskEnv,
    step: ReconcileStep,
    tried: Option<ResourceQueueReconcileOutcome>,
)
    requires
        call_ensures(
            AwaitAssigned::on_assigned,
            (wait, Ok(Ok(AssignedResourceTaskReconcileOutcome::NotAccepted)), env),
            step,
        ),
        wait.pass.state.activation_attempt matches Some(attempt) ==> call_ensures(
            serving_outcome,
            (
                ServingProgress::LaunchAttempted {
                    request: wait.request,
                    progress: attempt.progress,
                },
            ),
            tried,
        ),
    ensures
        wait.pass.state.activation_attempt is Some ==> goes_on(
            step,
            wait.pass,
            wait.snapshot,
            match tried {
                Some(outcome) => outcome,
                None => wait.fallback,
            },
        ),
        wait.pass.state.activation_attempt is None ==> exists|launched: Pass| #[trigger]
            requests_launch(launched, wait, env) && goes_on(
                step,
                launched,
                wait.snapshot,
                ResourceQueueReconcileOutcome::LoanAlreadyActive { loan: wait.loan },
            ),
{
    if wait.pass.state.activation_attempt is None {
        let launched = Pass {
            state: ResourceActorState {
                activation_attempt: match step {
                    ReconcileStep::AskRestoring { next, .. } => next.pass.state.activation_attempt,
                    ReconcileStep::AskBackground { next, .. } => next.pass.state.activation_attempt,
                    _ => None,
                },
                ..wait.pass.state
            },
            effects: match step {
                ReconcileStep::AskRestoring { next, .. } => next.pass.effects,
                ReconcileStep::AskBackground { next, .. } => next.pass.effects,
                _ => wait.pass.effects,
            },
        };
        assert(requests_launch(launched, wait, env));
    }
}

/// Whether a pass is another one with the assigned task's launch requested: its attempt is under
/// way under the request's own identity, and the launch carries the request, its loan, and the
/// revision that they were read at.
pub open spec fn requests_launch(launched: Pass, wait: AwaitAssigned, env: TaskEnv) -> bool {
    &&& launched.state.activation_attempt matches Some(attempt)
    &&& attempt.progress is Pending
    &&& attempt.key.request_id == wait.request.request_id
    &&& attempt.key.task_id == wait.request.task_id
    &&& launched.state == (ResourceActorState {
        activation_attempt: Some(attempt),
        ..wait.pass.state
    })
    &&& launched.effects.launch_task matches Some(launch)
    &&& launched.effects == (ReconcileEffects { launch_task: Some(launch), ..wait.pass.effects })
    &&& launch.authority_machine == wait.pass.state.authority_machine
    &&& launch.resource_id == wait.request.resource_id
    &&& launch.request_id == wait.request.request_id
    &&& launch.task_id == wait.request.task_id
    &&& launch.acceptance_sequence == wait.request.acceptance_sequence
    &&& launch.loan_id == wait.loan.id
    &&& launch.expected_state_revision == wait.snapshot.resource.state_revision
    &&& launch.command_spec == wait.request.spec
    &&& launch.executor_env == env
}

/// Completed work has its resource read again; the loan that is then active is reported, and the
/// actor is woken for the next assignment exactly if there is one.
pub proof fn completed_work_wakes_the_next_assignment(
    wait: AwaitAssigned,
    next_assignment: bool,
    env: TaskEnv,
    first: ReconcileStep,
    reply: Result<Vec<ResourceSnapshot>, AppError>,
    loaded: Result<ResourceSnapshot, AppError>,
    step: ReconcileStep,
)
    requires
        call_ensures(
            AwaitAssigned::on_assigned,
            (wait, Ok(Ok(AssignedResourceTaskReconcileOutcome::Completed { next_assignment })), env),
            first,
        ),
        first matches ReconcileStep::AskCompleted { next, .. } && call_ensures(
            AwaitCompleted::on_snapshot,
            (next, reply),
            step,
        ),
        call_ensures(load_snapshot, (reply, wait.pass.state.resource.id), loaded),
    ensures
        first matches ReconcileStep::AskCompleted { message, .. } && message == (
        StoreMsg::ResourceSnapshotsForAuthority {
            authority_machine: wait.pass.state.authority_machine,
        }),
        loaded matches Ok(snapshot) ==> {
            &&& snapshot.loan matches Some(loan) ==> goes_on(
                step,
                Pass {
                    effects: ReconcileEffects {
                        wake_for_next_assignment: next_assignment
                            || wait.pass.effects.wake_for_next_assignment,
                        ..wait.pass.effects
                    },
                    ..wait.pass
                },
                snapshot,
                ResourceQueueReconcileOutcome::LoanAlreadyActive { loan },
            )
            &&& snapshot.loan is None ==> (step matches ReconcileStep::Failed { state, effects, .. }
                && state == wait.pass.state && effects == wait.pass.effects)
        },
        loaded matches Err(error) ==> (step matches ReconcileStep::Failed {
            state,
            effects,
            error: found,
        } && state == wait.pass.state && effects == wait.pass.effects && found@ == error@),
{
}

/// The first of several snapshots of a resource is its own, and stands before every other one.
proof fn first_snapshots_are_their_own(snapshots: Seq<ResourceSnapshot>, id: ResourceId)
    ensures
        first_snapshot(snapshots, id) matches Some(found) ==> exists|at: int|
            {
                &&& 0 <= at < snapshots.len()
                &&& #[trigger] snapshots[at] == found
                &&& found.resource.id == id
                &&& forall|earlier: int| 0 <= earlier < at ==> (#[trigger] snapshots[
                    earlier]).resource.id != id
            },
        first_snapshot(snapshots, id) is None ==> forall|at: int|
            0 <= at < snapshots.len() ==> (#[trigger] snapshots[at]).resource.id != id,
    decreases snapshots.len(),
{
    if snapshots.len() > 0 && snapshots[0].resource.id != id {
        let rest = snapshots.drop_first();
        first_snapshots_are_their_own(rest, id);
        assert(forall|at: int| 0 <= at < rest.len() ==> #[trigger] rest[at] == snapshots[at + 1]);
        assert(forall|at: int|
            1 <= at < snapshots.len() ==> #[trigger] snapshots[at] == rest[at - 1]);
        if first_snapshot(rest, id) is Some {
            let at = choose|at: int|
                {
                    &&& 0 <= at < rest.len()
                    &&& #[trigger] rest[at] == first_snapshot(rest, id)->0
                    &&& first_snapshot(rest, id)->0.resource.id == id
                    &&& forall|earlier: int| 0 <= earlier < at ==> (#[trigger] rest[
                        earlier]).resource.id != id
                };
            assert(snapshots[at + 1] == first_snapshot(snapshots, id)->0);
        }
    }
}

/// A resource's snapshot is one that its authority answered for that resource, the first of
/// them; without one there is none to go on from.
pub proof fn snapshots_are_of_the_resource(
    snapshots: Vec<ResourceSnapshot>,
    id: ResourceId,
    found: Option<ResourceSnapshot>,
    loaded: Result<ResourceSnapshot, AppError>,
    error: AppError,
    failed: Result<ResourceSnapshot, AppError>,
)
    requires
        call_ensures(find_snapshot, (&snapshots, id), found),
        call_ensures(load_snapshot, (Ok(snapshots), id), loaded),
        call_ensures(load_snapshot, (Err(error), id), failed),
    ensures
        found matches Some(snapshot) ==> snapshot.resource.id == id && exists|at: int|
            {
                &&& 0 <= at < snapshots@.len()
                &&& #[trigger] snapshots@[at] == snapshot
                &&& forall|earlier: int| 0 <= earlier < at ==> (#[trigger] snapshots@[
                    earlier]).resource.id != id
            },
        found is None ==> forall|at: int|
            0 <= at < snapshots@.len() ==> (#[trigger] snapshots@[at]).resource.id != id,
        loaded is Ok <==> found is Some,
        loaded matches Ok(snapshot) ==> found == Some(snapshot),
        failed matches Err(kept) && kept@ == error@,
{
    first_snapshots_are_their_own(snapshots@, id);
}

/// The first assigned request is the one that was asked for.
proof fn first_assigned_is_its_own(
    requests: Seq<ResourceRequest>,
    request_id: RequestId,
    loan_id: LoanId,
)
    ensures
        first_assigned(requests, request_id, loan_id) matches Some(found) ==> requests.contains(
            found,
        ) && found.request_id == request_id && found.state == (ResourceRequestState::Assigned {
            loan_id,
        }),
        first_assigned(requests, request_id, loan_id) is None ==> forall|at: int|
            0 <= at < requests.len() ==> (#[trigger] requests[at]).request_id != request_id
                || requests[at].state != (ResourceRequestState::Assigned { loan_id }),
    decreases requests.len(),
{
    if requests.len() > 0 {
        let rest = requests.drop_first();
        first_assigned_is_its_own(rest, request_id, loan_id);
        assert(forall|at: int|
            1 <= at < requests.len() ==> #[trigger] requests[at] == rest[at - 1]);
        if first_assigned(rest, request_id, loan_id) is Some {
            let found = first_assigned(rest, request_id, loan_id)->0;
            let at = choose|at: int| 0 <= at < rest.len() && rest[at] == found;
            assert(requests[at + 1] == found);
        }
        assert(requests.contains(requests[0]));
    }
}

/// The work that a loan serves is the request it names, among those that are assigned to it;
/// only a serving loan has any.
pub proof fn serving_loans_serve_their_own_request(
    snapshot: ResourceSnapshot,
    requests: Vec<ResourceRequest>,
    found: Option<(Loan, ResourceRequest)>,
)
    requires
        call_ensures(serving_assignment, (&snapshot, &requests), found),
    ensures
        found matches Some((loan, request)) ==> {
            &&& snapshot.loan == Some(loan)
            &&& phase_of(snapshot) == Some(
                LoanPhase::Serving { current_request_id: request.request_id },
            )
            &&& request.state == (ResourceRequestState::Assigned { loan_id: loan.id })
            &&& requests@.contains(request)
        },
        found is None ==> (phase_of(snapshot) matches Some(
            LoanPhase::Serving { current_request_id },
        ) ==> forall|at: int|
            0 <= at < requests@.len() ==> (#[trigger] requests@[at]).request_id
                != current_request_id || requests@[at].state != (ResourceRequestState::Assigned {
                loan_id: snapshot.loan->0.id,
            })),
{
    if snapshot.loan is Some {
        let loan = snapshot.loan->0;
        match loan.state {
            LoanState::Active { phase: LoanPhase::Serving { current_request_id } } => {
                first_assigned_is_its_own(requests@, current_request_id, loan.id);
            },
            _ => {},
        }
    }
}

/// A pass asks the store about the work that the loan serves, with the loan, the request and
/// the revision that were read; without such work it goes on with the queue's outcome. An
/// earlier launch stays known exactly if it was for that request's task.
pub proof fn the_assigned_work_is_asked_about(
    wait: AwaitRequests,
    requests: Vec<ResourceRequest>,
    serving: Option<(Loan, ResourceRequest)>,
    step: ReconcileStep,
)
    requires
        call_ensures(AwaitRequests::on_requests, (wait, Ok(requests)), step),
        call_ensures(serving_assignment, (&wait.snapshot, &requests), serving),
    ensures
        serving is None ==> goes_on(
            step,
            Pass {
                state: ResourceActorState { activation_attempt: None, ..wait.pass.state },
                ..wait.pass
            },
            wait.snapshot,
            wait.fallback,
        ),
        serving matches Some((loan, request)) ==> {
            &&& step matches ReconcileStep::AskAssigned {
                message: StoreMsg::AssignedResourceTaskReconcile { input },
                next,
            }
            &&& input.authority_machine == wait.pass.state.authority_machine
            &&& input.resource_id == request.resource_id
            &&& input.loan_id == loan.id
            &&& input.request_id == request.request_id
            &&& input.task_id == request.task_id
            &&& input.expected_state_revision == wait.snapshot.resource.state_revision
            &&& next.loan == loan
            &&& next.request == request
            &&& next.snapshot == wait.snapshot
            &&& next.fallback == wait.fallback
            &&& next.pass.effects == wait.pass.effects
            &&& next.pass.state == (ResourceActorState {
                activation_attempt: next.pass.state.activation_attempt,
                ..wait.pass.state
            })
            &&& next.pass.state.activation_attempt matches Some(attempt)
                ==> wait.pass.state.activation_attempt == Some(attempt)
            &&& next.pass.state.activation_attempt is Some <==> (
            wait.pass.state.activation_attempt matches Some(attempt) && attempt.key.request_id
                == request.request_id && attempt.key.task_id == request.task_id)
        },
{
}

/// A pass begins with the resource's queue at its own authority, and goes on to the snapshot
/// with the queue's outcome.
pub proof fn passes_begin_with_the_queue(
    state: ResourceActorState,
    first: ReconcileStep,
    reply: Result<ResourceQueueReconcileOutcome, AppError>,
    step: ReconcileStep,
)
    requires
        call_ensures(reconcile_and_refresh, (state,), first),
        first matches ReconcileStep::AskQueue { next, .. } ==> call_ensures(
            AwaitQueue::on_queue,
            (next, reply),
            step,
        ),
    ensures
        first matches ReconcileStep::AskQueue {
            message: StoreMsg::ReconcileResourceQueue { authority_machine, resource_id },
            next,
        } && {
            &&& authority_machine == state.authority_machine
            &&& resource_id == state.resource.id
            &&& next.pass.state == state
            &&& next.pass.effects.launch_task is None
            &&& next.pass.effects.launch_watcher is None
            &&& next.pass.effects.arm_return_wake is None
            &&& !next.pass.effects.wake_for_next_assignment
            &&& !next.pass.effects.wake_after_restore
            &&& !next.pass.effects.wake_after_deadline
            &&& reply matches Ok(outcome) ==> (step matches ReconcileStep::AskSnapshot {
                message,
                next: snapshot,
            } && {
                &&& message == (StoreMsg::ResourceSnapshotsForAuthority {
                    authority_machine: state.authority_machine,
                })
                &&& snapshot.pass == next.pass
                &&& snapshot.queue_outcome == outcome
            })
            &&& reply matches Err(error) ==> fails_as_it_is(step, next.pass, error)
        },
{
}

/// Whether a step goes on to a resource's requests with an outcome, and with no watcher known.
pub open spec fn goes_on_to_serving(
    step: ReconcileStep,
    pass: Pass,
    snapshot: ResourceSnapshot,
    outcome: ResourceQueueReconcileOutcome,
) -> bool {
    &&& step matches ReconcileStep::AskRequests {
        message: StoreMsg::ResourceRequests { authority_machine, resource_id },
        next,
    }
    &&& authority_machine == pass.state.authority_machine
    &&& resource_id == snapshot.resource.id
    &&& next.snapshot == snapshot
    &&& next.fallback == outcome
    &&& next.pass.effects == pass.effects
    &&& next.pass.state == (ResourceActorState {
        watcher_launch: None,
        release_watcher: None,
        ..pass.state
    })
}

/// A release is completed for exactly the loan that awaits one, at the revision that was read;
/// every other snapshot goes on to the requests.
pub proof fn only_awaited_releases_are_completed(
    wait: AwaitSnapshot,
    reply: Result<Vec<ResourceSnapshot>, AppError>,
    loaded: Result<ResourceSnapshot, AppError>,
    step: ReconcileStep,
)
    requires
        call_ensures(AwaitSnapshot::on_snapshot, (wait, reply), step),
        call_ensures(load_snapshot, (reply, wait.pass.state.resource.id), loaded),
    ensures
        loaded matches Ok(snapshot) ==> {
            &&& phase_of(snapshot) matches Some(
                LoanPhase::AwaitingRelease { action_id, observed_background_task, .. },
            ) ==> {
                &&& step matches ReconcileStep::AskRelease { message, next }
                &&& message == (StoreMsg::CompleteReleaseForAuthority {
                    authority_machine: wait.pass.state.authority_machine,
                    resource_id: snapshot.resource.id,
                    action_id,
                    expected_state_revision: snapshot.resource.state_revision,
                })
                &&& next.pass == wait.pass
                &&& next.snapshot == snapshot
                &&& Some(next.loan) == snapshot.loan
                &&& next.action_id == action_id
                &&& next.trainer_task_id == observed_background_task
            }
            &&& !(phase_of(snapshot) matches Some(LoanPhase::AwaitingRelease { .. }))
                ==> goes_on_to_serving(step, wait.pass, snapshot, wait.queue_outcome)
        },
        loaded matches Err(error) ==> (step matches ReconcileStep::Failed {
            state,
            effects,
            error: found,
        } && state == wait.pass.state && effects == wait.pass.effects && found@ == error@),
{
}

/// A completed release reports the loan that it left, assigned or to be returned, and the
/// resource is read again; its watcher is then no longer known.
pub proof fn completed_releases_report_their_loan(
    wait: AwaitRelease,
    result: ReleaseCompletionResult,
    first: ReconcileStep,
    reply: Result<Vec<ResourceSnapshot>, AppError>,
    loaded: Result<ResourceSnapshot, AppError>,
    step: ReconcileStep,
)
    requires
        call_ensures(AwaitRelease::on_release, (wait, Ok(Ok(result))), first),
        first matches ReconcileStep::AskReleased { next, .. } && call_ensures(
            AwaitReleased::on_snapshot,
            (next, reply),
            step,
        ),
        call_ensures(load_snapshot, (reply, wait.pass.state.resource.id), loaded),
    ensures
        first matches ReconcileStep::AskReleased { message, .. } && message == (
        StoreMsg::ResourceSnapshotsForAuthority {
            authority_machine: wait.pass.state.authority_machine,
        }),
        loaded matches Ok(snapshot) ==> {
            &&& result matches ReleaseCompletionResult::Assigned { loan } ==> goes_on_to_serving(
                step,
                wait.pass,
                snapshot,
                ResourceQueueReconcileOutcome::LoanAlreadyActive { loan },
            )
            &&& result matches ReleaseCompletionResult::ReturnRequired { loan }
                ==> goes_on_to_serving(
                step,
                wait.pass,
                snapshot,
                ResourceQueueReconcileOutcome::LoanAlreadyActive { loan },
            )
        },
        loaded matches Err(error) ==> (step matches ReconcileStep::Failed {
            state,
            effects,
            error: found,
        } && state == wait.pass.state && effects == wait.pass.effects && found@ == error@),
{
}

/// Whether a pass that could not prove a release ends with it: the release's loan, action and
/// trainer are reported with the reason, no assigned task is launched, and a watcher's status is
/// shown beside it.
pub open spec fn reports_unproven(
    step: ReconcileStep,
    context: WatcherContext,
    status: Option<ReleaseWatcherStatus>,
) -> bool {
    exists|pass: Pass|
        {
            &&& #[trigger] goes_on(
                step,
                pass,
                context.snapshot,
                ResourceQueueReconcileOutcome::ReleaseProofUnavailable {
                    loan: context.failure.loan,
                    action_id: context.failure.action_id,
                    task_id: context.failure.trainer_task_id,
                    reason: context.failure.reason,
                },
            )
            &&& pass.effects == context.pass.effects
            &&& pass.state == (ResourceActorState {
                release_watcher: status,
                activation_attempt: None,
                ..context.pass.state
            })
        }
}

/// A release that is not proved is watched for its own action. An attempt for another action is
/// forgotten and a watcher bound anew; an uncertain one is looked for among the tasks; any other
/// attempt for the action goes on as it is. Nothing is launched before the watcher is bound.
pub proof fn unproven_releases_are_watched(
    wait: AwaitRelease,
    error: CompleteReleaseError,
    reason: ReleaseProofAttentionReason,
    step: ReconcileStep,
)
    requires
        call_ensures(AwaitRelease::on_release, (wait, Ok(Err(error))), step),
        call_ensures(release_proof_attention_reason, (error,), reason),
    ensures
        ({
            let known = wait.pass.state.watcher_launch matches Some(attempt)
                && attempt.key.action_id == wait.action_id;
            let uncertain = known && wait.pass.state.watcher_launch->0.progress
                == LaunchProgress::Finished(ReleaseWatcherLaunchResult::Uncertain);
            &&& step is Bind <==> !known
            &&& step is AskCommitted <==> uncertain
            &&& step matches ReconcileStep::Bind { bind, next } ==> {
                &&& binds_for(bind, next)
                &&& next.pass.effects == wait.pass.effects
                &&& next.pass.state == (ResourceActorState {
                    watcher_launch: None,
                    ..wait.pass.state
                })
                &&& fails_release(next, wait, reason)
            }
            &&& step matches ReconcileStep::AskCommitted { message, next } ==> {
                &&& Some(next.attempt) == wait.pass.state.watcher_launch
                &&& message == (StoreMsg::GetTask { id: next.attempt.key.watcher_task_id })
                &&& next.context.pass == wait.pass
                &&& fails_release(next.context, wait, reason)
            }
            &&& step matches ReconcileStep::AskWatcher { message, next } ==> {
                &&& message == (StoreMsg::GetTask { id: next.row.key.watcher_task_id })
                &&& Some(next.row.key) == Some(wait.pass.state.watcher_launch->0.key)
                &&& next.context.pass == wait.pass
                &&& fails_release(next.context, wait, reason)
            }
            &&& step is Bind || step is AskCommitted || step is AskWatcher || exists|
                context: WatcherContext,
                status: ReleaseWatcherStatus,
            |
                {
                    &&& #[trigger] reports_unproven(step, context, Some(status))
                    &&& context.pass == wait.pass
                    &&& fails_release(context, wait, reason)
                }
        }),
{
    let context = WatcherContext {
        pass: wait.pass,
        snapshot: wait.snapshot,
        failure: crate::actors::resource::ReleaseProofFailure {
            loan: wait.loan,
            action_id: wait.action_id,
            trainer_task_id: wait.trainer_task_id,
            reason,
        },
    };
    if wait.pass.state.watcher_launch is Some {
        let attempt = wait.pass.state.watcher_launch->0;
        let machine = wait.pass.state.resource.supervisor.machine;
        match crate::actors::resource::watcher::status_step(attempt, machine) {
            WatcherStatusStep::Known(status) => {
                let pass = Pass {
                    state: ResourceActorState {
                        release_watcher: Some(status),
                        activation_attempt: None,
                        ..wait.pass.state
                    },
                    ..wait.pass
                };
                if step !is Bind && step !is AskCommitted && step !is AskWatcher {
                    assert(goes_on(step, pass, wait.snapshot, context.failure.outcome()));
                    assert(reports_unproven(step, context, Some(status)));
                }
            },
            WatcherStatusStep::Ask { .. } => {},
        }
    }
}

/// Whether a context is about the release that a wait could not complete.
pub open spec fn fails_release(
    context: WatcherContext,
    wait: AwaitRelease,
    reason: ReleaseProofAttentionReason,
) -> bool {
    &&& context.snapshot == wait.snapshot
    &&& context.failure.loan == wait.loan
    &&& context.failure.action_id == wait.action_id
    &&& context.failure.trainer_task_id == wait.trainer_task_id
    &&& context.failure.reason == reason
}

/// Whether a binding begins with a context's own trainer, loan and action.
pub open spec fn binds_for(bind: BindStep, context: WatcherContext) -> bool {
    &&& bind matches BindStep::AskTrainer { message, next }
    &&& message == (StoreMsg::GetTask { id: context.failure.trainer_task_id })
    &&& next.input.authority_machine == context.pass.state.authority_machine
    &&& next.input.resource == context.snapshot.resource
    &&& next.input.loan == context.failure.loan
    &&& next.input.action_id == context.failure.action_id
    &&& next.input.trainer_task_id == context.failure.trainer_task_id
}

/// A refused release tells its reason: a trainer that is not done, is lost or has not confirmed
/// its end, a result, a checkpoint, a lock or an association that is missing, and for everything
/// else that the saved evidence does not match.
pub proof fn refused_releases_tell_their_reason(
    error: CompleteReleaseError,
    reason: ReleaseProofAttentionReason,
)
    requires
        call_ensures(release_proof_attention_reason, (error,), reason),
    ensures
        reason is TrainerNotCompleted <==> error is BackgroundTaskNotTerminal,
        reason is TrainerLost <==> error is BackgroundTaskLost,
        reason is WorkerExitUnconfirmed <==> error is WorkerExitUnconfirmed,
        reason is CompletedResultUnavailable <==> error is CompletedResultChanged || error
            is CompletedResultRequestMismatch || error is Watcher,
        reason is StoppedCheckpointUnavailable <==> error is StoppedCheckpointChanged,
        reason is OwnershipLockUnverified <==> error is OwnershipLockStillHeld || error
            is OwnershipLock,
        reason is TrainerAssociationMissing <==> error is TrainerAssociationMissing,
{
}

/// A watcher that was bound is launched exactly where its supervisor is on the authority's own
/// machine, once, under the release's action; another supervisor's watcher is looked for among
/// the tasks. A binding that is not needed, or that needs attention, launches nothing.
pub proof fn bound_watchers_are_launched_by_their_own_machine(
    context: WatcherContext,
    binding: WatcherBinding,
    step: ReconcileStep,
)
    requires
        call_ensures(WatcherContext::resume, (context, BindStep::Done(binding)), step),
    ensures
        binding is NotNeeded ==> reports_unproven(step, context, None),
        binding matches WatcherBinding::Attention(reason) ==> reports_unproven(
            step,
            context,
            Some(
                ReleaseWatcherStatus::Attention { action_id: context.failure.action_id, reason },
            ),
        ),
        binding matches WatcherBinding::Bound { intent, executable } ==> {
            &&& context.snapshot.resource.supervisor.machine
                != context.pass.state.authority_machine ==> (
            step matches ReconcileStep::AskRemoteWatcher { message, next } && {
                &&& message == (StoreMsg::GetTask { id: intent.watcher_task_id })
                &&& next.context == context
                &&& next.watcher_task_id == intent.watcher_task_id
            })
            &&& context.snapshot.resource.supervisor.machine
                == context.pass.state.authority_machine ==> exists|requested: WatcherContext|
                {
                    &&& #[trigger] reports_unproven(
                        step,
                        requested,
                        Some(
                            ReleaseWatcherStatus::Launching {
                                action_id: context.failure.action_id,
                                watcher_task_id: intent.watcher_task_id,
                            },
                        ),
                    )
                    &&& requested.snapshot == context.snapshot
                    &&& requested.failure == context.failure
                    &&& requested.pass.state.watcher_launch matches Some(attempt)
                    &&& attempt.progress is Pending
                    &&& attempt.key.action_id == context.failure.action_id
                    &&& attempt.key.watcher_task_id == intent.watcher_task_id
                    &&& requested.pass.effects.launch_watcher matches Some(launch)
                    &&& launch.intent == intent
                    &&& launch.executable == executable
                    &&& launch.authority_machine == context.pass.state.authority_machine
                    &&& launch.resource_id == context.snapshot.resource.id
                    &&& launch.supervisor == context.snapshot.resource.supervisor
                    &&& requested.pass.effects.launch_task == context.pass.effects.launch_task
                }
        },
{
    let status = match binding {
        WatcherBinding::NotNeeded => None,
        WatcherBinding::Attention(reason) => Some(
            ReleaseWatcherStatus::Attention { action_id: context.failure.action_id, reason },
        ),
        WatcherBinding::Bound { intent, .. } => Some(
            ReleaseWatcherStatus::Launching {
                action_id: context.failure.action_id,
                watcher_task_id: intent.watcher_task_id,
            },
        ),
    };
    let base = match binding {
        WatcherBinding::Bound { intent, executable } =>
            crate::actors::resource::reconcile::watcher_requested(context, intent, executable),
        _ => context,
    };
    let pass = Pass {
        state: ResourceActorState {
            release_watcher: status,
            activation_attempt: None,
            ..base.pass.state
        },
        ..base.pass
    };
    if !(binding is Bound && context.snapshot.resource.supervisor.machine
        != context.pass.state.authority_machine) {
        assert(goes_on(step, pass, base.snapshot, base.failure.outcome()));
        assert(reports_unproven(step, base, status));
    }
}

/// A binding that is under way goes on, and one that failed fails the pass.
pub proof fn bindings_go_on_until_they_are_done(
    context: WatcherContext,
    bind: BindStep,
    step: ReconcileStep,
)
    requires
        call_ensures(WatcherContext::resume, (context, bind), step),
    ensures
        bind matches BindStep::Failed(error) ==> fails_as_it_is(step, context.pass, error),
        bind !is Failed && bind !is Done ==> step == (ReconcileStep::Bind { bind, next: context }),
        step is Bind ==> bind !is Failed && bind !is Done,
{
}

/// An uncertain watcher that has a task is shown by that task, and one without a task is bound
/// anew for the same release.
pub proof fn uncertain_watchers_are_bound_anew_without_a_task(
    wait: AwaitCommitted,
    reply: Result<Option<TaskRow>, AppError>,
    step: ReconcileStep,
)
    requires
        call_ensures(AwaitCommitted::on_row, (wait, reply), step),
    ensures
        reply matches Err(error) ==> fails_as_it_is(step, wait.context.pass, error),
        step is Bind <==> reply matches Ok(None),
        step matches ReconcileStep::Bind { bind, next } ==> {
            &&& binds_for(bind, next)
            &&& next.snapshot == wait.context.snapshot
            &&& next.failure == wait.context.failure
            &&& next.pass.effects == wait.context.pass.effects
            &&& next.pass.state == (ResourceActorState {
                watcher_launch: None,
                ..wait.context.pass.state
            })
        },
        step matches ReconcileStep::AskWatcher { message, next } ==> {
            &&& message == (StoreMsg::GetTask { id: wait.attempt.key.watcher_task_id })
            &&& next.row.key == wait.attempt.key
            &&& next.row.inserted <==> wait.attempt.progress == LaunchProgress::Finished(
                ReleaseWatcherLaunchResult::Inserted,
            )
            &&& next.context == wait.context
        },
{
}

/// A remote supervisor's watcher without a task is awaited from that supervisor; one with a task
/// is shown by it, as one that this machine did not insert.
pub proof fn remote_watchers_are_awaited_from_their_supervisor(
    wait: AwaitRemoteWatcher,
    reply: Result<Option<TaskRow>, AppError>,
    step: ReconcileStep,
)
    requires
        call_ensures(AwaitRemoteWatcher::on_row, (wait, reply), step),
    ensures
        reply matches Err(error) ==> fails_as_it_is(step, wait.context.pass, error),
        reply matches Ok(None) ==> reports_unproven(
            step,
            wait.context,
            Some(
                ReleaseWatcherStatus::AwaitingRemoteSupervisor {
                    action_id: wait.context.failure.action_id,
                    watcher_task_id: wait.watcher_task_id,
                    supervisor_machine: wait.context.snapshot.resource.supervisor.machine,
                },
            ),
        ),
        reply matches Ok(Some(_)) ==> (step matches ReconcileStep::AskWatcher { message, next } && {
            &&& message == (StoreMsg::GetTask { id: wait.watcher_task_id })
            &&& next.row.key.watcher_task_id == wait.watcher_task_id
            &&& next.row.key.action_id == wait.context.failure.action_id
            &&& !next.row.inserted
            &&& next.context == wait.context
        }),
{
    if reply matches Ok(None) {
        let status = ReleaseWatcherStatus::AwaitingRemoteSupervisor {
            action_id: wait.context.failure.action_id,
            watcher_task_id: wait.watcher_task_id,
            supervisor_machine: wait.context.snapshot.resource.supervisor.machine,
        };
        let pass = Pass {
            state: ResourceActorState {
                release_watcher: Some(status),
                activation_attempt: None,
                ..wait.context.pass.state
            },
            ..wait.context.pass
        };
        assert(goes_on(step, pass, wait.context.snapshot, wait.context.failure.outcome()));
    }
}

/// A watcher's task is shown beside the release that it watches, as the task's row alone would be.
pub proof fn watched_releases_show_their_watcher(
    wait: AwaitWatcher,
    row: Option<TaskRow>,
    status: ReleaseWatcherStatus,
    step: ReconcileStep,
    error: AppError,
    failed: ReconcileStep,
)
    requires
        call_ensures(AwaitWatcher::on_row, (wait, Ok(row)), step),
        call_ensures(
            crate::actors::resource::watcher::AwaitWatcherRow::on_row,
            (wait.row, row),
            status,
        ),
        call_ensures(AwaitWatcher::on_row, (wait, Err(error)), failed),
    ensures
        reports_unproven(step, wait.context, Some(status)),
        fails_as_it_is(failed, wait.context.pass, error),
{
    let pass = Pass {
        state: ResourceActorState {
            release_watcher: Some(status),
            activation_attempt: None,
            ..wait.context.pass.state
        },
        ..wait.context.pass
    };
    assert(goes_on(step, pass, wait.context.snapshot, wait.context.failure.outcome()));
}

/// Whether a step asks for a resource's background launch with an outcome.
pub open spec fn asks_background(
    step: ReconcileStep,
    pass: Pass,
    snapshot: ResourceSnapshot,
    outcome: ResourceQueueReconcileOutcome,
) -> bool {
    &&& step matches ReconcileStep::AskBackground { message, next }
    &&& message == (StoreMsg::BackgroundLaunchForAuthority {
        authority_machine: pass.state.authority_machine,
        resource_id: snapshot.resource.id,
    })
    &&& next.pass == pass
    &&& next.snapshot == snapshot
    &&& next.outcome == outcome
}

/// A loan's return is reported by what became of its task: one that runs is active; one that is
/// queued is active exactly while this actor lifetime launches it, and uncertain otherwise; one
/// that needs attention says why, and one that could not be judged says so.
pub proof fn returns_are_reported_by_their_task(
    wait: AwaitRestoring,
    found: RestoreReconcileOutcome,
    step: ReconcileStep,
)
    requires
        call_ensures(AwaitRestoring::on_restoring, (wait, Ok(Ok(found))), step),
    ensures
        found is NotRestoring ==> asks_background(step, wait.pass, wait.snapshot, wait.outcome),
        found matches RestoreReconcileOutcome::ForegroundRunning { loan } ==> asks_background(
            step,
            wait.pass,
            wait.snapshot,
            ResourceQueueReconcileOutcome::LoanAlreadyActive { loan },
        ),
        found matches RestoreReconcileOutcome::Attention { loan, action_id, task_id, reason }
            ==> asks_background(
            step,
            wait.pass,
            wait.snapshot,
            ResourceQueueReconcileOutcome::RestoreAttentionRequired {
                loan,
                action_id,
                task_id,
                reason,
            },
        ),
        found matches RestoreReconcileOutcome::Queued { loan, action_id, task_id } ==> {
            let ours = wait.pass.state.restore_launch matches Some(attempt)
                && attempt.key.action_id == action_id && attempt.key.task_id == task_id && (
            attempt.progress is Pending || attempt.progress == LaunchProgress::Finished(
                RestoreLaunchResult::Inserted,
            ));
            asks_background(
                step,
                wait.pass,
                wait.snapshot,
                if ours {
                    ResourceQueueReconcileOutcome::LoanAlreadyActive { loan }
                } else {
                    ResourceQueueReconcileOutcome::RestoreAttentionRequired {
                        loan,
                        action_id,
                        task_id,
                        reason: RestoreAttentionReason::LaunchUncertain,
                    }
                },
            )
        },
{
}

/// A return that could not be judged needs attention for the loan's own action and task, and a
/// failed call fails the pass.
pub proof fn unjudged_returns_need_attention(
    wait: AwaitRestoring,
    message: String,
    error: AppError,
    steps: (ReconcileStep, ReconcileStep),
)
    requires
        call_ensures(AwaitRestoring::on_restoring, (wait, Ok(Err(message))), steps.0),
        call_ensures(AwaitRestoring::on_restoring, (wait, Err(error)), steps.1),
    ensures
        asks_background(
            steps.0,
            wait.pass,
            wait.snapshot,
            ResourceQueueReconcileOutcome::RestoreAttentionRequired {
                loan: wait.loan,
                action_id: wait.action_id,
                task_id: wait.task_id,
                reason: RestoreAttentionReason::ReconcileFailed,
            },
        ),
        fails_as_it_is(steps.1, wait.pass, error),
{
}

/// A return that ended or closed its loan has the queue reconciled again; the outcome is the
/// queue's, the return's launch is forgotten, and the actor is woken for what comes after.
pub proof fn ended_returns_reconcile_the_queue_again(
    wait: AwaitRestoring,
    found: RestoreReconcileOutcome,
    first: ReconcileStep,
    outcome: ResourceQueueReconcileOutcome,
    second: ReconcileStep,
    reply: Result<Vec<ResourceSnapshot>, AppError>,
    loaded: Result<ResourceSnapshot, AppError>,
    step: ReconcileStep,
)
    requires
        found is ForegroundEnded || found is Closed,
        call_ensures(AwaitRestoring::on_restoring, (wait, Ok(Ok(found))), first),
        first matches ReconcileStep::AskQueueAgain { next, .. } ==> call_ensures(
            AwaitQueueAgain::on_queue,
            (next, Ok(outcome)),
            second,
        ),
        second matches ReconcileStep::AskRestored { next, .. } ==> call_ensures(
            AwaitRestored::on_snapshot,
            (next, reply),
            step,
        ),
        call_ensures(load_snapshot, (reply, wait.pass.state.resource.id), loaded),
    ensures
        first matches ReconcileStep::AskQueueAgain { message, .. } && message == (
        StoreMsg::ReconcileResourceQueue {
            authority_machine: wait.pass.state.authority_machine,
            resource_id: wait.snapshot.resource.id,
        }),
        second matches ReconcileStep::AskRestored { message, .. } && message == (
        StoreMsg::ResourceSnapshotsForAuthority {
            authority_machine: wait.pass.state.authority_machine,
        }),
        loaded matches Ok(snapshot) ==> asks_background(
            step,
            Pass {
                state: ResourceActorState { restore_launch: None, ..wait.pass.state },
                effects: ReconcileEffects { wake_after_restore: true, ..wait.pass.effects },
            },
            snapshot,
            outcome,
        ),
        loaded is Err ==> step is Failed,
{
}

/// Whether a step ends a pass: the actor then holds what was read, and reports the outcome.
pub open spec fn ends_with(
    step: ReconcileStep,
    pass: Pass,
    snapshot: ResourceSnapshot,
    outcome: ResourceQueueReconcileOutcome,
) -> bool {
    step == (ReconcileStep::Finished {
        state: ResourceActorState {
            resource: snapshot.resource,
            loan: snapshot.loan,
            reconcile_outcome: Some(outcome),
            ..pass.state
        },
        effects: pass.effects,
        outcome,
    })
}

/// A background launch changes a pass's outcome only where it is queued or awaits an operator:
/// unproven where the queue is empty and the operator's release is awaited, and otherwise
/// uncertain for a queued row that this actor lifetime does not launch itself. The pass then asks
/// for the return's deadline exactly where a return is awaited, and ends otherwise.
pub proof fn background_launches_are_reported_while_uncertain(
    wait: AwaitBackground,
    view: Option<BackgroundLaunchView>,
    step: ReconcileStep,
)
    requires
        call_ensures(AwaitBackground::on_background, (wait, Ok(view)), step),
    ensures
        ({
            let pending = match view {
                Some(view) => view.pending_task,
                None => None,
            };
            let ours = view matches Some(view) && (
            wait.pass.state.background_launch matches Some(attempt) && attempt.key
                == view.request_id && (attempt.progress is Pending || attempt.progress
                == LaunchProgress::Finished(BackgroundLaunchResult::Inserted)));
            let unproven = view matches Some(view) && view.awaits_operator_release && wait.outcome
                is NoQueuedRequest;
            let uncertain = !unproven && (view matches Some(view) && view.queued) && !ours;
            let outcome = match step {
                ReconcileStep::AskDeadline { next, .. } => next.outcome,
                ReconcileStep::Finished { outcome, .. } => outcome,
                _ => arbitrary(),
            };
            let seen = Pass {
                state: ResourceActorState { pending_background_task: pending, ..wait.pass.state },
                ..wait.pass
            };
            let returning = phase_of(wait.snapshot) matches Some(LoanPhase::AwaitingReturn { .. });
            &&& step is AskDeadline <==> returning
            &&& step is Finished <==> !returning
            &&& outcome == wait.outcome || unproven || uncertain
            &&& unproven ==> outcome == (
            ResourceQueueReconcileOutcome::BackgroundLaunchReleaseUnproven {
                request_id: view->0.request_id,
                task_id: view->0.task_id,
            })
            &&& uncertain ==> outcome == (ResourceQueueReconcileOutcome::BackgroundLaunchUncertain {
                task_id: view->0.task_id,
            })
            &&& step matches ReconcileStep::AskDeadline { message, next } ==> {
                &&& message == (StoreMsg::ServeAfterReturnDeadline {
                    authority_machine: wait.pass.state.authority_machine,
                    resource_id: wait.snapshot.resource.id,
                })
                &&& next.pass == seen
                &&& next.snapshot == wait.snapshot
            }
            &&& step is Finished ==> ends_with(
                step,
                Pass {
                    state: ResourceActorState { return_deadline_wake: None, ..seen.state },
                    ..seen
                },
                wait.snapshot,
                outcome,
            )
        }),
{
}

/// An open decision window keeps a wake for its own action and deadline: the one that is armed
/// where it is still ahead, and a new one otherwise. A return that is no longer awaited, or has
/// nothing queued behind it, keeps none.
pub proof fn open_windows_keep_their_own_wake(
    wait: AwaitDeadline,
    window: ReturnDecisionWindow,
    fired: bool,
    step: ReconcileStep,
)
    requires
        call_ensures(
            AwaitDeadline::on_deadline,
            (wait, Ok(Ok(ReturnDeadlineOutcome::Open { window })), fired),
            step,
        ),
    ensures
        ({
            let armed = !fired && (wait.pass.state.return_deadline_wake matches Some(wake)
                && wake.action_id == window.action_id && wake.deadline_at == window.deadline_at);
            &&& step matches ReconcileStep::Finished { state, effects, outcome }
            &&& outcome == wait.outcome
            &&& state.return_deadline_wake matches Some(wake)
            &&& wake.action_id == window.action_id
            &&& wake.deadline_at == window.deadline_at
            &&& armed ==> effects == wait.pass.effects
            &&& !armed ==> effects == (ReconcileEffects {
                arm_return_wake: Some(window),
                ..wait.pass.effects
            })
            &&& ends_with(
                step,
                Pass {
                    state: ResourceActorState { return_deadline_wake: Some(wake), ..wait.pass.state },
                    effects,
                },
                wait.snapshot,
                wait.outcome,
            )
        }),
{
}

/// A deadline that is not awaited, or has nothing queued, drops the wake; one that could not be
/// judged changes nothing; one that served its queue reports the loan that it made, reads the
/// resource again and wakes the actor.
pub proof fn passed_deadlines_serve_the_queue(
    wait: AwaitDeadline,
    found: ReturnDeadlineOutcome,
    fired: bool,
    step: ReconcileStep,
    message: String,
    unjudged: ReconcileStep,
    error: AppError,
    failed: ReconcileStep,
    reply: Result<Vec<ResourceSnapshot>, AppError>,
    loaded: Result<ResourceSnapshot, AppError>,
    served: ReconcileStep,
)
    requires
        call_ensures(AwaitDeadline::on_deadline, (wait, Ok(Ok(found)), fired), step),
        call_ensures(AwaitDeadline::on_deadline, (wait, Ok(Err(message)), fired), unjudged),
        call_ensures(AwaitDeadline::on_deadline, (wait, Err(error), fired), failed),
        step matches ReconcileStep::AskServed { next, .. } ==> call_ensures(
            AwaitServed::on_snapshot,
            (next, reply),
            served,
        ),
        call_ensures(load_snapshot, (reply, wait.pass.state.resource.id), loaded),
    ensures
        ({
            let unarmed = Pass {
                state: ResourceActorState { return_deadline_wake: None, ..wait.pass.state },
                ..wait.pass
            };
            &&& found is NotAwaiting || found is NoQueuedRequest ==> ends_with(
                step,
                unarmed,
                wait.snapshot,
                wait.outcome,
            )
            &&& step is AskServed <==> found is Served
            &&& found matches ReturnDeadlineOutcome::Served { loan } ==> {
                &&& step matches ReconcileStep::AskServed { message, .. }
                &&& message == (StoreMsg::ResourceSnapshotsForAuthority {
                    authority_machine: wait.pass.state.authority_machine,
                })
                &&& loaded matches Ok(snapshot) ==> ends_with(
                    served,
                    Pass {
                        effects: ReconcileEffects {
                            wake_after_deadline: true,
                            ..wait.pass.effects
                        },
                        ..unarmed
                    },
                    snapshot,
                    ResourceQueueReconcileOutcome::LoanAlreadyActive { loan },
                )
                &&& loaded is Err ==> served is Failed
            }
        }),
        ends_with(unjudged, wait.pass, wait.snapshot, wait.outcome),
        fails_as_it_is(failed, wait.pass, error),
{
}

} // verus!
