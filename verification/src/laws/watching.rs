//! A resource actor's messages and the watcher of a release: whom they concern, what they change
//! and what is shown of them.

use vstd::prelude::*;

use crate::actors::resource::messages::{
    AwaitLaunched, AwaitPrepared, AwaitServing, HandleStep, ResourceActor, ResourceMsg,
};
use crate::actors::resource::reconcile::{ReconcileStep, ResourceActorState};
use crate::actors::resource::watcher::{
    bind_release_watcher, bound_command, prepare_remote_watcher, watcher_status, AwaitWatcherRow,
    BindAllocation, BindAssociation, BindBaseline, BindBound, BindExecutable, BindInput, BindStep,
    BindTrainer, FreshWatcher, PrepareBind, PrepareInput, PrepareSpec, PrepareStep,
    PreparedActionTask, WatcherBinding, WatcherStatusStep,
};
use crate::actors::resource::{
    awaiting_release, awaiting_return_action, restoring, schedule_assigned_activation,
    schedule_release_watcher_launch, serving_assignment, BackgroundLaunchResult, LaunchProgress,
    ReleaseWatcherAcceptance, ReleaseWatcherAcceptanceError, ReleaseWatcherAttentionReason,
    ReleaseWatcherLaunchResult, ReleaseWatcherStatus, ResourceTaskAcceptance,
    ResourceTaskActivationResult, RestoreLaunchResult, WatcherLaunchAttempt,
};
use crate::actors::store::{ResourceStoreError, StoreMsg};
use crate::domain::{NormalizedSpec, ProcessStatus, SpecDigest, TaskRow};
use crate::error::AppError;
use crate::ids::{ActionId, MachineId, RequestId, ResourceId, TaskId};
use crate::laws::serving::phase_of;
use crate::release_watcher_api::ReleaseWatcherCommand;
use crate::resource::{
    Loan, LoanPhase, LoanState, ReleaseWatcherIntent, ResourceActionRejection, ResourceRequest,
    ResourceSnapshot, SupervisorActionAuthority,
};

verus! {

/// Whether a step begins a pass over a state.
pub open spec fn begins_pass(step: HandleStep, state: ResourceActorState) -> bool {
    step matches HandleStep::Reconcile { step: begun } && call_begins(begun, state)
}

/// Whether a pass's first step is over a state: its own resource's queue at its own authority.
pub open spec fn call_begins(step: ReconcileStep, state: ResourceActorState) -> bool {
    &&& step matches ReconcileStep::AskQueue { message, next }
    &&& message == (StoreMsg::ReconcileResourceQueue {
        authority_machine: state.authority_machine,
        resource_id: state.resource.id,
    })
    &&& next.pass.state == state
    &&& next.pass.effects.launch_task is None
    &&& next.pass.effects.launch_watcher is None
    &&& next.pass.effects.arm_return_wake is None
    &&& !next.pass.effects.wake_for_next_assignment
    &&& !next.pass.effects.wake_after_restore
    &&& !next.pass.effects.wake_after_deadline
}

/// What an actor holds of its resource and the loan.
pub open spec fn held(state: ResourceActorState) -> ResourceSnapshot {
    ResourceSnapshot { resource: state.resource, loan: state.loan }
}

/// A reconcile request and a wake begin a pass over the state as it is, and an inspection shows
/// the state and changes nothing.
pub proof fn passes_begin_from_the_held_state(
    myself: u64,
    state: ResourceActorState,
    steps: (HandleStep, HandleStep, HandleStep),
)
    requires
        call_ensures(ResourceActor::handle, (myself, ResourceMsg::Reconcile, state), steps.0),
        call_ensures(ResourceActor::handle, (myself, ResourceMsg::Wake, state), steps.1),
        call_ensures(ResourceActor::handle, (myself, ResourceMsg::Inspect, state), steps.2),
    ensures
        begins_pass(steps.0, state),
        begins_pass(steps.1, state),
        steps.2 matches HandleStep::Inspected { state: kept, inspection } && {
            &&& kept == state
            &&& inspection.actor_id == myself
            &&& inspection.resource == state.resource
            &&& inspection.loan == state.loan
            &&& inspection.reconcile_outcome == state.reconcile_outcome
            &&& inspection.release_watcher == state.release_watcher
        },
{
}

/// A task's end begins a pass at once where it is the loan's return or the pending background
/// task; under a serving loan it does so exactly if the task is the one that the loan serves; and
/// any other end changes nothing.
pub proof fn ends_of_the_resources_tasks_begin_a_pass(
    myself: u64,
    state: ResourceActorState,
    task_id: TaskId,
    first: HandleStep,
    requests: Vec<ResourceRequest>,
    serving: Option<(Loan, ResourceRequest)>,
    step: HandleStep,
    error: AppError,
    failed: HandleStep,
)
    requires
        call_ensures(
            ResourceActor::handle,
            (myself, ResourceMsg::TaskTerminal { task_id }, state),
            first,
        ),
        first matches HandleStep::AskServing { next, .. } ==> call_ensures(
            AwaitServing::on_requests,
            (next, Ok(requests)),
            step,
        ) && call_ensures(AwaitServing::on_requests, (next, Err(error)), failed),
        call_ensures(serving_assignment, (&held(state), &requests), serving),
    ensures
        ({
            let returning = phase_of(held(state)) matches Some(LoanPhase::Restoring {
                resume_task_id,
                ..
            }) && resume_task_id == task_id;
            let pending = state.pending_background_task == Some(task_id);
            let serves = phase_of(held(state)) matches Some(LoanPhase::Serving { .. });
            &&& returning || pending ==> begins_pass(first, state)
            &&& !returning && !pending && !serves ==> first == (HandleStep::Settled { state })
            &&& !returning && !pending && serves ==> {
                &&& first matches HandleStep::AskServing { message, .. }
                &&& message == (StoreMsg::ResourceRequests {
                    authority_machine: state.authority_machine,
                    resource_id: state.resource.id,
                })
                &&& (serving matches Some((_, request)) && request.task_id == task_id)
                    ==> begins_pass(step, state)
                &&& !(serving matches Some((_, request)) && request.task_id == task_id) ==> step
                    == (HandleStep::Settled { state })
                &&& failed == (HandleStep::Failed { state, error })
            }
        }),
{
}

/// A task's progress begins a pass exactly where the task is the loan's return, the pending
/// background task or the launched watcher; any other progress changes nothing.
pub proof fn progress_of_the_resources_tasks_begins_a_pass(
    myself: u64,
    state: ResourceActorState,
    task_id: TaskId,
    step: HandleStep,
)
    requires
        call_ensures(
            ResourceActor::handle,
            (myself, ResourceMsg::TaskProgress { task_id }, state),
            step,
        ),
    ensures
        ({
            let concerned = (phase_of(held(state)) matches Some(LoanPhase::Restoring {
                resume_task_id,
                ..
            }) && resume_task_id == task_id) || state.pending_background_task == Some(task_id) || (
            state.watcher_launch matches Some(attempt) && attempt.key.watcher_task_id == task_id);
            &&& concerned ==> begins_pass(step, state)
            &&& !concerned ==> step == (HandleStep::Settled { state })
        }),
{
}

/// A launch's answer is recorded exactly for the attempt that is under way under that identity,
/// and only once; a late or foreign answer to an activation changes nothing.
pub proof fn activations_take_their_own_answer_once(
    myself: u64,
    state: ResourceActorState,
    request_id: RequestId,
    task_id: TaskId,
    result: ResourceTaskActivationResult,
    step: HandleStep,
)
    requires
        call_ensures(
            ResourceActor::handle,
            (myself, ResourceMsg::ActivationFinished { request_id, task_id, result }, state),
            step,
        ),
    ensures
        ({
            let waits = state.activation_attempt matches Some(attempt) && attempt.progress
                is Pending && attempt.key.request_id == request_id && attempt.key.task_id
                == task_id;
            &&& !waits ==> step == (HandleStep::Settled { state })
            &&& waits ==> exists|answered: ResourceActorState|
                {
                    &&& #[trigger] begins_pass(step, answered)
                    &&& answered.activation_attempt matches Some(attempt)
                    &&& attempt.key == state.activation_attempt->0.key
                    &&& attempt.progress == LaunchProgress::Finished(result)
                    &&& answered == (ResourceActorState {
                        activation_attempt: Some(attempt),
                        ..state
                    })
                }
        }),
{
    let attempt = crate::actors::resource::LaunchAttempt {
        key: crate::actors::resource::ActivationKey { request_id, task_id },
        progress: LaunchProgress::Finished(result),
    };
    let answered = ResourceActorState { activation_attempt: Some(attempt), ..state };
    if state.activation_attempt matches Some(before) && before.progress is Pending
        && before.key.request_id == request_id && before.key.task_id == task_id {
        assert(begins_pass(step, answered));
    }
}

/// A return's or a background task's launch is remembered as under way when it starts; its answer
/// is recorded for that launch alone, and begins a pass either way.
pub proof fn launches_are_remembered_until_answered(
    myself: u64,
    state: ResourceActorState,
    action_id: ActionId,
    task_id: TaskId,
    request_id: RequestId,
    returned: RestoreLaunchResult,
    launched: BackgroundLaunchResult,
    steps: (HandleStep, HandleStep, HandleStep, HandleStep),
)
    requires
        call_ensures(
            ResourceActor::handle,
            (myself, ResourceMsg::RestoreLaunchStarted { action_id, task_id }, state),
            steps.0,
        ),
        call_ensures(
            ResourceActor::handle,
            (
                myself,
                ResourceMsg::RestoreLaunchFinished { action_id, task_id, result: returned },
                state,
            ),
            steps.1,
        ),
        call_ensures(
            ResourceActor::handle,
            (myself, ResourceMsg::BackgroundLaunchStarted { request_id }, state),
            steps.2,
        ),
        call_ensures(
            ResourceActor::handle,
            (
                myself,
                ResourceMsg::BackgroundLaunchFinished { request_id, result: launched },
                state,
            ),
            steps.3,
        ),
    ensures
        steps.0 matches HandleStep::Settled { state: after } && {
            &&& after.restore_launch matches Some(attempt)
            &&& attempt.progress is Pending
            &&& attempt.key.action_id == action_id
            &&& attempt.key.task_id == task_id
            &&& after == (ResourceActorState { restore_launch: after.restore_launch, ..state })
        },
        steps.2 matches HandleStep::Settled { state: after } && {
            &&& after.background_launch matches Some(attempt)
            &&& attempt.progress is Pending
            &&& attempt.key == request_id
            &&& after == (ResourceActorState { background_launch: after.background_launch, ..state
            })
        },
        steps.1 matches HandleStep::Reconcile { step: ReconcileStep::AskQueue { next, .. } } && {
            let after = next.pass.state;
            let waits = state.restore_launch matches Some(attempt) && attempt.progress is Pending
                && attempt.key.action_id == action_id && attempt.key.task_id == task_id;
            &&& begins_pass(steps.1, after)
            &&& after == (ResourceActorState { restore_launch: after.restore_launch, ..state })
            &&& !waits ==> after.restore_launch == state.restore_launch
            &&& waits ==> (after.restore_launch matches Some(attempt) && attempt.key
                == state.restore_launch->0.key && attempt.progress == LaunchProgress::Finished(
                returned,
            ))
        },
        steps.3 matches HandleStep::Reconcile { step: ReconcileStep::AskQueue { next, .. } } && {
            let after = next.pass.state;
            let waits = state.background_launch matches Some(attempt) && attempt.progress
                is Pending && attempt.key == request_id;
            &&& begins_pass(steps.3, after)
            &&& after == (ResourceActorState { background_launch: after.background_launch, ..state
            })
            &&& !waits ==> after.background_launch == state.background_launch
            &&& waits ==> (after.background_launch matches Some(attempt) && attempt.key
                == request_id && attempt.progress == LaunchProgress::Finished(launched))
        },
{
}

/// A watcher's launch is remembered under its action and task, and its answer is recorded for
/// that launch alone; what is then shown is the watcher's status by that answer.
pub proof fn watcher_launches_take_their_own_answer(
    myself: u64,
    state: ResourceActorState,
    action_id: ActionId,
    watcher_task_id: TaskId,
    result: ReleaseWatcherLaunchResult,
    started: HandleStep,
    attempt: WatcherLaunchAttempt,
    status: WatcherStatusStep,
    step: HandleStep,
)
    requires
        call_ensures(
            ResourceActor::handle,
            (myself, ResourceMsg::RemoteWatcherLaunchStarted { action_id, watcher_task_id }, state),
            started,
        ),
        call_ensures(
            ResourceActor::handle,
            (
                myself,
                ResourceMsg::WatcherLaunchFinished { action_id, watcher_task_id, result },
                state,
            ),
            step,
        ),
        attempt.key.action_id == action_id,
        attempt.key.watcher_task_id == watcher_task_id,
        attempt.progress == LaunchProgress::Finished(result),
        call_ensures(watcher_status, (attempt, state.resource.supervisor.machine), status),
    ensures
        started matches HandleStep::Settled { state: after } && {
            &&& after.watcher_launch matches Some(begun)
            &&& begun.progress is Pending
            &&& begun.key == attempt.key
            &&& after == (ResourceActorState { watcher_launch: Some(begun), ..state })
        },
        ({
            let waits = state.watcher_launch matches Some(before) && before.progress is Pending
                && before.key == attempt.key;
            let after = ResourceActorState { watcher_launch: Some(attempt), ..state };
            &&& !waits ==> step == (HandleStep::Settled { state })
            &&& waits && status is Known ==> step == (HandleStep::Settled {
                state: ResourceActorState { release_watcher: Some(status->Known_0), ..after },
            })
            &&& waits ==> (status matches WatcherStatusStep::Ask { message: asked, next: row } ==> (
            step matches HandleStep::AskWatcher { message, next } && message == asked && next.state
                == after && next.row == row))
        }),
{
}

/// A watcher's row is shown in the actor's state as the row alone would be.
pub proof fn launched_watchers_are_shown_by_their_row(
    wait: AwaitLaunched,
    row: Option<TaskRow>,
    status: ReleaseWatcherStatus,
    step: HandleStep,
    error: AppError,
    failed: HandleStep,
)
    requires
        call_ensures(AwaitLaunched::on_row, (wait, Ok(row)), step),
        call_ensures(AwaitWatcherRow::on_row, (wait.row, row), status),
        call_ensures(AwaitLaunched::on_row, (wait, Err(error)), failed),
    ensures
        step == (HandleStep::Settled {
            state: ResourceActorState { release_watcher: Some(status), ..wait.state },
        }),
        failed == (HandleStep::Failed { state: wait.state, error }),
{
}

/// A watcher without a task of its own is shown by its launch alone: launching while it is under
/// way, and in need of attention where it was refused. Otherwise its task is looked at, and this
/// actor is taken to have inserted it exactly where its launch said so.
pub proof fn launches_show_what_they_know(
    attempt: WatcherLaunchAttempt,
    machine: MachineId,
    step: WatcherStatusStep,
)
    requires
        call_ensures(watcher_status, (attempt, machine), step),
    ensures
        attempt.progress is Pending <==> step == WatcherStatusStep::Known(
            ReleaseWatcherStatus::Launching {
                action_id: attempt.key.action_id,
                watcher_task_id: attempt.key.watcher_task_id,
            },
        ),
        attempt.progress == LaunchProgress::Finished(
            ReleaseWatcherLaunchResult::UnsupportedRemoteSupervisor,
        ) <==> step == WatcherStatusStep::Known(
            ReleaseWatcherStatus::Attention {
                action_id: attempt.key.action_id,
                reason: ReleaseWatcherAttentionReason::RemoteSupervisorUnsupported {
                    supervisor_machine: machine,
                },
            },
        ),
        attempt.progress == LaunchProgress::Finished(ReleaseWatcherLaunchResult::Rejected)
            <==> step == WatcherStatusStep::Known(
            ReleaseWatcherStatus::Attention {
                action_id: attempt.key.action_id,
                reason: ReleaseWatcherAttentionReason::LaunchRejected {
                    watcher_task_id: attempt.key.watcher_task_id,
                },
            },
        ),
        step is Ask <==> (attempt.progress matches LaunchProgress::Finished(result) && (result
            is Inserted || result is Existing || result is Uncertain)),
        step matches WatcherStatusStep::Ask { message, next } ==> {
            &&& message == (StoreMsg::GetTask { id: attempt.key.watcher_task_id })
            &&& next.key == attempt.key
            &&& next.inserted <==> attempt.progress == LaunchProgress::Finished(
                ReleaseWatcherLaunchResult::Inserted,
            )
        },
{
}

/// A watcher's task is running, finished where it succeeded, and launching only while it is
/// queued by this actor's own insertion; an ended one, one queued by others, and a missing one
/// need attention.
pub proof fn watchers_are_shown_by_their_task(
    wait: AwaitWatcherRow,
    row: Option<TaskRow>,
    status: ReleaseWatcherStatus,
)
    requires
        call_ensures(AwaitWatcherRow::on_row, (wait, row), status),
    ensures
        ({
            let action_id = wait.key.action_id;
            let watcher_task_id = wait.key.watcher_task_id;
            &&& (row matches Some(row) && row.status == ProcessStatus::Running) <==> status == (
            ReleaseWatcherStatus::Running { action_id, watcher_task_id })
            &&& (row matches Some(row) && row.status == ProcessStatus::Succeeded) <==> status == (
            ReleaseWatcherStatus::Finished { action_id, watcher_task_id })
            &&& (row matches Some(row) && row.status == ProcessStatus::Queued && wait.inserted)
                <==> status == (ReleaseWatcherStatus::Launching { action_id, watcher_task_id })
            &&& (row is None || (row matches Some(row) && row.status == ProcessStatus::Queued
                && !wait.inserted)) <==> status == (ReleaseWatcherStatus::Attention {
                action_id,
                reason: ReleaseWatcherAttentionReason::LaunchUncertain { watcher_task_id },
            })
            &&& row matches Some(row) ==> ((row.status == ProcessStatus::Failed || row.status
                == ProcessStatus::Cancelled || row.status == ProcessStatus::Lost) <==> status == (
            ReleaseWatcherStatus::Attention {
                action_id,
                reason: ReleaseWatcherAttentionReason::WatcherTaskEnded {
                    watcher_task_id,
                    state: row.status,
                },
            }))
        }),
{
}

/// An assigned task's launch inserted it, or found it, only if the answer is about that task;
/// a prevented launch is told as such, and every other answer leaves the launch uncertain.
pub proof fn activations_answer_for_their_own_task(
    task_id: TaskId,
    reply: Result<Result<ResourceTaskAcceptance, ResourceStoreError>, AppError>,
    result: ResourceTaskActivationResult,
)
    requires
        call_ensures(schedule_assigned_activation, (task_id, reply), result),
    ensures
        result is Inserted <==> reply == Ok::<_, AppError>(
            Ok::<_, ResourceStoreError>(ResourceTaskAcceptance::Inserted { task: task_id }),
        ),
        result matches ResourceTaskActivationResult::Existing { state } ==> reply == Ok::<
            _,
            AppError,
        >(Ok::<_, ResourceStoreError>(ResourceTaskAcceptance::Existing { task: task_id, state })),
        (reply matches Ok(Ok(ResourceTaskAcceptance::Existing { task, .. })) && task == task_id)
            ==> result is Existing,
        result is Prevented <==> (reply matches Ok(Err(error)) && error is Prevented),
{
}

/// A watcher's launch inserted it, or found it, only if the answer is about that task. A refusal
/// that is certain is told as one; an answer that is not leaves the launch uncertain.
pub proof fn watcher_launches_answer_for_their_own_task(
    watcher_task_id: TaskId,
    reply: Result<Result<ReleaseWatcherAcceptance, ReleaseWatcherAcceptanceError>, AppError>,
    result: ReleaseWatcherLaunchResult,
)
    requires
        call_ensures(schedule_release_watcher_launch, (watcher_task_id, reply), result),
    ensures
        result is Inserted <==> (reply matches Ok(Ok(ReleaseWatcherAcceptance::Inserted { task }))
            && task == watcher_task_id),
        result is Existing <==> (reply matches Ok(
            Ok(ReleaseWatcherAcceptance::Existing { task, .. }),
        ) && task == watcher_task_id),
        result matches ReleaseWatcherLaunchResult::Existing { state } ==> (reply matches Ok(
            Ok(ReleaseWatcherAcceptance::Existing { state: found, .. }),
        ) && found == state),
        result is UnsupportedRemoteSupervisor <==> (reply matches Ok(Ok(accepted)) && accepted
            is UnsupportedRemoteSupervisor),
        result is Rejected <==> (reply matches Ok(Err(error)) && (error is Conflict || error
            is Resource || error is Identity || error is Checkpoint)),
{
}

/// A loan awaits its release, its return or its restore by its phase alone, with the action and
/// the task that the phase names.
pub proof fn loans_await_what_their_phase_names(
    snapshot: ResourceSnapshot,
    release: Option<(Loan, ActionId, TaskId)>,
    back: Option<ActionId>,
    restored: Option<(Loan, ActionId, TaskId)>,
)
    requires
        call_ensures(awaiting_release, (&snapshot,), release),
        call_ensures(awaiting_return_action, (&snapshot,), back),
        call_ensures(restoring, (&snapshot,), restored),
    ensures
        release is Some <==> phase_of(snapshot) matches Some(LoanPhase::AwaitingRelease { .. }),
        release matches Some((loan, action, task)) ==> snapshot.loan == Some(loan) && (phase_of(
            snapshot,
        ) matches Some(LoanPhase::AwaitingRelease { action_id, observed_background_task, .. })
            && action_id == action && observed_background_task == task),
        back matches Some(action) ==> phase_of(snapshot) == Some(
            LoanPhase::AwaitingReturn { action_id: action },
        ),
        back is None ==> !(phase_of(snapshot) matches Some(LoanPhase::AwaitingReturn { .. })),
        restored matches Some((loan, action, task)) ==> snapshot.loan == Some(loan) && phase_of(
            snapshot,
        ) == Some(LoanPhase::Restoring { action_id: action, resume_task_id: task }),
        restored is None ==> !(phase_of(snapshot) matches Some(LoanPhase::Restoring { .. })),
        release is None || back is None,
        release is None || restored is None,
        back is None || restored is None,
{
}

/// A watcher is bound only for a trainer that runs and belongs to the resource; a trainer that
/// does not run needs no watcher, and a foreign one needs attention.
pub proof fn watchers_are_bound_for_running_trainers(
    input: BindInput,
    first: BindStep,
    row: Option<TaskRow>,
    second: BindStep,
    resource: Option<ResourceId>,
    step: BindStep,
)
    requires
        call_ensures(bind_release_watcher, (input,), first),
        first matches BindStep::AskTrainer { next, .. } ==> call_ensures(
            BindTrainer::on_trainer,
            (next, Ok(row)),
            second,
        ),
        second matches BindStep::AskAssociation { next, .. } ==> call_ensures(
            BindAssociation::on_association,
            (next, Ok(resource)),
            step,
        ),
    ensures
        first matches BindStep::AskTrainer { message, next } && message == (StoreMsg::GetTask {
            id: input.trainer_task_id,
        }) && next.input == input,
        second is AskAssociation <==> (row matches Some(row) && row.status
            == ProcessStatus::Running),
        second !is AskAssociation ==> second == BindStep::Done(WatcherBinding::NotNeeded),
        second matches BindStep::AskAssociation { message, .. } ==> {
            &&& message == (StoreMsg::TrainerAttemptAssociationForTaskForAuthority {
                authority_machine: input.authority_machine,
                task_id: input.trainer_task_id,
            })
            &&& resource == Some(input.resource.id) ==> (
            step matches BindStep::FindExecutable { next } && next.input == input)
            &&& resource != Some(input.resource.id) ==> step == BindStep::Done(
                WatcherBinding::Attention(
                    ReleaseWatcherAttentionReason::TrainerAssociationMissing {
                        task_id: input.trainer_task_id,
                    },
                ),
            )
        },
{
}

/// A loan that has a watcher keeps it: its saved intent is used again, and a new one is allocated
/// only where the awaited release has none. Without an executable nothing is bound.
pub proof fn saved_intents_are_used_again(
    wait: BindExecutable,
    executable: String,
    step: BindStep,
    without: BindStep,
)
    requires
        call_ensures(BindExecutable::on_executable, (wait, Some(executable)), step),
        call_ensures(BindExecutable::on_executable, (wait, None), without),
    ensures
        without == BindStep::Done(
            WatcherBinding::Attention(ReleaseWatcherAttentionReason::ExecutableUnavailable),
        ),
        ({
            let awaited = wait.input.loan.state matches LoanState::Active {
                phase: LoanPhase::AwaitingRelease { .. },
            };
            let saved = match wait.input.loan.state {
                LoanState::Active { phase: LoanPhase::AwaitingRelease { watcher_intent, .. } } =>
                    watcher_intent,
                _ => None,
            };
            &&& !awaited ==> step == BindStep::Done(WatcherBinding::NotNeeded)
            &&& step is Allocate <==> awaited && saved is None
            &&& step matches BindStep::Allocate { next } ==> next.input == wait.input
                && next.executable == executable
            &&& step is AskBaseline <==> saved is Some
            &&& step matches BindStep::AskBaseline { message, next } ==> {
                &&& next.intent == saved->0
                &&& next.executable == executable
                &&& message == (StoreMsg::CaptureReleaseCheckpointBaselineForAuthority {
                    authority_machine: wait.input.authority_machine,
                    resource_id: wait.input.resource.id,
                    action_id: wait.input.action_id,
                    expected_state_revision: saved->0.state_revision,
                })
            }
        }),
{
}

/// A new watcher is bound for the release that it was allocated for, with the digest of the very
/// command that it will run; the store's intent is then the one that counts.
pub proof fn new_watchers_are_bound_for_their_release(
    wait: BindAllocation,
    fresh: FreshWatcher,
    step: BindStep,
    command: ReleaseWatcherCommand,
    bound: ReleaseWatcherIntent,
    after: BindStep,
    same: ReleaseWatcherCommand,
)
    requires
        call_ensures(BindAllocation::on_allocated, (wait, fresh), step),
        call_ensures(BindAllocation::command, (&wait, fresh.watcher_task_id), command),
        step matches BindStep::AskBind { next, .. } ==> call_ensures(
            BindBound::on_bound,
            (next, Ok(Ok(bound))),
            after,
        ),
        step matches BindStep::AskBind {
            message: StoreMsg::BindReleaseWatcherForAuthority { intent, .. },
            ..
        } ==> call_ensures(bound_command, (wait.input.resource.id, &intent), same),
    ensures
        step is AskBind <==> fresh.normalized_spec_sha256 is Some,
        step !is AskBind ==> step == BindStep::Done(
            WatcherBinding::Attention(ReleaseWatcherAttentionReason::ExecutableUnavailable),
        ),
        step is AskBind ==> {
            &&& step matches BindStep::AskBind {
                message: StoreMsg::BindReleaseWatcherForAuthority {
                    authority_machine,
                    resource_id,
                    intent,
                },
                ..
            }
            &&& authority_machine == wait.input.authority_machine
            &&& resource_id == wait.input.resource.id
            &&& intent.action_id == wait.input.action_id
            &&& intent.state_revision == wait.input.resource.state_revision
            &&& intent.observed_background_task == wait.input.trainer_task_id
            &&& intent.watcher_task_id == fresh.watcher_task_id
            &&& intent.request_id == fresh.request_id
            &&& Some(intent.normalized_spec_sha256) == fresh.normalized_spec_sha256
            &&& same == command
            &&& after matches BindStep::AskBaseline { message, next }
            &&& next.intent == bound
            &&& next.executable == wait.executable
            &&& message == (StoreMsg::CaptureReleaseCheckpointBaselineForAuthority {
                authority_machine: wait.input.authority_machine,
                resource_id: wait.input.resource.id,
                action_id: wait.input.action_id,
                expected_state_revision: bound.state_revision,
            })
        },
        command.resource_id == wait.input.resource.id,
        command.action_id == wait.input.action_id,
        command.state_revision == wait.input.resource.state_revision,
        command.trainer_task_id == wait.input.trainer_task_id,
        command.watcher_task_id == fresh.watcher_task_id,
{
}

/// A watcher is bound only once its binding and its baseline are saved; each refusal needs its
/// own attention, and a failed call fails the binding.
pub proof fn bindings_need_their_baseline(
    bound: BindBound,
    baseline: BindBaseline,
    trainer: BindTrainer,
    association: BindAssociation,
    message: String,
    error: AppError,
    steps: (BindStep, BindStep, BindStep),
    failures: (BindStep, BindStep, BindStep, BindStep),
)
    requires
        call_ensures(BindBound::on_bound, (bound, Ok(Err(message))), steps.0),
        call_ensures(BindBaseline::on_baseline, (baseline, Ok(Err(message))), steps.1),
        call_ensures(BindBaseline::on_baseline, (baseline, Ok(Ok(()))), steps.2),
        call_ensures(BindBound::on_bound, (bound, Err(error)), failures.0),
        call_ensures(BindBaseline::on_baseline, (baseline, Err(error)), failures.1),
        call_ensures(BindTrainer::on_trainer, (trainer, Err(error)), failures.2),
        call_ensures(BindAssociation::on_association, (association, Err(error)), failures.3),
    ensures
        steps.0 == BindStep::Done(
            WatcherBinding::Attention(ReleaseWatcherAttentionReason::BindingRejected),
        ),
        steps.1 == BindStep::Done(
            WatcherBinding::Attention(ReleaseWatcherAttentionReason::BaselineUnavailable),
        ),
        steps.2 == BindStep::Done(
            WatcherBinding::Bound { intent: baseline.intent, executable: baseline.executable },
        ),
        failures.0 == BindStep::Failed(error),
        failures.1 == BindStep::Failed(error),
        failures.2 == BindStep::Failed(error),
        failures.3 == BindStep::Failed(error),
{
}

/// A remote supervisor prepares a watcher only while it supervises the resource from another
/// machine, at the revision that it knows, and for the release that is awaited; otherwise it is
/// told which of these does not hold.
pub proof fn remote_watchers_need_the_current_supervisor(
    input: PrepareInput,
    first: PrepareStep,
    snapshot: ResourceSnapshot,
    step: PrepareStep,
)
    requires
        call_ensures(prepare_remote_watcher, (input,), first),
        call_ensures(PrepareInput::on_snapshot, (input, Ok(snapshot)), step),
    ensures
        first matches PrepareStep::AskSnapshot { message, next } && message == (
        StoreMsg::ResourceSnapshotsForAuthority { authority_machine: input.authority_machine })
            && next == input,
        ({
            let resource = snapshot.resource;
            let current = resource.supervisor == input.authority.supervisor
                && resource.assignment_revision == input.authority.assignment_revision
                && resource.supervisor.machine != input.authority_machine;
            let fresh = resource.state_revision == input.authority.expected_state_revision;
            let awaited = phase_of(snapshot) matches Some(LoanPhase::AwaitingRelease {
                action_id,
                observed_background_task,
                ..
            }) && action_id == input.authority.action_id && observed_background_task
                == input.observed_background_task && snapshot.loan->0.id
                == input.authority.loan_id;
            &&& step is Bind <==> current && fresh && awaited
            &&& !current ==> step == PrepareStep::Done(
                Err::<PreparedActionTask, ResourceActionRejection>(
                    ResourceActionRejection::NotCurrentSupervisor,
                ),
            )
            &&& current && !fresh ==> step == PrepareStep::Done(
                Err::<PreparedActionTask, ResourceActionRejection>(
                    ResourceActionRejection::StaleRevision {
                        expected: input.authority.expected_state_revision,
                        actual: resource.state_revision,
                    },
                ),
            )
            &&& current && fresh && !awaited ==> step == PrepareStep::Done(
                Err::<PreparedActionTask, ResourceActionRejection>(
                    ResourceActionRejection::ActionNotPending,
                ),
            )
            &&& step matches PrepareStep::Bind { bind, next } ==> {
                &&& next.resource == resource
                &&& bind matches BindStep::AskTrainer { next: begun, .. }
                &&& begun.input.authority_machine == input.authority_machine
                &&& begun.input.resource == resource
                &&& Some(begun.input.loan) == snapshot.loan
                &&& begun.input.action_id == input.authority.action_id
                &&& begun.input.trainer_task_id == input.observed_background_task
            }
        }),
{
}

/// A bound watcher's task is prepared from the intent alone, and only where the built command has
/// the intent's own digest.
pub proof fn prepared_watchers_run_the_bound_command(
    wait: PrepareBind,
    intent: ReleaseWatcherIntent,
    executable: String,
    first: PrepareStep,
    command: ReleaseWatcherCommand,
    spec: NormalizedSpec,
    digest: SpecDigest,
    step: PrepareStep,
)
    requires
        call_ensures(
            PrepareBind::resume,
            (wait, BindStep::Done(WatcherBinding::Bound { intent, executable })),
            first,
        ),
        call_ensures(bound_command, (wait.resource.id, &intent), command),
        first matches PrepareStep::BuildSpec { next, .. } ==> call_ensures(
            PrepareSpec::on_spec,
            (next, Ok((spec, digest))),
            step,
        ),
    ensures
        first matches PrepareStep::BuildSpec { command: built, executable: run, thread, .. } && {
            &&& built == command
            &&& run == executable
            &&& thread == wait.resource.supervisor.thread
        },
        command.resource_id == wait.resource.id,
        command.action_id == intent.action_id,
        command.state_revision == intent.state_revision,
        command.trainer_task_id == intent.observed_background_task,
        command.watcher_task_id == intent.watcher_task_id,
        step matches PrepareStep::Done(prepared) && {
            &&& prepared is Ok <==> digest == intent.normalized_spec_sha256
            &&& prepared matches Ok(task) ==> {
                &&& task.request_id == intent.request_id
                &&& task.task_id == intent.watcher_task_id
                &&& task.spec == spec
                &&& task.normalized_spec_sha256 == intent.normalized_spec_sha256
            }
            &&& prepared matches Err(refusal) ==> refusal is WatcherUnavailable
        },
{
}

/// A preparation ends with the binding's failure, or refuses where no watcher was bound; until
/// then the binding goes on. Its answer goes out beside a new pass over the same state.
pub proof fn preparations_answer_and_begin_a_pass(
    wait: PrepareBind,
    bind: BindStep,
    step: PrepareStep,
    actor: AwaitPrepared,
    prepared: PrepareStep,
    next: HandleStep,
)
    requires
        call_ensures(PrepareBind::resume, (wait, bind), step),
        call_ensures(AwaitPrepared::resume, (actor, prepared), next),
    ensures
        bind matches BindStep::Failed(error) ==> step == PrepareStep::Failed(error),
        bind matches BindStep::Done(binding) && binding !is Bound ==> (step matches PrepareStep::Done(
            Err(refusal),
        ) && refusal is WatcherUnavailable),
        bind !is Failed && bind !is Done ==> step == (PrepareStep::Bind { bind, next: wait }),
        prepared matches PrepareStep::Done(answer) ==> (next matches HandleStep::Prepared {
            reply,
            step: begun,
        } && reply == Ok::<Result<PreparedActionTask, ResourceActionRejection>, AppError>(answer)
            && call_begins(begun, actor.state)),
        prepared matches PrepareStep::Failed(error) ==> (next matches HandleStep::Prepared {
            reply,
            step: begun,
        } && reply == Err::<Result<PreparedActionTask, ResourceActionRejection>, AppError>(error)
            && call_begins(begun, actor.state)),
        prepared !is Done && prepared !is Failed ==> next == (HandleStep::Prepare {
            step: prepared,
            next: actor,
        }),
{
}

/// A request to prepare a remote watcher is about this actor's own resource and authority.
pub proof fn preparations_are_about_the_actors_resource(
    myself: u64,
    state: ResourceActorState,
    authority: SupervisorActionAuthority,
    observed_background_task: TaskId,
    step: HandleStep,
)
    requires
        call_ensures(
            ResourceActor::handle,
            (
                myself,
                ResourceMsg::PrepareRemoteWatcher { authority, observed_background_task },
                state,
            ),
            step,
        ),
    ensures
        step matches HandleStep::Prepare { step: begun, next } && {
            &&& next.state == state
            &&& begun matches PrepareStep::AskSnapshot { message, next: input }
            &&& message == (StoreMsg::ResourceSnapshotsForAuthority {
                authority_machine: state.authority_machine,
            })
            &&& input.authority_machine == state.authority_machine
            &&& input.resource_id == state.resource.id
            &&& input.authority == authority
            &&& input.observed_background_task == observed_background_task
        },
{
}

} // verus!
