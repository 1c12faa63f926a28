//! Reconciliation of resource queues and their launches.

use std::sync::Arc;

use homebased_daemon::actors::resource::messages::{HandleStep, ResourceActor, ResourceMsg};
use homebased_daemon::actors::resource::reconcile::{
    reconcile_and_refresh, serving_outcome, AssignedResourceTaskProgress,
    AssignedResourceTaskReconcileOutcome, AwaitDeadline, AwaitRequests, BackgroundLaunchView,
    ReconcileStep, ReleaseCompletionResult, ResourceActorState, RestoreReconcileOutcome,
    ReturnDeadlineOutcome, ServingProgress,
};
use homebased_daemon::actors::resource::watcher::{
    bind_release_watcher, BindInput, BindStep, FreshWatcher, WatcherBinding,
};
use homebased_daemon::actors::resource::{
    release_proof_attention_reason, schedule_assigned_activation, schedule_release_watcher_launch,
    task_completion_attention_reason, ActivationKey, AssignedResourceTaskAttention,
    BackgroundLaunchAttempt, BackgroundLaunchResult, CompleteReleaseError, LaunchAttempt, LaunchProgress,
    ReleaseProofAttentionReason, ReleaseWatcherAcceptance, ReleaseWatcherAcceptanceError,
    ReleaseWatcherAttentionReason, ReleaseWatcherLaunchResult, ReleaseWatcherStatus,
    ResourceQueueAttentionReason, ResourceQueueReconcileOutcome, ResourceTaskAcceptance,
    ResourceTaskActivationResult, RestoreLaunchKey, RestoreLaunchResult, WatcherLaunchKey,
};
use homebased_daemon::actors::store::{ResourceStoreError, StoreMsg};
use homebased_daemon::domain::{
    new_queued_task, NormalizedSpec, NormalizedWorkload, ProcessStatus, SpecDigest, TaskEnv, TaskRow,
};
use homebased_daemon::error::AppError;
use homebased_daemon::ids::{
    ActionId, LoanId, MachineId, RequestId, ResourceId, TaskId, ThreadId,
};
use homebased_daemon::resource::{
    AssignmentRevision, Loan, LoanPhase, LoanState, ReleaseWatcherIntent, Resource,
    ResourceRequest, ResourceRequestState, ResourceRevision, ResourceSnapshot,
    RestoreAttentionReason, ReturnDecisionWindow, SupervisorAddress,
};
use homebased_daemon::time::{Span, Timestamp};

const AUTHORITY: MachineId = MachineId(1);
const ACTION: ActionId = ActionId(5);
const TRAINER: TaskId = TaskId(6);
const WATCHER: TaskId = TaskId(8);

fn resource(supervisor: MachineId) -> Resource {
    Resource {
        id: ResourceId(2),
        authority_machine: AUTHORITY,
        supervisor: SupervisorAddress { machine: supervisor, thread: ThreadId(3) },
        assignment_revision: AssignmentRevision(1),
        state_revision: ResourceRevision(7),
        registered_background_task: Some(TRAINER),
    }
}

fn loan(phase: LoanPhase) -> Loan {
    Loan { id: LoanId(4), state: LoanState::Active { phase } }
}

fn snapshot(phase: Option<LoanPhase>) -> ResourceSnapshot {
    ResourceSnapshot { resource: resource(AUTHORITY), loan: phase.map(loan) }
}

fn request() -> ResourceRequest {
    ResourceRequest {
        request_id: RequestId(10),
        task_id: TaskId(11),
        resource_id: ResourceId(2),
        acceptance_sequence: 3,
        origin_machine: MachineId(9),
        state: ResourceRequestState::Assigned { loan_id: LoanId(4) },
        spec: Arc::new(NormalizedSpec {
            thread: ThreadId(3),
            name: "queued".into(),
            cwd: "/srv".into(),
            timeout: Span::from_secs(60),
            machine: None,
            workload: NormalizedWorkload::Task { command: vec!["true".into()] },
        }),
        spec_digest: Ok(SpecDigest { high: 1, low: 2 }),
    }
}

fn serving() -> LoanPhase {
    LoanPhase::Serving { current_request_id: RequestId(10) }
}

fn releasing(watcher_intent: Option<ReleaseWatcherIntent>) -> LoanPhase {
    LoanPhase::AwaitingRelease {
        action_id: ACTION,
        observed_background_task: TRAINER,
        watcher_intent,
    }
}

fn fresh_state() -> ResourceActorState {
    ResourceActorState::new(AUTHORITY, resource(AUTHORITY), None)
}

/// A pass up to its first snapshot.
fn pass(state: ResourceActorState, phase: Option<LoanPhase>) -> ReconcileStep {
    let ReconcileStep::AskQueue { next, .. } = reconcile_and_refresh(state) else { panic!() };
    let ReconcileStep::AskSnapshot { next, .. } =
        next.on_queue(Ok(ResourceQueueReconcileOutcome::NoQueuedRequest))
    else {
        panic!()
    };
    next.on_snapshot(Ok(vec![snapshot(phase)]))
}

fn requests(step: ReconcileStep) -> AwaitRequests {
    match step {
        ReconcileStep::AskRequests { next, .. } => next,
        other => panic!("expected the requests, got {other:?}"),
    }
}

/// The rest of a pass without a background launch or an open return.
fn settle(step: ReconcileStep) -> (ResourceActorState, ResourceQueueReconcileOutcome, bool) {
    let ReconcileStep::AskBackground { next, .. } = step else {
        panic!("the background launch comes next, got {step:?}")
    };
    match next.on_background(Ok(None)) {
        ReconcileStep::Finished { state, effects, outcome } => {
            (state, outcome, effects.launch_task.is_some())
        }
        other => panic!("expected the end, got {other:?}"),
    }
}

fn assigned(
    state: ResourceActorState,
    answer: AssignedResourceTaskReconcileOutcome,
) -> ReconcileStep {
    let next = requests(pass(state, Some(serving())));
    let ReconcileStep::AskAssigned {
        message: StoreMsg::AssignedResourceTaskReconcile { input },
        next,
    } = next.on_requests(Ok(vec![request()]))
    else {
        panic!()
    };
    assert_eq!(input.expected_state_revision, ResourceRevision(7));
    let env = TaskEnv { path: "/bin".into(), home: "/home/u".into() };
    next.on_assigned(Ok(Ok(answer)), env)
}

#[test]
fn an_assigned_launch_carries_its_command_and_environment() {
    let step = assigned(fresh_state(), AssignedResourceTaskReconcileOutcome::NotAccepted);
    let ReconcileStep::AskBackground { next, .. } = step else { panic!() };
    let ReconcileStep::Finished { effects, .. } = next.on_background(Ok(None)) else { panic!() };
    let input = effects.launch_task.unwrap();
    assert_eq!((input.task_id, input.loan_id), (TaskId(11), LoanId(4)));
    assert_eq!((input.command_spec.name.as_str(), input.command_spec.cwd.as_str()), ("queued", "/srv"));
    assert_eq!(input.executor_env.path, "/bin");
    assert_eq!(input.executor_env.home, "/home/u");
    // a copied request shares the command of the one it was copied from
    let request = request();
    let copy = request.clone();
    assert!(Arc::ptr_eq(&copy.spec, &request.spec));
}

#[test]
fn an_assigned_task_is_requested_once_per_actor_lifetime() {
    let step = assigned(fresh_state(), AssignedResourceTaskReconcileOutcome::NotAccepted);
    let (state, outcome, launched) = settle(step);
    assert!(launched);
    assert!(matches!(outcome, ResourceQueueReconcileOutcome::LoanAlreadyActive { .. }));
    let key = ActivationKey { request_id: RequestId(10), task_id: TaskId(11) };
    assert_eq!(state.activation_attempt, Some(LaunchAttempt::pending(key)));

    let step = assigned(state, AssignedResourceTaskReconcileOutcome::NotAccepted);
    let (state, outcome, launched) = settle(step);
    assert!(!launched);
    assert!(matches!(
        outcome,
        ResourceQueueReconcileOutcome::AttentionRequired {
            reason: ResourceQueueAttentionReason::AssignedTaskLaunchUncertain { .. },
            ..
        }
    ));
    assert_eq!(state.activation_attempt, Some(LaunchAttempt::pending(key)));
}

#[test]
fn a_queued_row_from_before_is_only_observed() {
    let active = AssignedResourceTaskReconcileOutcome::Active(AssignedResourceTaskProgress::Queued);
    let (_, outcome, launched) = settle(assigned(fresh_state(), active));
    assert!(!launched);
    assert!(matches!(
        outcome,
        ResourceQueueReconcileOutcome::AttentionRequired {
            reason: ResourceQueueAttentionReason::AcceptedTaskLaunchUncertain { .. },
            ..
        }
    ));
    let mut own = fresh_state();
    own.activation_attempt = Some(LaunchAttempt {
        key: ActivationKey { request_id: RequestId(10), task_id: TaskId(11) },
        progress: LaunchProgress::Finished(ResourceTaskActivationResult::Inserted),
    });
    let (_, outcome, _) = settle(assigned(own, active));
    assert!(matches!(outcome, ResourceQueueReconcileOutcome::LoanAlreadyActive { .. }));
}

#[test]
fn a_completed_task_wakes_for_the_next_request() {
    let completed = AssignedResourceTaskReconcileOutcome::Completed { next_assignment: true };
    let ReconcileStep::AskCompleted { next, .. } = assigned(fresh_state(), completed) else {
        panic!()
    };
    let ReconcileStep::AskBackground { next, .. } =
        next.on_snapshot(Ok(vec![snapshot(Some(serving()))]))
    else {
        panic!()
    };
    assert!(next.pass.effects.wake_for_next_assignment);

    let ReconcileStep::AskCompleted { next, .. } = assigned(fresh_state(), completed) else {
        panic!()
    };
    assert!(matches!(
        next.on_snapshot(Ok(vec![snapshot(None)])),
        ReconcileStep::Failed { error: AppError::Internal { message }, .. }
            if message == "resource task completion removed its active loan"
    ));
}

#[test]
fn a_lost_resource_fails_the_pass() {
    let ReconcileStep::AskQueue { next, .. } = reconcile_and_refresh(fresh_state()) else {
        panic!()
    };
    let ReconcileStep::AskSnapshot { next, .. } =
        next.on_queue(Ok(ResourceQueueReconcileOutcome::NoQueuedRequest))
    else {
        panic!()
    };
    assert!(matches!(
        next.on_snapshot(Ok(Vec::new())),
        ReconcileStep::Failed { error: AppError::Internal { message }, .. }
            if message == "resource 00000000-0000-0000-0000-000000000002 disappeared from its \
                           authority store during reconciliation"
    ));
}

fn release_step(
    state: ResourceActorState,
    phase: LoanPhase,
    reply: Result<ReleaseCompletionResult, CompleteReleaseError>,
) -> ReconcileStep {
    let ReconcileStep::AskRelease {
        message: StoreMsg::CompleteReleaseForAuthority { action_id, .. },
        next,
    } = pass(state, Some(phase))
    else {
        panic!()
    };
    assert_eq!(action_id, ACTION);
    next.on_release(Ok(reply))
}

#[test]
fn a_proven_release_serves_the_request() {
    let done = ReleaseCompletionResult::Assigned { loan: loan(serving()) };
    let ReconcileStep::AskReleased { next, .. } =
        release_step(fresh_state(), releasing(None), Ok(done))
    else {
        panic!()
    };
    let next = requests(next.on_snapshot(Ok(vec![snapshot(Some(serving()))])));
    let (_, outcome, _) = settle(next.on_requests(Ok(Vec::new())));
    assert!(matches!(
        outcome,
        ResourceQueueReconcileOutcome::LoanAlreadyActive { loan: active }
            if active == loan(serving())
    ));
}

fn intent() -> ReleaseWatcherIntent {
    ReleaseWatcherIntent {
        action_id: ACTION,
        state_revision: ResourceRevision(7),
        observed_background_task: TRAINER,
        watcher_task_id: WATCHER,
        request_id: RequestId(12),
        normalized_spec_sha256: SpecDigest { high: 3, low: 4 },
    }
}

fn row(status: ProcessStatus) -> TaskRow {
    let mut row = new_queued_task(
        WATCHER,
        ThreadId(3),
        Span::from_secs(60),
        Timestamp::new(0, 0).unwrap(),
    );
    row.status = status;
    row
}

fn bound(phase: LoanPhase) -> BindStep {
    let input = BindInput {
        authority_machine: AUTHORITY,
        resource: resource(AUTHORITY),
        loan: loan(phase),
        action_id: ACTION,
        trainer_task_id: TRAINER,
    };
    let BindStep::AskTrainer { next, .. } = bind_release_watcher(input) else { panic!() };
    let BindStep::AskAssociation { next, .. } =
        next.on_trainer(Ok(Some(row(ProcessStatus::Running))))
    else {
        panic!()
    };
    let BindStep::FindExecutable { next } = next.on_association(Ok(Some(ResourceId(2)))) else {
        panic!()
    };
    next.on_executable(Some("/bin/homebased".into()))
}

#[test]
fn a_saved_watcher_is_bound_again() {
    let BindStep::AskBaseline { next, .. } = bound(releasing(Some(intent()))) else {
        panic!("a saved watcher needs no new identity")
    };
    assert!(matches!(
        next.on_baseline(Ok(Ok(()))),
        BindStep::Done(WatcherBinding::Bound { intent: found, executable })
            if found == intent() && executable == "/bin/homebased"
    ));
    let BindStep::Allocate { next } = bound(releasing(None)) else { panic!() };
    let fresh = FreshWatcher {
        watcher_task_id: WATCHER,
        request_id: RequestId(12),
        normalized_spec_sha256: Some(SpecDigest { high: 3, low: 4 }),
    };
    let BindStep::AskBind { next, .. } = next.on_allocated(fresh) else { panic!() };
    assert!(matches!(
        next.on_bound(Ok(Err("stale".into()))),
        BindStep::Done(WatcherBinding::Attention(ReleaseWatcherAttentionReason::BindingRejected))
    ));
}

#[test]
fn an_unproven_release_launches_one_watcher_and_no_task() {
    let refused = Err(CompleteReleaseError::BackgroundTaskNotTerminal);
    let ReconcileStep::Bind { next, .. } =
        release_step(fresh_state(), releasing(Some(intent())), refused)
    else {
        panic!()
    };
    let binding = WatcherBinding::Bound { intent: intent(), executable: "/bin/homebased".into() };
    let ReconcileStep::AskBackground { next, .. } = next.resume(BindStep::Done(binding)) else {
        panic!()
    };
    let ReconcileStep::Finished { state, effects, outcome } = next.on_background(Ok(None)) else {
        panic!()
    };
    assert!(effects.launch_task.is_none());
    assert_eq!(effects.launch_watcher.unwrap().intent, intent());
    assert!(matches!(
        outcome,
        ResourceQueueReconcileOutcome::ReleaseProofUnavailable {
            reason: ReleaseProofAttentionReason::TrainerNotCompleted,
            ..
        }
    ));
    assert!(matches!(
        state.release_watcher,
        Some(ReleaseWatcherStatus::Launching { watcher_task_id, .. }) if watcher_task_id == WATCHER
    ));

    // the next pass asks for no second launch
    let refused = Err(CompleteReleaseError::BackgroundTaskNotTerminal);
    let step = release_step(state, releasing(Some(intent())), refused);
    let ReconcileStep::AskBackground { next, .. } = step else {
        panic!("a pending launch is known, got {step:?}")
    };
    let ReconcileStep::Finished { effects, .. } = next.on_background(Ok(None)) else { panic!() };
    assert!(effects.launch_watcher.is_none());
}

#[test]
fn a_queued_watcher_of_another_lifetime_needs_attention() {
    let mut state = fresh_state();
    state.watcher_launch = Some(LaunchAttempt {
        key: WatcherLaunchKey { action_id: ACTION, watcher_task_id: WATCHER },
        progress: LaunchProgress::Finished(ReleaseWatcherLaunchResult::Existing {
            state: ProcessStatus::Queued,
        }),
    });
    let refused = Err(CompleteReleaseError::BackgroundTaskNotTerminal);
    let ReconcileStep::AskWatcher { next, .. } =
        release_step(state, releasing(Some(intent())), refused)
    else {
        panic!()
    };
    let ReconcileStep::AskBackground { next, .. } =
        next.on_row(Ok(Some(row(ProcessStatus::Queued))))
    else {
        panic!()
    };
    assert_eq!(
        next.pass.state.release_watcher,
        Some(ReleaseWatcherStatus::Attention {
            action_id: ACTION,
            reason: ReleaseWatcherAttentionReason::LaunchUncertain { watcher_task_id: WATCHER },
        })
    );
}

#[test]
fn a_queued_return_task_needs_its_own_launch() {
    let restoring = LoanPhase::Restoring { action_id: ACTION, resume_task_id: TaskId(20) };
    let outcome = |mut state: ResourceActorState, own: bool| {
        if own {
            state.restore_launch = Some(LaunchAttempt {
                key: RestoreLaunchKey { action_id: ACTION, task_id: TaskId(20) },
                progress: LaunchProgress::Finished(RestoreLaunchResult::Inserted),
            });
        }
        let next = requests(pass(state, Some(restoring)));
        let ReconcileStep::AskRestoring { next, .. } = next.on_requests(Ok(Vec::new())) else {
            panic!()
        };
        let queued = RestoreReconcileOutcome::Queued {
            loan: loan(restoring),
            action_id: ACTION,
            task_id: TaskId(20),
        };
        settle(next.on_restoring(Ok(Ok(queued)))).1
    };
    assert!(matches!(
        outcome(fresh_state(), true),
        ResourceQueueReconcileOutcome::LoanAlreadyActive { .. }
    ));
    assert!(matches!(
        outcome(fresh_state(), false),
        ResourceQueueReconcileOutcome::RestoreAttentionRequired {
            reason: RestoreAttentionReason::LaunchUncertain,
            ..
        }
    ));
}

#[test]
fn a_closed_return_reconciles_the_queue_again() {
    let restoring = LoanPhase::Restoring { action_id: ACTION, resume_task_id: TaskId(20) };
    let next = requests(pass(fresh_state(), Some(restoring)));
    let ReconcileStep::AskRestoring { next, .. } = next.on_requests(Ok(Vec::new())) else {
        panic!()
    };
    let ReconcileStep::AskQueueAgain { next, .. } =
        next.on_restoring(Ok(Ok(RestoreReconcileOutcome::Closed)))
    else {
        panic!()
    };
    let ReconcileStep::AskRestored { next, .. } =
        next.on_queue(Ok(ResourceQueueReconcileOutcome::NoQueuedRequest))
    else {
        panic!()
    };
    let ReconcileStep::AskBackground { next, .. } = next.on_snapshot(Ok(vec![snapshot(None)]))
    else {
        panic!()
    };
    assert!(next.pass.effects.wake_after_restore);
}

#[test]
fn a_background_launch_without_proof_is_shown() {
    let view = |queued: bool, awaits_operator_release: bool| BackgroundLaunchView {
        request_id: RequestId(30),
        task_id: TaskId(31),
        queued,
        pending_task: Some(TaskId(31)),
        awaits_operator_release,
    };
    let observed = |state: ResourceActorState, view| {
        let next = requests(pass(state, None));
        let ReconcileStep::AskBackground { next, .. } = next.on_requests(Ok(Vec::new())) else {
            panic!()
        };
        let ReconcileStep::Finished { state, outcome, .. } = next.on_background(Ok(Some(view)))
        else {
            panic!()
        };
        assert_eq!(state.pending_background_task, Some(TaskId(31)));
        outcome
    };
    assert!(matches!(
        observed(fresh_state(), view(false, true)),
        ResourceQueueReconcileOutcome::BackgroundLaunchReleaseUnproven { .. }
    ));
    assert!(matches!(
        observed(fresh_state(), view(true, false)),
        ResourceQueueReconcileOutcome::BackgroundLaunchUncertain { .. }
    ));
    let mut own = fresh_state();
    own.background_launch = Some(BackgroundLaunchAttempt::pending(RequestId(30)));
    assert!(matches!(
        observed(own, view(true, false)),
        ResourceQueueReconcileOutcome::NoQueuedRequest
    ));
}

fn deadline(state: ResourceActorState) -> AwaitDeadline {
    let phase = LoanPhase::AwaitingReturn { action_id: ACTION };
    let next = requests(pass(state, Some(phase)));
    let ReconcileStep::AskBackground { next, .. } = next.on_requests(Ok(Vec::new())) else {
        panic!()
    };
    let ReconcileStep::AskDeadline { next, .. } = next.on_background(Ok(None)) else { panic!() };
    next
}

#[test]
fn an_open_return_window_has_one_wake_ahead() {
    let window =
        ReturnDecisionWindow { action_id: ACTION, deadline_at: Timestamp::new(99, 0).unwrap() };
    let open = Ok(Ok(ReturnDeadlineOutcome::Open { window }));
    let ReconcileStep::Finished { state, effects, .. } =
        deadline(fresh_state()).on_deadline(open, false)
    else {
        panic!()
    };
    assert_eq!(effects.arm_return_wake, Some(window));
    let open = Ok(Ok(ReturnDeadlineOutcome::Open { window }));
    let ReconcileStep::Finished { state, effects, .. } = deadline(state).on_deadline(open, false)
    else {
        panic!()
    };
    assert_eq!(effects.arm_return_wake, None);
    let open = Ok(Ok(ReturnDeadlineOutcome::Open { window }));
    let ReconcileStep::Finished { state, effects, .. } = deadline(state).on_deadline(open, true)
    else {
        panic!()
    };
    assert_eq!(effects.arm_return_wake, Some(window));
    let served = Ok(Ok(ReturnDeadlineOutcome::Served { loan: loan(serving()) }));
    let ReconcileStep::AskServed { next, .. } = deadline(state).on_deadline(served, false) else {
        panic!()
    };
    let ReconcileStep::Finished { state, effects, .. } =
        next.on_snapshot(Ok(vec![snapshot(Some(serving()))]))
    else {
        panic!()
    };
    assert!(effects.wake_after_deadline);
    assert_eq!(state.return_deadline_wake, None);
}

#[test]
fn only_answers_for_the_exact_task_are_certain() {
    let activated = |reply| schedule_assigned_activation(TaskId(1), reply);
    let inserted = |task| Ok(Ok(ResourceTaskAcceptance::Inserted { task }));
    assert_eq!(activated(inserted(TaskId(1))), ResourceTaskActivationResult::Inserted);
    assert_eq!(activated(inserted(TaskId(2))), ResourceTaskActivationResult::Uncertain);
    assert_eq!(
        activated(Ok(Err(ResourceStoreError::Prevented))),
        ResourceTaskActivationResult::Prevented
    );
    assert_eq!(
        activated(Ok(Err(ResourceStoreError::Conflict))),
        ResourceTaskActivationResult::Uncertain
    );
    let watched = |reply| schedule_release_watcher_launch(WATCHER, reply);
    assert_eq!(
        watched(Ok(Err(ReleaseWatcherAcceptanceError::Checkpoint("x".into())))),
        ReleaseWatcherLaunchResult::Rejected
    );
    let disk = AppError::Internal { message: "disk".into() };
    assert_eq!(
        watched(Ok(Err(ReleaseWatcherAcceptanceError::Storage(disk)))),
        ReleaseWatcherLaunchResult::Uncertain
    );
    assert_eq!(
        watched(Ok(Ok(ReleaseWatcherAcceptance::Existing {
            task: WATCHER,
            state: ProcessStatus::Running,
        }))),
        ReleaseWatcherLaunchResult::Existing { state: ProcessStatus::Running }
    );
}

#[test]
fn a_launch_request_takes_its_first_reply() {
    let mut attempt: BackgroundLaunchAttempt = LaunchAttempt::pending(RequestId(1));
    let is_inserted = |result| result == BackgroundLaunchResult::Inserted;
    assert!(attempt.launching(RequestId(1), is_inserted));
    assert!(!attempt.launching(RequestId(2), is_inserted));
    assert!(!attempt.finish(RequestId(2), BackgroundLaunchResult::Inserted));
    assert!(attempt.finish(RequestId(1), BackgroundLaunchResult::Existing));
    assert!(!attempt.finish(RequestId(1), BackgroundLaunchResult::Inserted));
    assert!(!attempt.launching(RequestId(1), is_inserted));
}

#[test]
fn attention_reasons_keep_their_cause() {
    let proof = release_proof_attention_reason;
    assert_eq!(
        proof(CompleteReleaseError::BackgroundTaskLost),
        ReleaseProofAttentionReason::TrainerLost
    );
    assert_eq!(
        proof(CompleteReleaseError::Watcher("w".into())),
        ReleaseProofAttentionReason::CompletedResultUnavailable
    );
    assert_eq!(
        proof(CompleteReleaseError::OwnershipLockStillHeld),
        ReleaseProofAttentionReason::OwnershipLockUnverified
    );
    assert_eq!(
        proof(CompleteReleaseError::StaleRevision),
        ReleaseProofAttentionReason::SavedEvidenceMismatch
    );
    let task_id = TaskId(1);
    assert_eq!(
        task_completion_attention_reason(task_id, AssignedResourceTaskAttention::LoanChanged),
        ResourceQueueAttentionReason::AssignedTaskIdentityMismatch { task_id }
    );
    assert_eq!(
        task_completion_attention_reason(task_id, AssignedResourceTaskAttention::TaskLost),
        ResourceQueueAttentionReason::AssignedTaskLost { task_id }
    );
    assert!(serving_outcome(ServingProgress::Unassigned).is_none());
    assert_eq!(
        ReleaseWatcherAttentionReason::ExecutableUnavailable.text(),
        "ExecutableUnavailable"
    );
    let ended = ReleaseWatcherAttentionReason::WatcherTaskEnded {
        watcher_task_id: TaskId(0xab),
        state: ProcessStatus::Lost,
    };
    assert_eq!(
        ended.text(),
        "WatcherTaskEnded { watcher_task_id: TaskId(00000000-0000-0000-0000-0000000000ab), state: \
         Lost }"
    );
}

#[test]
fn messages_reconcile_only_when_they_matter() {
    let state = fresh_state();
    assert!(matches!(
        ResourceActor::handle(1, ResourceMsg::Reconcile, state),
        HandleStep::Reconcile { .. }
    ));
    let HandleStep::Inspected { inspection, .. } =
        ResourceActor::handle(77, ResourceMsg::Inspect, fresh_state())
    else {
        panic!()
    };
    assert_eq!(inspection.actor_id, 77);
    assert!(inspection.loan.is_none());
    // a stale launch reply changes nothing
    let stale = ResourceMsg::ActivationFinished {
        request_id: RequestId(1),
        task_id: TaskId(1),
        result: ResourceTaskActivationResult::Inserted,
    };
    assert!(matches!(
        ResourceActor::handle(1, stale, fresh_state()),
        HandleStep::Settled { state } if state.activation_attempt.is_none()
    ));
    // a task that serves nothing needs no pass
    let ended = ResourceMsg::TaskTerminal { task_id: TaskId(50) };
    assert!(matches!(
        ResourceActor::handle(1, ended, fresh_state()),
        HandleStep::Settled { .. }
    ));
    let mut state = fresh_state();
    state.loan = Some(loan(serving()));
    let ended = ResourceMsg::TaskTerminal { task_id: TaskId(11) };
    let HandleStep::AskServing { next, .. } = ResourceActor::handle(1, ended, state) else {
        panic!()
    };
    assert!(matches!(next.on_requests(Ok(vec![request()])), HandleStep::Reconcile { .. }));
}
