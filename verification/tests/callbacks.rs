//! Callback inbox, task watches, store replies and startup reconciliation.

use homebased_daemon::actors::callback::{
    dispatch_inbox_with, AttemptResult, CallbackMsg, CallbackState, CallbackStep, InboxStep,
    ATTEMPT_BUDGET, WAKE_INTERVAL_SECS,
};
use homebased_daemon::actors::store::{
    event_error, identity_error, resource_error, resource_queue_reconcile_error, EventError,
    IdentityError, OpenReleaseLoanError, ResourceQueueReconcileError, ResourceStoreError,
    StoreActor, StoreFailure, StoreMsg, StoreReply,
};
use homebased_daemon::actors::task::{
    cancel_task, AttentionPhase, AttentionTimer, ExitFile, TaskMsg, TaskStep, TaskWatch,
};
use homebased_daemon::actors::{call, CallOutcome};
use homebased_daemon::domain::{
    new_queued_task, AttentionState, CallbackStatus, CancelResult, ExitReason,
    ProcessGroupExitEvidence, ProcessStatus, TaskEnv, TaskRow,
};
use homebased_daemon::error::AppError;
use homebased_daemon::events::{
    DeliveryOutcome, DeliveryState, EventPayload, InboxEvent, TaskEvent,
};
use homebased_daemon::ids::{MachineId, RequestId, TaskId, ThreadId};
use homebased_daemon::reconcile::{reconcile_all, watch_lock, ApplyStep};
use homebased_daemon::serve::{spawn_and_watch, SpawnStep};
use homebased_daemon::submission::{
    CallbackContext, CallbackExecutable, OriginRoute, RejectionTombstone, SavedSpec,
    SubmissionState,
};
use homebased_daemon::time::{Span, Tick, Timestamp};

fn at(secs: i64) -> Timestamp {
    Timestamp::new(secs, 0).unwrap()
}

fn tick(secs: u64) -> Tick {
    Tick { nanos: Span::from_secs(secs).nanos }
}

fn event(line: Option<&str>) -> TaskEvent {
    TaskEvent {
        task: TaskId(1),
        origin_machine: MachineId(2),
        execution_machine: MachineId(3),
        seq: 4,
        payload: match line {
            Some(line) => EventPayload::Callback {
                state: None,
                kind: "finished".into(),
                display_name: "train".into(),
                line: line.into(),
            },
            None => EventPayload::State { state: ProcessStatus::Running },
        },
    }
}

fn pending(attempts: u8, last_error: Option<&str>) -> InboxEvent {
    InboxEvent {
        event: event(Some("line")),
        delivery: DeliveryState::PendingDelivery {
            attempts,
            last_error: last_error.map(str::to_string),
        },
    }
}

#[test]
fn a_thread_is_woken_once_per_interval() {
    let mut state = CallbackState::new("main".into());
    let thread = ThreadId(7);
    let claim = |state: &mut CallbackState, thread: ThreadId, secs: u64| {
        matches!(
            state.handle(CallbackMsg::ClaimWake { thread }, tick(secs)),
            CallbackStep::Claimed(true)
        )
    };
    assert!(claim(&mut state, thread, 1_000));
    assert!(!claim(&mut state, thread, 1_000 + WAKE_INTERVAL_SECS - 1));
    assert!(claim(&mut state, ThreadId(8), 1_001));
    assert!(!claim(&mut state, thread, 10));
    assert!(claim(&mut state, thread, 1_000 + WAKE_INTERVAL_SECS));
    assert!(!claim(&mut state, thread, 1_000 + WAKE_INTERVAL_SECS + 1));
}

#[test]
fn people_hear_once_about_a_waiting_thread() {
    let mut state = CallbackState::new("main".into());
    let thread = ThreadId(7);
    let failed = |state: &mut CallbackState| {
        let message =
            CallbackMsg::WakeFailed { thread, event: event(Some("l")), reason: "no app".into() };
        matches!(state.handle(message, tick(0)), CallbackStep::Alert { thread: found, .. }
            if found == thread)
    };
    assert!(failed(&mut state));
    assert!(state.is_alerted(thread));
    assert!(!failed(&mut state));
    state.handle(CallbackMsg::Delivered { thread: ThreadId(8) }, tick(0));
    assert!(!failed(&mut state));
    state.handle(CallbackMsg::Delivered { thread }, tick(0));
    assert!(!state.is_alerted(thread));
    assert!(failed(&mut state));
    let notice = state.waiting_notice("fix the build", &event(Some("l")), "no app").unwrap();
    assert_eq!(notice.title, "Thread needs you: fix the build");
    assert_eq!(
        notice.message,
        "train (finished) is waiting on main: no app. Open the thread to receive it."
    );
    assert_eq!((notice.tag.as_str(), notice.high_priority), ("hourglass", true));
    assert!(state.waiting_notice("t", &event(None), "r").is_none());
}

#[test]
fn a_task_has_one_inbox_worker() {
    let mut state = CallbackState::new("main".into());
    let id = TaskId(1);
    let dispatch = |state: &mut CallbackState| {
        matches!(
            state.handle(CallbackMsg::DispatchInbox { id }, tick(0)),
            CallbackStep::AskEarliest { message: StoreMsg::EarliestInbox { id: asked }, .. }
                if asked == id
        )
    };
    assert!(dispatch(&mut state));
    let delivered =
        InboxEvent { event: event(Some("l")), delivery: DeliveryState::Delivered { at: at(1) } };
    assert!(!state.on_earliest(id, &Some(delivered)));
    assert!(!state.on_earliest(id, &None));
    assert!(state.on_earliest(id, &Some(pending(0, None))));
    assert!(!dispatch(&mut state));
    // an event may have come while the worker ended
    assert!(matches!(
        state.handle(CallbackMsg::InboxFinished { id, completed: true }, tick(0)),
        CallbackStep::AskEarliest { .. }
    ));
    assert!(matches!(
        state.handle(CallbackMsg::InboxFinished { id, completed: false }, tick(0)),
        CallbackStep::Nothing
    ));
    assert!(dispatch(&mut state));
    assert!(matches!(
        state.handle(CallbackMsg::RetryWaiting, tick(0)),
        CallbackStep::AskWaiting { message: StoreMsg::WaitingInboxTasks }
    ));
}

fn route() -> OriginRoute {
    OriginRoute {
        request: RequestId(1),
        task: TaskId(1),
        origin_machine: MachineId(2),
        execution_machine: MachineId(3),
        thread: ThreadId(7),
        callback: CallbackContext {
            env: TaskEnv { path: "/bin".into(), home: "/home/u".into() },
            cwd: "/repo".into(),
            codex: CallbackExecutable::available("/bin/codex".into()),
        },
        spec: SavedSpec::MigratedLocal,
        submission: SubmissionState::Accepted,
        last_execution_state: None,
        last_updated_at: None,
        last_accepted_seq: 4,
        last_settled_seq: 3,
    }
}

fn asked(entry: InboxEvent) -> InboxStep {
    let InboxStep::AskEarliest { next, .. } = dispatch_inbox_with(TaskId(1)) else { panic!() };
    let InboxStep::AskRoute { message: StoreMsg::OriginRoute { .. }, next } =
        next.on_earliest(Ok(Some(entry)))
    else {
        panic!()
    };
    next.on_route(Ok(Some(route())))
}

#[test]
fn an_event_is_reserved_before_it_is_sent() {
    let InboxStep::CheckCallback { next } = asked(pending(1, None)) else { panic!() };
    let InboxStep::PrepareTask { next } = next.on_checked(Ok(())) else { panic!() };
    let InboxStep::AskReserve {
        message: StoreMsg::ReserveInboxAttempt { id, seq },
        next,
    } = next.on_prepared(Ok(()))
    else {
        panic!()
    };
    assert_eq!((id, seq), (TaskId(1), 4));
    let InboxStep::PrepareAttempt { next } = next.on_reserved(Ok(true)) else { panic!() };
    let InboxStep::ClaimWake { thread, next } = next.on_prepared(Ok(Ok(true))) else { panic!() };
    assert_eq!(thread, ThreadId(7));
    let InboxStep::Send { line, wake_claimed, next } = next.on_claimed(Ok(false)) else { panic!() };
    assert_eq!((line.as_str(), wake_claimed), ("line", false));
    let deferred = AttemptResult::Deferred { reason: "asleep".into(), wake_failed: true };
    let InboxStep::AskSettle {
        message: StoreMsg::SettleInboxAttempt { outcome: DeliveryOutcome::Deferred(reason), .. },
        next,
    } = next.on_sent(Ok(Ok(deferred)))
    else {
        panic!()
    };
    assert_eq!(reason, "asleep");
    let waiting = InboxEvent {
        event: event(Some("line")),
        delivery: DeliveryState::AwaitingThread { attempts: 2, reason: "asleep".into() },
    };
    let InboxStep::Done { effects, result: Ok(false) } = next.on_settled(Ok(waiting)) else {
        panic!()
    };
    assert!(matches!(effects.wake_failed, Some((thread, _, reason))
        if thread == ThreadId(7) && reason == "asleep"));
    assert!(effects.delivered.is_none() && effects.fallback.is_none());
}

#[test]
fn a_used_up_event_fails_without_another_attempt() {
    let failed = |entry| match asked(entry) {
        InboxStep::AskSettle {
            message:
                StoreMsg::SettleInboxAttempt { outcome: DeliveryOutcome::Permanent(reason), .. },
            ..
        } => reason,
        _ => panic!("a used-up event is settled"),
    };
    assert_eq!(
        failed(pending(ATTEMPT_BUDGET, None)),
        "queue attempt budget exhausted after daemon restart"
    );
    assert_eq!(failed(pending(ATTEMPT_BUDGET, Some("broken pipe"))), "broken pipe");
    let waiting = InboxEvent {
        event: event(Some("line")),
        delivery: DeliveryState::AwaitingThread { attempts: 3, reason: "asleep".into() },
    };
    assert_eq!(failed(waiting), "asleep");
}

#[test]
fn a_failed_attempt_pauses_longer_each_time() {
    let settled = |attempts: u8, delivery: DeliveryState| {
        let InboxStep::CheckCallback { next } = asked(pending(attempts, None)) else { panic!() };
        let InboxStep::AskSettle { next, .. } = next.on_checked(Err("no codex".into())) else {
            panic!()
        };
        next.on_settled(Ok(InboxEvent { event: event(Some("line")), delivery }))
    };
    for (attempts, millis) in [(0u8, 200u64), (1, 400), (2, 600)] {
        let delivery = DeliveryState::PendingDelivery { attempts, last_error: None };
        assert!(matches!(
            settled(attempts, delivery),
            InboxStep::Again { sleep, .. } if sleep == Span::from_millis(millis)
        ));
    }
    let failed = DeliveryState::DeliveryFailed { attempts: 3, last_error: "gone".into() };
    assert!(matches!(
        settled(2, failed),
        InboxStep::Again { effects, sleep } if sleep.is_zero()
            && effects.fallback == Some(("line".to_string(), "gone".to_string()))
    ));
    assert!(matches!(
        settled(2, DeliveryState::Delivered { at: at(5) }),
        InboxStep::Again { effects, .. } if effects.delivered == Some(ThreadId(7))
    ));
}

#[test]
fn an_inbox_without_open_events_is_drained() {
    let earliest = |reply| {
        let InboxStep::AskEarliest { next, .. } = dispatch_inbox_with(TaskId(1)) else { panic!() };
        next.on_earliest(reply)
    };
    assert!(matches!(earliest(Ok(None)), InboxStep::Done { result: Ok(true), .. }));
    let settled =
        InboxEvent { event: event(None), delivery: DeliveryState::NotRequired };
    assert!(matches!(earliest(Ok(Some(settled))), InboxStep::Done { result: Ok(true), .. }));
    let InboxStep::AskRoute { next, .. } = earliest(Ok(Some(pending(0, None)))) else { panic!() };
    assert!(matches!(
        next.on_route(Ok(None)),
        InboxStep::Done { result: Err(AppError::RouteNotFound { task }), .. } if task == TaskId(1)
    ));
}

fn row(status: ProcessStatus, attention: AttentionState) -> TaskRow {
    let mut row = new_queued_task(TaskId(1), ThreadId(7), Span::from_secs(60), at(1_000));
    row.status = status;
    row.attention = attention;
    row
}

#[test]
fn a_watch_starts_with_at_most_one_timer() {
    let start = |status, attention| {
        TaskWatch::start(TaskId(1), Ok(Some(row(status, attention)))).unwrap()
    };
    let armed = start(ProcessStatus::Running, AttentionState::Pending);
    assert_eq!(armed.attention, AttentionPhase::Armed);
    assert!(matches!(armed.attention_timer, Some(AttentionTimer::Inactivity { .. })));
    let recovering = start(ProcessStatus::Queued, AttentionState::Sending);
    assert_eq!(recovering.attention_timer, Some(AttentionTimer::Recovery));
    for done in [
        start(ProcessStatus::Running, AttentionState::Delivered),
        start(ProcessStatus::Lost, AttentionState::Pending),
    ] {
        assert_eq!((done.attention, done.attention_timer), (AttentionPhase::Done, None));
        assert!(matches!(
            done.handle(TaskMsg::AttentionDue),
            TaskStep::Settled { watch, due: false } if watch == done
        ));
    }
    assert!(matches!(
        TaskWatch::start(TaskId(1), Ok(None)),
        Err(AppError::TaskNotFound { id }) if id == TaskId(1)
    ));
}

#[test]
fn an_inactive_task_is_reminded_of_once() {
    let watch = TaskWatch::start(
        TaskId(1),
        Ok(Some(row(ProcessStatus::Running, AttentionState::Pending))),
    )
    .unwrap();
    let due = || {
        let TaskStep::AskRow { next, .. } = watch.handle(TaskMsg::AttentionDue) else { panic!() };
        next
    };
    assert!(matches!(
        due().on_row(Ok(Some(row(ProcessStatus::Queued, AttentionState::Pending)))),
        TaskStep::Settled { watch, .. } if watch.attention_timer == Some(AttentionTimer::Retry)
    ));
    let TaskStep::ReadOutput { next } =
        due().on_row(Ok(Some(row(ProcessStatus::Running, AttentionState::Pending))))
    else {
        panic!()
    };
    // output came twenty seconds ago
    assert!(matches!(
        next.on_output(Some(at(1_050)), at(1_070)),
        TaskStep::Settled { watch, .. }
            if matches!(watch.attention_timer, Some(AttentionTimer::Inactivity { .. }))
    ));
    let TaskStep::AskEventTask { next, .. } = next.on_output(Some(at(1_005)), at(1_065)) else {
        panic!()
    };
    assert!(matches!(
        next.on_event_task(Ok(false)),
        TaskStep::Settled { watch, .. } if watch.attention_timer == Some(AttentionTimer::Retry)
    ));
    let TaskStep::AskProduced { next, .. } = next.on_event_task(Ok(true)) else { panic!() };
    let TaskStep::Settled { watch, .. } = next.on_produced(Ok(())) else { panic!() };
    assert_eq!((watch.attention, watch.attention_timer), (AttentionPhase::Done, None));
}

#[test]
fn a_released_legacy_claim_checks_at_once() {
    let watch = TaskWatch::start(
        TaskId(1),
        Ok(Some(row(ProcessStatus::Running, AttentionState::Sending))),
    )
    .unwrap();
    let TaskStep::AskReleased { next, .. } = watch.handle(TaskMsg::AttentionRecoveryDue) else {
        panic!()
    };
    assert!(matches!(
        next.on_released(Ok(())),
        TaskStep::Settled { watch, due: true } if watch.attention == AttentionPhase::Armed
    ));
}

#[test]
fn a_freed_lock_applies_the_exit_or_the_loss() {
    let watch = TaskWatch {
        id: TaskId(1),
        attention: AttentionPhase::Done,
        attention_timer: None,
    };
    let ended = || {
        let TaskStep::AskEnded { next, .. } = watch.handle(TaskMsg::LockReleased) else { panic!() };
        next
    };
    assert!(matches!(
        ended().on_row(Ok(Some(row(ProcessStatus::Cancelled, AttentionState::Pending)))),
        TaskStep::Stop { result: Ok(()) }
    ));
    let TaskStep::ReadExit { next } =
        ended().on_row(Ok(Some(row(ProcessStatus::Running, AttentionState::Pending))))
    else {
        panic!()
    };
    assert!(matches!(
        next.on_exit(Ok(None)),
        TaskStep::AskApplied {
            message: StoreMsg::CasStatus {
                from: ProcessStatus::Running,
                to: ProcessStatus::Lost,
                ..
            },
            ..
        }
    ));
    let exit = ExitFile {
        reason: ExitReason::Exit { code: 3 },
        process_group_exit_evidence: ProcessGroupExitEvidence::Confirmed,
    };
    let TaskStep::AskApplied {
        message:
            StoreMsg::CasExit {
                reason: ExitReason::Exit { code: 3 },
                evidence: ProcessGroupExitEvidence::Confirmed,
                ..
            },
        next,
    } = next.on_exit(Ok(Some(exit)))
    else {
        panic!()
    };
    let TaskStep::AskStored { next, .. } = next.on_applied(Ok(None)) else { panic!() };
    assert!(matches!(
        next.on_row(Ok(None)),
        TaskStep::Stop { result: Err(AppError::TaskNotFound { .. }) }
    ));
}

#[test]
fn only_a_running_worker_is_signalled() {
    let mut running = row(ProcessStatus::Running, AttentionState::Pending);
    running.pid = Some(42);
    assert_eq!(cancel_task(&CancelResult::SignalWorker(running)), Some(42));
    assert_eq!(cancel_task(&CancelResult::CancelledQueued(running)), None);
    assert_eq!(cancel_task(&CancelResult::AlreadyTerminal(running)), None);
}

fn usage(error: AppError) -> String {
    match error {
        AppError::Usage { message } => message,
        other => panic!("expected a usage error, got {other:?}"),
    }
}

fn internal(error: AppError) -> String {
    match error {
        AppError::Internal { message } => message,
        other => panic!("expected an internal error, got {other:?}"),
    }
}

#[test]
fn store_refusals_become_errors() {
    assert_eq!(usage(identity_error(IdentityError::Conflict)), "executor identity conflict");
    assert_eq!(
        internal(identity_error(IdentityError::RouteNotFound)),
        "executor identity disappeared"
    );
    assert_eq!(usage(event_error(EventError::Invalid { message: "bad seq".into() })), "bad seq");
    assert!(matches!(
        event_error(EventError::ContentConflict { task: TaskId(1), seq: 9 }),
        AppError::EventContentConflict { seq: 9, .. }
    ));
    assert!(matches!(
        event_error(EventError::OwnerConflict { task: TaskId(1) }),
        AppError::ClusterTaskConflict { .. }
    ));
    assert!(matches!(
        event_error(EventError::RouteNotFound { task: TaskId(1) }),
        AppError::RouteNotFound { .. }
    ));
    let plain = |error| resource_error(error, None, None);
    let named = |error| resource_error(error, Some(TaskId(1)), Some(RequestId(2)));
    assert_eq!(usage(plain(ResourceStoreError::Conflict)), "resource identity conflict");
    assert!(matches!(
        named(ResourceStoreError::Conflict),
        AppError::ClusterTaskConflict { task } if task == TaskId(1)
    ));
    assert_eq!(
        usage(plain(ResourceStoreError::Prevented)),
        "resource request was prevented before acceptance"
    );
    assert!(matches!(
        named(ResourceStoreError::Prevented),
        AppError::SubmissionRejected { request, task, reason } if request == RequestId(2)
            && task == TaskId(1) && reason == "cancelled_before_acceptance"
    ));
    assert_eq!(
        usage(plain(ResourceStoreError::LegacyWatcherIntentUnproven)),
        "legacy release watcher identity is unproven"
    );
    assert_eq!(usage(plain(ResourceStoreError::ResourceNotFound)), "resource not found");
    assert!(matches!(
        plain(ResourceStoreError::WrongAuthority { expected: MachineId(1), found: MachineId(2) }),
        AppError::MachineIdentityMismatch { expected, found: Some(found) }
            if expected == MachineId(1) && found == MachineId(2)
    ));
    assert_eq!(
        usage(plain(ResourceStoreError::Identity(IdentityError::Conflict))),
        "resource executor identity conflict"
    );
    assert_eq!(
        internal(plain(ResourceStoreError::Identity(IdentityError::RouteNotFound))),
        "executor identity disappeared during resource cancellation"
    );
    let refused = ResourceQueueReconcileError::Release(OpenReleaseLoanError::Refused("x".into()));
    assert_eq!(
        internal(resource_queue_reconcile_error(refused)),
        "resource queue reconciliation failed: x"
    );
}

#[test]
fn a_store_question_gets_the_refusal_it_asks_for() {
    let typed: StoreReply<()> = StoreActor.handle(
        &StoreMsg::PendingSupervisorNotices,
        Err(StoreFailure::Resource(ResourceStoreError::Conflict)),
    );
    assert!(matches!(
        typed,
        StoreReply::Typed(Err(StoreFailure::Resource(ResourceStoreError::Conflict)))
    ));
    let reject = StoreMsg::RejectExecution {
        tombstone: RejectionTombstone {
            task: TaskId(5),
            origin_machine: MachineId(1),
            execution_machine: MachineId(2),
            reason: "full".into(),
        },
    };
    let plain: StoreReply<()> =
        StoreActor.handle(&reject, Err(StoreFailure::Identity(IdentityError::Conflict)));
    assert!(matches!(
        plain,
        StoreReply::Plain(Err(AppError::ClusterTaskConflict { task })) if task == TaskId(5)
    ));
    let disk = AppError::Internal { message: "disk".into() };
    let failed: StoreReply<()> = StoreActor
        .handle(&reject, Err(StoreFailure::Event(EventError::Storage(disk))));
    assert!(matches!(
        failed,
        StoreReply::Plain(Err(AppError::Internal { message })) if message == "disk"
    ));
    assert!(matches!(
        StoreActor.handle(&StoreMsg::NonTerminal, Ok(3)),
        StoreReply::Plain(Ok(3))
    ));
}

#[test]
fn a_lost_actor_call_is_an_internal_error() {
    assert_eq!(call(CallOutcome::Success(Ok(1))).unwrap(), 1);
    assert_eq!(internal(call::<()>(CallOutcome::Timeout).unwrap_err()), "actor call timed out");
    assert_eq!(
        internal(call::<()>(CallOutcome::SenderError).unwrap_err()),
        "actor call sender error"
    );
    assert_eq!(
        internal(call::<()>(CallOutcome::Messaging("closed".into())).unwrap_err()),
        "actor messaging: closed"
    );
}

#[test]
fn startup_applies_ends_and_delivers_open_callbacks() {
    let mut ended = row(ProcessStatus::Succeeded, AttentionState::Pending);
    ended.callback_status = CallbackStatus::Sent;
    assert!(matches!(watch_lock(Some(ended)), ApplyStep::Done));
    assert!(matches!(watch_lock(None), ApplyStep::Done));
    ended.callback_status = CallbackStatus::Sending;
    let ApplyStep::ReadExit { next } = watch_lock(Some(ended)) else { panic!() };
    assert!(matches!(next.on_exit(None), ApplyStep::ReadRow { next } if next.lost));
    let running = row(ProcessStatus::Running, AttentionState::Pending);
    let ApplyStep::ReadExit { next } = watch_lock(Some(running)) else { panic!() };
    let ApplyStep::StoreLost { from: ProcessStatus::Running, next } = next.on_exit(None) else {
        panic!()
    };
    assert!(matches!(next.on_row(&running), ApplyStep::Deliver { lost: true }));
    let ApplyStep::ReadExit { next } = watch_lock(Some(running)) else { panic!() };
    let exit = (ExitReason::Signal { signal: 9 }, ProcessStatus::Failed);
    assert!(matches!(
        next.on_exit(Some(exit)),
        ApplyStep::StoreExit { to: ProcessStatus::Failed, .. }
    ));
    assert_eq!(reconcile_all(&vec![running, ended]), vec![TaskId(1), TaskId(1)]);
}

#[test]
fn a_worker_that_cannot_start_is_reported() {
    let SpawnStep::AcquireLock { next, .. } = spawn_and_watch(TaskId(1)) else { panic!() };
    let SpawnStep::Spawn { next, .. } = next.on_lock(Ok(())) else { panic!() };
    let failure = AppError::Internal { message: "no such file".into() };
    let SpawnStep::AskExit {
        message:
            StoreMsg::CasExit {
                from: ProcessStatus::Queued,
                reason: ExitReason::SpawnFailed { .. },
                ..
            },
        next,
    } = next.on_spawned(Err(failure))
    else {
        panic!()
    };
    let SpawnStep::AskTask { next, .. } = next.on_exit(Ok(true)) else { panic!() };
    let failed = row(ProcessStatus::Failed, AttentionState::Pending);
    let SpawnStep::AskReports { next, .. } = next.on_task(Ok(Some(failed))) else { panic!() };
    assert!(matches!(
        next.on_reports(Ok(Vec::new())),
        SpawnStep::Deliver { error: AppError::Internal { message }, .. }
            if message == "no such file"
    ));
}

#[test]
fn a_started_worker_is_recorded_and_watched() {
    let SpawnStep::AcquireLock { next, .. } = spawn_and_watch(TaskId(1)) else { panic!() };
    let SpawnStep::Spawn { next, .. } = next.on_lock(Ok(())) else { panic!() };
    let SpawnStep::AskPid { message: StoreMsg::SetPid { pid: 42, .. }, next } =
        next.on_spawned(Ok(42))
    else {
        panic!()
    };
    let SpawnStep::Watch { next, .. } = next.on_saved(Ok(())) else { panic!() };
    assert!(matches!(next.on_watched(Ok(())), SpawnStep::Done(Ok(()))));
}
