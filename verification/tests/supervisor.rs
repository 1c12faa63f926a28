//! The supervisor: which workers start, and what it answers.

use std::sync::Arc;

use homebased_daemon::actors::resource::watcher::PreparedActionTask;
use homebased_daemon::actors::resource::messages::ResourceMsg;
use homebased_daemon::actors::resource::{
    resource_actor_name, BackgroundLaunchResult, ReleaseWatcherLaunchResult, ResourceTaskAcceptance, RestoreLaunchResult,
};
use homebased_daemon::actors::store::{
    EventError, IdentityError, ResourceStoreError, ResourceTaskAcceptanceInput, StoreMsg,
};
use homebased_daemon::actors::supervisor::launch::{
    launch as launch_task, launch_accepted, launch_remote, record_pid, spawn_inserted, RemoteLaunch, RemoteLaunchStep,
    SpawnStep,
};
use homebased_daemon::actors::supervisor::messages::{
    SupervisorActor, SupervisorMsg, SupervisorStep,
};
use homebased_daemon::actors::supervisor::recovery::{
    AcceptedResourceTask, RecoveryContext, RecoveryStep, StartupRecoveryAction,
};
use homebased_daemon::actors::supervisor::resource_launch::{
    bind_background_launch, decide_return, launch_background, launch_return_task,
    on_assigned_accepted, remote_watcher_outcome, resource_action, return_decision_rejection, AcceptedActionTask,
    ActionStep, ActionTaskAcceptance, ActionTaskReceipt, AssignedLaunch, AwaitRemoteAccepted,
    BackgroundLaunch, BackgroundLaunchAcceptance, BackgroundLaunchError, DecideStep, LaunchReporter, LaunchStep,
    ResourceActionError, ResourceActionKind, ResourceActionOperation, ResourceActionOutcome,
    ResourceActionRequest, ReturnDecision, ReturnDecisionError, ReturnTaskAcceptance, StartTold,
};
use homebased_daemon::actors::supervisor::{
    ensure_resource_actor, matching_identity, on_actor_failed, on_actor_terminated,
    on_task_actor_spawned, reconcile_terminal_task, spawn_task_actor, task_name, EnsureStep,
    LiveActors, SupervisionDecision, TerminalStep,
};
use homebased_daemon::domain::{
    new_queued_task, ExitReason, NormalizedSpec, NormalizedWorkload, ProcessGroupExitEvidence,
    ProcessStatus, SpecDigest, TaskEnv, TaskPlacement, TaskRow,
};
use homebased_daemon::error::AppError;
use homebased_daemon::ids::{
    ActionId, LoanId, MachineId, RequestId, ResourceId, TaskId, ThreadId,
};
use homebased_daemon::resource::{
    AssignmentRevision, Loan, LoanPhase, LoanState, Resource, ResourceActionRejection,
    ResourceRevision, ResourceSnapshot, ReturnLaunch, ReturnTaskOrigin, SupervisorActionAuthority,
    SupervisorAddress,
};
use homebased_daemon::submission::{CallbackExecutable, ExecutionRecord, ExecutorIdentity, SavedSpec};
use homebased_daemon::time::{Span, Timestamp};

const TASK: TaskId = TaskId(1);
const LOCAL: MachineId = MachineId(2);

fn failure(message: &str) -> AppError {
    AppError::Internal { message: message.into() }
}

fn row(status: ProcessStatus) -> TaskRow {
    let mut row =
        new_queued_task(TASK, ThreadId(3), Span::from_secs(60), Timestamp::new(0, 0).unwrap());
    row.status = status;
    row
}

#[test]
fn a_row_without_a_worker_is_finished() {
    let SpawnStep::Prepare { next } = spawn_inserted(TASK) else { panic!() };
    let SpawnStep::AskExit {
        message: StoreMsg::CasExit { from: ProcessStatus::Queued, reason, evidence, .. },
        next,
    } = next.on_prepared(Err(failure("disk full")))
    else {
        panic!()
    };
    assert!(matches!(
        reason,
        ExitReason::SpawnFailed { message } if message.contains("disk full")
    ));
    assert_eq!(evidence, ProcessGroupExitEvidence::NoChildSpawned);
    assert!(matches!(next.on_finished(Ok(true)), SpawnStep::Done(Ok(()))));
}

#[test]
fn a_held_lock_means_the_worker_runs() {
    let SpawnStep::Lock { next } = launch_accepted(TASK) else { panic!() };
    let held = AppError::LockHeld { path: "/run/lock".into() };
    assert!(matches!(
        next.on_lock(Err(held)),
        SpawnStep::Watch { task } if task == TASK
    ));
    let SpawnStep::Run { next } = next.on_lock(Ok(())) else { panic!() };
    let SpawnStep::AskPid { next, .. } = next.on_run(Ok(42)) else { panic!() };
    assert!(matches!(next.on_saved(Ok(())), SpawnStep::Watch { .. }));
}

#[test]
fn a_pid_must_fit_the_store() {
    assert!(matches!(record_pid(TASK, 7), Ok(StoreMsg::SetPid { pid: 7, .. })));
    assert!(matches!(
        record_pid(TASK, 2_147_483_648),
        Err(AppError::Internal { message })
            if message == "runner pid 2147483648 for task 00000000-0000-0000-0000-000000000001 \
                           does not fit a signed process id"
    ));
}

fn spec(name: &str) -> NormalizedSpec {
    NormalizedSpec {
        thread: ThreadId(3),
        name: name.into(),
        cwd: "/srv".into(),
        timeout: Span::from_secs(60),
        machine: None,
        workload: NormalizedWorkload::Task { command: vec!["true".into()] },
    }
}

fn accepted(origin: MachineId, name: &str) -> ExecutorIdentity {
    ExecutorIdentity::Accepted(ExecutionRecord {
        task: TASK,
        origin_machine: origin,
        execution_machine: LOCAL,
        spec: SavedSpec::Current(spec(name)),
        state: ProcessStatus::Queued,
    })
}

#[test]
fn a_retained_identity_must_match_its_request() {
    let matched = |identity, origin| {
        matching_identity(identity, &spec("t"), origin, LOCAL, TASK).is_ok()
    };
    assert!(matched(accepted(MachineId(9), "t"), MachineId(9)));
    assert!(!matched(accepted(MachineId(9), "u"), MachineId(9)));
    assert!(!matched(accepted(MachineId(8), "t"), MachineId(9)));
    assert!(!matched(accepted(LOCAL, "t"), LOCAL));
}

#[test]
fn a_remote_task_is_launched_once() {
    let request = || RemoteLaunch {
        task: TASK,
        origin: MachineId(9),
        execution: LOCAL,
        spec: spec("t"),
        placement: TaskPlacement {
            cwd: "/srv".into(),
            env: TaskEnv { path: "/bin".into(), home: "/home/u".into() },
            binary: "/bin/true".into(),
        },
        created_at: Timestamp::new(0, 0).unwrap(),
    };
    let RemoteLaunchStep::AskIdentity { next, .. } = launch_remote(request()) else { panic!() };
    assert!(matches!(
        next.on_identity(Ok(Some(accepted(MachineId(9), "t")))),
        RemoteLaunchStep::Done(Ok(_))
    ));
    let RemoteLaunchStep::AskIdentity { next, .. } = launch_remote(request()) else { panic!() };
    assert!(matches!(
        next.on_identity(Ok(Some(accepted(MachineId(9), "u")))),
        RemoteLaunchStep::Done(Err(AppError::ClusterTaskConflict { .. }))
    ));
    // another spelling of the directory is the same path, and another directory is not
    let spelt = |cwd: &str| NormalizedSpec { cwd: cwd.into(), ..spec("t") };
    for (cwd, same) in [("/srv", true), ("/srv/", true), ("/srv//.", true), ("/srv2", false)] {
        let kept = matching_identity(accepted(MachineId(9), "t"), &spelt(cwd), MachineId(9), LOCAL, TASK);
        assert_eq!(kept.is_ok(), same, "{cwd}");
    }
    let RemoteLaunchStep::AskIdentity { next, .. } = launch_remote(request()) else { panic!() };
    let RemoteLaunchStep::Prepare { task, files: None, next } = next.on_identity(Ok(None)) else {
        panic!()
    };
    assert_eq!(task, TASK);
    let agent = RemoteLaunch {
        spec: NormalizedSpec {
            workload: NormalizedWorkload::Agent {
                prompt: "do it".into(),
                report_trailer: false,
                settings: "{}".into(),
            },
            ..spec("a")
        },
        ..request()
    };
    let RemoteLaunchStep::AskIdentity { next: agent, .. } = launch_remote(agent) else { panic!() };
    assert!(matches!(
        agent.on_identity(Ok(None)),
        RemoteLaunchStep::Prepare { files: Some(files), .. }
            if files.prompt == "do it" && !files.report_trailer
    ));
    let RemoteLaunchStep::AskInsert {
        message: StoreMsg::InsertRemoteTask { row, origin, execution, .. },
        next,
    } = next.on_prepared(Ok(()))
    else {
        panic!()
    };
    assert_eq!((row.status, origin, execution), (ProcessStatus::Queued, MachineId(9), LOCAL));
    assert!(matches!(
        next.on_inserted(Ok(accepted(MachineId(9), "t"))),
        RemoteLaunchStep::Launch { .. }
    ));
}

fn input() -> ResourceTaskAcceptanceInput {
    ResourceTaskAcceptanceInput {
        authority_machine: LOCAL,
        resource_id: ResourceId(4),
        request_id: RequestId(5),
        task_id: TASK,
        acceptance_sequence: 1,
        loan_id: LoanId(6),
        expected_state_revision: ResourceRevision(7),
        command_spec: Arc::new(spec("queued")),
        executor_env: env(),
    }
}

fn env() -> TaskEnv {
    TaskEnv { path: "/bin".into(), home: "/home/u".into() }
}

fn assigned_to() -> AssignedLaunch {
    AssignedLaunch { task_id: TASK, resource_id: ResourceId(4) }
}

#[test]
fn only_an_inserted_row_starts_a_worker() {
    let launched = |acceptance| on_assigned_accepted(assigned_to(), Ok(Ok(acceptance)));
    assert!(matches!(
        launched(ResourceTaskAcceptance::Inserted { task: TASK }),
        LaunchStep::Spawn { task, .. } if task == TASK
    ));
    assert!(matches!(
        launched(ResourceTaskAcceptance::Existing { task: TASK, state: ProcessStatus::Running }),
        LaunchStep::Watch { .. }
    ));
    assert!(matches!(
        launched(ResourceTaskAcceptance::Existing { task: TASK, state: ProcessStatus::Queued }),
        LaunchStep::Reconcile { resource, .. } if resource == ResourceId(4)
    ));
    assert!(matches!(
        launched(ResourceTaskAcceptance::Inserted { task: TaskId(99) }),
        LaunchStep::Done { result: Err(AppError::Internal { .. }), .. }
    ));
    assert!(matches!(
        on_assigned_accepted(assigned_to(), Ok(Err(ResourceStoreError::Conflict))),
        LaunchStep::Done { result: Ok(Err(ResourceStoreError::Conflict)), .. }
    ));
    let refused = BackgroundLaunchError { text: "no".into() };
    assert!(matches!(
        bind_background_launch(Ok(Err(refused))),
        LaunchStep::Done { result: Ok(Err(_)), .. }
    ));
    assert!(matches!(
        bind_background_launch(Ok(Ok(BackgroundLaunchAcceptance::Inserted { task: TASK }))),
        LaunchStep::Spawn { .. }
    ));
}

fn authority() -> SupervisorActionAuthority {
    SupervisorActionAuthority {
        authority_machine: LOCAL,
        resource_id: ResourceId(4),
        loan_id: LoanId(6),
        action_id: ActionId(8),
        expected_state_revision: ResourceRevision(7),
        assignment_revision: AssignmentRevision(1),
        supervisor: SupervisorAddress { machine: LOCAL, thread: ThreadId(3) },
    }
}

fn launch() -> ReturnLaunch {
    ReturnLaunch {
        request_id: RequestId(5),
        task_id: TASK,
        work: "{}".into(),
        supervisor_spec: None,
    }
}

#[test]
fn a_return_runs_its_callbacks_where_its_command_runs() {
    let resolve = |launch| decide_return(authority(), ReturnDecision::Launch(launch), env(), "/state");
    let DecideStep::ResolveCodex { lookup } = resolve(launch()) else { panic!() };
    assert_eq!((lookup.path.as_str(), lookup.cwd.as_str()), ("/bin", "/state"));
    let held = ReturnLaunch { supervisor_spec: Some(spec("resume")), ..launch() };
    let DecideStep::ResolveCodex { lookup } = resolve(held) else { panic!() };
    assert_eq!(lookup.cwd, "/srv");
    let DecideStep::Launch { start } = lookup.next.on_codex(Err(failure("no codex"))) else {
        panic!()
    };
    let StoreMsg::AcceptReturnTaskForAuthority { executor_env, origin, launch: kept, .. } = start.message
    else {
        panic!()
    };
    assert_eq!((executor_env.home.as_str(), kept.task_id), ("/home/u", TASK));
    assert!(matches!(
        origin,
        ReturnTaskOrigin::Local { callback_codex: CallbackExecutable::Unavailable { reason } }
            if reason == "callback Codex executable is unavailable: no codex"
    ));
    let DecideStep::ResolveCodex { lookup } = resolve(launch()) else { panic!() };
    let DecideStep::Launch { start } = lookup.next.on_codex(Ok("/opt/codex".into())) else {
        panic!()
    };
    assert!(matches!(
        start.message,
        StoreMsg::AcceptReturnTaskForAuthority {
            origin: ReturnTaskOrigin::Local {
                callback_codex: CallbackExecutable::Available { path },
            },
            ..
        } if path == "/opt/codex"
    ));
    assert!(matches!(
        decide_return(
            authority(),
            ReturnDecision::NoResume { reason: "done".into() },
            env(),
            "/state",
        ),
        DecideStep::AskClosed {
            message: StoreMsg::RecordNoResumeForAuthority { reason, .. },
            ..
        } if reason == "done"
    ));
}

#[test]
fn a_launch_goes_on_only_when_its_resource_was_told() {
    let silent = LaunchReporter::start(StartTold::NoActor).unwrap();
    assert_eq!(silent.finish(Some(1)), None);
    let told = LaunchReporter::start(StartTold::Told).unwrap();
    assert_eq!(told.finish(Some(1)), Some(1));
    assert!(matches!(
        LaunchReporter::start(StartTold::Failed("channel closed".into())),
        Err(AppError::Internal { message }) if message == "actor messaging: channel closed"
    ));
}

#[test]
fn a_finished_launch_is_reported_under_its_own_identity() {
    let told = LaunchReporter { has_actor: true };
    let silent = LaunchReporter { has_actor: false };
    let origin = ReturnTaskOrigin::Remote { normalized_spec_sha256: SpecDigest { high: 1, low: 2 } };
    let next = launch_return_task(authority(), launch(), env(), origin).next;
    assert!(matches!(
        next.finished(told, Some(RestoreLaunchResult::Inserted)),
        Some(ResourceMsg::RestoreLaunchFinished { action_id, task_id, .. })
            if action_id == ActionId(8) && task_id == TASK
    ));
    assert!(next.finished(silent, Some(RestoreLaunchResult::Inserted)).is_none());
    assert!(next.finished(told, None).is_none());
    let watcher = AwaitRemoteAccepted { authority: authority(), task_id: TASK };
    assert!(matches!(
        watcher.finished(told, Some(ReleaseWatcherLaunchResult::Inserted)),
        Some(ResourceMsg::WatcherLaunchFinished { watcher_task_id, .. }) if watcher_task_id == TASK
    ));
    let lookup = launch_background(
        LOCAL,
        BackgroundLaunch {
            resource_id: ResourceId(4),
            request_id: RequestId(5),
            spec: spec("train"),
            env: env(),
            callback_cwd: "/work".into(),
        },
    );
    assert_eq!((lookup.path.as_str(), lookup.cwd.as_str()), ("/bin", "/work"));
    let start = lookup.next.on_codex(Ok("/opt/codex".into()), TASK);
    assert!(matches!(
        start.message,
        StoreMsg::AcceptBackgroundLaunchForAuthority {
            task_id: TASK,
            callback_codex: CallbackExecutable::Available { path },
            ..
        } if path == "/opt/codex"
    ));
    assert!(matches!(
        start.next.finished(told, Some(BackgroundLaunchResult::Inserted)),
        Some(ResourceMsg::BackgroundLaunchFinished { request_id, .. }) if request_id == RequestId(5)
    ));
}

#[test]
fn a_local_task_keeps_the_executable_of_its_callbacks() {
    let placement = TaskPlacement {
        cwd: "/srv".into(),
        env: TaskEnv { path: "/usr/bin".into(), home: "/home/u".into() },
        binary: "/bin/true".into(),
    };
    let lookup = launch_task(row(ProcessStatus::Queued), placement, spec("t"), LOCAL);
    assert_eq!((lookup.path.as_str(), lookup.cwd.as_str()), ("/usr/bin", "/srv"));
    let (message, next) = lookup.next.on_codex(Err(failure("gone")));
    assert_eq!(next.task, TASK);
    assert!(matches!(
        message,
        StoreMsg::InsertLocalTask { codex: CallbackExecutable::Unavailable { reason }, .. }
            if reason == "callback Codex executable is unavailable: gone"
    ));
}

#[test]
fn a_return_tells_its_resource_how_it_went() {
    let origin =
        || ReturnTaskOrigin::Remote { normalized_spec_sha256: SpecDigest { high: 1, low: 2 } };
    let start = launch_return_task(authority(), launch(), env(), origin());
    let LaunchStep::Spawn { next, .. } =
        start.next.on_accepted(Ok(Ok(ReturnTaskAcceptance::Inserted { task: TASK })))
    else {
        panic!()
    };
    assert!(matches!(
        next.on_spawned::<ReturnDecisionError>(Ok(())),
        LaunchStep::Done { report: Some(RestoreLaunchResult::Inserted), result: Ok(Ok(_)) }
    ));
    let start = launch_return_task(authority(), launch(), env(), origin());
    let LaunchStep::Spawn { next, .. } =
        start.next.on_accepted(Ok(Ok(ReturnTaskAcceptance::Inserted { task: TASK })))
    else {
        panic!()
    };
    assert!(matches!(
        next.on_spawned::<ReturnDecisionError>(Err(failure("fork"))),
        LaunchStep::Done { report: Some(RestoreLaunchResult::NotInserted), result: Err(_) }
    ));
}

#[test]
fn an_unknown_result_is_no_refusal() {
    let rejected = |error| return_decision_rejection(error);
    assert!(rejected(ReturnDecisionError::Storage(failure("disk"))).is_err());
    assert!(
        rejected(ReturnDecisionError::Identity(IdentityError::Storage(failure("disk")))).is_err()
    );
    assert!(matches!(
        rejected(ReturnDecisionError::RevisionExhausted { revision: ResourceRevision(9) }),
        Err(AppError::Internal { message })
            if message == "resource revision ResourceRevision(9) cannot be incremented"
    ));
    assert!(rejected(ReturnDecisionError::TaskRecords(failure("x"))).is_err());
    for error in [
        ResourceStoreError::Storage(failure("disk")),
        ResourceStoreError::Identity(IdentityError::Storage(failure("disk"))),
        ResourceStoreError::Event(EventError::Storage(failure("disk"))),
        ResourceStoreError::TaskRow(failure("disk")),
        ResourceStoreError::TaskPreparation(failure("disk")),
    ] {
        assert!(matches!(
            rejected(ReturnDecisionError::Resource(error)),
            Err(AppError::Internal { message }) if message == "disk"
        ));
    }
    for error in [
        ResourceStoreError::Identity(IdentityError::Conflict),
        ResourceStoreError::Event(EventError::RouteNotFound { task: TASK }),
        ResourceStoreError::TaskRow(AppError::Usage { message: "bad".into() }),
    ] {
        assert!(matches!(
            rejected(ReturnDecisionError::Resource(error)),
            Ok(ResourceActionRejection::ActionNotPending)
        ));
    }
    assert!(matches!(
        rejected(ReturnDecisionError::TaskRecords(AppError::Usage { message: "bad".into() })),
        Ok(ResourceActionRejection::DecisionRejected { .. })
    ));
    assert!(matches!(
        rejected(ReturnDecisionError::OriginMismatch),
        Ok(ResourceActionRejection::NotCurrentSupervisor)
    ));
    assert!(matches!(
        rejected(ReturnDecisionError::Resource(ResourceStoreError::Conflict)),
        Ok(ResourceActionRejection::ActionNotPending)
    ));
    assert!(matches!(
        rejected(ReturnDecisionError::RestoreNotEnded { text: "runs".into() }),
        Ok(ResourceActionRejection::RestoreNotResolvable { reason }) if reason == "runs"
    ));
}

#[test]
fn an_action_reaches_the_part_that_decides_it() {
    let step = |operation| {
        resource_action(ResourceActionRequest { authority: authority(), operation }, env())
    };
    let ActionStep::CallActor { resource_id, next, .. } =
        step(ResourceActionOperation::PrepareReleaseWatcher { observed_background_task: TASK })
    else {
        panic!()
    };
    assert_eq!(resource_id, ResourceId(4));
    let prepared = PreparedActionTask {
        request_id: RequestId(5),
        task_id: TASK,
        spec: spec("watch"),
        normalized_spec_sha256: SpecDigest { high: 1, low: 2 },
    };
    assert!(matches!(
        next.on_prepared(Ok(Ok(prepared))),
        ActionStep::Done { wake: None, result: Ok(ResourceActionOutcome::Prepared { .. }) }
    ));
    let ActionStep::AskClosed { next, .. } =
        step(ResourceActionOperation::NoResume { reason: "done".into() })
    else {
        panic!()
    };
    assert!(matches!(
        next.closed_outcome(Ok(Err(ReturnDecisionError::NotCurrentSupervisor))),
        ActionStep::Done {
            result: Ok(ResourceActionOutcome::Rejected {
                reason: ResourceActionRejection::NotCurrentSupervisor,
            }),
            ..
        }
    ));
}

#[test]
fn a_remote_watcher_reports_its_start() {
    let wait = AwaitRemoteAccepted { authority: authority(), task_id: TASK };
    let accepted = AcceptedActionTask {
        receipt: ActionTaskReceipt {
            kind: ResourceActionKind::ReleaseWatcher,
            authority: authority(),
            request_id: RequestId(5),
            task_id: TASK,
            normalized_spec_sha256: SpecDigest { high: 1, low: 2 },
        },
        acceptance: ActionTaskAcceptance::Inserted,
    };
    let LaunchStep::Spawn { next, .. } = wait.on_accepted(Ok(Ok(accepted))) else { panic!() };
    let LaunchStep::Done { report: Some(ReleaseWatcherLaunchResult::Inserted), result } =
        next.on_spawned::<ResourceActionRejection>(Ok(()))
    else {
        panic!()
    };
    assert!(matches!(
        remote_watcher_outcome(result),
        Ok(ResourceActionOutcome::Accepted { receipt, .. }) if receipt.task_id == TASK
    ));
    let wait = AwaitRemoteAccepted { authority: authority(), task_id: TASK };
    let stale = ResourceActionError::Rejected(ResourceActionRejection::ActionNotPending);
    assert!(matches!(
        wait.on_accepted(Ok(Err(stale))),
        LaunchStep::Done { result: Ok(Err(ResourceActionRejection::ActionNotPending)), .. }
    ));
}

#[test]
fn a_restart_launches_only_what_lost_no_worker() {
    let context = RecoveryContext {
        accepted: vec![AcceptedResourceTask { task_id: TASK, state: ProcessStatus::Queued }],
        restoring: vec![TaskId(20)],
        background_launches: vec![TaskId(21)],
        watchers: Vec::new(),
    };
    let mut returning = row(ProcessStatus::Queued);
    returning.id = TaskId(20);
    assert!(matches!(context.recover(&returning), RecoveryStep::Leave));
    assert!(matches!(
        context.recover(&row(ProcessStatus::Queued)),
        RecoveryStep::Act { action: StartupRecoveryAction::DeferResource }
    ));
    let mut direct = row(ProcessStatus::Queued);
    direct.id = TaskId(22);
    let RecoveryStep::AskIdentity { message: StoreMsg::ExecutorIdentity { id } } =
        context.recover(&direct)
    else {
        panic!()
    };
    assert_eq!(id, TaskId(22));
    assert_eq!(
        context.on_identity(&direct, Some(&accepted(MachineId(9), "t"))),
        StartupRecoveryAction::LaunchAccepted
    );
    assert_eq!(
        context.on_identity(&direct, Some(&accepted(LOCAL, "t"))),
        StartupRecoveryAction::Observe
    );
    assert_eq!(context.on_identity(&direct, None), StartupRecoveryAction::Observe);
}

#[test]
fn an_ended_actor_is_replaced_or_stops_the_daemon() {
    let failed = |name: &str| on_actor_failed(Some(name.to_string()));
    assert!(matches!(failed("homebased.store"), SupervisionDecision::Stop));
    assert!(matches!(failed("homebased.callback"), SupervisionDecision::Stop));
    assert!(matches!(
        failed(&resource_actor_name(ResourceId(4))),
        SupervisionDecision::Stop
    ));
    assert!(matches!(
        failed(&task_name(TASK)),
        SupervisionDecision::RestartTask { id } if id == TASK
    ));
    assert!(matches!(failed("other"), SupervisionDecision::Ignore));
    assert!(matches!(on_actor_failed(None), SupervisionDecision::Ignore));
    assert!(matches!(
        on_actor_terminated(Some(task_name(TASK)), None),
        SupervisionDecision::ReconcileTask { id } if id == TASK
    ));
    assert!(matches!(
        on_actor_terminated(Some(resource_actor_name(ResourceId(4))), None),
        SupervisionDecision::StopTerminated { error: AppError::Internal { message } }
            if message == "resource actor 00000000-0000-0000-0000-000000000004 terminated \
                           unexpectedly: without an exit reason"
    ));
}

fn snapshot(task: TaskId) -> ResourceSnapshot {
    ResourceSnapshot {
        resource: Resource {
            id: ResourceId(4),
            authority_machine: LOCAL,
            supervisor: SupervisorAddress { machine: LOCAL, thread: ThreadId(3) },
            assignment_revision: AssignmentRevision(1),
            state_revision: ResourceRevision(7),
            registered_background_task: Some(task),
        },
        loan: Some(Loan {
            id: LoanId(6),
            state: LoanState::Active {
                phase: LoanPhase::AwaitingRelease {
                    action_id: ActionId(8),
                    observed_background_task: task,
                    watcher_intent: None,
                },
            },
        }),
    }
}

#[test]
fn one_actor_lives_per_task_and_resource() {
    let mut tasks = LiveActors::new();
    assert_eq!(spawn_task_actor(&tasks, TASK), Some(task_name(TASK)));
    assert!(on_task_actor_spawned(&mut tasks, TASK, Err("name taken".into())).is_err());
    assert!(!tasks.contains(TASK.0));
    on_task_actor_spawned(&mut tasks, TASK, Ok(())).unwrap();
    assert_eq!(spawn_task_actor(&tasks, TASK), None);
    tasks.ended(TASK.0);
    assert!(spawn_task_actor(&tasks, TASK).is_some());

    let mut resources = LiveActors::new();
    let EnsureStep::AskSnapshots { next, .. } =
        ensure_resource_actor(&resources, LOCAL, ResourceId(4))
    else {
        panic!()
    };
    assert!(matches!(
        next.on_snapshots(Ok(vec![snapshot(TASK)])),
        EnsureStep::Spawn { .. }
    ));
    assert!(matches!(next.on_snapshots(Ok(Vec::new())), EnsureStep::Failed(_)));
    resources.started(4);
    assert!(matches!(
        ensure_resource_actor(&resources, LOCAL, ResourceId(4)),
        EnsureStep::Alive
    ));
}

#[test]
fn an_ended_task_reconciles_the_loan_that_waits_for_it() {
    let TerminalStep::AskTask { next, .. } = reconcile_terminal_task(LOCAL, TASK) else { panic!() };
    assert!(matches!(
        next.on_task(Ok(Some(row(ProcessStatus::Running)))),
        TerminalStep::Done
    ));
    let TerminalStep::AskTask { next, .. } = reconcile_terminal_task(LOCAL, TASK) else { panic!() };
    let TerminalStep::AskSnapshots { next, .. } =
        next.on_task(Ok(Some(row(ProcessStatus::Succeeded))))
    else {
        panic!()
    };
    assert!(matches!(
        next.on_snapshots(Ok(vec![snapshot(TaskId(50)), snapshot(TASK)])),
        TerminalStep::Reconcile { resources } if resources == vec![ResourceId(4)]
    ));
}

#[test]
fn a_supervisor_message_starts_its_question() {
    let resources = LiveActors::new();
    assert!(matches!(
        SupervisorActor::handle(&resources, LOCAL, SupervisorMsg::GetStore),
        SupervisorStep::ReplyStore
    ));
    assert!(matches!(
        SupervisorActor::handle(
            &resources,
            LOCAL,
            SupervisorMsg::InspectResource { id: ResourceId(4) },
        ),
        SupervisorStep::ReplyNotFound
    ));
    assert!(matches!(
        SupervisorActor::handle(
            &resources,
            LOCAL,
            SupervisorMsg::LaunchAssignedResourceTask { input: input() },
        ),
        SupervisorStep::AskAssigned {
            message: StoreMsg::AcceptAssignedResourceTask { input },
            next,
        } if next == assigned_to() && input.command_spec.name == "queued"
    ));
}
