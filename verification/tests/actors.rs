//! Resource, supervisor and task actors.

use homebased_daemon::actors::resource::{resource_actor_name, resource_id_from_actor_name};
use homebased_daemon::actors::resource::reconcile::ReturnDeadlineWake;
use homebased_daemon::actors::supervisor::recovery::{
    startup_recovery_action, StartupRecoveryAction,
};
use homebased_daemon::actors::supervisor::{callback_executable, task_id_from_name, task_name};
use homebased_daemon::actors::task::{attention_hop, inactivity_wait, ATTENTION_HOP_MAX_SECS};
use homebased_daemon::domain::{
    new_queued_task, NormalizedSpec, NormalizedWorkload, ProcessStatus,
};
use homebased_daemon::error::AppError;
use homebased_daemon::ids::{ActionId, MachineId, ResourceId, TaskId, ThreadId};
use homebased_daemon::resource::ReturnDecisionWindow;
use homebased_daemon::submission::{
    CallbackExecutable, ExecutionRecord, ExecutorIdentity, SavedSpec,
};
use homebased_daemon::time::{Span, Timestamp};

fn fresh() -> u128 {
    uuid::Uuid::now_v7().as_u128()
}

fn at(secs: i64) -> Timestamp {
    Timestamp::new(secs, 0).unwrap()
}

fn now() -> i64 {
    chrono::Utc::now().timestamp()
}

const HOUR: i64 = 3600;

#[test]
fn resource_ids_round_trip_in_actor_names() {
    let id = ResourceId(fresh());
    assert_eq!(resource_id_from_actor_name(Some(resource_actor_name(id))), Some(id));
    assert!(resource_id_from_actor_name(Some("homebased.resource.invalid".to_string())).is_none());
}

#[test]
fn actor_names_keep_their_kinds_apart() {
    let id = fresh();
    assert_eq!(task_id_from_name(Some(task_name(TaskId(id)))), Some(TaskId(id)));
    assert_eq!(task_id_from_name(Some(resource_actor_name(ResourceId(id)))), None);
    assert_eq!(resource_id_from_actor_name(Some(task_name(TaskId(id)))), None);
    assert_eq!(task_id_from_name(None), None);
    assert_eq!(
        task_name(TaskId(0x0123_4567_89ab_cdef_0123_4567_89ab_cdef)),
        "homebased.task.01234567-89ab-cdef-0123-456789abcdef"
    );
}

#[test]
fn a_fired_wake_must_be_armed_again() {
    let window = ReturnDecisionWindow {
        action_id: ActionId(fresh()),
        deadline_at: at(1_000),
    };
    let wake = ReturnDeadlineWake {
        action_id: window.action_id,
        deadline_at: window.deadline_at,
    };
    assert!(wake.covers(window, false));
    assert!(!wake.covers(window, true));
    let moved = ReturnDecisionWindow {
        action_id: window.action_id,
        deadline_at: at(1_001),
    };
    assert!(!wake.covers(moved, false));
}

#[test]
fn direct_queued_tasks_keep_their_existing_startup_actions() {
    let spec = NormalizedSpec {
        thread: ThreadId(fresh()),
        name: "startup".to_string(),
        cwd: "/tmp".to_string(),
        timeout: Span::from_secs(1800),
        machine: None,
        workload: NormalizedWorkload::Task {
            command: vec!["/bin/echo".to_string(), "hello".to_string()],
        },
    };
    let id = TaskId(fresh());
    let row = new_queued_task(id, spec.thread, spec.timeout, at(now()));
    assert_eq!(
        startup_recovery_action(&row, None, false, None),
        StartupRecoveryAction::Observe
    );

    let origin_machine = MachineId(fresh());
    let mut execution_machine = MachineId(fresh());
    while execution_machine == origin_machine {
        execution_machine = MachineId(fresh());
    }
    let identity = ExecutorIdentity::Accepted(ExecutionRecord {
        task: id,
        origin_machine,
        execution_machine,
        spec: SavedSpec::Current(spec),
        state: ProcessStatus::Queued,
    });
    assert_eq!(
        startup_recovery_action(&row, None, false, Some(&identity)),
        StartupRecoveryAction::LaunchAccepted
    );
    // a remote supervisor's bound watcher may already have spawned, so it is only observed
    assert_eq!(
        startup_recovery_action(&row, None, true, Some(&identity)),
        StartupRecoveryAction::Observe
    );
}

#[test]
fn unresolved_callback_codex_keeps_the_resolution_error() {
    let error = AppError::ExecutableMissing { program: "codex".to_string() };
    let expected = error.to_string();

    let codex = callback_executable(Err(error));

    let reason = codex.unavailable_reason().expect("unavailable callback");
    assert!(reason.contains(&expected), "reason={reason}");
    assert_eq!(codex.path(), None);
}

#[test]
fn resolved_callback_codex_is_available() {
    let path = "/bin/codex".to_string();

    let codex = callback_executable(Ok(path.clone()));

    assert!(matches!(
        (&codex, &CallbackExecutable::available(path)),
        (
            CallbackExecutable::Available { path: found },
            CallbackExecutable::Available { path: expected },
        ) if found == expected && found == "/bin/codex"
    ));
}

#[test]
fn inactivity_wait_counts_down_from_creation_without_output() {
    let created = now();
    let timeout = Span::from_secs(4 * 3600);
    assert_eq!(inactivity_wait(at(created), None, timeout, at(created)), timeout);
    assert_eq!(
        inactivity_wait(at(created), None, timeout, at(created + HOUR)),
        Span::from_secs(3 * 3600)
    );
}

#[test]
fn inactivity_wait_is_zero_once_overdue() {
    let created = now();
    let timeout = Span::from_secs(2 * 3600);
    assert_eq!(
        inactivity_wait(at(created), None, timeout, at(created + 3 * HOUR)),
        Span::from_secs(0)
    );
}

#[test]
fn recent_output_restarts_the_inactivity_window() {
    let created = now();
    let output = created + 2 * HOUR;
    let timeout = Span::from_secs(2 * 3600);
    assert_eq!(
        inactivity_wait(at(created), Some(at(output)), timeout, at(created + 3 * HOUR)),
        Span::from_secs(3600)
    );
}

#[test]
fn inactivity_wait_is_zero_when_output_is_stale() {
    let created = now();
    let output = created + HOUR;
    let timeout = Span::from_secs(2 * 3600);
    assert_eq!(
        inactivity_wait(at(created), Some(at(output)), timeout, at(output + 3 * HOUR)),
        Span::from_secs(0)
    );
}

#[test]
fn inactivity_wait_ignores_output_older_than_creation() {
    let created = now();
    let output = created - HOUR;
    let timeout = Span::from_secs(2 * 3600);
    assert_eq!(
        inactivity_wait(at(created), Some(at(output)), timeout, at(created + HOUR)),
        Span::from_secs(3600)
    );
}

#[test]
fn inactivity_wait_survives_a_clock_that_moved_backwards() {
    let created = now();
    let timeout = Span::from_secs(2 * 3600);
    // a backwards clock must not shorten the wait, and must not panic
    assert_eq!(
        inactivity_wait(at(created), None, timeout, at(created - 5 * HOUR)),
        timeout
    );
}

#[test]
fn inactivity_wait_handles_a_timeout_wider_than_any_instant() {
    let created = now();
    let huge = Span::from_secs(u64::MAX);
    let wait = inactivity_wait(at(created), None, huge, at(created + HOUR));
    assert_eq!(wait.nanos, huge.nanos - Span::from_secs(3600).nanos);
    // hops keep each sleep within a practical timer limit
    let hop = Span::from_secs(ATTENTION_HOP_MAX_SECS);
    assert_eq!(wait.min(hop), hop);
    assert_eq!(attention_hop(wait), Some(hop));
}

#[test]
fn a_due_reminder_needs_no_timer() {
    assert_eq!(attention_hop(Span::from_secs(0)), None);
    assert_eq!(attention_hop(Span::from_secs(90)), Some(Span::from_secs(90)));
    assert_eq!(attention_hop(Span::from_secs(7200)), Some(Span::from_secs(3600)));
}
