//! Fleet control, fleet lookups and the fleet task list.

use std::collections::HashMap;

use homebased_daemon::api::filter::{ListQuery, TaskFilter};
use homebased_daemon::api::views::{
    CheckTimeoutStatus, ContainerDetail, ContainerExitEvidence, StoredTask, TaskContainerRecord,
    TaskList, TaskOwners, TaskPresentation, TaskSummary, TerminalCallbackProjection, WorkloadView,
};
use homebased_daemon::cluster::{ExecutionBody, ExecutionView};
use homebased_daemon::domain::{
    new_queued_task, AttentionState, CallbackStatus, ProcessStatus,
};
use homebased_daemon::error::AppError;
use homebased_daemon::fleet::{ProtocolRange, API_VERSION};
use homebased_daemon::fleet_api::{
    check_control, check_version, connect_failure, enabled, executor_event_detail, inventory,
    lookup_peer, lookup_task, origin_inbox_detail, probe_answer, remove, ConnectFailure,
    InboxStep, LocalIdentityStatus, LookupGap, LookupGapReason, LookupResult, LookupStep,
    PeerView, ProbedMachineView, Reachability, Removal, RemoveBody,
};
use homebased_daemon::fleet_tasks::{
    cluster_task_list, fleet_tasks, merge_records, peer_list_path, read_peers, reads_peer,
    ClusterTaskList, ClusterTaskListQuery, MachineLocation, MachineRead,
};
use homebased_daemon::ids::{MachineId, TaskId, ThreadId};
use homebased_daemon::inspection::PeerAnswer;
use homebased_daemon::time::{Span, Timestamp};

const MAIN: &str = "00000000-0000-4000-8000-000000000001";
const CODE: &str = "00000000-0000-4000-8000-000000000002";

fn machine(id: &str) -> MachineId {
    MachineId::parse(id).unwrap()
}

fn moment(text: &str) -> Timestamp {
    let parsed = chrono::DateTime::parse_from_rfc3339(text).unwrap();
    Timestamp::new(parsed.timestamp(), 0).unwrap()
}

fn summary(
    id: &str,
    created_at: &str,
    status: &str,
    owners: Option<(&str, &str)>,
) -> TaskSummary {
    TaskSummary {
        id: TaskId::parse(id).unwrap(),
        name: None,
        display_name: "train".into(),
        status: ProcessStatus::from_storage(status).unwrap(),
        workload: WorkloadView::Task { command: vec!["true".into()] },
        thread: ThreadId::parse("01a0b19f-f048-7832-8e98-01618ccf44d7").unwrap(),
        cwd: "/tmp".into(),
        project_root: None,
        origin_machine: owners.map(|owners| machine(owners.0)),
        execution_machine: owners.map(|owners| machine(owners.1)),
        pid: None,
        callback: CallbackStatus::Pending,
        timeout_secs: 60,
        check_timeout: CheckTimeoutStatus::Pending,
        exit_reason: None,
        cancel_requested_at: None,
        created_at: moment(created_at),
        updated_at: moment(created_at),
    }
}

#[test]
fn execution_record_wins_over_origin_record() {
    let id = "01a0d1fd-90c9-771f-bc1c-2eb6f9d8faf8";
    let at = "2026-09-24T05:57:30Z";
    let origin_copy = summary(id, at, "queued", Some((MAIN, CODE)));
    let execution_copy = summary(id, at, "running", Some((MAIN, CODE)));

    let merged = merge_records(vec![
        (machine(MAIN), vec![origin_copy]),
        (machine(CODE), vec![execution_copy]),
    ]);

    assert_eq!(merged.len(), 1);
    assert_eq!(merged[0].machine, machine(CODE));
    assert_eq!(merged[0].task.status.as_str(), "running");
}

#[test]
fn origin_record_stands_in_while_the_executor_is_unavailable() {
    let id = "01a0d1fd-90c9-771f-bc1c-2eb6f9d8faf8";
    let origin_copy = summary(id, "2026-09-24T05:57:30Z", "queued", Some((MAIN, CODE)));

    let merged = merge_records(vec![(machine(MAIN), vec![origin_copy])]);

    assert_eq!(merged.len(), 1);
    assert_eq!(merged[0].machine, machine(CODE));
}

#[test]
fn tasks_are_newest_first_across_machines() {
    let older = summary(
        "01a0d100-0000-7000-8000-000000000001",
        "2026-09-24T01:00:00Z",
        "running",
        None,
    );
    let newer = summary(
        "01a0d100-0000-7000-8000-000000000002",
        "2026-09-24T02:00:00Z",
        "running",
        None,
    );

    let merged = merge_records(vec![(machine(MAIN), vec![older]), (machine(CODE), vec![newer])]);

    let order: Vec<MachineId> = merged.iter().map(|entry| entry.machine).collect();
    assert_eq!(order, vec![machine(CODE), machine(MAIN)]);
}

#[test]
fn an_earlier_execution_record_stays_and_ties_go_by_identity() {
    let at = "2026-09-24T01:00:00Z";
    let low = "01a0d100-0000-7000-8000-000000000001";
    let high = "01a0d100-0000-7000-8000-000000000009";
    let merged = merge_records(vec![
        (machine(CODE), vec![summary(low, at, "running", Some((MAIN, CODE)))]),
        (
            machine(MAIN),
            vec![
                summary(low, at, "queued", Some((MAIN, CODE))),
                summary(high, at, "queued", None),
            ],
        ),
    ]);
    let shown: Vec<(u128, ProcessStatus)> =
        merged.iter().map(|entry| (entry.task.id.0, entry.task.status)).collect();
    assert_eq!(
        shown,
        vec![
            (TaskId::parse(high).unwrap().0, ProcessStatus::Queued),
            (TaskId::parse(low).unwrap().0, ProcessStatus::Running),
        ]
    );
    assert!(merge_records(Vec::new()).is_empty());
}

#[test]
fn many_records_are_sorted() {
    let mut records = Vec::new();
    for index in 0..37u32 {
        let id = format!("01a0d100-0000-7000-8000-{:012}", (index * 17) % 37);
        let at = format!("2026-09-24T01:{:02}:00Z", (index * 23) % 37);
        records.push(summary(&id, &at, "running", None));
    }
    let merged = merge_records(vec![(machine(MAIN), records)]);
    assert_eq!(merged.len(), 37);
    for pair in merged.windows(2) {
        assert!(pair[0].task.created_at.after(pair[1].task.created_at));
    }
}

fn peer(id: &str, reachability: Reachability) -> PeerView {
    PeerView {
        machine: machine(id),
        name: "code".into(),
        version: "2".into(),
        addresses: vec!["http://code".into(), "http://other".into()],
        reachability,
    }
}

#[test]
fn an_unavailable_peer_never_hides_other_tasks() {
    let at = "2026-09-24T01:00:00Z";
    let task = "01a0d100-0000-7000-8000-000000000001";
    let read = read_peers(
        machine(MAIN),
        vec![
            (peer(CODE, Reachability::Offline), None),
            (peer(MAIN, Reachability::Online), None),
            (
                peer("00000000-0000-4000-8000-000000000003", Reachability::Online),
                Some(Ok(ClusterTaskList {
                    api_version: API_VERSION,
                    machine: machine(CODE),
                    tasks: Vec::new(),
                })),
            ),
            (
                peer("00000000-0000-4000-8000-000000000004", Reachability::Online),
                Some(Err("timed out".into())),
            ),
        ],
    );
    let list = fleet_tasks(
        machine(MAIN),
        "main".into(),
        "1".into(),
        vec![summary(task, at, "running", None)],
        read,
    );
    assert_eq!(list.tasks.len(), 1);
    assert_eq!(list.machines.len(), 4);
    assert!(matches!(list.machines[0].location, MachineLocation::Local));
    let reasons: Vec<String> = list.machines[1..]
        .iter()
        .map(|machine| match &machine.read {
            MachineRead::Online => "online".to_string(),
            MachineRead::Unavailable { message } => message.clone(),
        })
        .collect();
    assert_eq!(
        reasons,
        vec![
            "machine is offline".to_string(),
            "peer answered for another machine".to_string(),
            "timed out".to_string(),
        ]
    );
    assert!(matches!(
        &list.machines[1].location,
        MachineLocation::Peer { address: Some(address) } if address == "http://code"
    ));
}

#[test]
fn only_other_online_machines_are_read() {
    assert!(reads_peer(machine(MAIN), &peer(CODE, Reachability::Online)));
    assert!(!reads_peer(machine(MAIN), &peer(CODE, Reachability::Offline)));
    assert!(!reads_peer(machine(MAIN), &peer(MAIN, Reachability::Online)));
}

#[test]
fn a_peers_list_is_asked_for_with_the_same_filter() {
    let filter = TaskFilter::parse(ListQuery {
        status: Some(" running , ,queued".into()),
        thread: Some("01a0b19f-f048-7832-8e98-01618ccf44d7".into()),
    })
    .unwrap();
    assert_eq!(filter.statuses, vec![ProcessStatus::Running, ProcessStatus::Queued]);
    assert_eq!(
        peer_list_path(machine(CODE), &filter),
        format!(
            "/v1/cluster/task-list?status=running,queued&thread=01a0b19f-f048-7832-8e98-01618ccf44d7&api_version=1&destination_machine={CODE}"
        )
    );
    let all = TaskFilter::parse(ListQuery { status: None, thread: None }).unwrap();
    assert_eq!(
        peer_list_path(machine(CODE), &all),
        format!("/v1/cluster/task-list?api_version=1&destination_machine={CODE}")
    );
}

#[test]
fn a_bad_filter_names_its_part() {
    assert!(matches!(
        TaskFilter::parse(ListQuery { status: Some("queued, odd ,worse".into()), thread: None }),
        Err(AppError::Usage { message }) if message == "invalid status odd"
    ));
    assert!(matches!(
        TaskFilter::parse(ListQuery { status: None, thread: Some("x".into()) }),
        Err(AppError::Usage { message }) if message == "invalid thread x"
    ));
    let blank = TaskFilter::parse(ListQuery {
        status: Some("\u{2003},\t".into()),
        thread: None,
    })
    .unwrap();
    assert!(blank.statuses.is_empty());
    assert!(cluster_task_list(
        machine(MAIN),
        ClusterTaskListQuery {
            api_version: API_VERSION,
            destination_machine: machine(MAIN),
            status: Some("lost".into()),
            thread: None,
        },
    )
    .is_ok());
    assert!(matches!(
        cluster_task_list(
            machine(MAIN),
            ClusterTaskListQuery {
                api_version: API_VERSION,
                destination_machine: machine(CODE),
                status: None,
                thread: None,
            },
        ),
        Err(AppError::MachineIdentityMismatch { .. })
    ));
}

fn stored() -> StoredTask {
    StoredTask {
        row: new_queued_task(
            TaskId(4),
            ThreadId(5),
            Span::from_millis(61_500),
            moment("2026-09-24T01:00:00Z"),
        ),
        name: Some("train".into()),
        display_name: "train".into(),
        workload: WorkloadView::Container {
            image: "img@sha256:00".into(),
            args: vec!["a".into()],
            gpus: Some("all".into()),
        },
        cwd: "/tmp".into(),
        exit_reason: None,
        cancel_requested_at: None,
        updated_at: moment("2026-09-24T02:00:00Z"),
        container_exit_evidence: ContainerExitEvidence::Unconfirmed,
    }
}

#[test]
fn a_summary_shows_what_its_metadata_says() {
    let mut task = stored();
    let plain = TaskSummary::from_row(&task, None);
    assert_eq!(plain.timeout_secs, 61);
    assert_eq!(plain.check_timeout, CheckTimeoutStatus::Pending);
    assert_eq!((plain.origin_machine, plain.execution_machine), (None, None));
    task.row.attention = AttentionState::Delivered;
    assert_eq!(TaskSummary::from_row(&task, None).check_timeout, CheckTimeoutStatus::Sent);

    let presentation = TaskPresentation {
        owners: Some(TaskOwners { origin_machine: machine(MAIN), execution_machine: machine(CODE) }),
        project_root: Some("/repo".into()),
        terminal_callback: TerminalCallbackProjection::NotOwned,
        attention_delivered: false,
    };
    let mut presentations = HashMap::new();
    presentations.insert(4u128, presentation);
    let list = TaskList::from_rows(&vec![task], &presentations);
    let shown = &list.tasks[0];
    assert_eq!(shown.execution_machine, Some(machine(CODE)));
    assert_eq!(shown.project_root.as_deref(), Some("/repo"));
    assert_eq!(shown.callback, CallbackStatus::Pending);
    assert_eq!(shown.check_timeout, CheckTimeoutStatus::Pending);
    assert!(matches!(&shown.workload, WorkloadView::Container { args, .. } if args.len() == 1));
}

#[test]
fn only_container_tasks_have_a_container() {
    let mut task = stored();
    let record = TaskContainerRecord { container_id: Some("c1".into()), started_at: None };
    let detail = ContainerDetail::from_row(&task, "box".into(), Some(&record)).unwrap();
    assert_eq!(detail.name, "box");
    assert_eq!(detail.image, "img@sha256:00");
    assert_eq!(detail.container_id.as_deref(), Some("c1"));
    task.workload = WorkloadView::Task { command: Vec::new() };
    assert!(ContainerDetail::from_row(&task, "box".into(), None).is_none());
}

#[test]
fn fleet_control_needs_its_version_and_a_fleet() {
    assert!(check_version(API_VERSION).is_ok());
    assert!(matches!(
        check_version(API_VERSION + 1),
        Err(AppError::Usage { message }) if message == "unsupported API version"
    ));
    assert!(enabled(true).is_ok());
    assert!(matches!(
        check_control(API_VERSION, false),
        Err(AppError::Usage { message }) if message == "fleet is disabled"
    ));
    let body = |text: &str| RemoveBody {
        api_version: API_VERSION,
        machine_or_address: text.to_string(),
    };
    assert!(matches!(
        remove(&body("http://x"), true, Some("http://x".into())),
        Ok(Removal::Address(address)) if address == "http://x"
    ));
    assert!(matches!(
        remove(&body(CODE), true, None),
        Ok(Removal::Machine(found)) if found == machine(CODE)
    ));
    assert!(matches!(
        remove(&body("neither"), true, None),
        Err(AppError::Usage { message }) if message == "expected a machine UUID or HTTP address"
    ));
}

#[test]
fn outside_a_fleet_only_this_machine_is_known() {
    let body = inventory(machine(MAIN), "main".into(), None);
    assert_eq!(body.local.machine, machine(MAIN));
    assert_eq!(body.local.identity, LocalIdentityStatus::Consistent);
    assert!(body.machines.is_empty() && body.unresolved.is_empty());
    assert!(probe_answer(Err("refused".into())).is_err());
    let probed = probe_answer(Ok(ProbedMachineView {
        machine: machine(CODE),
        name: "code".into(),
        compatible: false,
    }))
    .unwrap();
    assert!(!probed.machine.compatible);
    assert!(matches!(
        executor_event_detail::<u8>(TaskId(1), None),
        Err(AppError::TaskNotFound { .. })
    ));
}

#[test]
fn only_an_origin_has_an_inbox_for_a_task() {
    let InboxStep::AskRoute { next, .. } = origin_inbox_detail(TaskId(1)) else { panic!() };
    assert!(matches!(
        next.on_route(Ok(None)),
        InboxStep::Done(Err(AppError::RouteNotFound { task })) if task == TaskId(1)
    ));
}

fn answer(status: u16, execution: Option<ExecutionView>) -> PeerAnswer<ExecutionBody> {
    PeerAnswer { status, body: Some(ExecutionBody { api_version: API_VERSION, execution }) }
}

#[test]
fn a_lookup_needs_every_answer_to_call_a_task_missing() {
    let id = TaskId(9);
    let view = |on: MachineId| ExecutionView {
        task: id,
        execution_machine: on,
        status: ProcessStatus::Running,
    };
    let code = machine(CODE);
    let main = machine(MAIN);
    assert_eq!(
        lookup_peer(Ok(Some(answer(200, Some(view(code))))), code, id),
        Ok(Some(view(code)))
    );
    assert_eq!(lookup_peer(Ok(Some(answer(404, None))), code, id), Ok(None));
    let gap = |reason| Err(LookupGap { machine: code, reason });
    assert_eq!(
        lookup_peer(Ok(Some(answer(200, Some(view(main))))), code, id),
        gap(LookupGapReason::InvalidResponse)
    );
    assert_eq!(lookup_peer(Ok(None), code, id), gap(LookupGapReason::Unavailable));
    assert_eq!(
        lookup_peer(Err(ConnectFailure::Incompatible), code, id),
        gap(LookupGapReason::Incompatible)
    );

    let LookupStep::AskTask { next, .. } = lookup_task(main, id) else { panic!() };
    let LookupStep::AskPeers { next } = next.on_task(Ok(None)) else { panic!() };
    let outcome = |lookups| next.on_peers(Some(Ok(lookups))).unwrap().outcome;
    assert!(matches!(outcome(vec![Ok(None), Ok(None)]), LookupResult::NotFound));
    assert!(matches!(
        outcome(vec![Ok(None), gap(LookupGapReason::Unavailable)]),
        LookupResult::Incomplete { unchecked } if unchecked.len() == 1
    ));
    assert!(matches!(
        outcome(vec![Ok(Some(view(code))), gap(LookupGapReason::Unavailable)]),
        LookupResult::Found { execution, unchecked }
            if execution == view(code) && unchecked.len() == 1
    ));
    assert!(matches!(
        outcome(vec![Ok(Some(view(code))), Ok(Some(view(main)))]),
        LookupResult::OwnershipConflict { executions, .. } if executions.len() == 2
    ));
    assert!(matches!(
        next.on_peers(Some(Err("gone".into()))),
        Err(AppError::Internal { message }) if message == "fleet lookup worker failed: gone"
    ));
    assert!(matches!(next.on_peers(None).unwrap().outcome, LookupResult::NotFound));
}

#[test]
fn an_incompatible_peer_is_told_apart() {
    let range = ProtocolRange::new(1, 2).unwrap();
    assert_eq!(
        connect_failure(&AppError::ClusterProtocolIncompatible {
            machine: machine(CODE),
            local: range,
            remote: range,
        }),
        ConnectFailure::Incompatible
    );
    assert_eq!(
        connect_failure(&AppError::MachineNotFound { machine: "x".into() }),
        ConnectFailure::Unavailable
    );
    assert!(ProtocolRange::new(2, 1).is_none());
}
