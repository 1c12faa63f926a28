//! Fleet task inspection.

use homebased_daemon::actors::store::StoreMsg;
use homebased_daemon::cancellation::CancellationOwner;
use homebased_daemon::cluster::{
    ExecutionBody, ExecutionView, IdentitySummary, IdentitySummaryBody, OriginBody, OriginSummary,
};
use homebased_daemon::domain::ProcessStatus;
use homebased_daemon::error::AppError;
use homebased_daemon::fleet::{ClusterResponse, HttpStatus, API_VERSION};
use homebased_daemon::fleet_api::{
    LocalIdentityStatus, LocalView, MachinesBody, PeerView, Reachability,
};
use homebased_daemon::ids::{ActionId, MachineId, RequestId, ResourceId, TaskId, ThreadId};
use homebased_daemon::inspection::{
    cancellation_owner, cancellation_target, connect_or_hints, log, log_path, lookup,
    message_origin_route, origin_address_hints, peer_paths, read_peer, remote_path, remote_read,
    show, show_unreadable, Availability, AwaitProbe, CompactSubmission, ConnectStep, LookupStep,
    PeerAnswer, PeerAnswers, PeerRecords, Records, ShowStep,
};
use homebased_daemon::resource::{
    AssignmentRevision, BackgroundLaunchBinding, BackgroundSupervisorAssignment, ResourceRevision,
    SupervisorAddress,
};
use homebased_daemon::submission::{
    ActionRouteBinding, BoundRoutePhase, ResourceRoutePhase, SubmissionState,
};

fn fresh() -> u128 {
    uuid::Uuid::now_v7().as_u128()
}

fn origin_summary(
    task: TaskId,
    request_id: RequestId,
    origin_machine: MachineId,
    execution_machine: MachineId,
    submission: SubmissionState,
) -> OriginSummary {
    OriginSummary {
        task,
        request_id,
        origin_machine,
        execution_machine,
        thread: ThreadId(fresh()),
        submission,
        last_execution_state: None,
        last_updated_at: None,
        last_accepted_seq: 0,
        last_settled_seq: 0,
        failed_events: Vec::new(),
    }
}

#[test]
fn resource_cancellation_target_keeps_its_full_identity() {
    let task = TaskId(fresh());
    let request_id = RequestId(fresh());
    let resource_id = ResourceId(fresh());
    let origin_machine = MachineId(fresh());
    let authority_machine = MachineId(fresh());
    let route = origin_summary(
        task,
        request_id,
        origin_machine,
        authority_machine,
        SubmissionState::Resource { resource: resource_id, phase: ResourceRoutePhase::Waiting },
    );

    let CancellationOwner::Resource(target) =
        cancellation_target(task, origin_machine, &route).unwrap()
    else {
        panic!("resource routes must keep their authority-owned target type");
    };
    assert_eq!(target.request_id, request_id);
    assert_eq!(target.task_id, task);
    assert_eq!(target.resource_id, resource_id);
    assert_eq!(target.origin_machine, origin_machine);
    assert_eq!(target.authority_machine, authority_machine);
    assert!(matches!(target.phase, ResourceRoutePhase::Waiting));
}

#[test]
fn resource_cancellation_target_rejects_wrong_task_or_origin_identity() {
    let task = TaskId(fresh());
    let origin_machine = MachineId(fresh());
    let route = origin_summary(
        task,
        RequestId(fresh()),
        origin_machine,
        MachineId(fresh()),
        SubmissionState::Resource {
            resource: ResourceId(fresh()),
            phase: ResourceRoutePhase::AcceptanceUnknown,
        },
    );

    assert!(matches!(
        cancellation_target(TaskId(fresh()), origin_machine, &route),
        Err(AppError::ClusterTaskConflict { .. })
    ));
    assert!(matches!(
        cancellation_target(task, MachineId(fresh()), &route),
        Err(AppError::ClusterTaskConflict { .. })
    ));
}

#[test]
fn rejected_execution_route_cannot_become_a_cancellation_target() {
    let task = TaskId(fresh());
    let origin_machine = MachineId(fresh());
    let route = origin_summary(
        task,
        RequestId(fresh()),
        origin_machine,
        MachineId(fresh()),
        SubmissionState::Rejected { reason: "abandoned_before_acceptance".into() },
    );

    assert!(matches!(
        cancellation_target(task, origin_machine, &route),
        Err(AppError::TaskNotStarted { task: found }) if found == task
    ));
}

#[test]
fn unresolved_background_launch_cannot_become_a_cancellation_target() {
    let task = TaskId(fresh());
    let origin_machine = MachineId(fresh());
    let authority_machine = MachineId(fresh());
    let binding = BackgroundLaunchBinding {
        assignment: BackgroundSupervisorAssignment {
            authority_machine,
            resource_id: ResourceId(fresh()),
            supervisor: SupervisorAddress {
                machine: origin_machine,
                thread: ThreadId(fresh()),
            },
            assignment_revision: AssignmentRevision(1),
        },
        expected_state_revision: ResourceRevision(1),
    };
    // a cancellation must never fence the fixed launch identity before acceptance
    for phase in [
        BoundRoutePhase::AcceptanceUnknown,
        BoundRoutePhase::Rejected { reason: "resource_not_found".into() },
    ] {
        let route = origin_summary(
            task,
            RequestId(fresh()),
            origin_machine,
            authority_machine,
            SubmissionState::ResourceBackground { binding, phase },
        );

        assert!(matches!(
            cancellation_target(task, origin_machine, &route),
            Err(AppError::ClusterTaskConflict { task: found }) if found == task
        ));
    }
}

#[test]
fn duplicate_routes_with_different_resource_request_ids_conflict() {
    let task = TaskId(fresh());
    let origin_machine = MachineId(fresh());
    let authority_machine = MachineId(fresh());
    let resource_id = ResourceId(fresh());
    let submission = SubmissionState::Resource {
        resource: resource_id,
        phase: ResourceRoutePhase::Waiting,
    };
    let mut records = Records::new();
    records.routes.insert(
        MachineId(fresh()),
        origin_summary(
            task,
            RequestId(fresh()),
            origin_machine,
            authority_machine,
            submission.clone(),
        ),
    );
    records.routes.insert(
        MachineId(fresh()),
        origin_summary(task, RequestId(fresh()), origin_machine, authority_machine, submission),
    );

    assert!(matches!(records.route(task), Err(AppError::ClusterTaskConflict { .. })));
}

const TASK: TaskId = TaskId(77);
const ORIGIN: MachineId = MachineId(1);
const EXECUTOR: MachineId = MachineId(2);
const OTHER: MachineId = MachineId(3);

fn accepted_route() -> OriginSummary {
    origin_summary(TASK, RequestId(5), ORIGIN, EXECUTOR, SubmissionState::Accepted)
}

fn execution(machine: MachineId) -> ExecutionView {
    ExecutionView { task: TASK, execution_machine: machine, status: ProcessStatus::Running }
}

fn accepted(machine: MachineId) -> IdentitySummary {
    IdentitySummary::Accepted {
        task: TASK,
        origin_machine: ORIGIN,
        execution_machine: machine,
        status: ProcessStatus::Running,
    }
}

#[test]
fn records_that_disagree_about_the_owner_conflict() {
    let mut records = Records::new();
    records.routes.insert(ORIGIN, accepted_route());
    records.executions.insert(EXECUTOR, execution(EXECUTOR));
    records.identities.insert(EXECUTOR, accepted(EXECUTOR));
    assert!(records.check_conflicts(TASK).is_ok());

    // a second execution of one task
    records.executions.insert(OTHER, execution(OTHER));
    assert!(matches!(
        records.check_conflicts(TASK),
        Err(AppError::ClusterTaskConflict { task }) if task == TASK
    ));

    // an identity on a machine that it does not name
    let mut records = Records::new();
    records.identities.insert(OTHER, accepted(EXECUTOR));
    assert!(records.check_conflicts(TASK).is_err());

    // a rejected route of work that an executor accepted
    let mut records = Records::new();
    let mut route = accepted_route();
    route.submission = SubmissionState::Rejected { reason: "gone".into() };
    records.routes.insert(ORIGIN, route);
    records.identities.insert(EXECUTOR, accepted(EXECUTOR));
    assert!(records.check_conflicts(TASK).is_err());
}

#[test]
fn a_peer_may_only_speak_of_its_own_records() {
    let answers = |machine: MachineId, status: u16| PeerAnswers {
        address: "http://peer".into(),
        execution: Some(PeerAnswer {
            status,
            body: Some(ExecutionBody {
                api_version: API_VERSION,
                execution: Some(execution(machine)),
            }),
        }),
        origin: Some(PeerAnswer {
            status: 200,
            body: Some(OriginBody { api_version: API_VERSION, origin: None }),
        }),
        identity: Some(PeerAnswer {
            status: 200,
            body: Some(IdentitySummaryBody { api_version: API_VERSION, identity: None }),
        }),
    };
    let records = read_peer(EXECUTOR, TASK, Some(answers(EXECUTOR, 200)));
    assert_eq!(records.execution, Some(execution(EXECUTOR)));
    assert!(!records.incomplete);
    assert_eq!(records.address.as_deref(), Some("http://peer"));
    // another machine's execution, or one that comes as not found, is no record
    assert!(read_peer(EXECUTOR, TASK, Some(answers(OTHER, 200))).incomplete);
    assert!(read_peer(EXECUTOR, TASK, Some(answers(EXECUTOR, 404))).incomplete);
    assert!(read_peer(EXECUTOR, TASK, Some(answers(EXECUTOR, 500))).incomplete);
    let missing = read_peer(EXECUTOR, TASK, None);
    assert!(missing.incomplete && missing.address.is_none() && missing.execution.is_none());
}

fn unchecked(machine: MachineId) -> PeerRecords {
    PeerRecords {
        machine,
        execution: None,
        route: None,
        identity: None,
        incomplete: true,
        address: None,
    }
}

#[test]
fn a_lookup_asks_each_peer_once_and_then_the_named_executors() {
    let LookupStep::AskRoute { message: StoreMsg::OriginRoute { id }, next } =
        lookup(ORIGIN, TASK)
    else {
        panic!("the local route comes first");
    };
    assert_eq!(id, TASK);
    let LookupStep::AskIdentity { next, .. } = next.on_route(Ok(None)) else {
        panic!("no route, so no failures");
    };
    let LookupStep::ListPeers { next } = next.on_identity(Ok(None)) else {
        panic!("then the peers");
    };
    let LookupStep::ReadPeers { machines, next } =
        next.on_peers(Some(vec![OTHER, ORIGIN, OTHER]))
    else {
        panic!("then every peer");
    };
    assert_eq!(machines, vec![OTHER]);
    let mut found = unchecked(OTHER);
    found.incomplete = false;
    let mut route = accepted_route();
    route.origin_machine = OTHER;
    found.route = Some(route);
    let LookupStep::ReadTarget { machine, hint, next } = next.on_peers(Ok(vec![found])) else {
        panic!("a route names an executor that was not listed");
    };
    assert_eq!((machine, hint), (EXECUTOR, Some(OTHER)));
    let LookupStep::Done(Ok(records)) = next.on_target(unchecked(EXECUTOR)) else {
        panic!("nothing is left to read");
    };
    assert_eq!(records.unchecked.machines(), vec![EXECUTOR]);
    assert_eq!(
        message_origin_route(TASK, &records).unwrap().0,
        OTHER
    );
}

#[test]
fn a_failed_reader_ends_a_lookup() {
    let LookupStep::AskRoute { next, .. } = lookup(ORIGIN, TASK) else { panic!() };
    let LookupStep::AskIdentity { next, .. } = next.on_route(Ok(None)) else { panic!() };
    let LookupStep::ListPeers { next } = next.on_identity(Ok(None)) else { panic!() };
    let LookupStep::ReadPeers { next, .. } = next.on_peers(Some(Vec::new())) else { panic!() };
    assert!(matches!(
        next.on_peers(Err("cancelled".into())),
        LookupStep::Done(Err(AppError::Internal { message }))
            if message == "fleet inspection worker failed: cancelled"
    ));
}

#[test]
fn a_missing_task_is_missing_only_when_every_machine_was_checked() {
    let mut records = Records::new();
    assert!(matches!(
        show(TASK, &records),
        ShowStep::Failed(AppError::TaskNotFound { id }) if id == TASK
    ));
    assert!(matches!(message_origin_route(TASK, &records), Err(AppError::TaskNotFound { .. })));
    records.add(unchecked(OTHER));
    assert!(matches!(
        show(TASK, &records),
        ShowStep::Failed(AppError::ClusterLookupIncomplete { unchecked, .. })
            if unchecked == vec![OTHER]
    ));
    assert!(matches!(log(TASK, &records), Err(AppError::ClusterLookupIncomplete { .. })));
    assert!(matches!(
        cancellation_owner(TASK, &records),
        Err(AppError::ClusterLookupIncomplete { .. })
    ));
}

#[test]
fn a_cancellation_needs_every_other_machine_checked() {
    let mut records = Records::new();
    records.routes.insert(ORIGIN, accepted_route());
    records.add(unchecked(EXECUTOR));
    assert!(matches!(
        cancellation_owner(TASK, &records),
        Ok(CancellationOwner::Execution(target))
            if target.origin_machine == ORIGIN && target.execution_machine == EXECUTOR
    ));
    records.add(unchecked(OTHER));
    assert!(matches!(
        cancellation_owner(TASK, &records),
        Err(AppError::ClusterLookupIncomplete { unchecked, .. }) if unchecked == vec![OTHER]
    ));

    // without a route nothing says who asked for the task
    let mut records = Records::new();
    records.identities.insert(EXECUTOR, accepted(EXECUTOR));
    assert!(matches!(
        cancellation_owner(TASK, &records),
        Err(AppError::ClusterTaskConflict { .. })
    ));
    assert!(matches!(
        message_origin_route(TASK, &records),
        Err(AppError::RouteNotFound { .. })
    ));
}

#[test]
fn an_unreadable_executor_leaves_the_origins_last_knowledge() {
    let mut records = Records::new();
    records.executions.insert(EXECUTOR, execution(EXECUTOR));
    assert!(matches!(
        show_unreadable(TASK, &records, EXECUTOR),
        ShowStep::Failed(AppError::TaskUnavailable { machine, .. }) if machine == EXECUTOR
    ));
    let mut route = accepted_route();
    route.last_execution_state = Some(ProcessStatus::Running);
    records.routes.insert(ORIGIN, route);
    let ShowStep::ReadDetail { annotation, failed_events } = show(TASK, &records) else {
        panic!("an execution is read at its executor");
    };
    assert_eq!(annotation.origin_machine, ORIGIN);
    assert_eq!(annotation.availability.as_str(), "available");
    assert!(failed_events.is_some());
    records.add(unchecked(EXECUTOR));
    let ShowStep::Cached(cached) = show_unreadable(TASK, &records, EXECUTOR) else {
        panic!("the route stands in");
    };
    assert_eq!(cached.status, Some(ProcessStatus::Running));
    assert_eq!(cached.annotation.availability, Availability::ExecutorUnavailable);
}

#[test]
fn an_unaccepted_action_shows_no_process_state() {
    let mut records = Records::new();
    let mut route = accepted_route();
    route.last_execution_state = Some(ProcessStatus::Running);
    route.submission = SubmissionState::ResourceAction {
        binding: ActionRouteBinding {
            resource: ResourceId(1),
            action_id: ActionId(2),
            expected_state_revision: ResourceRevision(3),
        },
        phase: BoundRoutePhase::Rejected { reason: "stale".into() },
    };
    records.routes.insert(ORIGIN, route);
    let ShowStep::Cached(cached) = show(TASK, &records) else { panic!() };
    assert_eq!(cached.status, None);
    assert_eq!(cached.annotation.availability.as_str(), "rejected");
    assert!(matches!(log(TASK, &records), Err(AppError::TaskUnavailable { .. })));
}

#[test]
fn a_retained_identity_is_shown_without_detail() {
    let mut records = Records::new();
    records.identities.insert(
        EXECUTOR,
        IdentitySummary::Rejected {
            task: TASK,
            origin_machine: ORIGIN,
            execution_machine: EXECUTOR,
            reason: "fenced".into(),
        },
    );
    let ShowStep::Identity(shown) = show(TASK, &records) else { panic!() };
    assert_eq!(shown.status, None);
    assert_eq!((shown.api_version, shown.id), (API_VERSION, TASK));
    assert_eq!(shown.reason.map(String::as_str), Some("fenced"));
    assert!(matches!(
        shown.submission,
        Some(CompactSubmission::Rejected { reason }) if reason == "fenced"
    ));
    assert!(!shown.detail_available);
    assert_eq!(shown.annotation.found_on, EXECUTOR);
    assert_eq!(shown.annotation.availability.as_str(), "detail_unavailable");
    assert!(matches!(log(TASK, &records), Err(AppError::TaskNotStarted { .. })));
}

#[test]
fn paths_carry_the_version_and_receiver() {
    let machine = MachineId(0x10);
    let query = "api_version=1&destination_machine=00000000-0000-0000-0000-000000000010";
    let task = "00000000-0000-0000-0000-00000000004d";
    let paths = peer_paths(machine, TASK);
    assert_eq!(paths.execution, format!("/v1/cluster/tasks/{task}?{query}"));
    assert_eq!(paths.origin, format!("/v1/cluster/origin/tasks/{task}?{query}"));
    assert_eq!(paths.identity, format!("/v1/cluster/identities/{task}?{query}"));
    assert_eq!(remote_path("/x", machine), format!("/x?{query}"));
    assert_eq!(
        remote_path(&log_path(TASK, Some(20)), machine),
        format!("/v1/cluster/tasks/{task}/log?tail=20&{query}")
    );
    assert_eq!(log_path(TASK, None), format!("/v1/cluster/tasks/{task}/log"));
}

fn reply(status: u16, body: &str) -> Result<ClusterResponse, String> {
    Ok(ClusterResponse { status: HttpStatus::new(status).unwrap(), body: body.as_bytes().to_vec() })
}

#[test]
fn a_remote_body_must_be_about_the_task() {
    let task = "00000000-0000-0000-0000-00000000004d";
    let good = format!("{{\"id\":\"{task}\",\"api_version\":1}}");
    assert!(remote_read(&reply(200, &good), EXECUTOR, TASK).is_ok());
    for (status, body) in [
        (404, good.as_str()),
        (200, "{\"id\":\"other\",\"api_version\":1}"),
        (200, "{\"id\":7,\"api_version\":1}"),
        (200, &format!("{{\"id\":\"{task}\",\"api_version\":2}}")),
        (200, &format!("{{\"id\":\"{task}\"}}")),
    ] {
        assert!(matches!(
            remote_read(&reply(status, body), EXECUTOR, TASK),
            Err(AppError::TaskUnavailable { task, machine }) if task == TASK && machine == EXECUTOR
        ));
    }
    assert!(matches!(
        remote_read(&reply(200, "nope"), EXECUTOR, TASK),
        Err(AppError::Internal { .. })
    ));
    assert!(matches!(
        remote_read(&Err("refused".into()), EXECUTOR, TASK),
        Err(AppError::MachineUnavailable { message, .. }) if message == "refused"
    ));
}

#[test]
fn hinted_addresses_are_tried_in_order() {
    assert!(matches!(connect_or_hints(OTHER, true, Vec::new()), ConnectStep::Connected));
    let ConnectStep::Probe { address, next } =
        connect_or_hints(OTHER, false, vec!["a".into(), "b".into()])
    else {
        panic!("the first hint is tried");
    };
    assert_eq!(address, "a");
    let AwaitProbe { machine, hints } = &next;
    assert_eq!((*machine, hints.len()), (OTHER, 1));
    let ConnectStep::Probe { address, next } = next.on_probe(false) else { panic!() };
    assert_eq!(address, "b");
    assert!(matches!(
        next.on_probe(false),
        ConnectStep::Failed(AppError::MachineUnavailable { message, .. })
            if message == "no verified executor address"
    ));
}

#[test]
fn hints_come_only_from_the_origins_own_inventory() {
    let inventory = |local: MachineId, status: u16| {
        Some(PeerAnswer {
            status,
            body: Some(MachinesBody {
                api_version: API_VERSION,
                local: LocalView {
                    machine: local,
                    name: "main".into(),
                    advertised: Vec::new(),
                    identity: LocalIdentityStatus::Consistent,
                },
                machines: vec![PeerView {
                    machine: EXECUTOR,
                    name: "code".into(),
                    version: "1".into(),
                    addresses: vec!["http://code".into()],
                    reachability: Reachability::Online,
                }],
                unresolved: Vec::new(),
            }),
        })
    };
    assert_eq!(
        origin_address_hints(&inventory(ORIGIN, 200), ORIGIN, EXECUTOR),
        vec!["http://code".to_string()]
    );
    assert!(origin_address_hints(&inventory(OTHER, 200), ORIGIN, EXECUTOR).is_empty());
    assert!(origin_address_hints(&inventory(ORIGIN, 500), ORIGIN, EXECUTOR).is_empty());
    assert!(origin_address_hints(&inventory(ORIGIN, 200), ORIGIN, OTHER).is_empty());
    assert!(origin_address_hints(&None, ORIGIN, EXECUTOR).is_empty());
}
