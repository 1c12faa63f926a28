//! Events, submissions and cancellations between machines.

use homebased_daemon::actors::store::StoreMsg;
use homebased_daemon::actors::supervisor::messages::SupervisorMsg;
use homebased_daemon::api::Invocation;
use homebased_daemon::cancel_delivery::{self, apply_executor, ApplyStep, DeliverStep};
use homebased_daemon::cancellation::{
    CancellationDelivery, CancellationReceipt, CancellationRequest, ExecutorCancelState,
};
use homebased_daemon::cluster::resource_request::{
    accept_resource_request, resource_route_proof, AcceptStep, ProofRead, ResourceQueueRequest,
};
use homebased_daemon::cluster::submit::{
    preview_execution, submit_execution, CwdKind, PreviewExecution, PreviewStep, SubmitExecution,
    SubmitStep,
};
use homebased_daemon::cluster::{
    abandon_execution, cancel_execution, executor_identity, receive_event, AbandonExecution,
    CancelExecution, CancelStep, OriginResourceRouteProofBody, ReceiveEvent, ReceiveStep,
    StdinPolicy,
};
use homebased_daemon::domain::{
    new_queued_task, CancelResult, NormalizedSpec, NormalizedWorkload, ProcessStatus, SpecDigest,
    TaskEnv,
};
use homebased_daemon::error::AppError;
use homebased_daemon::event_sender::{
    classify_error, deliver, on_orphaned, origin_accepted, schedule_event_cleanup, send_remote,
    CleanupBatch, DeliveryResult, ErrorDetail, EventReply, LocalFleet, OriginResponse, RefusalStep,
    RemoteResult, RemoteStep, SendStep, EVENT_CLEANUP_CATCHUP_SECS, EVENT_CLEANUP_INTERVAL_SECS,
    MAX_EVENTS_PER_CYCLE,
};
use homebased_daemon::events::{EventAcceptance, EventPayload, TaskEvent};
use homebased_daemon::fleet::{HttpStatus, API_VERSION, CLUSTER_PROTOCOL_VERSION};
use homebased_daemon::ids::{
    ActionId, CancellationId, MachineId, RequestId, ResourceId, TaskId, ThreadId,
};
use homebased_daemon::resource::ReturnDecisionWindow;
use homebased_daemon::submission::{ExecutionRecord, ExecutorIdentity, SavedSpec};
use homebased_daemon::time::{Span, Timestamp};

const TASK: TaskId = TaskId(1);
const LOCAL: MachineId = MachineId(2);
const PEER: MachineId = MachineId(3);

fn event(origin: MachineId, seq: u64) -> TaskEvent {
    TaskEvent {
        task: TASK,
        origin_machine: origin,
        execution_machine: LOCAL,
        seq,
        payload: EventPayload::State { state: ProcessStatus::Running },
    }
}

fn env() -> TaskEnv {
    TaskEnv { path: "/bin".into(), home: "/home/u".into() }
}

fn retried(step: SendStep) -> String {
    match step {
        SendStep::Done { result: DeliveryResult::Retry(reason), .. } => reason,
        other => panic!("expected a retry, got {other:?}"),
    }
}

#[test]
fn local_events_are_accepted_in_order() {
    let SendStep::AskFirst { next, .. } = deliver(TASK, LOCAL) else { panic!() };
    let mut step = next.on_first(Ok(Some(event(LOCAL, 5))));
    for seq in 5..5 + u64::from(MAX_EVENTS_PER_CYCLE) {
        let SendStep::AskEvent {
            message: StoreMsg::OutboundEventAtOrAfter { seq: asked, .. },
            next,
        } = step
        else {
            panic!("event {seq} comes next")
        };
        assert_eq!(asked, seq);
        let SendStep::AskAccept { next, .. } = next.on_event(Ok(Some(event(LOCAL, seq)))) else {
            panic!()
        };
        let SendStep::AskAcknowledge { dispatch, next, .. } =
            next.on_accepted(Ok(EventAcceptance::Acknowledged { seq }))
        else {
            panic!()
        };
        assert!(dispatch);
        step = next.on_acknowledged(Ok(()));
    }
    assert!(matches!(
        step,
        SendStep::Done { dispatch: false, result: DeliveryResult::Progress }
    ));
}

#[test]
fn an_origin_asks_for_each_gap_once() {
    let SendStep::AskFirst { next, .. } = deliver(TASK, LOCAL) else { panic!() };
    let SendStep::CheckFleet { next, .. } = next.on_first(Ok(Some(event(PEER, 9)))) else {
        panic!()
    };
    let SendStep::Connect { origin, next } = next.on_fleet(LocalFleet::Consistent) else {
        panic!()
    };
    assert_eq!(origin, PEER);
    let SendStep::Reconnect { next, .. } = next.on_connected(None) else { panic!() };
    let SendStep::AskEvent { next, .. } = next.on_connected(Ok(2)) else { panic!() };
    let SendStep::Send { protocol: 2, next, .. } = next.on_event(Ok(Some(event(PEER, 9)))) else {
        panic!()
    };
    let gap = || Ok(RemoteResult::Accepted(EventAcceptance::Expected { seq: 7 }));
    let SendStep::AskEvent { next, .. } = next.on_sent(gap()) else { panic!() };
    assert_eq!(next.sending.seq, 7);
    let SendStep::Send { next, .. } = next.on_event(Ok(Some(event(PEER, 7)))) else { panic!() };
    assert_eq!(retried(next.on_sent(gap())), "origin repeated the same sequence gap");
}

#[test]
fn odd_answers_put_a_task_off() {
    let sending = || {
        let SendStep::AskFirst { next, .. } = deliver(TASK, LOCAL) else { panic!() };
        let SendStep::CheckFleet { next, .. } = next.on_first(Ok(Some(event(PEER, 9)))) else {
            panic!()
        };
        next
    };
    assert_eq!(
        retried(sending().on_fleet(LocalFleet::Disabled)),
        "fleet is disabled for remote origin"
    );
    assert_eq!(
        retried(sending().on_fleet(LocalFleet::Duplicated)),
        "local machine identity is duplicated"
    );
    let asked = || {
        let SendStep::Connect { next, .. } = sending().on_fleet(LocalFleet::Consistent) else {
            panic!()
        };
        let SendStep::AskEvent { next, .. } = next.on_connected(Some(2)) else { panic!() };
        next
    };
    assert_eq!(
        retried(asked().on_event(Ok(Some(event(PEER, 11))))),
        "outbox sequence 9 is missing"
    );
    let sent = || {
        let SendStep::Send { next, .. } = asked().on_event(Ok(Some(event(PEER, 9)))) else {
            panic!()
        };
        next
    };
    for odd in [
        EventAcceptance::Acknowledged { seq: 8 },
        EventAcceptance::Expected { seq: 0 },
        EventAcceptance::Expected { seq: 10 },
    ] {
        assert_eq!(
            retried(sent().on_sent(Ok(RemoteResult::Accepted(odd)))),
            "origin response did not match event sequence"
        );
    }
    assert!(matches!(sent().on_sent(Ok(RemoteResult::Orphaned)), SendStep::AskOrphan { .. }));
    assert!(matches!(on_orphaned(Ok(())), DeliveryResult::Orphaned));
}

#[test]
fn an_origins_answer_is_checked_before_it_counts() {
    let reply = |api_version, protocol_version| {
        Ok(EventReply {
            api_version,
            protocol_version,
            result: EventAcceptance::Acknowledged { seq: 1 },
        })
    };
    assert!(matches!(
        origin_accepted(reply(API_VERSION, 2), 2),
        RemoteResult::Accepted(EventAcceptance::Acknowledged { seq: 1 })
    ));
    let refused = |body| match origin_accepted(body, 2) {
        RemoteResult::Retry(reason) => reason,
        _ => panic!("expected a retry"),
    };
    assert_eq!(refused(reply(API_VERSION + 1, 2)), "origin API response differs");
    assert_eq!(refused(reply(API_VERSION, 1)), "origin protocol response differs");
    assert_eq!(refused(Err("eof".into())), "invalid origin acknowledgement: eof");
}

#[test]
fn only_a_verified_origin_can_orphan_a_route() {
    let status = |code| HttpStatus::new(code).unwrap();
    let detail = |code: &str, task: Option<String>| Some(ErrorDetail { code: code.into(), task });
    assert!(matches!(
        classify_error(status(404), detail("route_not_found", Some(TASK.text())), TASK),
        RefusalStep::Verify
    ));
    let refused = |code, detail| match classify_error(status(code), detail, TASK) {
        RefusalStep::Retry { probe, reason } => (probe, reason),
        RefusalStep::Verify => panic!("expected a retry"),
    };
    assert_eq!(refused(502, None), (false, "origin returned HTTP 502 Bad Gateway".to_string()));
    assert_eq!(
        refused(409, detail("machine_identity_mismatch", None)),
        (true, "origin address changed identity".to_string())
    );
    assert_eq!(
        refused(404, detail("route_not_found", Some(TaskId(9).text()))),
        (false, "origin returned 404 Not Found: route_not_found".to_string())
    );
}

#[test]
fn an_event_is_posted_to_its_origin() {
    let (request, next) = send_remote(event(PEER, 9), 2);
    assert_eq!((request.api_version, request.protocol_version), (API_VERSION, 2));
    assert_eq!((request.destination_machine, request.event.seq), (PEER, 9));
    let refused = OriginResponse::Unreachable("connection refused".into());
    assert!(matches!(
        next.on_response(refused),
        RemoteStep::Done(RemoteResult::Retry(text)) if text == "connection refused"
    ));
    let answered = |code, result, detail: Option<ErrorDetail>| {
        let reply = EventReply { api_version: API_VERSION, protocol_version: 2, result };
        OriginResponse::Answered { status: HttpStatus::new(code).unwrap(), reply: Ok(reply), detail }
    };
    let acknowledged = EventAcceptance::Acknowledged { seq: 9 };
    assert!(matches!(
        next.on_response(answered(200, acknowledged, None)),
        RemoteStep::Done(RemoteResult::Accepted(EventAcceptance::Acknowledged { seq: 9 }))
    ));
    assert!(matches!(
        next.on_response(answered(201, acknowledged, None)),
        RemoteStep::Done(RemoteResult::Retry(text)) if text == "origin returned HTTP 201 Created"
    ));
    let detail = |code: &str, task| Some(ErrorDetail { code: code.into(), task });
    assert!(matches!(
        next.on_response(answered(409, acknowledged, detail("machine_identity_mismatch", None))),
        RemoteStep::Probe { reason } if reason == "origin address changed identity"
    ));
    let gone = detail("route_not_found", Some(TASK.text()));
    assert!(matches!(
        next.on_response(answered(404, acknowledged, gone)),
        RemoteStep::Verify { origin } if origin == PEER
    ));
    assert!(matches!(next.on_verified("b1", Some("b1")), RemoteStep::Done(RemoteResult::Orphaned)));
    for current in [None, Some("b2")] {
        assert!(matches!(
            next.on_verified("b1", current),
            RemoteStep::Probe { reason } if reason == "origin identity changed during route check"
        ));
    }
}

#[test]
fn old_payloads_are_compacted_in_batches() {
    let more = CleanupBatch { compacted: 10, has_more: true };
    assert_eq!(
        schedule_event_cleanup(Some(more), 4),
        (0, Span::from_secs(EVENT_CLEANUP_CATCHUP_SECS))
    );
    let last = CleanupBatch { compacted: 0, has_more: false };
    assert_eq!(
        schedule_event_cleanup(Some(last), 4),
        (0, Span::from_secs(EVENT_CLEANUP_INTERVAL_SECS))
    );
    assert_eq!(schedule_event_cleanup(None, 0), (1, Span::from_secs(5)));
    assert_eq!(schedule_event_cleanup(None, u32::MAX), (u32::MAX, Span::from_secs(900)));
}

fn spec(cwd: &str) -> NormalizedSpec {
    NormalizedSpec {
        thread: ThreadId(4),
        name: "t".into(),
        cwd: cwd.into(),
        timeout: Span::from_secs(60),
        machine: None,
        workload: NormalizedWorkload::Task { command: vec!["true".into()] },
    }
}

fn submission(origin: MachineId, cwd: &str) -> SubmitExecution {
    SubmitExecution {
        api_version: API_VERSION,
        protocol_version: CLUSTER_PROTOCOL_VERSION,
        destination_machine: LOCAL,
        origin_machine: origin,
        task: TASK,
        spec: Ok(spec(cwd)),
        unknown: Vec::new(),
    }
}

fn stored(body: SubmitExecution, existing: Option<ExecutorIdentity>) -> SubmitStep {
    let SubmitStep::AskExisting { next, .. } = submit_execution(LOCAL, body) else { panic!() };
    next.on_existing(Ok(existing), Some("/home/u"))
}

fn rejected(step: SubmitStep) -> String {
    match step {
        SubmitStep::AskReject { message: StoreMsg::RejectExecution { tombstone }, .. } => {
            tombstone.reason
        }
        other => panic!("expected a rejection, got {other:?}"),
    }
}

fn accepted(name: &str) -> ExecutorIdentity {
    let mut spec = spec("/srv");
    spec.name = name.into();
    ExecutorIdentity::Accepted(ExecutionRecord {
        task: TASK,
        origin_machine: PEER,
        execution_machine: LOCAL,
        spec: SavedSpec::Current(spec),
        state: ProcessStatus::Queued,
    })
}

#[test]
fn a_submission_that_can_never_run_is_rejected_for_good() {
    assert_eq!(rejected(stored(submission(LOCAL, "/srv"), None)), "origin_equals_executor");
    let mut unknown = submission(PEER, "/srv");
    unknown.unknown.push("extra".into());
    assert_eq!(rejected(stored(unknown, None)), "invalid_request_fields");
    let mut invalid = submission(PEER, "/srv");
    invalid.spec = Err(AppError::Usage { message: "bad".into() });
    assert_eq!(rejected(stored(invalid, None)), "invalid_spec");
    assert_eq!(rejected(stored(submission(PEER, "srv"), None)), "invalid_cwd");
    let cwd = |kind| {
        let SubmitStep::InspectCwd { cwd, next } = stored(submission(PEER, "~/repo"), None) else {
            panic!()
        };
        assert_eq!(cwd, "/home/u/repo");
        next.on_cwd(kind, env())
    };
    assert_eq!(rejected(cwd(CwdKind::NotFound)), "cwd_not_found");
    assert_eq!(rejected(cwd(CwdKind::NotDirectory)), "cwd_not_directory");
    assert!(matches!(
        cwd(CwdKind::Failed("io".into())),
        SubmitStep::Done(Err(AppError::RemoteSubmissionUnavailable { message }))
            if message == "cannot inspect executor cwd: io"
    ));
}

#[test]
fn an_exact_retry_gets_the_same_identity() {
    assert!(matches!(
        stored(submission(PEER, "/srv"), Some(accepted("t"))),
        SubmitStep::Done(Ok(body)) if body.identity.is_some()
            && body.protocol_version == CLUSTER_PROTOCOL_VERSION
    ));
    assert!(matches!(
        stored(submission(PEER, "/srv"), Some(accepted("other"))),
        SubmitStep::Done(Err(AppError::ClusterTaskConflict { task })) if task == TASK
    ));
    let SubmitStep::InspectCwd { next, .. } = stored(submission(PEER, "/srv"), None) else {
        panic!()
    };
    let SubmitStep::ResolveBinary { path, cwd, next } = next.on_cwd(CwdKind::Directory, env())
    else {
        panic!()
    };
    assert_eq!((path.as_str(), cwd.as_str()), ("/bin", "/srv"));
    let SubmitStep::Launch { request, next } =
        next.on_binary(Ok("/bin/true".into()), Timestamp::new(0, 0).unwrap())
    else {
        panic!()
    };
    assert_eq!((request.origin, request.execution), (PEER, LOCAL));
    assert_eq!(request.placement.cwd, "/srv");
    assert!(matches!(next.on_launched(Ok(accepted("t"))), SubmitStep::Done(Ok(_))));
}

#[test]
fn a_preview_expands_the_directory() {
    let body = |destination_machine| PreviewExecution {
        api_version: API_VERSION,
        protocol_version: CLUSTER_PROTOCOL_VERSION,
        destination_machine,
        spec: Ok(spec("~/repo")),
    };
    let PreviewStep::CheckCwd { cwd, next } =
        preview_execution(LOCAL, body(LOCAL), Some("/home/u"))
    else {
        panic!()
    };
    assert_eq!(cwd, "/home/u/repo");
    let PreviewStep::Build { path, feed, next } = next.on_checked(Ok(()), env(), "/state") else {
        panic!()
    };
    assert_eq!(path, "/bin");
    assert_eq!(feed, "/state/tasks/<task-id>/prompt.feed.txt");
    assert_eq!(next.spec.cwd, "/home/u/repo");
    let built = Invocation {
        argv: vec!["true".into()],
        stdin: StdinPolicy::Null,
        managed_environment: None,
    };
    let PreviewStep::Done(Ok(shown)) = next.on_invocation(Ok(built)) else { panic!() };
    assert_eq!((shown.cwd.as_str(), shown.argv.len()), ("/home/u/repo", 1));
    assert!(matches!(
        preview_execution(LOCAL, body(PEER), Some("/home/u")),
        PreviewStep::Done(Err(AppError::MachineIdentityMismatch { .. }))
    ));
}

#[test]
fn an_event_wakes_its_inbox_when_it_is_new() {
    let body = ReceiveEvent {
        api_version: API_VERSION,
        protocol_version: CLUSTER_PROTOCOL_VERSION,
        destination_machine: LOCAL,
        event: event(LOCAL, 4),
    };
    let ReceiveStep::AskAccept { next, .. } = receive_event(LOCAL, body) else { panic!() };
    let (dispatch, answer) = next.on_accepted(Ok(EventAcceptance::Acknowledged { seq: 4 }));
    assert_eq!(dispatch, Some(TASK));
    assert_eq!(answer.unwrap().result, EventAcceptance::Acknowledged { seq: 4 });
    let (dispatch, _) = next.on_accepted(Ok(EventAcceptance::Expected { seq: 2 }));
    assert_eq!(dispatch, None);
}

fn cancellation() -> CancellationRequest {
    CancellationRequest {
        requester_machine: PEER,
        cancellation: CancellationId(8),
        task: TASK,
        origin_machine: PEER,
        execution_machine: LOCAL,
        delivery: CancellationDelivery::Pending,
    }
}

fn receipt(state: ExecutorCancelState) -> CancellationReceipt {
    CancellationReceipt { request: cancellation().identity(), state }
}

#[test]
fn a_received_cancellation_is_applied_once() {
    let body = CancelExecution {
        api_version: API_VERSION,
        protocol_version: CLUSTER_PROTOCOL_VERSION,
        request: cancellation().identity(),
    };
    let CancelStep::AskReceive { next, .. } = cancel_execution(LOCAL, &body) else { panic!() };
    let CancelStep::Apply { next, .. } =
        next.on_received(Ok(receipt(ExecutorCancelState::PendingApplication)))
    else {
        panic!()
    };
    let applied = receipt(ExecutorCancelState::Applied { status: ProcessStatus::Cancelled });
    assert_eq!(next.on_applied(Some(applied)).receipt, applied);
    assert_eq!(
        next.on_applied(None).receipt.state,
        ExecutorCancelState::PendingApplication
    );
    let CancelStep::AskReceive { next, .. } = cancel_execution(LOCAL, &body) else { panic!() };
    assert!(matches!(next.on_received(Ok(applied)), CancelStep::Done(Ok(_))));
}

#[test]
fn a_cancelled_task_settles_its_receipt() {
    let pending = receipt(ExecutorCancelState::PendingApplication);
    let ApplyStep::AskCancel { message: SupervisorMsg::Cancel { id }, next } =
        apply_executor(pending)
    else {
        panic!()
    };
    assert_eq!(id, TASK);
    let row =
        new_queued_task(TASK, ThreadId(4), Span::from_secs(60), Timestamp::new(0, 0).unwrap());
    assert!(matches!(
        next.on_cancelled(Ok(CancelResult::CancelledQueued(row))),
        ApplyStep::AskFinish { .. }
    ));
    let ApplyStep::AskCancel { next, .. } = apply_executor(pending) else { panic!() };
    let ApplyStep::AskIdentity { next, .. } =
        next.on_cancelled(Err(AppError::TaskNotFound { id: TASK }))
    else {
        panic!()
    };
    assert!(matches!(next.on_identity(Ok(None)), ApplyStep::Failed(_)));
}

#[test]
fn a_cancellation_goes_to_its_executor() {
    let mut remote = cancellation();
    remote.execution_machine = MachineId(9);
    let DeliverStep::Connect { machine, next } = cancel_delivery::deliver(LOCAL, &remote) else {
        panic!()
    };
    assert_eq!(machine, MachineId(9));
    let DeliverStep::Post { body, .. } = next.on_destination(Ok(Some(2))) else { panic!() };
    assert_eq!((body.protocol_version, body.request), (2, remote.identity()));
    let DeliverStep::Connect { next, .. } = cancel_delivery::deliver(LOCAL, &remote) else {
        panic!()
    };
    assert!(matches!(next.on_destination(Ok(None)), DeliverStep::Done(Err(_))));
    assert!(matches!(
        cancel_delivery::deliver(LOCAL, &cancellation()),
        DeliverStep::AskReceive { .. }
    ));
}

#[test]
fn an_abandoned_task_is_fenced_here() {
    let body = AbandonExecution {
        api_version: API_VERSION,
        protocol_version: CLUSTER_PROTOCOL_VERSION,
        destination_machine: LOCAL,
        origin_machine: PEER,
        task: TASK,
    };
    assert!(matches!(
        abandon_execution(LOCAL, &body),
        Ok(StoreMsg::AbandonExecution { id, .. }) if id == TASK
    ));
    assert!(abandon_execution(PEER, &body).is_err());
    assert!(executor_identity(None).identity.is_none());
}

#[test]
fn a_queue_request_is_accepted_only_with_its_proof() {
    let request = |origin_machine| ResourceQueueRequest {
        api_version: API_VERSION,
        protocol_version: CLUSTER_PROTOCOL_VERSION,
        destination_machine: LOCAL,
        origin_machine,
        request_id: RequestId(5),
        task_id: TASK,
        resource_id: ResourceId(6),
        spec: spec("/srv"),
        spec_digest: Ok(SpecDigest { high: 1, low: 2 }),
    };
    assert!(matches!(
        accept_resource_request(LOCAL, request(LOCAL)),
        AcceptStep::AskRoute { .. }
    ));
    let AcceptStep::FetchProof { origin, next, .. } =
        accept_resource_request(LOCAL, request(PEER))
    else {
        panic!()
    };
    assert_eq!(origin, PEER);
    assert!(matches!(next.on_proof(Ok(None)), AcceptStep::Done(Err(_))));
    assert!(resource_route_proof(ProofRead::FleetDisabled).is_err());
    let answered = |code, body| ProofRead::Answered { status: HttpStatus::new(code).unwrap(), body };
    assert!(matches!(
        resource_route_proof(answered(500, Err("eof".into()))),
        Err(AppError::RemoteSubmissionUnavailable { message })
            if message
                == "origin resource-route proof is unavailable: HTTP 500 Internal Server Error"
    ));
    assert!(matches!(
        resource_route_proof(answered(200, Err("eof".into()))),
        Err(AppError::RemoteSubmissionUnavailable { message })
            if message == "invalid origin resource-route proof: eof"
    ));
    let body = OriginResourceRouteProofBody { api_version: API_VERSION, proof: None };
    assert!(resource_route_proof(answered(200, Ok(body))).unwrap().is_none());
}

#[test]
fn a_return_window_counts_down_to_its_deadline() {
    let window =
        ReturnDecisionWindow { action_id: ActionId(1), deadline_at: Timestamp::new(100, 0).unwrap() };
    assert_eq!(window.remaining_at(Timestamp::new(40, 0).unwrap()), Span::from_secs(60));
    assert!(window.remaining_at(Timestamp::new(100, 0).unwrap()).is_zero());
    assert!(window.remaining_at(Timestamp::new(200, 0).unwrap()).is_zero());
}
