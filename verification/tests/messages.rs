//! Direct messages and supervisor notices.

use homebased_daemon::actors::store::StoreMsg;
use homebased_daemon::error::AppError;
use homebased_daemon::fleet::{ClusterResponse, HttpStatus, API_VERSION, CLUSTER_PROTOCOL_VERSION};
use homebased_daemon::ids::{
    ActionId, DeliveryAttemptId, LoanId, MachineId, MessageId, NoticeId, TaskId, ThreadId,
};
use homebased_daemon::message::{
    MessageAttempt, MessageDelivery, MessageReceipt, MessageRequest, MessageResponse,
    MessageSendRequest, MessageSource, MessageSourceSelector, MessageTarget,
    OutboundMessageBinding, Recipient, MESSAGE_BODY_MAX_BYTES,
};
use homebased_daemon::message_receiver::sessions::{
    collect_sessions, expand_receiver_cwd, has_sessions, is_rollout, read_session_meta,
    resolve_destination_sync, session_directory, session_meta, session_unavailable, LocalSession,
    SessionMetaLine, SessionMetaPayload, SessionRoot,
};
use homebased_daemon::message_receiver::{
    notice_backing_request, queued_line, receive, receive_supervisor_notice, source_value,
    supervisor_notice_receipt, AwaitDelivery, MessageStep, NoticeStep,
};
use homebased_daemon::message_sender::{
    decode_remote_receipt, resolve_machine, send, NameTarget, SendStep,
};
use homebased_daemon::resource::{
    AssignmentRevision, ResourceRevision, SupervisorAddress, SupervisorNoticeRequest,
};
use homebased_daemon::time::Timestamp;
use serde_json::Value;

fn fresh() -> u128 {
    uuid::Uuid::now_v7().as_u128()
}

fn text(id: u128) -> String {
    uuid::Uuid::from_u128(id).to_string()
}

fn now() -> Timestamp {
    Timestamp::new(chrono::Utc::now().timestamp(), 0).unwrap()
}

fn message() -> MessageRequest {
    MessageRequest {
        api_version: API_VERSION,
        protocol_version: 1,
        message_id: MessageId(fresh()),
        destination_machine: MachineId(fresh()),
        source: MessageSource::Task { machine: MachineId(fresh()), task: TaskId(fresh()) },
        recipient: Recipient::Thread { thread: ThreadId(fresh()) },
        body: "Please review this change".into(),
        reply_to: None,
        conversation_id: fresh(),
    }
}

#[test]
fn queued_line_carries_the_message_route_and_body() {
    let request = message();
    let message_id = request.message_id;
    let attempt = MessageAttempt {
        request,
        destination_thread: ThreadId(fresh()),
        destination_cwd: "/tmp".into(),
    };
    let line = queued_line(&attempt);
    assert!(line.starts_with("HOMEBASED_MESSAGE "));
    let body: Value = serde_json::from_str(&line["HOMEBASED_MESSAGE ".len()..]).unwrap();
    assert_eq!(body["message_id"], text(message_id.0));
    assert_eq!(body["destination_thread"], text(attempt.destination_thread.0));
    assert_eq!(body["body"], "Please review this change");
    assert_eq!(body["source"]["kind"], "task");
    assert!(body["source"].get("task").is_some());
    assert!(body["reply_to"].is_null());
}

#[test]
fn a_queued_body_is_written_as_json() {
    let mut request = message();
    request.body = "a \"quote\"\nand a line".into();
    request.reply_to = Some(MessageId(9));
    let attempt = MessageAttempt {
        request,
        destination_thread: ThreadId(fresh()),
        destination_cwd: "/tmp".into(),
    };
    let line = queued_line(&attempt);
    assert!(!line.contains('\n'));
    let body: Value = serde_json::from_str(&line["HOMEBASED_MESSAGE ".len()..]).unwrap();
    assert_eq!(body["body"], "a \"quote\"\nand a line");
    assert_eq!(body["reply_to"], text(9));
}

fn notice() -> SupervisorNoticeRequest {
    SupervisorNoticeRequest {
        api_version: API_VERSION,
        protocol_version: 1,
        source_machine: MachineId(fresh()),
        destination: SupervisorAddress {
            machine: MachineId(fresh()),
            thread: ThreadId(fresh()),
        },
        notice_id: NoticeId(fresh()),
        loan_id: LoanId(fresh()),
        action_id: ActionId(fresh()),
        state_revision: ResourceRevision(4),
        assignment_revision: AssignmentRevision(2),
        attempt_id: DeliveryAttemptId(fresh()),
        payload: "{\"type\":\"attention_required\",\"reason\":\"needs supervisor review\"}".into(),
    }
}

#[test]
fn notice_backing_request_uses_notice_identity_instead_of_a_fake_thread() {
    let request = notice();

    let backing = notice_backing_request(&request).unwrap();
    assert_eq!(
        backing.source,
        MessageSource::ResourceNotice {
            machine: request.source_machine,
            notice_id: request.notice_id,
        }
    );
    let source: Value = serde_json::from_str(&source_value(backing.source)).unwrap();
    assert_eq!(source["kind"], "resource_notice");
    assert_eq!(source["machine"], text(request.source_machine.0));
    assert_eq!(source["notice_id"], text(request.notice_id.0));
    assert!(source.get("thread").is_none());
    assert_eq!(backing.destination_machine, request.destination.machine);
    assert_eq!(backing.conversation_id, request.notice_id.0);
    let body: Value = serde_json::from_str(&backing.body).unwrap();
    assert_eq!(body["state_revision"], 4);
    assert_eq!(body["payload"]["reason"], "needs supervisor review");
}

#[test]
fn an_oversized_or_nil_notice_is_invalid() {
    let mut request = notice();
    request.payload = format!("\"{}\"", "x".repeat(MESSAGE_BODY_MAX_BYTES));
    assert!(matches!(
        notice_backing_request(&request),
        Err(AppError::MessageInvalid { message })
            if message == "supervisor notice request exceeds 65536 UTF-8 bytes"
    ));
    let mut request = notice();
    request.attempt_id = DeliveryAttemptId(0);
    assert!(matches!(notice_backing_request(&request), Err(AppError::MessageInvalid { .. })));
}

fn copy(request: &MessageRequest) -> MessageRequest {
    MessageRequest {
        api_version: request.api_version,
        protocol_version: request.protocol_version,
        message_id: request.message_id,
        destination_machine: request.destination_machine,
        source: request.source,
        recipient: request.recipient.clone(),
        body: request.body.clone(),
        reply_to: request.reply_to,
        conversation_id: request.conversation_id,
    }
}

fn receipt_of(request: &MessageRequest, thread: ThreadId) -> MessageReceipt {
    MessageReceipt {
        api_version: API_VERSION,
        protocol_version: request.protocol_version,
        message_id: request.message_id,
        destination_thread: thread,
        destination_cwd: "/repo".into(),
        delivered_at: now(),
    }
}

#[test]
fn a_new_message_is_bound_before_it_is_queued() {
    let request = message();
    let id = request.message_id;
    let MessageStep::AcquirePermit { id: permit, next } = receive(request, Ok(())) else {
        panic!("one attempt at a time");
    };
    assert_eq!(permit, id);
    let MessageStep::AskDelivery { next, .. } = next.on_permit(false) else { panic!() };
    let MessageStep::Resolve { next, .. } =
        next.on_delivery(Ok(MessageDelivery { attempt: None, receipt: None }))
    else {
        panic!("a new message is resolved");
    };
    let thread = ThreadId(fresh());
    let MessageStep::AskBind { message: StoreMsg::BindMessageAttempt { attempt }, next } =
        next.on_destination(Ok((thread, "/repo".into())))
    else {
        panic!("and bound");
    };
    let MessageStep::Send { thread: to, cwd, next, .. } = next.on_bound(Ok(attempt)) else {
        panic!("then queued");
    };
    assert_eq!((to, cwd.as_str()), (thread, "/repo"));
    let MessageStep::AskCommit { message: StoreMsg::CommitMessageReceipt { receipt }, next } =
        next.on_sent(Ok(()), now())
    else {
        panic!("then receipted");
    };
    assert_eq!(receipt.message_id, id);
    assert!(matches!(next.on_committed(Ok(receipt)), MessageStep::Done(Ok(_))));
}

#[test]
fn a_receipted_or_contended_message_is_not_queued_again() {
    let request = message();
    let thread = ThreadId(fresh());
    let saved = |receipt: bool| MessageDelivery {
        attempt: Some(MessageAttempt {
            request: copy(&request),
            destination_thread: thread,
            destination_cwd: "/repo".into(),
        }),
        receipt: if receipt { Some(receipt_of(&request, thread)) } else { None },
    };
    let mut retry = copy(&request);
    retry.protocol_version = 2;
    let wait = AwaitDelivery { request: retry, contended: false };
    assert!(matches!(
        wait.on_delivery(Ok(saved(true))),
        MessageStep::Done(Ok(receipt)) if receipt.protocol_version == 2
    ));
    let wait = AwaitDelivery { request: copy(&request), contended: true };
    assert!(matches!(
        wait.on_delivery(Ok(saved(false))),
        MessageStep::Done(Err(AppError::MessageDeliveryFailed { message, .. }))
            if message.starts_with("another attempt completed without a receipt")
    ));
    let wait = AwaitDelivery { request: copy(&request), contended: false };
    assert!(matches!(
        wait.on_delivery(Ok(saved(false))),
        MessageStep::AskBind { message: StoreMsg::BindMessageAttempt { attempt }, .. }
            if attempt.destination_thread == thread
    ));
    let mut other = copy(&request);
    other.body = "something else".into();
    let wait = AwaitDelivery { request: other, contended: false };
    assert!(matches!(
        wait.on_delivery(Ok(saved(true))),
        MessageStep::Done(Err(AppError::MessageConflict { id })) if id == request.message_id
    ));
    let wait = AwaitDelivery { request: copy(&request), contended: false };
    assert!(matches!(
        wait.on_delivery(Ok(MessageDelivery {
            attempt: None,
            receipt: Some(receipt_of(&request, thread)),
        })),
        MessageStep::Done(Err(AppError::Internal { .. }))
    ));
}

#[test]
fn one_directory_is_one_recipient_however_it_is_written() {
    let mut left = message();
    left.recipient = Recipient::Cwd { cwd: "/repo/x".into() };
    let mut right = copy(&left);
    right.recipient = Recipient::Cwd { cwd: "/repo//x/".into() };
    assert!(left.same_identity(&right));
    right.recipient = Recipient::Cwd { cwd: "/repo/y".into() };
    assert!(!left.same_identity(&right));
}

#[test]
fn a_queue_failure_names_no_cause() {
    let request = message();
    let MessageStep::AcquirePermit { next, .. } = receive(request, Ok(())) else { panic!() };
    let MessageStep::AskDelivery { next, .. } = next.on_permit(false) else { panic!() };
    let MessageStep::Resolve { next, .. } =
        next.on_delivery(Ok(MessageDelivery { attempt: None, receipt: None }))
    else {
        panic!()
    };
    let MessageStep::AskBind { message: StoreMsg::BindMessageAttempt { attempt }, next } =
        next.on_destination(Ok((ThreadId(1), "/repo".into())))
    else {
        panic!()
    };
    let MessageStep::Send { next, .. } = next.on_bound(Ok(attempt)) else { panic!() };
    assert!(matches!(
        next.on_sent(Err("secret path".into()), now()),
        MessageStep::Done(Err(AppError::MessageDeliveryFailed { message, .. }))
            if message == "Codex queue attempt failed; retry the same message UUID explicitly"
    ));
}

#[test]
fn a_notice_reaches_only_its_own_thread() {
    let request = notice();
    let local = request.destination.machine;
    let attempt_id = request.attempt_id;
    let thread = request.destination.thread;
    let NoticeStep::AcquirePermit { id, next } = receive_supervisor_notice(local, request, Ok(()))
    else {
        panic!()
    };
    assert_eq!(id, MessageId(attempt_id.0));
    let NoticeStep::AskDelivery { next, .. } = next.on_permit(false) else { panic!() };
    let NoticeStep::Resolve { recipient: Recipient::Thread { thread: to }, next } =
        next.on_delivery(Ok(MessageDelivery { attempt: None, receipt: None }))
    else {
        panic!()
    };
    assert_eq!(to, thread);
    assert!(matches!(
        next.on_destination(Ok((ThreadId(1), "/repo".into()))),
        NoticeStep::Done(Err(AppError::Internal { message }))
            if message == "supervisor notice resolved to a different thread"
    ));
    let request = notice();
    let elsewhere = MachineId(fresh());
    assert!(matches!(
        receive_supervisor_notice(elsewhere, request, Ok(())),
        NoticeStep::Done(Err(AppError::MachineIdentityMismatch { .. }))
    ));
}

#[test]
fn a_notice_receipt_must_match_its_attempt() {
    let request = notice();
    let backing = notice_backing_request(&request).unwrap();
    let good = receipt_of(&backing, request.destination.thread);
    let answer = supervisor_notice_receipt(&request, good).unwrap();
    assert_eq!(answer.notice_id, request.notice_id);
    assert_eq!(answer.attempt_id, request.attempt_id);
    let wrong = receipt_of(&backing, ThreadId(fresh()));
    assert!(matches!(
        supervisor_notice_receipt(&request, wrong),
        Err(AppError::Internal { message })
            if message == "saved supervisor notice receipt does not match its attempt"
    ));
}

fn sessions() -> Vec<LocalSession> {
    vec![
        LocalSession { thread: ThreadId(1), cwd: "/a".into(), modified: 5 },
        LocalSession { thread: ThreadId(2), cwd: "/b".into(), modified: 9 },
        LocalSession { thread: ThreadId(3), cwd: "/a/".into(), modified: 7 },
        LocalSession { thread: ThreadId(4), cwd: "/a".into(), modified: 7 },
    ]
}

#[test]
fn the_session_that_changed_last_is_reached() {
    let resolve = |recipient: Recipient, home: Option<&str>| {
        resolve_destination_sync(&recipient, Ok(sessions()), home)
    };
    assert_eq!(
        resolve(Recipient::Thread { thread: ThreadId(1) }, None).unwrap(),
        (ThreadId(1), "/a".to_string())
    );
    assert_eq!(
        resolve(Recipient::Cwd { cwd: "/a".into() }, None).unwrap(),
        (ThreadId(4), "/a".to_string())
    );
    assert_eq!(
        resolve(Recipient::Cwd { cwd: "~/b".into() }, Some("/")).unwrap().0,
        ThreadId(2)
    );
    assert!(matches!(
        resolve(Recipient::Thread { thread: ThreadId(0x1f) }, None),
        Err(AppError::AgentThreadNotFound { selector })
            if selector == "00000000-0000-0000-0000-00000000001f"
    ));
    assert!(matches!(
        resolve(Recipient::Cwd { cwd: "/none".into() }, None),
        Err(AppError::AgentThreadNotFound { selector }) if selector == "/none"
    ));
    assert!(matches!(
        resolve_destination_sync(
            &Recipient::Thread { thread: ThreadId(1) },
            Err(session_unavailable()),
            None,
        ),
        Err(AppError::MessageUnavailable { .. })
    ));
}

#[test]
fn a_receiver_directory_is_absolute_or_below_home() {
    assert_eq!(expand_receiver_cwd("/x", None).unwrap(), "/x");
    assert_eq!(expand_receiver_cwd("~/x", Some("/home/u")).unwrap(), "/home/u/x");
    assert!(matches!(expand_receiver_cwd("x", None), Err(AppError::MessageInvalid { .. })));
    assert!(matches!(
        expand_receiver_cwd("~/x", None),
        Err(AppError::MessageUnavailable { message }) if message == "receiver HOME is unavailable"
    ));
    assert!(matches!(
        expand_receiver_cwd("~/x", Some("u")),
        Err(AppError::MessageUnavailable { message }) if message == "receiver HOME is not absolute"
    ));
}

#[test]
fn session_files_are_found_and_read() {
    assert_eq!(session_directory(Some("/c"), None).unwrap(), "/c/sessions");
    assert_eq!(session_directory(None, Some("/home/u")).unwrap(), "/home/u/.codex/sessions");
    assert!(session_directory(Some(""), Some("/home/u")).is_err());
    assert!(session_directory(Some("c"), None).is_err());
    assert!(session_directory(None, None).is_err());
    assert!(is_rollout("rollout-2026.jsonl"));
    assert!(!is_rollout("rollout-2026.json"));
    assert!(!is_rollout("session.jsonl"));
    assert!(!is_rollout("rollout-"));
    assert!(has_sessions(SessionRoot::Directory).unwrap());
    assert!(!has_sessions(SessionRoot::Missing).unwrap());
    assert!(has_sessions(SessionRoot::Other).is_err());
    assert!(has_sessions(SessionRoot::Failed).is_err());
    let meta = |kind: &str, id: &str, cwd: &str| {
        Some(SessionMetaLine {
            kind: kind.into(),
            payload: SessionMetaPayload { id: id.into(), cwd: cwd.into() },
        })
    };
    let id = "01a0ab97-a7aa-7463-a5b0-8d500e40e431";
    let thread = ThreadId(uuid::Uuid::parse_str(id).unwrap().as_u128());
    assert_eq!(
        session_meta(100, meta("session_meta", id, "/repo")),
        Some((thread, "/repo".to_string()))
    );
    assert_eq!(session_meta(65_537, meta("session_meta", id, "/repo")), None);
    assert_eq!(session_meta(100, meta("other", id, "/repo")), None);
    assert_eq!(session_meta(100, meta("session_meta", "x", "/repo")), None);
    assert_eq!(session_meta(100, meta("session_meta", id, "repo")), None);
    assert_eq!(
        session_meta(100, meta("session_meta", "00000000-0000-0000-0000-000000000000", "/repo")),
        None
    );
    assert_eq!(session_meta(100, None), None);
}

#[test]
fn one_unreadable_session_file_fails_the_whole_look() {
    let session = |thread: u128| LocalSession {
        thread: ThreadId(thread),
        cwd: "/a".into(),
        modified: 1,
    };
    let found = collect_sessions(vec![
        read_session_meta(Ok(Some(session(1)))),
        read_session_meta(Ok(None)),
        read_session_meta(Ok(Some(session(2)))),
    ])
    .unwrap();
    assert_eq!(found.iter().map(|one| one.thread.0).collect::<Vec<_>>(), vec![1, 2]);
    assert!(collect_sessions(vec![
        read_session_meta(Ok(Some(session(1)))),
        read_session_meta(Err(session_unavailable())),
    ])
    .is_err());
}

fn wire(machine: MachineId, thread: ThreadId) -> MessageRequest {
    let message_id = MessageId(fresh());
    MessageRequest {
        api_version: API_VERSION,
        protocol_version: CLUSTER_PROTOCOL_VERSION,
        message_id,
        destination_machine: machine,
        source: MessageSource::Thread { machine: MachineId(fresh()), thread: ThreadId(fresh()) },
        recipient: Recipient::Thread { thread },
        body: "Review this change".into(),
        reply_to: None,
        conversation_id: message_id.0,
    }
}

fn answered(request: &MessageRequest, machine: MachineId, thread: ThreadId) -> MessageResponse {
    MessageResponse {
        api_version: API_VERSION,
        protocol_version: CLUSTER_PROTOCOL_VERSION,
        destination_machine: machine,
        receipt: receipt_of(request, thread),
    }
}

#[test]
fn rejects_a_success_response_from_another_machine_identity() {
    let expected = MachineId(fresh());
    let found = MachineId(fresh());
    let thread = ThreadId(fresh());
    let request = wire(expected, thread);
    let response = answered(&request, found, thread);
    let error = decode_remote_receipt(Ok(response), expected, &request).unwrap_err();
    assert!(matches!(
        error,
        AppError::MachineIdentityMismatch {
            expected: actual_expected,
            found: Some(actual_found),
        } if actual_expected == expected && actual_found == found
    ));
}

#[test]
fn remote_response_requires_a_versioned_receipt() {
    let machine = MachineId(fresh());
    let request = wire(machine, ThreadId(fresh()));
    let body = br#"{"api_version":1,"protocol_version":1,"destination_machine":"bad"}"#;
    let value: Value = serde_json::from_slice(body).unwrap();
    let machine_text = value["destination_machine"].as_str().unwrap();
    let parsed = match uuid::Uuid::parse_str(machine_text) {
        Ok(_) => unreachable!(),
        Err(error) => Err(error.to_string()),
    };
    let error = decode_remote_receipt(parsed, machine, &request).unwrap_err();
    assert!(matches!(
        error,
        AppError::MessageOutcomeUnknown { id, .. } if id == request.message_id
    ));
}

#[test]
fn a_receipt_for_something_else_leaves_the_outcome_unknown() {
    let machine = MachineId(fresh());
    let thread = ThreadId(fresh());
    let request = wire(machine, thread);
    let unknown = |response: MessageResponse| match decode_remote_receipt(
        Ok(response),
        machine,
        &request,
    ) {
        Err(AppError::MessageOutcomeUnknown { message, .. }) => message,
        _ => panic!("unknown outcome expected"),
    };
    assert!(decode_remote_receipt(Ok(answered(&request, machine, thread)), machine, &request)
        .is_ok());
    assert_eq!(
        unknown(answered(&request, machine, ThreadId(fresh()))),
        "receiver returned a receipt for a different thread"
    );
    let mut other_version = answered(&request, machine, thread);
    other_version.protocol_version = 1;
    assert_eq!(
        unknown(other_version),
        "receiver returned a receipt with a different version or message identity"
    );
    let mut relative = answered(&request, machine, thread);
    relative.receipt.destination_cwd = "repo".into();
    assert_eq!(
        unknown(relative),
        "receiver returned a receipt with a different version or message identity"
    );
    let mut by_cwd = copy(&request);
    by_cwd.recipient = Recipient::Cwd { cwd: "/elsewhere".into() };
    assert!(matches!(
        decode_remote_receipt(Ok(answered(&by_cwd, machine, thread)), machine, &by_cwd),
        Err(AppError::MessageOutcomeUnknown { message, .. })
            if message == "receiver returned a receipt for a different working directory"
    ));
}

fn to_send(target: MessageTarget) -> MessageSendRequest {
    MessageSendRequest {
        api_version: API_VERSION,
        message_id: MessageId(fresh()),
        source: MessageSourceSelector::Thread { thread: ThreadId(fresh()) },
        target,
        body: "hello".into(),
        reply_to: None,
        conversation_id: 3,
    }
}

#[test]
fn a_message_to_this_machine_is_received_here() {
    let local = MachineId(fresh());
    let thread = ThreadId(fresh());
    let request = to_send(MessageTarget::Machine {
        machine: "main".into(),
        recipient: Recipient::Thread { thread },
    });
    let id = request.message_id;
    let SendStep::AskBegin { message: StoreMsg::BeginOutboundMessage { request }, next } =
        send(local, request, Ok(()))
    else {
        panic!()
    };
    let SendStep::ResolveMachine { selector, next } =
        next.on_begun(Ok(OutboundMessageBinding::Resolving { request }))
    else {
        panic!()
    };
    assert_eq!(selector, "main");
    let SendStep::AskBind {
        message: StoreMsg::BindOutboundMessage { request, destination_machine, recipient },
        next,
    } = next.on_machine(Ok(local))
    else {
        panic!()
    };
    let SendStep::Receive { request, next } = next.on_bound(Ok(OutboundMessageBinding::Bound {
        request,
        destination_machine,
        recipient,
    })) else {
        panic!()
    };
    assert_eq!(request.protocol_version, CLUSTER_PROTOCOL_VERSION);
    let receipt = receipt_of(&request, thread);
    assert!(matches!(
        next.on_receipt(Ok(receipt)),
        SendStep::Done(Ok(response)) if response.message_id == id
            && response.destination_machine == local && response.destination_thread == thread
    ));
}

#[test]
fn a_bound_message_goes_to_its_own_receiver() {
    let local = MachineId(fresh());
    let peer = MachineId(fresh());
    let thread = ThreadId(fresh());
    let request = to_send(MessageTarget::Task { task: TaskId(fresh()) });
    let SendStep::AskBegin { message: StoreMsg::BeginOutboundMessage { request }, next } =
        send(local, request, Ok(()))
    else {
        panic!()
    };
    let SendStep::Connect { machine, next } = next.on_begun(Ok(OutboundMessageBinding::Bound {
        request,
        destination_machine: peer,
        recipient: Recipient::Thread { thread },
    })) else {
        panic!()
    };
    assert_eq!(machine, peer);
    let SendStep::Post { request, next } = next.on_connected(Some(Ok(1))) else { panic!() };
    assert_eq!(request.protocol_version, 1);
    let SendStep::Parse { next, .. } = next.on_answer(Ok(ClusterResponse {
        status: HttpStatus::new(200).unwrap(),
        body: Vec::new(),
    })) else {
        panic!()
    };
    let mut response = answered(&request, peer, thread);
    response.protocol_version = 1;
    assert!(matches!(next.on_parsed(Ok(response)), SendStep::Done(Ok(_))));
}

#[test]
fn an_unbound_route_or_a_missing_fleet_is_an_error() {
    let local = MachineId(fresh());
    let peer = MachineId(0xab);
    let request = to_send(MessageTarget::Task { task: TaskId(fresh()) });
    let SendStep::AskBegin { message: StoreMsg::BeginOutboundMessage { request }, next } =
        send(local, request, Ok(()))
    else {
        panic!()
    };
    let SendStep::ResolveTask { next, .. } =
        next.on_begun(Ok(OutboundMessageBinding::Resolving { request }))
    else {
        panic!()
    };
    let SendStep::AskBind { message: StoreMsg::BindOutboundMessage { request, .. }, next } =
        next.on_route(Ok((peer, ThreadId(5))))
    else {
        panic!()
    };
    assert!(matches!(
        next.on_bound(Ok(OutboundMessageBinding::Resolving { request })),
        SendStep::Done(Err(AppError::Internal { message }))
            if message == "outbound message route did not resolve"
    ));
    let SendStep::Connect { next, .. } = next.on_bound(Ok(OutboundMessageBinding::Bound {
        request: to_send(MessageTarget::Task { task: TaskId(fresh()) }),
        destination_machine: peer,
        recipient: Recipient::Thread { thread: ThreadId(5) },
    })) else {
        panic!()
    };
    assert!(matches!(
        next.on_connected(None),
        SendStep::Done(Err(AppError::MachineNotFound { machine }))
            if machine == "00000000-0000-0000-0000-0000000000ab"
    ));
}

#[test]
fn a_machine_is_selected_by_identity_or_name() {
    let local = MachineId(1);
    let resolve = |selector: &str, fleet: Option<Result<NameTarget, AppError>>| {
        resolve_machine(selector, local, "main", Ok(selector.to_string()), fleet)
    };
    assert_eq!(
        resolve("00000000-0000-0000-0000-000000000007", None).unwrap(),
        MachineId(7)
    );
    assert_eq!(resolve("main", None).unwrap(), local);
    assert_eq!(resolve("x", Some(Ok(NameTarget::Local))).unwrap(), local);
    assert_eq!(resolve("x", Some(Ok(NameTarget::Peer(MachineId(9))))).unwrap(), MachineId(9));
    assert!(matches!(
        resolve("x", None),
        Err(AppError::MachineNotFound { machine }) if machine == "x"
    ));
    assert!(matches!(
        resolve_machine("!", local, "main", Err("bad name".into()), None),
        Err(AppError::Usage { message }) if message == "bad name"
    ));
}
