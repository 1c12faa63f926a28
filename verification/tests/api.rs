//! The local socket.

use homebased_daemon::actors::store::StoreMsg;
use homebased_daemon::actors::supervisor::messages::SupervisorMsg;
use homebased_daemon::api::{
    accept_task, agent_feed_placeholder, cancel, dry_run, files_origin, from_request, json_pointer,
    local_detail, local_log, prefix, AcceptStep, CancelAnswer, CancelStep, DetailStep, DryRunStep,
    OutputTail, ParseFailure, PathSegment, SpecBodyStep, SubmitBody, SubmitEnvelope,
    SubmitResponse,
};
use homebased_daemon::cancellation::{
    CancellationDelivery, CancellationOwner, ExecutionCancellationTarget,
};
use homebased_daemon::domain::{
    new_queued_task, CancelResult, NormalizedSpec, NormalizedWorkload, ProcessStatus, TaskEnv,
};
use homebased_daemon::error::AppError;
use homebased_daemon::fleet::API_VERSION;
use homebased_daemon::ids::{CancellationId, MachineId, RequestId, TaskId, ThreadId};
use homebased_daemon::time::{Span, Timestamp};
use serde_json::Value;

fn fresh() -> u128 {
    uuid::Uuid::now_v7().as_u128()
}

fn text(id: u128) -> String {
    uuid::Uuid::from_u128(id).to_string()
}

#[test]
fn local_submit_response_omits_request_id() {
    let id = TaskId(fresh());
    let response = SubmitResponse {
        api_version: API_VERSION,
        id,
        task_id: id,
        request_id: None,
        status: ProcessStatus::Queued,
    };
    let value: Value = serde_json::from_str(&response.to_json()).unwrap();
    assert!(value.get("request_id").is_none());

    let request_id = RequestId(fresh());
    let response = SubmitResponse {
        api_version: API_VERSION,
        id,
        task_id: id,
        request_id: Some(request_id),
        status: ProcessStatus::Queued,
    };
    let value: Value = serde_json::from_str(&response.to_json()).unwrap();
    assert_eq!(value["request_id"], text(request_id.0));
    assert_eq!(value["id"], text(id.0));
    assert_eq!(value["status"], "queued");
    assert_eq!(value["api_version"], 1);
}

const VALID: &str = r#"{
    "spec": {
        "api_version": 1,
        "thread": "01a0ab97-a7aa-7463-a5b0-8d500e40e431",
        "name": "test task",
        "cwd": "/tmp",
        "timeout": "4h",
        "workload": { "type": "task", "command": ["true"] }
    },
    "env": { "path": "/bin", "home": "/home/u" }
}"#;

fn spec(machine: Option<&str>, agent: bool) -> NormalizedSpec {
    NormalizedSpec {
        thread: ThreadId(3),
        name: "test task".into(),
        cwd: "/tmp".into(),
        timeout: Span::from_secs(4 * 3600),
        machine: machine.map(str::to_string),
        workload: if agent {
            NormalizedWorkload::Agent {
                prompt: "do it".into(),
                report_trailer: true,
                settings: "{}".into(),
            }
        } else {
            NormalizedWorkload::Task { command: vec!["true".into()] }
        },
    }
}

fn env() -> TaskEnv {
    TaskEnv { path: "/bin".into(), home: "/home/u".into() }
}

fn envelope(value: &Value) -> SubmitEnvelope {
    SubmitEnvelope {
        spec: value.get("spec").map(Value::to_string),
        env: value.get("env").map(Value::to_string),
        request_id: value
            .get("request_id")
            .and_then(Value::as_str)
            .map(|id| RequestId(uuid::Uuid::parse_str(id).unwrap().as_u128())),
        callback_cwd: None,
    }
}

/// Read a body whose typed parses give these results.
fn extract(
    value: &Value,
    env_parsed: Result<TaskEnv, ParseFailure>,
    spec_parsed: Result<NormalizedSpec, AppError>,
    generated: RequestId,
) -> Result<SubmitBody, AppError> {
    let SpecBodyStep::ParseEnvelope { document, next } =
        from_request(Ok(value.to_string().into_bytes()))
    else {
        panic!("a JSON body has an envelope");
    };
    let document: Value = serde_json::from_str(&document).unwrap();
    assert_eq!(&document, value);
    let next = match next.on_envelope(Ok(envelope(value))) {
        SpecBodyStep::ParseEnv { next, .. } => next,
        SpecBodyStep::Done(result) => return result,
        _ => panic!("the environment comes next"),
    };
    let next = match next.on_env(env_parsed) {
        SpecBodyStep::ParseSpec { next, .. } => next,
        SpecBodyStep::Done(result) => return result,
        _ => panic!("the specification comes last"),
    };
    match next.on_spec(spec_parsed, generated) {
        SpecBodyStep::Done(result) => result,
        _ => panic!("nothing is left to parse"),
    }
}

fn valid() -> Value {
    serde_json::from_str(VALID).unwrap()
}

fn invalid(error: AppError) -> (String, String) {
    match error {
        AppError::InvalidSpec { pointer, value, .. } => (pointer, value),
        other => panic!("expected an invalid specification, got {other:?}"),
    }
}

#[test]
fn a_valid_envelope_is_read() {
    let body = extract(&valid(), Ok(env()), Ok(spec(None, false)), RequestId(1)).unwrap();
    assert_eq!(body.env.path, "/bin");
    assert_eq!(body.request, None);
}

#[test]
fn a_local_submission_has_no_request_identity() {
    let mut value = valid();
    let id = "01a0ab97-a7aa-7463-a5b0-8d500e40e431";
    value["request_id"] = Value::String(id.to_string());
    let error = extract(&value, Ok(env()), Ok(spec(None, false)), RequestId(1)).unwrap_err();
    assert_eq!(invalid(error), ("/request_id".to_string(), format!("\"{id}\"")));
}

#[test]
fn a_remote_submission_keeps_or_gets_a_request_identity() {
    let generated = RequestId(fresh());
    let mut value = valid();
    let body = extract(&value, Ok(env()), Ok(spec(Some("code"), false)), generated).unwrap();
    assert_eq!(body.request, Some(generated));
    let id = "01a0ab97-a7aa-7463-a5b0-8d500e40e431";
    value["request_id"] = Value::String(id.to_string());
    let body = extract(&value, Ok(env()), Ok(spec(Some("code"), false)), generated).unwrap();
    assert_eq!(
        body.request,
        Some(RequestId(uuid::Uuid::parse_str(id).unwrap().as_u128()))
    );
}

#[test]
fn missing_parts_point_at_the_missing_key() {
    for key in ["env", "spec"] {
        let mut value = valid();
        value.as_object_mut().unwrap().remove(key);
        let error = extract(&value, Ok(env()), Ok(spec(None, false)), RequestId(1)).unwrap_err();
        let AppError::InvalidSpec { pointer, value, message } = error else { panic!() };
        assert_eq!(pointer, format!("/{key}"));
        assert_eq!(value, "null");
        assert_eq!(message, format!("missing field `{key}`"));
    }
}

#[test]
fn nested_failures_have_their_prefix_and_value() {
    let mut value = valid();
    value["env"]["path"] = Value::from(7);
    let failure = ParseFailure {
        path: vec![PathSegment::Key("path".into())],
        message: "invalid type".into(),
    };
    let error = extract(&value, Err(failure), Ok(spec(None, false)), RequestId(1)).unwrap_err();
    assert_eq!(invalid(error), ("/env/path".to_string(), "7".to_string()));

    let inner = AppError::InvalidSpec {
        pointer: "/workload/command/0".into(),
        value: "\"\"".into(),
        message: "empty".into(),
    };
    let error = extract(&valid(), Ok(env()), Err(inner), RequestId(1)).unwrap_err();
    assert_eq!(
        invalid(error),
        ("/spec/workload/command/0".to_string(), "\"\"".to_string())
    );
    assert!(matches!(
        prefix("/spec", AppError::Usage { message: "x".into() }),
        AppError::Usage { message } if message == "x"
    ));
}

#[test]
fn unknown_keys_are_escaped_in_their_pointer() {
    let mut value = valid();
    value["a/b~c"] = Value::Bool(true);
    let SpecBodyStep::ParseEnvelope { next, .. } =
        from_request(Ok(value.to_string().into_bytes()))
    else {
        panic!()
    };
    let SpecBodyStep::Done(Err(error)) = next.on_envelope(Err(ParseFailure {
        path: vec![PathSegment::Key("a/b~c".into())],
        message: "unknown field".into(),
    })) else {
        panic!()
    };
    assert_eq!(invalid(error), ("/a~1b~0c".to_string(), "true".to_string()));
    assert_eq!(
        json_pointer(&vec![PathSegment::Key("command".into()), PathSegment::Index(12)]),
        "/command/12"
    );
    assert_eq!(json_pointer(&Vec::new()), "");
}

#[test]
fn a_body_that_is_no_json_is_an_invalid_specification() {
    let SpecBodyStep::Done(Err(error)) = from_request(Ok(b"{not json".to_vec())) else { panic!() };
    let AppError::InvalidSpec { pointer, value, message } = error else { panic!() };
    assert_eq!((pointer.as_str(), value.as_str()), ("", "null"));
    assert!(message.starts_with("invalid JSON: key must be a string"));
    let SpecBodyStep::Done(Err(error)) = from_request(Err("too large".into())) else { panic!() };
    assert!(matches!(
        error,
        AppError::InvalidSpec { message, .. } if message == "invalid request body: too large"
    ));
}

#[test]
fn a_local_task_is_launched_once_its_files_exist() {
    let AcceptStep::CheckCwd { cwd, next } = accept_task(spec(None, true), env()) else {
        panic!()
    };
    assert_eq!(cwd, "/tmp");
    let AcceptStep::ResolveBinary { path, cwd, next } = next.on_checked(Ok(())) else { panic!() };
    assert_eq!((path.as_str(), cwd.as_str()), ("/bin", "/tmp"));
    let now = Timestamp::new(5, 0).unwrap();
    let AcceptStep::Prepare { id, files, next } =
        next.on_binary(Ok("/bin/codex".into()), TaskId(8), now)
    else {
        panic!()
    };
    assert_eq!(id, TaskId(8));
    let files = files.unwrap();
    assert_eq!((files.prompt.as_str(), files.report_trailer), ("do it", true));
    let AcceptStep::AskLaunch { message: SupervisorMsg::Launch { row, placement, .. }, next } =
        next.on_prepared(Ok(()))
    else {
        panic!()
    };
    assert_eq!(row.status, ProcessStatus::Queued);
    assert_eq!(placement.binary, "/bin/codex");
    assert!(matches!(
        next.on_launched(Ok(())),
        AcceptStep::Done(Ok((id, ProcessStatus::Queued))) if id == TaskId(8)
    ));
    assert!(matches!(
        accept_task(spec(Some("code"), false), env()),
        AcceptStep::Done(Err(AppError::Usage { .. }))
    ));
}

#[test]
fn only_agents_have_a_feed() {
    assert_eq!(
        agent_feed_placeholder("/state", &spec(None, true).workload).as_deref(),
        Some("/state/tasks/<task-id>/prompt.feed.txt")
    );
    assert_eq!(agent_feed_placeholder("/state", &spec(None, false).workload), None);
    let DryRunStep::CheckCwd { next, .. } = dry_run(spec(None, true), env()) else { panic!() };
    assert!(matches!(
        next.on_checked(Ok(()), "/state"),
        DryRunStep::Build { path, feed: Some(_), .. } if path == "/bin"
    ));
    assert!(matches!(dry_run(spec(Some("code"), true), env()), DryRunStep::Remote { .. }));
}

#[test]
fn a_log_is_empty_until_something_is_written() {
    let tail = local_log(TaskId(1), true, Ok(None)).unwrap();
    assert_eq!((tail.log.as_str(), tail.truncated), ("", false));
    let written = OutputTail { text: "x".into(), truncated: true };
    assert!(local_log(TaskId(1), true, Ok(Some(written))).unwrap().truncated);
    assert!(matches!(local_log(TaskId(1), false, Ok(None)), Err(AppError::TaskNotFound { .. })));
    let unreadable = || Err(AppError::Internal { message: "denied".into() });
    assert!(matches!(
        local_log(TaskId(1), true, unreadable()),
        Err(AppError::Internal { message }) if message == "denied"
    ));
    assert!(matches!(
        local_log(TaskId(1), false, unreadable()),
        Err(AppError::TaskNotFound { .. })
    ));
    assert!(matches!(
        local_detail(TaskId(1)),
        DetailStep::AskTask { message: StoreMsg::GetTask { .. }, .. }
    ));
    assert_eq!(files_origin(Some(80)).unwrap(), 80);
    assert!(files_origin(None).is_err());
}

#[test]
fn a_task_elsewhere_is_cancelled_through_its_owner() {
    let local = MachineId(1);
    let CancelStep::AskTask { next, .. } = cancel(local, TaskId(2)) else { panic!() };
    let CancelStep::FindOwner { next } = next.on_task(Ok(None)) else { panic!() };
    let owner = CancellationOwner::Execution(ExecutionCancellationTarget {
        origin_machine: MachineId(3),
        execution_machine: MachineId(4),
    });
    let CancelStep::AskInsert { message: StoreMsg::InsertCancellationRequest { request }, next } =
        next.on_owner(Ok(owner), CancellationId(5))
    else {
        panic!()
    };
    assert_eq!(request.requester_machine, local);
    assert_eq!((request.origin_machine, request.execution_machine), (MachineId(3), MachineId(4)));
    assert!(matches!(
        next.on_saved(Ok(request)),
        CancelStep::Done(Ok(CancelAnswer::Requested(view)))
            if view.delivery == CancellationDelivery::Pending
            && view.cancellation == CancellationId(5)
    ));
}

#[test]
fn a_local_cancellation_answers_with_the_state() {
    let row = new_queued_task(
        TaskId(2),
        ThreadId(3),
        Span::from_secs(60),
        Timestamp::new(5, 0).unwrap(),
    );
    let answered = |result: CancelResult| {
        let CancelStep::AskTask { next, .. } = cancel(MachineId(1), TaskId(2)) else { panic!() };
        let CancelStep::AskCancel { message: SupervisorMsg::Cancel { id }, next } =
            next.on_task(Ok(Some(row)))
        else {
            panic!()
        };
        assert_eq!(id, TaskId(2));
        match next.on_cancelled(Ok(result)) {
            CancelStep::Done(Ok(CancelAnswer::Status { status, .. })) => status,
            _ => panic!(),
        }
    };
    assert_eq!(answered(CancelResult::CancelledQueued(row)), ProcessStatus::Cancelled);
    assert_eq!(answered(CancelResult::SignalWorker(row)), ProcessStatus::Queued);
    assert_eq!(answered(CancelResult::AlreadyTerminal(row)), ProcessStatus::Queued);
}
