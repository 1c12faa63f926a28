//! Remote submissions and their resolution.

use homebased_daemon::actors::store::StoreMsg;
use homebased_daemon::api::{AwaitPreviewCwd, DryRunStep, SubmitBody};
use homebased_daemon::cluster::{IdentityBody, PreviewBody, StdinPolicy};
use homebased_daemon::domain::{NormalizedSpec, NormalizedWorkload, ProcessStatus, TaskEnv};
use homebased_daemon::error::AppError;
use homebased_daemon::fleet::{ClusterResponse, HttpStatus, API_VERSION, CLUSTER_PROTOCOL_VERSION};
use homebased_daemon::ids::{MachineId, RequestId, ResourceId, TaskId, ThreadId};
use homebased_daemon::json::{check_body_version, check_version_member, VersionRefusal};
use homebased_daemon::message_sender::NameTarget;
use homebased_daemon::origin_submit::{
    decode_identity, decode_preview, dry_run, ensure_direct_route, finish_saved, reconcile, submit,
    submission_shard, warns, AwaitInserted, IdentityReply, PreviewStep, SubmitStep,
};
use homebased_daemon::submission::{
    CallbackContext, CallbackExecutable, ExecutionRecord, ExecutorIdentity, OriginRoute,
    RejectionTombstone, ResourceRoutePhase, SavedSpec, SubmissionState,
};
use homebased_daemon::time::{Span, Timestamp};

fn fresh() -> u128 {
    uuid::Uuid::now_v7().as_u128()
}

fn spec(name: &str, machine: Option<&str>) -> NormalizedSpec {
    NormalizedSpec {
        thread: ThreadId::parse("01a0ab97-a7aa-7463-a5b0-8d500e40e431").unwrap(),
        name: name.into(),
        cwd: "/tmp".into(),
        timeout: Span::from_secs(4 * 3600),
        machine: machine.map(str::to_string),
        workload: NormalizedWorkload::Task { command: vec!["echo".into(), "hello".into()] },
    }
}

fn env() -> TaskEnv {
    TaskEnv { path: "/bin".into(), home: "/tmp".into() }
}

fn direct_route() -> OriginRoute {
    let spec = spec("remote task", None);
    OriginRoute {
        request: RequestId(fresh()),
        task: TaskId(fresh()),
        origin_machine: MachineId(fresh()),
        execution_machine: MachineId(fresh()),
        thread: spec.thread,
        callback: CallbackContext {
            env: env(),
            cwd: "/tmp".into(),
            codex: CallbackExecutable::available("/bin/echo".into()),
        },
        spec: SavedSpec::Current(spec),
        submission: SubmissionState::AcceptanceUnknown,
        last_execution_state: None,
        last_updated_at: None,
        last_accepted_seq: 0,
        last_settled_seq: 0,
    }
}

fn response(status: u16, body: String) -> ClusterResponse {
    ClusterResponse { status: HttpStatus::new(status).unwrap(), body: body.into_bytes() }
}

fn identity_response(protocol_version: u32) -> (ClusterResponse, Result<IdentityBody, String>) {
    let body = format!(
        "{{\"api_version\":{API_VERSION},\"protocol_version\":{protocol_version},\"identity\":null}}"
    );
    (
        response(200, body),
        Ok(IdentityBody { api_version: API_VERSION, protocol_version, identity: None }),
    )
}

#[test]
fn identity_decoder_accepts_the_selected_protocol_version() {
    let route = direct_route();
    let selected = 2;

    let (answer, parsed) = identity_response(2);
    let identity = decode_identity(&route, &answer, parsed, selected).unwrap();

    assert_eq!(identity.protocol_version, selected);
    let (answer, parsed) = identity_response(1);
    assert!(matches!(
        decode_identity(&route, &answer, parsed, selected),
        Err(AppError::SubmissionOutcomeUnknown { .. })
    ));
}

#[test]
fn an_unusable_executor_answer_leaves_the_outcome_unknown() {
    let route = direct_route();
    let unknown = |status: u16, body: &str| {
        let parsed = Err("missing field".to_string());
        match decode_identity(&route, &response(status, body.to_string()), parsed, 2) {
            Err(AppError::SubmissionOutcomeUnknown { request, task, message }) => {
                assert_eq!((request, task), (route.request, route.task));
                message
            }
            _ => panic!("unknown outcome expected"),
        }
    };
    assert_eq!(unknown(503, ""), "executor returned HTTP 503 Service Unavailable");
    assert_eq!(
        unknown(200, "{\"api_version\":2}"),
        "executor returned an unsupported API version"
    );
    assert!(unknown(200, "nope").starts_with("invalid executor response: expected ident"));
    assert_eq!(
        unknown(200, "{\"api_version\":1}"),
        "invalid executor response: missing field"
    );
}

#[test]
fn preview_decoder_accepts_the_selected_protocol_version() {
    let selected = 2;
    let preview = |protocol_version: u32| PreviewBody {
        api_version: API_VERSION,
        protocol_version,
        cwd: "/tmp".into(),
        argv: vec!["echo".into(), "hello".into()],
        stdin: StdinPolicy::Null,
    };
    let version = |protocol: u32| {
        let body = format!(
            "{{\"api_version\":{API_VERSION},\"protocol_version\":{protocol},\"cwd\":\"/tmp\",\"argv\":[\"echo\",\"hello\"],\"stdin\":\"null\"}}"
        );
        check_body_version(&body.into_bytes(), API_VERSION)
    };

    assert_eq!(
        decode_preview(version(2), Ok(preview(2)), selected).unwrap().protocol_version,
        2
    );
    assert!(matches!(
        decode_preview(version(1), Ok(preview(1)), selected),
        Err(AppError::RemoteSubmissionUnavailable { .. })
    ));
    assert!(matches!(
        decode_preview(Err(VersionRefusal::Unsupported), Ok(preview(2)), selected),
        Err(AppError::RemoteSubmissionUnavailable { message })
            if message == "executor preview returned an unsupported API version"
    ));
    assert!(matches!(
        decode_preview(Ok(()), Err("bad stdin".into()), selected),
        Err(AppError::RemoteSubmissionUnavailable { message })
            if message == "invalid executor preview response: bad stdin"
    ));
}

#[test]
fn a_version_member_is_a_number() {
    assert!(check_version_member(Ok(Some(1)), 1).is_ok());
    assert!(matches!(check_version_member(Ok(Some(2)), 1), Err(VersionRefusal::Unsupported)));
    assert!(matches!(check_version_member(Ok(None), 1), Err(VersionRefusal::Unsupported)));
    assert!(matches!(
        check_version_member(Err("x".into()), 1),
        Err(VersionRefusal::Invalid(text)) if text == "x"
    ));
    assert!(matches!(
        check_body_version(&b"{\"api_version\":1.0}".to_vec(), 1),
        Err(VersionRefusal::Unsupported)
    ));
}

#[test]
fn direct_retry_rejects_a_saved_resource_request_before_reconciliation() {
    let mut route = direct_route();
    route.spec = SavedSpec::Current(spec("resource task", None));
    route.submission = SubmissionState::Resource {
        resource: ResourceId(fresh()),
        phase: ResourceRoutePhase::AcceptanceUnknown,
    };

    assert!(matches!(
        ensure_direct_route(&route),
        Err(AppError::SubmissionConflict { .. })
    ));
    assert!(matches!(
        route.submission,
        SubmissionState::Resource { phase: ResourceRoutePhase::AcceptanceUnknown, .. }
    ));
    assert!(matches!(
        reconcile(route),
        SubmitStep::Done(Err(AppError::SubmissionConflict { message, .. }))
            if message == "request UUID belongs to a resource route"
    ));
}

#[test]
fn a_migrated_task_has_no_remote_request() {
    let mut route = direct_route();
    route.spec = SavedSpec::MigratedLocal;
    assert!(matches!(
        ensure_direct_route(&route),
        Err(AppError::SubmissionConflict { message, .. })
            if message == "migrated local task has no remote request"
    ));
}

fn body(machine: Option<&str>, callback_cwd: Option<&str>) -> SubmitBody {
    SubmitBody {
        spec: spec("remote task", machine),
        env: env(),
        request: Some(RequestId(9)),
        callback_cwd: callback_cwd.map(str::to_string),
    }
}

fn saved(body: SubmitBody, reply: Option<OriginRoute>) -> SubmitStep {
    let SubmitStep::LockRequest { request, next } = submit(body) else { panic!() };
    assert_eq!(request, RequestId(9));
    let SubmitStep::AskSaved { message: StoreMsg::OriginRouteByRequest { request }, next } =
        next.on_locked(Ok(()))
    else {
        panic!()
    };
    assert_eq!(request, RequestId(9));
    next.on_saved(Ok(reply))
}

#[test]
fn a_new_request_is_saved_before_it_is_sent() {
    let SubmitStep::ResolveName { name, next } = saved(body(Some("code"), Some("/repo")), None)
    else {
        panic!()
    };
    assert_eq!(name, "code");
    let peer = MachineId(4);
    let SubmitStep::Connect { machine, next } =
        next.on_target(Some(Ok(NameTarget::Peer(peer))), "main")
    else {
        panic!()
    };
    assert_eq!(machine, peer);
    let SubmitStep::CheckCwd { cwd, next } = next.on_connected(Ok(2)) else { panic!() };
    assert_eq!(cwd, "/repo");
    let SubmitStep::ResolveCodex { path, next, .. } = next.on_checked(Ok(())) else { panic!() };
    assert_eq!(path, "/bin");
    let now = Timestamp::new(5, 0).unwrap();
    let SubmitStep::AskInsert { message: StoreMsg::InsertOriginRoute { route }, next } =
        next.on_codex(Ok("/bin/codex".into()), MachineId(1), TaskId(7), now)
    else {
        panic!()
    };
    assert!(matches!(route.submission, SubmissionState::AcceptanceUnknown));
    assert_eq!((route.origin_machine, route.execution_machine), (MachineId(1), peer));
    let SubmitStep::PostSubmit { wire, next } = next.on_inserted(Ok(route)) else { panic!() };
    assert_eq!(wire.task, TaskId(7));
    assert_eq!(wire.protocol_version, 2);
    assert!(wire.spec.unwrap().same(&spec("remote task", Some("code"))));
    // no answer: the outcome is unknown
    assert!(matches!(
        next.on_submitted(Err("reset".into())),
        SubmitStep::Done(Err(AppError::SubmissionOutcomeUnknown { message, .. }))
            if message == "reset"
    ));
}

#[test]
fn a_saved_request_is_not_sent_again() {
    let mut route = direct_route();
    route.request = RequestId(9);
    route.submission = SubmissionState::Accepted;
    route.last_execution_state = Some(ProcessStatus::Running);
    let task = route.task;
    assert!(matches!(
        saved(body(None, None), Some(route)),
        SubmitStep::Done(Ok(answer)) if answer.task == task
            && answer.status == ProcessStatus::Running && answer.request == RequestId(9)
    ));
    let mut other = body(None, None);
    other.spec.name = "another name".into();
    assert!(matches!(
        saved(other, Some(direct_route())),
        SubmitStep::Done(Err(AppError::SubmissionConflict { message, .. }))
            if message == "request UUID has different normalized content"
    ));
    let mut rejected = direct_route();
    rejected.submission = SubmissionState::Rejected { reason: "fenced".into() };
    assert!(matches!(
        finish_saved(rejected),
        SubmitStep::Done(Err(AppError::SubmissionRejected { reason, .. })) if reason == "fenced"
    ));
    let unknown = direct_route();
    let executor = unknown.execution_machine;
    assert!(matches!(
        saved(body(None, None), Some(unknown)),
        SubmitStep::ConnectRoute { machine, .. } if machine == executor
    ));
}

#[test]
fn a_remote_request_needs_another_machine_and_a_callback_directory() {
    assert!(matches!(
        submit(SubmitBody { request: None, ..body(None, None) }),
        SubmitStep::Done(Err(AppError::Internal { message }))
            if message == "remote dispatch has no request UUID"
    ));
    assert!(matches!(
        saved(body(None, None), None),
        SubmitStep::Done(Err(AppError::Internal { message }))
            if message == "remote dispatch has no machine"
    ));
    let target = |name: &str, target| {
        let SubmitStep::ResolveName { next, .. } = saved(body(Some(name), None), None) else {
            panic!()
        };
        next.on_target(target, "main")
    };
    assert!(matches!(
        target("main", None),
        SubmitStep::Done(Err(AppError::InvalidSpec { pointer, value, .. }))
            if pointer == "/machine" && value == "\"main\""
    ));
    assert!(matches!(
        target("code", None),
        SubmitStep::Done(Err(AppError::MachineNotFound { machine })) if machine == "code"
    ));
    assert!(matches!(
        target("x", Some(Ok(NameTarget::Local))),
        SubmitStep::Done(Err(AppError::InvalidSpec { .. }))
    ));
    let connected = |cwd: Option<&str>| {
        let SubmitStep::ResolveName { next, .. } = saved(body(Some("code"), cwd), None) else {
            panic!()
        };
        let SubmitStep::Connect { next, .. } =
            next.on_target(Some(Ok(NameTarget::Peer(MachineId(4)))), "main")
        else {
            panic!()
        };
        next.on_connected(Ok(2))
    };
    assert!(matches!(
        connected(None),
        SubmitStep::Done(Err(AppError::InvalidSpec { value, .. })) if value == "null"
    ));
    assert!(matches!(
        connected(Some("repo")),
        SubmitStep::Done(Err(AppError::InvalidSpec { value, message, .. }))
            if value == "\"repo\"" && message == "callback directory must be absolute"
    ));
}

#[test]
fn a_lost_insert_race_is_resolved_and_not_sent() {
    let wait = AwaitInserted {
        request: RequestId(9),
        task: TaskId(7),
        machine: MachineId(4),
        protocol: 2,
    };
    assert!(matches!(
        wait.on_inserted(Ok(direct_route())),
        SubmitStep::ConnectRoute { .. }
    ));
    let SubmitStep::AskFound { next, .. } =
        wait.on_inserted(Err(AppError::Usage { message: "duplicate".into() }))
    else {
        panic!()
    };
    assert!(matches!(
        next.on_found(Ok(Some(direct_route()))),
        SubmitStep::Done(Err(AppError::SubmissionConflict { message, .. }))
            if message == "duplicate"
    ));
}

fn retained(identity: Option<ExecutorIdentity>) -> IdentityReply {
    let body = format!("{{\"api_version\":{API_VERSION}}}");
    Ok((
        response(200, body),
        Ok(IdentityBody {
            api_version: API_VERSION,
            protocol_version: CLUSTER_PROTOCOL_VERSION,
            identity,
        }),
    ))
}

fn record(route: &OriginRoute, name: &str) -> ExecutorIdentity {
    ExecutorIdentity::Accepted(ExecutionRecord {
        task: route.task,
        origin_machine: route.origin_machine,
        execution_machine: route.execution_machine,
        spec: SavedSpec::Current(spec(name, None)),
        state: ProcessStatus::Running,
    })
}

#[test]
fn only_a_matching_identity_resolves_a_route() {
    let asked = || {
        let SubmitStep::ConnectRoute { next, .. } = reconcile(direct_route()) else { panic!() };
        let SubmitStep::GetIdentity { path, next } = next.on_connected(Some(Ok(()))) else {
            panic!()
        };
        assert!(path.starts_with("/v1/cluster/executions/"));
        next
    };
    let wait = asked();
    let identity = record(&wait.route, "remote task");
    let task = wait.route.task;
    let SubmitStep::AskResolve {
        message: StoreMsg::ResolveOriginRoute { id, outcome: SubmissionState::Accepted },
        next,
    } = wait.on_retained(retained(Some(identity)))
    else {
        panic!("the executor's own record decides");
    };
    assert_eq!(id, task);
    let mut resolved = direct_route();
    resolved.submission = SubmissionState::Accepted;
    assert!(matches!(
        next.on_resolved(Ok(resolved)),
        SubmitStep::Done(Ok(answer)) if answer.task == task
            && answer.status == ProcessStatus::Running
    ));

    let wait = asked();
    let other = record(&wait.route, "other content");
    assert!(matches!(
        wait.on_retained(retained(Some(other))),
        SubmitStep::Done(Err(AppError::SubmissionConflict { message, .. }))
            if message == "executor accepted a different identity"
    ));
    let wait = asked();
    let tombstone = ExecutorIdentity::Rejected(RejectionTombstone {
        task: wait.route.task,
        origin_machine: MachineId(1),
        execution_machine: wait.route.execution_machine,
        reason: "fenced".into(),
    });
    assert!(matches!(
        wait.on_retained(retained(Some(tombstone))),
        SubmitStep::Done(Err(AppError::SubmissionConflict { message, .. }))
            if message == "executor rejected a different owner"
    ));
}

#[test]
fn a_task_that_the_executor_does_not_know_is_fenced() {
    let SubmitStep::ConnectRoute { next, .. } = reconcile(direct_route()) else { panic!() };
    let SubmitStep::GetIdentity { next, .. } = next.on_connected(Some(Ok(()))) else { panic!() };
    let SubmitStep::ConnectAbandon { next, .. } = next.on_retained(retained(None)) else {
        panic!()
    };
    let SubmitStep::PostAbandon { wire, next } = next.on_connected(Ok(2)) else { panic!() };
    assert_eq!(wire.task, next.route.task);
    let tombstone = ExecutorIdentity::Rejected(RejectionTombstone {
        task: next.route.task,
        origin_machine: next.route.origin_machine,
        execution_machine: next.route.execution_machine,
        reason: "abandoned_before_acceptance".into(),
    });
    let SubmitStep::AskResolve { next, .. } = next.on_abandoned(retained(Some(tombstone))) else {
        panic!()
    };
    let mut resolved = direct_route();
    resolved.submission = SubmissionState::Rejected {
        reason: "abandoned_before_acceptance".into(),
    };
    let SubmitStep::Done(Err(error)) = next.on_resolved(Ok(resolved)) else { panic!() };
    assert!(!warns(&error));
    assert!(warns(&AppError::TaskNotFound { id: TaskId(1) }));
}

#[test]
fn an_unreachable_executor_keeps_the_route_unknown() {
    let SubmitStep::ConnectRoute { next, .. } = reconcile(direct_route()) else { panic!() };
    assert!(matches!(
        next.on_connected(None),
        SubmitStep::Done(Err(AppError::SubmissionOutcomeUnknown { message, .. }))
            if message == "fleet is disabled"
    ));
}

#[test]
fn submissions_share_sixty_four_locks() {
    assert_eq!(submission_shard(0), 0);
    assert_eq!(submission_shard(65), 1);
    assert_eq!(submission_shard(u64::MAX), 63);
}

#[test]
fn a_dry_run_for_this_machine_stays_here() {
    let PreviewStep::ResolveName { next, .. } = dry_run(spec("t", Some("main")), env()) else {
        panic!()
    };
    let PreviewStep::Local(DryRunStep::CheckCwd {
        next: AwaitPreviewCwd { spec: local, env: kept },
        ..
    }) = next.on_target(None, "main")
    else {
        panic!()
    };
    assert!(local.machine.is_none());
    assert_eq!(kept.path, env().path);
    assert!(matches!(
        dry_run(spec("t", None), env()),
        PreviewStep::Done(Err(AppError::Internal { .. }))
    ));
}

#[test]
fn a_remote_dry_run_shows_the_executors_invocation() {
    let PreviewStep::ResolveName { next, .. } = dry_run(spec("t", Some("code")), env()) else {
        panic!()
    };
    let PreviewStep::Connect { next, .. } =
        next.on_target(Some(Ok(NameTarget::Peer(MachineId(4)))), "main")
    else {
        panic!()
    };
    let PreviewStep::Post { wire, next } = next.on_connected(Ok(2)) else { panic!() };
    assert_eq!(wire.destination_machine, MachineId(4));
    let reply = Ok((
        response(200, "{\"api_version\":1}".into()),
        Ok(PreviewBody {
            api_version: API_VERSION,
            protocol_version: 2,
            cwd: "/srv".into(),
            argv: vec!["echo".into()],
            stdin: StdinPolicy::Null,
        }),
    ));
    let PreviewStep::Done(Ok(shown)) = next.on_preview(reply) else { panic!() };
    assert_eq!(shown.execution_cwd.as_deref(), Some("/srv"));
    assert_eq!(shown.argv, vec!["echo".to_string()]);
    assert!(shown.managed_environment.is_none());
}
