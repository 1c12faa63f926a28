//! Peer endpoints: resource requests, executions and their guards.

use std::sync::Arc;

use homebased_daemon::cluster::resource_request::{
    rejected_resource_route_reason, resource_queue_response_from_stored,
    resource_route_requires_retained_request, retained_resource_request,
    validate_resource_route_proof, ResourceQueueRequest, ResourceQueueResponse,
};
use homebased_daemon::cluster::submit::expand_executor_cwd;
use homebased_daemon::cluster::{
    check, check_protocol, check_request, origin_summary, tasks, IdentitySummary, ReadQuery,
};
use homebased_daemon::domain::{
    new_queued_task, ExitReason, NormalizedSpec, NormalizedWorkload, SpecDigest, TaskEnv,
};
use homebased_daemon::error::AppError;
use homebased_daemon::events::FailedInboxEvent;
use homebased_daemon::fleet::{API_VERSION, CLUSTER_PROTOCOL_VERSION};
use homebased_daemon::ids::{LoanId, MachineId, RequestId, ResourceId, TaskId, ThreadId};
use homebased_daemon::resource::{ResourceRequest, ResourceRequestState};
use homebased_daemon::submission::{
    CallbackContext, CallbackExecutable, OriginRoute, ResourceQueueOutcome, ResourceRoutePhase,
    ResourceRouteProof, SavedSpec, SubmissionState,
};
use homebased_daemon::time::{Span, Timestamp};

fn fresh() -> u128 {
    uuid::Uuid::now_v7().as_u128()
}

const DIGEST: SpecDigest = SpecDigest { high: 7, low: 11 };

fn spec(thread: ThreadId) -> NormalizedSpec {
    NormalizedSpec {
        thread,
        name: "queued command".to_string(),
        cwd: "/tmp".to_string(),
        timeout: Span::from_secs(30 * 60),
        machine: None,
        workload: NormalizedWorkload::Task {
            command: vec!["echo".to_string(), "hello".to_string()],
        },
    }
}

fn request() -> ResourceQueueRequest {
    ResourceQueueRequest {
        api_version: API_VERSION,
        protocol_version: CLUSTER_PROTOCOL_VERSION,
        destination_machine: MachineId(fresh()),
        origin_machine: MachineId(fresh()),
        request_id: RequestId(fresh()),
        task_id: TaskId(fresh()),
        resource_id: ResourceId(fresh()),
        spec: spec(ThreadId(fresh())),
        spec_digest: Ok(DIGEST),
    }
}

fn proof_of(
    request: &ResourceQueueRequest,
    authority_machine: MachineId,
    phase: ResourceRoutePhase,
) -> ResourceRouteProof {
    ResourceRouteProof {
        request: request.request_id,
        task: request.task_id,
        origin_machine: request.origin_machine,
        authority_machine,
        resource: request.resource_id,
        thread: request.spec.thread,
        normalized_spec_sha256: DIGEST,
        phase,
    }
}

#[test]
fn missing_or_mismatched_origin_proof_cannot_reach_acceptance() {
    let request = request();
    let authority_machine = request.destination_machine;

    assert!(matches!(
        validate_resource_route_proof(&request, authority_machine, None),
        Err(AppError::RemoteSubmissionUnavailable { .. })
    ));

    let mut mismatched = proof_of(
        &request,
        authority_machine,
        ResourceRoutePhase::AcceptanceUnknown,
    );
    mismatched.request = RequestId(fresh());
    assert!(matches!(
        validate_resource_route_proof(&request, authority_machine, Some(mismatched)),
        Err(AppError::SubmissionConflict { .. })
    ));
}

#[test]
fn route_proof_must_bind_authority_thread_and_normalized_spec() {
    let request = request();
    let authority_machine = request.destination_machine;
    for phase in [
        ResourceRoutePhase::AcceptanceUnknown,
        ResourceRoutePhase::Waiting,
        ResourceRoutePhase::Activated,
    ] {
        let found = validate_resource_route_proof(
            &request,
            authority_machine,
            Some(proof_of(&request, authority_machine, phase.clone())),
        )
        .unwrap();
        assert!(found.same(&phase));
    }

    let shown = || proof_of(&request, authority_machine, ResourceRoutePhase::AcceptanceUnknown);
    let mut mismatched_proofs = Vec::new();
    let mut wrong_task = shown();
    wrong_task.task = TaskId(fresh());
    mismatched_proofs.push(wrong_task);
    let mut wrong_resource = shown();
    wrong_resource.resource = ResourceId(fresh());
    mismatched_proofs.push(wrong_resource);
    let mut wrong_origin = shown();
    wrong_origin.origin_machine = MachineId(fresh());
    mismatched_proofs.push(wrong_origin);
    let mut wrong_authority = shown();
    wrong_authority.authority_machine = MachineId(fresh());
    mismatched_proofs.push(wrong_authority);
    let mut wrong_thread = shown();
    wrong_thread.thread = ThreadId(fresh());
    mismatched_proofs.push(wrong_thread);
    let mut wrong_spec = shown();
    wrong_spec.normalized_spec_sha256 = SpecDigest { high: 0, low: 0 };
    mismatched_proofs.push(wrong_spec);

    for mismatched in mismatched_proofs {
        assert!(matches!(
            validate_resource_route_proof(&request, authority_machine, Some(mismatched)),
            Err(AppError::SubmissionConflict { .. })
        ));
    }
}

#[test]
fn terminal_origin_phases_return_typed_rejections() {
    assert_eq!(
        rejected_resource_route_reason(&ResourceRoutePhase::CancelledBeforeLaunch),
        Some("cancelled_before_launch".into())
    );
    assert_eq!(
        rejected_resource_route_reason(&ResourceRoutePhase::Rejected {
            reason: "origin_cancelled".into(),
        }),
        Some("origin_cancelled".into())
    );
    assert_eq!(
        rejected_resource_route_reason(&ResourceRoutePhase::Activated),
        None
    );
}

#[test]
fn accepted_origin_phases_require_a_retained_authority_request() {
    assert!(!resource_route_requires_retained_request(
        &ResourceRoutePhase::AcceptanceUnknown
    ));
    assert!(resource_route_requires_retained_request(
        &ResourceRoutePhase::Waiting
    ));
    assert!(resource_route_requires_retained_request(
        &ResourceRoutePhase::Activated
    ));
}

#[test]
fn accepted_origin_retry_without_retained_authority_row_conflicts() {
    let request = request();
    assert!(matches!(
        retained_resource_request(&request, Vec::new()),
        Err(AppError::SubmissionConflict { .. })
    ));
}

fn accepted_request(
    request: &ResourceQueueRequest,
    state: ResourceRequestState,
) -> ResourceRequest {
    ResourceRequest {
        request_id: request.request_id,
        task_id: request.task_id,
        resource_id: request.resource_id,
        acceptance_sequence: 1,
        origin_machine: request.origin_machine,
        state,
        spec: Arc::new(spec(ThreadId(1))),
        spec_digest: Ok(DIGEST),
    }
}

fn answered(request: &ResourceQueueRequest, state: ResourceRequestState) -> ResourceQueueResponse {
    resource_queue_response_from_stored(
        request,
        request.destination_machine,
        accepted_request(request, state),
    )
    .unwrap()
}

#[test]
fn accepted_retry_receipt_stays_waiting_after_queue_state_changes() {
    let request = request();
    let first = answered(&request, ResourceRequestState::Queued);
    let retry_assigned = answered(
        &request,
        ResourceRequestState::Assigned { loan_id: LoanId(fresh()) },
    );
    let retry_finished = answered(
        &request,
        ResourceRequestState::Finished { outcome: ExitReason::Exit { code: 0 } },
    );

    for retry in [&retry_assigned, &retry_finished] {
        assert_eq!(first.api_version, retry.api_version);
        assert_eq!(first.protocol_version, retry.protocol_version);
        assert_eq!(first.receipt.request, retry.receipt.request);
        assert_eq!(first.receipt.task, retry.receipt.task);
        assert_eq!(first.receipt.origin_machine, retry.receipt.origin_machine);
        assert_eq!(first.receipt.authority_machine, retry.receipt.authority_machine);
        assert_eq!(first.receipt.resource, retry.receipt.resource);
        assert!(matches!(retry.receipt.outcome, ResourceQueueOutcome::Waiting));
    }
    assert!(matches!(first.receipt.outcome, ResourceQueueOutcome::Waiting));

    let cancelled = answered(&request, ResourceRequestState::CancelledBeforeLaunch);
    assert!(matches!(
        cancelled.receipt.outcome,
        ResourceQueueOutcome::Rejected { reason } if reason == "cancelled_before_launch"
    ));
    let rejected = answered(
        &request,
        ResourceRequestState::Rejected { reason: "cancelled_before_acceptance".into() },
    );
    assert!(matches!(
        rejected.receipt.outcome,
        ResourceQueueOutcome::Rejected { reason } if reason == "cancelled_before_acceptance"
    ));
}

#[test]
fn a_stored_request_with_other_content_conflicts() {
    let request = request();
    let mut stored = accepted_request(&request, ResourceRequestState::Queued);
    stored.spec_digest = Ok(SpecDigest { high: 0, low: 1 });
    assert!(resource_queue_response_from_stored(&request, request.destination_machine, stored)
        .is_err());
}

#[test]
fn a_request_for_another_machine_or_version_is_refused() {
    let local = MachineId(fresh());
    let other = MachineId(fresh());
    let source = MachineId(fresh());
    assert!(check_request(local, local, API_VERSION, CLUSTER_PROTOCOL_VERSION, source).is_ok());
    assert!(matches!(
        check_request(local, other, API_VERSION, CLUSTER_PROTOCOL_VERSION, source),
        Err(AppError::MachineIdentityMismatch { expected, found: Some(found) })
            if expected == other && found == local
    ));
    assert!(matches!(
        check_request(local, local, API_VERSION + 1, CLUSTER_PROTOCOL_VERSION, source),
        Err(AppError::Usage { .. })
    ));
    assert!(matches!(
        check_request(local, local, API_VERSION, CLUSTER_PROTOCOL_VERSION + 1, source),
        Err(AppError::ClusterProtocolIncompatible { machine, .. }) if machine == source
    ));
    assert!(check_protocol(1, source).is_ok());
    assert!(check_protocol(0, source).is_err());
    assert!(check(
        local,
        ReadQuery { api_version: API_VERSION, destination_machine: local },
    )
    .is_ok());
}

#[test]
fn relative_executor_directories_stay_below_home() {
    assert_eq!(expand_executor_cwd("/srv/x", Some("/home/u")).unwrap(), "/srv/x");
    assert_eq!(expand_executor_cwd("~/x/y", Some("/home/u")).unwrap(), "/home/u/x/y");
    assert!(matches!(
        expand_executor_cwd("~/../etc", Some("/home/u")),
        Err(AppError::InvalidSpec { pointer, value, .. })
            if pointer == "/spec/cwd" && value == "\"~/../etc\""
    ));
    assert!(matches!(
        expand_executor_cwd("~/x", None),
        Err(AppError::RemoteSubmissionUnavailable { .. })
    ));
    assert!(matches!(
        expand_executor_cwd("~/x", Some("home")),
        Err(AppError::RemoteSubmissionUnavailable { .. })
    ));
    assert!(expand_executor_cwd("x", Some("/home/u")).is_err());
}

#[test]
fn a_peer_sees_no_raw_callback_error() {
    let route = OriginRoute {
        request: RequestId(fresh()),
        task: TaskId(fresh()),
        origin_machine: MachineId(fresh()),
        execution_machine: MachineId(fresh()),
        thread: ThreadId(fresh()),
        callback: CallbackContext {
            env: TaskEnv { path: "/bin".into(), home: "/tmp".into() },
            cwd: "/tmp".into(),
            codex: CallbackExecutable::available("/bin/echo".into()),
        },
        spec: SavedSpec::MigratedLocal,
        submission: SubmissionState::Accepted,
        last_execution_state: None,
        last_updated_at: None,
        last_accepted_seq: 3,
        last_settled_seq: 2,
    };
    let task = route.task;
    let body = origin_summary(
        Some(route),
        &vec![FailedInboxEvent { seq: 3, attempts: 2, last_error: "token in output".into() }],
    );
    let summary = body.origin.unwrap();
    assert_eq!(summary.task, task);
    assert_eq!(summary.failed_events.len(), 1);
    assert_eq!(summary.failed_events[0].seq, 3);
    assert_eq!(summary.failed_events[0].error, "callback_delivery_failed");
    assert!(origin_summary(None, &Vec::new()).origin.is_none());
}

#[test]
fn listed_executions_are_this_machines_own() {
    let local = MachineId(fresh());
    let row = new_queued_task(
        TaskId(fresh()),
        ThreadId(fresh()),
        Span::from_secs(60),
        Timestamp::new(5, 0).unwrap(),
    );
    let body = tasks(local, &vec![row]);
    assert_eq!(body.executions.len(), 1);
    assert_eq!(body.executions[0].task, row.id);
    assert_eq!(body.executions[0].execution_machine, local);
}

#[test]
fn an_identity_names_its_task_and_owners() {
    let identity = IdentitySummary::Rejected {
        task: TaskId(1),
        origin_machine: MachineId(2),
        execution_machine: MachineId(3),
        reason: "fenced".into(),
    };
    assert_eq!(identity.task(), TaskId(1));
    assert_eq!(identity.owners(), (MachineId(2), MachineId(3)));
}
