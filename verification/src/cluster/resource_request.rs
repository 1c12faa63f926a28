//! Acceptance of a resource request at its authority.
//!
//! An authority accepts a request only under a proof from its origin, and answers a retry
//! with the same receipt whatever became of the request since.

use vstd::prelude::*;

use crate::actors::store::StoreMsg;
use crate::cluster::{check_request, gate, retained_proof, OriginResourceRouteProofBody};
use crate::domain::{NormalizedSpec, SpecDigest};
use crate::error::{result_view, AppError, ErrorView};
use crate::fleet::{http_status_text, HttpStatus, API_VERSION};
use crate::ids::{hyphenated, MachineId, RequestId, ResourceId, TaskId};
use crate::resource::{ResourceRequest, ResourceRequestState};
use crate::submission::{
    OriginRoute, PhaseView, QueueOutcomeView, ResourceQueueOutcome, ResourceQueueReceipt,
    ResourceRoutePhase, ResourceRouteProof,
};
use crate::text::{decimal, decimal_digits, join2, join3};

verus! {

/// A request for a resource, as its origin sends it.
#[derive(Debug)]
pub struct ResourceQueueRequest {
    pub api_version: u32,
    pub protocol_version: u32,
    pub destination_machine: MachineId,
    pub origin_machine: MachineId,
    pub request_id: RequestId,
    pub task_id: TaskId,
    pub resource_id: ResourceId,
    pub spec: NormalizedSpec,
    /// Digest of the specification, or why it cannot be computed.
    pub spec_digest: Result<SpecDigest, String>,
}

/// The authority's answer to a resource request.
#[derive(Debug)]
pub struct ResourceQueueResponse {
    pub api_version: u32,
    pub protocol_version: u32,
    pub receipt: ResourceQueueReceipt,
}

/// A [`ResourceQueueResponse`] with its texts as character sequences.
pub struct ResponseView {
    pub api_version: u32,
    pub protocol_version: u32,
    pub request: RequestId,
    pub task: TaskId,
    pub origin_machine: MachineId,
    pub authority_machine: MachineId,
    pub resource: ResourceId,
    pub outcome: QueueOutcomeView,
}

impl View for ResourceQueueResponse {
    type V = ResponseView;

    open spec fn view(&self) -> ResponseView {
        ResponseView {
            api_version: self.api_version,
            protocol_version: self.protocol_version,
            request: self.receipt.request,
            task: self.receipt.task,
            origin_machine: self.receipt.origin_machine,
            authority_machine: self.receipt.authority_machine,
            resource: self.receipt.resource,
            outcome: self.receipt.outcome@,
        }
    }
}

/// Whether a proof is about exactly this request at this authority.
pub open spec fn proof_matches(
    request: ResourceQueueRequest,
    authority_machine: MachineId,
    shown: ResourceRouteProof,
    digest: SpecDigest,
) -> bool {
    &&& shown.request == request.request_id
    &&& shown.task == request.task_id
    &&& shown.resource == request.resource_id
    &&& shown.origin_machine == request.origin_machine
    &&& shown.authority_machine == authority_machine
    &&& shown.thread == request.spec.thread
    &&& shown.normalized_spec_sha256 == digest
}

/// What [`validate_resource_route_proof`] makes of a proof.
pub open spec fn proof_phase(
    request: ResourceQueueRequest,
    authority_machine: MachineId,
    shown: Option<ResourceRouteProof>,
) -> Result<ResourceRoutePhase, ErrorView> {
    match shown {
        None => Err(
            ErrorView::RemoteSubmissionUnavailable {
                message: "origin has no valid resource-route proof for the task"@,
            },
        ),
        Some(shown) => match request.spec_digest {
            Err(error) => Err(
                ErrorView::Internal {
                    message: "serialize resource command specification: "@ + error@,
                },
            ),
            Ok(digest) => if proof_matches(request, authority_machine, shown, digest) {
                Ok(shown.phase)
            } else {
                Err(
                    ErrorView::SubmissionConflict {
                        request: request.request_id,
                        task: request.task_id,
                        message: "origin resource-route proof does not match this request"@,
                    },
                )
            },
        },
    }
}

/// The phase that a proof shows, when it is about exactly this request.
pub fn validate_resource_route_proof(
    request: &ResourceQueueRequest,
    authority_machine: MachineId,
    shown: Option<ResourceRouteProof>,
) -> (phase: Result<ResourceRoutePhase, AppError>)
    ensures
        result_view(phase) == proof_phase(*request, authority_machine, shown),
{
    let shown = match shown {
        Some(shown) => shown,
        None => {
            return Err(
                AppError::RemoteSubmissionUnavailable {
                    message: "origin has no valid resource-route proof for the task".to_owned(),
                },
            );
        },
    };
    let digest = match &request.spec_digest {
        Ok(digest) => *digest,
        Err(error) => {
            return Err(
                AppError::Internal {
                    message: join2("serialize resource command specification: ", error.as_str()),
                },
            );
        },
    };
    if shown.request != request.request_id || shown.task != request.task_id || shown.resource
        != request.resource_id || shown.origin_machine != request.origin_machine
        || shown.authority_machine != authority_machine || shown.thread != request.spec.thread
        || shown.normalized_spec_sha256 != digest {
        return Err(
            AppError::SubmissionConflict {
                request: request.request_id,
                task: request.task_id,
                message: "origin resource-route proof does not match this request".to_owned(),
            },
        );
    }
    Ok(shown.phase)
}

/// Why an origin's phase answers a request with a rejection, if it does.
pub open spec fn phase_rejection(phase: PhaseView) -> Option<Seq<char>> {
    match phase {
        PhaseView::CancelledBeforeLaunch => Some("cancelled_before_launch"@),
        PhaseView::Rejected { reason } => Some(reason),
        _ => None,
    }
}

/// Why an origin's phase answers a request with a rejection, if it does.
pub fn rejected_resource_route_reason(phase: &ResourceRoutePhase) -> (reason: Option<String>)
    ensures
        match phase_rejection(phase@) {
            Some(text) => reason matches Some(reason) && reason@ == text,
            None => reason is None,
        },
{
    match phase {
        ResourceRoutePhase::AcceptanceUnknown | ResourceRoutePhase::Waiting
        | ResourceRoutePhase::Activated => None,
        ResourceRoutePhase::CancelledBeforeLaunch => Some("cancelled_before_launch".to_owned()),
        ResourceRoutePhase::Rejected { reason } => Some(reason.clone()),
    }
}

/// Whether an origin's phase says that the authority accepted the request before.
pub fn resource_route_requires_retained_request(phase: &ResourceRoutePhase) -> (requires_it: bool)
    ensures
        requires_it == (phase is Waiting || phase is Activated),
{
    match phase {
        ResourceRoutePhase::Waiting | ResourceRoutePhase::Activated => true,
        _ => false,
    }
}

/// The conflict of an accepted request that the authority does not hold.
pub open spec fn retention_conflict(request: ResourceQueueRequest) -> ErrorView {
    ErrorView::SubmissionConflict {
        request: request.request_id,
        task: request.task_id,
        message:
            "origin route says the resource request was already accepted, but the authority has no retained request"@,
    }
}

/// The conflict of an accepted request that the authority does not hold.
pub fn resource_route_retention_conflict(request: &ResourceQueueRequest) -> (error: AppError)
    ensures
        error@ == retention_conflict(*request),
{
    AppError::SubmissionConflict {
        request: request.request_id,
        task: request.task_id,
        message:
            "origin route says the resource request was already accepted, but the authority has no retained request".to_owned(),
    }
}

/// The first stored request with this identity.
pub open spec fn first_request(requests: Seq<ResourceRequest>, request_id: RequestId) -> Option<
    ResourceRequest,
>
    decreases requests.len(),
{
    if requests.len() == 0 {
        None
    } else if requests[0].request_id == request_id {
        Some(requests[0])
    } else {
        first_request(requests.drop_first(), request_id)
    }
}

/// The stored request of a retry.
pub fn retained_resource_request(request: &ResourceQueueRequest, requests: Vec<ResourceRequest>) -> (stored:
    Result<ResourceRequest, AppError>)
    ensures
        result_view(stored) == (match first_request(requests@, request.request_id) {
            Some(stored) => Ok(stored),
            None => Err(retention_conflict(*request)),
        }),
{
    let mut index: usize = 0;
    proof {
        assert(requests@.skip(0) =~= requests@);
    }
    while index < requests.len()
        invariant
            index <= requests.len(),
            first_request(requests@, request.request_id) == first_request(
                requests@.skip(index as int),
                request.request_id,
            ),
        decreases requests.len() - index,
    {
        proof {
            assert(requests@.skip(index as int)[0] == requests@[index as int]);
            assert(requests@.skip(index as int).drop_first() =~= requests@.skip(index as int + 1));
        }
        if requests[index].request_id == request.request_id {
            return Ok(requests[index].clone());
        }
        index += 1;
    }
    Err(resource_route_retention_conflict(request))
}

/// The answer with this outcome.
pub open spec fn response_view(
    request: ResourceQueueRequest,
    authority_machine: MachineId,
    outcome: QueueOutcomeView,
) -> ResponseView {
    ResponseView {
        api_version: API_VERSION,
        protocol_version: request.protocol_version,
        request: request.request_id,
        task: request.task_id,
        origin_machine: request.origin_machine,
        authority_machine,
        resource: request.resource_id,
        outcome,
    }
}

/// The answer with this outcome.
pub fn resource_queue_response(
    request: &ResourceQueueRequest,
    authority_machine: MachineId,
    outcome: ResourceQueueOutcome,
) -> (response: ResourceQueueResponse)
    ensures
        response@ == response_view(*request, authority_machine, outcome@),
        response.receipt.outcome == outcome,
{
    ResourceQueueResponse {
        api_version: API_VERSION,
        protocol_version: request.protocol_version,
        receipt: ResourceQueueReceipt {
            request: request.request_id,
            task: request.task_id,
            origin_machine: request.origin_machine,
            authority_machine,
            resource: request.resource_id,
            outcome,
        },
    }
}

/// What a stored request's state answers a retry with.
///
/// Waiting stays the answer of an accepted request, whatever became of it.
pub open spec fn stored_outcome(state: ResourceRequestState) -> QueueOutcomeView {
    match state {
        ResourceRequestState::Queued => QueueOutcomeView::Waiting,
        ResourceRequestState::Assigned { .. } => QueueOutcomeView::Waiting,
        ResourceRequestState::Finished { .. } => QueueOutcomeView::Waiting,
        ResourceRequestState::CancelledBeforeLaunch => QueueOutcomeView::Rejected {
            reason: "cancelled_before_launch"@,
        },
        ResourceRequestState::Rejected { reason } => QueueOutcomeView::Rejected { reason: reason@ },
    }
}

/// Whether a stored request is the one that a retry asks for.
pub open spec fn stored_matches(
    request: ResourceQueueRequest,
    stored: ResourceRequest,
    stored_digest: SpecDigest,
    digest: SpecDigest,
) -> bool {
    &&& stored.request_id == request.request_id
    &&& stored.task_id == request.task_id
    &&& stored.resource_id == request.resource_id
    &&& stored.origin_machine == request.origin_machine
    &&& stored_digest == digest
}

/// What a stored request answers.
pub open spec fn stored_response(
    request: ResourceQueueRequest,
    authority_machine: MachineId,
    stored: ResourceRequest,
) -> Result<ResponseView, ErrorView> {
    match (stored.spec_digest, request.spec_digest) {
        (Err(error), _) => Err(
            ErrorView::Internal {
                message: "serialize stored resource command specification: "@ + error@,
            },
        ),
        (Ok(_), Err(error)) => Err(
            ErrorView::Internal {
                message: "serialize resource command specification: "@ + error@,
            },
        ),
        (Ok(stored_digest), Ok(digest)) => if stored_matches(
            request,
            stored,
            stored_digest,
            digest,
        ) {
            Ok(response_view(request, authority_machine, stored_outcome(stored.state)))
        } else {
            Err(
                ErrorView::SubmissionConflict {
                    request: request.request_id,
                    task: request.task_id,
                    message: "stored resource request does not match this retry"@,
                },
            )
        },
    }
}

/// Whether an answer has this view.
pub open spec fn answers(
    result: Result<ResourceQueueResponse, AppError>,
    view: Result<ResponseView, ErrorView>,
) -> bool {
    match view {
        Ok(view) => result matches Ok(response) && response@ == view,
        Err(error) => result matches Err(found) && found@ == error,
    }
}

/// What a stored request answers.
pub fn resource_queue_response_from_stored(
    request: &ResourceQueueRequest,
    authority_machine: MachineId,
    stored: ResourceRequest,
) -> (response: Result<ResourceQueueResponse, AppError>)
    ensures
        answers(response, stored_response(*request, authority_machine, stored)),
{
    let stored_digest = match &stored.spec_digest {
        Ok(digest) => *digest,
        Err(error) => {
            return Err(
                AppError::Internal {
                    message: join2(
                        "serialize stored resource command specification: ",
                        error.as_str(),
                    ),
                },
            );
        },
    };
    let digest = match &request.spec_digest {
        Ok(digest) => *digest,
        Err(error) => {
            return Err(
                AppError::Internal {
                    message: join2("serialize resource command specification: ", error.as_str()),
                },
            );
        },
    };
    if stored.request_id != request.request_id || stored.task_id != request.task_id
        || stored.resource_id != request.resource_id || stored.origin_machine
        != request.origin_machine || stored_digest != digest {
        return Err(
            AppError::SubmissionConflict {
                request: request.request_id,
                task: request.task_id,
                message: "stored resource request does not match this retry".to_owned(),
            },
        );
    }
    let outcome = match stored.state {
        ResourceRequestState::Queued | ResourceRequestState::Assigned { .. }
        | ResourceRequestState::Finished { .. } => ResourceQueueOutcome::Waiting,
        ResourceRequestState::CancelledBeforeLaunch => ResourceQueueOutcome::Rejected {
            reason: "cancelled_before_launch".to_owned(),
        },
        ResourceRequestState::Rejected { reason } => ResourceQueueOutcome::Rejected { reason },
    };
    Ok(resource_queue_response(request, authority_machine, outcome))
}

/// Next part of accepting one resource request.
#[derive(Debug)]
pub enum AcceptStep {
    /// The route that this machine itself holds.
    AskRoute { message: StoreMsg, next: AwaitProof },
    /// Read the proof from the origin at this path.
    FetchProof { origin: MachineId, path: String, next: AwaitProof },
    AskRequests { message: StoreMsg, next: AwaitRetained },
    AskAccept { message: StoreMsg, next: AwaitAccepted },
    Done(Result<ResourceQueueResponse, AppError>),
}

/// Waiting for the origin's proof.
#[derive(Debug)]
pub struct AwaitProof {
    pub authority_machine: MachineId,
    pub request: ResourceQueueRequest,
}

/// Waiting for the retained requests of the resource.
#[derive(Debug)]
pub struct AwaitRetained {
    pub authority_machine: MachineId,
    pub request: ResourceQueueRequest,
}

/// Waiting for the accepted request.
#[derive(Debug)]
pub struct AwaitAccepted {
    pub authority_machine: MachineId,
    pub request: ResourceQueueRequest,
}

/// Path of a task's resource-route proof on its origin.
pub open spec fn proof_path(task: TaskId, origin: MachineId) -> Seq<char> {
    "/v1/cluster/origin/resource-routes/"@ + hyphenated(task.0) + "?api_version="@ + (
    decimal_digits(API_VERSION as nat) + "&destination_machine="@ + hyphenated(origin.0))
}

/// Accept one resource request under a proof from its origin.
pub fn accept_resource_request(authority_machine: MachineId, request: ResourceQueueRequest) -> (step:
    AcceptStep)
    ensures
        match gate(
            authority_machine,
            request.destination_machine,
            request.api_version,
            request.protocol_version,
            request.origin_machine,
        ) {
            Err(error) => step matches AcceptStep::Done(Err(found)) && found@ == error,
            Ok(_) => if request.origin_machine == authority_machine {
                step == (AcceptStep::AskRoute {
                    message: StoreMsg::OriginRoute { id: request.task_id },
                    next: AwaitProof { authority_machine, request },
                })
            } else {
                step matches AcceptStep::FetchProof { origin, path, next } && origin
                    == request.origin_machine && path@ == proof_path(
                    request.task_id,
                    request.origin_machine,
                ) && next == (AwaitProof { authority_machine, request })
            },
        },
{
    match check_request(
        authority_machine,
        request.destination_machine,
        request.api_version,
        request.protocol_version,
        request.origin_machine,
    ) {
        Ok(_) => {},
        Err(error) => {
            return AcceptStep::Done(Err(error));
        },
    }
    if request.origin_machine == authority_machine {
        return AcceptStep::AskRoute {
            message: StoreMsg::OriginRoute { id: request.task_id },
            next: AwaitProof { authority_machine, request },
        };
    }
    let task = request.task_id.text();
    let origin = request.origin_machine.text();
    let version = decimal(API_VERSION as u64);
    let head = join3("/v1/cluster/origin/resource-routes/", task.as_str(), "?api_version=");
    let tail = join3(version.as_str(), "&destination_machine=", origin.as_str());
    AcceptStep::FetchProof {
        origin: request.origin_machine,
        path: join2(head.as_str(), tail.as_str()),
        next: AwaitProof { authority_machine, request },
    }
}

/// What became of the read of a proof from its origin.
#[derive(Debug)]
pub enum ProofRead {
    /// This machine is in no fleet.
    FleetDisabled,
    /// The origin could not be reached; the text says why.
    Unreachable(String),
    /// An answer: `body` is its body read as a proof, or the parser's text.
    Answered { status: HttpStatus, body: Result<OriginResourceRouteProofBody, String> },
}

/// What a read proof means; only a status of 200 carries one.
pub open spec fn fetched_proof(read: ProofRead) -> Result<Option<ResourceRouteProof>, ErrorView> {
    match read {
        ProofRead::FleetDisabled => Err(
            ErrorView::RemoteSubmissionUnavailable {
                message: "origin resource-route proof is unavailable"@,
            },
        ),
        ProofRead::Unreachable(error) => Err(
            ErrorView::RemoteSubmissionUnavailable {
                message: "origin resource-route proof is unavailable: "@ + error@,
            },
        ),
        ProofRead::Answered { status, body } => if status.number() != 200 {
            Err(
                ErrorView::RemoteSubmissionUnavailable {
                    message: "origin resource-route proof is unavailable: HTTP "@
                        + http_status_text(status.number()),
                },
            )
        } else {
            match body {
                Err(error) => Err(
                    ErrorView::RemoteSubmissionUnavailable {
                        message: "invalid origin resource-route proof: "@ + error@,
                    },
                ),
                Ok(body) => if body.api_version == API_VERSION {
                    Ok(body.proof)
                } else {
                    Err(
                        ErrorView::RemoteSubmissionUnavailable {
                            message: "origin resource-route proof uses an unsupported API version"@,
                        },
                    )
                },
            }
        },
    }
}

fn unavailable(message: String) -> (error: AppError)
    ensures
        error@ == (ErrorView::RemoteSubmissionUnavailable { message: message@ }),
{
    AppError::RemoteSubmissionUnavailable { message }
}

/// Check the proof that was read from a remote origin.
pub fn resource_route_proof(read: ProofRead) -> (shown: Result<
    Option<ResourceRouteProof>,
    AppError,
>)
    ensures
        result_view(shown) == fetched_proof(read),
{
    match read {
        ProofRead::FleetDisabled => Err(
            unavailable("origin resource-route proof is unavailable".to_owned()),
        ),
        ProofRead::Unreachable(error) => Err(
            unavailable(join2("origin resource-route proof is unavailable: ", error.as_str())),
        ),
        ProofRead::Answered { status, body } => {
            if !status.is_ok() {
                let text = status.text();
                return Err(
                    unavailable(
                        join2("origin resource-route proof is unavailable: HTTP ", text.as_str()),
                    ),
                );
            }
            let body = match body {
                Ok(body) => body,
                Err(error) => {
                    return Err(
                        unavailable(join2("invalid origin resource-route proof: ", error.as_str())),
                    );
                },
            };
            if body.api_version != API_VERSION {
                return Err(
                    unavailable(
                        "origin resource-route proof uses an unsupported API version".to_owned(),
                    ),
                );
            }
            Ok(body.proof)
        },
    }
}

/// What a valid phase asks for.
pub open spec fn accepted_under(
    waiting: AwaitProof,
    phase: ResourceRoutePhase,
    step: AcceptStep,
) -> bool {
    match phase_rejection(phase@) {
        Some(reason) => step matches AcceptStep::Done(result) && answers(
            result,
            Ok(
                response_view(
                    waiting.request,
                    waiting.authority_machine,
                    QueueOutcomeView::Rejected { reason },
                ),
            ),
        ),
        None => if phase is Waiting || phase is Activated {
            step == (AcceptStep::AskRequests {
                message: StoreMsg::ResourceRequests {
                    authority_machine: waiting.authority_machine,
                    resource_id: waiting.request.resource_id,
                },
                next: AwaitRetained {
                    authority_machine: waiting.authority_machine,
                    request: waiting.request,
                },
            })
        } else {
            &&& step matches AcceptStep::AskAccept { message, next }
            &&& message matches StoreMsg::AcceptResourceRequest {
                authority_machine,
                request_id,
                task_id,
                resource_id,
                origin_machine,
                normalized_spec,
            }
            &&& authority_machine == waiting.authority_machine
            &&& request_id == waiting.request.request_id
            &&& task_id == waiting.request.task_id
            &&& resource_id == waiting.request.resource_id
            &&& origin_machine == waiting.request.origin_machine
            &&& normalized_spec@ == waiting.request.spec@
            &&& next == (AwaitAccepted {
                authority_machine: waiting.authority_machine,
                request: waiting.request,
            })
        },
    }
}

impl AwaitProof {
    /// Accept a new request, answer a retry from the retained one, and reject what the
    /// origin already ended.
    pub fn on_proof(self, shown: Result<Option<ResourceRouteProof>, AppError>) -> (step: AcceptStep)
        ensures
            match shown {
                Err(error) => step == AcceptStep::Done(Err(error)),
                Ok(shown) => match proof_phase(self.request, self.authority_machine, shown) {
                    Err(error) => step matches AcceptStep::Done(Err(found)) && found@ == error,
                    Ok(phase) => accepted_under(self, phase, step),
                },
            },
    {
        let shown = match shown {
            Ok(shown) => shown,
            Err(error) => {
                return AcceptStep::Done(Err(error));
            },
        };
        let authority_machine = self.authority_machine;
        let request = self.request;
        let phase = match validate_resource_route_proof(&request, authority_machine, shown) {
            Ok(phase) => phase,
            Err(error) => {
                return AcceptStep::Done(Err(error));
            },
        };
        if let Some(reason) = rejected_resource_route_reason(&phase) {
            return AcceptStep::Done(
                Ok(
                    resource_queue_response(
                        &request,
                        authority_machine,
                        ResourceQueueOutcome::Rejected { reason },
                    ),
                ),
            );
        }
        if resource_route_requires_retained_request(&phase) {
            return AcceptStep::AskRequests {
                message: StoreMsg::ResourceRequests {
                    authority_machine,
                    resource_id: request.resource_id,
                },
                next: AwaitRetained { authority_machine, request },
            };
        }
        AcceptStep::AskAccept {
            message: StoreMsg::AcceptResourceRequest {
                authority_machine,
                request_id: request.request_id,
                task_id: request.task_id,
                resource_id: request.resource_id,
                origin_machine: request.origin_machine,
                normalized_spec: request.spec.duplicate(),
            },
            next: AwaitAccepted { authority_machine, request },
        }
    }

    /// Check the route that this machine itself holds; `digest` is that of its specification.
    pub fn on_route(
        self,
        reply: Result<Option<OriginRoute>, AppError>,
        digest: Option<SpecDigest>,
    ) -> (step: AcceptStep)
        ensures
            match reply {
                Err(error) => step == AcceptStep::Done(Err(error)),
                Ok(route) => match proof_phase(
                    self.request,
                    self.authority_machine,
                    retained_proof(self.request.task_id, route, digest),
                ) {
                    Err(error) => step matches AcceptStep::Done(Err(found)) && found@ == error,
                    Ok(phase) => accepted_under(self, phase, step),
                },
            },
    {
        match reply {
            Err(error) => AcceptStep::Done(Err(error)),
            Ok(route) => {
                let body = crate::cluster::origin_resource_route_proof(
                    self.request.task_id,
                    &route,
                    digest,
                );
                self.on_proof(Ok(body.proof))
            },
        }
    }
}

impl AwaitRetained {
    /// Answer a retry from the request that the authority retained.
    pub fn on_requests(self, reply: Result<Vec<ResourceRequest>, AppError>) -> (response: Result<
        ResourceQueueResponse,
        AppError,
    >)
        ensures
            match reply {
                Ok(requests) => match first_request(requests@, self.request.request_id) {
                    Some(stored) => answers(
                        response,
                        stored_response(self.request, self.authority_machine, stored),
                    ),
                    None => answers(response, Err(retention_conflict(self.request))),
                },
                Err(AppError::Usage { .. }) => answers(
                    response,
                    Err(retention_conflict(self.request)),
                ),
                Err(error) => response == Err::<ResourceQueueResponse, AppError>(error),
            },
    {
        let requests = match reply {
            Ok(requests) => requests,
            Err(AppError::Usage { .. }) => {
                return Err(resource_route_retention_conflict(&self.request));
            },
            Err(error) => {
                return Err(error);
            },
        };
        match retained_resource_request(&self.request, requests) {
            Ok(stored) => resource_queue_response_from_stored(
                &self.request,
                self.authority_machine,
                stored,
            ),
            Err(error) => Err(error),
        }
    }
}

impl AwaitAccepted {
    /// Answer with the accepted request; a cancellation that came first is a rejection.
    pub fn on_accepted(self, reply: Result<ResourceRequest, AppError>) -> (response: Result<
        ResourceQueueResponse,
        AppError,
    >)
        ensures
            match reply {
                Ok(stored) => answers(
                    response,
                    stored_response(self.request, self.authority_machine, stored),
                ),
                Err(AppError::SubmissionRejected { reason, .. }) => answers(
                    response,
                    Ok(
                        response_view(
                            self.request,
                            self.authority_machine,
                            QueueOutcomeView::Rejected { reason: reason@ },
                        ),
                    ),
                ),
                Err(error) => response == Err::<ResourceQueueResponse, AppError>(error),
            },
    {
        match reply {
            Ok(stored) => resource_queue_response_from_stored(
                &self.request,
                self.authority_machine,
                stored,
            ),
            Err(AppError::SubmissionRejected { reason, .. }) => Ok(
                resource_queue_response(
                    &self.request,
                    self.authority_machine,
                    ResourceQueueOutcome::Rejected { reason },
                ),
            ),
            Err(error) => Err(error),
        }
    }
}

/// An accepted request's receipt stays the same, whatever became of the request since: a
/// retry of a queued, assigned or finished one is answered alike.
pub proof fn accepted_receipts_never_change(
    request: ResourceQueueRequest,
    authority_machine: MachineId,
    first: ResourceRequest,
    later: ResourceRequest,
)
    requires
        first.state is Queued || first.state is Assigned || first.state is Finished,
        later.state is Queued || later.state is Assigned || later.state is Finished,
        later == (ResourceRequest { state: later.state, ..first }),
    ensures
        stored_response(request, authority_machine, first) == stored_response(
            request,
            authority_machine,
            later,
        ),
        stored_response(request, authority_machine, first) matches Ok(view) ==> view.outcome
            == QueueOutcomeView::Waiting,
{
}

/// Nothing reaches acceptance without a proof that binds the request, its task, its
/// resource, both machines, its thread and its specification.
pub proof fn acceptance_needs_a_matching_proof(
    request: ResourceQueueRequest,
    authority_machine: MachineId,
    shown: Option<ResourceRouteProof>,
)
    ensures
        proof_phase(request, authority_machine, shown) is Ok <==> (shown matches Some(found)
            && request.spec_digest matches Ok(digest) && proof_matches(
            request,
            authority_machine,
            found,
            digest,
        )),
{
}

} // verus!
