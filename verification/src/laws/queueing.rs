//! Accepting work into a resource's queue: only with its origin's own proof, once, and with the
//! same receipt for every retry.

use vstd::prelude::*;

use crate::actors::store::StoreMsg;
use crate::cluster::resource_request::{
    accept_resource_request, first_request, rejected_resource_route_reason, resource_queue_response,
    resource_queue_response_from_stored, resource_route_proof,
    resource_route_requires_retained_request, resource_route_retention_conflict,
    retained_resource_request, validate_resource_route_proof, AcceptStep, AwaitAccepted, AwaitProof,
    AwaitRetained, ProofRead, ResourceQueueRequest, ResourceQueueResponse,
};
use crate::cluster::{origin_resource_route_proof, OriginResourceRouteProofBody};
use crate::domain::SpecDigest;
use crate::error::{AppError, ErrorView};
use crate::fleet::API_VERSION;
use crate::ids::{MachineId, RequestId};
use crate::laws::executing::admits;
use crate::resource::{ResourceRequest, ResourceRequestState};
use crate::submission::{
    OriginRoute, ResourceQueueOutcome, ResourceRoutePhase, ResourceRouteProof,
};

verus! {

/// Whether a proof binds every part of a request at an authority.
pub open spec fn binds(
    shown: ResourceRouteProof,
    request: ResourceQueueRequest,
    authority: MachineId,
) -> bool {
    &&& shown.request == request.request_id
    &&& shown.task == request.task_id
    &&& shown.resource == request.resource_id
    &&& shown.origin_machine == request.origin_machine
    &&& shown.authority_machine == authority
    &&& shown.thread == request.spec.thread
    &&& Ok::<SpecDigest, String>(shown.normalized_spec_sha256) == request.spec_digest
}

/// Whether a response receipts a request at an authority.
pub open spec fn receipts(
    response: ResourceQueueResponse,
    request: ResourceQueueRequest,
    authority: MachineId,
) -> bool {
    &&& response.api_version == API_VERSION
    &&& response.protocol_version == request.protocol_version
    &&& response.receipt.request == request.request_id
    &&& response.receipt.task == request.task_id
    &&& response.receipt.origin_machine == request.origin_machine
    &&& response.receipt.authority_machine == authority
    &&& response.receipt.resource == request.resource_id
}

/// A request is looked into exactly where it is admitted: with this machine's own route where it
/// is the origin, and with the origin's proof otherwise.
pub proof fn requests_are_proved_by_their_origin(
    authority: MachineId,
    request: ResourceQueueRequest,
    step: AcceptStep,
)
    requires
        call_ensures(accept_resource_request, (authority, request), step),
    ensures
        ({
            let admitted = admits(
                authority,
                request.destination_machine,
                request.api_version,
                request.protocol_version,
            );
            &&& !admitted <==> (step matches AcceptStep::Done(Err(_)))
            &&& step is AskRoute <==> admitted && request.origin_machine == authority
            &&& step is FetchProof <==> admitted && request.origin_machine != authority
            &&& step matches AcceptStep::AskRoute { message, next } ==> message == (
            StoreMsg::OriginRoute { id: request.task_id }) && next.request == request
                && next.authority_machine == authority
            &&& step matches AcceptStep::FetchProof { origin, next, .. } ==> origin
                == request.origin_machine && next.request == request && next.authority_machine
                == authority
        }),
{
}

/// A proof counts exactly where it binds the request, its task, its resource, both machines, its
/// thread and its content; its phase is then what the origin says of the route.
pub proof fn proofs_bind_every_part(
    request: ResourceQueueRequest,
    authority: MachineId,
    shown: Option<ResourceRouteProof>,
    phase: Result<ResourceRoutePhase, AppError>,
)
    requires
        call_ensures(validate_resource_route_proof, (&request, authority, shown), phase),
    ensures
        phase is Ok <==> (shown matches Some(found) && binds(found, request, authority)),
        phase matches Ok(told) ==> told == shown->0.phase,
        shown is None ==> (phase matches Err(error) && error@ is RemoteSubmissionUnavailable),
        (shown matches Some(found) && request.spec_digest is Ok && !binds(found, request, authority))
            ==> (phase matches Err(error) && error@ matches ErrorView::SubmissionConflict {
            request: named,
            task,
            ..
        } && named == request.request_id && task == request.task_id),
{
}

/// A proof that was fetched counts only from an origin that answered, successfully and in the
/// current version; it is then what the origin said.
pub proof fn fetched_proofs_are_whole_answers(
    read: ProofRead,
    shown: Result<Option<ResourceRouteProof>, AppError>,
)
    requires
        call_ensures(resource_route_proof, (read,), shown),
    ensures
        shown is Ok <==> (read matches ProofRead::Answered { status, body: Ok(body) }
            && status.number() == 200 && body.api_version == API_VERSION),
        shown matches Ok(told) ==> told == read->Answered_body->Ok_0.proof,
        shown matches Err(error) ==> error@ is RemoteSubmissionUnavailable,
{
}

/// Whether a step goes on as the origin's phase says: a route that was cancelled or rejected is
/// answered as rejected, one that was accepted before needs the request that was kept, and only a
/// route whose acceptance is unknown is accepted now.
pub open spec fn goes_on_by_phase(
    step: AcceptStep,
    wait: AwaitProof,
    phase: ResourceRoutePhase,
) -> bool {
    &&& phase is CancelledBeforeLaunch || phase is Rejected ==> {
        &&& step matches AcceptStep::Done(Ok(response))
        &&& receipts(response, wait.request, wait.authority_machine)
        &&& response.receipt.outcome matches ResourceQueueOutcome::Rejected { reason: told }
        &&& phase matches ResourceRoutePhase::Rejected { reason } ==> told@ == reason@
    }
    &&& phase is Waiting || phase is Activated ==> {
        &&& step matches AcceptStep::AskRequests { message, next }
        &&& message == (StoreMsg::ResourceRequests {
            authority_machine: wait.authority_machine,
            resource_id: wait.request.resource_id,
        })
        &&& next.request == wait.request
        &&& next.authority_machine == wait.authority_machine
    }
    &&& phase is AcceptanceUnknown ==> {
        &&& step matches AcceptStep::AskAccept { message, next }
        &&& message matches StoreMsg::AcceptResourceRequest {
            authority_machine,
            request_id,
            task_id,
            resource_id,
            origin_machine,
            normalized_spec,
        }
        &&& authority_machine == wait.authority_machine
        &&& request_id == wait.request.request_id
        &&& task_id == wait.request.task_id
        &&& resource_id == wait.request.resource_id
        &&& origin_machine == wait.request.origin_machine
        &&& normalized_spec@ == wait.request.spec@
        &&& next.request == wait.request
        &&& next.authority_machine == wait.authority_machine
    }
}

/// A request goes on exactly with a proof that binds it, and then as the origin's phase says; an
/// own route proves it as a fetched proof would.
pub proof fn requests_go_on_by_their_proof(
    wait: AwaitProof,
    shown: Option<ResourceRouteProof>,
    step: AcceptStep,
    route: Option<OriginRoute>,
    digest: Option<SpecDigest>,
    own: OriginResourceRouteProofBody,
    by_route: AcceptStep,
    error: AppError,
    failures: (AcceptStep, AcceptStep),
)
    requires
        call_ensures(AwaitProof::on_proof, (wait, Ok(shown)), step),
        call_ensures(AwaitProof::on_route, (wait, Ok(route), digest), by_route),
        call_ensures(
            origin_resource_route_proof,
            (wait.request.task_id, &route, digest),
            own,
        ),
        call_ensures(AwaitProof::on_proof, (wait, Err(error)), failures.0),
        call_ensures(AwaitProof::on_route, (wait, Err(error), digest), failures.1),
    ensures
        (shown matches Some(found) && binds(found, wait.request, wait.authority_machine))
            ==> goes_on_by_phase(step, wait, shown->0.phase),
        !(shown matches Some(found) && binds(found, wait.request, wait.authority_machine))
            ==> step matches AcceptStep::Done(Err(_)),
        (own.proof matches Some(found) && binds(found, wait.request, wait.authority_machine))
            ==> goes_on_by_phase(by_route, wait, own.proof->0.phase),
        !(own.proof matches Some(found) && binds(found, wait.request, wait.authority_machine))
            ==> by_route matches AcceptStep::Done(Err(_)),
        failures.0 == AcceptStep::Done(Err::<ResourceQueueResponse, AppError>(error)),
        failures.1 == AcceptStep::Done(Err::<ResourceQueueResponse, AppError>(error)),
{
}

/// The phases that reject a route tell their reason, and those that accepted it need the request
/// that was kept; no phase does both.
pub proof fn phases_reject_or_retain(
    phase: ResourceRoutePhase,
    reason: Option<String>,
    retains: bool,
)
    requires
        call_ensures(rejected_resource_route_reason, (&phase,), reason),
        call_ensures(resource_route_requires_retained_request, (&phase,), retains),
    ensures
        reason is Some <==> phase is CancelledBeforeLaunch || phase is Rejected,
        phase matches ResourceRoutePhase::Rejected { reason: kept } ==> (reason matches Some(told)
            && told@ == kept@),
        retains <==> phase is Waiting || phase is Activated,
        !(retains && reason is Some),
{
}

/// A receipt waits while its request is queued, assigned or finished, and is rejected where the
/// request was cancelled or rejected, with the kept reason.
pub open spec fn receipts_state(outcome: ResourceQueueOutcome, state: ResourceRequestState) -> bool {
    &&& outcome is Waiting <==> state is Queued || state is Assigned || state is Finished
    &&& outcome is Rejected <==> state is CancelledBeforeLaunch || state is Rejected
    &&& state matches ResourceRequestState::Rejected { reason } ==> (
    outcome matches ResourceQueueOutcome::Rejected { reason: told } && told@ == reason@)
}

/// Whether a kept request is the one that is asked for again.
pub open spec fn same_request(stored: ResourceRequest, request: ResourceQueueRequest) -> bool {
    &&& stored.request_id == request.request_id
    &&& stored.task_id == request.task_id
    &&& stored.resource_id == request.resource_id
    &&& stored.origin_machine == request.origin_machine
    &&& stored.spec_digest == request.spec_digest
    &&& stored.spec_digest is Ok
}

/// A kept request is receipted exactly where it is the same one, content included, by the state
/// that it is in; another one is no receipt for this.
pub proof fn kept_requests_give_the_same_receipt(
    request: ResourceQueueRequest,
    authority: MachineId,
    stored: ResourceRequest,
    response: Result<ResourceQueueResponse, AppError>,
    outcome: ResourceQueueOutcome,
    direct: ResourceQueueResponse,
)
    requires
        call_ensures(
            resource_queue_response_from_stored,
            (&request, authority, stored),
            response,
        ),
        call_ensures(resource_queue_response, (&request, authority, outcome), direct),
    ensures
        response is Ok <==> same_request(stored, request),
        response matches Ok(told) ==> receipts(told, request, authority) && receipts_state(
            told.receipt.outcome,
            stored.state,
        ),
        stored.spec_digest is Ok && request.spec_digest is Ok && !same_request(stored, request)
            ==> (response matches Err(error) && error@ matches ErrorView::SubmissionConflict {
            request: named,
            task,
            ..
        } && named == request.request_id && task == request.task_id),
        receipts(direct, request, authority),
        direct.receipt.outcome == outcome,
{
}

/// The first request under an identity is one of them.
proof fn first_requests_are_their_own(requests: Seq<ResourceRequest>, id: RequestId)
    ensures
        first_request(requests, id) matches Some(found) ==> requests.contains(found)
            && found.request_id == id,
        first_request(requests, id) is None <==> forall|at: int|
            0 <= at < requests.len() ==> (#[trigger] requests[at]).request_id != id,
    decreases requests.len(),
{
    if requests.len() > 0 {
        let rest = requests.drop_first();
        first_requests_are_their_own(rest, id);
        assert(forall|at: int|
            1 <= at < requests.len() ==> #[trigger] requests[at] == rest[at - 1]);
        assert(requests.contains(requests[0]));
        if first_request(rest, id) is Some {
            let found = first_request(rest, id)->0;
            let at = choose|at: int| 0 <= at < rest.len() && rest[at] == found;
            assert(requests[at + 1] == found);
        } else {
            assert(forall|at: int|
                0 <= at < rest.len() ==> (#[trigger] rest[at]).request_id != id);
        }
    }
}

/// A request that the origin knows as accepted is answered by the one that was kept under its
/// identity; where none is, the two machines contradict each other.
pub proof fn accepted_routes_need_the_kept_request(
    wait: AwaitRetained,
    requests: Vec<ResourceRequest>,
    stored: Result<ResourceRequest, AppError>,
    conflict: AppError,
    response: Result<ResourceQueueResponse, AppError>,
    error: AppError,
    failed: Result<ResourceQueueResponse, AppError>,
)
    requires
        call_ensures(retained_resource_request, (&wait.request, requests), stored),
        call_ensures(resource_route_retention_conflict, (&wait.request,), conflict),
        call_ensures(AwaitRetained::on_requests, (wait, Ok(requests)), response),
        call_ensures(AwaitRetained::on_requests, (wait, Err(error)), failed),
    ensures
        conflict@ matches ErrorView::SubmissionConflict { request, task, .. } && request
            == wait.request.request_id && task == wait.request.task_id,
        stored matches Ok(kept) ==> requests@.contains(kept) && kept.request_id
            == wait.request.request_id,
        stored matches Err(told) ==> told@ == conflict@ && forall|at: int|
            0 <= at < requests@.len() ==> (#[trigger] requests@[at]).request_id
                != wait.request.request_id,
        stored matches Ok(kept) ==> (response is Ok <==> same_request(kept, wait.request)),
        response matches Ok(told) ==> stored is Ok && receipts(
            told,
            wait.request,
            wait.authority_machine,
        ) && receipts_state(told.receipt.outcome, stored->Ok_0.state),
        stored is Err ==> (response matches Err(told) && told@ == conflict@),
        error is Usage ==> (failed matches Err(told) && told@ == conflict@),
        error !is Usage ==> failed == Err::<ResourceQueueResponse, AppError>(error),
{
    first_requests_are_their_own(requests@, wait.request.request_id);
}

/// A request that was accepted now is receipted by what the store kept; a refusal of the store is
/// receipted as rejected with its reason, and any other failure is handed on.
pub proof fn accepted_requests_are_receipted(
    wait: AwaitAccepted,
    reply: Result<ResourceRequest, AppError>,
    response: Result<ResourceQueueResponse, AppError>,
)
    requires
        call_ensures(AwaitAccepted::on_accepted, (wait, reply), response),
    ensures
        reply matches Ok(stored) ==> (response is Ok <==> same_request(stored, wait.request)),
        response matches Ok(told) ==> receipts(told, wait.request, wait.authority_machine),
        response matches Ok(told) ==> (reply matches Ok(stored) ==> receipts_state(
            told.receipt.outcome,
            stored.state,
        )),
        reply matches Err(AppError::SubmissionRejected { reason, .. }) ==> (
        response matches Ok(told)
            && told.receipt.outcome matches ResourceQueueOutcome::Rejected { reason: why } && why@
            == reason@),
        reply matches Err(error) && error !is SubmissionRejected ==> response == Err::<
            ResourceQueueResponse,
            AppError,
        >(reply->Err_0),
{
}

} // verus!
