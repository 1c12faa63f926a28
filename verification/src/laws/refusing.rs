//! What failures are told as: a storage cause passes through, a conflict names its task, and an
//! answer in another version or protocol counts for nothing.

use vstd::prelude::*;

use crate::actors::resource::reconcile::ReturnDeadlineWake;
use crate::actors::resource::{ReleaseProofFailure, ResourceQueueReconcileOutcome};
use crate::actors::store::{
    event_error, identity_error, resource_error, resource_queue_reconcile_error, ErrorContext,
    EventError, IdentityError, OpenReleaseLoanError, ResourceQueueReconcileError,
    ResourceStoreError, StoreActor, StoreFailure, StoreMsg, StoreReply,
};
use crate::actors::{call, CallOutcome};
use crate::cancel_delivery::{check_acknowledgement, decode_acknowledgement};
use crate::cancellation::{
    CancellationOwner, CancellationReceipt, CancellationRefusal, CancellationRequest,
    CancellationRequestIdentity,
};
use crate::cluster::{CancelBody, IdentityBody, IdentitySummary, PreviewBody};
use crate::error::{AppError, ErrorView};
use crate::fleet::{ClusterResponse, API_VERSION};
use crate::ids::{MachineId, MessageId, RequestId, TaskId};
use crate::json::{json_number_member, VersionRefusal};
use crate::message_receiver::{attempt_wait_failed, delivery_failed, notice_delivery_failed};
use crate::origin_submit::{
    conflict, decode_identity, decode_preview, decode_versioned, ensure_direct_route,
    local_machine_selector, unknown, warns,
};
use crate::resource::ReturnDecisionWindow;
use crate::submission::OriginRoute;

verus! {

/// The request and the task that a message is about, where a refusal can name both.
pub open spec fn about_request(message: StoreMsg, task: TaskId, request: RequestId) -> bool {
    ||| (message matches StoreMsg::AcceptResourceRequest { task_id, request_id, .. } && task_id
        == task && request_id == request)
    ||| (message matches StoreMsg::CancelResourceRequestBeforeActivation {
        task_id,
        request_id,
        ..
    } && task_id == task && request_id == request)
    ||| (message matches StoreMsg::ResourceCancellationReceipt { identity } && identity.task == task
        && identity.request == request)
    ||| (message matches StoreMsg::CancelResourceRequestWithReceipt { identity, .. }
        && identity.task == task && identity.request == request)
}

/// The task whose executor identity a message changes.
pub open spec fn about_identity(message: StoreMsg, task: TaskId) -> bool {
    ||| (message matches StoreMsg::ResolveResourceRoute { receipt } && receipt.task == task)
    ||| (message matches StoreMsg::CancelResourceRouteBeforeLaunch { receipt }
        && receipt.identity.task == task)
    ||| (message matches StoreMsg::RejectExecution { tombstone } && tombstone.task == task)
    ||| (message matches StoreMsg::AbandonExecution { id, .. } && id == task)
}

/// A message about a request is refused with its request and its task, one about an identity with
/// its task, and any other without a task.
pub proof fn refusals_name_what_was_asked(
    message: StoreMsg,
    context: ErrorContext,
    task: TaskId,
    request: RequestId,
)
    requires
        call_ensures(StoreMsg::error_context, (&message,), context),
    ensures
        about_request(message, task, request) ==> context.resource_task == Some(task)
            && context.resource_request == Some(request),
        about_identity(message, task) ==> context.identity_task == Some(task),
        context.resource_task matches Some(named) ==> (context.resource_request matches Some(asked)
            && about_request(message, named, asked)),
        context.resource_task is None ==> context.resource_request is None,
        context.identity_task matches Some(named) ==> about_identity(message, named),
{
}

/// A conflict names the task of its message, a prevented request is rejected by name, a wrong
/// authority tells both machines, and a failed storage is told as it is.
pub proof fn failures_are_told_as_what_they_are(
    actor: StoreActor,
    message: StoreMsg,
    failure: StoreFailure,
    error: AppError,
    task: TaskId,
    request: RequestId,
)
    requires
        call_ensures(StoreActor::refusal, (&actor, &message, failure), error),
    ensures
        failure matches StoreFailure::App(cause) ==> error@ == cause@,
        failure matches StoreFailure::Identity(IdentityError::Storage(cause)) ==> error@ == cause@,
        failure matches StoreFailure::Resource(ResourceStoreError::Storage(cause)) ==> error@
            == cause@,
        failure matches StoreFailure::Event(EventError::Storage(cause)) ==> error@ == cause@,
        failure matches StoreFailure::Queue(ResourceQueueReconcileError::Storage(cause)) ==> error@
            == cause@,
        about_identity(message, task) ==> (failure matches StoreFailure::Identity(
            IdentityError::Conflict,
        ) ==> error@ == (ErrorView::ClusterTaskConflict { task })),
        about_request(message, task, request) ==> {
            &&& failure matches StoreFailure::Resource(ResourceStoreError::Conflict) ==> error@ == (
            ErrorView::ClusterTaskConflict { task })
            &&& failure matches StoreFailure::Resource(
                ResourceStoreError::Identity(IdentityError::Conflict),
            ) ==> error@ == (ErrorView::ClusterTaskConflict { task })
            &&& failure matches StoreFailure::Resource(ResourceStoreError::Prevented) ==> (
            error@ matches ErrorView::SubmissionRejected { request: told, task: refused, .. }
                && told == request && refused == task)
        },
        failure matches StoreFailure::Resource(
            ResourceStoreError::WrongAuthority { expected, found },
        ) ==> error@ == (ErrorView::MachineIdentityMismatch { expected, found: Some(found) }),
        failure matches StoreFailure::Resource(
            ResourceStoreError::OriginRouteNotFound { task: lost },
        ) ==> error@ == (ErrorView::RouteNotFound { task: lost }),
        failure matches StoreFailure::Resource(
            ResourceStoreError::ExecutorAlreadyAccepted { task: taken },
        ) ==> error@ == (ErrorView::ClusterTaskConflict { task: taken }),
        failure matches StoreFailure::Event(EventError::RouteNotFound { task: lost }) ==> error@
            == (ErrorView::RouteNotFound { task: lost }),
        failure matches StoreFailure::Event(EventError::OwnerConflict { task: taken }) ==> error@
            == (ErrorView::ClusterTaskConflict { task: taken }),
        failure matches StoreFailure::Event(EventError::ContentConflict { task: changed, seq })
            ==> error@ == (ErrorView::EventContentConflict { task: changed, seq }),
        failure matches StoreFailure::Event(EventError::Invalid { message: text }) ==> error@ == (
        ErrorView::Usage { message: text@ }),
{
}

/// A failure is told alike wherever it comes from: an event's inside a resource's, a resource's
/// inside a queue's, and an identity's storage inside a resource's.
pub proof fn nested_failures_are_told_alike(
    event: EventError,
    resource: ResourceStoreError,
    cause: AppError,
    reason: String,
    task: Option<TaskId>,
    request: Option<RequestId>,
    errors: (AppError, AppError, AppError, AppError, AppError, AppError),
    identity: IdentityError,
    told: AppError,
)
    requires
        call_ensures(event_error, (event,), errors.0),
        call_ensures(
            resource_error,
            (ResourceStoreError::Event(event), task, request),
            errors.1,
        ),
        call_ensures(resource_error, (resource, None, None), errors.2),
        call_ensures(
            resource_queue_reconcile_error,
            (ResourceQueueReconcileError::Resource(resource),),
            errors.3,
        ),
        call_ensures(
            resource_queue_reconcile_error,
            (ResourceQueueReconcileError::Release(OpenReleaseLoanError::Resource(resource)),),
            errors.4,
        ),
        call_ensures(
            resource_queue_reconcile_error,
            (ResourceQueueReconcileError::Release(OpenReleaseLoanError::Refused(reason)),),
            errors.5,
        ),
        call_ensures(identity_error, (identity,), told),
    ensures
        errors.0@ == errors.1@,
        errors.2@ == errors.3@,
        errors.2@ == errors.4@,
        errors.5@ is Internal,
        resource is ResourceNotFound || resource is Conflict || resource is Prevented || resource
            is LegacyWatcherIntentUnproven ==> errors.2@ is Usage,
        resource matches ResourceStoreError::InvalidCommandSpec(text) ==> errors.2@ == (
        ErrorView::Usage { message: text@ }),
        resource matches ResourceStoreError::TaskPreparation(found) ==> errors.2@ == found@,
        resource matches ResourceStoreError::TaskRow(found) ==> errors.2@ == found@,
        resource matches ResourceStoreError::Identity(IdentityError::Storage(found)) ==> errors.2@
            == found@,
        identity is Conflict ==> told@ is Usage,
        identity is RouteNotFound ==> told@ is Internal,
        identity matches IdentityError::Storage(found) ==> told == found,
{
}

/// What the store found is handed on: a success as it is, a refusal as it is where the message
/// keeps refusals typed, and else as the error that it is told as. A message whose refusal names
/// a task keeps none typed.
pub proof fn outcomes_are_handed_on<T>(
    actor: StoreActor,
    message: StoreMsg,
    outcome: Result<T, StoreFailure>,
    reply: StoreReply<T>,
    typed: bool,
    error: AppError,
    task: TaskId,
    request: RequestId,
)
    requires
        call_ensures(StoreActor::handle::<T>, (&actor, &message, outcome), reply),
        call_ensures(StoreMsg::keeps_refusal_typed, (&message,), typed),
        outcome matches Err(failure) ==> call_ensures(
            StoreActor::refusal,
            (&actor, &message, failure),
            error,
        ),
    ensures
        reply is Typed <==> typed,
        reply matches StoreReply::Typed(found) ==> found == outcome,
        reply matches StoreReply::Plain(found) ==> {
            &&& found is Ok <==> outcome is Ok
            &&& outcome matches Ok(value) ==> found == Ok::<T, AppError>(value)
            &&& found matches Err(told) ==> told@ == error@
        },
        about_request(message, task, request) ==> !typed,
        about_identity(message, task) ==> !typed,
        message is GetTask || message is ListTasks || message is OriginRoute || message
            is RequestCancel || message is ReceiveCancellation || message is AcknowledgeCancellation
            || message is FinishExecutorCancellation || message is ExecutorIdentity ==> !typed,
        message is AcceptAssignedResourceTask || message is AssignedResourceTaskReconcile || message
            is OpenReleaseLoanForAuthority || message is BindReleaseWatcherForAuthority || message
            is AcceptReleaseWatcherForAuthority || message is PollReleaseWatcherForAuthority
            || message is CompleteReleaseForAuthority || message
            is ReconcileRestoringLoanForAuthority || message is ServeAfterReturnDeadline || message
            is AcceptReturnTaskForAuthority || message is PrepareReturnTaskForAuthority || message
            is RecordNoResumeForAuthority || message is HoldReturnForAuthority || message
            is ResolveEndedRestoreForAuthority || message is AcceptBackgroundLaunchForAuthority
            || message is AcceptRemoteBackgroundLaunchForAuthority || message
            is AcceptRemoteReleaseWatcherForAuthority || message is SupervisorNotice || message
            is PendingSupervisorNotices || message is ReserveSupervisorNoticeAttempt || message
            is SettleSupervisorNoticeAttempt || message is RecoverSendingSupervisorNotices
            || message is RetargetSupervisorNotice ==> typed,
{
}

/// An actor's answer is the answer; without one the call failed.
pub proof fn calls_need_an_answer<T>(outcome: CallOutcome<T>, result: Result<T, AppError>)
    requires
        call_ensures(call::<T>, (outcome,), result),
    ensures
        outcome matches CallOutcome::Success(inner) ==> result == inner,
        outcome !is Success ==> (result matches Err(error) && error@ is Internal),
{
}

/// An executor's identity counts only in an answer that succeeded, in the current version and in
/// the protocol that was asked in; otherwise the outcome is unknown.
pub proof fn executors_must_answer_as_they_were_asked(
    route: OriginRoute,
    response: ClusterResponse,
    version: Result<(), VersionRefusal>,
    parsed: Result<IdentityBody, String>,
    protocol: u32,
    judged: Result<IdentityBody, AppError>,
    body: Result<IdentityBody, AppError>,
)
    requires
        call_ensures(
            decode_versioned,
            (&route, &response, version, parsed, protocol),
            judged,
        ),
        call_ensures(decode_identity, (&route, &response, parsed, protocol), body),
    ensures
        judged is Ok <==> 200 <= response.status.number() <= 299 && version is Ok && parsed is Ok
            && parsed->Ok_0.api_version == API_VERSION && parsed->Ok_0.protocol_version == protocol,
        judged matches Ok(found) ==> parsed == Ok::<IdentityBody, String>(found),
        judged matches Err(error) ==> (error@ matches ErrorView::SubmissionOutcomeUnknown {
            request,
            task,
            ..
        } && request == route.request && task == route.task),
        body is Ok <==> 200 <= response.status.number() <= 299 && json_number_member(
            response.body@,
            "api_version"@,
        ) == Ok::<Option<u64>, Seq<char>>(Some(API_VERSION as u64)) && parsed is Ok
            && parsed->Ok_0.api_version == API_VERSION && parsed->Ok_0.protocol_version == protocol,
        body matches Ok(found) ==> parsed == Ok::<IdentityBody, String>(found),
        body matches Err(error) ==> error@ is SubmissionOutcomeUnknown,
{
    let checked = choose|version: Result<(), VersionRefusal>|
        #[trigger] crate::json::version_checked(response.body@, API_VERSION, version)
            && crate::error::result_view(body) == crate::origin_submit::decoded_identity(
            route,
            response.status.number(),
            version,
            parsed,
            protocol,
        );
    assert(crate::json::version_checked(response.body@, API_VERSION, checked));
}

/// A preview counts only in the current version and in the protocol that was asked in.
pub proof fn previews_must_answer_as_they_were_asked(
    version: Result<(), VersionRefusal>,
    parsed: Result<PreviewBody, String>,
    protocol: u32,
    preview: Result<PreviewBody, AppError>,
)
    requires
        call_ensures(decode_preview, (version, parsed, protocol), preview),
    ensures
        preview is Ok <==> version is Ok && parsed is Ok && parsed->Ok_0.api_version == API_VERSION
            && parsed->Ok_0.protocol_version == protocol,
        preview matches Ok(found) ==> parsed == Ok::<PreviewBody, String>(found),
        preview matches Err(error) ==> error@ is RemoteSubmissionUnavailable,
{
}

/// An acknowledgement counts only for the very request, in the current version and in the
/// protocol that was asked in; one for another request is a conflict.
pub proof fn acknowledgements_are_for_their_request(
    body: Vec<u8>,
    parsed: Result<CancelBody, String>,
    request: CancellationRequest,
    protocol: u32,
    checked: Result<CancellationReceipt, AppError>,
    receipt: Result<CancellationReceipt, AppError>,
    identity: CancellationRequestIdentity,
)
    requires
        call_ensures(check_acknowledgement, (parsed, &request, protocol), checked),
        call_ensures(decode_acknowledgement, (&body, parsed, &request, protocol), receipt),
        call_ensures(CancellationRequest::identity, (request,), identity),
    ensures
        identity.requester_machine == request.requester_machine,
        identity.cancellation == request.cancellation,
        identity.task == request.task,
        identity.origin_machine == request.origin_machine,
        identity.execution_machine == request.execution_machine,
        checked is Ok <==> parsed is Ok && parsed->Ok_0.protocol_version == protocol
            && parsed->Ok_0.api_version == API_VERSION && parsed->Ok_0.receipt.request == identity,
        checked matches Ok(found) ==> found == parsed->Ok_0.receipt,
        parsed is Ok ==> (checked matches Err(error) ==> error@ == (
        ErrorView::ClusterTaskConflict { task: request.task })),
        parsed is Err ==> (checked matches Err(error) && (
        error@ matches ErrorView::MachineUnavailable { machine, .. } && machine
            == request.execution_machine)),
        receipt is Ok <==> checked is Ok && json_number_member(body@, "api_version"@) == Ok::<
            Option<u64>,
            Seq<char>,
        >(Some(API_VERSION as u64)),
        receipt matches Ok(found) ==> found == parsed->Ok_0.receipt,
{
}

/// Only a direct route of a saved request is one of a remote submission. A warning is due for
/// every failure but a rejection.
pub proof fn direct_routes_have_their_request(
    route: OriginRoute,
    result: Result<(), AppError>,
    message: &str,
    errors: (AppError, AppError, AppError),
    failure: AppError,
    warned: bool,
)
    requires
        call_ensures(ensure_direct_route, (&route,), result),
        call_ensures(conflict, (&route, message), errors.0),
        call_ensures(unknown, (&route, message), errors.1),
        call_ensures(local_machine_selector, (message,), errors.2),
        call_ensures(warns, (&failure,), warned),
    ensures
        result is Ok <==> route.spec is Current && (route.submission is AcceptanceUnknown
            || route.submission is Accepted || route.submission is Rejected),
        result matches Err(error) ==> (error@ matches ErrorView::SubmissionConflict {
            request,
            task,
            ..
        } && request == route.request && task == route.task),
        errors.0@ == (ErrorView::SubmissionConflict {
            request: route.request,
            task: route.task,
            message: message@,
        }),
        errors.1@ == (ErrorView::SubmissionOutcomeUnknown {
            request: route.request,
            task: route.task,
            message: message@,
        }),
        errors.2@ matches ErrorView::InvalidSpec { pointer, .. } && pointer == "/machine"@,
        warned <==> failure !is SubmissionRejected,
{
}

/// A failed delivery names its message, whatever failed.
pub proof fn failed_deliveries_name_their_message(
    id: MessageId,
    errors: (AppError, AppError, AppError),
)
    requires
        call_ensures(delivery_failed, (id,), errors.0),
        call_ensures(attempt_wait_failed, (id,), errors.1),
        call_ensures(notice_delivery_failed, (id,), errors.2),
    ensures
        errors.0@ matches ErrorView::MessageDeliveryFailed { id: told, .. } && told == id,
        errors.1@ matches ErrorView::MessageDeliveryFailed { id: told, .. } && told == id,
        errors.2@ matches ErrorView::MessageDeliveryFailed { id: told, .. } && told == id,
{
}

/// Owners are the machines that a target, or a kept identity, names; a refused cancellation
/// names its task.
pub proof fn owners_are_the_machines_named(
    owner: CancellationOwner,
    machines: (MachineId, MachineId),
    identity: IdentitySummary,
    owners: (MachineId, MachineId),
    named: TaskId,
    refusal: CancellationRefusal,
    task: TaskId,
    error: AppError,
)
    requires
        call_ensures(CancellationOwner::machines, (&owner,), machines),
        call_ensures(IdentitySummary::owners, (&identity,), owners),
        call_ensures(IdentitySummary::task, (&identity,), named),
        call_ensures(CancellationRefusal::into_error, (refusal, task), error),
    ensures
        owner matches CancellationOwner::Execution(target) ==> machines == (
            target.origin_machine,
            target.execution_machine,
        ),
        owner matches CancellationOwner::Resource(target) ==> machines == (
            target.origin_machine,
            target.authority_machine,
        ),
        identity matches IdentitySummary::Accepted {
            task: kept,
            origin_machine,
            execution_machine,
            ..
        } ==> owners == (origin_machine, execution_machine) && named == kept,
        identity matches IdentitySummary::Rejected {
            task: kept,
            origin_machine,
            execution_machine,
            ..
        } ==> owners == (origin_machine, execution_machine) && named == kept,
        refusal is Conflict ==> error@ == (ErrorView::ClusterTaskConflict { task }),
        refusal is NotStarted ==> error@ == (ErrorView::TaskNotStarted { task }),
{
}

/// A release without a proof is told with its own loan, action, task and reason; and a wake
/// covers a window only while it is still ahead, for the same action and the same deadline.
pub proof fn unproven_releases_are_told(
    failure: ReleaseProofFailure,
    outcome: ResourceQueueReconcileOutcome,
    wake: ReturnDeadlineWake,
    window: ReturnDecisionWindow,
    fired: bool,
    covers: bool,
)
    requires
        call_ensures(ReleaseProofFailure::into_outcome, (failure,), outcome),
        call_ensures(ReturnDeadlineWake::covers, (wake, window, fired), covers),
    ensures
        outcome matches ResourceQueueReconcileOutcome::ReleaseProofUnavailable {
            loan,
            action_id,
            task_id,
            reason,
        } && loan == failure.loan && action_id == failure.action_id && task_id
            == failure.trainer_task_id && reason == failure.reason,
        covers ==> !fired,
        covers ==> wake.action_id == window.action_id && wake.deadline_at == window.deadline_at,
        !covers && !fired ==> wake.action_id != window.action_id || wake.deadline_at
            != window.deadline_at,
{
}

} // verus!
