//! Serving other machines: which requests are answered, what an executor keeps of the work it was
//! sent, and what it tells of its own.

use vstd::prelude::*;

use crate::actors::store::{IdentityError, StoreMsg};
use crate::api::Invocation;
use crate::cluster::submit::{
    expand_executor_cwd, preview_execution, submit_execution, AwaitBinary, AwaitCwd, AwaitExisting,
    AwaitLaunched, AwaitPreview, AwaitPreviewCwd, AwaitRejected, CwdKind, PreviewExecution,
    PreviewStep, SubmitExecution, SubmitStep,
};
use crate::cluster::{
    abandon_execution, check, check_api_version, check_protocol, check_request, executor_identity,
    identity_body, identity_error, identity_summary, message_response, notice_response,
    origin_resource_route_proof, origin_summary, receive_event, receive_message,
    receive_supervisor_notice, summarize_failures, task, tasks, AbandonExecution, AwaitAccepted,
    CallbackFailureSummary, EventBody, ExecutionBody, ExecutionsBody, IdentityBody,
    IdentitySummary, IdentitySummaryBody, OriginBody, OriginResourceRouteProofBody, PreviewBody,
    ReadQuery, ReceiveEvent, ReceiveStep, SupervisorNoticeResponse,
};
use crate::domain::{NormalizedSpec, SpecDigest, TaskEnv, TaskRow};
use crate::error::{AppError, ErrorView};
use crate::events::{EventAcceptance, FailedInboxEvent};
use crate::fleet::{
    API_VERSION, CLUSTER_PROTOCOL_VERSION, SUPPORTED_PROTOCOL_MAX, SUPPORTED_PROTOCOL_MIN,
};
use crate::ids::{MachineId, TaskId};
use crate::message::{MessageReceipt, MessageRequest, MessageResponse};
use crate::path::{absolute, has_segment};
use crate::resource::{SupervisorNoticeReceipt, SupervisorNoticeRequest};
use crate::submission::{ExecutorIdentity, OriginRoute, SavedSpec, SubmissionState};
use crate::text::has_prefix;
use crate::time::Timestamp;

verus! {

/// Whether a request means this machine and speaks versions that it knows.
pub open spec fn admits(local: MachineId, destination: MachineId, api: u32, protocol: u32) -> bool {
    &&& destination == local
    &&& api == API_VERSION
    &&& SUPPORTED_PROTOCOL_MIN <= protocol <= SUPPORTED_PROTOCOL_MAX
}

/// A request of another machine is answered exactly when it means this machine, in the current
/// version and a supported protocol; one that means another machine is told whom it reached.
pub proof fn requests_must_mean_this_machine(
    local: MachineId,
    destination: MachineId,
    api: u32,
    protocol: u32,
    peer: MachineId,
    result: Result<(), AppError>,
    query: ReadQuery,
    read: Result<(), AppError>,
    versions: Result<(), AppError>,
    protocols: Result<(), AppError>,
)
    requires
        call_ensures(check_request, (local, destination, api, protocol, peer), result),
        call_ensures(check, (local, query), read),
        call_ensures(check_api_version, (api,), versions),
        call_ensures(check_protocol, (protocol, peer), protocols),
    ensures
        result is Ok <==> admits(local, destination, api, protocol),
        destination != local ==> (result matches Err(error) && error@ == (
        ErrorView::MachineIdentityMismatch { expected: destination, found: Some(local) })),
        read is Ok <==> query.destination_machine == local && query.api_version == API_VERSION,
        query.destination_machine != local ==> (read matches Err(error) && error@ == (
        ErrorView::MachineIdentityMismatch {
            expected: query.destination_machine,
            found: Some(local),
        })),
        versions is Ok <==> api == API_VERSION,
        protocols is Ok <==> SUPPORTED_PROTOCOL_MIN <= protocol <= SUPPORTED_PROTOCOL_MAX,
        protocols is Err && protocol != 0 ==> (
        protocols->Err_0@ matches ErrorView::ClusterProtocolIncompatible { machine, local: own, remote }
            && machine == peer && own.min == SUPPORTED_PROTOCOL_MIN && own.max
            == SUPPORTED_PROTOCOL_MAX && remote.min == protocol && remote.max == protocol),
{
}

/// An event is taken into the inbox exactly where it is admitted and this machine is its origin;
/// callbacks are dispatched exactly for an event that was acknowledged, and the origin's answer
/// is told as it is.
pub proof fn origins_take_their_own_events(
    local: MachineId,
    body: ReceiveEvent,
    step: ReceiveStep,
    reply: Result<EventAcceptance, AppError>,
    result: (Option<TaskId>, Result<EventBody, AppError>),
)
    requires
        call_ensures(receive_event, (local, body), step),
        step matches ReceiveStep::AskAccept { next, .. } ==> call_ensures(
            AwaitAccepted::on_accepted,
            (next, reply),
            result,
        ),
    ensures
        step is AskAccept <==> admits(
            local,
            body.destination_machine,
            body.api_version,
            body.protocol_version,
        ) && body.event.origin_machine == local,
        admits(local, body.destination_machine, body.api_version, body.protocol_version)
            && body.event.origin_machine != local ==> step == ReceiveStep::Failed(
            AppError::ClusterTaskConflict { task: body.event.task },
        ),
        step matches ReceiveStep::AskAccept { message, .. } ==> {
            &&& message == (StoreMsg::AcceptInboundEvent { event: body.event })
            &&& result.0 is Some <==> (reply matches Ok(answer) && answer is Acknowledged)
            &&& result.0 matches Some(dispatched) ==> dispatched == body.event.task
            &&& reply matches Err(error) ==> result.1 == Err::<EventBody, AppError>(error)
            &&& reply matches Ok(answer) ==> result.1 == Ok::<EventBody, AppError>(
                EventBody {
                    api_version: API_VERSION,
                    protocol_version: body.protocol_version,
                    result: answer,
                },
            )
        },
{
}

/// A message is received exactly where it is admitted, is valid and is no resource's notice; a
/// notice of a supervisor where it is admitted and valid. Each receipt goes back as this
/// machine's.
pub proof fn messages_are_received_by_their_machine(
    local: MachineId,
    body: MessageRequest,
    valid: Result<(), AppError>,
    received: Result<(), AppError>,
    notice: SupervisorNoticeRequest,
    noticed: Result<(), AppError>,
    protocol: u32,
    receipt: MessageReceipt,
    response: MessageResponse,
    notice_receipt: SupervisorNoticeReceipt,
    answered: SupervisorNoticeResponse,
)
    requires
        call_ensures(receive_message, (local, &body, valid), received),
        call_ensures(receive_supervisor_notice, (local, &notice, valid), noticed),
        call_ensures(message_response, (local, protocol, receipt), response),
        call_ensures(notice_response, (local, protocol, notice_receipt), answered),
    ensures
        received is Ok <==> admits(
            local,
            body.destination_machine,
            body.api_version,
            body.protocol_version,
        ) && valid is Ok && body.source !is ResourceNotice,
        admits(local, body.destination_machine, body.api_version, body.protocol_version) ==> (
        valid matches Err(error) ==> (received matches Err(told) && told@ == error@)),
        noticed is Ok <==> admits(
            local,
            notice.destination.machine,
            notice.api_version,
            notice.protocol_version,
        ) && valid is Ok,
        response.receipt == receipt,
        response.destination_machine == local,
        response.protocol_version == protocol,
        response.api_version == API_VERSION,
        answered.receipt == notice_receipt,
        answered.destination_machine == local,
        answered.protocol_version == protocol,
        answered.api_version == API_VERSION,
{
}

/// What an origin tells of its route is the route itself, with one summary for each callback
/// failure in its order, and never a failure's own text.
pub proof fn origins_tell_their_route_without_secrets(
    route: Option<OriginRoute>,
    failures: Vec<FailedInboxEvent>,
    body: OriginBody,
    summaries: Vec<CallbackFailureSummary>,
)
    requires
        call_ensures(origin_summary, (route, &failures), body),
        call_ensures(summarize_failures, (&failures,), summaries),
    ensures
        body.api_version == API_VERSION,
        body.origin is Some <==> route is Some,
        body.origin matches Some(told) ==> {
            &&& told.task == route->0.task
            &&& told.request_id == route->0.request
            &&& told.origin_machine == route->0.origin_machine
            &&& told.execution_machine == route->0.execution_machine
            &&& told.thread == route->0.thread
            &&& told.submission == route->0.submission
            &&& told.last_execution_state == route->0.last_execution_state
            &&& told.last_updated_at == route->0.last_updated_at
            &&& told.last_accepted_seq == route->0.last_accepted_seq
            &&& told.last_settled_seq == route->0.last_settled_seq
            &&& tells_failures(failures@, told.failed_events@)
        },
        tells_failures(failures@, summaries@),
{
}

/// Whether summaries tell of failures in their order, each with its sequence and attempts, and
/// all in the same words.
pub open spec fn tells_failures(
    failures: Seq<FailedInboxEvent>,
    summaries: Seq<CallbackFailureSummary>,
) -> bool {
    &&& summaries.len() == failures.len()
    &&& forall|at: int|
        0 <= at < failures.len() ==> (#[trigger] summaries[at]).seq == failures[at].seq
            && summaries[at].attempts == failures[at].attempts
    &&& forall|left: int, right: int|
        0 <= left < summaries.len() && 0 <= right < summaries.len() ==> (
        #[trigger] summaries[left]).error@ == (#[trigger] summaries[right]).error@
}

/// An executor tells its retained identity by its kind: an acceptance with its state, and a
/// rejection with its own reason; the whole identity is told where it is asked for.
pub proof fn executors_tell_their_identity(
    identity: Option<ExecutorIdentity>,
    summary: IdentitySummaryBody,
    body: IdentityBody,
    known: ExecutorIdentity,
    protocol: u32,
    answered: IdentityBody,
)
    requires
        call_ensures(identity_summary, (identity,), summary),
        call_ensures(executor_identity, (identity,), body),
        call_ensures(identity_body, (protocol, known), answered),
    ensures
        summary.api_version == API_VERSION,
        summary.identity is Some <==> identity is Some,
        identity matches Some(ExecutorIdentity::Accepted(record)) ==> (
        summary.identity matches Some(IdentitySummary::Accepted {
            task,
            origin_machine,
            execution_machine,
            status,
        }) && task == record.task && origin_machine == record.origin_machine && execution_machine
            == record.execution_machine && status == record.state),
        identity matches Some(ExecutorIdentity::Rejected(record)) ==> (
        summary.identity matches Some(IdentitySummary::Rejected {
            task,
            origin_machine,
            execution_machine,
            reason,
        }) && task == record.task && origin_machine == record.origin_machine && execution_machine
            == record.execution_machine && reason == record.reason),
        body.identity == identity,
        body.api_version == API_VERSION,
        body.protocol_version == CLUSTER_PROTOCOL_VERSION,
        answered.identity == Some(known),
        answered.protocol_version == protocol,
        answered.api_version == API_VERSION,
{
}

/// An abandonment that is admitted names the task between the machines of the request.
pub proof fn abandonments_keep_their_machines(
    local: MachineId,
    body: AbandonExecution,
    message: Result<StoreMsg, AppError>,
)
    requires
        call_ensures(abandon_execution, (local, &body), message),
    ensures
        message is Ok <==> admits(
            local,
            body.destination_machine,
            body.api_version,
            body.protocol_version,
        ),
        message matches Ok(asked) ==> asked == (StoreMsg::AbandonExecution {
            id: body.task,
            origin: body.origin_machine,
            execution: local,
        }),
{
}

/// A route proves a resource request only of its own task, and only where the route is a
/// resource's; the proof is then the route's own data, with the digest of its content.
pub proof fn proofs_are_of_the_tasks_own_route(
    id: TaskId,
    route: Option<OriginRoute>,
    digest: Option<SpecDigest>,
    body: OriginResourceRouteProofBody,
)
    requires
        call_ensures(origin_resource_route_proof, (id, &route, digest), body),
    ensures
        body.api_version == API_VERSION,
        body.proof is Some <==> (route matches Some(route) && route.task == id && route.submission
            is Resource && digest is Some),
        body.proof matches Some(shown) ==> {
            &&& shown.task == id
            &&& shown.request == route->0.request
            &&& shown.origin_machine == route->0.origin_machine
            &&& shown.authority_machine == route->0.execution_machine
            &&& shown.thread == route->0.thread
            &&& Some(shown.normalized_spec_sha256) == digest
            &&& route->0.submission == (SubmissionState::Resource {
                resource: shown.resource,
                phase: shown.phase,
            })
        },
{
}

/// A machine tells of its rows as its own executions, one for each row in their order; a single
/// task is found exactly where it has a row.
pub proof fn machines_tell_their_own_executions(
    local: MachineId,
    rows: Vec<TaskRow>,
    body: ExecutionsBody,
    row: Option<TaskRow>,
    answer: (u16, ExecutionBody),
)
    requires
        call_ensures(tasks, (local, &rows), body),
        call_ensures(task, (local, row), answer),
    ensures
        body.api_version == API_VERSION,
        body.executions@.len() == rows@.len(),
        forall|at: int|
            0 <= at < rows@.len() ==> (#[trigger] body.executions@[at]).task == rows@[at].id
                && body.executions@[at].execution_machine == local && body.executions@[at].status
                == rows@[at].status,
        answer.1.api_version == API_VERSION,
        answer.0 == 200 <==> row is Some,
        answer.0 == 404 <==> row is None,
        answer.1.execution is Some <==> row is Some,
        answer.1.execution matches Some(view) ==> view.task == row->0.id && view.status
            == row->0.status && view.execution_machine == local,
{
}

/// A failure to read an identity keeps its cause: a conflict is told of the task, a missing
/// identity is this machine's own fault, and the store's error is handed on.
pub proof fn identity_failures_keep_their_cause(
    error: IdentityError,
    id: TaskId,
    result: AppError,
)
    requires
        call_ensures(identity_error, (error, id), result),
    ensures
        error is Conflict ==> result@ == (ErrorView::ClusterTaskConflict { task: id }),
        error is RouteNotFound ==> result@ is Internal,
        error matches IdentityError::Storage(cause) ==> result == cause,
{
}

/// Whether an identity is the one that an executor keeps for a submission: an acceptance between
/// two machines of the same content, or a rejection between the same machines.
pub open spec fn kept_for(identity: ExecutorIdentity, body: SubmitExecution) -> bool {
    match identity {
        ExecutorIdentity::Accepted(record) => {
            &&& record.origin_machine == body.origin_machine
            &&& record.execution_machine == body.destination_machine
            &&& record.origin_machine != record.execution_machine
            &&& body.unknown@.len() == 0
            &&& body.spec matches Ok(asked)
            &&& record.spec matches SavedSpec::Current(kept)
            &&& kept@ == asked@
        },
        ExecutorIdentity::Rejected(tombstone) => {
            &&& tombstone.origin_machine == body.origin_machine
            &&& tombstone.execution_machine == body.destination_machine
        },
    }
}

/// Whether a step keeps a rejection of a task between two machines.
pub open spec fn keeps_rejection(
    step: SubmitStep,
    task: TaskId,
    origin: MachineId,
    execution: MachineId,
) -> bool {
    &&& step matches SubmitStep::AskReject { message: StoreMsg::RejectExecution { tombstone }, next }
    &&& tombstone.task == task
    &&& tombstone.origin_machine == origin
    &&& tombstone.execution_machine == execution
    &&& next.task == task
}

/// A submission that is admitted is answered by the identity that the executor keeps, if it keeps
/// one for it; one that it keeps for something else is a conflict. Nothing runs twice.
pub proof fn kept_identities_answer_submissions(
    local: MachineId,
    body: SubmitExecution,
    first: SubmitStep,
    identity: ExecutorIdentity,
    home: Option<&str>,
    step: SubmitStep,
)
    requires
        call_ensures(submit_execution, (local, body), first),
        first matches SubmitStep::AskExisting { next, .. } ==> call_ensures(
            AwaitExisting::on_existing,
            (next, Ok(Some(identity)), home),
            step,
        ),
    ensures
        first is AskExisting <==> admits(
            local,
            body.destination_machine,
            body.api_version,
            body.protocol_version,
        ),
        first !is AskExisting ==> first matches SubmitStep::Done(Err(_)),
        first matches SubmitStep::AskExisting { message, .. } ==> {
            &&& message == (StoreMsg::ExecutorIdentity { id: body.task })
            &&& kept_for(identity, body) ==> step == SubmitStep::Done(
                Ok::<IdentityBody, AppError>(
                    IdentityBody {
                        api_version: API_VERSION,
                        protocol_version: body.protocol_version,
                        identity: Some(identity),
                    },
                ),
            )
            &&& !kept_for(identity, body) ==> step == SubmitStep::Done(
                Err::<IdentityBody, AppError>(AppError::ClusterTaskConflict { task: body.task }),
            )
        },
{
}

/// New work is inspected where its directory can be found; work from this very machine, with
/// unknown fields, without a valid spec or in a directory that can never be right is rejected for
/// good; and a home that is missing for now fails without a rejection.
pub proof fn new_submissions_are_inspected_or_rejected(
    wait: AwaitExisting,
    home: Option<&str>,
    step: SubmitStep,
    spec: NormalizedSpec,
    cwd: &str,
    path: Result<String, AppError>,
)
    requires
        call_ensures(AwaitExisting::on_existing, (wait, Ok(None), home), step),
        cwd@ == spec.cwd@,
        call_ensures(expand_executor_cwd, (cwd, home), path),
    ensures
        ({
            let body = wait.body;
            let rejected = keeps_rejection(
                step,
                body.task,
                body.origin_machine,
                body.destination_machine,
            );
            &&& body.origin_machine == body.destination_machine ==> rejected
            &&& body.unknown@.len() > 0 ==> rejected
            &&& body.spec is Err ==> rejected
            &&& body.origin_machine != body.destination_machine && body.unknown@.len() == 0
                && body.spec == Ok::<NormalizedSpec, AppError>(spec) ==> {
                &&& path matches Ok(found) ==> (step matches SubmitStep::InspectCwd {
                    cwd: inspected,
                    next,
                } && inspected@ == found@ && next.task == body.task && next.origin
                    == body.origin_machine && next.execution == body.destination_machine
                    && next.spec == spec && next.cwd@ == found@ && next.protocol_version
                    == body.protocol_version)
                &&& path matches Err(error) ==> {
                    &&& error@ is InvalidSpec ==> rejected
                    &&& error@ !is InvalidSpec ==> (step matches SubmitStep::Done(Err(told))
                        && told@ == error@)
                }
            }
        }),
{
}

/// An absolute directory is used as it is. One below the home stands below the executor's own,
/// and never leaves it; any other one is refused.
pub proof fn directories_are_absolute_or_below_home(
    cwd: &str,
    home: Option<&str>,
    path: Result<String, AppError>,
)
    requires
        call_ensures(expand_executor_cwd, (cwd, home), path),
    ensures
        absolute(cwd@) ==> (path matches Ok(found) && found@ == cwd@),
        path matches Ok(found) ==> absolute(found@),
        path is Ok && !absolute(cwd@) ==> has_prefix(cwd@, "~/"@) && !has_segment(
            cwd@.skip("~/"@.len() as int),
            ".."@,
        ) && (home matches Some(root) && absolute(root@) && has_prefix(path->Ok_0@, root@)),
        !absolute(cwd@) && !has_prefix(cwd@, "~/"@) ==> (path matches Err(error) && error@
            is InvalidSpec),
        !absolute(cwd@) && has_prefix(cwd@, "~/"@) && has_segment(
            cwd@.skip("~/"@.len() as int),
            ".."@,
        ) ==> (path matches Err(error) && error@ is InvalidSpec),
{
    if path is Ok && !absolute(cwd@) {
        crate::cluster::submit::relative_directories_stay_below_home(cwd@, home->0@);
    }
}

/// Inspected work runs in its directory, or is rejected where there is none; a directory that
/// cannot be inspected rejects nothing. A rejection that was kept is answered as it was kept, and
/// never as accepted.
pub proof fn inspected_work_runs_in_its_directory(
    wait: AwaitCwd,
    kind: CwdKind,
    env: TaskEnv,
    step: SubmitStep,
    rejected: AwaitRejected,
    reply: Result<ExecutorIdentity, AppError>,
    answered: SubmitStep,
)
    requires
        call_ensures(AwaitCwd::on_cwd, (wait, kind, env), step),
        call_ensures(AwaitRejected::on_rejected, (rejected, reply), answered),
    ensures
        step is ResolveBinary <==> kind is Directory,
        step matches SubmitStep::ResolveBinary { path, cwd, next } ==> {
            &&& path == env.path
            &&& cwd == wait.cwd
            &&& next.task == wait.task
            &&& next.origin == wait.origin
            &&& next.execution == wait.execution
            &&& next.spec == wait.spec
            &&& next.cwd == wait.cwd
            &&& next.env == env
            &&& next.protocol_version == wait.protocol_version
        },
        kind is NotDirectory || kind is NotFound ==> keeps_rejection(
            step,
            wait.task,
            wait.origin,
            wait.execution,
        ),
        kind is Failed ==> (step matches SubmitStep::Done(Err(error)) && error@
            is RemoteSubmissionUnavailable),
        reply matches Err(error) ==> answered == SubmitStep::Done(
            Err::<IdentityBody, AppError>(error),
        ),
        reply matches Ok(identity) ==> {
            &&& identity is Accepted ==> answered == SubmitStep::Done(
                Err::<IdentityBody, AppError>(
                    AppError::ClusterTaskConflict { task: rejected.task },
                ),
            )
            &&& identity is Rejected ==> (answered matches SubmitStep::Done(Ok(body))
                && body.identity == Some(identity) && body.protocol_version
                == rejected.protocol_version)
        },
{
}

/// What is launched is the work that was asked for, between its two machines, in the inspected
/// directory; the supervisor's identity is answered as it is.
pub proof fn launched_work_is_what_was_asked(
    wait: AwaitBinary,
    binary: Result<String, AppError>,
    created_at: Timestamp,
    step: SubmitStep,
    launched: AwaitLaunched,
    reply: Result<ExecutorIdentity, AppError>,
    answered: SubmitStep,
)
    requires
        call_ensures(AwaitBinary::on_binary, (wait, binary, created_at), step),
        call_ensures(AwaitLaunched::on_launched, (launched, reply), answered),
    ensures
        step is Launch <==> binary is Ok,
        step matches SubmitStep::Launch { request, next } ==> {
            &&& request.task == wait.task
            &&& request.origin == wait.origin
            &&& request.execution == wait.execution
            &&& request.spec == wait.spec
            &&& request.placement.cwd == wait.cwd
            &&& request.placement.env == wait.env
            &&& Ok::<String, AppError>(request.placement.binary) == binary
            &&& request.created_at == created_at
            &&& next.protocol_version == wait.protocol_version
        },
        binary is Err ==> (step matches SubmitStep::Done(Err(error)) && error@
            is RemoteSubmissionUnavailable),
        reply matches Ok(identity) ==> (answered matches SubmitStep::Done(Ok(body)) && body.identity
            == Some(identity) && body.protocol_version == launched.protocol_version
            && body.api_version == API_VERSION),
        reply matches Err(error) ==> answered == SubmitStep::Done(
            Err::<IdentityBody, AppError>(error),
        ),
{
}

/// A preview that is admitted is built in the directory that the work would run in, and shows
/// what would be run there; nothing is kept of it.
pub proof fn previews_show_what_would_run(
    local: MachineId,
    body: PreviewExecution,
    home: Option<&str>,
    first: PreviewStep,
    cwd: &str,
    path: Result<String, AppError>,
    env: TaskEnv,
    root: &str,
    second: PreviewStep,
    built: Result<Invocation, AppError>,
    step: PreviewStep,
)
    requires
        call_ensures(preview_execution, (local, body, home), first),
        body.spec matches Ok(spec) ==> cwd@ == spec.cwd@,
        call_ensures(expand_executor_cwd, (cwd, home), path),
        first matches PreviewStep::CheckCwd { next, .. } ==> call_ensures(
            AwaitPreviewCwd::on_checked,
            (next, Ok(()), env, root),
            second,
        ),
        second matches PreviewStep::Build { next, .. } ==> call_ensures(
            AwaitPreview::on_invocation,
            (next, built),
            step,
        ),
    ensures
        first is CheckCwd <==> admits(
            local,
            body.destination_machine,
            body.api_version,
            body.protocol_version,
        ) && body.spec is Ok && path is Ok,
        first !is CheckCwd ==> first matches PreviewStep::Done(Err(_)),
        first matches PreviewStep::CheckCwd { cwd: checked, .. } ==> {
            &&& checked@ == path->Ok_0@
            &&& second matches PreviewStep::Build { path: search, .. }
            &&& search == env.path
            &&& built matches Err(error) ==> step == PreviewStep::Done(
                Err::<PreviewBody, AppError>(error),
            )
            &&& built matches Ok(invocation) ==> (step matches PreviewStep::Done(Ok(shown))
                && shown.cwd@ == path->Ok_0@ && shown.argv == invocation.argv && shown.stdin
                == invocation.stdin && shown.protocol_version == body.protocol_version
                && shown.api_version == API_VERSION)
        },
{
}

} // verus!
