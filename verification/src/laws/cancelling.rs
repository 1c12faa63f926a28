//! Cancelling a task on any machine: the request names the owner, the owner's executor applies
//! it, and the result goes back to the machine that asked.

use vstd::prelude::*;

use crate::actors::store::StoreMsg;
use crate::actors::supervisor::messages::SupervisorMsg;
use crate::api;
use crate::cancel_delivery::{
    apply_executor, deliver, response, ApplyStep, AwaitCancelled, AwaitDestination, AwaitIdentity,
    AwaitReceived, AwaitResponse, CancellationView, DeliverStep,
};
use crate::cancellation::{
    CancellationDelivery, CancellationOwner, CancellationReceipt, CancellationRefusal,
    CancellationRequest, CancellationRequestIdentity, CancellationRoute, ExecutorCancelState,
};
use crate::cluster;
use crate::cluster::{CancelBody, CancelExecution};
use crate::domain::{CancelResult, ProcessStatus, TaskRow};
use crate::error::AppError;
use crate::fleet::{ClusterResponse, API_VERSION};
use crate::ids::{CancellationId, MachineId, TaskId};
use crate::submission::{ExecutorIdentity, SubmissionState};

verus! {

/// Whether an identity carries every part of a request.
pub open spec fn identifies(
    identity: CancellationRequestIdentity,
    request: CancellationRequest,
) -> bool {
    &&& identity.requester_machine == request.requester_machine
    &&& identity.cancellation == request.cancellation
    &&& identity.task == request.task
    &&& identity.origin_machine == request.origin_machine
    &&& identity.execution_machine == request.execution_machine
}

/// Whatever the supervisor answers to a received cancellation's cancel, the stored result says
/// what became of the task, and is not pending: an ended task is already terminal, and a queued
/// or signalled one has the cancellation applied, each with its row's status.
pub proof fn answered_cancels_are_stored_with_their_result(
    receipt: CancellationReceipt,
    first: ApplyStep,
    result: CancelResult,
    step: ApplyStep,
)
    requires
        call_ensures(apply_executor, (receipt,), first),
        first matches ApplyStep::AskCancel { next, .. } && call_ensures(
            AwaitCancelled::on_cancelled,
            (next, Ok(result)),
            step,
        ),
    ensures
        first matches ApplyStep::AskCancel { message: SupervisorMsg::Cancel { id }, .. } && id
            == receipt.request.task,
        step matches ApplyStep::AskFinish {
            message: StoreMsg::FinishExecutorCancellation { cancellation, state },
        } && {
            &&& cancellation == receipt.request.cancellation
            &&& state !is PendingApplication && state !is PreventedAcceptance
            &&& state is AlreadyTerminal <==> result is AlreadyTerminal
            &&& (state matches ExecutorCancelState::AlreadyTerminal { status } ==> status
                == result.row().status)
            &&& (state matches ExecutorCancelState::Applied { status } ==> status
                == result.row().status)
        },
{
}

/// A cancellation of a task without a row is stored exactly when the task was accepted here and
/// has ended, with the state that it ended in; otherwise it fails, and nothing is stored.
pub proof fn missing_rows_are_answered_by_ended_identities_alone(
    receipt: CancellationReceipt,
    first: ApplyStep,
    missing: TaskId,
    second: ApplyStep,
    found: Option<ExecutorIdentity>,
    step: ApplyStep,
)
    requires
        call_ensures(apply_executor, (receipt,), first),
        first matches ApplyStep::AskCancel { next, .. } && call_ensures(
            AwaitCancelled::on_cancelled,
            (next, Err(AppError::TaskNotFound { id: missing })),
            second,
        ),
        second matches ApplyStep::AskIdentity { next, .. } ==> call_ensures(
            AwaitIdentity::on_identity,
            (next, Ok(found)),
            step,
        ),
    ensures
        second matches ApplyStep::AskIdentity { message: StoreMsg::ExecutorIdentity { id }, .. }
            && id == receipt.request.task,
        step is AskFinish <==> (found matches Some(ExecutorIdentity::Accepted(record)) && (
        record.state == ProcessStatus::Succeeded || record.state == ProcessStatus::Failed
            || record.state == ProcessStatus::Cancelled || record.state == ProcessStatus::Lost)),
        step matches ApplyStep::AskFinish { message } ==> message == (
        StoreMsg::FinishExecutorCancellation {
            cancellation: receipt.request.cancellation,
            state: ExecutorCancelState::AlreadyTerminal {
                status: found->0->Accepted_0.state,
            },
        }),
        step !is AskFinish ==> step == ApplyStep::Failed(
            AppError::TaskUnavailable {
                task: receipt.request.task,
                machine: receipt.request.execution_machine,
            },
        ),
{
}

/// Any other failure of the cancel, or of the identity's read, is handed on as it is.
pub proof fn failed_applications_store_nothing(
    cancelled: AwaitCancelled,
    identity: AwaitIdentity,
    error: AppError,
    step: ApplyStep,
    later: ApplyStep,
)
    requires
        error !is TaskNotFound,
        call_ensures(AwaitCancelled::on_cancelled, (cancelled, Err(error)), step),
        call_ensures(AwaitIdentity::on_identity, (identity, Err(error)), later),
    ensures
        step == ApplyStep::Failed(error),
        later == ApplyStep::Failed(error),
{
}

/// A saved cancellation goes to the executor that it names, whole: this machine stores it as
/// received when it is the executor, and no other machine is asked otherwise.
pub proof fn cancellations_go_to_their_executor(
    local: MachineId,
    request: CancellationRequest,
    first: DeliverStep,
    protocol: u32,
    second: DeliverStep,
)
    requires
        call_ensures(deliver, (local, &request), first),
        first matches DeliverStep::Connect { next, .. } ==> call_ensures(
            AwaitDestination::on_destination,
            (next, Ok(Some(protocol))),
            second,
        ),
    ensures
        request.execution_machine == local <==> first is AskReceive,
        request.execution_machine == local ==> (first matches DeliverStep::AskReceive {
            message: StoreMsg::ReceiveCancellation { request: sent },
            ..
        } && identifies(sent, request)),
        request.execution_machine != local ==> {
            &&& first matches DeliverStep::Connect { machine, .. }
            &&& machine == request.execution_machine
            &&& second matches DeliverStep::Post { body, .. }
            &&& identifies(body.request, request)
            &&& body.protocol_version == protocol
            &&& body.api_version == API_VERSION
        },
{
}

/// A remote cancellation is acknowledged only by a receipt for exactly this request, sent with
/// status 200 in the spoken protocol, and then with the state that the executor reported.
pub proof fn only_receipts_for_the_request_acknowledge_it(
    local: MachineId,
    request: CancellationRequest,
    first: DeliverStep,
    protocol: u32,
    second: DeliverStep,
    response: Result<ClusterResponse, String>,
    parsed: Result<CancelBody, String>,
    step: DeliverStep,
)
    requires
        call_ensures(deliver, (local, &request), first),
        first matches DeliverStep::Connect { next, .. } && call_ensures(
            AwaitDestination::on_destination,
            (next, Ok(Some(protocol))),
            second,
        ),
        second matches DeliverStep::Post { next, .. } ==> call_ensures(
            AwaitResponse::on_response,
            (next, response, parsed),
            step,
        ),
    ensures
        step is AskAcknowledge || (step matches DeliverStep::Done(result) && result is Err),
        step matches DeliverStep::AskAcknowledge { message } ==> {
            &&& response matches Ok(answer)
            &&& answer.status.number() == 200
            &&& parsed matches Ok(body)
            &&& body.protocol_version == protocol
            &&& body.api_version == API_VERSION
            &&& identifies(body.receipt.request, request)
            &&& message == (StoreMsg::AcknowledgeCancellation { receipt: body.receipt })
        },
{
}

/// The local executor's own receipt is acknowledged as it is, and its failure ends the delivery.
pub proof fn local_receipts_are_acknowledged_as_they_are(
    waiting: AwaitReceived,
    reply: Result<CancellationReceipt, AppError>,
    step: DeliverStep,
)
    requires
        call_ensures(AwaitReceived::on_received, (waiting, reply), step),
    ensures
        match reply {
            Ok(receipt) => step == (DeliverStep::AskAcknowledge {
                message: StoreMsg::AcknowledgeCancellation { receipt },
            }),
            Err(error) => step == DeliverStep::Done(Err(error)),
        },
{
}

/// A cancel of a task that this machine does not run is saved under this machine's name for the
/// owner that the fleet found, undelivered, and answered with what was saved.
pub proof fn foreign_cancels_are_saved_for_their_owner(
    local: MachineId,
    id: TaskId,
    first: api::CancelStep,
    second: api::CancelStep,
    owner: CancellationOwner,
    cancellation: CancellationId,
    third: api::CancelStep,
    saved: CancellationRequest,
    step: api::CancelStep,
)
    requires
        call_ensures(api::cancel, (local, id), first),
        first matches api::CancelStep::AskTask { next, .. } && call_ensures(
            api::AwaitCancelTask::on_task,
            (next, Ok(None)),
            second,
        ),
        second matches api::CancelStep::FindOwner { next } ==> call_ensures(
            api::AwaitOwner::on_owner,
            (next, Ok(owner), cancellation),
            third,
        ),
        third matches api::CancelStep::AskInsert { next, .. } ==> call_ensures(
            api::AwaitSaved::on_saved,
            (next, Ok(saved)),
            step,
        ),
    ensures
        first matches api::CancelStep::AskTask { message: StoreMsg::GetTask { id: asked }, .. }
            && asked == id,
        second is FindOwner,
        third matches api::CancelStep::AskInsert {
            message: StoreMsg::InsertCancellationRequest { request },
            ..
        } && {
            &&& request.requester_machine == local
            &&& request.cancellation == cancellation
            &&& request.task == id
            &&& request.delivery == CancellationDelivery::Pending
            &&& match owner {
                CancellationOwner::Execution(target) => request.origin_machine
                    == target.origin_machine && request.execution_machine
                    == target.execution_machine,
                CancellationOwner::Resource(target) => request.origin_machine
                    == target.origin_machine && request.execution_machine
                    == target.authority_machine,
            }
        },
        step matches api::CancelStep::Done(Ok(api::CancelAnswer::Requested(view))) && {
            &&& view.id == saved.task
            &&& view.requester_machine == saved.requester_machine
            &&& view.cancellation == saved.cancellation
            &&& view.origin_machine == saved.origin_machine
            &&& view.execution_machine == saved.execution_machine
            &&& view.delivery == saved.delivery
        },
{
}

/// A cancel of a task that runs here goes to the supervisor, and is answered under the task's
/// own name with the state that the cancel left.
pub proof fn local_cancels_are_answered_with_the_state_they_left(
    local: MachineId,
    id: TaskId,
    first: api::CancelStep,
    row: TaskRow,
    second: api::CancelStep,
    result: CancelResult,
    step: api::CancelStep,
)
    requires
        call_ensures(api::cancel, (local, id), first),
        first matches api::CancelStep::AskTask { next, .. } && call_ensures(
            api::AwaitCancelTask::on_task,
            (next, Ok(Some(row))),
            second,
        ),
        second matches api::CancelStep::AskCancel { next, .. } ==> call_ensures(
            api::AwaitCancelled::on_cancelled,
            (next, Ok(result)),
            step,
        ),
        result.row().id == id,
    ensures
        second matches api::CancelStep::AskCancel { message: SupervisorMsg::Cancel { id: asked }, .. }
            && asked == id,
        step matches api::CancelStep::Done(Ok(api::CancelAnswer::Status { id: shown, status }))
            && shown == id && (result is CancelledQueued ==> status == ProcessStatus::Cancelled)
            && (result !is CancelledQueued ==> status == result.row().status),
{
}

/// A failure on the way of a cancel is its answer.
pub proof fn failed_cancels_answer_with_their_failure(
    task: api::AwaitCancelTask,
    owner: api::AwaitOwner,
    cancellation: CancellationId,
    saved: api::AwaitSaved,
    cancelled: api::AwaitCancelled,
    error: AppError,
    steps: (api::CancelStep, api::CancelStep, api::CancelStep, api::CancelStep),
)
    requires
        call_ensures(api::AwaitCancelTask::on_task, (task, Err(error)), steps.0),
        call_ensures(api::AwaitOwner::on_owner, (owner, Err(error), cancellation), steps.1),
        call_ensures(api::AwaitSaved::on_saved, (saved, Err(error)), steps.2),
        call_ensures(api::AwaitCancelled::on_cancelled, (cancelled, Err(error)), steps.3),
    ensures
        steps.0 == api::CancelStep::Done(Err(error)),
        steps.1 == api::CancelStep::Done(Err(error)),
        steps.2 == api::CancelStep::Done(Err(error)),
        steps.3 == api::CancelStep::Done(Err(error)),
{
}

/// The shown result of a cancellation is the saved one: pending until it was delivered, and then
/// the executor's own result.
pub proof fn shown_cancellations_are_the_saved_ones(
    request: CancellationRequest,
    view: CancellationView,
)
    requires
        call_ensures(response, (&request,), view),
    ensures
        view.id == request.task,
        view.requester_machine == request.requester_machine,
        view.cancellation == request.cancellation,
        view.origin_machine == request.origin_machine,
        view.execution_machine == request.execution_machine,
        view.delivery is Pending <==> request.delivery is Pending,
        request.delivery matches CancellationDelivery::Delivered { result } ==> view.delivery == (
        CancellationDelivery::Delivered { result }),
{
}

/// An executor keeps a peer's cancellation exactly as it was sent, and only one that names it.
pub proof fn executors_keep_what_they_were_sent(
    local: MachineId,
    body: CancelExecution,
    step: cluster::CancelStep,
)
    requires
        call_ensures(cluster::cancel_execution, (local, &body), step),
    ensures
        step is AskReceive || (step matches cluster::CancelStep::Done(result) && result is Err),
        step matches cluster::CancelStep::AskReceive { message, next } ==> {
            &&& body.request.execution_machine == local
            &&& body.api_version == API_VERSION
            &&& message == (StoreMsg::ReceiveCancellation { request: body.request })
            &&& next.protocol_version == body.protocol_version
        },
{
}

/// A received cancellation is applied exactly while it is pending; a settled one is answered as
/// it was settled. An application that came to nothing answers with the pending receipt.
pub proof fn settled_receipts_are_not_applied_again(
    waiting: cluster::AwaitReceipt,
    receipt: CancellationReceipt,
    step: cluster::CancelStep,
    applied: Option<CancellationReceipt>,
    answer: CancelBody,
)
    requires
        call_ensures(cluster::AwaitReceipt::on_received, (waiting, Ok(receipt)), step),
        step matches cluster::CancelStep::Apply { next, .. } ==> call_ensures(
            cluster::AwaitApplied::on_applied,
            (next, applied),
            answer,
        ),
    ensures
        step is Apply <==> receipt.state is PendingApplication,
        step matches cluster::CancelStep::Apply { receipt: handed, .. } ==> handed == receipt
            && answer.receipt == (if applied is Some {
            applied->0
        } else {
            receipt
        }) && answer.protocol_version == waiting.protocol_version && answer.api_version
            == API_VERSION,
        step !is Apply ==> (step matches cluster::CancelStep::Done(Ok(body)) && body.receipt
            == receipt && body.protocol_version == waiting.protocol_version && body.api_version
            == API_VERSION),
{
}

/// A route owns the cancellation of its own task on its own origin alone. A rejected task never
/// started, a queued resource request is cancelled at its authority, and work that was or may
/// have been accepted is cancelled at its executor.
pub proof fn routes_name_the_owner_of_their_task(
    task: TaskId,
    machine: MachineId,
    route: CancellationRoute<'_>,
    owner: Result<CancellationOwner, CancellationRefusal>,
)
    requires
        call_ensures(CancellationOwner::from_route, (task, machine, route), owner),
    ensures
        route.task != task || route.origin_machine != machine ==> owner == Err::<
            CancellationOwner,
            CancellationRefusal,
        >(CancellationRefusal::Conflict),
        route.task == task && route.origin_machine == machine ==> {
            &&& *route.submission is Rejected <==> (owner matches Err(refusal) && refusal
                is NotStarted)
            &&& *route.submission is Resource <==> (owner matches Ok(owner) && owner is Resource)
            &&& (owner matches Ok(CancellationOwner::Execution(_))) <==> (match *route.submission {
                SubmissionState::AcceptanceUnknown => true,
                SubmissionState::Accepted => true,
                SubmissionState::ResourceAction { phase, .. } => phase is Accepted,
                SubmissionState::ResourceBackground { phase, .. } => phase is Accepted,
                _ => false,
            })
        },
        owner matches Ok(CancellationOwner::Execution(target)) ==> target.origin_machine
            == route.origin_machine && target.execution_machine == route.execution_machine,
        owner matches Ok(CancellationOwner::Resource(target)) ==> {
            &&& target.request_id == route.request_id
            &&& target.task_id == task
            &&& target.origin_machine == machine
            &&& target.authority_machine == route.execution_machine
            &&& *route.submission == (SubmissionState::Resource {
                resource: target.resource_id,
                phase: target.phase,
            })
        },
{
}

} // verus!
