//! Daemon-to-daemon identity and event routes.
//!
//! Every request names its receiver and its versions, and is checked before anything is
//! asked of the store. Answers carry only what a peer may see.

use vstd::prelude::*;

use crate::actors::store::{IdentityError, StoreMsg};
use crate::cancellation::{
    CancellationReceipt, CancellationRequestIdentity, ExecutorCancelState,
};
use crate::domain::{ProcessStatus, TaskRow};
use crate::error::{internal, result_view, usage, AppError, ErrorView};
use crate::events::{EventAcceptance, FailedInboxEvent, TaskEvent};
use crate::fleet::{
    api_version_checked, check_destination, ProtocolRange, API_VERSION, CLUSTER_PROTOCOL_VERSION,
    SUPPORTED_PROTOCOL_MAX, SUPPORTED_PROTOCOL_MIN,
};
use crate::ids::{MachineId, RequestId, TaskId, ThreadId};
use crate::message::{MessageReceipt, MessageRequest, MessageResponse, MessageSource};
use crate::resource::{SupervisorNoticeReceipt, SupervisorNoticeRequest};
use crate::submission::{
    ExecutorIdentity, OriginRoute, ResourceRouteProof, SubmissionState,
};
use crate::time::Timestamp;

pub mod resource_request;
pub mod submit;

verus! {

/// Strict destination and version for a cluster read.
#[derive(Debug, Clone, Copy, PartialEq, Eq, Structural)]
pub struct ReadQuery {
    /// Public API version.
    pub api_version: u32,
    /// Intended receiver.
    pub destination_machine: MachineId,
}

/// Pre-acceptance resolution request.
#[derive(Debug, Clone, Copy, PartialEq, Eq, Structural)]
pub struct AbandonExecution {
    /// Public API schema version; a missing value is zero.
    pub api_version: u32,
    /// Cluster protocol version.
    pub protocol_version: u32,
    /// Intended receiver.
    pub destination_machine: MachineId,
    /// Callback owner.
    pub origin_machine: MachineId,
    /// Global task identity.
    pub task: TaskId,
}

/// Destination-checked executor cancellation request.
#[derive(Debug, Clone, Copy, PartialEq, Eq, Structural)]
pub struct CancelExecution {
    /// Public API schema version; a missing value is zero.
    pub api_version: u32,
    /// Cluster protocol version.
    pub protocol_version: u32,
    /// Immutable request and fixed owners.
    pub request: CancellationRequestIdentity,
}

/// Durable executor acknowledgement.
#[derive(Debug, Clone, Copy, PartialEq, Eq, Structural)]
pub struct CancelBody {
    /// Public API schema version.
    pub api_version: u32,
    /// Cluster protocol version.
    pub protocol_version: u32,
    /// Stored executor receipt.
    pub receipt: CancellationReceipt,
}

/// Retained executor identity, or an absent lookup.
#[derive(Debug)]
pub struct IdentityBody {
    /// Public API schema version.
    pub api_version: u32,
    /// Cluster protocol version.
    pub protocol_version: u32,
    /// Retained state, if any.
    pub identity: Option<ExecutorIdentity>,
}

/// How a previewed task receives its standard input.
#[derive(Debug, Clone, Copy, PartialEq, Eq, Structural)]
pub enum StdinPolicy {
    Null,
    Feed,
}

/// Executor-selected invocation for a remote dry-run.
#[derive(Debug)]
pub struct PreviewBody {
    /// Public API schema version.
    pub api_version: u32,
    /// Cluster protocol version.
    pub protocol_version: u32,
    /// Expanded directory on the executor.
    pub cwd: String,
    /// Executor-selected argument vector.
    pub argv: Vec<String>,
    /// How the task receives stdin.
    pub stdin: StdinPolicy,
}

/// Strict remote event transport request.
#[derive(Debug)]
pub struct ReceiveEvent {
    /// Public API schema version; a missing value is zero.
    pub api_version: u32,
    /// Cluster protocol version, independent of event API version.
    pub protocol_version: u32,
    /// Intended origin receiver.
    pub destination_machine: MachineId,
    /// Immutable sequenced event.
    pub event: TaskEvent,
}

/// Durable origin acceptance or the next required sequence.
#[derive(Debug, Clone, Copy, PartialEq, Eq, Structural)]
pub struct EventBody {
    /// Public API schema version.
    pub api_version: u32,
    /// Cluster protocol version.
    pub protocol_version: u32,
    /// Accepted event or missing predecessor.
    pub result: EventAcceptance,
}

/// An execution record held on this daemon only.
#[derive(Debug, Clone, Copy, PartialEq, Eq, Structural)]
pub struct ExecutionView {
    pub task: TaskId,
    /// Machine that owns this execution record.
    pub execution_machine: MachineId,
    /// Actual stored process state.
    pub status: ProcessStatus,
}

/// One local execution lookup, including an absent record.
#[derive(Debug, Clone, Copy, PartialEq, Eq, Structural)]
pub struct ExecutionBody {
    /// Public API version.
    pub api_version: u32,
    /// Stored execution record, if present.
    pub execution: Option<ExecutionView>,
}

/// Safe callback failure fields that omit raw queue output.
#[derive(Debug)]
pub struct CallbackFailureSummary {
    /// Failed event sequence.
    pub seq: u64,
    /// Number of reserved delivery attempts.
    pub attempts: u8,
    /// Safe failure classification without raw child output.
    pub error: String,
}

/// Origin-owned fields safe for a fleet inspection response.
#[derive(Debug)]
pub struct OriginSummary {
    pub task: TaskId,
    /// Caller retry identity.
    pub request_id: RequestId,
    /// Callback owner.
    pub origin_machine: MachineId,
    /// Fixed execution owner.
    pub execution_machine: MachineId,
    /// Thread that submitted the task.
    pub thread: ThreadId,
    /// Submission state without origin-only callback context.
    pub submission: SubmissionState,
    /// Last process state received from the executor.
    pub last_execution_state: Option<ProcessStatus>,
    /// Time of the last origin route state update, when known.
    pub last_updated_at: Option<Timestamp>,
    /// Last accepted event sequence.
    pub last_accepted_seq: u64,
    /// Last settled callback sequence.
    pub last_settled_seq: u64,
    /// Retained callback failures owned by this origin.
    pub failed_events: Vec<CallbackFailureSummary>,
}

/// Retained executor identity without the private normalized specification.
#[derive(Debug)]
pub enum IdentitySummary {
    /// Accepted work, even when task detail has been removed.
    Accepted {
        task: TaskId,
        origin_machine: MachineId,
        execution_machine: MachineId,
        /// Last durable process state.
        status: ProcessStatus,
    },
    /// A task identity that cannot start.
    Rejected {
        task: TaskId,
        origin_machine: MachineId,
        execution_machine: MachineId,
        /// Durable rejection reason.
        reason: String,
    },
}

/// Optional local origin route summary.
#[derive(Debug)]
pub struct OriginBody {
    /// Public API version.
    pub api_version: u32,
    /// Route, if this machine owns it.
    pub origin: Option<OriginSummary>,
}

/// Optional safe resource-route proof retained by this origin.
#[derive(Debug)]
pub struct OriginResourceRouteProofBody {
    /// Public API version.
    pub api_version: u32,
    /// Proof, if this origin retains a valid resource route for the task.
    pub proof: Option<ResourceRouteProof>,
}

/// Optional local retained identity summary.
#[derive(Debug)]
pub struct IdentitySummaryBody {
    /// Public API version.
    pub api_version: u32,
    /// Identity, if this machine owns it.
    pub identity: Option<IdentitySummary>,
}

/// Local execution list for fleet inventory views.
#[derive(Debug)]
pub struct ExecutionsBody {
    /// Public API version.
    pub api_version: u32,
    /// Stored executions on this daemon.
    pub executions: Vec<ExecutionView>,
}

/// Refuse another version of the public schemas.
pub fn check_api_version(version: u32) -> (result: Result<(), AppError>)
    ensures
        result_view(result) == api_version_checked(version),
{
    if version != API_VERSION {
        return Err(usage("unsupported API version"));
    }
    Ok(())
}

/// What [`check_protocol`] answers.
pub open spec fn protocol_checked(version: u32, machine: MachineId) -> Result<(), ErrorView> {
    if SUPPORTED_PROTOCOL_MIN <= version <= SUPPORTED_PROTOCOL_MAX {
        Ok(())
    } else if version == 0 {
        Err(ErrorView::Usage { message: "unsupported cluster protocol version"@ })
    } else {
        Err(
            ErrorView::ClusterProtocolIncompatible {
                machine,
                local: ProtocolRange { min: SUPPORTED_PROTOCOL_MIN, max: SUPPORTED_PROTOCOL_MAX },
                remote: ProtocolRange { min: version, max: version },
            },
        )
    }
}

/// Refuse a cluster protocol that this daemon does not speak.
pub fn check_protocol(version: u32, machine: MachineId) -> (result: Result<(), AppError>)
    ensures
        result_view(result) == protocol_checked(version, machine),
{
    if SUPPORTED_PROTOCOL_MIN <= version && version <= SUPPORTED_PROTOCOL_MAX {
        return Ok(());
    }
    match ProtocolRange::new(version, version) {
        None => Err(usage("unsupported cluster protocol version")),
        Some(remote) => Err(
            AppError::ClusterProtocolIncompatible {
                machine,
                local: ProtocolRange { min: SUPPORTED_PROTOCOL_MIN, max: SUPPORTED_PROTOCOL_MAX },
                remote,
            },
        ),
    }
}

/// The error of an identity question about `task`.
pub fn identity_error(error: IdentityError, task: TaskId) -> (result: AppError)
    ensures
        result@ == (match error {
            IdentityError::Conflict => ErrorView::ClusterTaskConflict { task },
            IdentityError::RouteNotFound => ErrorView::Internal {
                message: "executor identity disappeared"@,
            },
            IdentityError::Storage(cause) => cause@,
        }),
        error matches IdentityError::Storage(cause) ==> result == cause,
{
    match error {
        IdentityError::Conflict => AppError::ClusterTaskConflict { task },
        IdentityError::RouteNotFound => internal("executor identity disappeared"),
        IdentityError::Storage(error) => error,
    }
}

/// What the checks of one request answer: the receiver first, then the API version, then
/// the cluster protocol.
pub open spec fn gate(
    local: MachineId,
    destination: MachineId,
    api_version: u32,
    protocol_version: u32,
    peer: MachineId,
) -> Result<(), ErrorView> {
    if destination != local {
        Err(ErrorView::MachineIdentityMismatch { expected: destination, found: Some(local) })
    } else if api_version_checked(api_version) is Err {
        api_version_checked(api_version)
    } else {
        protocol_checked(protocol_version, peer)
    }
}

/// Check one request before anything else: its receiver, its API version and its protocol.
pub fn check_request(
    local: MachineId,
    destination: MachineId,
    api_version: u32,
    protocol_version: u32,
    peer: MachineId,
) -> (result: Result<(), AppError>)
    ensures
        result_view(result) == gate(local, destination, api_version, protocol_version, peer),
{
    match check_destination(local, destination) {
        Ok(_) => {},
        Err(error) => {
            return Err(error);
        },
    }
    match check_api_version(api_version) {
        Ok(_) => {},
        Err(error) => {
            return Err(error);
        },
    }
    check_protocol(protocol_version, peer)
}

/// What the checks of one read answer.
pub open spec fn read_gate(local: MachineId, query: ReadQuery) -> Result<(), ErrorView> {
    if query.destination_machine != local {
        Err(
            ErrorView::MachineIdentityMismatch {
                expected: query.destination_machine,
                found: Some(local),
            },
        )
    } else {
        api_version_checked(query.api_version)
    }
}

/// Check one read before anything else: its receiver and its API version.
pub fn check(local: MachineId, query: ReadQuery) -> (result: Result<(), AppError>)
    ensures
        result_view(result) == read_gate(local, query),
{
    match check_destination(local, query.destination_machine) {
        Ok(_) => check_api_version(query.api_version),
        Err(error) => Err(error),
    }
}

/// Check a direct message before it is received; `valid` is what its own validation said.
///
/// A resource notice has an endpoint of its own.
pub fn receive_message(local: MachineId, body: &MessageRequest, valid: Result<(), AppError>) -> (result:
    Result<(), AppError>)
    ensures
        result_view(result) == (match gate(
            local,
            body.destination_machine,
            body.api_version,
            body.protocol_version,
            body.source.machine(),
        ) {
            Err(error) => Err(error),
            Ok(_) => match valid {
                Err(error) => Err(error@),
                Ok(_) => if body.source is ResourceNotice {
                    Err(
                        ErrorView::MessageInvalid {
                            message: "resource notices must use the resource-notice endpoint"@,
                        },
                    )
                } else {
                    Ok(())
                },
            },
        }),
{
    match check_request(
        local,
        body.destination_machine,
        body.api_version,
        body.protocol_version,
        body.source.machine(),
    ) {
        Ok(_) => {},
        Err(error) => {
            return Err(error);
        },
    }
    if let Err(error) = valid {
        return Err(error);
    }
    if let MessageSource::ResourceNotice { .. } = body.source {
        return Err(
            AppError::MessageInvalid {
                message: "resource notices must use the resource-notice endpoint".to_owned(),
            },
        );
    }
    Ok(())
}

/// The answer to a received message.
pub fn message_response(local: MachineId, protocol_version: u32, receipt: MessageReceipt) -> (response:
    MessageResponse)
    ensures
        response == (MessageResponse {
            api_version: API_VERSION,
            protocol_version,
            destination_machine: local,
            receipt,
        }),
{
    MessageResponse {
        api_version: API_VERSION,
        protocol_version,
        destination_machine: local,
        receipt,
    }
}

/// Check a supervisor notice before it is received; `valid` is what its own validation said.
pub fn receive_supervisor_notice(
    local: MachineId,
    body: &SupervisorNoticeRequest,
    valid: Result<(), AppError>,
) -> (result: Result<(), AppError>)
    ensures
        result_view(result) == (match gate(
            local,
            body.destination.machine,
            body.api_version,
            body.protocol_version,
            body.source_machine,
        ) {
            Err(error) => Err(error),
            Ok(_) => match valid {
                Err(error) => Err(error@),
                Ok(_) => Ok(()),
            },
        }),
{
    match check_request(
        local,
        body.destination.machine,
        body.api_version,
        body.protocol_version,
        body.source_machine,
    ) {
        Ok(_) => valid,
        Err(error) => Err(error),
    }
}

/// The answer to a received supervisor notice.
#[derive(Debug, Clone, Copy, PartialEq, Eq, Structural)]
pub struct SupervisorNoticeResponse {
    pub api_version: u32,
    pub protocol_version: u32,
    pub destination_machine: MachineId,
    pub receipt: SupervisorNoticeReceipt,
}

/// The answer to a received supervisor notice.
pub fn notice_response(local: MachineId, protocol_version: u32, receipt: SupervisorNoticeReceipt) -> (response:
    SupervisorNoticeResponse)
    ensures
        response == (SupervisorNoticeResponse {
            api_version: API_VERSION,
            protocol_version,
            destination_machine: local,
            receipt,
        }),
{
    SupervisorNoticeResponse {
        api_version: API_VERSION,
        protocol_version,
        destination_machine: local,
        receipt,
    }
}

/// Next part of receiving one event.
#[derive(Debug)]
pub enum ReceiveStep {
    AskAccept { message: StoreMsg, next: AwaitAccepted },
    Failed(AppError),
}

/// Waiting for the inbox.
#[derive(Debug, Clone, Copy, PartialEq, Eq, Structural)]
pub struct AwaitAccepted {
    pub task: TaskId,
    pub protocol_version: u32,
}

/// Receive one event at its origin.
pub fn receive_event(local: MachineId, body: ReceiveEvent) -> (step: ReceiveStep)
    ensures
        match gate(
            local,
            body.destination_machine,
            body.api_version,
            body.protocol_version,
            body.event.execution_machine,
        ) {
            Err(error) => step matches ReceiveStep::Failed(found) && found@ == error,
            Ok(_) => if body.event.origin_machine != body.destination_machine {
                step == ReceiveStep::Failed(
                    AppError::ClusterTaskConflict { task: body.event.task },
                )
            } else {
                step == (ReceiveStep::AskAccept {
                    message: StoreMsg::AcceptInboundEvent { event: body.event },
                    next: AwaitAccepted {
                        task: body.event.task,
                        protocol_version: body.protocol_version,
                    },
                })
            },
        },
{
    match check_request(
        local,
        body.destination_machine,
        body.api_version,
        body.protocol_version,
        body.event.execution_machine,
    ) {
        Ok(_) => {},
        Err(error) => {
            return ReceiveStep::Failed(error);
        },
    }
    if body.event.origin_machine != body.destination_machine {
        return ReceiveStep::Failed(AppError::ClusterTaskConflict { task: body.event.task });
    }
    let next = AwaitAccepted { task: body.event.task, protocol_version: body.protocol_version };
    ReceiveStep::AskAccept {
        message: StoreMsg::AcceptInboundEvent { event: body.event },
        next,
    }
}

impl AwaitAccepted {
    /// The answer, and the task whose inbox worker is woken: only an acknowledged event does.
    pub fn on_accepted(self, reply: Result<EventAcceptance, AppError>) -> (result: (
        Option<TaskId>,
        Result<EventBody, AppError>,
    ))
        ensures
            result == (match reply {
                Err(error) => (None::<TaskId>, Err::<EventBody, AppError>(error)),
                Ok(acceptance) => (
                    if acceptance is Acknowledged {
                        Some(self.task)
                    } else {
                        None
                    },
                    Ok(
                        EventBody {
                            api_version: API_VERSION,
                            protocol_version: self.protocol_version,
                            result: acceptance,
                        },
                    ),
                ),
            }),
    {
        match reply {
            Err(error) => (None, Err(error)),
            Ok(acceptance) => {
                let dispatch = match acceptance {
                    EventAcceptance::Acknowledged { .. } => Some(self.task),
                    EventAcceptance::Expected { .. } => None,
                };
                (
                    dispatch,
                    Ok(
                        EventBody {
                            api_version: API_VERSION,
                            protocol_version: self.protocol_version,
                            result: acceptance,
                        },
                    ),
                )
            },
        }
    }
}

/// Whether summaries are the safe ones of retained callback failures, in order.
pub open spec fn safe_failures(
    failures: Seq<FailedInboxEvent>,
    summaries: Seq<CallbackFailureSummary>,
) -> bool {
    &&& summaries.len() == failures.len()
    &&& forall|at: int|
        0 <= at < failures.len() ==> {
            let summary = #[trigger] summaries[at];
            &&& summary.seq == failures[at].seq
            &&& summary.attempts == failures[at].attempts
            &&& summary.error@ == "callback_delivery_failed"@
        }
}

/// The safe summaries of retained callback failures, in order.
pub fn summarize_failures(failures: &Vec<FailedInboxEvent>) -> (summaries: Vec<
    CallbackFailureSummary,
>)
    ensures
        safe_failures(failures@, summaries@),
{
    let mut summaries: Vec<CallbackFailureSummary> = Vec::new();
    let mut index: usize = 0;
    while index < failures.len()
        invariant
            index <= failures.len(),
            safe_failures(failures@.take(index as int), summaries@),
        decreases failures.len() - index,
    {
        summaries.push(
            CallbackFailureSummary {
                seq: failures[index].seq,
                attempts: failures[index].attempts,
                error: "callback_delivery_failed".to_owned(),
            },
        );
        index += 1;
    }
    proof {
        assert(failures@.take(failures.len() as int) =~= failures@);
    }
    summaries
}

/// Whether a summary shows what a route and its failures hold, and nothing else.
pub open spec fn summarizes(
    body: OriginBody,
    route: Option<OriginRoute>,
    failures: Seq<FailedInboxEvent>,
) -> bool {
    &&& body.api_version == API_VERSION
    &&& match (route, body.origin) {
        (Some(route), Some(summary)) => {
            &&& summary.task == route.task
            &&& summary.origin_machine == route.origin_machine
            &&& summary.execution_machine == route.execution_machine
            &&& summary.request_id == route.request
            &&& summary.thread == route.thread
            &&& summary.submission == route.submission
            &&& summary.last_execution_state == route.last_execution_state
            &&& summary.last_updated_at == route.last_updated_at
            &&& summary.last_accepted_seq == route.last_accepted_seq
            &&& summary.last_settled_seq == route.last_settled_seq
            &&& safe_failures(failures, summary.failed_events@)
        },
        (None, None) => true,
        _ => false,
    }
}

/// Summarize one origin route for a peer, without its callback context or raw errors.
///
/// `failures` are those of a route that exists.
pub fn origin_summary(route: Option<OriginRoute>, failures: &Vec<FailedInboxEvent>) -> (body:
    OriginBody)
    ensures
        summarizes(body, route, failures@),
{
    let origin = match route {
        None => None,
        Some(route) => Some(
            OriginSummary {
                task: route.task,
                request_id: route.request,
                origin_machine: route.origin_machine,
                execution_machine: route.execution_machine,
                thread: route.thread,
                submission: route.submission,
                last_execution_state: route.last_execution_state,
                last_updated_at: route.last_updated_at,
                last_accepted_seq: route.last_accepted_seq,
                last_settled_seq: route.last_settled_seq,
                failed_events: summarize_failures(failures),
            },
        ),
    };
    OriginBody { api_version: API_VERSION, origin }
}

/// The proof of a task's resource route, if this origin retains one for exactly that task.
pub open spec fn retained_proof(
    task: TaskId,
    route: Option<OriginRoute>,
    digest: Option<crate::domain::SpecDigest>,
) -> Option<ResourceRouteProof> {
    match route {
        Some(route) => if route.task == task {
            ResourceRouteProof::of_route(route, digest)
        } else {
            None
        },
        None => None,
    }
}

/// The proof of a task's resource route; `digest` is that of the route's specification.
pub fn origin_resource_route_proof(
    task: TaskId,
    route: &Option<OriginRoute>,
    digest: Option<crate::domain::SpecDigest>,
) -> (body: OriginResourceRouteProofBody)
    ensures
        body == (OriginResourceRouteProofBody {
            api_version: API_VERSION,
            proof: retained_proof(task, *route, digest),
        }),
{
    let shown = match route {
        Some(route) => {
            if route.task == task {
                ResourceRouteProof::from_route(route, digest)
            } else {
                None
            }
        },
        None => None,
    };
    OriginResourceRouteProofBody { api_version: API_VERSION, proof: shown }
}

/// The summary of an identity.
pub open spec fn summary_of(identity: ExecutorIdentity) -> IdentitySummary {
    match identity {
        ExecutorIdentity::Accepted(record) => IdentitySummary::Accepted {
            task: record.task,
            origin_machine: record.origin_machine,
            execution_machine: record.execution_machine,
            status: record.state,
        },
        ExecutorIdentity::Rejected(record) => IdentitySummary::Rejected {
            task: record.task,
            origin_machine: record.origin_machine,
            execution_machine: record.execution_machine,
            reason: record.reason,
        },
    }
}

/// Summarize one retained identity for a peer, without its specification.
pub fn identity_summary(identity: Option<ExecutorIdentity>) -> (body: IdentitySummaryBody)
    ensures
        body == (IdentitySummaryBody {
            api_version: API_VERSION,
            identity: match identity {
                Some(identity) => Some(summary_of(identity)),
                None => None,
            },
        }),
{
    let identity = match identity {
        None => None,
        Some(ExecutorIdentity::Accepted(record)) => Some(
            IdentitySummary::Accepted {
                task: record.task,
                origin_machine: record.origin_machine,
                execution_machine: record.execution_machine,
                status: record.state,
            },
        ),
        Some(ExecutorIdentity::Rejected(record)) => Some(
            IdentitySummary::Rejected {
                task: record.task,
                origin_machine: record.origin_machine,
                execution_machine: record.execution_machine,
                reason: record.reason,
            },
        ),
    };
    IdentitySummaryBody { api_version: API_VERSION, identity }
}

/// The answer to an identity lookup that no negotiation preceded.
pub fn executor_identity(identity: Option<ExecutorIdentity>) -> (body: IdentityBody)
    ensures
        body == (IdentityBody {
            api_version: API_VERSION,
            protocol_version: CLUSTER_PROTOCOL_VERSION,
            identity,
        }),
{
    IdentityBody {
        api_version: API_VERSION,
        protocol_version: CLUSTER_PROTOCOL_VERSION,
        identity,
    }
}

/// Abandon an identity before acceptance: the question for a request that passed its checks.
pub fn abandon_execution(local: MachineId, body: &AbandonExecution) -> (message: Result<
    StoreMsg,
    AppError,
>)
    ensures
        match gate(
            local,
            body.destination_machine,
            body.api_version,
            body.protocol_version,
            body.origin_machine,
        ) {
            Err(error) => message matches Err(found) && found@ == error,
            Ok(_) => message == Ok::<StoreMsg, AppError>(
                StoreMsg::AbandonExecution {
                    id: body.task,
                    origin: body.origin_machine,
                    execution: body.destination_machine,
                },
            ),
        },
{
    match check_request(
        local,
        body.destination_machine,
        body.api_version,
        body.protocol_version,
        body.origin_machine,
    ) {
        Err(error) => Err(error),
        Ok(_) => Ok(
            StoreMsg::AbandonExecution {
                id: body.task,
                origin: body.origin_machine,
                execution: body.destination_machine,
            },
        ),
    }
}

/// The answer with one identity in the protocol of its request.
pub fn identity_body(protocol_version: u32, identity: ExecutorIdentity) -> (body: IdentityBody)
    ensures
        body == (IdentityBody {
            api_version: API_VERSION,
            protocol_version,
            identity: Some(identity),
        }),
{
    IdentityBody { api_version: API_VERSION, protocol_version, identity: Some(identity) }
}

/// Next part of one executor cancellation.
#[derive(Debug)]
pub enum CancelStep {
    AskReceive { message: StoreMsg, next: AwaitReceipt },
    /// Apply the received cancellation now; a failure leaves it pending.
    Apply { receipt: CancellationReceipt, next: AwaitApplied },
    Done(Result<CancelBody, AppError>),
}

/// Waiting for the stored receipt.
#[derive(Debug, Clone, Copy, PartialEq, Eq, Structural)]
pub struct AwaitReceipt {
    pub protocol_version: u32,
}

/// Waiting for the application of a received cancellation.
#[derive(Debug, Clone, Copy, PartialEq, Eq, Structural)]
pub struct AwaitApplied {
    pub protocol_version: u32,
    pub receipt: CancellationReceipt,
}

/// Receive one cancellation at its executor.
pub fn cancel_execution(local: MachineId, body: &CancelExecution) -> (step: CancelStep)
    ensures
        match gate(
            local,
            body.request.execution_machine,
            body.api_version,
            body.protocol_version,
            body.request.requester_machine,
        ) {
            Err(error) => step matches CancelStep::Done(Err(found)) && found@ == error,
            Ok(_) => step == (CancelStep::AskReceive {
                message: StoreMsg::ReceiveCancellation { request: body.request },
                next: AwaitReceipt { protocol_version: body.protocol_version },
            }),
        },
{
    match check_request(
        local,
        body.request.execution_machine,
        body.api_version,
        body.protocol_version,
        body.request.requester_machine,
    ) {
        Err(error) => CancelStep::Done(Err(error)),
        Ok(_) => CancelStep::AskReceive {
            message: StoreMsg::ReceiveCancellation { request: body.request },
            next: AwaitReceipt { protocol_version: body.protocol_version },
        },
    }
}

impl AwaitReceipt {
    /// Apply a cancellation that is still pending before answering.
    pub fn on_received(self, reply: Result<CancellationReceipt, AppError>) -> (step: CancelStep)
        ensures
            step == (match reply {
                Err(error) => CancelStep::Done(Err(error)),
                Ok(receipt) => if receipt.state == ExecutorCancelState::PendingApplication {
                    CancelStep::Apply {
                        receipt,
                        next: AwaitApplied { protocol_version: self.protocol_version, receipt },
                    }
                } else {
                    CancelStep::Done(
                        Ok(
                            CancelBody {
                                api_version: API_VERSION,
                                protocol_version: self.protocol_version,
                                receipt,
                            },
                        ),
                    )
                },
            }),
    {
        match reply {
            Err(error) => CancelStep::Done(Err(error)),
            Ok(receipt) => {
                if receipt.state == ExecutorCancelState::PendingApplication {
                    return CancelStep::Apply {
                        receipt,
                        next: AwaitApplied { protocol_version: self.protocol_version, receipt },
                    };
                }
                CancelStep::Done(
                    Ok(
                        CancelBody {
                            api_version: API_VERSION,
                            protocol_version: self.protocol_version,
                            receipt,
                        },
                    ),
                )
            },
        }
    }
}

impl AwaitApplied {
    /// Answer with the applied receipt, or with the pending one when applying failed.
    pub fn on_applied(self, applied: Option<CancellationReceipt>) -> (body: CancelBody)
        ensures
            body == (CancelBody {
                api_version: API_VERSION,
                protocol_version: self.protocol_version,
                receipt: match applied {
                    Some(receipt) => receipt,
                    None => self.receipt,
                },
            }),
    {
        let receipt = match applied {
            Some(receipt) => receipt,
            None => self.receipt,
        };
        CancelBody { api_version: API_VERSION, protocol_version: self.protocol_version, receipt }
    }
}

/// The execution view of a row on `local`.
pub open spec fn view_of(local: MachineId, row: TaskRow) -> ExecutionView {
    ExecutionView { task: row.id, execution_machine: local, status: row.status }
}

/// The execution list of this daemon, in the rows' order.
pub fn tasks(local: MachineId, rows: &Vec<TaskRow>) -> (body: ExecutionsBody)
    ensures
        body.api_version == API_VERSION,
        body.executions@ == rows@.map_values(|row: TaskRow| view_of(local, row)),
{
    let mut executions: Vec<ExecutionView> = Vec::new();
    let mut index: usize = 0;
    while index < rows.len()
        invariant
            index <= rows.len(),
            executions@ == rows@.take(index as int).map_values(
                |row: TaskRow| view_of(local, row),
            ),
        decreases rows.len() - index,
    {
        executions.push(
            ExecutionView {
                task: rows[index].id,
                execution_machine: local,
                status: rows[index].status,
            },
        );
        proof {
            assert(rows@.take(index as int + 1).map_values(|row: TaskRow| view_of(local, row))
                =~= rows@.take(index as int).map_values(|row: TaskRow| view_of(local, row)).push(
                view_of(local, rows@[index as int]),
            ));
        }
        index += 1;
    }
    proof {
        assert(rows@.take(rows.len() as int) =~= rows@);
    }
    ExecutionsBody { api_version: API_VERSION, executions }
}

/// One execution of this daemon and the status code of its answer.
pub fn task(local: MachineId, row: Option<TaskRow>) -> (answer: (u16, ExecutionBody))
    ensures
        answer == (match row {
            Some(row) => (
                200u16,
                ExecutionBody { api_version: API_VERSION, execution: Some(view_of(local, row)) },
            ),
            None => (404u16, ExecutionBody { api_version: API_VERSION, execution: None }),
        }),
{
    match row {
        Some(row) => (
            200,
            ExecutionBody {
                api_version: API_VERSION,
                execution: Some(
                    ExecutionView { task: row.id, execution_machine: local, status: row.status },
                ),
            },
        ),
        None => (404, ExecutionBody { api_version: API_VERSION, execution: None }),
    }
}

/// No request reaches the store that names another receiver, another API version, or a
/// protocol that this daemon does not speak.
pub proof fn refused_requests_name_the_wrong_receiver_or_version(
    local: MachineId,
    destination: MachineId,
    api_version: u32,
    protocol_version: u32,
    peer: MachineId,
)
    ensures
        gate(local, destination, api_version, protocol_version, peer) is Ok <==> destination
            == local && api_version == API_VERSION && SUPPORTED_PROTOCOL_MIN <= protocol_version
            <= SUPPORTED_PROTOCOL_MAX,
{
}

} // verus!
