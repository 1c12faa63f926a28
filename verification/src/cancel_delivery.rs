//! Restart-safe requester delivery and executor application of cancellations.

use std::collections::HashMap;

use vstd::arithmetic::power2::{lemma2_to64, pow2};
use vstd::math::min;
use vstd::prelude::*;

use crate::actors::store::StoreMsg;
use crate::actors::supervisor::messages::SupervisorMsg;
use crate::cancellation::{
    CancellationDelivery, CancellationReceipt, CancellationRequest, ExecutorCancelState,
};
use crate::cluster::{CancelBody, CancelExecution};
use crate::domain::CancelResult;
use crate::error::{result_view, AppError, ErrorView};
use crate::fleet::{http_status_text, ClusterResponse, API_VERSION};
use crate::ids::{CancellationId, MachineId, TaskId};
use crate::json::{check_body_version, json_number_member, VersionRefusal};
use crate::submission::ExecutorIdentity;
use crate::text::join2;
use crate::time::{Span, Tick};

verus! {

broadcast use vstd::std_specs::hash::group_hash_axioms;

/// When one cancellation may be tried again, and how long the next pause is.
#[derive(Debug, Clone, Copy, PartialEq, Eq, Structural)]
pub struct Retry {
    pub next: Tick,
    pub delay: Span,
}

impl Retry {
    /// Pauses stay within half a minute.
    pub open spec fn wf(self) -> bool {
        self.delay.nanos <= 30_000_000_000
    }

    /// A cancellation that was not tried yet.
    pub fn fresh(now: Tick) -> (retry: Retry)
        ensures
            retry == (Retry { next: now, delay: Span { nanos: 1_000_000_000 } }),
            retry.wf(),
    {
        Retry { next: now, delay: Span { nanos: 1_000_000_000 } }
    }

    /// Whether the next try may be made.
    pub fn ready(&self, now: Tick) -> (ready: bool)
        ensures
            ready == (now.nanos >= self.next.nanos),
    {
        now.nanos >= self.next.nanos
    }

    /// The retry after one more failure: the pause passes, and the next one is twice as long.
    pub open spec fn after_failure(self, now: Tick) -> Retry {
        Retry {
            next: Tick { nanos: (now.nanos + self.delay.nanos) as u128 },
            delay: Span {
                nanos: if self.delay.nanos * 2 <= 30_000_000_000 {
                    (self.delay.nanos * 2) as u128
                } else {
                    30_000_000_000
                },
            },
        }
    }

    /// Put the next try off after a failure, and the one after it for twice as long.
    pub fn failed(&mut self, now: Tick)
        requires
            old(self).wf(),
            now.nanos + old(self).delay.nanos <= u128::MAX,
        ensures
            *final(self) == old(self).after_failure(now),
            final(self).next.nanos == now.nanos + old(self).delay.nanos,
            final(self).delay.nanos == min(2 * old(self).delay.nanos, 30_000_000_000),
            final(self).wf(),
    {
        self.next = Tick { nanos: now.nanos + self.delay.nanos };
        let doubled = Span { nanos: self.delay.nanos * 2 };
        self.delay = doubled.min(Span::from_secs(30));
    }
}

/// Retries of the cancellations that were tried.
#[derive(Debug)]
pub struct Retries {
    entries: HashMap<u128, Retry>,
}

impl View for Retries {
    type V = Map<u128, Retry>;

    closed spec fn view(&self) -> Map<u128, Retry> {
        self.entries@
    }
}

/// The retry of a cancellation, fresh when it was not tried yet.
pub open spec fn retry_of(table: Map<u128, Retry>, cancellation: CancellationId, now: Tick) -> Retry {
    if table.contains_key(cancellation.0) {
        table[cancellation.0]
    } else {
        Retry { next: now, delay: Span { nanos: 1_000_000_000 } }
    }
}

impl Retries {
    /// Every pause is within its bounds.
    pub open spec fn wf(self) -> bool {
        forall|id: u128| #[trigger] self@.contains_key(id) ==> self@[id].wf()
    }

    /// No cancellation was tried yet.
    pub fn new() -> (retries: Retries)
        ensures
            retries.wf(),
            retries@ == Map::<u128, Retry>::empty(),
    {
        Retries { entries: HashMap::new() }
    }

    /// Whether a cancellation may be tried now; a new one always may.
    pub fn due(&mut self, cancellation: CancellationId, now: Tick) -> (due: bool)
        requires
            old(self).wf(),
        ensures
            final(self).wf(),
            due == (now.nanos >= retry_of(old(self)@, cancellation, now).next.nanos),
            final(self)@ == old(self)@.insert(
                cancellation.0,
                retry_of(old(self)@, cancellation, now),
            ),
    {
        proof {
            assert(self@.contains_key(cancellation.0) ==> self@[cancellation.0].wf());
        }
        let retry = match self.entries.get(&cancellation.0) {
            Some(retry) => *retry,
            None => Retry::fresh(now),
        };
        self.entries.insert(cancellation.0, retry);
        proof {
            assert forall|id: u128| #[trigger] self@.contains_key(id) implies self@[id].wf() by {
                assert(id != cancellation.0 ==> old(self)@.contains_key(id));
            }
        }
        retry.ready(now)
    }

    /// Forget a delivered cancellation.
    pub fn delivered(&mut self, cancellation: CancellationId)
        requires
            old(self).wf(),
        ensures
            final(self).wf(),
            final(self)@ == old(self)@.remove(cancellation.0),
    {
        self.entries.remove(&cancellation.0);
        proof {
            assert forall|id: u128| #[trigger] self@.contains_key(id) implies self@[id].wf() by {
                assert(old(self)@.contains_key(id));
            }
        }
    }

    /// Put a cancellation off that could not be delivered.
    pub fn failed(&mut self, cancellation: CancellationId, now: Tick)
        requires
            old(self).wf(),
            now.nanos + retry_of(old(self)@, cancellation, now).delay.nanos <= u128::MAX,
        ensures
            final(self).wf(),
            final(self)@ == old(self)@.insert(
                cancellation.0,
                retry_of(old(self)@, cancellation, now).after_failure(now),
            ),
    {
        proof {
            assert(self@.contains_key(cancellation.0) ==> self@[cancellation.0].wf());
        }
        let mut retry = match self.entries.get(&cancellation.0) {
            Some(retry) => *retry,
            None => Retry::fresh(now),
        };
        retry.failed(now);
        self.entries.insert(cancellation.0, retry);
        proof {
            assert forall|id: u128| #[trigger] self@.contains_key(id) implies self@[id].wf() by {
                assert(id != cancellation.0 ==> old(self)@.contains_key(id));
            }
        }
    }
}

/// A failure puts the next try off by the pause, and doubles the pause up to half a minute.
pub proof fn pauses_double_up_to_half_a_minute(retry: Retry, now: Tick)
    requires
        retry.wf(),
        now.nanos + retry.delay.nanos <= u128::MAX,
    ensures
        retry.after_failure(now).next.nanos == now.nanos + retry.delay.nanos,
        retry.after_failure(now).delay.nanos == min(2 * retry.delay.nanos, 30_000_000_000),
        retry.after_failure(now).delay.nanos >= retry.delay.nanos,
        retry.after_failure(now).wf(),
{
}

/// The retry after failures at these instants.
pub open spec fn failed_at(retry: Retry, instants: Seq<Tick>) -> Retry
    decreases instants.len(),
{
    if instants.len() == 0 {
        retry
    } else {
        failed_at(retry, instants.drop_last()).after_failure(instants.last())
    }
}

/// Seconds of the pause that follows a number of earlier failures: 1, 2, 4, 8, 16, and 30 from
/// there on.
pub open spec fn pause_secs(failures: nat) -> nat {
    if failures < 5 {
        pow2(failures)
    } else {
        30
    }
}

/// However often a cancellation fails, each failure waits for the pause of its number, which
/// never passes half a minute.
pub proof fn failures_wait_for_the_pause_of_their_number(first: Tick, instants: Seq<Tick>)
    ensures
        failed_at(
            Retry { next: first, delay: Span { nanos: 1_000_000_000 } },
            instants,
        ).delay.nanos == pause_secs(instants.len()) * 1_000_000_000,
        instants.len() > 0 && instants.last().nanos + pause_secs((instants.len() - 1) as nat)
            * 1_000_000_000 <= u128::MAX ==> failed_at(
            Retry { next: first, delay: Span { nanos: 1_000_000_000 } },
            instants,
        ).next.nanos == instants.last().nanos + pause_secs((instants.len() - 1) as nat)
            * 1_000_000_000,
        pause_secs(instants.len()) <= 30,
    decreases instants.len(),
{
    lemma2_to64();
    if instants.len() > 0 {
        failures_wait_for_the_pause_of_their_number(first, instants.drop_last());
    }
}

/// Next part of one cancellation's delivery.
#[derive(Debug)]
pub enum DeliverStep {
    AskReceive { message: StoreMsg, next: AwaitReceived },
    /// Connect to the executor.
    Connect { machine: MachineId, next: AwaitDestination },
    Post { body: CancelExecution, next: AwaitResponse },
    AskAcknowledge { message: StoreMsg },
    Done(Result<(), AppError>),
}

/// Waiting for the local executor's receipt.
#[derive(Debug, Clone, Copy, PartialEq, Eq, Structural)]
pub struct AwaitReceived;

/// Waiting for a connection to the executor.
#[derive(Debug, Clone, Copy, PartialEq, Eq, Structural)]
pub struct AwaitDestination {
    pub request: CancellationRequest,
}

/// Waiting for the remote executor's answer.
#[derive(Debug, Clone, Copy, PartialEq, Eq, Structural)]
pub struct AwaitResponse {
    pub request: CancellationRequest,
    pub protocol: u32,
}

/// Deliver one caller-owned cancellation to its executor.
pub fn deliver(local: MachineId, request: &CancellationRequest) -> (step: DeliverStep)
    ensures
        step == if request.execution_machine == local {
            DeliverStep::AskReceive {
                message: StoreMsg::ReceiveCancellation { request: request.identity() },
                next: AwaitReceived,
            }
        } else {
            DeliverStep::Connect {
                machine: request.execution_machine,
                next: AwaitDestination { request: *request },
            }
        },
{
    if request.execution_machine == local {
        return DeliverStep::AskReceive {
            message: StoreMsg::ReceiveCancellation { request: request.identity() },
            next: AwaitReceived,
        };
    }
    DeliverStep::Connect {
        machine: request.execution_machine,
        next: AwaitDestination { request: *request },
    }
}

impl AwaitReceived {
    /// Record the executor's receipt.
    pub fn on_received(self, reply: Result<CancellationReceipt, AppError>) -> (step: DeliverStep)
        ensures
            step == (match reply {
                Err(error) => DeliverStep::Done(Err(error)),
                Ok(receipt) => DeliverStep::AskAcknowledge {
                    message: StoreMsg::AcknowledgeCancellation { receipt },
                },
            }),
    {
        match reply {
            Err(error) => DeliverStep::Done(Err(error)),
            Ok(receipt) => DeliverStep::AskAcknowledge {
                message: StoreMsg::AcknowledgeCancellation { receipt },
            },
        }
    }
}

/// The error of an executor that cannot be used now.
pub open spec fn executor_unavailable(request: CancellationRequest, message: Seq<char>) ->
    ErrorView {
    ErrorView::MachineUnavailable { machine: request.execution_machine, message }
}

fn unavailable(request: &CancellationRequest, message: String) -> (error: AppError)
    ensures
        error@ == executor_unavailable(*request, message@),
{
    AppError::MachineUnavailable { machine: request.execution_machine, message }
}

impl AwaitDestination {
    /// Send the fixed identity in the protocol that the executor speaks.
    ///
    /// `protocol` is nothing when this machine is in no fleet.
    pub fn on_destination(self, protocol: Result<Option<u32>, AppError>) -> (step: DeliverStep)
        ensures
            match protocol {
                Err(error) => step == DeliverStep::Done(Err(error)),
                Ok(None) => step matches DeliverStep::Done(Err(error)) && error@
                    == executor_unavailable(self.request, "fleet is disabled"@),
                Ok(Some(protocol)) => step == (DeliverStep::Post {
                    body: CancelExecution {
                        api_version: API_VERSION,
                        protocol_version: protocol,
                        request: self.request.identity(),
                    },
                    next: AwaitResponse { request: self.request, protocol },
                }),
            },
    {
        match protocol {
            Err(error) => DeliverStep::Done(Err(error)),
            Ok(None) => DeliverStep::Done(
                Err(unavailable(&self.request, "fleet is disabled".to_owned())),
            ),
            Ok(Some(protocol)) => DeliverStep::Post {
                body: CancelExecution {
                    api_version: API_VERSION,
                    protocol_version: protocol,
                    request: self.request.identity(),
                },
                next: AwaitResponse { request: self.request, protocol },
            },
        }
    }
}

/// What [`decode_acknowledgement`] makes of a body and its typed parse.
pub open spec fn acknowledgement(
    body: Seq<u8>,
    parsed: Result<CancelBody, String>,
    request: CancellationRequest,
    protocol: u32,
) -> Result<CancellationReceipt, ErrorView> {
    match json_number_member(body, "api_version"@) {
        Err(error) => Err(
            executor_unavailable(request, "invalid cancellation acknowledgement: "@ + error),
        ),
        Ok(version) => if version != Some(API_VERSION as u64) {
            Err(
                executor_unavailable(
                    request,
                    "cancellation acknowledgement uses an unsupported API version"@,
                ),
            )
        } else {
            checked_acknowledgement(parsed, request, protocol)
        },
    }
}

/// What the typed parse of an acknowledgement means.
pub open spec fn checked_acknowledgement(
    parsed: Result<CancelBody, String>,
    request: CancellationRequest,
    protocol: u32,
) -> Result<CancellationReceipt, ErrorView> {
    match parsed {
        Err(error) => Err(
            executor_unavailable(request, "invalid cancellation acknowledgement: "@ + error@),
        ),
        Ok(body) => if body.protocol_version == protocol && body.api_version == API_VERSION
            && body.receipt.request == request.identity() {
            Ok(body.receipt)
        } else {
            Err(ErrorView::ClusterTaskConflict { task: request.task })
        },
    }
}

/// Check the typed parse of an acknowledgement against the request and its protocol.
pub fn check_acknowledgement(
    parsed: Result<CancelBody, String>,
    request: &CancellationRequest,
    protocol: u32,
) -> (receipt: Result<CancellationReceipt, AppError>)
    ensures
        result_view(receipt) == checked_acknowledgement(parsed, *request, protocol),
{
    let body = match parsed {
        Ok(body) => body,
        Err(error) => {
            return Err(
                unavailable(
                    request,
                    join2("invalid cancellation acknowledgement: ", error.as_str()),
                ),
            );
        },
    };
    if body.protocol_version != protocol || body.api_version != API_VERSION || body.receipt.request
        != request.identity() {
        return Err(AppError::ClusterTaskConflict { task: request.task });
    }
    Ok(body.receipt)
}

/// The receipt in an executor's acknowledgement; `parsed` is the body's typed parse.
///
/// A body of another API version is refused before its typed parse counts.
pub fn decode_acknowledgement(
    body: &Vec<u8>,
    parsed: Result<CancelBody, String>,
    request: &CancellationRequest,
    protocol: u32,
) -> (receipt: Result<CancellationReceipt, AppError>)
    ensures
        result_view(receipt) == acknowledgement(body@, parsed, *request, protocol),
{
    match check_body_version(body, API_VERSION) {
        Ok(_) => check_acknowledgement(parsed, request, protocol),
        Err(VersionRefusal::Invalid(error)) => Err(
            unavailable(request, join2("invalid cancellation acknowledgement: ", error.as_str())),
        ),
        Err(VersionRefusal::Unsupported) => Err(
            unavailable(
                request,
                "cancellation acknowledgement uses an unsupported API version".to_owned(),
            ),
        ),
    }
}

impl AwaitResponse {
    /// Record the receipt of an executor that acknowledged exactly this request.
    ///
    /// `response` holds the transport's error text when nothing came back, and `parsed` the
    /// typed parse of its body.
    pub fn on_response(
        self,
        response: Result<ClusterResponse, String>,
        parsed: Result<CancelBody, String>,
    ) -> (step: DeliverStep)
        ensures
            match response {
                Err(error) => step matches DeliverStep::Done(Err(found)) && found@
                    == executor_unavailable(self.request, error@),
                Ok(response) => if response.status.number() != 200 {
                    step matches DeliverStep::Done(Err(found)) && found@ == executor_unavailable(
                        self.request,
                        "cancellation response status "@ + http_status_text(
                            response.status.number(),
                        ),
                    )
                } else {
                    match acknowledgement(
                        response.body@,
                        parsed,
                        self.request,
                        self.protocol,
                    ) {
                        Err(error) => step matches DeliverStep::Done(Err(found)) && found@ == error,
                        Ok(receipt) => step == (DeliverStep::AskAcknowledge {
                            message: StoreMsg::AcknowledgeCancellation { receipt },
                        }),
                    }
                },
            },
    {
        let response = match response {
            Ok(response) => response,
            Err(error) => {
                return DeliverStep::Done(Err(unavailable(&self.request, error)));
            },
        };
        if !response.status.is_ok() {
            let status = response.status.text();
            return DeliverStep::Done(
                Err(
                    unavailable(
                        &self.request,
                        join2("cancellation response status ", status.as_str()),
                    ),
                ),
            );
        }
        match decode_acknowledgement(&response.body, parsed, &self.request, self.protocol) {
            Err(error) => DeliverStep::Done(Err(error)),
            Ok(receipt) => DeliverStep::AskAcknowledge {
                message: StoreMsg::AcknowledgeCancellation { receipt },
            },
        }
    }
}

/// Next part of applying one received cancellation.
#[derive(Debug)]
pub enum ApplyStep {
    AskCancel { message: SupervisorMsg, next: AwaitCancelled },
    AskIdentity { message: StoreMsg, next: AwaitIdentity },
    /// Keep the result; its reply is the answer.
    AskFinish { message: StoreMsg },
    Failed(AppError),
}

/// Waiting for the cancel request of the task.
#[derive(Debug, Clone, Copy, PartialEq, Eq, Structural)]
pub struct AwaitCancelled {
    pub receipt: CancellationReceipt,
}

/// Waiting for the identity of a task that has no row.
#[derive(Debug, Clone, Copy, PartialEq, Eq, Structural)]
pub struct AwaitIdentity {
    pub receipt: CancellationReceipt,
}

/// Apply one received cancellation at its executor.
pub fn apply_executor(receipt: CancellationReceipt) -> (step: ApplyStep)
    ensures
        step == (ApplyStep::AskCancel {
            message: SupervisorMsg::Cancel { id: receipt.request.task },
            next: AwaitCancelled { receipt },
        }),
{
    ApplyStep::AskCancel {
        message: SupervisorMsg::Cancel { id: receipt.request.task },
        next: AwaitCancelled { receipt },
    }
}

/// The question that keeps a cancellation's result.
pub open spec fn finish_question(receipt: CancellationReceipt, state: ExecutorCancelState) ->
    ApplyStep {
    ApplyStep::AskFinish {
        message: StoreMsg::FinishExecutorCancellation {
            cancellation: receipt.request.cancellation,
            state,
        },
    }
}

fn ask_finish(receipt: CancellationReceipt, state: ExecutorCancelState) -> (step: ApplyStep)
    ensures
        step == finish_question(receipt, state),
{
    ApplyStep::AskFinish {
        message: StoreMsg::FinishExecutorCancellation {
            cancellation: receipt.request.cancellation,
            state,
        },
    }
}

impl AwaitCancelled {
    /// Keep what became of the task; a task without a row may have ended long ago.
    pub fn on_cancelled(self, reply: Result<CancelResult, AppError>) -> (step: ApplyStep)
        ensures
            step == (match reply {
                Ok(CancelResult::AlreadyTerminal(row)) => finish_question(
                    self.receipt,
                    ExecutorCancelState::AlreadyTerminal { status: row.status },
                ),
                Ok(CancelResult::CancelledQueued(row)) => finish_question(
                    self.receipt,
                    ExecutorCancelState::Applied { status: row.status },
                ),
                Ok(CancelResult::SignalWorker(row)) => finish_question(
                    self.receipt,
                    ExecutorCancelState::Applied { status: row.status },
                ),
                Err(AppError::TaskNotFound { .. }) => ApplyStep::AskIdentity {
                    message: StoreMsg::ExecutorIdentity { id: self.receipt.request.task },
                    next: AwaitIdentity { receipt: self.receipt },
                },
                Err(error) => ApplyStep::Failed(error),
            }),
    {
        match reply {
            Ok(CancelResult::AlreadyTerminal(row)) => ask_finish(
                self.receipt,
                ExecutorCancelState::AlreadyTerminal { status: row.status },
            ),
            Ok(CancelResult::CancelledQueued(row)) | Ok(CancelResult::SignalWorker(row)) =>
                ask_finish(self.receipt, ExecutorCancelState::Applied { status: row.status }),
            Err(AppError::TaskNotFound { .. }) => ApplyStep::AskIdentity {
                message: StoreMsg::ExecutorIdentity { id: self.receipt.request.task },
                next: AwaitIdentity { receipt: self.receipt },
            },
            Err(error) => ApplyStep::Failed(error),
        }
    }
}

impl AwaitIdentity {
    /// Only an accepted task that ended answers for its missing row.
    pub fn on_identity(self, reply: Result<Option<ExecutorIdentity>, AppError>) -> (step: ApplyStep)
        ensures
            step == (match reply {
                Err(error) => ApplyStep::Failed(error),
                Ok(Some(ExecutorIdentity::Accepted(record))) if record.state.terminal() =>
                    finish_question(
                        self.receipt,
                        ExecutorCancelState::AlreadyTerminal { status: record.state },
                    ),
                Ok(_) => ApplyStep::Failed(
                    AppError::TaskUnavailable {
                        task: self.receipt.request.task,
                        machine: self.receipt.request.execution_machine,
                    },
                ),
            }),
    {
        match reply {
            Err(error) => ApplyStep::Failed(error),
            Ok(Some(ExecutorIdentity::Accepted(record))) if record.state.is_terminal() =>
                ask_finish(
                    self.receipt,
                    ExecutorCancelState::AlreadyTerminal { status: record.state },
                ),
            Ok(_) => ApplyStep::Failed(
                AppError::TaskUnavailable {
                    task: self.receipt.request.task,
                    machine: self.receipt.request.execution_machine,
                },
            ),
        }
    }
}

/// A retained delivery result as the local socket shows it.
#[derive(Debug, Clone, Copy, PartialEq, Eq, Structural)]
pub struct CancellationView {
    pub api_version: u32,
    pub id: TaskId,
    pub requester_machine: MachineId,
    pub cancellation: CancellationId,
    pub origin_machine: MachineId,
    pub execution_machine: MachineId,
    /// Pending, or delivered with the executor's result.
    pub delivery: CancellationDelivery,
}

/// Render a retained delivery result for the local socket.
pub fn response(request: &CancellationRequest) -> (view: CancellationView)
    ensures
        view == (CancellationView {
            api_version: API_VERSION,
            id: request.task,
            requester_machine: request.requester_machine,
            cancellation: request.cancellation,
            origin_machine: request.origin_machine,
            execution_machine: request.execution_machine,
            delivery: request.delivery,
        }),
{
    CancellationView {
        api_version: API_VERSION,
        id: request.task,
        requester_machine: request.requester_machine,
        cancellation: request.cancellation,
        origin_machine: request.origin_machine,
        execution_machine: request.execution_machine,
        delivery: request.delivery,
    }
}

} // verus!
