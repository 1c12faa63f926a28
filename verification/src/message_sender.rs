//! Routing of a local caller's message to the receiver on the selected machine.
//!
//! The receiver and recipient of a message are fixed before anything is sent, and a receipt
//! that does not match them leaves the outcome unknown.

use vstd::prelude::*;

use crate::actors::store::StoreMsg;
use crate::error::{internal, AppError, ErrorView};
use crate::fleet::{success_status, ClusterResponse, API_VERSION, CLUSTER_PROTOCOL_VERSION};
use crate::ids::{hyphenated, uuid_parsed, MachineId, MessageId, TaskId, ThreadId};
use crate::message::{
    MessageReceipt, MessageRequest, MessageResponse, MessageSendRequest, MessageSendResponse,
    MessageSource, MessageSourceSelector, MessageTarget, OutboundMessageBinding, Recipient,
};
use crate::path::{absolute, is_absolute, path_equal, same_path};
use crate::text::{join2, same_text};

verus! {

/// Path of the receiver's endpoint.
pub const MESSAGE_PATH: &'static str = "/v1/cluster/messages";

/// How long a receiver may take, in seconds: its queue retries, cleanup and settlement take at
/// most 104.
pub const MESSAGE_REQUEST_TIMEOUT_SECS: u64 = 120;

/// Sender of a message that this machine vouches for.
pub open spec fn vouched(source: MessageSourceSelector, local: MachineId) -> MessageSource {
    match source {
        MessageSourceSelector::Thread { thread } => MessageSource::Thread {
            machine: local,
            thread,
        },
        MessageSourceSelector::Task { task } => MessageSource::Task { machine: local, task },
    }
}

/// Sender of a message that this machine vouches for.
pub fn source_route(source: MessageSourceSelector, local: MachineId) -> (route: MessageSource)
    ensures
        route == vouched(source, local),
{
    match source {
        MessageSourceSelector::Thread { thread } => MessageSource::Thread {
            machine: local,
            thread,
        },
        MessageSourceSelector::Task { task } => MessageSource::Task { machine: local, task },
    }
}

/// A caller's message as its receiver gets it.
pub open spec fn received(
    request: MessageSendRequest,
    destination: MachineId,
    source: MessageSource,
    recipient: Recipient,
    protocol_version: u32,
) -> MessageRequest {
    MessageRequest {
        api_version: request.api_version,
        protocol_version,
        message_id: request.message_id,
        destination_machine: destination,
        source,
        recipient,
        body: request.body,
        reply_to: request.reply_to,
        conversation_id: request.conversation_id,
    }
}

/// A caller's message as its receiver gets it.
pub fn receiver_request(
    request: &MessageSendRequest,
    destination: MachineId,
    source: MessageSource,
    recipient: &Recipient,
    protocol_version: u32,
) -> (wire: MessageRequest)
    ensures
        wire == received(*request, destination, source, *recipient, protocol_version),
{
    MessageRequest {
        api_version: request.api_version,
        protocol_version,
        message_id: request.message_id,
        destination_machine: destination,
        source,
        recipient: recipient.clone(),
        body: request.body.clone(),
        reply_to: request.reply_to,
        conversation_id: request.conversation_id,
    }
}

/// The outcome of a sent message is not known.
pub fn unknown_outcome(request: &MessageRequest, machine: MachineId, message: String) -> (error:
    AppError)
    ensures
        error == (AppError::MessageOutcomeUnknown { id: request.message_id, machine, message }),
{
    AppError::MessageOutcomeUnknown { id: request.message_id, machine, message }
}

/// Whether a receipt is for another thread or directory than the recipient.
pub open spec fn misses(receipt: MessageReceipt, recipient: Recipient) -> bool {
    match recipient {
        Recipient::Thread { thread } => receipt.destination_thread != thread,
        Recipient::Cwd { cwd } => absolute(cwd@) && !path_equal(receipt.destination_cwd@, cwd@),
    }
}

fn misses_recipient(receipt: &MessageReceipt, recipient: &Recipient) -> (missed: bool)
    ensures
        missed == misses(*receipt, *recipient),
{
    match recipient {
        Recipient::Thread { thread } => receipt.destination_thread != *thread,
        Recipient::Cwd { cwd } => is_absolute(cwd.as_str()) && !same_path(
            receipt.destination_cwd.as_str(),
            cwd.as_str(),
        ),
    }
}

/// Whether a receipt is one of this message, by its versions and identity, for a real thread
/// and an absolute directory.
pub open spec fn certifies(
    receipt: MessageReceipt,
    message_id: MessageId,
    protocol_version: u32,
) -> bool {
    &&& receipt.api_version == API_VERSION
    &&& receipt.protocol_version == protocol_version
    &&& receipt.message_id == message_id
    &&& receipt.destination_thread.0 != 0
    &&& absolute(receipt.destination_cwd@)
}

fn certifies_message(
    receipt: &MessageReceipt,
    message_id: MessageId,
    protocol_version: u32,
) -> (certified: bool)
    ensures
        certified == certifies(*receipt, message_id, protocol_version),
{
    receipt.api_version == API_VERSION && receipt.protocol_version == protocol_version
        && receipt.message_id == message_id && !receipt.destination_thread.is_nil()
        && is_absolute(receipt.destination_cwd.as_str())
}

/// What [`decode_remote_receipt`] makes of a receiver's answer.
pub open spec fn decoded(
    parsed: Result<MessageResponse, String>,
    destination: MachineId,
    request: MessageRequest,
) -> Result<MessageReceipt, ErrorView> {
    let unknown = |message: Seq<char>|
        Err::<MessageReceipt, ErrorView>(
            ErrorView::MessageOutcomeUnknown {
                id: request.message_id,
                machine: destination,
                message,
            },
        );
    match parsed {
        Err(error) => unknown("receiver returned an invalid receipt: "@ + error@),
        Ok(response) => if response.api_version != API_VERSION || response.protocol_version
            != request.protocol_version || !certifies(
            response.receipt,
            request.message_id,
            request.protocol_version,
        ) {
            unknown("receiver returned a receipt with a different version or message identity"@)
        } else if response.destination_machine != destination {
            Err(
                ErrorView::MachineIdentityMismatch {
                    expected: destination,
                    found: Some(response.destination_machine),
                },
            )
        } else if misses(response.receipt, request.recipient) {
            match request.recipient {
                Recipient::Thread { .. } => unknown(
                    "receiver returned a receipt for a different thread"@,
                ),
                Recipient::Cwd { .. } => unknown(
                    "receiver returned a receipt for a different working directory"@,
                ),
            }
        } else {
            Ok(response.receipt)
        },
    }
}

/// Accept a successful answer only as the receipt of exactly this message by exactly this
/// machine. `parsed` is the answer, or why it could not be read.
pub fn decode_remote_receipt(
    parsed: Result<MessageResponse, String>,
    destination: MachineId,
    request: &MessageRequest,
) -> (receipt: Result<MessageReceipt, AppError>)
    ensures
        match decoded(parsed, destination, *request) {
            Ok(found) => receipt == Ok::<MessageReceipt, AppError>(found),
            Err(error) => receipt matches Err(found) && found@ == error,
        },
{
    let response = match parsed {
        Ok(response) => response,
        Err(error) => {
            return Err(
                unknown_outcome(
                    request,
                    destination,
                    join2("receiver returned an invalid receipt: ", error.as_str()),
                ),
            );
        },
    };
    if response.api_version != API_VERSION || response.protocol_version
        != request.protocol_version || !certifies_message(
        &response.receipt,
        request.message_id,
        request.protocol_version,
    ) {
        return Err(
            unknown_outcome(
                request,
                destination,
                "receiver returned a receipt with a different version or message identity".to_owned(),
            ),
        );
    }
    if response.destination_machine != destination {
        return Err(
            AppError::MachineIdentityMismatch {
                expected: destination,
                found: Some(response.destination_machine),
            },
        );
    }
    if misses_recipient(&response.receipt, &request.recipient) {
        let message = match &request.recipient {
            Recipient::Thread { .. } => "receiver returned a receipt for a different thread",
            Recipient::Cwd { .. } =>
                "receiver returned a receipt for a different working directory",
        };
        return Err(unknown_outcome(request, destination, message.to_owned()));
    }
    Ok(response.receipt)
}

/// Check a receipt against the caller's own request.
pub fn validate_receipt(
    receipt: &MessageReceipt,
    request: &MessageSendRequest,
    destination: MachineId,
    protocol_version: u32,
    recipient: &Recipient,
) -> (result: Result<(), AppError>)
    ensures
        if certifies(*receipt, request.message_id, protocol_version) && !misses(
            *receipt,
            *recipient,
        ) {
            result is Ok
        } else {
            result matches Err(error) && error@ == (ErrorView::MessageOutcomeUnknown {
                id: request.message_id,
                machine: destination,
                message: "receiver returned a receipt that does not match the request"@,
            })
        },
{
    if !certifies_message(receipt, request.message_id, protocol_version) || misses_recipient(
        receipt,
        recipient,
    ) {
        return Err(
            AppError::MessageOutcomeUnknown {
                id: request.message_id,
                machine: destination,
                message: "receiver returned a receipt that does not match the request".to_owned(),
            },
        );
    }
    Ok(())
}

/// A machine that a fleet gives for a name.
#[derive(Debug, Clone, Copy, PartialEq, Eq, Structural)]
pub enum NameTarget {
    Local,
    Peer(MachineId),
}

/// The identity that a selector is, when it is one rather than a name.
pub fn selected_machine(selector: &str) -> (machine: Option<MachineId>)
    ensures
        machine == (match uuid_parsed(selector@) {
            Some(uuid) => Some(MachineId(uuid)),
            None => None,
        }),
{
    MachineId::parse(selector)
}

/// What [`resolve_machine`] answers.
pub open spec fn resolved_machine(
    selector: Seq<char>,
    local: MachineId,
    local_name: Seq<char>,
    name: Result<String, String>,
    fleet: Option<Result<NameTarget, AppError>>,
) -> Result<MachineId, ErrorView> {
    match uuid_parsed(selector) {
        Some(uuid) => Ok(MachineId(uuid)),
        None => match name {
            Err(error) => Err(ErrorView::Usage { message: error@ }),
            Ok(name) => match fleet {
                Some(Ok(NameTarget::Local)) => Ok(local),
                Some(Ok(NameTarget::Peer(machine))) => Ok(machine),
                Some(Err(error)) => Err(error@),
                None => if name@ == local_name {
                    Ok(local)
                } else {
                    Err(ErrorView::MachineNotFound { machine: selector })
                },
            },
        },
    }
}

/// Resolve a selected machine: by its identity, by its name in the fleet, or outside a fleet
/// by this machine's own name.
///
/// `name` is the selector as a machine name, and `fleet` is what the fleet makes of that name.
pub fn resolve_machine(
    selector: &str,
    local: MachineId,
    local_name: &str,
    name: Result<String, String>,
    fleet: Option<Result<NameTarget, AppError>>,
) -> (machine: Result<MachineId, AppError>)
    ensures
        match resolved_machine(selector@, local, local_name@, name, fleet) {
            Ok(found) => machine == Ok::<MachineId, AppError>(found),
            Err(error) => machine matches Err(found) && found@ == error,
        },
{
    if let Some(machine) = MachineId::parse(selector) {
        return Ok(machine);
    }
    let name = match name {
        Ok(name) => name,
        Err(message) => {
            return Err(AppError::Usage { message });
        },
    };
    match fleet {
        Some(Ok(NameTarget::Local)) => Ok(local),
        Some(Ok(NameTarget::Peer(machine))) => Ok(machine),
        Some(Err(error)) => Err(error),
        None => {
            if same_text(name.as_str(), local_name) {
                Ok(local)
            } else {
                Err(AppError::MachineNotFound { machine: selector.to_owned() })
            }
        },
    }
}

/// Next part of sending a message.
#[derive(Debug)]
pub enum SendStep {
    AskBegin { message: StoreMsg, next: AwaitBegun },
    /// Resolve the selected machine.
    ResolveMachine { selector: String, next: AwaitMachine },
    /// Look the task up, and find its origin's thread.
    ResolveTask { task: TaskId, next: AwaitTaskRoute },
    AskBind { message: StoreMsg, next: AwaitRouteBound },
    /// Receive the message on this machine.
    Receive { request: MessageRequest, next: AwaitReceipt },
    /// Connect to the receiver.
    Connect { machine: MachineId, next: AwaitConnected },
    /// Post the message to the receiver.
    Post { request: MessageRequest, next: AwaitAnswer },
    /// The receiver refused; its answer says why.
    Refused { response: ClusterResponse },
    /// Parse the receiver's answer.
    Parse { body: Vec<u8>, next: AwaitParsed },
    Done(Result<MessageSendResponse, AppError>),
}

/// Waiting for the reserved message.
#[derive(Debug, Clone, Copy, PartialEq, Eq, Structural)]
pub struct AwaitBegun {
    pub local: MachineId,
}

/// Waiting for the selected machine.
#[derive(Debug)]
pub struct AwaitMachine {
    pub local: MachineId,
    pub request: MessageSendRequest,
    pub recipient: Recipient,
}

/// Waiting for the task's origin.
#[derive(Debug)]
pub struct AwaitTaskRoute {
    pub local: MachineId,
    pub request: MessageSendRequest,
}

/// Waiting for the fixed route.
#[derive(Debug, Clone, Copy, PartialEq, Eq, Structural)]
pub struct AwaitRouteBound {
    pub local: MachineId,
}

/// A message with its fixed receiver and recipient.
#[derive(Debug)]
pub struct Routed {
    pub request: MessageSendRequest,
    pub destination: MachineId,
    pub recipient: Recipient,
}

/// Waiting for the receipt of a message to this machine.
#[derive(Debug)]
pub struct AwaitReceipt {
    pub routed: Routed,
    pub protocol_version: u32,
}

/// Waiting for the connection.
#[derive(Debug)]
pub struct AwaitConnected {
    pub local: MachineId,
    pub routed: Routed,
}

/// Waiting for the receiver's answer.
#[derive(Debug)]
pub struct AwaitAnswer {
    pub routed: Routed,
    pub wire: MessageRequest,
}

/// Waiting for the parsed answer.
#[derive(Debug)]
pub struct AwaitParsed {
    pub routed: Routed,
    pub wire: MessageRequest,
}

/// Resolve and deliver one message without changing its selected machine or identity. `valid`
/// is what the request's own validation said.
pub fn send(local: MachineId, request: MessageSendRequest, valid: Result<(), AppError>) -> (step:
    SendStep)
    ensures
        step == (match valid {
            Err(error) => SendStep::Done(Err(error)),
            Ok(_) => SendStep::AskBegin {
                message: StoreMsg::BeginOutboundMessage { request },
                next: AwaitBegun { local },
            },
        }),
{
    match valid {
        Err(error) => SendStep::Done(Err(error)),
        Ok(_) => SendStep::AskBegin {
            message: StoreMsg::BeginOutboundMessage { request },
            next: AwaitBegun { local },
        },
    }
}

/// The first step of a message whose route is fixed.
pub open spec fn dispatched(local: MachineId, routed: Routed) -> SendStep {
    if routed.destination == local {
        SendStep::Receive {
            request: received(
                routed.request,
                local,
                vouched(routed.request.source, local),
                routed.recipient,
                CLUSTER_PROTOCOL_VERSION,
            ),
            next: AwaitReceipt { routed, protocol_version: CLUSTER_PROTOCOL_VERSION },
        }
    } else {
        SendStep::Connect {
            machine: routed.destination,
            next: AwaitConnected { local, routed },
        }
    }
}

fn dispatch(local: MachineId, routed: Routed) -> (step: SendStep)
    ensures
        step == dispatched(local, routed),
{
    if routed.destination == local {
        let source = source_route(routed.request.source, local);
        SendStep::Receive {
            request: receiver_request(
                &routed.request,
                routed.destination,
                source,
                &routed.recipient,
                CLUSTER_PROTOCOL_VERSION,
            ),
            next: AwaitReceipt { routed, protocol_version: CLUSTER_PROTOCOL_VERSION },
        }
    } else {
        SendStep::Connect {
            machine: routed.destination,
            next: AwaitConnected { local, routed },
        }
    }
}

impl AwaitBegun {
    /// A retry goes where the message was bound to; only a new message is resolved.
    pub fn on_begun(self, reply: Result<OutboundMessageBinding, AppError>) -> (step: SendStep)
        ensures
            step == (match reply {
                Err(error) => SendStep::Done(Err(error)),
                Ok(OutboundMessageBinding::Bound { request, destination_machine, recipient }) =>
                    dispatched(
                        self.local,
                        Routed { request, destination: destination_machine, recipient },
                    ),
                Ok(OutboundMessageBinding::Resolving { request }) => match request.target {
                    MessageTarget::Machine { machine, recipient } => SendStep::ResolveMachine {
                        selector: machine,
                        next: AwaitMachine { local: self.local, request, recipient },
                    },
                    MessageTarget::Task { task } => SendStep::ResolveTask {
                        task,
                        next: AwaitTaskRoute { local: self.local, request },
                    },
                },
            }),
    {
        match reply {
            Err(error) => SendStep::Done(Err(error)),
            Ok(OutboundMessageBinding::Bound { request, destination_machine, recipient }) =>
                dispatch(
                    self.local,
                    Routed { request, destination: destination_machine, recipient },
                ),
            Ok(OutboundMessageBinding::Resolving { request }) => {
                let (selector, recipient) = match &request.target {
                    MessageTarget::Machine { machine, recipient } => (
                        machine.clone(),
                        recipient.clone(),
                    ),
                    MessageTarget::Task { task } => {
                        let task = *task;
                        return SendStep::ResolveTask {
                            task,
                            next: AwaitTaskRoute { local: self.local, request },
                        };
                    },
                };
                SendStep::ResolveMachine {
                    selector,
                    next: AwaitMachine { local: self.local, request, recipient },
                }
            },
        }
    }
}

impl AwaitMachine {
    /// Fix the selected machine and recipient.
    pub fn on_machine(self, resolved: Result<MachineId, AppError>) -> (step: SendStep)
        ensures
            step == (match resolved {
                Err(error) => SendStep::Done(Err(error)),
                Ok(machine) => SendStep::AskBind {
                    message: StoreMsg::BindOutboundMessage {
                        request: self.request,
                        destination_machine: machine,
                        recipient: self.recipient,
                    },
                    next: AwaitRouteBound { local: self.local },
                },
            }),
    {
        match resolved {
            Err(error) => SendStep::Done(Err(error)),
            Ok(machine) => SendStep::AskBind {
                message: StoreMsg::BindOutboundMessage {
                    request: self.request,
                    destination_machine: machine,
                    recipient: self.recipient,
                },
                next: AwaitRouteBound { local: self.local },
            },
        }
    }
}

impl AwaitTaskRoute {
    /// Fix the task's origin machine and thread.
    pub fn on_route(self, resolved: Result<(MachineId, ThreadId), AppError>) -> (step: SendStep)
        ensures
            step == (match resolved {
                Err(error) => SendStep::Done(Err(error)),
                Ok((machine, thread)) => SendStep::AskBind {
                    message: StoreMsg::BindOutboundMessage {
                        request: self.request,
                        destination_machine: machine,
                        recipient: Recipient::Thread { thread },
                    },
                    next: AwaitRouteBound { local: self.local },
                },
            }),
    {
        match resolved {
            Err(error) => SendStep::Done(Err(error)),
            Ok((machine, thread)) => SendStep::AskBind {
                message: StoreMsg::BindOutboundMessage {
                    request: self.request,
                    destination_machine: machine,
                    recipient: Recipient::Thread { thread },
                },
                next: AwaitRouteBound { local: self.local },
            },
        }
    }
}

impl AwaitRouteBound {
    /// Go to the saved receiver and recipient, whoever fixed them.
    pub fn on_bound(self, reply: Result<OutboundMessageBinding, AppError>) -> (step: SendStep)
        ensures
            match reply {
                Err(error) => step == SendStep::Done(Err(error)),
                Ok(OutboundMessageBinding::Bound { request, destination_machine, recipient }) =>
                    step == dispatched(
                        self.local,
                        Routed { request, destination: destination_machine, recipient },
                    ),
                Ok(OutboundMessageBinding::Resolving { .. }) => step matches SendStep::Done(
                    Err(error),
                ) && error@ == (ErrorView::Internal {
                    message: "outbound message route did not resolve"@,
                }),
            },
    {
        match reply {
            Err(error) => SendStep::Done(Err(error)),
            Ok(OutboundMessageBinding::Bound { request, destination_machine, recipient }) =>
                dispatch(
                    self.local,
                    Routed { request, destination: destination_machine, recipient },
                ),
            Ok(OutboundMessageBinding::Resolving { .. }) => SendStep::Done(
                Err(internal("outbound message route did not resolve")),
            ),
        }
    }
}

/// Whether a step ends a send with a receipt, as its caller sees it.
pub open spec fn concludes(
    routed: Routed,
    protocol_version: u32,
    receipt: MessageReceipt,
    step: SendStep,
) -> bool {
    if certifies(receipt, routed.request.message_id, protocol_version) && !misses(
        receipt,
        routed.recipient,
    ) {
        step == SendStep::Done(
            Ok(
                MessageSendResponse {
                    api_version: API_VERSION,
                    message_id: routed.request.message_id,
                    destination_machine: routed.destination,
                    destination_thread: receipt.destination_thread,
                    destination_cwd: receipt.destination_cwd,
                    receipt,
                },
            ),
        )
    } else {
        step matches SendStep::Done(Err(error)) && error@ == (ErrorView::MessageOutcomeUnknown {
            id: routed.request.message_id,
            machine: routed.destination,
            message: "receiver returned a receipt that does not match the request"@,
        })
    }
}

fn conclude(routed: Routed, protocol_version: u32, receipt: MessageReceipt) -> (step: SendStep)
    ensures
        concludes(routed, protocol_version, receipt, step),
{
    match validate_receipt(
        &receipt,
        &routed.request,
        routed.destination,
        protocol_version,
        &routed.recipient,
    ) {
        Err(error) => SendStep::Done(Err(error)),
        Ok(_) => SendStep::Done(
            Ok(
                MessageSendResponse {
                    api_version: API_VERSION,
                    message_id: routed.request.message_id,
                    destination_machine: routed.destination,
                    destination_thread: receipt.destination_thread,
                    destination_cwd: receipt.destination_cwd.clone(),
                    receipt,
                },
            ),
        ),
    }
}

impl AwaitReceipt {
    /// Answer with this machine's own receipt.
    pub fn on_receipt(self, received: Result<MessageReceipt, AppError>) -> (step: SendStep)
        ensures
            match received {
                Err(error) => step == SendStep::Done(Err(error)),
                Ok(receipt) => concludes(self.routed, self.protocol_version, receipt, step),
            },
    {
        match received {
            Err(error) => SendStep::Done(Err(error)),
            Ok(receipt) => conclude(self.routed, self.protocol_version, receipt),
        }
    }
}

impl AwaitConnected {
    /// Post in the protocol version that the connection settled on.
    ///
    /// `connected` is that version, or nothing when this machine is in no fleet.
    pub fn on_connected(self, connected: Option<Result<u32, AppError>>) -> (step: SendStep)
        ensures
            match connected {
                None => step matches SendStep::Done(Err(error)) && error@ == (
                ErrorView::MachineNotFound { machine: hyphenated(self.routed.destination.0) }),
                Some(Err(error)) => step == SendStep::Done(Err(error)),
                Some(Ok(protocol_version)) => {
                    let wire = received(
                        self.routed.request,
                        self.routed.destination,
                        vouched(self.routed.request.source, self.local),
                        self.routed.recipient,
                        protocol_version,
                    );
                    step == (SendStep::Post {
                        request: wire,
                        next: AwaitAnswer { routed: self.routed, wire },
                    })
                },
            },
    {
        let protocol_version: u32 = match connected {
            None => {
                return SendStep::Done(
                    Err(AppError::MachineNotFound { machine: self.routed.destination.text() }),
                );
            },
            Some(Err(error)) => {
                return SendStep::Done(Err(error));
            },
            Some(Ok(protocol_version)) => protocol_version,
        };
        let source = source_route(self.routed.request.source, self.local);
        let request = receiver_request(
            &self.routed.request,
            self.routed.destination,
            source,
            &self.routed.recipient,
            protocol_version,
        );
        let wire = receiver_request(
            &self.routed.request,
            self.routed.destination,
            source,
            &self.routed.recipient,
            protocol_version,
        );
        SendStep::Post { request, next: AwaitAnswer { routed: self.routed, wire } }
    }
}

impl AwaitAnswer {
    /// No answer leaves the outcome unknown; a refusal is the receiver's own error.
    pub fn on_answer(self, answer: Result<ClusterResponse, String>) -> (step: SendStep)
        ensures
            step == (match answer {
                Err(message) => SendStep::Done(
                    Err(
                        AppError::MessageOutcomeUnknown {
                            id: self.routed.request.message_id,
                            machine: self.routed.destination,
                            message,
                        },
                    ),
                ),
                Ok(response) => if success_status(response.status.number()) {
                    SendStep::Parse {
                        body: response.body,
                        next: AwaitParsed { routed: self.routed, wire: self.wire },
                    }
                } else {
                    SendStep::Refused { response }
                },
            }),
    {
        match answer {
            Err(message) => SendStep::Done(
                Err(
                    AppError::MessageOutcomeUnknown {
                        id: self.routed.request.message_id,
                        machine: self.routed.destination,
                        message,
                    },
                ),
            ),
            Ok(response) => {
                if response.status.is_success() {
                    SendStep::Parse {
                        body: response.body,
                        next: AwaitParsed { routed: self.routed, wire: self.wire },
                    }
                } else {
                    SendStep::Refused { response }
                }
            },
        }
    }
}

impl AwaitParsed {
    /// Answer with the receiver's receipt once it is proved to be this message's.
    pub fn on_parsed(self, parsed: Result<MessageResponse, String>) -> (step: SendStep)
        ensures
            match decoded(parsed, self.routed.destination, self.wire) {
                Err(error) => step matches SendStep::Done(Err(found)) && found@ == error,
                Ok(receipt) => concludes(
                    self.routed,
                    self.wire.protocol_version,
                    receipt,
                    step,
                ),
            },
    {
        match decode_remote_receipt(parsed, self.routed.destination, &self.wire) {
            Err(error) => SendStep::Done(Err(error)),
            Ok(receipt) => {
                let protocol_version: u32 = self.wire.protocol_version;
                conclude(self.routed, protocol_version, receipt)
            },
        }
    }
}

/// A send succeeds only with a receipt of exactly this message, for the thread or directory
/// that it was bound to.
pub proof fn success_needs_a_matching_receipt(
    routed: Routed,
    protocol_version: u32,
    receipt: MessageReceipt,
    step: SendStep,
)
    requires
        concludes(routed, protocol_version, receipt, step),
        step is Done && step->Done_0 is Ok,
    ensures
        receipt.message_id == routed.request.message_id,
        receipt.destination_thread.0 != 0,
        absolute(receipt.destination_cwd@),
        routed.recipient matches Recipient::Thread { thread } ==> receipt.destination_thread
            == thread,
        step->Done_0->Ok_0.receipt == receipt,
        step->Done_0->Ok_0.destination_machine == routed.destination,
{
}

} // verus!
