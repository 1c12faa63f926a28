//! Direct messages between agent threads.

use vstd::prelude::*;

use crate::ids::{MachineId, MessageId, NoticeId, TaskId, ThreadId};
use crate::path::{path_equal, same_path};
use crate::text::same_text;
use crate::time::Timestamp;

verus! {

/// Largest message body in bytes of its UTF-8 form.
pub const MESSAGE_BODY_MAX_BYTES: usize = 65_536;

/// Sender of a message, with the machine that vouches for it.
#[derive(Debug, Clone, Copy, PartialEq, Eq, Structural)]
pub enum MessageSource {
    Thread { machine: MachineId, thread: ThreadId },
    Task { machine: MachineId, task: TaskId },
    ResourceNotice { machine: MachineId, notice_id: NoticeId },
}

impl MessageSource {
    /// The machine that vouches for the sender.
    pub open spec fn spec_machine(self) -> MachineId {
        match self {
            MessageSource::Thread { machine, .. } => machine,
            MessageSource::Task { machine, .. } => machine,
            MessageSource::ResourceNotice { machine, .. } => machine,
        }
    }

    /// The machine that vouches for the sender.
    #[verifier::when_used_as_spec(spec_machine)]
    pub fn machine(self) -> (machine: MachineId)
        ensures
            machine == self.spec_machine(),
    {
        match self {
            MessageSource::Thread { machine, .. } => machine,
            MessageSource::Task { machine, .. } => machine,
            MessageSource::ResourceNotice { machine, .. } => machine,
        }
    }
}

/// Sender selected by a local caller.
#[derive(Debug, Clone, Copy, PartialEq, Eq, Structural)]
pub enum MessageSourceSelector {
    Thread { thread: ThreadId },
    Task { task: TaskId },
}

/// Receiver of a message on its machine.
#[derive(Debug)]
pub enum Recipient {
    Thread { thread: ThreadId },
    Cwd { cwd: String },
}

/// Whether two recipients are the same: directories are compared as paths.
pub open spec fn recipients_equal(left: Recipient, right: Recipient) -> bool {
    match (left, right) {
        (Recipient::Thread { thread: left }, Recipient::Thread { thread: right }) => left == right,
        (Recipient::Cwd { cwd: left }, Recipient::Cwd { cwd: right }) => path_equal(left@, right@),
        _ => false,
    }
}

impl Recipient {
    /// Whether two recipients are the same.
    pub fn same(&self, other: &Recipient) -> (same: bool)
        ensures
            same == recipients_equal(*self, *other),
    {
        match (self, other) {
            (Recipient::Thread { thread: left }, Recipient::Thread { thread: right }) => *left
                == *right,
            (Recipient::Cwd { cwd: left }, Recipient::Cwd { cwd: right }) => same_path(
                left.as_str(),
                right.as_str(),
            ),
            _ => false,
        }
    }
}

impl Clone for Recipient {
    fn clone(&self) -> (copy: Recipient)
        ensures
            copy == *self,
    {
        match self {
            Recipient::Thread { thread } => Recipient::Thread { thread: *thread },
            Recipient::Cwd { cwd } => Recipient::Cwd { cwd: cwd.clone() },
        }
    }
}

/// Where a local caller wants a message to go.
#[derive(Debug)]
pub enum MessageTarget {
    Machine { machine: String, recipient: Recipient },
    Task { task: TaskId },
}

/// A message as a local caller sends it.
#[derive(Debug)]
pub struct MessageSendRequest {
    pub api_version: u32,
    pub message_id: MessageId,
    pub source: MessageSourceSelector,
    pub target: MessageTarget,
    pub body: String,
    pub reply_to: Option<MessageId>,
    pub conversation_id: u128,
}

/// A message as its receiver gets it.
#[derive(Debug)]
pub struct MessageRequest {
    pub api_version: u32,
    pub protocol_version: u32,
    pub message_id: MessageId,
    pub destination_machine: MachineId,
    pub source: MessageSource,
    pub recipient: Recipient,
    pub body: String,
    pub reply_to: Option<MessageId>,
    pub conversation_id: u128,
}

/// Whether two requests carry the same message; only the protocol may differ.
pub open spec fn same_message(left: MessageRequest, right: MessageRequest) -> bool {
    &&& left.api_version == right.api_version
    &&& left.message_id == right.message_id
    &&& left.destination_machine == right.destination_machine
    &&& left.source == right.source
    &&& recipients_equal(left.recipient, right.recipient)
    &&& left.body@ == right.body@
    &&& left.reply_to == right.reply_to
    &&& left.conversation_id == right.conversation_id
}

impl MessageRequest {
    /// Whether two requests carry the same message.
    pub fn same_identity(&self, other: &MessageRequest) -> (same: bool)
        ensures
            same == same_message(*self, *other),
    {
        self.api_version == other.api_version && self.message_id == other.message_id
            && self.destination_machine == other.destination_machine && self.source
            == other.source && self.recipient.same(&other.recipient) && same_text(
            self.body.as_str(),
            other.body.as_str(),
        ) && self.reply_to == other.reply_to && self.conversation_id == other.conversation_id
    }
}

/// A message bound to the thread and directory it is delivered to.
#[derive(Debug)]
pub struct MessageAttempt {
    pub request: MessageRequest,
    pub destination_thread: ThreadId,
    pub destination_cwd: String,
}

/// Proof that a message reached its thread's queue.
#[derive(Debug)]
pub struct MessageReceipt {
    pub api_version: u32,
    pub protocol_version: u32,
    pub message_id: MessageId,
    pub destination_thread: ThreadId,
    pub destination_cwd: String,
    pub delivered_at: Timestamp,
}

impl MessageReceipt {
    /// The same receipt for a retry that another protocol version carries.
    pub fn for_protocol_version(self, protocol_version: u32) -> (receipt: MessageReceipt)
        ensures
            receipt == (MessageReceipt { protocol_version, ..self }),
    {
        MessageReceipt {
            api_version: self.api_version,
            protocol_version,
            message_id: self.message_id,
            destination_thread: self.destination_thread,
            destination_cwd: self.destination_cwd,
            delivered_at: self.delivered_at,
        }
    }
}

/// What the store holds of one message.
#[derive(Debug)]
pub struct MessageDelivery {
    pub attempt: Option<MessageAttempt>,
    pub receipt: Option<MessageReceipt>,
}

/// A receiver's answer to one message.
#[derive(Debug)]
pub struct MessageResponse {
    pub api_version: u32,
    pub protocol_version: u32,
    pub destination_machine: MachineId,
    pub receipt: MessageReceipt,
}

/// Answer to the local caller that sent a message.
#[derive(Debug)]
pub struct MessageSendResponse {
    pub api_version: u32,
    pub message_id: MessageId,
    pub destination_machine: MachineId,
    pub destination_thread: ThreadId,
    pub destination_cwd: String,
    pub receipt: MessageReceipt,
}

/// State of a message that this machine sends.
#[derive(Debug)]
pub enum OutboundMessageBinding {
    /// The receiver is not fixed yet.
    Resolving { request: MessageSendRequest },
    /// The receiver and recipient are fixed.
    Bound {
        request: MessageSendRequest,
        destination_machine: MachineId,
        recipient: Recipient,
    },
}

} // verus!
