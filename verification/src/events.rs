//! Sequenced task events and the callback inbox.

use vstd::prelude::*;

use crate::domain::ProcessStatus;
use crate::ids::{MachineId, TaskId};
use crate::time::Timestamp;

verus! {

/// One sequenced event of a task.
#[derive(Debug)]
pub struct TaskEvent {
    pub task: TaskId,
    pub origin_machine: MachineId,
    pub execution_machine: MachineId,
    /// Position in the task's event order, from one.
    pub seq: u64,
    pub payload: EventPayload,
}

/// Content of a task event.
#[derive(Debug)]
pub enum EventPayload {
    /// A state change without a callback line.
    State { state: ProcessStatus },
    /// An event with a line for the origin thread.
    Callback {
        state: Option<ProcessStatus>,
        /// Event kind shown to people.
        kind: String,
        display_name: String,
        line: String,
    },
}

/// Origin's answer to one sent event.
#[derive(Debug, Clone, Copy, PartialEq, Eq, Structural)]
pub enum EventAcceptance {
    /// The event with this sequence is durable at the origin.
    Acknowledged { seq: u64 },
    /// The origin needs this earlier sequence first.
    Expected { seq: u64 },
}

/// Delivery state of one inbox event.
#[derive(Debug)]
pub enum DeliveryState {
    PendingDelivery { attempts: u8, last_error: Option<String> },
    AwaitingThread { attempts: u8, reason: String },
    Delivered { at: Timestamp },
    DeliveryFailed { attempts: u8, last_error: String },
    /// Nothing to deliver.
    NotRequired,
}

/// One event of an origin inbox with its delivery state.
#[derive(Debug)]
pub struct InboxEvent {
    pub event: TaskEvent,
    pub delivery: DeliveryState,
}

/// Result of one queue attempt, as it is settled.
#[derive(Debug)]
pub enum DeliveryOutcome {
    Delivered,
    Deferred(String),
    Retryable(String),
    Permanent(String),
}

/// A retained callback failure.
#[derive(Debug)]
pub struct FailedInboxEvent {
    pub seq: u64,
    pub attempts: u8,
    pub last_error: String,
}

} // verus!
