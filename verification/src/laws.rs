//! What the operations promise, over every input and every answer.

pub mod answering;
pub mod calling_back;
pub mod cancelling;
pub mod delivering;
pub mod executing;
pub mod failing;
pub mod finding;
pub mod inspecting;
pub mod keeping;
pub mod launching;
pub mod listing;
pub mod messaging;
pub mod naming;
pub mod queueing;
pub mod reaching;
pub mod refusing;
pub mod serving;
pub mod submitting;
pub mod supervising;
pub mod telling;
pub mod tending;
pub mod watching;
