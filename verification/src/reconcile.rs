//! What a task's row needs once its runner lock is free, callback included.

use vstd::prelude::*;

use crate::domain::{CallbackStatus, ExitReason, ProcessStatus, TaskRow};
use crate::ids::TaskId;

verus! {

/// Next part of applying one task's end.
#[derive(Debug)]
pub enum ApplyStep {
    /// Read the worker's exit file.
    ReadExit { next: AwaitExit },
    /// Store the exit if the status still is `from`, then read the row.
    StoreExit { from: ProcessStatus, to: ProcessStatus, reason: ExitReason, next: AwaitRow },
    /// Mark the task as lost if the status still is `from`, then read the row.
    StoreLost { from: ProcessStatus, next: AwaitRow },
    /// Read the row.
    ReadRow { next: AwaitRow },
    /// Deliver the exit callback; `lost` tells whether the worker left no exit file.
    Deliver { lost: bool },
    Done,
}

/// Waiting for a worker's exit file.
#[derive(Debug, Clone, Copy, PartialEq, Eq, Structural)]
pub struct AwaitExit {
    pub row: TaskRow,
}

/// Waiting for the row after the end was applied.
#[derive(Debug, Clone, Copy, PartialEq, Eq, Structural)]
pub struct AwaitRow {
    pub lost: bool,
}

/// Whether a callback still has to be delivered.
pub open spec fn callback_open(status: CallbackStatus) -> bool {
    status == CallbackStatus::Pending || status == CallbackStatus::Sending
}

fn is_open(status: CallbackStatus) -> (open: bool)
    ensures
        open == callback_open(status),
{
    match status {
        CallbackStatus::Pending | CallbackStatus::Sending => true,
        CallbackStatus::Sent | CallbackStatus::Failed => false,
    }
}

/// Tasks whose lock is watched after a daemon start: every one that has not ended.
pub fn reconcile_all(rows: &Vec<TaskRow>) -> (watched: Vec<TaskId>)
    ensures
        watched@ == rows@.map_values(|row: TaskRow| row.id),
{
    let mut watched: Vec<TaskId> = Vec::new();
    let mut index: usize = 0;
    while index < rows.len()
        invariant
            index <= rows.len(),
            watched@ == rows@.take(index as int).map_values(|row: TaskRow| row.id),
        decreases rows.len() - index,
    {
        watched.push(rows[index].id);
        proof {
            assert(rows@.take(index as int + 1).map_values(|row: TaskRow| row.id)
                =~= rows@.take(index as int).map_values(|row: TaskRow| row.id).push(
                rows@[index as int].id,
            ));
        }
        index += 1;
    }
    proof {
        assert(rows@.take(rows.len() as int) =~= rows@);
    }
    watched
}

/// Apply a task's end once its runner lock is free.
///
/// A task that ended and whose callback is settled needs nothing.
pub fn watch_lock(row: Option<TaskRow>) -> (step: ApplyStep)
    ensures
        step == (match row {
            None => ApplyStep::Done,
            Some(row) => if row.status.terminal() && !callback_open(row.callback_status) {
                ApplyStep::Done
            } else {
                ApplyStep::ReadExit { next: AwaitExit { row } }
            },
        }),
{
    match row {
        None => ApplyStep::Done,
        Some(row) => {
            if row.status.is_terminal() && !is_open(row.callback_status) {
                return ApplyStep::Done;
            }
            ApplyStep::ReadExit { next: AwaitExit { row } }
        },
    }
}

impl AwaitExit {
    /// Store the worker's exit, or the loss of a worker that left none, in a live row.
    ///
    /// `exit` holds the reason and the status that it stands for.
    pub fn on_exit(self, exit: Option<(ExitReason, ProcessStatus)>) -> (step: ApplyStep)
        ensures
            step == (match exit {
                Some((reason, to)) => if self.row.status.terminal() {
                    ApplyStep::ReadRow { next: AwaitRow { lost: false } }
                } else {
                    ApplyStep::StoreExit {
                        from: self.row.status,
                        to,
                        reason,
                        next: AwaitRow { lost: false },
                    }
                },
                None => if self.row.status.terminal() {
                    ApplyStep::ReadRow { next: AwaitRow { lost: true } }
                } else {
                    ApplyStep::StoreLost {
                        from: self.row.status,
                        next: AwaitRow { lost: true },
                    }
                },
            }),
    {
        let ended = self.row.status.is_terminal();
        match exit {
            Some((reason, to)) => {
                let next = AwaitRow { lost: false };
                if ended {
                    ApplyStep::ReadRow { next }
                } else {
                    ApplyStep::StoreExit { from: self.row.status, to, reason, next }
                }
            },
            None => {
                let next = AwaitRow { lost: true };
                if ended {
                    ApplyStep::ReadRow { next }
                } else {
                    ApplyStep::StoreLost { from: self.row.status, next }
                }
            },
        }
    }
}

impl AwaitRow {
    /// Deliver a callback that is still open.
    pub fn on_row(self, row: &TaskRow) -> (step: ApplyStep)
        ensures
            step == if callback_open(row.callback_status) {
                ApplyStep::Deliver { lost: self.lost }
            } else {
                ApplyStep::Done
            },
    {
        if is_open(row.callback_status) {
            ApplyStep::Deliver { lost: self.lost }
        } else {
            ApplyStep::Done
        }
    }
}

} // verus!
