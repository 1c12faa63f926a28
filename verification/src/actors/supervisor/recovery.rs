//! Startup recovery of the non-terminal tasks that this machine owns.

use vstd::prelude::*;

use crate::actors::store::StoreMsg;
use crate::domain::{ProcessStatus, TaskRow};
use crate::ids::TaskId;
use crate::submission::ExecutorIdentity;

verus! {

/// An assigned request that the task layer accepted.
#[derive(Debug, Clone, Copy, PartialEq, Eq, Structural)]
pub struct AcceptedResourceTask {
    pub task_id: TaskId,
    pub state: ProcessStatus,
}

/// What a non-terminal task needs after a daemon restart.
#[derive(Debug, Clone, Copy, PartialEq, Eq, Structural)]
pub enum StartupRecoveryAction {
    /// Start the worker of an accepted remote task.
    LaunchAccepted,
    /// Give the task its actor.
    Observe,
    /// Leave the task to its resource actor.
    DeferResource,
}

/// Whether an identity was accepted for an origin on another machine.
pub open spec fn remote_acceptance(identity: Option<&ExecutorIdentity>) -> bool {
    identity matches Some(ExecutorIdentity::Accepted(record)) && record.origin_machine
        != record.execution_machine
}

/// What a non-terminal task needs after a daemon restart.
pub open spec fn recovery_action(
    row: TaskRow,
    resource_task: Option<AcceptedResourceTask>,
    release_watcher: bool,
    identity: Option<&ExecutorIdentity>,
) -> StartupRecoveryAction {
    match resource_task {
        Some(task) => if row.status == ProcessStatus::Queued && task.state
            == ProcessStatus::Queued {
            StartupRecoveryAction::DeferResource
        } else {
            StartupRecoveryAction::Observe
        },
        None => if !release_watcher && row.status == ProcessStatus::Queued && remote_acceptance(
            identity,
        ) {
            StartupRecoveryAction::LaunchAccepted
        } else {
            StartupRecoveryAction::Observe
        },
    }
}

/// What a non-terminal task needs after a daemon restart.
///
/// A bound watcher, even one accepted for a remote supervisor, is never relaunched from a
/// queued row whose first spawn may already have happened.
pub fn startup_recovery_action(
    row: &TaskRow,
    resource_task: Option<AcceptedResourceTask>,
    release_watcher: bool,
    identity: Option<&ExecutorIdentity>,
) -> (action: StartupRecoveryAction)
    ensures
        action == recovery_action(*row, resource_task, release_watcher, identity),
{
    if let Some(task) = resource_task {
        return match (row.status, task.state) {
            (ProcessStatus::Queued, ProcessStatus::Queued) => StartupRecoveryAction::DeferResource,
            _ => StartupRecoveryAction::Observe,
        };
    }
    if release_watcher {
        return StartupRecoveryAction::Observe;
    }
    if row.status == ProcessStatus::Queued {
        if let Some(ExecutorIdentity::Accepted(record)) = identity {
            if record.origin_machine != record.execution_machine {
                return StartupRecoveryAction::LaunchAccepted;
            }
        }
    }
    StartupRecoveryAction::Observe
}

/// What the store holds about the tasks that resources own.
#[derive(Debug)]
pub struct RecoveryContext {
    pub accepted: Vec<AcceptedResourceTask>,
    pub restoring: Vec<TaskId>,
    pub background_launches: Vec<TaskId>,
    pub watchers: Vec<TaskId>,
}

/// The acceptance of a task; a later entry stands for an earlier one.
pub open spec fn accepted_task(accepted: Seq<AcceptedResourceTask>, id: TaskId) -> Option<
    AcceptedResourceTask,
>
    decreases accepted.len(),
{
    if accepted.len() == 0 {
        None
    } else if accepted.last().task_id == id {
        Some(accepted.last())
    } else {
        accepted_task(accepted.drop_last(), id)
    }
}

fn find_accepted(accepted: &Vec<AcceptedResourceTask>, id: TaskId) -> (found: Option<
    AcceptedResourceTask,
>)
    ensures
        found == accepted_task(accepted@, id),
{
    let mut found: Option<AcceptedResourceTask> = None;
    let mut index: usize = 0;
    while index < accepted.len()
        invariant
            index <= accepted.len(),
            found == accepted_task(accepted@.take(index as int), id),
        decreases accepted.len() - index,
    {
        proof {
            let next = accepted@.take(index as int + 1);
            assert(next.drop_last() =~= accepted@.take(index as int));
            assert(next.last() == accepted@[index as int]);
        }
        if accepted[index].task_id == id {
            found = Some(accepted[index]);
        }
        index += 1;
    }
    proof {
        assert(accepted@.take(accepted.len() as int) =~= accepted@);
    }
    found
}

/// Whether a list names a task.
pub fn names_task(tasks: &Vec<TaskId>, id: TaskId) -> (named: bool)
    ensures
        named == tasks@.contains(id),
{
    let mut index: usize = 0;
    while index < tasks.len()
        invariant
            index <= tasks.len(),
            forall|at: int| 0 <= at < index ==> tasks@[at] != id,
        decreases tasks.len() - index,
    {
        if tasks[index] == id {
            return true;
        }
        index += 1;
    }
    false
}

/// Next part of recovering one task.
#[derive(Debug)]
pub enum RecoveryStep {
    /// A queued return or first background task may have lost its spawn, and a free runner
    /// lock cannot prove otherwise, so it stays queued for resource attention.
    Leave,
    /// The identity decides.
    AskIdentity { message: StoreMsg },
    Act { action: StartupRecoveryAction },
}

impl RecoveryContext {
    /// Whether a queued row belongs to a return or a first background launch.
    pub open spec fn leaves(self, row: TaskRow) -> bool {
        row.status == ProcessStatus::Queued && (self.restoring@.contains(row.id)
            || self.background_launches@.contains(row.id))
    }

    /// What recovering one task needs first.
    pub open spec fn first_step(self, row: TaskRow) -> RecoveryStep {
        if self.leaves(row) {
            RecoveryStep::Leave
        } else if row.status == ProcessStatus::Queued && accepted_task(self.accepted@, row.id)
            is None {
            RecoveryStep::AskIdentity { message: StoreMsg::ExecutorIdentity { id: row.id } }
        } else {
            RecoveryStep::Act {
                action: recovery_action(
                    row,
                    accepted_task(self.accepted@, row.id),
                    self.watchers@.contains(row.id),
                    None,
                ),
            }
        }
    }

    /// Give one non-terminal task an owner after a daemon restart.
    ///
    /// Only a queued remote acceptance is launched, and its launch still refuses one whose
    /// runner lock is held; every other row is observed or left for its resource actor.
    pub fn recover(&self, row: &TaskRow) -> (step: RecoveryStep)
        ensures
            step == self.first_step(*row),
    {
        let queued = row.status == ProcessStatus::Queued;
        if queued && (names_task(&self.restoring, row.id) || names_task(
            &self.background_launches,
            row.id,
        )) {
            return RecoveryStep::Leave;
        }
        let accepted = find_accepted(&self.accepted, row.id);
        if queued && accepted.is_none() {
            return RecoveryStep::AskIdentity {
                message: StoreMsg::ExecutorIdentity { id: row.id },
            };
        }
        RecoveryStep::Act {
            action: startup_recovery_action(
                row,
                accepted,
                names_task(&self.watchers, row.id),
                None,
            ),
        }
    }

    /// Decide with the identity that [`RecoveryContext::recover`] asked for.
    pub fn on_identity(&self, row: &TaskRow, identity: Option<&ExecutorIdentity>) -> (action:
        StartupRecoveryAction)
        ensures
            action == recovery_action(
                *row,
                accepted_task(self.accepted@, row.id),
                self.watchers@.contains(row.id),
                identity,
            ),
    {
        startup_recovery_action(
            row,
            find_accepted(&self.accepted, row.id),
            names_task(&self.watchers, row.id),
            identity,
        )
    }
}

/// A restart relaunches nothing but the queued acceptance of another machine's task that no
/// resource owns: a return, a first background launch, an assigned task and a watcher are
/// never started again.
pub proof fn restarts_relaunch_only_remote_acceptances(
    context: RecoveryContext,
    row: TaskRow,
    identity: Option<&ExecutorIdentity>,
)
    ensures
        context.first_step(row) != (RecoveryStep::Act {
            action: StartupRecoveryAction::LaunchAccepted,
        }),
        context.first_step(row) is AskIdentity ==> (recovery_action(
            row,
            accepted_task(context.accepted@, row.id),
            context.watchers@.contains(row.id),
            identity,
        ) == StartupRecoveryAction::LaunchAccepted <==> {
            &&& remote_acceptance(identity)
            &&& !context.watchers@.contains(row.id)
        }),
        context.first_step(row) is AskIdentity ==> row.status == ProcessStatus::Queued
            && !context.restoring@.contains(row.id) && !context.background_launches@.contains(
            row.id,
        ) && accepted_task(context.accepted@, row.id) is None,
{
}

} // verus!
