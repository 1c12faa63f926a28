//! One watch per non-terminal task: what its end means, and the one inactivity reminder.

use vstd::prelude::*;

use crate::actors::store::StoreMsg;
use crate::domain::{
    AttentionState, CancelResult, ExitReason, ProcessGroupExitEvidence, ProcessStatus, TaskRow,
};
use crate::error::AppError;
use crate::ids::TaskId;
use crate::time::{Span, Timestamp};

verus! {

/// Seconds until another try when an attention event cannot be committed.
pub const ATTENTION_RETRY_SECS: u64 = 30;

/// Longest single sleep in seconds before the deadline is recomputed.
///
/// The inactivity timer has no product maximum, so bounded hops re-check for wall-clock
/// changes and new output, and keep each sleep within a practical timer limit.
pub const ATTENTION_HOP_MAX_SECS: u64 = 3600;

/// Messages of one task watch.
#[derive(Debug, Clone, Copy, PartialEq, Eq, Structural)]
pub enum TaskMsg {
    /// The runner lock is free; apply the exit file or the loss of the worker.
    LockReleased,
    /// The output-inactivity timer fired.
    AttentionDue,
    /// A legacy attention sender can no longer be alive.
    AttentionRecoveryDue,
}

/// Attention phase of one watch.
#[derive(Debug, Clone, Copy, PartialEq, Eq, Structural)]
pub enum AttentionPhase {
    /// The timer may still fire; no send is in flight.
    Armed,
    /// A legacy sender may still own the old persisted claim until its bound passes.
    Recovering,
    /// Delivered, or the task ended; no further reminder.
    Done,
}

/// What an armed timer waits for.
#[derive(Debug, Clone, Copy, PartialEq, Eq, Structural)]
pub enum AttentionTimer {
    /// The inactivity deadline, recomputed on every hop.
    Inactivity { created_at: Timestamp, timeout: Span },
    /// Another try.
    Retry,
    /// The bound of a legacy sender.
    Recovery,
}

/// Runtime state of one task watch; it has at most one timer.
#[derive(Debug, Clone, Copy, PartialEq, Eq, Structural)]
pub struct TaskWatch {
    pub id: TaskId,
    pub attention: AttentionPhase,
    pub attention_timer: Option<AttentionTimer>,
}

/// Reading of the last activity: output counts only after the task was created.
pub open spec fn last_activity(created_at: Timestamp, last_output_at: Option<Timestamp>) -> int {
    match last_output_at {
        Some(at) => if at.total() > created_at.total() {
            at.total()
        } else {
            created_at.total()
        },
        None => created_at.total(),
    }
}

/// Nanoseconds left before an inactivity reminder is due.
pub open spec fn wait_nanos(
    created_at: Timestamp,
    last_output_at: Option<Timestamp>,
    timeout: Span,
    now: Timestamp,
) -> int {
    let activity = last_activity(created_at, last_output_at);
    let elapsed = if now.total() > activity {
        now.total() - activity
    } else {
        0
    };
    if timeout.nanos > elapsed {
        timeout.nanos - elapsed
    } else {
        0
    }
}

/// Time left before an inactivity reminder is due.
///
/// Saturating throughout: neither a very long timeout nor a clock that moved backwards can
/// overflow or collapse the wait to zero.
pub fn inactivity_wait(
    created_at: Timestamp,
    last_output_at: Option<Timestamp>,
    timeout: Span,
    now: Timestamp,
) -> (wait: Span)
    ensures
        wait.nanos == wait_nanos(created_at, last_output_at, timeout, now),
{
    let mut activity_at = created_at;
    if let Some(at) = last_output_at {
        if at.after(created_at) {
            activity_at = at;
        }
    }
    let elapsed = now.elapsed_since(activity_at);
    Span { nanos: timeout.nanos.saturating_sub(elapsed.nanos) }
}

/// The next sleep of an inactivity timer, or nothing when the reminder is due.
pub fn attention_hop(wait: Span) -> (hop: Option<Span>)
    ensures
        hop == if wait.nanos == 0 {
            None
        } else if wait.nanos < 3_600_000_000_000 {
            Some(wait)
        } else {
            Some(Span { nanos: 3_600_000_000_000 })
        },
{
    if wait.is_zero() {
        return None;
    }
    Some(wait.min(Span::from_secs(ATTENTION_HOP_MAX_SECS)))
}

/// A reminder never waits longer than the timeout, and a clock that moved backwards never
/// shortens the wait.
pub proof fn waits_stay_within_the_timeout(
    created_at: Timestamp,
    last_output_at: Option<Timestamp>,
    timeout: Span,
    now: Timestamp,
)
    ensures
        0 <= wait_nanos(created_at, last_output_at, timeout, now) <= timeout.nanos,
        now.total() <= last_activity(created_at, last_output_at) ==> wait_nanos(
            created_at,
            last_output_at,
            timeout,
            now,
        ) == timeout.nanos,
{
}

/// Time brings a reminder closer, and output after the last activity puts it off.
pub proof fn output_puts_the_reminder_off(
    created_at: Timestamp,
    earlier_output: Option<Timestamp>,
    later_output: Timestamp,
    timeout: Span,
    now: Timestamp,
    later: Timestamp,
)
    requires
        later_output.total() >= last_activity(created_at, earlier_output),
        later.total() >= now.total(),
    ensures
        wait_nanos(created_at, earlier_output, timeout, later) <= wait_nanos(
            created_at,
            earlier_output,
            timeout,
            now,
        ),
        wait_nanos(created_at, earlier_output, timeout, now) <= wait_nanos(
            created_at,
            Some(later_output),
            timeout,
            now,
        ),
{
}

/// The phase and timer of a watch that starts on a row.
pub open spec fn started_watch(row: TaskRow) -> TaskWatch {
    if row.status.terminal() {
        TaskWatch { id: row.id, attention: AttentionPhase::Done, attention_timer: None }
    } else {
        match row.attention {
            AttentionState::Delivered => TaskWatch {
                id: row.id,
                attention: AttentionPhase::Done,
                attention_timer: None,
            },
            AttentionState::Sending => TaskWatch {
                id: row.id,
                attention: AttentionPhase::Recovering,
                attention_timer: Some(AttentionTimer::Recovery),
            },
            AttentionState::Pending => TaskWatch {
                id: row.id,
                attention: AttentionPhase::Armed,
                attention_timer: Some(
                    AttentionTimer::Inactivity { created_at: row.created_at, timeout: row.timeout },
                ),
            },
        }
    }
}

/// Next part of one watch message.
#[derive(Debug)]
pub enum TaskStep {
    /// The row of a task whose runner lock became free.
    AskEnded { message: StoreMsg, next: AwaitEnded },
    /// Read the worker's exit file.
    ReadExit { next: AwaitExitFile },
    AskApplied { message: StoreMsg, next: AwaitApplied },
    AskStored { message: StoreMsg, next: AwaitStored },
    /// The watch ends; a failure is only logged.
    Stop { result: Result<(), AppError> },
    /// The row that the reminder is about.
    AskRow { message: StoreMsg, next: AwaitRow },
    /// Read the clock and the time of the last output.
    ReadOutput { next: AwaitOutput },
    AskEventTask { message: StoreMsg, next: AwaitEventTask },
    AskProduced { message: StoreMsg, next: AwaitProduced },
    AskReleased { message: StoreMsg, next: AwaitReleased },
    /// The watch goes on; `due` sends it [`TaskMsg::AttentionDue`] at once.
    Settled { watch: TaskWatch, due: bool },
    Failed { watch: TaskWatch, error: AppError },
}

/// Waiting for the row of a task whose runner lock became free.
#[derive(Debug, Clone, Copy, PartialEq, Eq, Structural)]
pub struct AwaitEnded;

/// Waiting for a worker's exit file.
#[derive(Debug, Clone, Copy, PartialEq, Eq, Structural)]
pub struct AwaitExitFile {
    pub row: TaskRow,
}

/// Waiting for the stored end of a task.
#[derive(Debug, Clone, Copy, PartialEq, Eq, Structural)]
pub struct AwaitApplied {
    pub id: TaskId,
}

/// Waiting for what another writer stored first.
#[derive(Debug, Clone, Copy, PartialEq, Eq, Structural)]
pub struct AwaitStored {
    pub id: TaskId,
}

/// Waiting for the row that the reminder is about.
#[derive(Debug, Clone, Copy, PartialEq, Eq, Structural)]
pub struct AwaitRow {
    pub watch: TaskWatch,
}

/// Waiting for the time of the last output.
#[derive(Debug, Clone, Copy, PartialEq, Eq, Structural)]
pub struct AwaitOutput {
    pub watch: TaskWatch,
    pub row: TaskRow,
}

/// Waiting for whether the task has a durable event identity.
#[derive(Debug, Clone, Copy, PartialEq, Eq, Structural)]
pub struct AwaitEventTask {
    pub watch: TaskWatch,
}

/// Waiting for the committed reminder.
#[derive(Debug, Clone, Copy, PartialEq, Eq, Structural)]
pub struct AwaitProduced {
    pub watch: TaskWatch,
}

/// Waiting for the release of a legacy claim.
#[derive(Debug, Clone, Copy, PartialEq, Eq, Structural)]
pub struct AwaitReleased {
    pub watch: TaskWatch,
}

impl TaskWatch {
    /// Start watching a task that the store must hold.
    pub fn start(id: TaskId, reply: Result<Option<TaskRow>, AppError>) -> (watch: Result<
        TaskWatch,
        AppError,
    >)
        ensures
            watch == (match reply {
                Err(error) => Err(error),
                Ok(None) => Err(AppError::TaskNotFound { id }),
                Ok(Some(row)) => Ok(TaskWatch { id, ..started_watch(row) }),
            }),
    {
        let row = match reply {
            Err(error) => {
                return Err(error);
            },
            Ok(None) => {
                return Err(AppError::TaskNotFound { id });
            },
            Ok(Some(row)) => row,
        };
        let (attention, attention_timer) = match (row.attention, row.status.is_terminal()) {
            (_, true) | (AttentionState::Delivered, false) => (AttentionPhase::Done, None),
            (AttentionState::Sending, false) => (
                AttentionPhase::Recovering,
                Some(AttentionTimer::Recovery),
            ),
            (AttentionState::Pending, false) => (
                AttentionPhase::Armed,
                Some(
                    AttentionTimer::Inactivity { created_at: row.created_at, timeout: row.timeout },
                ),
            ),
        };
        Ok(TaskWatch { id, attention, attention_timer })
    }

    /// The watch without a timer.
    pub open spec fn untimed(self) -> TaskWatch {
        TaskWatch { attention_timer: None, ..self }
    }

    /// The watch with only this timer.
    pub open spec fn timed(self, timer: AttentionTimer) -> TaskWatch {
        TaskWatch { attention_timer: Some(timer), ..self }
    }

    /// The watch after its last reminder.
    pub open spec fn done(self) -> TaskWatch {
        TaskWatch { attention: AttentionPhase::Done, ..self }
    }

    /// What one message starts.
    pub open spec fn handled(self, message: TaskMsg) -> TaskStep {
        match message {
            TaskMsg::LockReleased => TaskStep::AskEnded {
                message: StoreMsg::GetTask { id: self.id },
                next: AwaitEnded,
            },
            TaskMsg::AttentionDue => if self.attention == AttentionPhase::Armed {
                TaskStep::AskRow {
                    message: StoreMsg::GetTask { id: self.id },
                    next: AwaitRow { watch: self.untimed() },
                }
            } else {
                TaskStep::Settled { watch: self.untimed(), due: false }
            },
            TaskMsg::AttentionRecoveryDue => if self.attention == AttentionPhase::Recovering {
                TaskStep::AskReleased {
                    message: StoreMsg::ReleaseAttention { id: self.id },
                    next: AwaitReleased { watch: self.untimed() },
                }
            } else {
                TaskStep::Settled { watch: self.untimed(), due: false }
            },
        }
    }

    /// Start what one message asks for.
    pub fn handle(self, message: TaskMsg) -> (step: TaskStep)
        ensures
            step == self.handled(message),
    {
        let mut watch = self;
        match message {
            TaskMsg::LockReleased => TaskStep::AskEnded {
                message: StoreMsg::GetTask { id: watch.id },
                next: AwaitEnded,
            },
            TaskMsg::AttentionDue => {
                watch.attention_timer = None;
                if watch.attention != AttentionPhase::Armed {
                    return TaskStep::Settled { watch, due: false };
                }
                TaskStep::AskRow {
                    message: StoreMsg::GetTask { id: watch.id },
                    next: AwaitRow { watch },
                }
            },
            TaskMsg::AttentionRecoveryDue => {
                watch.attention_timer = None;
                if watch.attention != AttentionPhase::Recovering {
                    return TaskStep::Settled { watch, due: false };
                }
                TaskStep::AskReleased {
                    message: StoreMsg::ReleaseAttention { id: watch.id },
                    next: AwaitReleased { watch },
                }
            },
        }
    }
}

impl AwaitEnded {
    /// A task that ended by another way needs nothing applied.
    pub fn on_row(self, reply: Result<Option<TaskRow>, AppError>) -> (step: TaskStep)
        ensures
            step == (match reply {
                Err(error) => TaskStep::Stop { result: Err(error) },
                Ok(None) => TaskStep::Stop { result: Ok(()) },
                Ok(Some(row)) => if row.status.terminal() {
                    TaskStep::Stop { result: Ok(()) }
                } else {
                    TaskStep::ReadExit { next: AwaitExitFile { row } }
                },
            }),
    {
        match reply {
            Err(error) => TaskStep::Stop { result: Err(error) },
            Ok(None) => TaskStep::Stop { result: Ok(()) },
            Ok(Some(row)) => {
                if row.status.is_terminal() {
                    return TaskStep::Stop { result: Ok(()) };
                }
                TaskStep::ReadExit { next: AwaitExitFile { row } }
            },
        }
    }
}

/// The exit file that a worker wrote.
#[derive(Debug)]
pub struct ExitFile {
    pub reason: ExitReason,
    pub process_group_exit_evidence: ProcessGroupExitEvidence,
}

impl AwaitExitFile {
    /// Adopt the worker's reason, or mark a worker that left none as lost.
    pub fn on_exit(self, file: Result<Option<ExitFile>, AppError>) -> (step: TaskStep)
        ensures
            step == (match file {
                Err(error) => TaskStep::Stop { result: Err(error) },
                Ok(Some(exit)) => TaskStep::AskApplied {
                    message: StoreMsg::CasExit {
                        id: self.row.id,
                        from: self.row.status,
                        reason: exit.reason,
                        evidence: exit.process_group_exit_evidence,
                    },
                    next: AwaitApplied { id: self.row.id },
                },
                Ok(None) => TaskStep::AskApplied {
                    message: StoreMsg::CasStatus {
                        id: self.row.id,
                        from: self.row.status,
                        to: ProcessStatus::Lost,
                    },
                    next: AwaitApplied { id: self.row.id },
                },
            }),
    {
        let message = match file {
            Err(error) => {
                return TaskStep::Stop { result: Err(error) };
            },
            Ok(Some(exit)) => StoreMsg::CasExit {
                id: self.row.id,
                from: self.row.status,
                reason: exit.reason,
                evidence: exit.process_group_exit_evidence,
            },
            Ok(None) => StoreMsg::CasStatus {
                id: self.row.id,
                from: self.row.status,
                to: ProcessStatus::Lost,
            },
        };
        TaskStep::AskApplied { message, next: AwaitApplied { id: self.row.id } }
    }
}

impl AwaitApplied {
    /// A cancel or exit that landed first stands; its row is only read back.
    pub fn on_applied(self, reply: Result<Option<TaskRow>, AppError>) -> (step: TaskStep)
        ensures
            step == (match reply {
                Err(error) => TaskStep::Stop { result: Err(error) },
                Ok(Some(_)) => TaskStep::Stop { result: Ok(()) },
                Ok(None) => TaskStep::AskStored {
                    message: StoreMsg::GetTask { id: self.id },
                    next: AwaitStored { id: self.id },
                },
            }),
    {
        match reply {
            Err(error) => TaskStep::Stop { result: Err(error) },
            Ok(Some(_)) => TaskStep::Stop { result: Ok(()) },
            Ok(None) => TaskStep::AskStored {
                message: StoreMsg::GetTask { id: self.id },
                next: AwaitStored { id: self.id },
            },
        }
    }
}

impl AwaitStored {
    /// The row must still exist.
    pub fn on_row(self, reply: Result<Option<TaskRow>, AppError>) -> (step: TaskStep)
        ensures
            step == (TaskStep::Stop {
                result: match reply {
                    Err(error) => Err(error),
                    Ok(Some(_)) => Ok(()),
                    Ok(None) => Err(AppError::TaskNotFound { id: self.id }),
                },
            }),
    {
        let result = match reply {
            Err(error) => Err(error),
            Ok(Some(_)) => Ok(()),
            Ok(None) => Err(AppError::TaskNotFound { id: self.id }),
        };
        TaskStep::Stop { result }
    }
}

impl AwaitRow {
    /// Only a running task can be inactive; a failed read is tried again.
    pub fn on_row(self, reply: Result<Option<TaskRow>, AppError>) -> (step: TaskStep)
        ensures
            step == (match reply {
                Err(_) => TaskStep::Settled {
                    watch: self.watch.timed(AttentionTimer::Retry),
                    due: false,
                },
                Ok(None) => TaskStep::Settled { watch: self.watch.done(), due: false },
                Ok(Some(row)) => match row.status {
                    ProcessStatus::Queued => TaskStep::Settled {
                        watch: self.watch.timed(AttentionTimer::Retry),
                        due: false,
                    },
                    ProcessStatus::Running => TaskStep::ReadOutput {
                        next: AwaitOutput { watch: self.watch, row },
                    },
                    _ => TaskStep::Settled { watch: self.watch.done(), due: false },
                },
            }),
    {
        let mut watch = self.watch;
        match reply {
            Err(_) => {
                watch.attention_timer = Some(AttentionTimer::Retry);
                TaskStep::Settled { watch, due: false }
            },
            Ok(None) => {
                watch.attention = AttentionPhase::Done;
                TaskStep::Settled { watch, due: false }
            },
            Ok(Some(row)) => match row.status {
                ProcessStatus::Queued => {
                    watch.attention_timer = Some(AttentionTimer::Retry);
                    TaskStep::Settled { watch, due: false }
                },
                ProcessStatus::Running => TaskStep::ReadOutput {
                    next: AwaitOutput { watch, row },
                },
                _ => {
                    watch.attention = AttentionPhase::Done;
                    TaskStep::Settled { watch, due: false }
                },
            },
        }
    }
}

impl AwaitOutput {
    /// Output that came since puts the reminder off.
    pub fn on_output(self, last_output_at: Option<Timestamp>, now: Timestamp) -> (step: TaskStep)
        ensures
            step == if wait_nanos(
                self.row.created_at,
                last_output_at,
                self.row.timeout,
                now,
            ) == 0 {
                TaskStep::AskEventTask {
                    message: StoreMsg::IsEventTask { id: self.watch.id },
                    next: AwaitEventTask { watch: self.watch },
                }
            } else {
                TaskStep::Settled {
                    watch: self.watch.timed(
                        AttentionTimer::Inactivity {
                            created_at: self.row.created_at,
                            timeout: self.row.timeout,
                        },
                    ),
                    due: false,
                }
            },
    {
        let mut watch = self.watch;
        let wait = inactivity_wait(self.row.created_at, last_output_at, self.row.timeout, now);
        if !wait.is_zero() {
            watch.attention_timer = Some(
                AttentionTimer::Inactivity {
                    created_at: self.row.created_at,
                    timeout: self.row.timeout,
                },
            );
            return TaskStep::Settled { watch, due: false };
        }
        TaskStep::AskEventTask {
            message: StoreMsg::IsEventTask { id: watch.id },
            next: AwaitEventTask { watch },
        }
    }
}

impl AwaitEventTask {
    /// A task without an event identity cannot be reminded of, so the check is tried again.
    pub fn on_event_task(self, reply: Result<bool, AppError>) -> (step: TaskStep)
        ensures
            step == (match reply {
                Ok(true) => TaskStep::AskProduced {
                    message: StoreMsg::ProduceAttentionEvent { id: self.watch.id },
                    next: AwaitProduced { watch: self.watch },
                },
                _ => TaskStep::Settled {
                    watch: self.watch.timed(AttentionTimer::Retry),
                    due: false,
                },
            }),
    {
        let mut watch = self.watch;
        match reply {
            Ok(true) => TaskStep::AskProduced {
                message: StoreMsg::ProduceAttentionEvent { id: watch.id },
                next: AwaitProduced { watch },
            },
            _ => {
                watch.attention_timer = Some(AttentionTimer::Retry);
                TaskStep::Settled { watch, due: false }
            },
        }
    }
}

impl AwaitProduced {
    /// A committed reminder is the last one.
    pub fn on_produced(self, reply: Result<(), AppError>) -> (step: TaskStep)
        ensures
            step == (TaskStep::Settled {
                watch: match reply {
                    Ok(_) => self.watch.done(),
                    Err(_) => self.watch.timed(AttentionTimer::Retry),
                },
                due: false,
            }),
    {
        let mut watch = self.watch;
        match reply {
            Ok(_) => {
                watch.attention = AttentionPhase::Done;
            },
            Err(_) => {
                watch.attention_timer = Some(AttentionTimer::Retry);
            },
        }
        TaskStep::Settled { watch, due: false }
    }
}

impl AwaitReleased {
    /// A released legacy claim arms the watch, which checks at once.
    pub fn on_released(self, reply: Result<(), AppError>) -> (step: TaskStep)
        ensures
            step == (match reply {
                Ok(_) => TaskStep::Settled {
                    watch: TaskWatch { attention: AttentionPhase::Armed, ..self.watch },
                    due: true,
                },
                Err(error) => TaskStep::Failed { watch: self.watch, error },
            }),
    {
        let mut watch = self.watch;
        match reply {
            Ok(_) => {
                watch.attention = AttentionPhase::Armed;
                TaskStep::Settled { watch, due: true }
            },
            Err(error) => TaskStep::Failed { watch, error },
        }
    }
}

/// The worker to signal after a stored cancel request.
///
/// The pid is the worker's own: it forwards the signal to the child's process group.
pub fn cancel_task(result: &CancelResult) -> (signal: Option<i32>)
    ensures
        signal == (match *result {
            CancelResult::SignalWorker(row) => row.pid,
            _ => None,
        }),
{
    match result {
        CancelResult::AlreadyTerminal(_) | CancelResult::CancelledQueued(_) => None,
        CancelResult::SignalWorker(row) => row.pid,
    }
}

/// A task is reminded of at most once: a watch that is done asks for nothing more and has
/// no timer that could ask again.
pub proof fn finished_watches_never_remind(watch: TaskWatch, message: TaskMsg)
    requires
        watch.attention == AttentionPhase::Done,
        message != TaskMsg::LockReleased,
    ensures
        watch.handled(message) == (TaskStep::Settled { watch: watch.untimed(), due: false }),
        watch.untimed().attention == AttentionPhase::Done,
{
}

/// A watch that starts on an ended task, or after its reminder, is done and has no timer;
/// any other has exactly one.
pub proof fn live_watches_have_one_timer(row: TaskRow)
    ensures
        started_watch(row).attention == AttentionPhase::Done <==> row.status.terminal()
            || row.attention == AttentionState::Delivered,
        started_watch(row).attention_timer is None <==> started_watch(row).attention
            == AttentionPhase::Done,
{
}

} // verus!
