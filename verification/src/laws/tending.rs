//! Tending a running task: when people are reminded of it, how its end is taken up, and what
//! becomes of a task that could not be spawned.

use vstd::prelude::*;

use crate::actors::store::StoreMsg;
use crate::actors::task::{
    attention_hop, cancel_task, inactivity_wait, AttentionPhase, AttentionTimer, AwaitApplied,
    AwaitEnded, AwaitEventTask, AwaitExitFile, AwaitOutput, AwaitProduced, AwaitReleased, AwaitRow,
    AwaitStored, ExitFile, TaskMsg, TaskStep, TaskWatch,
};
use crate::domain::{CallbackStatus, CancelResult, ExitReason, ProcessStatus, TaskRow};
use crate::error::{error_text, AppError};
use crate::ids::TaskId;
use crate::reconcile;
use crate::release_watcher_api::{
    poll_request, poll_response, ReleaseWatcherPollOutcome, ReleaseWatcherPollRequest,
    ReleaseWatcherPollResponse,
};
use crate::serve;
use crate::time::{Span, Timestamp};

verus! {

/// Whether a process has ended for good.
pub open spec fn ended(status: ProcessStatus) -> bool {
    status == ProcessStatus::Succeeded || status == ProcessStatus::Failed || status
        == ProcessStatus::Cancelled || status == ProcessStatus::Lost
}

/// A watched task waits out its timeout from its last output, or from its creation before any:
/// nothing is left to wait exactly when that time is over, and otherwise what is missing is.
pub proof fn reminders_wait_from_the_last_output(
    created_at: Timestamp,
    last_output_at: Option<Timestamp>,
    timeout: Span,
    now: Timestamp,
    wait: Span,
    hop: Option<Span>,
)
    requires
        call_ensures(inactivity_wait, (created_at, last_output_at, timeout, now), wait),
        call_ensures(attention_hop, (wait,), hop),
    ensures
        ({
            let last = match last_output_at {
                Some(at) => if at.total() >= created_at.total() {
                    at.total()
                } else {
                    created_at.total()
                },
                None => created_at.total(),
            };
            &&& now.total() >= last ==> (wait.nanos == 0 <==> now.total() >= last + timeout.nanos)
            &&& now.total() >= last && wait.nanos > 0 ==> now.total() + wait.nanos == last
                + timeout.nanos
            &&& now.total() < last ==> wait.nanos == timeout.nanos
        }),
        hop is None <==> wait.nanos == 0,
        hop matches Some(part) ==> part.nanos <= wait.nanos && part.nanos <= 3600 * 1_000_000_000
            && part.nanos > 0,
        hop matches Some(part) ==> part.nanos == wait.nanos || part.nanos == 3600 * 1_000_000_000,
{
}

/// A watch begins for a task that has a row, under its own identity: armed while people may still
/// be reminded, recovering a reminder that was being sent, and done where the task ended or the
/// reminder was delivered.
pub proof fn watches_begin_as_their_row_stands(
    id: TaskId,
    reply: Result<Option<TaskRow>, AppError>,
    watch: Result<TaskWatch, AppError>,
)
    requires
        call_ensures(TaskWatch::start, (id, reply), watch),
    ensures
        watch is Ok <==> reply matches Ok(Some(_)),
        reply matches Ok(None) ==> watch == Err::<TaskWatch, AppError>(
            AppError::TaskNotFound { id },
        ),
        reply matches Err(error) ==> watch == Err::<TaskWatch, AppError>(error),
        watch matches Ok(begun) ==> {
            let row = reply->Ok_0->0;
            &&& begun.id == id
            &&& begun.attention is Done <==> ended(row.status) || row.attention is Delivered
            &&& begun.attention is Recovering <==> !ended(row.status) && row.attention is Sending
            &&& begun.attention is Armed <==> !ended(row.status) && row.attention is Pending
            &&& begun.attention is Done ==> begun.attention_timer is None
            &&& begun.attention is Recovering ==> begun.attention_timer == Some(
                AttentionTimer::Recovery,
            )
            &&& begun.attention is Armed ==> begun.attention_timer == Some(
                AttentionTimer::Inactivity { created_at: row.created_at, timeout: row.timeout },
            )
        },
{
}

/// A released lock has the task's end taken up; a reminder that is due is looked into only while
/// the watch is armed, and a recovery only while it recovers; either way its timer is used up.
pub proof fn due_timers_act_in_their_phase(watch: TaskWatch, message: TaskMsg, step: TaskStep)
    requires
        call_ensures(TaskWatch::handle, (watch, message), step),
    ensures
        message is LockReleased ==> (step matches TaskStep::AskEnded { message: asked, .. } && asked
            == (StoreMsg::GetTask { id: watch.id })),
        message is AttentionDue ==> {
            &&& step is AskRow <==> watch.attention is Armed
            &&& step matches TaskStep::AskRow { message: asked, next } ==> asked == (
            StoreMsg::GetTask { id: watch.id }) && next.watch == (TaskWatch {
                attention_timer: None,
                ..watch
            })
            &&& step !is AskRow ==> step == (TaskStep::Settled {
                watch: TaskWatch { attention_timer: None, ..watch },
                due: false,
            })
        },
        message is AttentionRecoveryDue ==> {
            &&& step is AskReleased <==> watch.attention is Recovering
            &&& step matches TaskStep::AskReleased { message: asked, next } ==> asked == (
            StoreMsg::ReleaseAttention { id: watch.id }) && next.watch == (TaskWatch {
                attention_timer: None,
                ..watch
            })
            &&& step !is AskReleased ==> step == (TaskStep::Settled {
                watch: TaskWatch { attention_timer: None, ..watch },
                due: false,
            })
        },
{
}

/// A reminder that is due needs a running task: a queued one is looked at again, one that ended
/// is never reminded of, and a failed read is tried again.
pub proof fn reminders_need_a_running_task(
    wait: AwaitRow,
    reply: Result<Option<TaskRow>, AppError>,
    step: TaskStep,
)
    requires
        call_ensures(AwaitRow::on_row, (wait, reply), step),
    ensures
        ({
            let again = TaskStep::Settled {
                watch: TaskWatch { attention_timer: Some(AttentionTimer::Retry), ..wait.watch },
                due: false,
            };
            let over = TaskStep::Settled {
                watch: TaskWatch { attention: AttentionPhase::Done, ..wait.watch },
                due: false,
            };
            &&& reply is Err ==> step == again
            &&& reply matches Ok(None) ==> step == over
            &&& reply matches Ok(Some(row)) ==> {
                &&& row.status == ProcessStatus::Queued ==> step == again
                &&& ended(row.status) ==> step == over
                &&& row.status == ProcessStatus::Running <==> step is ReadOutput
                &&& step matches TaskStep::ReadOutput { next } ==> next.watch == wait.watch
                    && next.row == row
            }
        }),
{
}

/// A running task is reminded of exactly once its wait is over; before that its timer is set
/// again for its own row.
pub proof fn reminders_come_when_the_wait_is_over(
    wait: AwaitOutput,
    last_output_at: Option<Timestamp>,
    now: Timestamp,
    left: Span,
    step: TaskStep,
)
    requires
        call_ensures(AwaitOutput::on_output, (wait, last_output_at, now), step),
        call_ensures(
            inactivity_wait,
            (wait.row.created_at, last_output_at, wait.row.timeout, now),
            left,
        ),
    ensures
        step is AskEventTask <==> left.nanos == 0,
        step matches TaskStep::AskEventTask { message, next } ==> message == (
        StoreMsg::IsEventTask { id: wait.watch.id }) && next.watch == wait.watch,
        left.nanos > 0 ==> step == (TaskStep::Settled {
            watch: TaskWatch {
                attention_timer: Some(
                    AttentionTimer::Inactivity {
                        created_at: wait.row.created_at,
                        timeout: wait.row.timeout,
                    },
                ),
                ..wait.watch
            },
            due: false,
        }),
{
}

/// A reminder is an event of the task; it is done once the event is saved, and tried again until
/// then. A reminder that was let go of is due again at once.
pub proof fn reminders_are_done_once_saved(
    event: AwaitEventTask,
    known: Result<bool, AppError>,
    first: TaskStep,
    produced: AwaitProduced,
    saved: Result<(), AppError>,
    second: TaskStep,
    released: AwaitReleased,
    free: Result<(), AppError>,
    third: TaskStep,
)
    requires
        call_ensures(AwaitEventTask::on_event_task, (event, known), first),
        call_ensures(AwaitProduced::on_produced, (produced, saved), second),
        call_ensures(AwaitReleased::on_released, (released, free), third),
    ensures
        first is AskProduced <==> known == Ok::<bool, AppError>(true),
        first matches TaskStep::AskProduced { message, next } ==> message == (
        StoreMsg::ProduceAttentionEvent { id: event.watch.id }) && next.watch == event.watch,
        first !is AskProduced ==> first == (TaskStep::Settled {
            watch: TaskWatch { attention_timer: Some(AttentionTimer::Retry), ..event.watch },
            due: false,
        }),
        saved is Ok ==> second == (TaskStep::Settled {
            watch: TaskWatch { attention: AttentionPhase::Done, ..produced.watch },
            due: false,
        }),
        saved is Err ==> second == (TaskStep::Settled {
            watch: TaskWatch { attention_timer: Some(AttentionTimer::Retry), ..produced.watch },
            due: false,
        }),
        free is Ok ==> third == (TaskStep::Settled {
            watch: TaskWatch { attention: AttentionPhase::Armed, ..released.watch },
            due: true,
        }),
        free matches Err(error) ==> third == (TaskStep::Failed { watch: released.watch, error }),
{
}

/// A task whose lock was released has its exit read unless it already ended; the exit that is
/// found is saved from the status it was seen in, and without one the task is lost.
pub proof fn released_locks_save_the_end(
    wait: AwaitEnded,
    reply: Result<Option<TaskRow>, AppError>,
    first: TaskStep,
    file: Option<ExitFile>,
    step: TaskStep,
)
    requires
        call_ensures(AwaitEnded::on_row, (wait, reply), first),
        first matches TaskStep::ReadExit { next } ==> call_ensures(
            AwaitExitFile::on_exit,
            (next, Ok(file)),
            step,
        ),
    ensures
        first is ReadExit <==> (reply matches Ok(Some(row)) && !ended(row.status)),
        reply matches Err(error) ==> first == (TaskStep::Stop { result: Err(error) }),
        reply is Ok && first !is ReadExit ==> first == (TaskStep::Stop { result: Ok(()) }),
        first is ReadExit ==> {
            let row = reply->Ok_0->0;
            &&& step matches TaskStep::AskApplied { message, next }
            &&& next.id == row.id
            &&& file matches Some(exit) ==> message == (StoreMsg::CasExit {
                id: row.id,
                from: row.status,
                reason: exit.reason,
                evidence: exit.process_group_exit_evidence,
            })
            &&& file is None ==> message == (StoreMsg::CasStatus {
                id: row.id,
                from: row.status,
                to: ProcessStatus::Lost,
            })
        },
{
}

/// An end that was saved stops the watch; one that was not is read again, and stops it too, as
/// long as the task is there.
pub proof fn saved_ends_stop_the_watch(
    exit: AwaitExitFile,
    error: AppError,
    unread: TaskStep,
    applied: AwaitApplied,
    reply: Result<Option<TaskRow>, AppError>,
    first: TaskStep,
    stored: AwaitStored,
    row: Result<Option<TaskRow>, AppError>,
    second: TaskStep,
)
    requires
        call_ensures(AwaitExitFile::on_exit, (exit, Err(error)), unread),
        call_ensures(AwaitApplied::on_applied, (applied, reply), first),
        call_ensures(AwaitStored::on_row, (stored, row), second),
    ensures
        unread == (TaskStep::Stop { result: Err(error) }),
        reply matches Ok(Some(_)) ==> first == (TaskStep::Stop { result: Ok(()) }),
        reply matches Ok(None) ==> (first matches TaskStep::AskStored { message, next } && message
            == (StoreMsg::GetTask { id: applied.id }) && next.id == applied.id),
        reply matches Err(failed) ==> first == (TaskStep::Stop { result: Err(failed) }),
        row matches Ok(Some(_)) ==> second == (TaskStep::Stop { result: Ok(()) }),
        row matches Ok(None) ==> second == (TaskStep::Stop {
            result: Err(AppError::TaskNotFound { id: stored.id }),
        }),
        row matches Err(failed) ==> second == (TaskStep::Stop { result: Err(failed) }),
{
}

/// A worker is signalled exactly where the cancellation says so, and then its own process.
pub proof fn only_workers_are_signalled(result: CancelResult, signal: Option<i32>)
    requires
        call_ensures(cancel_task, (&result,), signal),
    ensures
        result !is SignalWorker ==> signal is None,
        result matches CancelResult::SignalWorker(row) ==> signal == row.pid,
{
}

/// Every task is watched, once and in its order.
pub proof fn every_row_is_watched(rows: Vec<TaskRow>, watched: Vec<TaskId>)
    requires
        call_ensures(reconcile::reconcile_all, (&rows,), watched),
    ensures
        watched@.len() == rows@.len(),
        forall|at: int| 0 <= at < rows@.len() ==> #[trigger] watched@[at] == rows@[at].id,
{
}

/// A task that ended and whose callback is settled has nothing left to do. Otherwise its exit is
/// read: a live row is ended by it, or lost without one, and an ended row is kept; then a
/// callback that is still open is delivered, as lost exactly where no exit was found.
pub proof fn unsettled_tasks_are_brought_to_their_end(
    row: Option<TaskRow>,
    first: reconcile::ApplyStep,
    exit: Option<(ExitReason, ProcessStatus)>,
    second: reconcile::ApplyStep,
    wait: reconcile::AwaitRow,
    found: TaskRow,
    step: reconcile::ApplyStep,
)
    requires
        call_ensures(reconcile::watch_lock, (row,), first),
        first matches reconcile::ApplyStep::ReadExit { next } ==> call_ensures(
            reconcile::AwaitExit::on_exit,
            (next, exit),
            second,
        ),
        call_ensures(reconcile::AwaitRow::on_row, (wait, &found), step),
    ensures
        first is ReadExit <==> (row matches Some(row) && !(ended(row.status) && row.callback_status
            != CallbackStatus::Pending && row.callback_status != CallbackStatus::Sending)),
        first !is ReadExit ==> first is Done,
        first is ReadExit ==> {
            let live = !ended(row->0.status);
            &&& second is StoreExit <==> live && exit is Some
            &&& second matches reconcile::ApplyStep::StoreExit { from, to, reason, next } ==> from
                == row->0.status && exit == Some((reason, to)) && !next.lost
            &&& second is StoreLost <==> live && exit is None
            &&& second matches reconcile::ApplyStep::StoreLost { from, next } ==> from
                == row->0.status && next.lost
            &&& second is ReadRow <==> !live
            &&& second matches reconcile::ApplyStep::ReadRow { next } ==> (next.lost <==> exit
                is None)
        },
        step is Deliver <==> found.callback_status == CallbackStatus::Pending
            || found.callback_status == CallbackStatus::Sending,
        step matches reconcile::ApplyStep::Deliver { lost } ==> lost == wait.lost,
        step is Deliver || step is Done,
{
}

/// A task is spawned only under its lock, its process is saved before it is watched, and the
/// watch's result is the answer. A spawn that failed ends the row unstarted.
pub proof fn spawned_tasks_are_saved_and_watched(
    id: TaskId,
    first: serve::SpawnStep,
    locked: Result<(), AppError>,
    second: serve::SpawnStep,
    spawned: Result<i32, AppError>,
    third: serve::SpawnStep,
    saved: Result<(), AppError>,
    fourth: serve::SpawnStep,
    watched: serve::AwaitWatched,
    result: Result<(), AppError>,
    step: serve::SpawnStep,
)
    requires
        call_ensures(serve::spawn_and_watch, (id,), first),
        first matches serve::SpawnStep::AcquireLock { next, .. } ==> call_ensures(
            serve::AwaitLock::on_lock,
            (next, locked),
            second,
        ),
        second matches serve::SpawnStep::Spawn { next, .. } ==> call_ensures(
            serve::AwaitSpawned::on_spawned,
            (next, spawned),
            third,
        ),
        third matches serve::SpawnStep::AskPid { next, .. } ==> call_ensures(
            serve::AwaitPid::on_saved,
            (next, saved),
            fourth,
        ),
        call_ensures(serve::AwaitWatched::on_watched, (watched, result), step),
    ensures
        first matches serve::SpawnStep::AcquireLock { id: named, .. } && named == id,
        locked matches Err(error) ==> second == serve::SpawnStep::Done(Err::<(), AppError>(error)),
        second is Spawn <==> locked is Ok,
        second matches serve::SpawnStep::Spawn { id: named, .. } ==> {
            &&& named == id
            &&& spawned matches Ok(pid) ==> (third matches serve::SpawnStep::AskPid { message, .. }
                && message == (StoreMsg::SetPid { id, pid }))
            &&& spawned matches Err(error) ==> (third matches serve::SpawnStep::AskExit {
                message: StoreMsg::CasExit { id: failed, from, reason, evidence },
                next,
            } && failed == id && from == ProcessStatus::Queued && evidence is NoChildSpawned && (
            reason matches ExitReason::SpawnFailed { message } && message@ == error_text(error@))
                && next.error == error && next.id == id)
            &&& spawned is Ok ==> {
                &&& saved is Ok ==> (fourth matches serve::SpawnStep::Watch { id: kept, .. } && kept
                    == id)
                &&& saved matches Err(error) ==> fourth == serve::SpawnStep::Done(
                    Err::<(), AppError>(error),
                )
            }
        },
        step == serve::SpawnStep::Done(result),
{
}

/// A task that could not be spawned is told of with its own row and reports, and with the failure
/// that it had.
pub proof fn failed_spawns_are_told_of(
    wait: serve::AwaitExit,
    changed: bool,
    first: serve::SpawnStep,
    row: Option<TaskRow>,
    second: serve::SpawnStep,
    reports: Vec<String>,
    step: serve::SpawnStep,
)
    requires
        call_ensures(serve::AwaitExit::on_exit, (wait, Ok(changed)), first),
        first matches serve::SpawnStep::AskTask { next, .. } ==> call_ensures(
            serve::AwaitFailedTask::on_task,
            (next, Ok(row)),
            second,
        ),
        second matches serve::SpawnStep::AskReports { next, .. } ==> call_ensures(
            serve::AwaitFailedReports::on_reports,
            (next, Ok(reports)),
            step,
        ),
    ensures
        first matches serve::SpawnStep::AskTask { message, .. } && message == (StoreMsg::GetTask {
            id: wait.id,
        }),
        row is None ==> second == serve::SpawnStep::Done(
            Err::<(), AppError>(AppError::TaskNotFound { id: wait.id }),
        ),
        row matches Some(found) ==> {
            &&& second matches serve::SpawnStep::AskReports { message, .. }
            &&& message == (StoreMsg::Reports { id: wait.id })
            &&& step == (serve::SpawnStep::Deliver { row: found, reports, error: wait.error })
        },
{
}

/// A watcher's poll is taken in its own protocol alone, and answered with what the store told.
pub proof fn polls_speak_the_watchers_protocol(
    body: Result<ReleaseWatcherPollRequest, String>,
    request: Result<ReleaseWatcherPollRequest, AppError>,
    reply: Result<Result<ReleaseWatcherPollOutcome, String>, AppError>,
    response: Result<ReleaseWatcherPollResponse, AppError>,
)
    requires
        call_ensures(poll_request, (body,), request),
        call_ensures(poll_response, (reply,), response),
    ensures
        request is Ok <==> (body matches Ok(asked) && asked.protocol_version == 1),
        request matches Ok(taken) ==> body == Ok::<ReleaseWatcherPollRequest, String>(taken),
        request matches Err(error) ==> error@ is Usage,
        response is Ok <==> reply matches Ok(Ok(_)),
        response matches Ok(told) ==> told.outcome == reply->Ok_0->Ok_0 && told.protocol_version
            == 1,
        reply matches Err(error) ==> response == Err::<ReleaseWatcherPollResponse, AppError>(error),
        reply matches Ok(Err(_)) ==> (response matches Err(error) && error@ is Internal),
{
}

} // verus!
