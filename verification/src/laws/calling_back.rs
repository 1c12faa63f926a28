//! Calling a thread back: one inbox is drained in order, by one worker, and each event is settled
//! as its attempt went.

use vstd::prelude::*;

use crate::actors::callback::{
    callback_after, dispatch_inbox_with, unsettled, AttemptResult, AwaitAttempt, AwaitChecked,
    AwaitClaim, AwaitEarliest, AwaitPrepared, AwaitReserved, AwaitRoute, AwaitSent, AwaitSettled,
    CallbackMsg, CallbackStep, CallbackView, InboxStep, SettledEffects,
};
use crate::actors::store::StoreMsg;
use crate::error::AppError;
use crate::events::{DeliveryOutcome, DeliveryState, EventPayload, InboxEvent, TaskEvent};
use crate::ids::{TaskId, ThreadId};
use crate::submission::OriginRoute;
use crate::time::Tick;

verus! {

/// Whether a step ends a drain without having settled anything.
pub open spec fn ends(step: InboxStep, result: Result<bool, AppError>) -> bool {
    &&& step matches InboxStep::Done { effects, result: told }
    &&& told == result
    &&& has_no_effects(effects)
}

/// Whether nothing is told of a settled event.
pub open spec fn has_no_effects(effects: SettledEffects) -> bool {
    effects.fallback is None && effects.delivered is None && effects.wake_failed is None
}

/// Whether a step settles one event of a task with an outcome.
pub open spec fn settles(
    step: InboxStep,
    id: TaskId,
    event: TaskEvent,
    outcome: DeliveryOutcome,
) -> bool {
    &&& step matches InboxStep::AskSettle { message, .. }
    &&& message == (StoreMsg::SettleInboxAttempt { id, seq: event.seq, outcome })
}

/// A drain takes the task's earliest event. One that is pending or awaits its thread is worked
/// on, with the attempts that it already had; a settled one, or none, ends the drain.
pub proof fn drains_take_the_earliest_event(
    id: TaskId,
    first: InboxStep,
    reply: Result<Option<InboxEvent>, AppError>,
    step: InboxStep,
)
    requires
        call_ensures(dispatch_inbox_with, (id,), first),
        first matches InboxStep::AskEarliest { next, .. } ==> call_ensures(
            AwaitEarliest::on_earliest,
            (next, reply),
            step,
        ),
    ensures
        first matches InboxStep::AskEarliest { message, .. } && message == (
        StoreMsg::EarliestInbox { id }),
        reply matches Err(error) ==> ends(step, Err(error)),
        reply matches Ok(None) ==> ends(step, Ok(true)),
        reply matches Ok(Some(entry)) ==> {
            &&& step is AskRoute <==> entry.delivery is PendingDelivery || entry.delivery
                is AwaitingThread
            &&& step !is AskRoute ==> ends(step, Ok(true))
            &&& step matches InboxStep::AskRoute { message, next } ==> {
                &&& message == (StoreMsg::OriginRoute { id })
                &&& next.id == id
                &&& next.event == entry.event
                &&& entry.delivery matches DeliveryState::PendingDelivery { attempts, last_error }
                    ==> next.attempts == attempts && next.last_error == last_error
                &&& entry.delivery matches DeliveryState::AwaitingThread { attempts, reason }
                    ==> next.attempts == attempts && next.last_error == Some(reason)
            }
        },
{
}

/// An event is unsettled exactly while it is pending or awaits its thread.
pub proof fn unsettled_events_are_worked_on(delivery: DeliveryState, found: bool)
    requires
        call_ensures(unsettled, (&delivery,), found),
    ensures
        found <==> delivery is PendingDelivery || delivery is AwaitingThread,
{
}

/// An event goes to the thread of its route, in the route's callback context, while it has
/// attempts left; one that has used them up fails for good, with its last error. Without a route
/// the drain fails.
pub proof fn events_go_to_the_thread_of_their_route(
    wait: AwaitRoute,
    reply: Result<Option<OriginRoute>, AppError>,
    step: InboxStep,
)
    requires
        call_ensures(AwaitRoute::on_route, (wait, reply), step),
    ensures
        reply matches Err(error) ==> ends(step, Err(error)),
        reply matches Ok(None) ==> ends(step, Err(AppError::RouteNotFound { task: wait.id })),
        reply matches Ok(Some(route)) ==> {
            &&& step is CheckCallback <==> wait.attempts < 3
            &&& step matches InboxStep::CheckCallback { next } ==> {
                &&& next.delivery.id == wait.id
                &&& next.delivery.event == wait.event
                &&& next.delivery.attempts == wait.attempts
                &&& next.delivery.thread == route.thread
                &&& next.delivery.context == route.callback
            }
            &&& wait.attempts >= 3 ==> {
                &&& step matches InboxStep::AskSettle { message, next }
                &&& message matches StoreMsg::SettleInboxAttempt { id, seq, outcome }
                &&& id == wait.id
                &&& seq == wait.event.seq
                &&& outcome matches DeliveryOutcome::Permanent(reason)
                &&& wait.last_error matches Some(error) ==> reason@ == error@
                &&& next.thread == route.thread
                &&& next.failed_wake is None
            }
        },
{
}

/// A callback that cannot work fails its event for good, and one that can is prepared, and its
/// attempt reserved, before anything is sent.
pub proof fn attempts_are_reserved_before_they_are_sent(
    wait: AwaitChecked,
    checked: Result<(), String>,
    first: InboxStep,
    prepared: Result<(), AppError>,
    second: InboxStep,
    reserved: Result<bool, AppError>,
    step: InboxStep,
)
    requires
        call_ensures(AwaitChecked::on_checked, (wait, checked), first),
        first matches InboxStep::PrepareTask { next } ==> call_ensures(
            AwaitPrepared::on_prepared,
            (next, prepared),
            second,
        ),
        second matches InboxStep::AskReserve { next, .. } ==> call_ensures(
            AwaitReserved::on_reserved,
            (next, reserved),
            step,
        ),
    ensures
        checked matches Err(error) ==> settles(
            first,
            wait.delivery.id,
            wait.delivery.event,
            DeliveryOutcome::Permanent(error),
        ),
        checked is Ok <==> first is PrepareTask,
        first is PrepareTask ==> {
            &&& prepared is Ok <==> second is AskReserve
            &&& prepared is Err ==> (second matches InboxStep::AskSettle { message, .. }
                && message matches StoreMsg::SettleInboxAttempt { id, seq, outcome } && id
                == wait.delivery.id && seq == wait.delivery.event.seq && outcome is Permanent)
            &&& second matches InboxStep::AskReserve { message, .. } ==> {
                &&& message == (StoreMsg::ReserveInboxAttempt {
                    id: wait.delivery.id,
                    seq: wait.delivery.event.seq,
                })
                &&& reserved matches Err(error) ==> ends(step, Err(error))
                &&& reserved == Ok::<bool, AppError>(false) ==> ends(step, Ok(false))
                &&& step is PrepareAttempt <==> reserved == Ok::<bool, AppError>(true)
                    && wait.delivery.event.payload is Callback
                &&& step matches InboxStep::PrepareAttempt { next } ==> next.delivery
                    == wait.delivery && (wait.delivery.event.payload matches EventPayload::Callback {
                    line,
                    ..
                } && next.line == line)
            }
        },
{
}

/// A prepared attempt that needs a wake claims it for the event's own thread; what is then sent
/// is the event's line, with the claim's answer, and without a wake nothing is claimed.
pub proof fn attempts_send_the_events_line(
    wait: AwaitAttempt,
    wakes: bool,
    first: InboxStep,
    claimed: bool,
    step: InboxStep,
)
    requires
        call_ensures(AwaitAttempt::on_prepared, (wait, Ok(Ok(wakes))), first),
        first matches InboxStep::ClaimWake { next, .. } ==> call_ensures(
            AwaitClaim::on_claimed,
            (next, Ok(claimed)),
            step,
        ),
    ensures
        first is ClaimWake <==> wakes,
        first matches InboxStep::ClaimWake { thread, .. } ==> {
            &&& thread == wait.delivery.thread
            &&& step matches InboxStep::Send { line, wake_claimed, next }
            &&& line == wait.line
            &&& wake_claimed == claimed
            &&& next.delivery == wait.delivery
        },
        !wakes ==> (first matches InboxStep::Send { line, wake_claimed, next } && line == wait.line
            && !wake_claimed && next.delivery == wait.delivery),
{
}

/// An attempt that failed may be tried again, one that was delivered is settled as delivered, and
/// one whose thread is not there awaits it, remembering a wake that failed.
pub proof fn attempts_are_settled_as_they_went(
    wait: AwaitSent,
    attempt: AwaitAttempt,
    claim: AwaitClaim,
    error: AppError,
    reason: String,
    wake_failed: bool,
    steps: (InboxStep, InboxStep, InboxStep, InboxStep),
    failures: (InboxStep, InboxStep, InboxStep),
)
    requires
        call_ensures(AwaitSent::on_sent, (wait, Ok(Ok(AttemptResult::Delivered))), steps.0),
        call_ensures(
            AwaitSent::on_sent,
            (wait, Ok(Ok(AttemptResult::Deferred { reason, wake_failed }))),
            steps.1,
        ),
        call_ensures(AwaitSent::on_sent, (wait, Ok(Err(reason))), steps.2),
        call_ensures(AwaitAttempt::on_prepared, (attempt, Ok(Err(reason))), steps.3),
        call_ensures(AwaitSent::on_sent, (wait, Err(error)), failures.0),
        call_ensures(AwaitAttempt::on_prepared, (attempt, Err(error)), failures.1),
        call_ensures(AwaitClaim::on_claimed, (claim, Err(error)), failures.2),
    ensures
        settles(steps.0, wait.delivery.id, wait.delivery.event, DeliveryOutcome::Delivered),
        settles(steps.1, wait.delivery.id, wait.delivery.event, DeliveryOutcome::Deferred(reason)),
        settles(steps.2, wait.delivery.id, wait.delivery.event, DeliveryOutcome::Retryable(reason)),
        settles(
            steps.3,
            attempt.delivery.id,
            attempt.delivery.event,
            DeliveryOutcome::Retryable(reason),
        ),
        steps.0 matches InboxStep::AskSettle { next, .. } && next.thread == wait.delivery.thread
            && next.attempts == wait.delivery.attempts && next.failed_wake is None,
        steps.1 matches InboxStep::AskSettle { next, .. } && next.thread == wait.delivery.thread
            && next.attempts == wait.delivery.attempts && next.failed_wake == if wake_failed {
            Some(reason)
        } else {
            None
        },
        steps.2 matches InboxStep::AskSettle { next, .. } && next.failed_wake is None,
        ends(failures.0, Err(error)),
        ends(failures.1, Err(error)),
        ends(failures.2, Err(error)),
{
}

/// A settled event moves the drain on: a delivered one tells that its thread was reached, a failed
/// one falls back to people with its own line and error, one that may be tried again is, after a
/// pause that grows with its attempts; one that awaits its thread ends the drain unfinished.
pub proof fn settled_events_move_the_drain_on(
    wait: AwaitSettled,
    settled: InboxEvent,
    step: InboxStep,
    error: AppError,
    failed: InboxStep,
)
    requires
        call_ensures(AwaitSettled::on_settled, (wait, Ok(settled)), step),
        call_ensures(AwaitSettled::on_settled, (wait, Err(error)), failed),
    ensures
        ends(failed, Err(error)),
        settled.delivery is Delivered ==> (step matches InboxStep::Again { effects, sleep }
            && effects.delivered == Some(wait.thread) && effects.fallback is None
            && effects.wake_failed is None && sleep.nanos == 0),
        settled.delivery matches DeliveryState::DeliveryFailed { last_error, .. } ==> (
        settled.event.payload matches EventPayload::Callback { line, .. } ==> (
        step matches InboxStep::Again { effects, sleep } && effects.fallback == Some(
            (line, last_error),
        ) && effects.delivered is None && effects.wake_failed is None && sleep.nanos == 0)),
        settled.delivery is PendingDelivery ==> (step matches InboxStep::Again { effects, sleep }
            && has_no_effects(effects) && sleep.nanos == 200_000_000 * (wait.attempts + 1)),
        settled.delivery is NotRequired ==> (step matches InboxStep::Again { effects, sleep }
            && has_no_effects(effects) && sleep.nanos == 0),
        settled.delivery is AwaitingThread ==> {
            &&& step matches InboxStep::Done { effects, result }
            &&& result == Ok::<bool, AppError>(false)
            &&& effects.fallback is None
            &&& effects.delivered is None
            &&& effects.wake_failed is Some <==> wait.failed_wake is Some
            &&& effects.wake_failed matches Some((thread, event, reason)) ==> thread == wait.thread
                && event == settled.event && Some(reason) == wait.failed_wake
        },
{
}

/// A task's inbox has one worker: while one is active nothing is asked for it, and only the end
/// of that worker lets another begin, at once where it finished its work.
pub proof fn inboxes_have_one_worker(before: CallbackView, id: TaskId, completed: bool, now: Tick)
    ensures
        ({
            let (after, step) = callback_after(before, CallbackMsg::DispatchInbox { id }, now);
            &&& after == before
            &&& step is AskEarliest <==> !before.active.contains(id.0)
            &&& step matches CallbackStep::AskEarliest { id: asked, message } ==> asked == id
                && message == (StoreMsg::EarliestInbox { id })
            &&& step is AskEarliest || step is Nothing
        }),
        ({
            let (after, step) = callback_after(
                before,
                CallbackMsg::InboxFinished { id, completed },
                now,
            );
            &&& !after.active.contains(id.0)
            &&& forall|other: u128|
                other != id.0 ==> (#[trigger] after.active.contains(other)
                    <==> before.active.contains(other))
            &&& after.wakes == before.wakes
            &&& after.alerted == before.alerted
            &&& completed ==> step == (CallbackStep::AskEarliest {
                id,
                message: StoreMsg::EarliestInbox { id },
            })
            &&& !completed ==> step is Nothing
        }),
        ({
            let (after, step) = callback_after(before, CallbackMsg::RetryWaiting, now);
            after == before && step == (CallbackStep::AskWaiting {
                message: StoreMsg::WaitingInboxTasks,
            })
        }),
{
}

/// A thread's wake is claimed once in five minutes, by thread; people hear of a thread that could
/// not be woken once, until it receives an event again.
pub proof fn wakes_and_alerts_are_by_thread(
    before: CallbackView,
    thread: ThreadId,
    event: TaskEvent,
    reason: String,
    now: Tick,
)
    ensures
        ({
            let (after, step) = callback_after(before, CallbackMsg::ClaimWake { thread }, now);
            let recent = before.wakes.contains_key(thread.0) && now.nanos
                < before.wakes[thread.0].nanos + 5 * 60 * 1_000_000_000;
            &&& step == CallbackStep::Claimed(!recent)
            &&& recent ==> after == before
            &&& !recent ==> after == (CallbackView {
                wakes: before.wakes.insert(thread.0, now),
                ..before
            })
        }),
        ({
            let (after, step) = callback_after(
                before,
                CallbackMsg::WakeFailed { thread, event, reason },
                now,
            );
            &&& after.alerted == before.alerted.insert(thread.0)
            &&& after.wakes == before.wakes
            &&& after.active == before.active
            &&& step is Alert <==> !before.alerted.contains(thread.0)
            &&& step matches CallbackStep::Alert { thread: told, event: about, reason: why }
                ==> told == thread && about == event && why == reason
            &&& step is Alert || step is Nothing
        }),
        ({
            let (after, step) = callback_after(before, CallbackMsg::Delivered { thread }, now);
            &&& after.alerted == before.alerted.remove(thread.0)
            &&& after.wakes == before.wakes
            &&& after.active == before.active
            &&& step is Nothing
        }),
{
}

} // verus!
