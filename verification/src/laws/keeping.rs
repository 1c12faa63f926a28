//! What is remembered between calls: each operation changes what it is about and nothing else,
//! and one that comes later sees what an earlier one left.

use vstd::prelude::*;

use crate::actors::callback::{CallbackMsg, CallbackState, CallbackStep};
use crate::actors::resource::{LaunchAttempt, LaunchKey, LaunchProgress};
use crate::actors::store::StoreMsg;
use crate::actors::supervisor::{
    on_resource_actor_spawned, on_task_actor_spawned, spawn_task_actor, LiveActors,
};
use crate::cancel_delivery::{Retries, Retry};
use crate::error::AppError;
use crate::event_sender::{DeliveryResult, Outbox};
use crate::events::{InboxEvent, TaskEvent};
use crate::ids::{CancellationId, MachineId, ResourceId, TaskId, ThreadId};
use crate::inspection::{PeerRecords, Records};
use crate::keyed_locks::KeyedLocks;
use crate::table::MachineTable;
use crate::time::Tick;

verus! {

/// A finished delivery ends the task's activity, and no other task's. One that must be retried
/// waits, for longer with every failure up to a minute; any other starts afresh.
pub proof fn finished_deliveries_end_their_activity(
    outbox: &mut Outbox,
    task: TaskId,
    other: TaskId,
    outcome: DeliveryResult,
    now: Tick,
)
    requires
        now.nanos + 60_000_000_000 <= u128::MAX,
        call_ensures(Outbox::finished, (outbox, task, &outcome, now), ()),
    ensures
        !final(outbox)@.active.contains(task.0),
        final(outbox)@.retries.contains_key(task.0) <==> outcome is Retry,
        outcome is Retry ==> {
            let retry = final(outbox)@.retries[task.0];
            &&& now.nanos + 1_000_000_000 <= retry.next.nanos <= now.nanos + 60_000_000_000
            &&& retry.failures >= 1
            &&& !old(outbox)@.retries.contains_key(task.0) ==> retry.failures == 1
            &&& old(outbox)@.retries.contains_key(task.0)
                && old(outbox)@.retries[task.0].failures < u32::MAX ==> retry.failures
                == old(outbox)@.retries[task.0].failures + 1
        },
        other != task ==> {
            &&& final(outbox)@.active.contains(other.0) <==> old(outbox)@.active.contains(other.0)
            &&& final(outbox)@.retries.contains_key(other.0)
                <==> old(outbox)@.retries.contains_key(other.0)
            &&& old(outbox)@.retries.contains_key(other.0) ==> final(outbox)@.retries[other.0]
                == old(outbox)@.retries[other.0]
        },
{
    vstd::arithmetic::power2::lemma2_to64();
}

/// A cycle forgets the retries of tasks that have nothing pending, and keeps the others as they
/// are; an outbox begins with nothing.
pub proof fn cycles_forget_what_is_not_pending(
    outbox: &mut Outbox,
    tasks: Vec<TaskId>,
    now: Tick,
    started: Vec<TaskId>,
    task: TaskId,
    fresh: Outbox,
)
    requires
        call_ensures(Outbox::schedule, (outbox, &tasks, now), started),
        call_ensures(Outbox::new, (), fresh),
    ensures
        final(outbox)@.retries.contains_key(task.0) <==> old(outbox)@.retries.contains_key(task.0)
            && tasks@.contains(task),
        final(outbox)@.retries.contains_key(task.0) ==> final(outbox)@.retries[task.0]
            == old(outbox)@.retries[task.0],
        fresh@.active == Set::<u128>::empty(),
        fresh@.retries == Map::<u128, crate::event_sender::Retry>::empty(),
{
    let ids = tasks@.map_values(|task: TaskId| task.0);
    if tasks@.contains(task) {
        let at = choose|at: int| 0 <= at < tasks@.len() && tasks@[at] == task;
        assert(ids[at] == task.0);
        assert(ids.contains(task.0));
    }
    if ids.contains(task.0) {
        let at = choose|at: int| 0 <= at < ids.len() && ids[at] == task.0;
        assert(tasks@[at] == task);
    }
}

/// A cancellation is due until it is delivered: at once where it never failed, and after a
/// failure when its pause is over; what is delivered is forgotten, and no other is touched.
pub proof fn cancellations_are_due_until_delivered(
    asked: &mut Retries,
    failing: &mut Retries,
    delivered: &mut Retries,
    cancellation: CancellationId,
    other: CancellationId,
    now: Tick,
    due: bool,
)
    requires
        old(asked).wf(),
        old(failing).wf(),
        old(delivered).wf(),
        call_ensures(Retries::due, (asked, cancellation, now), due),
        call_ensures(Retries::failed, (failing, cancellation, now), ()),
        call_ensures(Retries::delivered, (delivered, cancellation), ()),
    ensures
        !old(asked)@.contains_key(cancellation.0) ==> due,
        old(asked)@.contains_key(cancellation.0) ==> (due <==> now.nanos
            >= old(asked)@[cancellation.0].next.nanos),
        final(asked)@.contains_key(cancellation.0),
        old(asked)@.contains_key(cancellation.0) ==> final(asked)@[cancellation.0]
            == old(asked)@[cancellation.0],
        final(failing)@.contains_key(cancellation.0),
        !final(delivered)@.contains_key(cancellation.0),
        other != cancellation ==> {
            &&& final(asked)@.contains_key(other.0) <==> old(asked)@.contains_key(other.0)
            &&& final(failing)@.contains_key(other.0) <==> old(failing)@.contains_key(other.0)
            &&& final(delivered)@.contains_key(other.0) <==> old(delivered)@.contains_key(other.0)
            &&& old(failing)@.contains_key(other.0) ==> final(failing)@[other.0]
                == old(failing)@[other.0]
            &&& old(delivered)@.contains_key(other.0) ==> final(delivered)@[other.0]
                == old(delivered)@[other.0]
        },
{
}

/// A failure puts the next delivery off by the pause, and doubles the pause up to half a minute;
/// the first pause is a second.
pub proof fn failures_double_the_pause(
    retry: &mut Retry,
    now: Tick,
    fresh: Retry,
    later: Tick,
    ready: bool,
)
    requires
        old(retry).wf(),
        now.nanos + old(retry).delay.nanos <= u128::MAX,
        call_ensures(Retry::failed, (retry, now), ()),
        call_ensures(Retry::fresh, (now,), fresh),
        call_ensures(Retry::ready, (&fresh, later), ready),
    ensures
        ready <==> later.nanos >= now.nanos,
        final(retry).next.nanos == now.nanos + old(retry).delay.nanos,
        final(retry).delay.nanos == 2 * old(retry).delay.nanos || (final(retry).delay.nanos
            == 30_000_000_000 && 2 * old(retry).delay.nanos > 30_000_000_000),
        fresh.next == now,
        fresh.delay.nanos == 1_000_000_000,
{
}

/// A live actor is one that was started and did not end; a task with a live actor gets no other,
/// and an actor that could not start is not live.
pub proof fn actors_live_from_start_to_end(
    started: &mut LiveActors,
    ended: &mut LiveActors,
    spawned: &mut LiveActors,
    resources: &mut LiveActors,
    id: u128,
    other: u128,
    reply: Result<(), String>,
    results: (Result<(), AppError>, Result<(), AppError>),
    fresh: LiveActors,
    live: LiveActors,
    alive: bool,
    name: Option<String>,
)
    requires
        call_ensures(LiveActors::started, (started, id), ()),
        call_ensures(LiveActors::ended, (ended, id), ()),
        call_ensures(on_task_actor_spawned, (spawned, TaskId(id), reply), results.0),
        call_ensures(on_resource_actor_spawned, (resources, ResourceId(id), reply), results.1),
        call_ensures(LiveActors::new, (), fresh),
        call_ensures(LiveActors::contains, (&live, id), alive),
        call_ensures(spawn_task_actor, (&live, TaskId(id)), name),
    ensures
        final(started)@.contains(id),
        !final(ended)@.contains(id),
        final(spawned)@.contains(id) <==> reply is Ok || old(spawned)@.contains(id),
        final(resources)@.contains(id) <==> reply is Ok || old(resources)@.contains(id),
        results.0 is Ok <==> reply is Ok,
        results.1 is Ok <==> reply is Ok,
        other != id ==> {
            &&& final(started)@.contains(other) <==> old(started)@.contains(other)
            &&& final(ended)@.contains(other) <==> old(ended)@.contains(other)
            &&& final(spawned)@.contains(other) <==> old(spawned)@.contains(other)
            &&& final(resources)@.contains(other) <==> old(resources)@.contains(other)
        },
        !fresh@.contains(id),
        alive <==> live@.contains(id),
        name is None <==> alive,
{
}

/// A launch request takes the first reply for its own identity, and keeps it.
pub proof fn launch_requests_take_one_reply<K: LaunchKey, R: Copy>(
    attempt: &mut LaunchAttempt<K, R>,
    key: K,
    result: R,
    recorded: bool,
    pending: LaunchAttempt<K, R>,
)
    requires
        call_ensures(LaunchAttempt::<K, R>::finish, (attempt, key, result), recorded),
        call_ensures(LaunchAttempt::<K, R>::pending, (key,), pending),
    ensures
        pending.key == key,
        pending.progress is Pending,
        recorded <==> old(attempt).key == key && old(attempt).progress is Pending,
        recorded ==> (final(attempt).progress matches LaunchProgress::Finished(kept) && kept
            == result),
        !recorded ==> *final(attempt) == *old(attempt),
        final(attempt).key == old(attempt).key,
{
}

/// A thread is woken at most once in five minutes; a refused wake changes nothing.
pub proof fn wakes_are_spaced(
    state: &mut CallbackState,
    thread: ThreadId,
    other: ThreadId,
    now: Tick,
    claimed: bool,
)
    requires
        call_ensures(CallbackState::claim_wake, (state, thread, now), claimed),
    ensures
        !old(state)@.wakes.contains_key(thread.0) ==> claimed,
        old(state)@.wakes.contains_key(thread.0) ==> (claimed <==> now.nanos
            - old(state)@.wakes[thread.0].nanos >= 300_000_000_000),
        claimed ==> final(state)@.wakes.contains_key(thread.0) && final(state)@.wakes[thread.0]
            == now,
        !claimed ==> final(state)@.wakes == old(state)@.wakes,
        other != thread && old(state)@.wakes.contains_key(other.0)
            ==> final(state)@.wakes.contains_key(other.0) && final(state)@.wakes[other.0]
            == old(state)@.wakes[other.0],
        final(state)@.alerted == old(state)@.alerted,
        final(state)@.active == old(state)@.active,
        final(state).machine() == old(state).machine(),
{
}

/// People are told once about a thread, until something is delivered to it.
pub proof fn alerts_are_told_once(
    failing: &mut CallbackState,
    delivering: &mut CallbackState,
    thread: ThreadId,
    other: ThreadId,
    tell: bool,
    state: CallbackState,
    alerted: bool,
)
    requires
        call_ensures(CallbackState::alert_after_failed_wake, (failing, thread), tell),
        call_ensures(CallbackState::delivered, (delivering, thread), ()),
        call_ensures(CallbackState::is_alerted, (&state, thread), alerted),
    ensures
        tell <==> !old(failing)@.alerted.contains(thread.0),
        final(failing)@.alerted.contains(thread.0),
        !final(delivering)@.alerted.contains(thread.0),
        alerted <==> state@.alerted.contains(thread.0),
        other != thread ==> {
            &&& final(failing)@.alerted.contains(other.0) <==> old(failing)@.alerted.contains(
                other.0,
            )
            &&& final(delivering)@.alerted.contains(other.0) <==> old(delivering)@.alerted.contains(
                other.0,
            )
        },
        final(failing)@.wakes == old(failing)@.wakes,
        final(delivering)@.wakes == old(delivering)@.wakes,
        final(failing)@.active == old(failing)@.active,
        final(delivering)@.active == old(delivering)@.active,
{
}

/// A task's inbox has one worker at a time: a question is asked only without one, and one starts
/// only for an event that still needs delivery.
pub proof fn workers_start_on_unsettled_events(
    state: &mut CallbackState,
    id: TaskId,
    other: TaskId,
    first: Option<InboxEvent>,
    start: bool,
    resting: CallbackState,
    step: CallbackStep,
    name: String,
    fresh: CallbackState,
)
    requires
        call_ensures(CallbackState::on_earliest, (state, id, &first), start),
        call_ensures(CallbackState::start_inbox_worker, (&resting, id), step),
        call_ensures(CallbackState::new, (name,), fresh),
    ensures
        start ==> first is Some && (first->0.delivery is PendingDelivery || first->0.delivery
            is AwaitingThread),
        first is Some && (first->0.delivery is PendingDelivery || first->0.delivery
            is AwaitingThread) ==> start,
        start ==> final(state)@.active.contains(id.0),
        !start ==> final(state)@.active == old(state)@.active,
        other != id ==> (final(state)@.active.contains(other.0)
            <==> old(state)@.active.contains(other.0)),
        step is Nothing <==> resting@.active.contains(id.0),
        step !is Nothing ==> step == (CallbackStep::AskEarliest {
            id,
            message: StoreMsg::EarliestInbox { id },
        }),
        !fresh@.active.contains(id.0),
        fresh@.alerted == Set::<u128>::empty(),
        fresh@.wakes == Map::<u128, Tick>::empty(),
        fresh.machine() == name@,
{
}

/// A message to the callback actor does what the operation that it names does.
pub proof fn callback_messages_do_what_they_name(
    state: &mut CallbackState,
    claiming: &mut CallbackState,
    failing: &mut CallbackState,
    delivering: &mut CallbackState,
    thread: ThreadId,
    event: TaskEvent,
    reason: String,
    now: Tick,
    message: CallbackMsg,
    step: CallbackStep,
    claimed: bool,
    tell: bool,
)
    requires
        old(claiming)@ == old(state)@,
        old(failing)@ == old(state)@,
        old(delivering)@ == old(state)@,
        call_ensures(CallbackState::handle, (state, message, now), step),
        call_ensures(CallbackState::claim_wake, (claiming, thread, now), claimed),
        call_ensures(CallbackState::alert_after_failed_wake, (failing, thread), tell),
        call_ensures(CallbackState::delivered, (delivering, thread), ()),
    ensures
        message == (CallbackMsg::ClaimWake { thread }) ==> step == CallbackStep::Claimed(claimed)
            && final(state)@ == final(claiming)@,
        message == (CallbackMsg::WakeFailed { thread, event, reason }) ==> final(state)@
            == final(failing)@ && (tell ==> step == (CallbackStep::Alert { thread, event, reason }))
            && (!tell ==> step is Nothing),
        message == (CallbackMsg::Delivered { thread }) ==> final(state)@ == final(delivering)@
            && step is Nothing,
        message is DispatchInbox || message is RetryWaiting ==> final(state)@ == old(state)@,
        message matches CallbackMsg::InboxFinished { id, completed } ==> {
            &&& !final(state)@.active.contains(id.0)
            &&& completed <==> step is AskEarliest
            &&& final(state)@.wakes == old(state)@.wakes
            &&& final(state)@.alerted == old(state)@.alerted
        },
{
}

/// A lock is held as often as it was entered and not left: the first to enter makes it, the last
/// to leave removes it, and other locks are not touched.
pub proof fn locks_are_held_until_the_last_leaves(
    entered: &mut KeyedLocks,
    left: &mut KeyedLocks,
    key: u128,
    other: u128,
    created: bool,
    removed: bool,
    fresh: KeyedLocks,
)
    requires
        old(entered).wf(),
        old(left).wf(),
        !old(entered)@.contains_key(key) || old(entered)@[key] < u64::MAX,
        old(left)@.contains_key(key),
        call_ensures(KeyedLocks::enter, (entered, key), created),
        call_ensures(KeyedLocks::leave, (left, key), removed),
        call_ensures(KeyedLocks::new, (), fresh),
    ensures
        created <==> !old(entered)@.contains_key(key),
        final(entered)@.contains_key(key),
        created ==> final(entered)@[key] == 1,
        !created ==> final(entered)@[key] == old(entered)@[key] + 1,
        removed <==> old(left)@[key] == 1,
        removed ==> !final(left)@.contains_key(key),
        !removed ==> final(left)@.contains_key(key) && final(left)@[key] == old(left)@[key] - 1,
        other != key ==> {
            &&& final(entered)@.contains_key(other) <==> old(entered)@.contains_key(other)
            &&& final(left)@.contains_key(other) <==> old(left)@.contains_key(other)
            &&& old(entered)@.contains_key(other) ==> final(entered)@[other]
                == old(entered)@[other]
            &&& old(left)@.contains_key(other) ==> final(left)@[other] == old(left)@[other]
        },
        !fresh@.contains_key(key),
{
}

/// A table holds what was put into it last for a machine, and everything else as before, by
/// ascending machine.
pub proof fn tables_hold_what_was_put_last<T>(
    table: &mut MachineTable<T>,
    machine: MachineId,
    value: T,
    other: MachineId,
    kept: T,
    asked: MachineTable<T>,
    contains: bool,
    found: Option<&T>,
    machines: Vec<MachineId>,
)
    requires
        old(table).wf(),
        call_ensures(MachineTable::<T>::insert, (table, machine, value), ()),
        call_ensures(MachineTable::<T>::contains, (&asked, machine), contains),
        call_ensures(MachineTable::<T>::get, (&asked, machine), found),
        call_ensures(MachineTable::<T>::machines, (&asked,), machines),
    ensures
        final(table)@.contains((machine, value)),
        other != machine && old(table)@.contains((other, kept)) ==> final(table)@.contains(
            (other, kept),
        ),
        forall|left: int, right: int|
            0 <= left < right < final(table)@.len() ==> (#[trigger] final(table)@[left]).0.0 < (
            #[trigger] final(table)@[right]).0.0,
        contains <==> found is Some,
        found matches Some(held) ==> asked@.contains((machine, *held)),
        asked@.contains((machine, kept)) ==> contains,
        machines@.len() == asked@.len(),
        forall|at: int| 0 <= at < asked@.len() ==> #[trigger] machines@[at] == asked@[at].0,
{
    crate::table::entries_stay_in_order(old(table)@, machine, value, other);
}

/// What a peer holds is kept under its machine, and a peer that did not answer in full is one
/// that is left unchecked.
pub proof fn peers_are_kept_under_their_machine(records: &mut Records, peer: PeerRecords)
    requires
        old(records).wf(),
        call_ensures(Records::add, (records, peer), ()),
    ensures
        peer.execution matches Some(kept) ==> final(records).executions@.contains(
            (peer.machine, kept),
        ),
        peer.route matches Some(kept) ==> final(records).routes@.contains((peer.machine, kept)),
        peer.identity matches Some(kept) ==> final(records).identities@.contains(
            (peer.machine, kept),
        ),
        peer.address matches Some(kept) ==> final(records).addresses@.contains(
            (peer.machine, kept),
        ),
        peer.incomplete ==> final(records).unchecked@.contains((peer.machine, ())),
        peer.execution is None ==> final(records).executions@ == old(records).executions@,
        peer.route is None ==> final(records).routes@ == old(records).routes@,
        peer.identity is None ==> final(records).identities@ == old(records).identities@,
        peer.address is None ==> final(records).addresses@ == old(records).addresses@,
        !peer.incomplete ==> final(records).unchecked@ == old(records).unchecked@,
{
    let machine = peer.machine;
    match peer.execution {
        Some(kept) => {
            crate::table::entries_stay_in_order(old(records).executions@, machine, kept, machine);
        },
        None => {},
    }
    match peer.route {
        Some(kept) => {
            crate::table::entries_stay_in_order(old(records).routes@, machine, kept, machine);
        },
        None => {},
    }
    match peer.identity {
        Some(kept) => {
            crate::table::entries_stay_in_order(old(records).identities@, machine, kept, machine);
        },
        None => {},
    }
    match peer.address {
        Some(kept) => {
            crate::table::entries_stay_in_order(old(records).addresses@, machine, kept, machine);
        },
        None => {},
    }
    crate::table::entries_stay_in_order(old(records).unchecked@, machine, (), machine);
}

} // verus!
