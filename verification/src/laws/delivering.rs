//! Delivering a task's events to its origin: in their order, each acknowledged before it leaves
//! the outbox, and tried again until it is.

use vstd::arithmetic::power2::{lemma2_to64, pow2};
use vstd::prelude::*;

use crate::actors::store::StoreMsg;
use crate::cluster::ReceiveEvent;
use crate::error::AppError;
use crate::event_sender::{
    active_after, backoff, classify_error, deliver, event_cleanup_backoff, on_orphaned,
    origin_accepted, schedule_event_cleanup, send_remote, started_tasks, AwaitAccept,
    AwaitAcknowledged, AwaitConnect, AwaitEvent, AwaitFirst, AwaitFleet, AwaitOrigin,
    AwaitReconnect, AwaitRemote, CleanupBatch, DeliveryResult, Destination, ErrorDetail,
    EventReply, LocalFleet, OriginResponse, RefusalStep, RemoteResult, RemoteStep, Retry,
    SendStep, Sending, MAX_EVENTS_PER_CYCLE, MAX_TASKS,
};
use crate::events::{EventAcceptance, TaskEvent};
use crate::fleet::{HttpStatus, API_VERSION};
use crate::ids::{hyphenated, MachineId, TaskId};
use crate::time::{Span, Tick};

verus! {

/// The pause before the next try is a second at first and doubles with each failure up to half a
/// minute and more; from the seventh failure on it is a minute.
pub proof fn pauses_double(failures: u32, pause: Span, next: Span)
    requires
        failures < u32::MAX,
        call_ensures(backoff, (failures,), pause),
        call_ensures(backoff, ((failures + 1) as u32,), next),
    ensures
        failures <= 1 ==> pause.nanos == 1_000_000_000,
        1 <= failures < 6 ==> next.nanos == 2 * pause.nanos,
        failures == 6 ==> pause.nanos == 32_000_000_000,
        failures > 6 ==> pause.nanos == 60_000_000_000,
        pause.nanos <= next.nanos,
{
    lemma2_to64();
}

/// The pause before the outbox is cleaned again is five seconds after a first failure and doubles
/// with each one; from the ninth on it is a quarter of an hour.
pub proof fn cleanup_pauses_double(failures: u32, pause: Span, next: Span)
    requires
        failures < u32::MAX,
        call_ensures(event_cleanup_backoff, (failures,), pause),
        call_ensures(event_cleanup_backoff, ((failures + 1) as u32,), next),
    ensures
        failures <= 1 ==> pause.nanos == 5_000_000_000,
        1 <= failures < 8 ==> next.nanos == 2 * pause.nanos,
        failures > 8 ==> pause.nanos == 900_000_000_000,
        pause.nanos <= next.nanos,
{
    lemma2_to64();
}

/// A failure counts once more, and the next try waits for the pause of the new count; a task is
/// ready exactly from that time on.
pub proof fn failures_wait_for_their_pause(
    previous: Option<Retry>,
    now: Tick,
    retry: Retry,
    pause: Span,
    later: Tick,
    ready: bool,
)
    requires
        now.nanos + 60_000_000_000 <= u128::MAX,
        call_ensures(Retry::after_failure, (previous, now), retry),
        call_ensures(backoff, (retry.failures,), pause),
        call_ensures(Retry::ready, (retry, later), ready),
    ensures
        previous is None ==> retry.failures == 1,
        previous matches Some(before) ==> (before.failures < u32::MAX ==> retry.failures
            == before.failures + 1) && (before.failures == u32::MAX ==> retry.failures
            == u32::MAX),
        retry.next.nanos == now.nanos + pause.nanos,
        ready <==> later.nanos >= now.nanos + pause.nanos,
{
    lemma2_to64();
}

/// A cleanup that worked starts its failures anew, and comes again soon while there is more and
/// after six hours otherwise; one that failed counts, and waits for the pause of its count.
pub proof fn cleanups_come_again(
    batch: Option<CleanupBatch>,
    failures: u32,
    next: (u32, Span),
    pause: Span,
)
    requires
        call_ensures(schedule_event_cleanup, (batch, failures), next),
        call_ensures(event_cleanup_backoff, (next.0,), pause),
    ensures
        batch matches Some(done) ==> next.0 == 0 && (done.has_more ==> next.1.nanos
            == 2_000_000_000) && (!done.has_more ==> next.1.nanos == 6 * 3600 * 1_000_000_000),
        batch is None ==> next.1.nanos == pause.nanos && (failures < u32::MAX ==> next.0 == failures
            + 1) && (failures == u32::MAX ==> next.0 == u32::MAX),
{
}

/// A cycle starts tasks of its list only, none twice, and leaves no task that it could start
/// while there is room: what is not started is active, waits for its next try, or finds every
/// place taken.
pub proof fn cycles_start_what_they_can(
    tasks: Seq<TaskId>,
    active: Set<u128>,
    retries: Map<u128, Retry>,
    now: Tick,
)
    requires
        active.finite(),
    ensures
        forall|at: int|
            0 <= at < started_tasks(tasks, active, retries, now).len() ==> {
                &&& tasks.contains(#[trigger] started_tasks(tasks, active, retries, now)[at])
                &&& active_after(tasks, active, retries, now).contains(
                    started_tasks(tasks, active, retries, now)[at].0,
                )
            },
        started_tasks(tasks, active, retries, now).no_duplicates(),
        forall|task: u128| #[trigger]
            active_after(tasks, active, retries, now).contains(task) ==> active.contains(task)
                || started_tasks(tasks, active, retries, now).contains(TaskId(task)),
        forall|at: int|
            0 <= at < tasks.len() && !active_after(tasks, active, retries, now).contains(
                (#[trigger] tasks[at]).0,
            ) ==> active_after(tasks, active, retries, now).len() >= MAX_TASKS || (
            retries.contains_key(tasks[at].0) && retries[tasks[at].0].next.nanos > now.nanos),
    decreases tasks.len(),
{
    if tasks.len() > 0 {
        let rest = tasks.drop_last();
        cycles_start_what_they_can(rest, active, retries, now);
        crate::event_sender::cycles_stay_within_bounds(rest, active, retries, now);
        let before = active_after(rest, active, retries, now);
        let after = active_after(tasks, active, retries, now);
        let earlier = started_tasks(rest, active, retries, now);
        let started = started_tasks(tasks, active, retries, now);
        assert(tasks == rest.push(tasks.last()));
        assert(forall|at: int| 0 <= at < rest.len() ==> #[trigger] rest[at] == tasks[at]);
        assert forall|at: int| 0 <= at < started.len() implies {
            &&& tasks.contains(#[trigger] started[at])
            &&& after.contains(started[at].0)
        } by {
            if at < earlier.len() {
                assert(started[at] == earlier[at]);
                assert(rest.contains(earlier[at]));
                let place = choose|place: int|
                    0 <= place < rest.len() && rest[place] == earlier[at];
                assert(tasks[place] == earlier[at]);
            } else {
                assert(tasks[tasks.len() - 1] == started[at]);
            }
        }
        if started != earlier {
            assert forall|left: int, right: int|
                0 <= left < started.len() && 0 <= right < started.len() && left
                    != right implies started[left] != started[right] by {
                if left == earlier.len() {
                    assert(before.contains(earlier[right].0));
                } else if right == earlier.len() {
                    assert(before.contains(earlier[left].0));
                }
            }
        }
        assert forall|task: u128| #[trigger] after.contains(task) implies active.contains(task)
            || started.contains(TaskId(task)) by {
            if before.contains(task) {
                if !active.contains(task) {
                    let at = choose|at: int|
                        0 <= at < earlier.len() && earlier[at] == TaskId(task);
                    assert(started[at] == TaskId(task));
                }
            } else {
                assert(started.last() == tasks.last());
                assert(started[started.len() - 1] == TaskId(task));
            }
        }
        assert forall|at: int|
            0 <= at < tasks.len() && !after.contains((#[trigger] tasks[at]).0) implies after.len()
            >= MAX_TASKS || (retries.contains_key(tasks[at].0) && retries[tasks[at].0].next.nanos
            > now.nanos) by {
            if at < rest.len() {
                assert(rest[at] == tasks[at]);
                assert(!before.contains(rest[at].0));
            }
        }
    }
}

/// Whether a step ends a cycle that is to be tried again.
pub open spec fn tries_again(step: SendStep) -> bool {
    step matches SendStep::Done { result: DeliveryResult::Retry(_), .. }
}

/// Whether a step ends a cycle without anything left to try.
pub open spec fn makes_progress(step: SendStep) -> bool {
    step == (SendStep::Done { dispatch: false, result: DeliveryResult::Progress })
}

/// Whether a step begins to send a task's events from one of them on.
pub open spec fn begins_with(
    step: SendStep,
    task: TaskId,
    origin: MachineId,
    destination: Destination,
    seq: u64,
) -> bool {
    &&& step matches SendStep::AskEvent { message, next }
    &&& message == (StoreMsg::OutboundEventAtOrAfter { id: task, seq })
    &&& next.sending.task == task
    &&& next.sending.origin == origin
    &&& next.sending.destination == destination
    &&& next.sending.seq == seq
    &&& next.sending.requested@.len() == 0
    &&& next.sending.sent == 0
}

/// A delivery begins with the task's first pending event. Events whose origin is this machine
/// stay on it, and others go by the fleet; with nothing pending there is nothing to do.
pub proof fn deliveries_begin_with_the_first_pending_event(
    task: TaskId,
    local: MachineId,
    first: SendStep,
    reply: Result<Option<TaskEvent>, AppError>,
    step: SendStep,
)
    requires
        call_ensures(deliver, (task, local), first),
        first matches SendStep::AskFirst { next, .. } ==> call_ensures(
            AwaitFirst::on_first,
            (next, reply),
            step,
        ),
    ensures
        first matches SendStep::AskFirst { message, .. } && message == (
        StoreMsg::FirstPendingOutbound { id: task }),
        reply is Err ==> tries_again(step),
        reply matches Ok(None) ==> makes_progress(step),
        reply matches Ok(Some(event)) ==> {
            &&& event.origin_machine == local ==> begins_with(
                step,
                task,
                local,
                Destination::Local,
                event.seq,
            )
            &&& event.origin_machine != local ==> (step matches SendStep::CheckFleet {
                task: checked,
                next,
            } && checked == task && next.task == task && next.origin == event.origin_machine
                && next.seq == event.seq)
        },
{
}

/// A remote origin is connected to only from a fleet that is enabled and whose local identity is
/// one; a connection that fails is made once more, and then the delivery is tried again later.
pub proof fn remote_origins_need_a_connection(
    wait: AwaitFleet,
    fleet: LocalFleet,
    first: SendStep,
    protocol: Option<u32>,
    second: SendStep,
    again: Result<u32, AppError>,
    step: SendStep,
)
    requires
        call_ensures(AwaitFleet::on_fleet, (wait, fleet), first),
        first matches SendStep::Connect { next, .. } ==> call_ensures(
            AwaitConnect::on_connected,
            (next, protocol),
            second,
        ),
        second matches SendStep::Reconnect { next, .. } ==> call_ensures(
            AwaitReconnect::on_connected,
            (next, again),
            step,
        ),
    ensures
        first is Connect <==> fleet is Consistent,
        first !is Connect ==> tries_again(first),
        first matches SendStep::Connect { origin, .. } ==> {
            &&& origin == wait.origin
            &&& second is Reconnect <==> protocol is None
            &&& protocol matches Some(protocol) ==> begins_with(
                second,
                wait.task,
                wait.origin,
                Destination::Remote { protocol },
                wait.seq,
            )
            &&& second matches SendStep::Reconnect { origin: other, .. } ==> {
                &&& other == wait.origin
                &&& again is Err ==> tries_again(step)
                &&& again matches Ok(protocol) ==> begins_with(
                    step,
                    wait.task,
                    wait.origin,
                    Destination::Remote { protocol },
                    wait.seq,
                )
            }
        },
{
}

/// Only the event that is next in its order is handed over, to this machine's inbox or to the
/// origin; a gap in the outbox is tried again, and an empty one ends the cycle.
pub proof fn events_are_handed_over_in_order(
    wait: AwaitEvent,
    reply: Result<Option<TaskEvent>, AppError>,
    step: SendStep,
)
    requires
        call_ensures(AwaitEvent::on_event, (wait, reply), step),
    ensures
        reply is Err ==> tries_again(step),
        reply matches Ok(None) ==> makes_progress(step),
        reply matches Ok(Some(event)) && event.seq != wait.sending.seq ==> tries_again(step),
        reply matches Ok(Some(event)) ==> (event.seq == wait.sending.seq ==> {
            &&& wait.sending.destination is Local ==> (step matches SendStep::AskAccept {
                message,
                next,
            } && message == (StoreMsg::AcceptInboundEvent { event }) && next.sending
                == wait.sending)
            &&& wait.sending.destination matches Destination::Remote { protocol: agreed } ==> (
            step matches SendStep::Send { event: sent, protocol, next } && sent == event && protocol
                == agreed && next.sending == wait.sending)
        }),
{
}

/// Whether a step takes an answer to the event that was sent: the event is acknowledged exactly
/// where the origin acknowledged that event; an earlier one that the origin expects is sent
/// instead, once; and any other answer is tried again.
pub open spec fn takes_answer(sending: Sending, answer: EventAcceptance, step: SendStep) -> bool {
    let rewinds = answer matches EventAcceptance::Expected { seq } && 0 < seq <= sending.seq
        && !sending.requested@.contains(seq);
    &&& step is AskAcknowledge <==> answer == (EventAcceptance::Acknowledged { seq: sending.seq })
    &&& step matches SendStep::AskAcknowledge { message, next, .. } ==> message == (
    StoreMsg::AcknowledgeOutbound { id: sending.task, seq: sending.seq }) && next.sending == sending
    &&& step is AskEvent <==> rewinds && sending.sent < MAX_EVENTS_PER_CYCLE
    &&& step matches SendStep::AskEvent { message, next } ==> {
        &&& message == (StoreMsg::OutboundEventAtOrAfter {
            id: sending.task,
            seq: answer->Expected_seq,
        })
        &&& next.sending.seq == answer->Expected_seq
        &&& next.sending.task == sending.task
        &&& next.sending.origin == sending.origin
        &&& next.sending.destination == sending.destination
        &&& next.sending.sent == sending.sent
        &&& next.sending.requested@ == sending.requested@.push(answer->Expected_seq)
    }
    &&& rewinds && sending.sent >= MAX_EVENTS_PER_CYCLE ==> makes_progress(step)
    &&& !rewinds && answer != (EventAcceptance::Acknowledged { seq: sending.seq })
        ==> tries_again(step)
}

/// An answer is taken as it is meant, from this machine's inbox and from a remote origin alike;
/// only an event that this machine's own inbox acknowledged has callbacks dispatched here.
pub proof fn answers_move_the_outbox(
    accept: AwaitAccept,
    remote: AwaitRemote,
    answer: EventAcceptance,
    accepted: SendStep,
    sent: SendStep,
)
    requires
        call_ensures(AwaitAccept::on_accepted, (accept, Ok(answer)), accepted),
        call_ensures(AwaitRemote::on_sent, (remote, Ok(RemoteResult::Accepted(answer))), sent),
    ensures
        takes_answer(accept.sending, answer, accepted),
        takes_answer(remote.sending, answer, sent),
        accepted matches SendStep::AskAcknowledge { dispatch, .. } ==> dispatch,
        sent matches SendStep::AskAcknowledge { dispatch, .. } ==> !dispatch,
        sent matches SendStep::Done { dispatch, .. } ==> !dispatch,
{
}

/// An event that failed on its way is tried again; one whose route the origin does not have
/// orphans the task, and nothing else does.
pub proof fn only_orphaned_routes_are_given_up(
    accept: AwaitAccept,
    remote: AwaitRemote,
    error: AppError,
    steps: (SendStep, SendStep),
    result: RemoteResult,
    step: SendStep,
    reply: Result<(), AppError>,
    ended: DeliveryResult,
)
    requires
        call_ensures(AwaitAccept::on_accepted, (accept, Err(error)), steps.0),
        call_ensures(AwaitRemote::on_sent, (remote, Err(error)), steps.1),
        call_ensures(AwaitRemote::on_sent, (remote, Ok(result)), step),
        call_ensures(on_orphaned, (reply,), ended),
    ensures
        tries_again(steps.0),
        tries_again(steps.1),
        step is AskOrphan <==> result is Orphaned,
        step matches SendStep::AskOrphan { message } ==> message == (
        StoreMsg::OrphanOutboundRoute { id: remote.sending.task }),
        result is Retry ==> tries_again(step),
        ended is Orphaned <==> reply is Ok,
        reply is Err ==> ended is Retry,
{
}

/// After an acknowledgement the next event in order is sent, up to a cycle's bound; an
/// acknowledgement that was not saved is tried again.
pub proof fn acknowledged_events_are_followed_by_the_next(
    wait: AwaitAcknowledged,
    reply: Result<(), AppError>,
    step: SendStep,
)
    requires
        call_ensures(AwaitAcknowledged::on_acknowledged, (wait, reply), step),
    ensures
        reply is Err ==> tries_again(step),
        reply is Ok ==> step is AskEvent || makes_progress(step),
        reply is Ok && step is AskEvent ==> wait.sending.seq < u64::MAX && wait.sending.sent + 1
            < MAX_EVENTS_PER_CYCLE,
        reply is Ok && wait.sending.seq < u64::MAX && wait.sending.sent + 1 < MAX_EVENTS_PER_CYCLE
            ==> step is AskEvent,
        step matches SendStep::AskEvent { message, next } ==> {
            &&& next.sending.seq == wait.sending.seq + 1
            &&& next.sending.sent == wait.sending.sent + 1
            &&& message == (StoreMsg::OutboundEventAtOrAfter {
                id: wait.sending.task,
                seq: next.sending.seq,
            })
            &&& next.sending.task == wait.sending.task
            &&& next.sending.origin == wait.sending.origin
            &&& next.sending.destination == wait.sending.destination
            &&& next.sending.requested == wait.sending.requested
        },
{
}

/// A remote event goes to its own origin as it is, under the agreed protocol.
pub proof fn remote_events_go_to_their_origin(
    event: TaskEvent,
    protocol: u32,
    sent: (ReceiveEvent, AwaitOrigin),
)
    requires
        call_ensures(send_remote, (event, protocol), sent),
    ensures
        sent.0.event == event,
        sent.0.destination_machine == event.origin_machine,
        sent.0.api_version == API_VERSION,
        sent.0.protocol_version == protocol,
        sent.1.task == event.task,
        sent.1.origin == event.origin_machine,
        sent.1.protocol == protocol,
{
}

/// An origin's answer counts only where it succeeded, could be read and has the right versions.
pub proof fn only_whole_answers_count(
    reply: Result<EventReply, String>,
    protocol: u32,
    result: RemoteResult,
)
    requires
        call_ensures(origin_accepted, (reply, protocol), result),
    ensures
        result is Accepted <==> (reply matches Ok(body) && body.api_version == API_VERSION
            && body.protocol_version == protocol),
        result matches RemoteResult::Accepted(answer) ==> reply->Ok_0.result == answer,
        result is Accepted || result is Retry,
{
}

/// A refusal is verified exactly where the origin says, with the right status, that it has no
/// route for this very task; an address that has changed its identity is probed, and everything
/// else is tried again.
pub proof fn only_missing_routes_are_verified(
    status: HttpStatus,
    detail: Option<ErrorDetail>,
    task: TaskId,
    step: RefusalStep,
)
    requires
        call_ensures(classify_error, (status, detail, task), step),
    ensures
        step is Verify ==> (detail matches Some(told) && status.number() == 404 && told.code@
            == "route_not_found"@ && (told.task matches Some(named) && named@ == hyphenated(
            task.0,
        ))),
        (detail matches Some(told) && status.number() == 404 && told.code@ == "route_not_found"@ && (
        told.task matches Some(named) && named@ == hyphenated(task.0)) && told.code@
            != "machine_identity_mismatch"@) ==> step is Verify,
        (step matches RefusalStep::Retry { probe, .. } && probe) <==> (detail matches Some(told)
            && told.code@ == "machine_identity_mismatch"@),
{
}

/// An origin's response ends the sending, has the missing route verified at the origin, or probes
/// the address; it never orphans a task by itself. A task is orphaned only where the identity
/// that was verified is still the current one.
pub proof fn orphans_need_a_verified_origin(
    wait: AwaitOrigin,
    response: OriginResponse,
    step: RemoteStep,
    verified: &str,
    current: Option<&str>,
    checked: RemoteStep,
)
    requires
        call_ensures(AwaitOrigin::on_response, (wait, response), step),
        call_ensures(AwaitOrigin::on_verified, (wait, verified, current), checked),
    ensures
        !(step matches RemoteStep::Done(RemoteResult::Orphaned)),
        response matches OriginResponse::Unreachable(text) ==> step == RemoteStep::Done(
            RemoteResult::Retry(text),
        ),
        step matches RemoteStep::Done(RemoteResult::Accepted(answer)) ==> (
        response matches OriginResponse::Answered { status, reply, .. } && status.number() == 200
            && (reply matches Ok(body) && body.result == answer && body.api_version == API_VERSION
            && body.protocol_version == wait.protocol)),
        response matches OriginResponse::Answered { status, reply: Ok(body), .. } && status.number()
            == 200 && body.api_version == API_VERSION && body.protocol_version == wait.protocol
            ==> step matches RemoteStep::Done(RemoteResult::Accepted(_)),
        step matches RemoteStep::Verify { origin } ==> origin == wait.origin && (
        response matches OriginResponse::Answered { status, detail: Some(told), .. }
            && status.number() == 404 && told.code@ == "route_not_found"@),
        checked == RemoteStep::Done(RemoteResult::Orphaned) <==> (current matches Some(now) && now@
            == verified@),
        checked is Probe || checked == RemoteStep::Done(RemoteResult::Orphaned),
{
}

} // verus!
