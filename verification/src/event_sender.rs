//! Ordered executor outbox delivery and recovery.
//!
//! Each task's events go out one at a time and in sequence. The origin acknowledges every
//! one of them, or names the earlier one that it still needs.

use std::collections::{HashMap, HashSet};

use vstd::arithmetic::power2::{lemma2_to64, pow2};
use vstd::prelude::*;

use crate::actors::store::StoreMsg;
use crate::cluster::ReceiveEvent;
use crate::error::{error_text, AppError};
use crate::events::{EventAcceptance, TaskEvent};
use crate::fleet::{http_status_text, HttpStatus, API_VERSION};
use crate::ids::{hyphenated, MachineId, TaskId};
use crate::text::{decimal, decimal_digits, join2, join3, same_text, slice_text};
use crate::time::{Span, Tick};

verus! {

broadcast use vstd::std_specs::hash::group_hash_axioms;

/// Tasks whose events go out at the same time.
pub const MAX_TASKS: usize = 8;

/// Events of one task in one cycle.
pub const MAX_EVENTS_PER_CYCLE: u32 = 32;

/// Longest pause between two deliveries in seconds.
pub const MAX_BACKOFF_SECS: u64 = 60;

/// Seconds between two cleanups of old event payloads.
pub const EVENT_CLEANUP_INTERVAL_SECS: u64 = 21600;

/// Seconds before a cleanup goes on that did not finish.
pub const EVENT_CLEANUP_CATCHUP_SECS: u64 = 2;

/// Longest pause after a failed cleanup in seconds.
pub const EVENT_CLEANUP_MAX_BACKOFF_SECS: u64 = 900;

/// Seconds of the pause after a number of failures: doubling from one second up to a minute.
pub open spec fn backoff_secs(failures: u32) -> nat {
    if failures <= 1 {
        1
    } else if failures <= 6 {
        pow2((failures - 1) as nat)
    } else {
        60
    }
}

/// Pause before the next delivery after a number of failures.
pub fn backoff(failures: u32) -> (pause: Span)
    ensures
        pause.nanos == backoff_secs(failures) * 1_000_000_000,
        1_000_000_000 <= pause.nanos <= 60_000_000_000,
{
    let shift: u32 = if failures == 0 {
        0
    } else if failures - 1 < 6 {
        failures - 1
    } else {
        6
    };
    proof {
        lemma2_to64();
        assert(1u64 << 0u32 == 1 && 1u64 << 1u32 == 2 && 1u64 << 2u32 == 4 && 1u64 << 3u32 == 8
            && 1u64 << 4u32 == 16 && 1u64 << 5u32 == 32 && 1u64 << 6u32 == 64) by (bit_vector);
    }
    let secs: u64 = 1u64 << shift;
    assert(secs == pow2(shift as nat));
    Span::from_secs(secs).min(Span::from_secs(MAX_BACKOFF_SECS))
}

/// Seconds of the pause after failed cleanups: doubling from five seconds up to fifteen
/// minutes.
pub open spec fn cleanup_backoff_secs(failures: u32) -> nat {
    if failures <= 1 {
        5
    } else if failures <= 8 {
        5 * pow2((failures - 1) as nat)
    } else {
        900
    }
}

/// Pause before the next cleanup after a number of failures.
pub fn event_cleanup_backoff(failures: u32) -> (pause: Span)
    ensures
        pause.nanos == cleanup_backoff_secs(failures) * 1_000_000_000,
{
    let shift: u32 = if failures == 0 {
        0
    } else if failures - 1 < 8 {
        failures - 1
    } else {
        8
    };
    proof {
        lemma2_to64();
        assert(5u64 << 0u32 == 5 && 5u64 << 1u32 == 10 && 5u64 << 2u32 == 20 && 5u64 << 3u32 == 40
            && 5u64 << 4u32 == 80 && 5u64 << 5u32 == 160 && 5u64 << 6u32 == 320 && 5u64 << 7u32
            == 640 && 5u64 << 8u32 == 1280) by (bit_vector);
    }
    let secs: u64 = 5u64 << shift;
    assert(secs == 5 * pow2(shift as nat));
    Span::from_secs(secs).min(Span::from_secs(EVENT_CLEANUP_MAX_BACKOFF_SECS))
}

/// Another failure never shortens a pause, and no pause is longer than its bound.
pub proof fn pauses_grow_up_to_their_bound(fewer: u32, more: u32)
    requires
        fewer <= more,
    ensures
        1 <= backoff_secs(fewer) <= backoff_secs(more) <= 60,
        5 <= cleanup_backoff_secs(fewer) <= cleanup_backoff_secs(more) <= 900,
{
    lemma2_to64();
}

/// Failures of one task and when it may be tried again.
#[derive(Debug, Clone, Copy, PartialEq, Eq, Structural)]
pub struct Retry {
    pub failures: u32,
    pub next: Tick,
}

/// Failures after one more.
pub open spec fn more_failures(previous: Option<Retry>) -> u32 {
    match previous {
        Some(retry) => if retry.failures < u32::MAX {
            (retry.failures + 1) as u32
        } else {
            u32::MAX
        },
        None => 1,
    }
}

/// The retry after one more failure.
pub open spec fn retry_after(previous: Option<Retry>, now: Tick) -> Retry {
    let failures = more_failures(previous);
    Retry {
        failures,
        next: Tick { nanos: (now.nanos + backoff_secs(failures) * 1_000_000_000) as u128 },
    }
}

impl Retry {
    /// Put the next try off after one more failure.
    pub fn after_failure(previous: Option<Retry>, now: Tick) -> (retry: Retry)
        requires
            now.nanos + 60_000_000_000 <= u128::MAX,
        ensures
            retry == retry_after(previous, now),
            now.nanos < retry.next.nanos <= now.nanos + 60_000_000_000,
    {
        let failures: u32 = match previous {
            Some(retry) => retry.failures.saturating_add(1),
            None => 1,
        };
        let pause = backoff(failures);
        Retry { failures, next: Tick { nanos: now.nanos + pause.nanos } }
    }

    /// Whether the next try may be made.
    pub fn ready(self, now: Tick) -> (ready: bool)
        ensures
            ready == (self.next.nanos <= now.nanos),
    {
        self.next.nanos <= now.nanos
    }
}

/// One compacted batch of old event payloads.
#[derive(Debug, Clone, Copy, PartialEq, Eq, Structural)]
pub struct CleanupBatch {
    pub compacted: u64,
    pub has_more: bool,
}

/// Failures and pause after one cleanup; `batch` is nothing when it failed.
pub fn schedule_event_cleanup(batch: Option<CleanupBatch>, failures: u32) -> (next: (u32, Span))
    ensures
        match batch {
            Some(batch) => next.0 == 0 && next.1.nanos == (if batch.has_more {
                2_000_000_000int
            } else {
                21_600_000_000_000
            }),
            None => next.0 == more_failures(Some(Retry { failures, next: Tick { nanos: 0 } }))
                && next.1.nanos == cleanup_backoff_secs(next.0) * 1_000_000_000,
        },
{
    match batch {
        Some(batch) => {
            let secs = if batch.has_more {
                EVENT_CLEANUP_CATCHUP_SECS
            } else {
                EVENT_CLEANUP_INTERVAL_SECS
            };
            (0, Span::from_secs(secs))
        },
        None => {
            let failures: u32 = failures.saturating_add(1);
            (failures, event_cleanup_backoff(failures))
        },
    }
}

/// What became of one delivery.
#[derive(Debug)]
pub enum DeliveryResult {
    Progress,
    Retry(String),
    Orphaned,
}

/// Active deliveries and put-off tasks.
#[derive(Debug)]
pub struct Outbox {
    active: HashSet<u128>,
    retries: HashMap<u128, Retry>,
}

/// The content of an [`Outbox`].
#[verifier::ext_equal]
pub struct OutboxView {
    pub active: Set<u128>,
    pub retries: Map<u128, Retry>,
}

impl View for Outbox {
    type V = OutboxView;

    closed spec fn view(&self) -> OutboxView {
        OutboxView { active: self.active@, retries: self.retries@ }
    }
}

/// Whether a task may be delivered now.
pub open spec fn deliverable(
    active: Set<u128>,
    retries: Map<u128, Retry>,
    task: TaskId,
    now: Tick,
) -> bool {
    !active.contains(task.0) && !(retries.contains_key(task.0) && retries[task.0].next.nanos
        > now.nanos)
}

/// Active tasks after as many of `tasks` as possible were started, in order.
pub open spec fn active_after(
    tasks: Seq<TaskId>,
    active: Set<u128>,
    retries: Map<u128, Retry>,
    now: Tick,
) -> Set<u128>
    decreases tasks.len(),
{
    if tasks.len() == 0 {
        active
    } else {
        let before = active_after(tasks.drop_last(), active, retries, now);
        if before.len() < MAX_TASKS && deliverable(before, retries, tasks.last(), now) {
            before.insert(tasks.last().0)
        } else {
            before
        }
    }
}

/// Tasks that are started, in order.
pub open spec fn started_tasks(
    tasks: Seq<TaskId>,
    active: Set<u128>,
    retries: Map<u128, Retry>,
    now: Tick,
) -> Seq<TaskId>
    decreases tasks.len(),
{
    if tasks.len() == 0 {
        Seq::empty()
    } else {
        let before = active_after(tasks.drop_last(), active, retries, now);
        let earlier = started_tasks(tasks.drop_last(), active, retries, now);
        if before.len() < MAX_TASKS && deliverable(before, retries, tasks.last(), now) {
            earlier.push(tasks.last())
        } else {
            earlier
        }
    }
}

/// Identities of some tasks.
pub open spec fn task_set(tasks: Seq<TaskId>) -> Set<u128> {
    tasks.map_values(|task: TaskId| task.0).to_set()
}

impl Outbox {
    /// No delivery and no failure yet.
    pub fn new() -> (outbox: Outbox)
        ensures
            outbox@ == (OutboxView { active: Set::empty(), retries: Map::empty() }),
    {
        Outbox { active: HashSet::new(), retries: HashMap::new() }
    }

    fn keep_pending(&mut self, tasks: &Vec<TaskId>)
        ensures
            final(self)@.active == old(self)@.active,
            final(self)@.retries == old(self)@.retries.restrict(task_set(tasks@)),
    {
        let mut kept: HashMap<u128, Retry> = HashMap::new();
        let mut index: usize = 0;
        while index < tasks.len()
            invariant
                index <= tasks.len(),
                kept@ == self.retries@.restrict(task_set(tasks@.take(index as int))),
                self == old(self),
            decreases tasks.len() - index,
        {
            let task = tasks[index];
            let ghost before = task_set(tasks@.take(index as int));
            proof {
                let earlier = tasks@.take(index as int);
                let next = tasks@.take(index as int + 1);
                assert(next == earlier.push(task));
                assert(next.map_values(|task: TaskId| task.0) =~= earlier.map_values(
                    |task: TaskId| task.0,
                ).push(task.0));
                assert forall|id: u128| #[trigger]
                    task_set(next).contains(id) == before.insert(task.0).contains(id) by {
                    let ids = earlier.map_values(|task: TaskId| task.0);
                    if ids.contains(id) {
                        let at = choose|at: int| 0 <= at < ids.len() && ids[at] == id;
                        assert(ids.push(task.0)[at] == id);
                    }
                    if id == task.0 {
                        assert(ids.push(task.0)[ids.len() as int] == id);
                    }
                }
                assert(task_set(next) =~= before.insert(task.0));
            }
            if let Some(retry) = self.retries.get(&task.0) {
                kept.insert(task.0, *retry);
            }
            proof {
                assert(kept@ =~= self.retries@.restrict(before.insert(task.0)));
            }
            index += 1;
        }
        proof {
            assert(tasks@.take(tasks.len() as int) =~= tasks@);
        }
        self.retries = kept;
    }

    /// Start deliveries of pending tasks, at most [`MAX_TASKS`] at a time.
    ///
    /// A task that is no longer pending loses its failures.
    pub fn schedule(&mut self, tasks: &Vec<TaskId>, now: Tick) -> (started: Vec<TaskId>)
        ensures
            final(self)@.retries == old(self)@.retries.restrict(task_set(tasks@)),
            final(self)@.active == active_after(
                tasks@,
                old(self)@.active,
                final(self)@.retries,
                now,
            ),
            started@ == started_tasks(tasks@, old(self)@.active, final(self)@.retries, now),
    {
        self.keep_pending(tasks);
        let ghost active = self.active@;
        let ghost retries = self.retries@;
        let mut started: Vec<TaskId> = Vec::new();
        let mut index: usize = 0;
        while index < tasks.len()
            invariant
                index <= tasks.len(),
                self.retries@ == retries,
                self.active@ == active_after(tasks@.take(index as int), active, retries, now),
                started@ == started_tasks(tasks@.take(index as int), active, retries, now),
            decreases tasks.len() - index,
        {
            let task = tasks[index];
            proof {
                let next = tasks@.take(index as int + 1);
                assert(next.drop_last() =~= tasks@.take(index as int));
                assert(next.last() == task);
            }
            let put_off = match self.retries.get(&task.0) {
                Some(retry) => !retry.ready(now),
                None => false,
            };
            if self.active.len() < MAX_TASKS && !self.active.contains(&task.0) && !put_off {
                self.active.insert(task.0);
                started.push(task);
            }
            index += 1;
        }
        proof {
            assert(tasks@.take(tasks.len() as int) =~= tasks@);
        }
        started
    }

    /// Record the end of one delivery: progress clears a task's failures.
    pub fn finished(&mut self, task: TaskId, outcome: &DeliveryResult, now: Tick)
        requires
            now.nanos + 60_000_000_000 <= u128::MAX,
        ensures
            final(self)@.active == old(self)@.active.remove(task.0),
            final(self)@.retries == (match *outcome {
                DeliveryResult::Retry(_) => old(self)@.retries.insert(
                    task.0,
                    retry_after(
                        if old(self)@.retries.contains_key(task.0) {
                            Some(old(self)@.retries[task.0])
                        } else {
                            None
                        },
                        now,
                    ),
                ),
                _ => old(self)@.retries.remove(task.0),
            }),
    {
        self.active.remove(&task.0);
        match outcome {
            DeliveryResult::Progress | DeliveryResult::Orphaned => {
                self.retries.remove(&task.0);
            },
            DeliveryResult::Retry(_) => {
                let previous = match self.retries.get(&task.0) {
                    Some(retry) => Some(*retry),
                    None => None,
                };
                let retry = Retry::after_failure(previous, now);
                self.retries.insert(task.0, retry);
            },
        }
    }
}

/// A cycle never starts a task that is active or put off, never starts one twice, and never
/// lets more tasks be active than the bound, unless more were before.
pub proof fn cycles_stay_within_bounds(
    tasks: Seq<TaskId>,
    active: Set<u128>,
    retries: Map<u128, Retry>,
    now: Tick,
)
    requires
        active.finite(),
    ensures
        active_after(tasks, active, retries, now).finite(),
        active.subset_of(active_after(tasks, active, retries, now)),
        active.len() <= MAX_TASKS ==> active_after(tasks, active, retries, now).len() <= MAX_TASKS,
        active_after(tasks, active, retries, now).len() == active.len() + started_tasks(
            tasks,
            active,
            retries,
            now,
        ).len(),
        forall|at: int|
            0 <= at < started_tasks(tasks, active, retries, now).len() ==> {
                let task = #[trigger] started_tasks(tasks, active, retries, now)[at];
                &&& !active.contains(task.0)
                &&& !(retries.contains_key(task.0) && retries[task.0].next.nanos > now.nanos)
            },
    decreases tasks.len(),
{
    if tasks.len() > 0 {
        cycles_stay_within_bounds(tasks.drop_last(), active, retries, now);
    }
}

/// Where a task's events go.
#[derive(Debug, Clone, Copy, PartialEq, Eq, Structural)]
pub enum Destination {
    Local,
    /// The origin machine speaks this protocol.
    Remote { protocol: u32 },
}

/// Whether this machine may speak for itself in the fleet.
#[derive(Debug, Clone, Copy, PartialEq, Eq, Structural)]
pub enum LocalFleet {
    Disabled,
    /// Another machine uses the same identity.
    Duplicated,
    Consistent,
}

/// Progress of one task's delivery.
#[derive(Debug)]
pub struct Sending {
    pub task: TaskId,
    pub origin: MachineId,
    pub destination: Destination,
    /// Sequence of the next event.
    pub seq: u64,
    /// Sequences that the origin asked for.
    pub requested: Vec<u64>,
    /// Events acknowledged in this cycle.
    pub sent: u32,
}

/// Next part of one task's delivery.
#[derive(Debug)]
pub enum SendStep {
    AskFirst { message: StoreMsg, next: AwaitFirst },
    /// Tell the resource owners of the event, then look at the fleet.
    CheckFleet { task: TaskId, next: AwaitFleet },
    /// Connect to the origin.
    Connect { origin: MachineId, next: AwaitConnect },
    /// Discover the fleet anew and connect again.
    Reconnect { origin: MachineId, next: AwaitReconnect },
    AskEvent { message: StoreMsg, next: AwaitEvent },
    AskAccept { message: StoreMsg, next: AwaitAccept },
    Send { event: TaskEvent, protocol: u32, next: AwaitRemote },
    /// Wake the inbox worker first, where `dispatch` says so.
    AskAcknowledge { dispatch: bool, message: StoreMsg, next: AwaitAcknowledged },
    AskOrphan { message: StoreMsg },
    /// Wake the inbox worker where `dispatch` says so, and end.
    Done { dispatch: bool, result: DeliveryResult },
}

/// Waiting for the first pending event.
#[derive(Debug, Clone, Copy, PartialEq, Eq, Structural)]
pub struct AwaitFirst {
    pub task: TaskId,
    pub local: MachineId,
}

/// Waiting for the fleet's own state.
#[derive(Debug, Clone, Copy, PartialEq, Eq, Structural)]
pub struct AwaitFleet {
    pub task: TaskId,
    pub origin: MachineId,
    pub seq: u64,
}

/// Waiting for a connection to the origin.
#[derive(Debug, Clone, Copy, PartialEq, Eq, Structural)]
pub struct AwaitConnect {
    pub task: TaskId,
    pub origin: MachineId,
    pub seq: u64,
}

/// Waiting for a second connection to the origin.
#[derive(Debug, Clone, Copy, PartialEq, Eq, Structural)]
pub struct AwaitReconnect {
    pub task: TaskId,
    pub origin: MachineId,
    pub seq: u64,
}

/// Waiting for the event of one sequence.
#[derive(Debug)]
pub struct AwaitEvent {
    pub sending: Sending,
}

/// Waiting for the local inbox.
#[derive(Debug)]
pub struct AwaitAccept {
    pub sending: Sending,
}

/// Waiting for the remote origin.
#[derive(Debug)]
pub struct AwaitRemote {
    pub sending: Sending,
}

/// Waiting for the recorded acknowledgement.
#[derive(Debug)]
pub struct AwaitAcknowledged {
    pub sending: Sending,
}

/// Whether a step ends the cycle with a retry for this reason.
pub open spec fn retries_with(step: SendStep, dispatch: bool, reason: Seq<char>) -> bool {
    step matches SendStep::Done { dispatch: woken, result: DeliveryResult::Retry(text) } && woken
        == dispatch && text@ == reason
}

fn retry(reason: &str) -> (step: SendStep)
    ensures
        retries_with(step, false, reason@),
{
    SendStep::Done { dispatch: false, result: DeliveryResult::Retry(reason.to_owned()) }
}

fn retry_error(error: AppError) -> (step: SendStep)
    ensures
        retries_with(step, false, error_text(error@)),
{
    SendStep::Done { dispatch: false, result: DeliveryResult::Retry(error.to_string()) }
}

/// The end of a cycle without a wake.
pub open spec fn progressed() -> SendStep {
    SendStep::Done { dispatch: false, result: DeliveryResult::Progress }
}

/// The next event of a cycle, or its end.
pub open spec fn next_event(sending: Sending) -> SendStep {
    if sending.sent < MAX_EVENTS_PER_CYCLE {
        SendStep::AskEvent {
            message: StoreMsg::OutboundEventAtOrAfter { id: sending.task, seq: sending.seq },
            next: AwaitEvent { sending },
        }
    } else {
        progressed()
    }
}

/// A cycle that starts at `seq`.
pub open spec fn starts_cycle(
    step: SendStep,
    task: TaskId,
    origin: MachineId,
    destination: Destination,
    seq: u64,
) -> bool {
    &&& step matches SendStep::AskEvent { message, next }
    &&& message == (StoreMsg::OutboundEventAtOrAfter { id: task, seq })
    &&& next.sending.task == task
    &&& next.sending.origin == origin
    &&& next.sending.destination == destination
    &&& next.sending.seq == seq
    &&& next.sending.requested@ == Seq::<u64>::empty()
    &&& next.sending.sent == 0
}

fn start_cycle(task: TaskId, origin: MachineId, destination: Destination, seq: u64) -> (step:
    SendStep)
    ensures
        starts_cycle(step, task, origin, destination, seq),
{
    SendStep::AskEvent {
        message: StoreMsg::OutboundEventAtOrAfter { id: task, seq },
        next: AwaitEvent {
            sending: Sending { task, origin, destination, seq, requested: Vec::new(), sent: 0 },
        },
    }
}

/// Deliver one task's pending events.
pub fn deliver(task: TaskId, local: MachineId) -> (step: SendStep)
    ensures
        step == (SendStep::AskFirst {
            message: StoreMsg::FirstPendingOutbound { id: task },
            next: AwaitFirst { task, local },
        }),
{
    SendStep::AskFirst {
        message: StoreMsg::FirstPendingOutbound { id: task },
        next: AwaitFirst { task, local },
    }
}

impl AwaitFirst {
    /// A remote origin needs the fleet; a local one only the store.
    pub fn on_first(self, reply: Result<Option<TaskEvent>, AppError>) -> (step: SendStep)
        ensures
            match reply {
                Err(error) => retries_with(step, false, error_text(error@)),
                Ok(None) => step == progressed(),
                Ok(Some(event)) => if event.origin_machine == self.local {
                    starts_cycle(
                        step,
                        self.task,
                        event.origin_machine,
                        Destination::Local,
                        event.seq,
                    )
                } else {
                    step == (SendStep::CheckFleet {
                        task: self.task,
                        next: AwaitFleet {
                            task: self.task,
                            origin: event.origin_machine,
                            seq: event.seq,
                        },
                    })
                },
            },
    {
        let event = match reply {
            Err(error) => {
                return retry_error(error);
            },
            Ok(None) => {
                return SendStep::Done { dispatch: false, result: DeliveryResult::Progress };
            },
            Ok(Some(event)) => event,
        };
        let origin = event.origin_machine;
        if origin == self.local {
            return start_cycle(self.task, origin, Destination::Local, event.seq);
        }
        SendStep::CheckFleet {
            task: self.task,
            next: AwaitFleet { task: self.task, origin, seq: event.seq },
        }
    }
}

impl AwaitFleet {
    /// Connect only as an undisputed member of the fleet.
    pub fn on_fleet(self, fleet: LocalFleet) -> (step: SendStep)
        ensures
            match fleet {
                LocalFleet::Disabled => retries_with(
                    step,
                    false,
                    "fleet is disabled for remote origin"@,
                ),
                LocalFleet::Duplicated => retries_with(
                    step,
                    false,
                    "local machine identity is duplicated"@,
                ),
                LocalFleet::Consistent => step == (SendStep::Connect {
                    origin: self.origin,
                    next: AwaitConnect { task: self.task, origin: self.origin, seq: self.seq },
                }),
            },
    {
        match fleet {
            LocalFleet::Disabled => retry("fleet is disabled for remote origin"),
            LocalFleet::Duplicated => retry("local machine identity is duplicated"),
            LocalFleet::Consistent => SendStep::Connect {
                origin: self.origin,
                next: AwaitConnect { task: self.task, origin: self.origin, seq: self.seq },
            },
        }
    }
}

impl AwaitConnect {
    /// A failed connection is tried once more after a new discovery.
    ///
    /// `protocol` is the one that the origin speaks, or nothing when it did not answer.
    pub fn on_connected(self, protocol: Option<u32>) -> (step: SendStep)
        ensures
            match protocol {
                Some(protocol) => starts_cycle(
                    step,
                    self.task,
                    self.origin,
                    Destination::Remote { protocol },
                    self.seq,
                ),
                None => step == (SendStep::Reconnect {
                    origin: self.origin,
                    next: AwaitReconnect { task: self.task, origin: self.origin, seq: self.seq },
                }),
            },
    {
        match protocol {
            Some(protocol) => start_cycle(
                self.task,
                self.origin,
                Destination::Remote { protocol },
                self.seq,
            ),
            None => SendStep::Reconnect {
                origin: self.origin,
                next: AwaitReconnect { task: self.task, origin: self.origin, seq: self.seq },
            },
        }
    }
}

impl AwaitReconnect {
    /// A second failure puts the task off.
    pub fn on_connected(self, protocol: Result<u32, AppError>) -> (step: SendStep)
        ensures
            match protocol {
                Ok(protocol) => starts_cycle(
                    step,
                    self.task,
                    self.origin,
                    Destination::Remote { protocol },
                    self.seq,
                ),
                Err(error) => retries_with(step, false, error_text(error@)),
            },
    {
        match protocol {
            Ok(protocol) => start_cycle(
                self.task,
                self.origin,
                Destination::Remote { protocol },
                self.seq,
            ),
            Err(error) => retry_error(error),
        }
    }
}

impl AwaitEvent {
    /// Send exactly the event of the expected sequence.
    pub fn on_event(self, reply: Result<Option<TaskEvent>, AppError>) -> (step: SendStep)
        ensures
            match reply {
                Err(error) => retries_with(step, false, error_text(error@)),
                Ok(None) => step == progressed(),
                Ok(Some(event)) => if event.seq != self.sending.seq {
                    retries_with(
                        step,
                        false,
                        "outbox sequence "@ + decimal_digits(self.sending.seq as nat)
                            + " is missing"@,
                    )
                } else {
                    match self.sending.destination {
                        Destination::Local => step == (SendStep::AskAccept {
                            message: StoreMsg::AcceptInboundEvent { event },
                            next: AwaitAccept { sending: self.sending },
                        }),
                        Destination::Remote { protocol } => step == (SendStep::Send {
                            event,
                            protocol,
                            next: AwaitRemote { sending: self.sending },
                        }),
                    }
                },
            },
    {
        let event = match reply {
            Err(error) => {
                return retry_error(error);
            },
            Ok(None) => {
                return SendStep::Done { dispatch: false, result: DeliveryResult::Progress };
            },
            Ok(Some(event)) => event,
        };
        if event.seq != self.sending.seq {
            let number = decimal(self.sending.seq);
            let reason = join3("outbox sequence ", number.as_str(), " is missing");
            return SendStep::Done { dispatch: false, result: DeliveryResult::Retry(reason) };
        }
        match self.sending.destination {
            Destination::Local => SendStep::AskAccept {
                message: StoreMsg::AcceptInboundEvent { event },
                next: AwaitAccept { sending: self.sending },
            },
            Destination::Remote { protocol } => SendStep::Send {
                event,
                protocol,
                next: AwaitRemote { sending: self.sending },
            },
        }
    }
}

/// What an origin's answer to the event of `sending.seq` means.
pub open spec fn answered(
    sending: Sending,
    response: EventAcceptance,
    dispatch: bool,
    step: SendStep,
) -> bool {
    match response {
        EventAcceptance::Acknowledged { seq } => if seq == sending.seq {
            step == (SendStep::AskAcknowledge {
                dispatch,
                message: StoreMsg::AcknowledgeOutbound { id: sending.task, seq: sending.seq },
                next: AwaitAcknowledged { sending },
            })
        } else {
            retries_with(step, dispatch, "origin response did not match event sequence"@)
        },
        EventAcceptance::Expected { seq } => if 0 < seq <= sending.seq {
            if sending.requested@.contains(seq) {
                retries_with(step, dispatch, "origin repeated the same sequence gap"@)
            } else if sending.sent >= MAX_EVENTS_PER_CYCLE {
                step == progressed()
            } else {
                &&& step matches SendStep::AskEvent { message, next }
                &&& message == (StoreMsg::OutboundEventAtOrAfter { id: sending.task, seq })
                &&& next.sending.task == sending.task
                &&& next.sending.origin == sending.origin
                &&& next.sending.destination == sending.destination
                &&& next.sending.seq == seq
                &&& next.sending.requested@ == sending.requested@.push(seq)
                &&& next.sending.sent == sending.sent
            }
        } else {
            retries_with(step, dispatch, "origin response did not match event sequence"@)
        },
    }
}

fn holds_seq(list: &Vec<u64>, seq: u64) -> (holds: bool)
    ensures
        holds == list@.contains(seq),
{
    let mut index: usize = 0;
    while index < list.len()
        invariant
            index <= list.len(),
            forall|at: int| 0 <= at < index ==> list@[at] != seq,
        decreases list.len() - index,
    {
        if list[index] == seq {
            return true;
        }
        index += 1;
    }
    false
}

fn answer(sending: Sending, response: EventAcceptance, dispatch: bool) -> (step: SendStep)
    ensures
        answered(sending, response, dispatch, step),
{
    match response {
        EventAcceptance::Acknowledged { seq } if seq == sending.seq => SendStep::AskAcknowledge {
            dispatch,
            message: StoreMsg::AcknowledgeOutbound { id: sending.task, seq: sending.seq },
            next: AwaitAcknowledged { sending },
        },
        EventAcceptance::Expected { seq } if 0 < seq && seq <= sending.seq => {
            if holds_seq(&sending.requested, seq) {
                return SendStep::Done {
                    dispatch,
                    result: DeliveryResult::Retry(
                        "origin repeated the same sequence gap".to_owned(),
                    ),
                };
            }
            if sending.sent >= MAX_EVENTS_PER_CYCLE {
                return SendStep::Done { dispatch: false, result: DeliveryResult::Progress };
            }
            let mut sending = sending;
            sending.requested.push(seq);
            sending.seq = seq;
            SendStep::AskEvent {
                message: StoreMsg::OutboundEventAtOrAfter { id: sending.task, seq },
                next: AwaitEvent { sending },
            }
        },
        _ => SendStep::Done {
            dispatch,
            result: DeliveryResult::Retry(
                "origin response did not match event sequence".to_owned(),
            ),
        },
    }
}

impl AwaitAccept {
    /// An acknowledged local event wakes its inbox worker.
    pub fn on_accepted(self, reply: Result<EventAcceptance, AppError>) -> (step: SendStep)
        ensures
            match reply {
                Err(error) => retries_with(step, false, error_text(error@)),
                Ok(response) => answered(self.sending, response, response is Acknowledged, step),
            },
    {
        match reply {
            Err(error) => retry_error(error),
            Ok(response) => {
                let dispatch = match response {
                    EventAcceptance::Acknowledged { .. } => true,
                    EventAcceptance::Expected { .. } => false,
                };
                answer(self.sending, response, dispatch)
            },
        }
    }
}

/// What one remote send came to.
#[derive(Debug)]
pub enum RemoteResult {
    Accepted(EventAcceptance),
    Orphaned,
    Retry(String),
}

impl AwaitRemote {
    /// Act on the origin's answer; a route that is verifiably gone ends the task's delivery.
    pub fn on_sent(self, result: Result<RemoteResult, AppError>) -> (step: SendStep)
        ensures
            match result {
                Err(error) => retries_with(step, false, error_text(error@)),
                Ok(RemoteResult::Accepted(response)) => answered(
                    self.sending,
                    response,
                    false,
                    step,
                ),
                Ok(RemoteResult::Orphaned) => step == (SendStep::AskOrphan {
                    message: StoreMsg::OrphanOutboundRoute { id: self.sending.task },
                }),
                Ok(RemoteResult::Retry(reason)) => step == (SendStep::Done {
                    dispatch: false,
                    result: DeliveryResult::Retry(reason),
                }),
            },
    {
        match result {
            Err(error) => retry_error(error),
            Ok(RemoteResult::Accepted(response)) => answer(self.sending, response, false),
            Ok(RemoteResult::Orphaned) => SendStep::AskOrphan {
                message: StoreMsg::OrphanOutboundRoute { id: self.sending.task },
            },
            Ok(RemoteResult::Retry(reason)) => SendStep::Done {
                dispatch: false,
                result: DeliveryResult::Retry(reason),
            },
        }
    }
}

/// End a task's delivery once its missing route is recorded.
pub fn on_orphaned(reply: Result<(), AppError>) -> (result: DeliveryResult)
    ensures
        match reply {
            Ok(_) => result is Orphaned,
            Err(error) => result matches DeliveryResult::Retry(text) && text@ == error_text(error@),
        },
{
    match reply {
        Ok(_) => DeliveryResult::Orphaned,
        Err(error) => DeliveryResult::Retry(error.to_string()),
    }
}

impl AwaitAcknowledged {
    /// Go on with the next sequence, up to the cycle's bound.
    pub fn on_acknowledged(self, reply: Result<(), AppError>) -> (step: SendStep)
        ensures
            match reply {
                Err(error) => retries_with(step, false, error_text(error@)),
                Ok(_) => step == if self.sending.seq == u64::MAX || self.sending.sent
                    >= MAX_EVENTS_PER_CYCLE {
                    progressed()
                } else {
                    next_event(
                        Sending {
                            seq: (self.sending.seq + 1) as u64,
                            sent: (self.sending.sent + 1) as u32,
                            ..self.sending
                        },
                    )
                },
            },
    {
        if let Err(error) = reply {
            return retry_error(error);
        }
        let mut sending = self.sending;
        let next: u64 = match sending.seq.checked_add(1) {
            Some(next) => next,
            None => {
                return SendStep::Done { dispatch: false, result: DeliveryResult::Progress };
            },
        };
        if sending.sent >= MAX_EVENTS_PER_CYCLE {
            return SendStep::Done { dispatch: false, result: DeliveryResult::Progress };
        }
        sending.sent = sending.sent + 1;
        sending.seq = next;
        if sending.sent >= MAX_EVENTS_PER_CYCLE {
            return SendStep::Done { dispatch: false, result: DeliveryResult::Progress };
        }
        SendStep::AskEvent {
            message: StoreMsg::OutboundEventAtOrAfter { id: sending.task, seq: sending.seq },
            next: AwaitEvent { sending },
        }
    }
}

/// A cycle ends: an answer that keeps it going adds a sequence to those that were asked for,
/// and none is asked for twice, while an acknowledgement adds to the sent events up to their
/// bound.
pub proof fn every_answer_makes_progress(
    sending: Sending,
    response: EventAcceptance,
    dispatch: bool,
    step: SendStep,
)
    requires
        answered(sending, response, dispatch, step),
        sending.requested@.no_duplicates(),
    ensures
        step matches SendStep::AskEvent { next, .. } ==> {
            &&& next.sending.requested@.no_duplicates()
            &&& next.sending.requested@.len() == sending.requested@.len() + 1
            &&& next.sending.seq <= sending.seq
        },
        step is AskEvent || step is AskAcknowledge || step is Done,
{
}

/// The origin's answer to one event, as it is sent.
#[derive(Debug, Clone, Copy, PartialEq, Eq, Structural)]
pub struct EventReply {
    pub api_version: u32,
    pub protocol_version: u32,
    pub result: EventAcceptance,
}

/// The error that an origin answered with.
#[derive(Debug)]
pub struct ErrorDetail {
    pub code: String,
    /// Task that the error's input names, if it is a text.
    pub task: Option<String>,
}

/// What a successful answer comes to.
pub open spec fn accepts(
    body: Result<EventReply, String>,
    protocol: u32,
    result: RemoteResult,
) -> bool {
    match body {
        Err(error) => result matches RemoteResult::Retry(text) && text@
            == "invalid origin acknowledgement: "@ + error@,
        Ok(reply) => if reply.api_version != API_VERSION {
            result matches RemoteResult::Retry(text) && text@ == "origin API response differs"@
        } else if reply.protocol_version != protocol {
            result matches RemoteResult::Retry(text) && text@ == "origin protocol response differs"@
        } else {
            result == RemoteResult::Accepted(reply.result)
        },
    }
}

/// Check a successful answer; `body` is its typed parse or the parser's error text.
pub fn origin_accepted(body: Result<EventReply, String>, protocol: u32) -> (result: RemoteResult)
    ensures
        accepts(body, protocol, result),
{
    let reply = match body {
        Ok(reply) => reply,
        Err(error) => {
            return RemoteResult::Retry(
                join2("invalid origin acknowledgement: ", error.as_str()),
            );
        },
    };
    if reply.api_version != API_VERSION {
        return RemoteResult::Retry("origin API response differs".to_owned());
    }
    if reply.protocol_version != protocol {
        return RemoteResult::Retry("origin protocol response differs".to_owned());
    }
    RemoteResult::Accepted(reply.result)
}

/// What an origin's refusal asks for.
#[derive(Debug)]
pub enum RefusalStep {
    /// The route is gone unless the origin changed: verify its identity and boot.
    Verify,
    /// Probe the address again where `probe` says so, and put the task off.
    Retry { probe: bool, reason: String },
}

/// Whether an error reports the route of `task` as missing.
pub open spec fn route_missing(status: u16, detail: ErrorDetail, task: TaskId) -> bool {
    status == 404 && detail.code@ == "route_not_found"@ && (detail.task matches Some(text) && text@
        == hyphenated(task.0))
}

/// What a refusal with this status and detail comes to.
pub open spec fn classifies(
    status: u16,
    detail: Option<ErrorDetail>,
    task: TaskId,
    step: RefusalStep,
) -> bool {
    match detail {
        None => step matches RefusalStep::Retry { probe, reason } && !probe && reason@
            == "origin returned HTTP "@ + http_status_text(status),
        Some(detail) => if detail.code@ == "machine_identity_mismatch"@ {
            step matches RefusalStep::Retry { probe, reason } && probe && reason@
                == "origin address changed identity"@
        } else if route_missing(status, detail, task) {
            step is Verify
        } else {
            step matches RefusalStep::Retry { probe, reason } && !probe && reason@
                == "origin returned "@ + http_status_text(status) + ": "@ + detail.code@
        },
    }
}

/// Classify an origin's refusal; `detail` is nothing when its body is no error body.
pub fn classify_error(status: HttpStatus, detail: Option<ErrorDetail>, task: TaskId) -> (step:
    RefusalStep)
    ensures
        classifies(status.number(), detail, task, step),
{
    let text = status.text();
    let detail = match detail {
        Some(detail) => detail,
        None => {
            return RefusalStep::Retry {
                probe: false,
                reason: join2("origin returned HTTP ", text.as_str()),
            };
        },
    };
    if same_text(detail.code.as_str(), "machine_identity_mismatch") {
        return RefusalStep::Retry {
            probe: true,
            reason: "origin address changed identity".to_owned(),
        };
    }
    let uuid = task.text();
    let names_task = match &detail.task {
        Some(named) => same_text(named.as_str(), uuid.as_str()),
        None => false,
    };
    if status.code() == 404 && same_text(detail.code.as_str(), "route_not_found") && names_task {
        return RefusalStep::Verify;
    }
    let head = join3("origin returned ", text.as_str(), ": ");
    RefusalStep::Retry { probe: false, reason: join2(head.as_str(), detail.code.as_str()) }
}

/// What came back for one posted event.
#[derive(Debug)]
pub enum OriginResponse {
    /// The request failed; the text says why.
    Unreachable(String),
    /// An answer: `reply` is its body read as an acknowledgement, or the parser's error text,
    /// and `detail` its body read as an error, if it is one.
    Answered { status: HttpStatus, reply: Result<EventReply, String>, detail: Option<ErrorDetail> },
}

/// Next part of one remote send.
#[derive(Debug)]
pub enum RemoteStep {
    /// Verify the identity and boot of the address, which is to be this machine's.
    Verify { origin: MachineId },
    /// Probe the address again, then end with this reason.
    Probe { reason: String },
    Done(RemoteResult),
}

/// Waiting for the origin's answer to one event.
#[derive(Debug, Clone, Copy, PartialEq, Eq, Structural)]
pub struct AwaitOrigin {
    pub task: TaskId,
    pub origin: MachineId,
    pub protocol: u32,
}

/// Send one event to its origin over a verified connection: what is posted to the origin's
/// event receiver, and what waits for the answer.
pub fn send_remote(event: TaskEvent, protocol: u32) -> (sent: (ReceiveEvent, AwaitOrigin))
    ensures
        sent == (
            (ReceiveEvent {
                api_version: API_VERSION,
                protocol_version: protocol,
                destination_machine: event.origin_machine,
                event,
            }),
            (AwaitOrigin { task: event.task, origin: event.origin_machine, protocol }),
        ),
{
    let next = AwaitOrigin { task: event.task, origin: event.origin_machine, protocol };
    let request = ReceiveEvent {
        api_version: API_VERSION,
        protocol_version: protocol,
        destination_machine: event.origin_machine,
        event,
    };
    (request, next)
}

/// What follows a refusal's classification.
pub open spec fn refused(refusal: RefusalStep, origin: MachineId) -> RemoteStep {
    match refusal {
        RefusalStep::Verify => RemoteStep::Verify { origin },
        RefusalStep::Retry { probe, reason } => if probe {
            RemoteStep::Probe { reason }
        } else {
            RemoteStep::Done(RemoteResult::Retry(reason))
        },
    }
}

fn refusal_step(refusal: RefusalStep, origin: MachineId) -> (step: RemoteStep)
    ensures
        step == refused(refusal, origin),
{
    match refusal {
        RefusalStep::Verify => RemoteStep::Verify { origin },
        RefusalStep::Retry { probe, reason } => {
            if probe {
                RemoteStep::Probe { reason }
            } else {
                RemoteStep::Done(RemoteResult::Retry(reason))
            }
        },
    }
}

impl AwaitOrigin {
    /// Only a status of 200 acknowledges the event. A failed request and a refusal put the task
    /// off, unless the refusal says that the route is gone; no answer alone orphans the route.
    pub fn on_response(self, response: OriginResponse) -> (step: RemoteStep)
        ensures
            match response {
                OriginResponse::Unreachable(text) => step == RemoteStep::Done(
                    RemoteResult::Retry(text),
                ),
                OriginResponse::Answered { status, reply, detail } => if status.number() == 200 {
                    step matches RemoteStep::Done(result) && accepts(reply, self.protocol, result)
                } else {
                    exists|refusal: RefusalStep| #[trigger]
                        classifies(status.number(), detail, self.task, refusal) && step == refused(
                            refusal,
                            self.origin,
                        )
                },
            },
            step != RemoteStep::Done(RemoteResult::Orphaned),
    {
        match response {
            OriginResponse::Unreachable(text) => RemoteStep::Done(RemoteResult::Retry(text)),
            OriginResponse::Answered { status, reply, detail } => {
                if status.is_ok() {
                    RemoteStep::Done(origin_accepted(reply, self.protocol))
                } else {
                    let refusal = classify_error(status, detail, self.task);
                    refusal_step(refusal, self.origin)
                }
            },
        }
    }

    /// Only the same boot of the same machine proves that the route is gone. Any other outcome
    /// probes the address again.
    ///
    /// `verified` is the boot that the event was sent to, and `current` the one that the address
    /// has now, if it still is the machine.
    pub fn on_verified(self, verified: &str, current: Option<&str>) -> (step: RemoteStep)
        ensures
            if slice_text(current) == Some(verified@) {
                step == RemoteStep::Done(RemoteResult::Orphaned)
            } else {
                step matches RemoteStep::Probe { reason } && reason@
                    == "origin identity changed during route check"@
            },
    {
        if let Some(current) = current {
            if same_text(current, verified) {
                return RemoteStep::Done(RemoteResult::Orphaned);
            }
        }
        RemoteStep::Probe { reason: "origin identity changed during route check".to_owned() }
    }
}

} // verus!
