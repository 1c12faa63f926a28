//! Ordered delivery of an origin's callback inbox.
//!
//! One worker drains one task's inbox in sequence. A waiting thread is woken at most once
//! per interval, and people are told once about a thread that cannot be woken.

use std::collections::{HashMap, HashSet};

use vstd::prelude::*;

use crate::actors::store::StoreMsg;
use crate::error::{error_text, internal, AppError, ErrorView};
use crate::events::{DeliveryOutcome, DeliveryState, EventPayload, InboxEvent, TaskEvent};
use crate::ids::{TaskId, ThreadId};
use crate::submission::{CallbackContext, OriginRoute};
use crate::text::{join2, join3};
use crate::time::{Span, Tick};

verus! {

broadcast use vstd::std_specs::hash::group_hash_axioms;

/// Seconds between two checks of the waiting inboxes.
pub const WAITING_RETRY_SECS: u64 = 30;

/// Seconds before one thread may be woken again.
pub const WAKE_INTERVAL_SECS: u64 = 300;

/// Queue attempts of one event before it fails for good.
pub const ATTEMPT_BUDGET: u8 = 3;

/// Messages of the callback actor.
#[derive(Debug)]
pub enum CallbackMsg {
    /// Start or join the one ordered origin inbox worker for the task.
    DispatchInbox { id: TaskId },
    /// Retry the earliest waiting event for each task.
    RetryWaiting,
    /// One inbox worker ended; check for a receive that raced with its exit.
    InboxFinished { id: TaskId, completed: bool },
    /// Claim one wake before a worker starts the blocking wake.
    ClaimWake { thread: ThreadId },
    /// A settled waiting event followed a real failed wake.
    WakeFailed { thread: ThreadId, event: TaskEvent, reason: String },
    /// Clear the alert after the event reaches its origin thread.
    Delivered { thread: ThreadId },
}

/// Startup inputs of the callback actor.
#[derive(Debug)]
pub struct CallbackArgs {
    pub home: String,
    /// Name shown in waiting-thread notices.
    pub machine_name: String,
}

/// Owns callback transport for the daemon.
#[derive(Debug, Clone, Copy, PartialEq, Eq, Structural)]
pub struct CallbackActor;

/// Wakes, alerts and active workers of the callback actor.
#[derive(Debug)]
pub struct CallbackState {
    machine_name: String,
    wake_times: HashMap<u128, Tick>,
    alerted_threads: HashSet<u128>,
    active_inbox: HashSet<u128>,
}

/// The content of a [`CallbackState`].
#[verifier::ext_equal]
pub struct CallbackView {
    /// Clock reading of each thread's last claimed wake.
    pub wakes: Map<u128, Tick>,
    /// Threads that people were told about.
    pub alerted: Set<u128>,
    /// Tasks with a running inbox worker.
    pub active: Set<u128>,
}

impl View for CallbackState {
    type V = CallbackView;

    closed spec fn view(&self) -> CallbackView {
        CallbackView {
            wakes: self.wake_times@,
            alerted: self.alerted_threads@,
            active: self.active_inbox@,
        }
    }
}

/// Nanoseconds before one thread may be woken again.
pub open spec fn wake_interval() -> int {
    300_000_000_000
}

/// Whether a thread's last claimed wake is recent.
///
/// A clock reading before the last wake counts as no time passed.
pub open spec fn recently_woken(wakes: Map<u128, Tick>, thread: ThreadId, now: Tick) -> bool {
    wakes.contains_key(thread.0) && now.nanos < wakes[thread.0].nanos + wake_interval()
}

/// Whether people are told when a thread cannot be woken: only the first time.
pub open spec fn tells(alerted: Set<u128>, thread: ThreadId) -> bool {
    !alerted.contains(thread.0)
}

/// What one message of the callback actor asks for.
#[derive(Debug)]
pub enum CallbackStep {
    /// Hand the earliest event to [`CallbackState::on_earliest`].
    AskEarliest { id: TaskId, message: StoreMsg },
    /// Handle [`CallbackMsg::DispatchInbox`] for each waiting task in order.
    AskWaiting { message: StoreMsg },
    /// Answer whether the wake was claimed.
    Claimed(bool),
    /// Tell people about a thread that cannot be woken.
    Alert { thread: ThreadId, event: TaskEvent, reason: String },
    Nothing,
}

/// The question before a worker starts on a task that has none.
pub open spec fn worker_question(active: Set<u128>, id: TaskId) -> CallbackStep {
    if active.contains(id.0) {
        CallbackStep::Nothing
    } else {
        CallbackStep::AskEarliest { id, message: StoreMsg::EarliestInbox { id } }
    }
}

/// What a message makes of the actor's state, and what it asks for.
pub open spec fn callback_after(before: CallbackView, message: CallbackMsg, now: Tick) -> (
    CallbackView,
    CallbackStep,
) {
    match message {
        CallbackMsg::DispatchInbox { id } => (before, worker_question(before.active, id)),
        CallbackMsg::RetryWaiting => (
            before,
            CallbackStep::AskWaiting { message: StoreMsg::WaitingInboxTasks },
        ),
        CallbackMsg::InboxFinished { id, completed } => (
            CallbackView { active: before.active.remove(id.0), ..before },
            if completed {
                CallbackStep::AskEarliest { id, message: StoreMsg::EarliestInbox { id } }
            } else {
                CallbackStep::Nothing
            },
        ),
        CallbackMsg::ClaimWake { thread } => {
            let recent = recently_woken(before.wakes, thread, now);
            (
                if recent {
                    before
                } else {
                    CallbackView { wakes: before.wakes.insert(thread.0, now), ..before }
                },
                CallbackStep::Claimed(!recent),
            )
        },
        CallbackMsg::WakeFailed { thread, event, reason } => (
            CallbackView { alerted: before.alerted.insert(thread.0), ..before },
            if tells(before.alerted, thread) {
                CallbackStep::Alert { thread, event, reason }
            } else {
                CallbackStep::Nothing
            },
        ),
        CallbackMsg::Delivered { thread } => (
            CallbackView { alerted: before.alerted.remove(thread.0), ..before },
            CallbackStep::Nothing,
        ),
    }
}

/// A push notice.
#[derive(Debug)]
pub struct Notice {
    pub title: String,
    pub message: String,
    pub tag: String,
    /// Whether the notice is urgent.
    pub high_priority: bool,
}

impl CallbackState {
    /// The actor's name for this machine, as notices show it.
    pub closed spec fn machine(self) -> Seq<char> {
        self.machine_name@
    }

    /// No wake, alert or worker yet.
    pub fn new(machine_name: String) -> (state: CallbackState)
        ensures
            state@ == (CallbackView {
                wakes: Map::empty(),
                alerted: Set::empty(),
                active: Set::empty(),
            }),
            state.machine() == machine_name@,
    {
        CallbackState {
            machine_name,
            wake_times: HashMap::new(),
            alerted_threads: HashSet::new(),
            active_inbox: HashSet::new(),
        }
    }

    /// Claim one wake of a thread, unless it was woken recently.
    pub fn claim_wake(&mut self, thread: ThreadId, now: Tick) -> (claimed: bool)
        ensures
            claimed == !recently_woken(old(self)@.wakes, thread, now),
            final(self)@ == if claimed {
                CallbackView {
                    wakes: old(self)@.wakes.insert(thread.0, now),
                    ..old(self)@
                }
            } else {
                old(self)@
            },
            final(self).machine() == old(self).machine(),
    {
        if let Some(last) = self.wake_times.get(&thread.0) {
            let interval = Span::from_secs(WAKE_INTERVAL_SECS);
            if now.nanos < last.nanos || now.nanos - last.nanos < interval.nanos {
                return false;
            }
        }
        self.wake_times.insert(thread.0, now);
        true
    }

    /// Remember that a thread could not be woken; people are told only the first time.
    pub fn alert_after_failed_wake(&mut self, thread: ThreadId) -> (tell: bool)
        ensures
            tell == tells(old(self)@.alerted, thread),
            final(self)@ == (CallbackView {
                alerted: old(self)@.alerted.insert(thread.0),
                ..old(self)@
            }),
            final(self).machine() == old(self).machine(),
    {
        self.alerted_threads.insert(thread.0)
    }

    /// Clear the alert of a thread that received an event.
    pub fn delivered(&mut self, thread: ThreadId)
        ensures
            final(self)@ == (CallbackView {
                alerted: old(self)@.alerted.remove(thread.0),
                ..old(self)@
            }),
            final(self).machine() == old(self).machine(),
    {
        self.alerted_threads.remove(&thread.0);
    }

    /// Whether people were told about a thread.
    pub fn is_alerted(&self, thread: ThreadId) -> (alerted: bool)
        ensures
            alerted == self@.alerted.contains(thread.0),
    {
        self.alerted_threads.contains(&thread.0)
    }

    /// The question before an inbox worker starts, or nothing when the task has one.
    pub fn start_inbox_worker(&self, id: TaskId) -> (step: CallbackStep)
        ensures
            step == worker_question(self@.active, id),
    {
        if self.active_inbox.contains(&id.0) {
            return CallbackStep::Nothing;
        }
        CallbackStep::AskEarliest { id, message: StoreMsg::EarliestInbox { id } }
    }

    /// Start a worker only when the earliest event still needs delivery.
    pub fn on_earliest(&mut self, id: TaskId, first: &Option<InboxEvent>) -> (start: bool)
        ensures
            start == (*first matches Some(entry) && is_unsettled(entry.delivery)),
            final(self)@ == if start {
                CallbackView { active: old(self)@.active.insert(id.0), ..old(self)@ }
            } else {
                old(self)@
            },
            final(self).machine() == old(self).machine(),
    {
        let start = match first {
            Some(entry) => unsettled(&entry.delivery),
            None => false,
        };
        if start {
            self.active_inbox.insert(id.0);
        }
        start
    }

    /// Take one message: what it changes at once, and what it asks for.
    ///
    /// A completed worker is checked for an event that raced with its end.
    pub fn handle(&mut self, message: CallbackMsg, now: Tick) -> (step: CallbackStep)
        ensures
            (final(self)@, step) == callback_after(old(self)@, message, now),
            final(self).machine() == old(self).machine(),
            match message {
                CallbackMsg::DispatchInbox { id } => {
                    &&& final(self)@ == old(self)@
                    &&& step == worker_question(old(self)@.active, id)
                },
                CallbackMsg::RetryWaiting => {
                    &&& final(self)@ == old(self)@
                    &&& step == (CallbackStep::AskWaiting { message: StoreMsg::WaitingInboxTasks })
                },
                CallbackMsg::InboxFinished { id, completed } => {
                    &&& final(self)@ == (CallbackView {
                        active: old(self)@.active.remove(id.0),
                        ..old(self)@
                    })
                    &&& step == if completed {
                        CallbackStep::AskEarliest { id, message: StoreMsg::EarliestInbox { id } }
                    } else {
                        CallbackStep::Nothing
                    }
                },
                CallbackMsg::ClaimWake { thread } => {
                    &&& step == CallbackStep::Claimed(
                        !recently_woken(old(self)@.wakes, thread, now),
                    )
                    &&& final(self)@ == if recently_woken(old(self)@.wakes, thread, now) {
                        old(self)@
                    } else {
                        CallbackView { wakes: old(self)@.wakes.insert(thread.0, now), ..old(self)@ }
                    }
                },
                CallbackMsg::WakeFailed { thread, event, reason } => {
                    &&& final(self)@ == (CallbackView {
                        alerted: old(self)@.alerted.insert(thread.0),
                        ..old(self)@
                    })
                    &&& step == if tells(old(self)@.alerted, thread) {
                        CallbackStep::Alert { thread, event, reason }
                    } else {
                        CallbackStep::Nothing
                    }
                },
                CallbackMsg::Delivered { thread } => {
                    &&& final(self)@ == (CallbackView {
                        alerted: old(self)@.alerted.remove(thread.0),
                        ..old(self)@
                    })
                    &&& step == CallbackStep::Nothing
                },
            },
    {
        match message {
            CallbackMsg::DispatchInbox { id } => self.start_inbox_worker(id),
            CallbackMsg::RetryWaiting => CallbackStep::AskWaiting {
                message: StoreMsg::WaitingInboxTasks,
            },
            CallbackMsg::InboxFinished { id, completed } => {
                self.active_inbox.remove(&id.0);
                if completed {
                    self.start_inbox_worker(id)
                } else {
                    CallbackStep::Nothing
                }
            },
            CallbackMsg::ClaimWake { thread } => CallbackStep::Claimed(
                self.claim_wake(thread, now),
            ),
            CallbackMsg::WakeFailed { thread, event, reason } => {
                if self.alert_after_failed_wake(thread) {
                    CallbackStep::Alert { thread, event, reason }
                } else {
                    CallbackStep::Nothing
                }
            },
            CallbackMsg::Delivered { thread } => {
                self.delivered(thread);
                CallbackStep::Nothing
            },
        }
    }

    /// The notice about a waiting thread, for an event with a callback.
    ///
    /// `title` is the thread's title, or its identity when it has none.
    pub fn waiting_notice(&self, title: &str, event: &TaskEvent, reason: &str) -> (notice: Option<
        Notice,
    >)
        ensures
            match event.payload {
                EventPayload::State { .. } => notice is None,
                EventPayload::Callback { kind, display_name, .. } => {
                    &&& notice matches Some(notice)
                    &&& notice.title@ == "Thread needs you: "@ + title@
                    &&& notice.message@ == display_name@ + " ("@ + kind@ + (") is waiting on "@
                        + self.machine() + ": "@) + (reason@
                        + ". Open the thread to receive it."@)
                    &&& notice.tag@ == "hourglass"@
                    &&& notice.high_priority
                },
            },
    {
        match &event.payload {
            EventPayload::State { .. } => None,
            EventPayload::Callback { kind, display_name, .. } => {
                let who = join3(display_name.as_str(), " (", kind.as_str());
                let place = join3(") is waiting on ", self.machine_name.as_str(), ": ");
                let why = join2(reason, ". Open the thread to receive it.");
                Some(
                    Notice {
                        title: join2("Thread needs you: ", title),
                        message: join3(who.as_str(), place.as_str(), why.as_str()),
                        tag: "hourglass".to_owned(),
                        high_priority: true,
                    },
                )
            },
        }
    }
}

/// Whether an event still needs delivery.
pub open spec fn is_unsettled(delivery: DeliveryState) -> bool {
    delivery is PendingDelivery || delivery is AwaitingThread
}

/// Whether an event still needs delivery.
pub fn unsettled(delivery: &DeliveryState) -> (unsettled: bool)
    ensures
        unsettled == is_unsettled(*delivery),
{
    match delivery {
        DeliveryState::PendingDelivery { .. } | DeliveryState::AwaitingThread { .. } => true,
        _ => false,
    }
}

/// Between two claimed wakes of one thread at least the whole interval passes: right after
/// a claim, no reading before the interval's end claims again, and the first one after does.
pub proof fn wakes_keep_their_interval(
    before: Map<u128, Tick>,
    thread: ThreadId,
    first: Tick,
    second: Tick,
)
    requires
        !recently_woken(before, thread, first),
    ensures
        !recently_woken(before.insert(thread.0, first), thread, second) <==> second.nanos
            >= first.nanos + wake_interval(),
{
}

/// People hear about a thread once until it receives an event: after an alert nothing that
/// happens to any other thread, nor another failed wake of the same one, makes them hear
/// again, and only the thread's own delivery does.
pub proof fn alerts_repeat_only_after_delivery(
    alerted: Set<u128>,
    thread: ThreadId,
    other: ThreadId,
)
    ensures
        !tells(alerted.insert(thread.0), thread),
        !tells(alerted, thread) ==> !tells(alerted.insert(other.0), thread),
        !tells(alerted, thread) ==> (tells(alerted.remove(other.0), thread) <==> other == thread),
{
}

/// Result of one queue attempt.
#[derive(Debug)]
pub enum AttemptResult {
    Delivered,
    /// The thread is not there to receive the event.
    Deferred { reason: String, wake_failed: bool },
}

/// Next part of draining one inbox.
#[derive(Debug)]
pub enum InboxStep {
    AskEarliest { message: StoreMsg, next: AwaitEarliest },
    AskRoute { message: StoreMsg, next: AwaitRoute },
    /// Check that the saved callback can run at all.
    CheckCallback { next: AwaitChecked },
    /// Prepare the task's files, for the delivery lock.
    PrepareTask { next: AwaitPrepared },
    AskReserve { message: StoreMsg, next: AwaitReserved },
    /// Look up the thread that the attempt goes to.
    PrepareAttempt { next: AwaitAttempt },
    /// Ask the callback actor for a wake of the thread.
    ClaimWake { thread: ThreadId, next: AwaitClaim },
    /// Send the line, waking the thread only under a claimed wake.
    Send { line: String, wake_claimed: bool, next: AwaitSent },
    AskSettle { message: StoreMsg, next: AwaitSettled },
    /// Perform the effects, sleep, and start over.
    Again { effects: SettledEffects, sleep: Span },
    /// Perform the effects and end; `completed` tells whether nothing was left.
    Done { effects: SettledEffects, result: Result<bool, AppError> },
}

/// What a settled attempt asks for.
#[derive(Debug)]
pub struct SettledEffects {
    /// Line and error for the fallback log.
    pub fallback: Option<(String, String)>,
    /// Thread that received the event.
    pub delivered: Option<ThreadId>,
    /// Thread that waits, with its event, after a failed wake.
    pub wake_failed: Option<(ThreadId, TaskEvent, String)>,
}

/// No effect.
pub open spec fn nothing_settled() -> SettledEffects {
    SettledEffects { fallback: None, delivered: None, wake_failed: None }
}

fn no_settled_effects() -> (effects: SettledEffects)
    ensures
        effects == nothing_settled(),
{
    SettledEffects { fallback: None, delivered: None, wake_failed: None }
}

/// The end of a drain without effects.
pub open spec fn drained(result: Result<bool, AppError>) -> InboxStep {
    InboxStep::Done { effects: nothing_settled(), result }
}

fn end_drain(result: Result<bool, AppError>) -> (step: InboxStep)
    ensures
        step == drained(result),
{
    InboxStep::Done { effects: no_settled_effects(), result }
}

/// Waiting for the earliest event.
#[derive(Debug, Clone, Copy, PartialEq, Eq, Structural)]
pub struct AwaitEarliest {
    pub id: TaskId,
}

/// Waiting for the saved origin route.
#[derive(Debug)]
pub struct AwaitRoute {
    pub id: TaskId,
    pub event: TaskEvent,
    pub attempts: u8,
    pub last_error: Option<String>,
}

/// One event with the saved route it is delivered by.
#[derive(Debug)]
pub struct Delivery {
    pub id: TaskId,
    pub event: TaskEvent,
    pub attempts: u8,
    pub thread: ThreadId,
    pub context: CallbackContext,
}

/// Waiting for the check of the saved callback.
#[derive(Debug)]
pub struct AwaitChecked {
    pub delivery: Delivery,
}

/// Waiting for the task's files.
#[derive(Debug)]
pub struct AwaitPrepared {
    pub delivery: Delivery,
}

/// Waiting for the reserved attempt.
#[derive(Debug)]
pub struct AwaitReserved {
    pub delivery: Delivery,
}

/// Waiting for the thread lookup of an attempt.
#[derive(Debug)]
pub struct AwaitAttempt {
    pub delivery: Delivery,
    pub line: String,
}

/// Waiting for a claimed wake.
#[derive(Debug)]
pub struct AwaitClaim {
    pub delivery: Delivery,
    pub line: String,
}

/// Waiting for the result of an attempt.
#[derive(Debug)]
pub struct AwaitSent {
    pub delivery: Delivery,
}

/// Waiting for the settled attempt.
#[derive(Debug)]
pub struct AwaitSettled {
    pub attempts: u8,
    pub thread: ThreadId,
    /// Reason of a wake that failed in this attempt.
    pub failed_wake: Option<String>,
}

/// Drain one task's inbox in sequence using only its saved origin route.
pub fn dispatch_inbox_with(id: TaskId) -> (step: InboxStep)
    ensures
        step == (InboxStep::AskEarliest {
            message: StoreMsg::EarliestInbox { id },
            next: AwaitEarliest { id },
        }),
{
    InboxStep::AskEarliest { message: StoreMsg::EarliestInbox { id }, next: AwaitEarliest { id } }
}

/// The question for the route of an event that needs delivery.
pub open spec fn route_question(
    id: TaskId,
    event: TaskEvent,
    attempts: u8,
    last_error: Option<String>,
) -> InboxStep {
    InboxStep::AskRoute {
        message: StoreMsg::OriginRoute { id },
        next: AwaitRoute { id, event, attempts, last_error },
    }
}

impl AwaitEarliest {
    /// Nothing is left when the earliest event is settled.
    pub fn on_earliest(self, reply: Result<Option<InboxEvent>, AppError>) -> (step: InboxStep)
        ensures
            step == (match reply {
                Err(error) => drained(Err(error)),
                Ok(None) => drained(Ok(true)),
                Ok(Some(entry)) => match entry.delivery {
                    DeliveryState::PendingDelivery { attempts, last_error } => route_question(
                        self.id,
                        entry.event,
                        attempts,
                        last_error,
                    ),
                    DeliveryState::AwaitingThread { attempts, reason } => route_question(
                        self.id,
                        entry.event,
                        attempts,
                        Some(reason),
                    ),
                    _ => drained(Ok(true)),
                },
            }),
    {
        let entry = match reply {
            Err(error) => {
                return end_drain(Err(error));
            },
            Ok(None) => {
                return end_drain(Ok(true));
            },
            Ok(Some(entry)) => entry,
        };
        let (attempts, last_error) = match entry.delivery {
            DeliveryState::PendingDelivery { attempts, last_error } => (attempts, last_error),
            DeliveryState::AwaitingThread { attempts, reason } => (attempts, Some(reason)),
            _ => {
                return end_drain(Ok(true));
            },
        };
        InboxStep::AskRoute {
            message: StoreMsg::OriginRoute { id: self.id },
            next: AwaitRoute { id: self.id, event: entry.event, attempts, last_error },
        }
    }
}

/// The question that settles an attempt.
pub open spec fn settle_question(
    id: TaskId,
    seq: u64,
    outcome: DeliveryOutcome,
    attempts: u8,
    thread: ThreadId,
    failed_wake: Option<String>,
) -> InboxStep {
    InboxStep::AskSettle {
        message: StoreMsg::SettleInboxAttempt { id, seq, outcome },
        next: AwaitSettled { attempts, thread, failed_wake },
    }
}

/// Whether a step settles an attempt as permanently failed with this text.
pub open spec fn settles_permanent(
    step: InboxStep,
    id: TaskId,
    seq: u64,
    attempts: u8,
    thread: ThreadId,
    text: Seq<char>,
) -> bool {
    &&& step matches InboxStep::AskSettle { message, next }
    &&& message matches StoreMsg::SettleInboxAttempt { id: found_id, seq: found_seq, outcome }
    &&& outcome matches DeliveryOutcome::Permanent(reason)
    &&& found_id == id
    &&& found_seq == seq
    &&& reason@ == text
    &&& next == (AwaitSettled { attempts, thread, failed_wake: None })
}

/// Why an event fails whose attempts were used up.
pub open spec fn exhausted(last_error: Option<String>) -> Seq<char> {
    match last_error {
        Some(error) => error@,
        None => "queue attempt budget exhausted after daemon restart"@,
    }
}

impl AwaitRoute {
    /// An event whose attempts are used up fails for good without another attempt.
    pub fn on_route(self, reply: Result<Option<OriginRoute>, AppError>) -> (step: InboxStep)
        ensures
            match reply {
                Err(error) => step == drained(Err(error)),
                Ok(None) => step == drained(Err(AppError::RouteNotFound { task: self.id })),
                Ok(Some(route)) => if self.attempts >= ATTEMPT_BUDGET {
                    settles_permanent(
                        step,
                        self.id,
                        self.event.seq,
                        self.attempts,
                        route.thread,
                        exhausted(self.last_error),
                    )
                } else {
                    step == (InboxStep::CheckCallback {
                        next: AwaitChecked {
                            delivery: Delivery {
                                id: self.id,
                                event: self.event,
                                attempts: self.attempts,
                                thread: route.thread,
                                context: route.callback,
                            },
                        },
                    })
                },
            },
    {
        let route = match reply {
            Err(error) => {
                return end_drain(Err(error));
            },
            Ok(None) => {
                return end_drain(Err(AppError::RouteNotFound { task: self.id }));
            },
            Ok(Some(route)) => route,
        };
        if self.attempts >= ATTEMPT_BUDGET {
            let reason = match self.last_error {
                Some(error) => error,
                None => "queue attempt budget exhausted after daemon restart".to_owned(),
            };
            return InboxStep::AskSettle {
                message: StoreMsg::SettleInboxAttempt {
                    id: self.id,
                    seq: self.event.seq,
                    outcome: DeliveryOutcome::Permanent(reason),
                },
                next: AwaitSettled {
                    attempts: self.attempts,
                    thread: route.thread,
                    failed_wake: None,
                },
            };
        }
        InboxStep::CheckCallback {
            next: AwaitChecked {
                delivery: Delivery {
                    id: self.id,
                    event: self.event,
                    attempts: self.attempts,
                    thread: route.thread,
                    context: route.callback,
                },
            },
        }
    }
}

impl Delivery {
    /// The question that settles this delivery.
    pub open spec fn settled_by(
        self,
        outcome: DeliveryOutcome,
        failed_wake: Option<String>,
    ) -> InboxStep {
        settle_question(
            self.id,
            self.event.seq,
            outcome,
            self.attempts,
            self.thread,
            failed_wake,
        )
    }

    fn settle(self, outcome: DeliveryOutcome, failed_wake: Option<String>) -> (step: InboxStep)
        ensures
            step == self.settled_by(outcome, failed_wake),
    {
        InboxStep::AskSettle {
            message: StoreMsg::SettleInboxAttempt { id: self.id, seq: self.event.seq, outcome },
            next: AwaitSettled { attempts: self.attempts, thread: self.thread, failed_wake },
        }
    }
}

impl AwaitChecked {
    /// A callback that cannot run fails its event for good.
    pub fn on_checked(self, checked: Result<(), String>) -> (step: InboxStep)
        ensures
            step == (match checked {
                Err(error) => self.delivery.settled_by(DeliveryOutcome::Permanent(error), None),
                Ok(_) => InboxStep::PrepareTask {
                    next: AwaitPrepared { delivery: self.delivery },
                },
            }),
    {
        match checked {
            Err(error) => self.delivery.settle(DeliveryOutcome::Permanent(error), None),
            Ok(_) => InboxStep::PrepareTask { next: AwaitPrepared { delivery: self.delivery } },
        }
    }
}

impl AwaitPrepared {
    /// Reserve an attempt only when it can be made.
    pub fn on_prepared(self, prepared: Result<(), AppError>) -> (step: InboxStep)
        ensures
            match prepared {
                Err(error) => settles_permanent(
                    step,
                    self.delivery.id,
                    self.delivery.event.seq,
                    self.delivery.attempts,
                    self.delivery.thread,
                    "prepare callback delivery lock: "@ + error_text(error@),
                ),
                Ok(_) => step == (InboxStep::AskReserve {
                    message: StoreMsg::ReserveInboxAttempt {
                        id: self.delivery.id,
                        seq: self.delivery.event.seq,
                    },
                    next: AwaitReserved { delivery: self.delivery },
                }),
            },
    {
        match prepared {
            Err(error) => {
                let text = error.to_string();
                let reason = join2("prepare callback delivery lock: ", text.as_str());
                self.delivery.settle(DeliveryOutcome::Permanent(reason), None)
            },
            Ok(_) => InboxStep::AskReserve {
                message: StoreMsg::ReserveInboxAttempt {
                    id: self.delivery.id,
                    seq: self.delivery.event.seq,
                },
                next: AwaitReserved { delivery: self.delivery },
            },
        }
    }
}

/// The callback line of an event, or the internal error of one that has none.
pub open spec fn callback_line(event: TaskEvent) -> Option<String> {
    match event.payload {
        EventPayload::State { .. } => None,
        EventPayload::Callback { line, .. } => Some(line),
    }
}

fn line_of(event: &TaskEvent) -> (line: Option<String>)
    ensures
        line == callback_line(*event),
{
    match &event.payload {
        EventPayload::State { .. } => None,
        EventPayload::Callback { line, .. } => Some(line.clone()),
    }
}

impl AwaitReserved {
    /// An attempt that another worker settled in between ends this worker.
    ///
    /// `reserved` tells whether the store reserved the attempt.
    pub fn on_reserved(self, reserved: Result<bool, AppError>) -> (step: InboxStep)
        ensures
            match reserved {
                Err(error) => step == drained(Err(error)),
                Ok(false) => step == drained(Ok(false)),
                Ok(true) => match callback_line(self.delivery.event) {
                    Some(line) => step == (InboxStep::PrepareAttempt {
                        next: AwaitAttempt { delivery: self.delivery, line },
                    }),
                    None => step matches InboxStep::Done { effects, result: Err(error) } && effects
                        == nothing_settled() && error@ == (ErrorView::Internal {
                        message: "pending inbox event has no callback payload"@,
                    }),
                },
            },
    {
        match reserved {
            Err(error) => end_drain(Err(error)),
            Ok(false) => end_drain(Ok(false)),
            Ok(true) => match line_of(&self.delivery.event) {
                Some(line) => InboxStep::PrepareAttempt {
                    next: AwaitAttempt { delivery: self.delivery, line },
                },
                None => end_drain(Err(internal("pending inbox event has no callback payload"))),
            },
        }
    }
}

impl AwaitAttempt {
    /// A lookup that failed is a failed attempt; a thread that must be woken needs a claim.
    ///
    /// The inner result tells whether the thread must be woken.
    pub fn on_prepared(self, prepared: Result<Result<bool, String>, AppError>) -> (step: InboxStep)
        ensures
            step == (match prepared {
                Err(error) => drained(Err(error)),
                Ok(Err(error)) => self.delivery.settled_by(
                    DeliveryOutcome::Retryable(error),
                    None,
                ),
                Ok(Ok(true)) => InboxStep::ClaimWake {
                    thread: self.delivery.thread,
                    next: AwaitClaim { delivery: self.delivery, line: self.line },
                },
                Ok(Ok(false)) => InboxStep::Send {
                    line: self.line,
                    wake_claimed: false,
                    next: AwaitSent { delivery: self.delivery },
                },
            }),
    {
        match prepared {
            Err(error) => end_drain(Err(error)),
            Ok(Err(error)) => self.delivery.settle(DeliveryOutcome::Retryable(error), None),
            Ok(Ok(true)) => InboxStep::ClaimWake {
                thread: self.delivery.thread,
                next: AwaitClaim { delivery: self.delivery, line: self.line },
            },
            Ok(Ok(false)) => InboxStep::Send {
                line: self.line,
                wake_claimed: false,
                next: AwaitSent { delivery: self.delivery },
            },
        }
    }
}

impl AwaitClaim {
    /// Wake the thread only under a granted claim.
    pub fn on_claimed(self, claimed: Result<bool, AppError>) -> (step: InboxStep)
        ensures
            step == (match claimed {
                Err(error) => drained(Err(error)),
                Ok(wake_claimed) => InboxStep::Send {
                    line: self.line,
                    wake_claimed,
                    next: AwaitSent { delivery: self.delivery },
                },
            }),
    {
        match claimed {
            Err(error) => end_drain(Err(error)),
            Ok(wake_claimed) => InboxStep::Send {
                line: self.line,
                wake_claimed,
                next: AwaitSent { delivery: self.delivery },
            },
        }
    }
}

impl AwaitSent {
    /// Settle what became of the attempt.
    pub fn on_sent(self, sent: Result<Result<AttemptResult, String>, AppError>) -> (step: InboxStep)
        ensures
            step == (match sent {
                Err(error) => drained(Err(error)),
                Ok(Err(error)) => self.delivery.settled_by(
                    DeliveryOutcome::Retryable(error),
                    None,
                ),
                Ok(Ok(AttemptResult::Delivered)) => self.delivery.settled_by(
                    DeliveryOutcome::Delivered,
                    None,
                ),
                Ok(Ok(AttemptResult::Deferred { reason, wake_failed })) => self.delivery.settled_by(
                    DeliveryOutcome::Deferred(reason),
                    if wake_failed {
                        Some(reason)
                    } else {
                        None
                    },
                ),
            }),
    {
        match sent {
            Err(error) => end_drain(Err(error)),
            Ok(Err(error)) => self.delivery.settle(DeliveryOutcome::Retryable(error), None),
            Ok(Ok(AttemptResult::Delivered)) => self.delivery.settle(
                DeliveryOutcome::Delivered,
                None,
            ),
            Ok(Ok(AttemptResult::Deferred { reason, wake_failed })) => {
                let failed_wake = if wake_failed {
                    Some(reason.clone())
                } else {
                    None
                };
                self.delivery.settle(DeliveryOutcome::Deferred(reason), failed_wake)
            },
        }
    }
}

/// Nanoseconds of the pause after a failed attempt.
pub open spec fn retry_pause(attempts: u8) -> int {
    200_000_000 * (attempts + 1)
}

impl AwaitSettled {
    /// What follows a settled attempt: a waiting thread ends the worker, anything else goes
    /// on with the earliest event.
    pub fn on_settled(self, reply: Result<InboxEvent, AppError>) -> (step: InboxStep)
        ensures
            match reply {
                Err(error) => step == drained(Err(error)),
                Ok(settled) => match settled.delivery {
                    DeliveryState::DeliveryFailed { last_error, .. } => match callback_line(
                        settled.event,
                    ) {
                        Some(line) => step == (InboxStep::Again {
                            effects: SettledEffects {
                                fallback: Some((line, last_error)),
                                ..nothing_settled()
                            },
                            sleep: Span { nanos: 0 },
                        }),
                        None => step matches InboxStep::Done { effects, result: Err(error) }
                            && effects == nothing_settled() && error@ == (ErrorView::Internal {
                            message: "failed inbox event has no callback payload"@,
                        }),
                    },
                    DeliveryState::Delivered { .. } => step == (InboxStep::Again {
                        effects: SettledEffects {
                            delivered: Some(self.thread),
                            ..nothing_settled()
                        },
                        sleep: Span { nanos: 0 },
                    }),
                    DeliveryState::AwaitingThread { .. } => step == (InboxStep::Done {
                        effects: SettledEffects {
                            wake_failed: match self.failed_wake {
                                Some(reason) => Some((self.thread, settled.event, reason)),
                                None => None,
                            },
                            ..nothing_settled()
                        },
                        result: Ok(false),
                    }),
                    DeliveryState::PendingDelivery { .. } => step matches InboxStep::Again {
                        effects,
                        sleep,
                    } && effects == nothing_settled() && sleep.nanos == retry_pause(self.attempts),
                    DeliveryState::NotRequired => step == (InboxStep::Again {
                        effects: nothing_settled(),
                        sleep: Span { nanos: 0 },
                    }),
                },
            },
    {
        let settled = match reply {
            Ok(settled) => settled,
            Err(error) => {
                return end_drain(Err(error));
            },
        };
        let mut effects = no_settled_effects();
        match settled.delivery {
            DeliveryState::DeliveryFailed { last_error, .. } => match line_of(&settled.event) {
                Some(line) => {
                    effects.fallback = Some((line, last_error));
                    InboxStep::Again { effects, sleep: Span { nanos: 0 } }
                },
                None => end_drain(Err(internal("failed inbox event has no callback payload"))),
            },
            DeliveryState::Delivered { .. } => {
                effects.delivered = Some(self.thread);
                InboxStep::Again { effects, sleep: Span { nanos: 0 } }
            },
            DeliveryState::AwaitingThread { .. } => {
                if let Some(reason) = self.failed_wake {
                    effects.wake_failed = Some((self.thread, settled.event, reason));
                }
                InboxStep::Done { effects, result: Ok(false) }
            },
            DeliveryState::PendingDelivery { .. } => {
                let millis: u64 = 200 * (self.attempts as u64 + 1);
                InboxStep::Again { effects, sleep: Span::from_millis(millis) }
            },
            DeliveryState::NotRequired => InboxStep::Again { effects, sleep: Span { nanos: 0 } },
        }
    }
}

} // verus!
