//! Fleet task inspection through the caller's local daemon.
//!
//! A lookup gathers what every machine retains of one task, and answers only from records
//! that agree about who owns it.

use vstd::prelude::*;
use vstd::string::StrSliceExecFns;

use crate::actors::store::StoreMsg;
use crate::cancellation::{
    owner_of_route, CancellationOwner, CancellationRefusal, CancellationRoute,
};
use crate::cluster::{
    identity_summary, origin_summary, safe_failures, summarize_failures, summarizes, summary_of,
    CallbackFailureSummary, ExecutionBody, ExecutionView, IdentitySummary, IdentitySummaryBody,
    OriginBody, OriginSummary,
};
use crate::domain::{copy_texts, optional_text, texts, ProcessStatus};
use crate::error::{AppError, ErrorView};
use crate::events::FailedInboxEvent;
use crate::fleet::{ClusterResponse, API_VERSION};
use crate::fleet_api::{MachinesBody, PeerView};
use crate::ids::{hyphenated, MachineId, TaskId, ThreadId};
use crate::json::{json_number_member, json_text_member, number_member, text_member};
use crate::submission::{BoundRoutePhase, ExecutorIdentity, OriginRoute, SubmissionState};
use crate::table::{has_machine, keys, with_entry, MachineTable};
use crate::text::{decimal, decimal_digits, join2, join3, same_text};

verus! {

/// Strict read query for a peer log, with an optional line limit.
#[derive(Debug, Clone, Copy, PartialEq, Eq, Structural)]
pub struct ClusterLogQuery {
    /// Public API version.
    pub api_version: u32,
    /// Intended receiver.
    pub destination_machine: MachineId,
    /// Last number of lines.
    pub tail: Option<u64>,
}

impl IdentitySummary {
    /// The task of this identity.
    pub open spec fn spec_task(&self) -> TaskId {
        match *self {
            IdentitySummary::Accepted { task, .. } => task,
            IdentitySummary::Rejected { task, .. } => task,
        }
    }

    /// The task of this identity.
    #[verifier::when_used_as_spec(spec_task)]
    pub fn task(&self) -> (task: TaskId)
        ensures
            task == self.spec_task(),
    {
        match self {
            IdentitySummary::Accepted { task, .. } => *task,
            IdentitySummary::Rejected { task, .. } => *task,
        }
    }

    /// The callback owner and the execution owner.
    pub open spec fn spec_owners(&self) -> (MachineId, MachineId) {
        match *self {
            IdentitySummary::Accepted { origin_machine, execution_machine, .. } => (
                origin_machine,
                execution_machine,
            ),
            IdentitySummary::Rejected { origin_machine, execution_machine, .. } => (
                origin_machine,
                execution_machine,
            ),
        }
    }

    /// The callback owner and the execution owner.
    #[verifier::when_used_as_spec(spec_owners)]
    pub fn owners(&self) -> (owners: (MachineId, MachineId))
        ensures
            owners == self.spec_owners(),
    {
        match self {
            IdentitySummary::Accepted { origin_machine, execution_machine, .. } => (
                *origin_machine,
                *execution_machine,
            ),
            IdentitySummary::Rejected { origin_machine, execution_machine, .. } => (
                *origin_machine,
                *execution_machine,
            ),
        }
    }
}

/// What the fleet retains of one task, by machine.
#[derive(Debug)]
pub struct Records {
    pub executions: MachineTable<ExecutionView>,
    pub routes: MachineTable<OriginSummary>,
    pub identities: MachineTable<IdentitySummary>,
    /// Machines whose answer was missing or unusable.
    pub unchecked: MachineTable<()>,
    /// Addresses that answered.
    pub addresses: MachineTable<String>,
}

/// What one machine retains of one task.
#[derive(Debug)]
pub struct PeerRecords {
    pub machine: MachineId,
    pub execution: Option<ExecutionView>,
    pub route: Option<OriginSummary>,
    pub identity: Option<IdentitySummary>,
    pub incomplete: bool,
    pub address: Option<String>,
}

/// Some entries after an optional one more.
pub open spec fn with_optional<T>(
    entries: Seq<(MachineId, T)>,
    machine: MachineId,
    value: Option<T>,
) -> Seq<(MachineId, T)> {
    match value {
        Some(value) => with_entry(entries, machine, value),
        None => entries,
    }
}

/// Whether two routes of one task are about different submissions.
pub open spec fn routes_differ(left: OriginSummary, right: OriginSummary) -> bool {
    left.task != right.task || left.request_id != right.request_id || left.submission@
        != right.submission@ || left.execution_machine != right.execution_machine
        || left.origin_machine != right.origin_machine
}

/// Whether some route differs from the first.
pub open spec fn routes_disagree(routes: Seq<(MachineId, OriginSummary)>) -> bool {
    exists|at: int| 1 <= at < routes.len() && routes_differ((#[trigger] routes[at]).1, routes[0].1)
}

/// Whether a route and a retained identity contradict each other.
pub open spec fn route_contradicts(route: OriginSummary, identity: IdentitySummary) -> bool {
    ||| route.origin_machine != identity.owners().0
    ||| route.execution_machine != identity.owners().1
    ||| match (route.submission, identity) {
        (SubmissionState::Rejected { .. }, IdentitySummary::Accepted { .. }) => true,
        (SubmissionState::Accepted, IdentitySummary::Rejected { .. }) => true,
        (
            SubmissionState::Rejected { reason: left },
            IdentitySummary::Rejected { reason: right, .. },
        ) => left@ != right@,
        _ => false,
    }
}

fn contradicts(route: &OriginSummary, identity: &IdentitySummary) -> (contradicts: bool)
    ensures
        contradicts == route_contradicts(*route, *identity),
{
    let (origin, execution) = identity.owners();
    let states = match (&route.submission, identity) {
        (SubmissionState::Rejected { .. }, IdentitySummary::Accepted { .. }) => true,
        (SubmissionState::Accepted, IdentitySummary::Rejected { .. }) => true,
        (
            SubmissionState::Rejected { reason: left },
            IdentitySummary::Rejected { reason: right, .. },
        ) => !same_text(left.as_str(), right.as_str()),
        _ => false,
    };
    route.origin_machine != origin || route.execution_machine != execution || states
}

impl Records {
    /// Every table is in the order of its machines.
    pub open spec fn wf(self) -> bool {
        &&& self.executions.wf()
        &&& self.routes.wf()
        &&& self.identities.wf()
        &&& self.unchecked.wf()
        &&& self.addresses.wf()
    }

    /// Nothing was found yet.
    pub fn new() -> (records: Records)
        ensures
            records.wf(),
            records.executions@.len() == 0,
            records.routes@.len() == 0,
            records.identities@.len() == 0,
            records.unchecked@.len() == 0,
            records.addresses@.len() == 0,
    {
        Records {
            executions: MachineTable::new(),
            routes: MachineTable::new(),
            identities: MachineTable::new(),
            unchecked: MachineTable::new(),
            addresses: MachineTable::new(),
        }
    }

    /// Add what one machine retains.
    pub fn add(&mut self, peer: PeerRecords)
        requires
            old(self).wf(),
        ensures
            final(self).wf(),
            final(self).executions@ == with_optional(
                old(self).executions@,
                peer.machine,
                peer.execution,
            ),
            final(self).routes@ == with_optional(old(self).routes@, peer.machine, peer.route),
            final(self).identities@ == with_optional(
                old(self).identities@,
                peer.machine,
                peer.identity,
            ),
            final(self).unchecked@ == with_optional(
                old(self).unchecked@,
                peer.machine,
                if peer.incomplete {
                    Some(())
                } else {
                    None
                },
            ),
            final(self).addresses@ == with_optional(
                old(self).addresses@,
                peer.machine,
                peer.address,
            ),
    {
        if let Some(execution) = peer.execution {
            self.executions.insert(peer.machine, execution);
        }
        if let Some(route) = peer.route {
            self.routes.insert(peer.machine, route);
        }
        if let Some(identity) = peer.identity {
            self.identities.insert(peer.machine, identity);
        }
        if peer.incomplete {
            self.unchecked.insert(peer.machine, ());
        }
        if let Some(address) = peer.address {
            self.addresses.insert(peer.machine, address);
        }
    }

    /// The route of the first machine that holds one, when all agree.
    pub fn route(&self, task: TaskId) -> (route: Result<
        Option<(&MachineId, &OriginSummary)>,
        AppError,
    >)
        ensures
            match route {
                Err(error) => routes_disagree(self.routes@) && error == (
                AppError::ClusterTaskConflict { task }),
                Ok(None) => self.routes@.len() == 0,
                Ok(Some((machine, summary))) => !routes_disagree(self.routes@)
                    && self.routes@.len() > 0 && *machine == self.routes@[0].0 && *summary
                    == self.routes@[0].1,
            },
    {
        if self.routes.entries.len() == 0 {
            return Ok(None);
        }
        let first = &self.routes.entries[0].1;
        let mut at: usize = 1;
        while at < self.routes.entries.len()
            invariant
                1 <= at <= self.routes@.len(),
                *first == self.routes@[0].1,
                forall|before: int|
                    1 <= before < at ==> !routes_differ(
                        (#[trigger] self.routes@[before]).1,
                        self.routes@[0].1,
                    ),
            decreases self.routes@.len() - at,
        {
            let other = &self.routes.entries[at].1;
            if other.task != first.task || other.request_id != first.request_id
                || !other.submission.same(&first.submission) || other.execution_machine
                != first.execution_machine || other.origin_machine != first.origin_machine {
                proof {
                    assert(routes_differ(self.routes@[at as int].1, self.routes@[0].1));
                }
                return Err(AppError::ClusterTaskConflict { task });
            }
            at += 1;
        }
        Ok(Some((&self.routes.entries[0].0, &self.routes.entries[0].1)))
    }

    /// Whether the identity at `at` contradicts another record.
    pub open spec fn identity_conflicts(self, at: int) -> bool {
        let (machine, identity) = self.identities@[at];
        ||| identity.owners().1 != machine
        ||| self.routes@.len() > 0 && route_contradicts(self.routes@[0].1, identity)
        ||| self.executions@.len() > 0 && self.executions@[0].0 != identity.owners().1
        ||| identity is Rejected && has_machine(self.executions@, machine)
    }

    /// Whether the records disagree about who owns the task.
    pub open spec fn conflicting(self) -> bool {
        ||| routes_disagree(self.routes@)
        ||| self.executions@.len() > 1
        ||| self.executions@.len() > 0 && self.routes@.len() > 0 && (
        self.routes@[0].1.execution_machine != self.executions@[0].0
            || self.routes@[0].1.submission is Rejected)
        ||| exists|at: int| 0 <= at < self.identities@.len() && self.identity_conflicts(at)
        ||| self.identities@.len() > 1
    }

    /// Refuse records that disagree about who owns the task.
    pub fn check_conflicts(&self, task: TaskId) -> (result: Result<(), AppError>)
        ensures
            result == if self.conflicting() {
                Err(AppError::ClusterTaskConflict { task })
            } else {
                Ok(())
            },
    {
        let route = match self.route(task) {
            Err(error) => {
                return Err(error);
            },
            Ok(Some((_, route))) => Some(route),
            Ok(None) => None,
        };
        if self.executions.entries.len() > 1 {
            return Err(AppError::ClusterTaskConflict { task });
        }
        let owner = if self.executions.entries.len() > 0 {
            Some(self.executions.entries[0].0)
        } else {
            None
        };
        if let (Some(owner), Some(route)) = (owner, route) {
            let rejected = match route.submission {
                SubmissionState::Rejected { .. } => true,
                _ => false,
            };
            if route.execution_machine != owner || rejected {
                return Err(AppError::ClusterTaskConflict { task });
            }
        }
        let mut at: usize = 0;
        while at < self.identities.entries.len()
            invariant
                at <= self.identities@.len(),
                owner == (if self.executions@.len() > 0 {
                    Some(self.executions@[0].0)
                } else {
                    None
                }),
                match route {
                    Some(route) => self.routes@.len() > 0 && *route == self.routes@[0].1,
                    None => self.routes@.len() == 0,
                },
                forall|before: int| 0 <= before < at ==> !self.identity_conflicts(before),
            decreases self.identities@.len() - at,
        {
            let machine = self.identities.entries[at].0;
            let identity = &self.identities.entries[at].1;
            let (_, execution) = identity.owners();
            let by_route = match route {
                Some(route) => contradicts(route, identity),
                None => false,
            };
            let by_owner = match owner {
                Some(owner) => owner != execution,
                None => false,
            };
            let rejected = match identity {
                IdentitySummary::Rejected { .. } => true,
                IdentitySummary::Accepted { .. } => false,
            };
            if execution != machine || by_route || by_owner || (rejected
                && self.executions.contains(machine)) {
                proof {
                    assert(self.identity_conflicts(at as int));
                }
                return Err(AppError::ClusterTaskConflict { task });
            }
            at += 1;
        }
        if self.identities.entries.len() > 1 {
            return Err(AppError::ClusterTaskConflict { task });
        }
        Ok(())
    }
}

/// Records that agree name one execution owner: what is executing, what is retained and what
/// the route names are on the same machine, and nothing is both rejected and executing.
pub proof fn checked_records_name_one_owner(records: Records)
    requires
        !records.conflicting(),
    ensures
        records.executions@.len() <= 1,
        records.identities@.len() <= 1,
        records.executions@.len() == 1 && records.routes@.len() > 0 ==> records.executions@[0].0
            == records.routes@[0].1.execution_machine,
        records.executions@.len() == 1 && records.identities@.len() == 1 ==> {
            &&& records.executions@[0].0 == records.identities@[0].1.owners().1
            &&& records.identities@[0].1 is Accepted
        },
        records.identities@.len() == 1 && records.routes@.len() > 0 ==> {
            &&& records.routes@[0].1.origin_machine == records.identities@[0].1.owners().0
            &&& records.routes@[0].1.execution_machine == records.identities@[0].1.owners().1
        },
{
    if records.identities@.len() == 1 {
        assert(!records.identity_conflicts(0));
        if records.executions@.len() == 1 {
            assert(records.executions@[0].0 == records.identities@[0].0);
        }
    }
}

/// One answer of a peer: its status code, and its typed body when it could be parsed.
#[derive(Debug)]
pub struct PeerAnswer<T> {
    pub status: u16,
    pub body: Option<T>,
}

/// What a connected peer answered; an answer is nothing when none came.
#[derive(Debug)]
pub struct PeerAnswers {
    pub address: String,
    pub execution: Option<PeerAnswer<ExecutionBody>>,
    pub origin: Option<PeerAnswer<OriginBody>>,
    pub identity: Option<PeerAnswer<IdentitySummaryBody>>,
}

/// The execution in an answer, or nothing when the answer is unusable.
///
/// A found execution is answered with 200 and an absent one with 404.
pub open spec fn usable_execution(
    answer: Option<PeerAnswer<ExecutionBody>>,
    machine: MachineId,
    id: TaskId,
) -> Option<Option<ExecutionView>> {
    match answer {
        Some(answer) => match answer.body {
            Some(body) => if (answer.status == 200 || answer.status == 404) && body.api_version
                == API_VERSION && (body.execution matches Some(view) ==> view.task == id
                && view.execution_machine == machine) && (answer.status == 200) == (body.execution
                is Some) {
                Some(body.execution)
            } else {
                None
            },
            None => None,
        },
        None => None,
    }
}

/// The route in an answer, or nothing when the answer is unusable.
pub open spec fn usable_route(
    answer: Option<PeerAnswer<OriginBody>>,
    machine: MachineId,
    id: TaskId,
) -> Option<Option<OriginSummary>> {
    match answer {
        Some(answer) => match answer.body {
            Some(body) => if answer.status == 200 && body.api_version == API_VERSION && (
            body.origin matches Some(route) ==> route.task == id && route.origin_machine
                == machine) {
                Some(body.origin)
            } else {
                None
            },
            None => None,
        },
        None => None,
    }
}

/// The identity in an answer, or nothing when the answer is unusable.
pub open spec fn usable_identity(
    answer: Option<PeerAnswer<IdentitySummaryBody>>,
    machine: MachineId,
    id: TaskId,
) -> Option<Option<IdentitySummary>> {
    match answer {
        Some(answer) => match answer.body {
            Some(body) => if answer.status == 200 && body.api_version == API_VERSION && (
            body.identity matches Some(identity) ==> identity.task() == id && identity.owners().1
                == machine) {
                Some(body.identity)
            } else {
                None
            },
            None => None,
        },
        None => None,
    }
}

/// The usable part of an answer.
pub open spec fn usable_or_none<T>(usable: Option<Option<T>>) -> Option<T> {
    match usable {
        Some(found) => found,
        None => None,
    }
}

/// Keep only what a peer may say: its own records, of the task asked about. Anything else leaves the
/// peer unchecked.
pub fn read_peer(machine: MachineId, id: TaskId, answers: Option<PeerAnswers>) -> (records:
    PeerRecords)
    ensures
        records.machine == machine,
        match answers {
            None => records == (PeerRecords {
                machine,
                execution: None,
                route: None,
                identity: None,
                incomplete: true,
                address: None,
            }),
            Some(answers) => records == (PeerRecords {
                machine,
                execution: usable_or_none(usable_execution(answers.execution, machine, id)),
                route: usable_or_none(usable_route(answers.origin, machine, id)),
                identity: usable_or_none(usable_identity(answers.identity, machine, id)),
                incomplete: usable_execution(answers.execution, machine, id) is None
                    || usable_route(answers.origin, machine, id) is None || usable_identity(
                    answers.identity,
                    machine,
                    id,
                ) is None,
                address: Some(answers.address),
            }),
        },
{
    let mut records = PeerRecords {
        machine,
        execution: None,
        route: None,
        identity: None,
        incomplete: false,
        address: None,
    };
    let answers = match answers {
        Some(answers) => answers,
        None => {
            records.incomplete = true;
            return records;
        },
    };
    records.address = Some(answers.address);
    match answers.execution {
        Some(PeerAnswer { status, body: Some(body) }) => {
            let own = match body.execution {
                Some(view) => view.task == id && view.execution_machine == machine && status == 200,
                None => status == 404,
            };
            if body.api_version == API_VERSION && own {
                records.execution = body.execution;
            } else {
                records.incomplete = true;
            }
        },
        _ => {
            records.incomplete = true;
        },
    }
    match answers.origin {
        Some(PeerAnswer { status, body: Some(body) }) => {
            let own = match &body.origin {
                Some(route) => route.task == id && route.origin_machine == machine,
                None => true,
            };
            if status == 200 && body.api_version == API_VERSION && own {
                records.route = body.origin;
            } else {
                records.incomplete = true;
            }
        },
        _ => {
            records.incomplete = true;
        },
    }
    match answers.identity {
        Some(PeerAnswer { status, body: Some(body) }) => {
            let own = match &body.identity {
                Some(identity) => identity.task() == id && identity.owners().1 == machine,
                None => true,
            };
            if status == 200 && body.api_version == API_VERSION && own {
                records.identity = body.identity;
            } else {
                records.incomplete = true;
            }
        },
        _ => {
            records.incomplete = true;
        },
    }
    records
}

/// Next part of one lookup.
#[derive(Debug)]
pub enum LookupStep {
    AskRoute { message: StoreMsg, next: AwaitRoute },
    AskFailures { message: StoreMsg, next: AwaitFailures },
    AskIdentity { message: StoreMsg, next: AwaitIdentity },
    /// List the peers of the fleet, if this machine is in one.
    ListPeers { next: AwaitPeers },
    /// Read these peers at the same time.
    ReadPeers { machines: Vec<MachineId>, next: AwaitRead },
    /// Read a machine that a route names but the fleet did not list; its address may be
    /// known to the machine named as hint.
    ReadTarget { machine: MachineId, hint: Option<MachineId>, next: AwaitTarget },
    Done(Result<Records, AppError>),
}

/// One lookup in progress.
#[derive(Debug)]
pub struct Lookup {
    pub local: MachineId,
    pub id: TaskId,
    pub records: Records,
}

/// Waiting for the local route.
#[derive(Debug, Clone, Copy, PartialEq, Eq, Structural)]
pub struct AwaitRoute {
    pub local: MachineId,
    pub id: TaskId,
}

/// Waiting for the callback failures of the local route.
#[derive(Debug)]
pub struct AwaitFailures {
    pub local: MachineId,
    pub id: TaskId,
    pub route: OriginRoute,
}

/// Waiting for the local identity.
#[derive(Debug)]
pub struct AwaitIdentity {
    pub lookup: Lookup,
}

/// Waiting for the peers of the fleet.
#[derive(Debug)]
pub struct AwaitPeers {
    pub lookup: Lookup,
}

/// Waiting for the answers of the listed peers.
#[derive(Debug)]
pub struct AwaitRead {
    pub lookup: Lookup,
    /// Machines that were read or are local.
    pub seen: Vec<MachineId>,
}

/// Waiting for a machine that a route names.
#[derive(Debug)]
pub struct AwaitTarget {
    pub lookup: Lookup,
    /// Machines that routes name and that are still to be read, in reverse order.
    pub remaining: Vec<MachineId>,
}

/// Look one task up on every machine.
pub fn lookup(local: MachineId, id: TaskId) -> (step: LookupStep)
    ensures
        step == (LookupStep::AskRoute {
            message: StoreMsg::OriginRoute { id },
            next: AwaitRoute { local, id },
        }),
{
    LookupStep::AskRoute {
        message: StoreMsg::OriginRoute { id },
        next: AwaitRoute { local, id },
    }
}

/// Whether records hold nothing.
pub open spec fn no_records(records: Records) -> bool {
    &&& records.executions@.len() == 0
    &&& records.routes@.len() == 0
    &&& records.identities@.len() == 0
    &&& records.unchecked@.len() == 0
    &&& records.addresses@.len() == 0
}

impl AwaitRoute {
    /// A local route is shown with its callback failures.
    pub fn on_route(self, reply: Result<Option<OriginRoute>, AppError>) -> (step: LookupStep)
        ensures
            match reply {
                Err(error) => step == LookupStep::Done(Err(error)),
                Ok(Some(route)) => step == (LookupStep::AskFailures {
                    message: StoreMsg::FailedInboxEvents { id: self.id },
                    next: AwaitFailures { local: self.local, id: self.id, route },
                }),
                Ok(None) => {
                    &&& step matches LookupStep::AskIdentity { message, next }
                    &&& message == (StoreMsg::ExecutorIdentity { id: self.id })
                    &&& next.lookup.local == self.local
                    &&& next.lookup.id == self.id
                    &&& next.lookup.records.wf()
                    &&& no_records(next.lookup.records)
                },
            },
    {
        match reply {
            Err(error) => LookupStep::Done(Err(error)),
            Ok(Some(route)) => LookupStep::AskFailures {
                message: StoreMsg::FailedInboxEvents { id: self.id },
                next: AwaitFailures { local: self.local, id: self.id, route },
            },
            Ok(None) => LookupStep::AskIdentity {
                message: StoreMsg::ExecutorIdentity { id: self.id },
                next: AwaitIdentity {
                    lookup: Lookup { local: self.local, id: self.id, records: Records::new() },
                },
            },
        }
    }
}

impl AwaitFailures {
    /// Keep the safe summary of the local route.
    pub fn on_failures(self, reply: Result<Vec<FailedInboxEvent>, AppError>) -> (step: LookupStep)
        ensures
            match reply {
                Err(error) => step == LookupStep::Done(Err(error)),
                Ok(failures) => {
                    &&& step matches LookupStep::AskIdentity { message, next }
                    &&& message == (StoreMsg::ExecutorIdentity { id: self.id })
                    &&& next.lookup.local == self.local
                    &&& next.lookup.id == self.id
                    &&& next.lookup.records.wf()
                    &&& next.lookup.records.executions@.len() == 0
                    &&& next.lookup.records.identities@.len() == 0
                    &&& next.lookup.records.unchecked@.len() == 0
                    &&& next.lookup.records.addresses@.len() == 0
                    &&& next.lookup.records.routes@.len() == 1
                    &&& next.lookup.records.routes@[0].0 == self.local
                    &&& summarizes(
                        OriginBody {
                            api_version: API_VERSION,
                            origin: Some(next.lookup.records.routes@[0].1),
                        },
                        Some(self.route),
                        failures@,
                    )
                },
            },
    {
        let failures = match reply {
            Ok(failures) => failures,
            Err(error) => {
                return LookupStep::Done(Err(error));
            },
        };
        let mut records = Records::new();
        let body = origin_summary(Some(self.route), &failures);
        if let Some(summary) = body.origin {
            proof {
                assert(with_entry(records.routes@, self.local, summary) =~= seq![
                    (self.local, summary),
                ]);
            }
            records.routes.insert(self.local, summary);
        }
        LookupStep::AskIdentity {
            message: StoreMsg::ExecutorIdentity { id: self.id },
            next: AwaitIdentity { lookup: Lookup { local: self.local, id: self.id, records } },
        }
    }
}

impl AwaitIdentity {
    /// Keep the safe summary of the local identity.
    pub fn on_identity(self, reply: Result<Option<ExecutorIdentity>, AppError>) -> (step:
        LookupStep)
        requires
            self.lookup.records.wf(),
        ensures
            match reply {
                Err(error) => step == LookupStep::Done(Err(error)),
                Ok(identity) => {
                    &&& step matches LookupStep::ListPeers { next }
                    &&& next.lookup.local == self.lookup.local
                    &&& next.lookup.id == self.lookup.id
                    &&& next.lookup.records.wf()
                    &&& next.lookup.records.executions == self.lookup.records.executions
                    &&& next.lookup.records.routes == self.lookup.records.routes
                    &&& next.lookup.records.unchecked == self.lookup.records.unchecked
                    &&& next.lookup.records.addresses == self.lookup.records.addresses
                    &&& next.lookup.records.identities@ == with_optional(
                        self.lookup.records.identities@,
                        self.lookup.local,
                        match identity {
                            Some(identity) => Some(summary_of(identity)),
                            None => None,
                        },
                    )
                },
            },
    {
        let identity = match reply {
            Ok(identity) => identity,
            Err(error) => {
                return LookupStep::Done(Err(error));
            },
        };
        let mut lookup = self.lookup;
        let body = identity_summary(identity);
        if let Some(summary) = body.identity {
            let local = lookup.local;
            lookup.records.identities.insert(local, summary);
        }
        LookupStep::ListPeers { next: AwaitPeers { lookup } }
    }
}

/// Whether a list names a machine.
pub fn names_machine(machines: &Vec<MachineId>, machine: MachineId) -> (named: bool)
    ensures
        named == machines@.contains(machine),
{
    let mut index: usize = 0;
    while index < machines.len()
        invariant
            index <= machines.len(),
            forall|at: int| 0 <= at < index ==> machines@[at] != machine,
        decreases machines.len() - index,
    {
        if machines[index] == machine {
            return true;
        }
        index += 1;
    }
    false
}

/// The peers to read: each once, in the listed order, and never the local machine.
pub open spec fn peers_to_read(local: MachineId, peers: Seq<MachineId>) -> Seq<MachineId>
    decreases peers.len(),
{
    if peers.len() == 0 {
        Seq::empty()
    } else {
        let earlier = peers_to_read(local, peers.drop_last());
        if peers.last() == local || earlier.contains(peers.last()) {
            earlier
        } else {
            earlier.push(peers.last())
        }
    }
}

impl AwaitPeers {
    /// Read every listed peer, or answer from the local records alone outside a fleet.
    pub fn on_peers(self, peers: Option<Vec<MachineId>>) -> (step: LookupStep)
        ensures
            match peers {
                None => step == LookupStep::Done(
                    if self.lookup.records.conflicting() {
                        Err(AppError::ClusterTaskConflict { task: self.lookup.id })
                    } else {
                        Ok(self.lookup.records)
                    },
                ),
                Some(peers) => {
                    &&& step matches LookupStep::ReadPeers { machines, next }
                    &&& machines@ == peers_to_read(self.lookup.local, peers@)
                    &&& next.lookup == self.lookup
                    &&& next.seen@ == seq![self.lookup.local] + machines@
                },
            },
    {
        let peers = match peers {
            Some(peers) => peers,
            None => {
                return finish_lookup(self.lookup);
            },
        };
        let local = self.lookup.local;
        let mut machines: Vec<MachineId> = Vec::new();
        let mut seen: Vec<MachineId> = vec![local];
        let mut index: usize = 0;
        while index < peers.len()
            invariant
                index <= peers.len(),
                machines@ == peers_to_read(local, peers@.take(index as int)),
                seen@ == seq![local] + machines@,
            decreases peers.len() - index,
        {
            proof {
                let next = peers@.take(index as int + 1);
                assert(next.drop_last() =~= peers@.take(index as int));
                assert(next.last() == peers@[index as int]);
            }
            if peers[index] != local && !names_machine(&machines, peers[index]) {
                machines.push(peers[index]);
                seen.push(peers[index]);
                proof {
                    assert(seen@ =~= seq![local] + machines@);
                }
            }
            index += 1;
        }
        proof {
            assert(peers@.take(peers.len() as int) =~= peers@);
        }
        LookupStep::ReadPeers { machines, next: AwaitRead { lookup: self.lookup, seen } }
    }
}

fn finish_lookup(lookup: Lookup) -> (step: LookupStep)
    ensures
        step == LookupStep::Done(
            if lookup.records.conflicting() {
                Err(AppError::ClusterTaskConflict { task: lookup.id })
            } else {
                Ok(lookup.records)
            },
        ),
{
    match lookup.records.check_conflicts(lookup.id) {
        Ok(_) => LookupStep::Done(Ok(lookup.records)),
        Err(error) => LookupStep::Done(Err(error)),
    }
}

/// The records after what some peers retain was added, in order.
pub open spec fn after_peers(before: Records, peers: Seq<PeerRecords>, after: Records) -> bool
    decreases peers.len(),
{
    if peers.len() == 0 {
        after == before
    } else {
        exists|middle: Records|
            after_peers(before, peers.drop_last(), middle) && #[trigger] adds(
                middle,
                peers.last(),
                after,
            )
    }
}

/// Whether records are others after what one peer retains was added.
pub open spec fn adds(before: Records, peer: PeerRecords, after: Records) -> bool {
    &&& after.wf()
    &&& after.executions@ == with_optional(before.executions@, peer.machine, peer.execution)
    &&& after.routes@ == with_optional(before.routes@, peer.machine, peer.route)
    &&& after.identities@ == with_optional(before.identities@, peer.machine, peer.identity)
    &&& after.unchecked@ == with_optional(
        before.unchecked@,
        peer.machine,
        if peer.incomplete {
            Some(())
        } else {
            None
        },
    )
    &&& after.addresses@ == with_optional(before.addresses@, peer.machine, peer.address)
}

/// The execution machines that routes name and that were not read, each once and in
/// descending order.
pub open spec fn is_target(records: Records, seen: Seq<MachineId>, machine: MachineId) -> bool {
    !seen.contains(machine) && exists|at: int|
        0 <= at < records.routes@.len() && (#[trigger] records.routes@[at]).1.execution_machine
            == machine
}

/// Whether machines are strictly decreasing.
pub open spec fn descending(machines: Seq<MachineId>) -> bool {
    forall|left: int, right: int|
        0 <= left < right < machines.len() ==> #[trigger] machines[left].0
            > #[trigger] machines[right].0
}

fn insert_descending(machines: &mut Vec<MachineId>, machine: MachineId)
    requires
        descending(old(machines)@),
    ensures
        descending(final(machines)@),
        forall|other: MachineId| #[trigger]
            final(machines)@.contains(other) <==> other == machine || old(machines)@.contains(
                other,
            ),
{
    let mut at: usize = 0;
    while at < machines.len() && machines[at].0 > machine.0
        invariant
            at <= machines.len(),
            machines == old(machines),
            forall|before: int| 0 <= before < at ==> (#[trigger] machines@[before]).0 > machine.0,
        decreases machines.len() - at,
    {
        at += 1;
    }
    let ghost before = machines@;
    if at < machines.len() && machines[at] == machine {
        proof {
            assert(before[at as int] == machine);
        }
        return ;
    }
    proof {
        assert forall|place: int| at <= place < before.len() implies (#[trigger] before[place]).0
            < machine.0 by {
            if place > at {
                assert(before[at as int].0 > before[place].0);
            }
        }
    }
    machines.insert(at, machine);
    proof {
        let after = machines@;
        assert(after == before.insert(at as int, machine));
        assert forall|left: int, right: int|
            0 <= left < right < after.len() implies #[trigger] after[left].0
            > #[trigger] after[right].0 by {
            let left_before = if left < at {
                left
            } else {
                left - 1
            };
            let right_before = if right < at {
                right
            } else {
                right - 1
            };
            if left != at {
                assert(after[left] == before[left_before]);
            }
            if right != at {
                assert(after[right] == before[right_before]);
            }
        }
        assert forall|other: MachineId| #[trigger] after.contains(other) <==> other == machine
            || before.contains(other) by {
            assert(after[at as int] == machine);
            if before.contains(other) {
                let place = choose|place: int| 0 <= place < before.len() && before[place] == other;
                let moved = if place < at {
                    place
                } else {
                    place + 1
                };
                assert(after[moved] == other);
            }
            if after.contains(other) && other != machine {
                let place = choose|place: int| 0 <= place < after.len() && after[place] == other;
                let moved = if place < at {
                    place
                } else {
                    place - 1
                };
                assert(before[moved] == other);
            }
        }
    }
}

impl Records {
    /// The execution machines that routes name and that were not read, in descending order.
    pub fn targets(&self, seen: &Vec<MachineId>) -> (targets: Vec<MachineId>)
        ensures
            descending(targets@),
            forall|machine: MachineId| #[trigger]
                targets@.contains(machine) <==> is_target(*self, seen@, machine),
    {
        let mut targets: Vec<MachineId> = Vec::new();
        let mut at: usize = 0;
        while at < self.routes.entries.len()
            invariant
                at <= self.routes@.len(),
                descending(targets@),
                forall|machine: MachineId| #[trigger]
                    targets@.contains(machine) <==> !seen@.contains(machine) && exists|before: int|
                        0 <= before < at && (
                        #[trigger] self.routes@[before]).1.execution_machine == machine,
            decreases self.routes@.len() - at,
        {
            let machine = self.routes.entries[at].1.execution_machine;
            let ghost earlier = targets@;
            if !names_machine(seen, machine) {
                insert_descending(&mut targets, machine);
            }
            proof {
                assert(self.routes@[at as int].1.execution_machine == machine);
                assert forall|other: MachineId| #[trigger] targets@.contains(other) <==>
                    !seen@.contains(other) && exists|before: int|
                    0 <= before < at + 1 && (#[trigger] self.routes@[before]).1.execution_machine
                        == other by {
                    if earlier.contains(other) {
                        let place = choose|before: int|
                            0 <= before < at && (
                            #[trigger] self.routes@[before]).1.execution_machine == other;
                        assert(self.routes@[place].1.execution_machine == other);
                    }
                }
            }
            at += 1;
        }
        targets
    }

    /// The first machine whose route names `machine` as its executor.
    pub open spec fn route_owner(self, machine: MachineId) -> Option<MachineId> {
        first_owner(self.routes@, machine)
    }

    /// Machine that may know the address of a route's executor: the route's owner, unless it
    /// is the local machine.
    pub fn hint(&self, machine: MachineId, local: MachineId) -> (hint: Option<MachineId>)
        ensures
            hint == (match self.route_owner(machine) {
                Some(owner) => if owner != local {
                    Some(owner)
                } else {
                    None
                },
                None => None,
            }),
    {
        let mut at: usize = 0;
        proof {
            assert(self.routes@.skip(0) =~= self.routes@);
        }
        while at < self.routes.entries.len()
            invariant
                at <= self.routes@.len(),
                first_owner(self.routes@, machine) == first_owner(
                    self.routes@.skip(at as int),
                    machine,
                ),
            decreases self.routes@.len() - at,
        {
            proof {
                assert(self.routes@.skip(at as int)[0] == self.routes@[at as int]);
                assert(self.routes@.skip(at as int).drop_first() =~= self.routes@.skip(
                    at as int + 1,
                ));
            }
            if self.routes.entries[at].1.execution_machine == machine {
                let owner = self.routes.entries[at].0;
                if owner != local {
                    return Some(owner);
                }
                return None;
            }
            at += 1;
        }
        None
    }
}

/// The first machine whose route names `machine` as its executor.
pub open spec fn first_owner(routes: Seq<(MachineId, OriginSummary)>, machine: MachineId) -> Option<
    MachineId,
>
    decreases routes.len(),
{
    if routes.len() == 0 {
        None
    } else if routes[0].1.execution_machine == machine {
        Some(routes[0].0)
    } else {
        first_owner(routes.drop_first(), machine)
    }
}

/// The next machine of a lookup to read, or its end.
pub open spec fn next_target(lookup: Lookup, remaining: Seq<MachineId>, step: LookupStep) -> bool {
    if remaining.len() == 0 {
        step == LookupStep::Done(
            if lookup.records.conflicting() {
                Err(AppError::ClusterTaskConflict { task: lookup.id })
            } else {
                Ok(lookup.records)
            },
        )
    } else {
        &&& step matches LookupStep::ReadTarget { machine, hint, next }
        &&& machine == remaining.last()
        &&& hint == (match lookup.records.route_owner(machine) {
            Some(owner) => if owner != lookup.local {
                Some(owner)
            } else {
                None
            },
            None => None,
        })
        &&& next.lookup == lookup
        &&& next.remaining@ == remaining.drop_last()
    }
}

fn read_next(lookup: Lookup, remaining: Vec<MachineId>) -> (step: LookupStep)
    ensures
        next_target(lookup, remaining@, step),
{
    let mut remaining = remaining;
    match remaining.pop() {
        None => finish_lookup(lookup),
        Some(machine) => {
            let hint = lookup.records.hint(machine, lookup.local);
            LookupStep::ReadTarget { machine, hint, next: AwaitTarget { lookup, remaining } }
        },
    }
}

impl AwaitRead {
    /// Add what the listed peers retain, then read the executors that routes name and that
    /// discovery had not listed yet.
    ///
    /// `peers` holds the failure of a reader itself, which ends the lookup.
    pub fn on_peers(self, peers: Result<Vec<PeerRecords>, String>) -> (step: LookupStep)
        requires
            self.lookup.records.wf(),
        ensures
            match peers {
                Err(error) => step matches LookupStep::Done(Err(found)) && found@ == (
                ErrorView::Internal {
                    message: "fleet inspection worker failed: "@ + error@,
                }),
                Ok(peers) => exists|records: Records, targets: Seq<MachineId>|
                    {
                        &&& #[trigger] after_peers(self.lookup.records, peers@, records)
                        &&& descending(targets)
                        &&& forall|machine: MachineId| #[trigger]
                            targets.contains(machine) <==> is_target(
                                records,
                                self.seen@,
                                machine,
                            )
                        &&& #[trigger] next_target(
                            Lookup { records, ..self.lookup },
                            targets,
                            step,
                        )
                    },
            },
    {
        let peers = match peers {
            Ok(peers) => peers,
            Err(error) => {
                return LookupStep::Done(
                    Err(
                        AppError::Internal {
                            message: join2("fleet inspection worker failed: ", error.as_str()),
                        },
                    ),
                );
            },
        };
        let ghost given = peers@;
        let mut peers = peers;
        let mut lookup = self.lookup;
        let ghost mut done: Seq<PeerRecords> = Seq::empty();
        while peers.len() > 0
            invariant
                lookup.local == self.lookup.local,
                lookup.id == self.lookup.id,
                lookup.records.wf(),
                done + peers@ =~= given,
                after_peers(self.lookup.records, done, lookup.records),
            decreases peers.len(),
        {
            let ghost before = lookup.records;
            let ghost left = peers@;
            let peer = peers.remove(0);
            let ghost added = peer;
            lookup.records.add(peer);
            proof {
                assert(adds(before, added, lookup.records));
                let next = done.push(added);
                assert(next.drop_last() =~= done);
                assert(next.last() == added);
                assert(after_peers(self.lookup.records, next, lookup.records));
                assert(left =~= seq![added] + peers@);
                assert(next + peers@ =~= given);
                done = next;
            }
        }
        proof {
            assert(done =~= given);
        }
        let targets = lookup.records.targets(&self.seen);
        let ghost records = lookup.records;
        let ghost all = targets@;
        let step = read_next(lookup, targets);
        proof {
            assert(lookup == (Lookup { records, ..self.lookup }));
            assert(next_target(Lookup { records, ..self.lookup }, all, step));
        }
        step
    }
}

impl AwaitTarget {
    /// Add what the executor retains, and go on with the next one.
    pub fn on_target(self, peer: PeerRecords) -> (step: LookupStep)
        requires
            self.lookup.records.wf(),
        ensures
            exists|records: Records|
                #[trigger] adds(self.lookup.records, peer, records) && next_target(
                    Lookup { records, ..self.lookup },
                    self.remaining@,
                    step,
                ),
    {
        let mut lookup = self.lookup;
        lookup.records.add(peer);
        let ghost records = lookup.records;
        let step = read_next(lookup, self.remaining);
        proof {
            assert(adds(self.lookup.records, peer, records));
            assert(lookup == (Lookup { records, ..self.lookup }));
        }
        step
    }
}

/// What a task that no machine holds is answered.
pub open spec fn absent_error(id: TaskId, records: Records) -> ErrorView {
    if records.unchecked@.len() == 0 {
        ErrorView::TaskNotFound { id }
    } else {
        ErrorView::ClusterLookupIncomplete { task: id, unchecked: keys(records.unchecked@) }
    }
}

/// A task that no machine holds is missing only when every machine was checked.
pub fn absent(id: TaskId, records: &Records) -> (error: AppError)
    ensures
        error@ == absent_error(id, *records),
{
    if records.unchecked.entries.len() == 0 {
        AppError::TaskNotFound { id }
    } else {
        AppError::ClusterLookupIncomplete { task: id, unchecked: records.unchecked.machines() }
    }
}

/// What [`message_origin_route`] answers.
pub open spec fn message_route(id: TaskId, records: Records) -> Result<
    (MachineId, ThreadId),
    ErrorView,
> {
    if routes_disagree(records.routes@) {
        Err(ErrorView::ClusterTaskConflict { task: id })
    } else if records.routes@.len() > 0 {
        Ok((records.routes@[0].0, records.routes@[0].1.thread))
    } else if records.unchecked@.len() > 0 {
        Err(ErrorView::ClusterLookupIncomplete { task: id, unchecked: keys(records.unchecked@) })
    } else if records.executions@.len() > 0 || records.identities@.len() > 0 {
        Err(ErrorView::RouteNotFound { task: id })
    } else {
        Err(ErrorView::TaskNotFound { id })
    }
}

/// Resolve a task to its retained origin machine and original thread.
pub fn message_origin_route(id: TaskId, records: &Records) -> (route: Result<
    (MachineId, ThreadId),
    AppError,
>)
    ensures
        match message_route(id, *records) {
            Ok(found) => route == Ok::<(MachineId, ThreadId), AppError>(found),
            Err(error) => route matches Err(found) && found@ == error,
        },
{
    match records.route(id) {
        Err(error) => {
            return Err(error);
        },
        Ok(Some((machine, route))) => {
            return Ok((*machine, route.thread));
        },
        Ok(None) => {},
    }
    if records.unchecked.entries.len() > 0 {
        return Err(
            AppError::ClusterLookupIncomplete {
                task: id,
                unchecked: records.unchecked.machines(),
            },
        );
    }
    if records.executions.entries.len() > 0 || records.identities.entries.len() > 0 {
        return Err(AppError::RouteNotFound { task: id });
    }
    Err(AppError::TaskNotFound { id })
}

/// The error of a refused cancellation.
pub open spec fn refusal_error(task: TaskId, refusal: CancellationRefusal) -> ErrorView {
    match refusal {
        CancellationRefusal::Conflict => ErrorView::ClusterTaskConflict { task },
        CancellationRefusal::NotStarted => ErrorView::TaskNotStarted { task },
    }
}

/// The fields of a route that decide its cancellation owner.
pub open spec fn cancellation_route<'a>(route: &'a OriginSummary) -> CancellationRoute<'a> {
    CancellationRoute {
        task: route.task,
        request_id: route.request_id,
        origin_machine: route.origin_machine,
        execution_machine: route.execution_machine,
        submission: &route.submission,
    }
}

/// Who a cancellation of `task` must reach, from the route that `route_machine` holds.
pub fn cancellation_target(task: TaskId, route_machine: MachineId, route: &OriginSummary) -> (target:
    Result<CancellationOwner, AppError>)
    ensures
        match owner_of_route(task, route_machine, cancellation_route(route)) {
            Ok(owner) => target == Ok::<CancellationOwner, AppError>(owner),
            Err(refusal) => target matches Err(error) && error@ == refusal_error(task, refusal),
        },
{
    let route = CancellationRoute {
        task: route.task,
        request_id: route.request_id,
        origin_machine: route.origin_machine,
        execution_machine: route.execution_machine,
        submission: &route.submission,
    };
    match CancellationOwner::from_route(task, route_machine, route) {
        Ok(owner) => Ok(owner),
        Err(refusal) => Err(refusal.into_error(task)),
    }
}

/// Unchecked machines other than a target's two.
pub open spec fn other_unchecked(
    unchecked: Seq<MachineId>,
    origin: MachineId,
    execution: MachineId,
) -> Seq<MachineId>
    decreases unchecked.len(),
{
    if unchecked.len() == 0 {
        Seq::empty()
    } else {
        let earlier = other_unchecked(unchecked.drop_last(), origin, execution);
        if unchecked.last() != origin && unchecked.last() != execution {
            earlier.push(unchecked.last())
        } else {
            earlier
        }
    }
}

fn without_owners(unchecked: &Vec<MachineId>, origin: MachineId, execution: MachineId) -> (others:
    Vec<MachineId>)
    ensures
        others@ == other_unchecked(unchecked@, origin, execution),
{
    let mut others: Vec<MachineId> = Vec::new();
    let mut at: usize = 0;
    while at < unchecked.len()
        invariant
            at <= unchecked.len(),
            others@ == other_unchecked(unchecked@.take(at as int), origin, execution),
        decreases unchecked.len() - at,
    {
        proof {
            let next = unchecked@.take(at as int + 1);
            assert(next.drop_last() =~= unchecked@.take(at as int));
            assert(next.last() == unchecked@[at as int]);
        }
        if unchecked[at] != origin && unchecked[at] != execution {
            others.push(unchecked[at]);
        }
        at += 1;
    }
    proof {
        assert(unchecked@.take(unchecked.len() as int) =~= unchecked@);
    }
    others
}

/// What [`cancellation_owner`] answers.
pub open spec fn owner_in(id: TaskId, records: Records) -> Result<CancellationOwner, ErrorView> {
    if routes_disagree(records.routes@) {
        Err(ErrorView::ClusterTaskConflict { task: id })
    } else if records.routes@.len() > 0 {
        match owner_of_route(
            id,
            records.routes@[0].0,
            cancellation_route(&records.routes@[0].1),
        ) {
            Err(refusal) => Err(refusal_error(id, refusal)),
            Ok(owner) => {
                let others = other_unchecked(
                    keys(records.unchecked@),
                    owner.spec_machines().0,
                    owner.spec_machines().1,
                );
                if others.len() > 0 {
                    Err(ErrorView::ClusterLookupIncomplete { task: id, unchecked: others })
                } else {
                    Ok(owner)
                }
            },
        }
    } else if records.identities@.len() > 0 {
        let (machine, identity) = records.identities@[0];
        if machine == identity.owners().1 && has_machine(
            records.unchecked@,
            identity.owners().0,
        ) {
            Err(
                ErrorView::ClusterLookupIncomplete {
                    task: id,
                    unchecked: seq![identity.owners().0],
                },
            )
        } else {
            Err(ErrorView::ClusterTaskConflict { task: id })
        }
    } else if records.unchecked@.len() > 0 {
        Err(ErrorView::ClusterLookupIncomplete { task: id, unchecked: keys(records.unchecked@) })
    } else if records.executions@.len() > 0 {
        Err(
            ErrorView::ClusterLookupIncomplete {
                task: id,
                unchecked: seq![records.executions@[0].0],
            },
        )
    } else {
        Err(ErrorView::TaskNotFound { id })
    }
}

/// Resolve cancellation ownership from the same checked records as an inspection.
///
/// Only the route knows who asked for the task, so nothing else gives an owner.
pub fn cancellation_owner(id: TaskId, records: &Records) -> (owner: Result<
    CancellationOwner,
    AppError,
>)
    ensures
        match owner_in(id, *records) {
            Ok(found) => owner == Ok::<CancellationOwner, AppError>(found),
            Err(error) => owner matches Err(found) && found@ == error,
        },
{
    let target = match records.route(id) {
        Err(error) => {
            return Err(error);
        },
        Ok(Some((route_machine, route))) => match cancellation_target(id, *route_machine, route) {
            Ok(target) => target,
            Err(error) => {
                return Err(error);
            },
        },
        Ok(None) => {
            return Err(unrouted_cancellation(id, records));
        },
    };
    let (origin, execution) = target.machines();
    let unchecked = records.unchecked.machines();
    let others = without_owners(&unchecked, origin, execution);
    if others.len() > 0 {
        return Err(AppError::ClusterLookupIncomplete { task: id, unchecked: others });
    }
    Ok(target)
}

fn unrouted_cancellation(id: TaskId, records: &Records) -> (error: AppError)
    requires
        records.routes@.len() == 0,
    ensures
        owner_in(id, *records) == Err::<CancellationOwner, ErrorView>(error@),
{
    if records.identities.entries.len() > 0 {
        let machine = records.identities.entries[0].0;
        let (origin_machine, execution_machine) = records.identities.entries[0].1.owners();
        if machine != execution_machine {
            return AppError::ClusterTaskConflict { task: id };
        }
        if records.unchecked.contains(origin_machine) {
            let unchecked = vec![origin_machine];
            proof {
                assert(unchecked@ =~= seq![origin_machine]);
            }
            return AppError::ClusterLookupIncomplete { task: id, unchecked };
        }
        return AppError::ClusterTaskConflict { task: id };
    }
    if records.unchecked.entries.len() > 0 {
        return AppError::ClusterLookupIncomplete {
            task: id,
            unchecked: records.unchecked.machines(),
        };
    }
    if records.executions.entries.len() > 0 {
        let machine = records.executions.entries[0].0;
        let unchecked = vec![machine];
        proof {
            assert(unchecked@ =~= seq![machine]);
        }
        return AppError::ClusterLookupIncomplete { task: id, unchecked };
    }
    absent(id, records)
}

/// A cancellation only reaches an owner that a retained route names, and only when every
/// machine but that owner's two was checked.
pub proof fn cancellations_need_a_checked_route(id: TaskId, records: Records)
    requires
        owner_in(id, records) is Ok,
    ensures
        records.routes@.len() > 0,
        !routes_disagree(records.routes@),
        records.routes@[0].1.task == id,
        records.routes@[0].1.origin_machine == records.routes@[0].0,
        owner_in(id, records)->Ok_0.spec_machines() == (
            records.routes@[0].1.origin_machine,
            records.routes@[0].1.execution_machine,
        ),
        other_unchecked(
            keys(records.unchecked@),
            records.routes@[0].1.origin_machine,
            records.routes@[0].1.execution_machine,
        ).len() == 0,
{
}

/// The origin that an inspection shows for a task that `executor` runs.
pub open spec fn shown_origin(records: Records, executor: MachineId) -> MachineId {
    if records.routes@.len() > 0 {
        records.routes@[0].1.origin_machine
    } else {
        identity_origin(records.identities@, executor)
    }
}

/// The origin that the identity retained on `machine` names, or the machine itself.
pub open spec fn identity_origin(
    identities: Seq<(MachineId, IdentitySummary)>,
    machine: MachineId,
) -> MachineId
    decreases identities.len(),
{
    if identities.len() == 0 {
        machine
    } else if identities[0].0 == machine {
        identities[0].1.owners().0
    } else {
        identity_origin(identities.drop_first(), machine)
    }
}

/// The origin that an inspection shows for a task that `executor` runs.
pub fn origin_for(records: &Records, executor: MachineId) -> (origin: MachineId)
    ensures
        origin == shown_origin(*records, executor),
{
    if records.routes.entries.len() > 0 {
        return records.routes.entries[0].1.origin_machine;
    }
    let mut at: usize = 0;
    proof {
        assert(records.identities@.skip(0) =~= records.identities@);
    }
    while at < records.identities.entries.len()
        invariant
            at <= records.identities@.len(),
            records.routes@.len() == 0,
            identity_origin(records.identities@, executor) == identity_origin(
                records.identities@.skip(at as int),
                executor,
            ),
        decreases records.identities@.len() - at,
    {
        proof {
            assert(records.identities@.skip(at as int)[0] == records.identities@[at as int]);
            assert(records.identities@.skip(at as int).drop_first()
                =~= records.identities@.skip(at as int + 1));
        }
        if records.identities.entries[at].0 == executor {
            return records.identities.entries[at].1.owners().0;
        }
        at += 1;
    }
    executor
}

/// How much of a task an inspection could see.
#[derive(Debug, Clone, Copy, PartialEq, Eq, Structural)]
pub enum Availability {
    Available,
    Rejected,
    ExecutorUnavailable,
    DetailUnavailable,
}

impl Availability {
    /// The name that an inspection shows.
    pub fn as_str(self) -> (name: &'static str)
        ensures
            name@ == (match self {
                Availability::Available => "available"@,
                Availability::Rejected => "rejected"@,
                Availability::ExecutorUnavailable => "executor_unavailable"@,
                Availability::DetailUnavailable => "detail_unavailable"@,
            }),
    {
        match self {
            Availability::Available => "available",
            Availability::Rejected => "rejected",
            Availability::ExecutorUnavailable => "executor_unavailable",
            Availability::DetailUnavailable => "detail_unavailable",
        }
    }
}

/// The machines and availability that an inspection adds to what it shows.
#[derive(Debug, Clone, Copy, PartialEq, Eq, Structural)]
pub struct Annotation {
    pub origin_machine: MachineId,
    pub execution_machine: MachineId,
    pub found_on: MachineId,
    pub availability: Availability,
}

/// What an inspection shows.
#[derive(Debug)]
pub enum ShowStep<'a> {
    /// Read the detail from its executor, and show it with these failures.
    ReadDetail { annotation: Annotation, failed_events: Option<&'a Vec<CallbackFailureSummary>> },
    /// A retained identity without detail.
    Identity(CompactIdentity<'a>),
    /// The origin's last knowledge.
    Cached(CachedRoute<'a>),
    Failed(AppError),
}

/// What is left of the submission of a retained identity.
#[derive(Debug)]
pub enum CompactSubmission<'a> {
    Rejected { reason: &'a String },
}

/// A retained identity without detail.
#[derive(Debug)]
pub struct CompactIdentity<'a> {
    pub api_version: u32,
    pub id: TaskId,
    /// Last process state of accepted work.
    pub status: Option<ProcessStatus>,
    /// The rejected submission of a task that can never start.
    pub submission: Option<CompactSubmission<'a>>,
    /// Why the task can never start.
    pub reason: Option<&'a String>,
    /// Whether more of the task can be read.
    pub detail_available: bool,
    pub annotation: Annotation,
}

/// The origin's last knowledge of a task.
#[derive(Debug)]
pub struct CachedRoute<'a> {
    pub route: &'a OriginSummary,
    /// Last process state, as far as the submission lets one be known.
    pub status: Option<ProcessStatus>,
    pub annotation: Annotation,
}

/// Process state that a route may show.
pub open spec fn cached_status(route: OriginSummary) -> Option<ProcessStatus> {
    match route.submission {
        SubmissionState::Accepted => route.last_execution_state,
        SubmissionState::Resource { .. } => route.last_execution_state,
        SubmissionState::ResourceAction { phase: BoundRoutePhase::Accepted, .. } =>
            route.last_execution_state,
        SubmissionState::ResourceBackground { phase: BoundRoutePhase::Accepted, .. } =>
            route.last_execution_state,
        _ => None,
    }
}

/// Whether a route's submission was rejected for good.
pub open spec fn rejected_route(route: OriginSummary) -> bool {
    match route.submission {
        SubmissionState::Rejected { .. } => true,
        SubmissionState::ResourceAction { phase: BoundRoutePhase::Rejected { .. }, .. } => true,
        SubmissionState::ResourceBackground { phase: BoundRoutePhase::Rejected { .. }, .. } => true,
        _ => false,
    }
}

/// How much of a routed task an inspection can see without its executor.
pub open spec fn cached_availability(records: Records, route: OriginSummary) -> Availability {
    if rejected_route(route) {
        Availability::Rejected
    } else if has_machine(records.unchecked@, route.execution_machine) {
        Availability::ExecutorUnavailable
    } else {
        Availability::DetailUnavailable
    }
}

/// The cached route of records that have one.
pub open spec fn cached<'a>(records: &'a Records) -> CachedRoute<'a> {
    let route = &records.routes@[0].1;
    CachedRoute {
        route,
        status: cached_status(*route),
        annotation: Annotation {
            origin_machine: route.origin_machine,
            execution_machine: route.execution_machine,
            found_on: records.routes@[0].0,
            availability: cached_availability(*records, *route),
        },
    }
}

/// The origin's last knowledge of a task.
pub fn cached_route<'a>(records: &'a Records, id: TaskId) -> (result: Result<
    CachedRoute<'a>,
    AppError,
>)
    ensures
        result == if routes_disagree(records.routes@) {
            Err(AppError::ClusterTaskConflict { task: id })
        } else if records.routes@.len() == 0 {
            Err(AppError::TaskNotFound { id })
        } else {
            Ok(cached(records))
        },
{
    let (found, route) = match records.route(id) {
        Err(error) => {
            return Err(error);
        },
        Ok(None) => {
            return Err(AppError::TaskNotFound { id });
        },
        Ok(Some((found, route))) => (*found, route),
    };
    let status = match &route.submission {
        SubmissionState::Accepted | SubmissionState::Resource { .. } => route.last_execution_state,
        SubmissionState::ResourceAction { phase: BoundRoutePhase::Accepted, .. }
        | SubmissionState::ResourceBackground { phase: BoundRoutePhase::Accepted, .. } =>
            route.last_execution_state,
        _ => None,
    };
    let rejected = match &route.submission {
        SubmissionState::Rejected { .. }
        | SubmissionState::ResourceAction { phase: BoundRoutePhase::Rejected { .. }, .. }
        | SubmissionState::ResourceBackground { phase: BoundRoutePhase::Rejected { .. }, .. } =>
            true,
        _ => false,
    };
    let availability = if rejected {
        Availability::Rejected
    } else if records.unchecked.contains(route.execution_machine) {
        Availability::ExecutorUnavailable
    } else {
        Availability::DetailUnavailable
    };
    Ok(
        CachedRoute {
            route,
            status,
            annotation: Annotation {
                origin_machine: route.origin_machine,
                execution_machine: route.execution_machine,
                found_on: found,
                availability,
            },
        },
    )
}

/// What an inspection without a readable execution shows.
pub open spec fn shown_without_execution<'a>(
    id: TaskId,
    records: &'a Records,
    step: ShowStep<'a>,
) -> bool {
    if records.identities@.len() > 0 {
        step == ShowStep::Identity(
            compacted(id, records.identities@[0].0, &records.identities@[0].1),
        )
    } else if routes_disagree(records.routes@) {
        step == ShowStep::<'a>::Failed(AppError::ClusterTaskConflict { task: id })
    } else if records.routes@.len() > 0 {
        step == ShowStep::Cached(cached(records))
    } else {
        step matches ShowStep::Failed(error) && error@ == absent_error(id, *records)
    }
}

/// Decide what an inspection of a task on another machine shows.
pub fn show<'a>(id: TaskId, records: &'a Records) -> (step: ShowStep<'a>)
    ensures
        if records.executions@.len() > 0 {
            step == (ShowStep::ReadDetail {
                annotation: Annotation {
                    origin_machine: shown_origin(*records, records.executions@[0].0),
                    execution_machine: records.executions@[0].0,
                    found_on: records.executions@[0].0,
                    availability: Availability::Available,
                },
                failed_events: if records.routes@.len() > 0 {
                    Some(&records.routes@[0].1.failed_events)
                } else {
                    None
                },
            })
        } else {
            shown_without_execution(id, records, step)
        },
{
    if records.executions.entries.len() > 0 {
        let machine = records.executions.entries[0].0;
        return ShowStep::ReadDetail {
            annotation: Annotation {
                origin_machine: origin_for(records, machine),
                execution_machine: machine,
                found_on: machine,
                availability: Availability::Available,
            },
            failed_events: if records.routes.entries.len() > 0 {
                Some(&records.routes.entries[0].1.failed_events)
            } else {
                None
            },
        };
    }
    if records.identities.entries.len() > 0 {
        let machine = records.identities.entries[0].0;
        return ShowStep::Identity(
            compact_identity(id, machine, &records.identities.entries[0].1),
        );
    }
    match cached_route(records, id) {
        Ok(cached) => ShowStep::Cached(cached),
        Err(error) => {
            if records.routes.entries.len() == 0 {
                ShowStep::Failed(absent(id, records))
            } else {
                ShowStep::Failed(error)
            }
        },
    }
}

/// What is shown of the identity that a machine retains.
pub open spec fn compacted<'a>(
    id: TaskId,
    machine: MachineId,
    identity: &'a IdentitySummary,
) -> CompactIdentity<'a> {
    CompactIdentity {
        api_version: API_VERSION,
        id,
        status: match *identity {
            IdentitySummary::Accepted { status, .. } => Some(status),
            IdentitySummary::Rejected { .. } => None,
        },
        submission: match identity {
            IdentitySummary::Accepted { .. } => None,
            IdentitySummary::Rejected { reason, .. } => Some(
                CompactSubmission::Rejected { reason },
            ),
        },
        reason: match identity {
            IdentitySummary::Accepted { .. } => None,
            IdentitySummary::Rejected { reason, .. } => Some(reason),
        },
        detail_available: false,
        annotation: Annotation {
            origin_machine: identity.owners().0,
            execution_machine: identity.owners().1,
            found_on: machine,
            availability: Availability::DetailUnavailable,
        },
    }
}

/// What is shown of the identity that a machine retains: accepted work by its last state,
/// rejected work by its reason.
pub fn compact_identity<'a>(
    id: TaskId,
    machine: MachineId,
    identity: &'a IdentitySummary,
) -> (shown: CompactIdentity<'a>)
    ensures
        shown == compacted(id, machine, identity),
{
    let (origin_machine, execution_machine) = identity.owners();
    let (status, submission, reason) = match identity {
        IdentitySummary::Accepted { status, .. } => (Some(*status), None, None),
        IdentitySummary::Rejected { reason, .. } => (
            None,
            Some(CompactSubmission::Rejected { reason }),
            Some(reason),
        ),
    };
    CompactIdentity {
        api_version: API_VERSION,
        id,
        status,
        submission,
        reason,
        detail_available: false,
        annotation: Annotation {
            origin_machine,
            execution_machine,
            found_on: machine,
            availability: Availability::DetailUnavailable,
        },
    }
}

/// Decide what is shown when the executor's detail could not be read.
pub fn show_unreadable<'a>(id: TaskId, records: &'a Records, machine: MachineId) -> (step: ShowStep<
    'a,
>)
    ensures
        step == if routes_disagree(records.routes@) {
            ShowStep::<'a>::Failed(AppError::ClusterTaskConflict { task: id })
        } else if records.routes@.len() > 0 {
            ShowStep::Cached(cached(records))
        } else {
            ShowStep::Failed(AppError::TaskUnavailable { task: id, machine })
        },
{
    if records.routes.entries.len() == 0 {
        return ShowStep::Failed(AppError::TaskUnavailable { task: id, machine });
    }
    match cached_route(records, id) {
        Ok(cached) => ShowStep::Cached(cached),
        Err(error) => ShowStep::Failed(error),
    }
}

/// What [`log`] answers.
pub open spec fn log_source(id: TaskId, records: Records) -> Result<Annotation, ErrorView> {
    if records.executions@.len() > 0 {
        Ok(
            Annotation {
                origin_machine: shown_origin(records, records.executions@[0].0),
                execution_machine: records.executions@[0].0,
                found_on: records.executions@[0].0,
                availability: Availability::Available,
            },
        )
    } else if records.identities@.len() > 0 {
        match records.identities@[0].1 {
            IdentitySummary::Rejected { .. } => Err(ErrorView::TaskNotStarted { task: id }),
            IdentitySummary::Accepted { .. } => Err(
                ErrorView::TaskUnavailable { task: id, machine: records.identities@[0].0 },
            ),
        }
    } else if routes_disagree(records.routes@) {
        Err(ErrorView::ClusterTaskConflict { task: id })
    } else if records.routes@.len() > 0 {
        match records.routes@[0].1.submission {
            SubmissionState::Rejected { .. } => Err(ErrorView::TaskNotStarted { task: id }),
            _ => Err(
                ErrorView::TaskUnavailable {
                    task: id,
                    machine: records.routes@[0].1.execution_machine,
                },
            ),
        }
    } else {
        Err(absent_error(id, records))
    }
}

/// Where the log of a task on another machine is read: only its executor has one.
pub fn log(id: TaskId, records: &Records) -> (source: Result<Annotation, AppError>)
    ensures
        match log_source(id, *records) {
            Ok(annotation) => source == Ok::<Annotation, AppError>(annotation),
            Err(error) => source matches Err(found) && found@ == error,
        },
{
    if records.executions.entries.len() > 0 {
        let machine = records.executions.entries[0].0;
        return Ok(
            Annotation {
                origin_machine: origin_for(records, machine),
                execution_machine: machine,
                found_on: machine,
                availability: Availability::Available,
            },
        );
    }
    if records.identities.entries.len() > 0 {
        return match records.identities.entries[0].1 {
            IdentitySummary::Rejected { .. } => Err(AppError::TaskNotStarted { task: id }),
            IdentitySummary::Accepted { .. } => Err(
                AppError::TaskUnavailable { task: id, machine: records.identities.entries[0].0 },
            ),
        };
    }
    match records.route(id) {
        Err(error) => Err(error),
        Ok(Some((_, route))) => match route.submission {
            SubmissionState::Rejected { .. } => Err(AppError::TaskNotStarted { task: id }),
            _ => Err(AppError::TaskUnavailable { task: id, machine: route.execution_machine }),
        },
        Ok(None) => Err(absent(id, records)),
    }
}

/// Query that every cluster read ends with.
pub open spec fn read_query_text(machine: MachineId) -> Seq<char> {
    "api_version="@ + decimal_digits(API_VERSION as nat) + ("&destination_machine="@ + hyphenated(
        machine.0,
    ))
}

/// Query that every cluster read ends with.
pub fn read_query(machine: MachineId) -> (text: String)
    ensures
        text@ == read_query_text(machine),
{
    let version = decimal(API_VERSION as u64);
    let uuid = machine.text();
    let head = join2("api_version=", version.as_str());
    let tail = join2("&destination_machine=", uuid.as_str());
    join2(head.as_str(), tail.as_str())
}

/// A path with the query of a cluster read, joined to a query that it already has.
pub fn remote_path(path: &str, machine: MachineId) -> (full: String)
    ensures
        full@ == path@ + (if path@.contains('?') {
            "&"@
        } else {
            "?"@
        }) + read_query_text(machine),
{
    let query = read_query(machine);
    let total: usize = path.unicode_len();
    let mut at: usize = 0;
    while at < total
        invariant
            at <= total,
            total == path@.len(),
            query@ == read_query_text(machine),
            forall|before: int| 0 <= before < at ==> path@[before] != '?',
        decreases total - at,
    {
        if path.get_char(at) == '?' {
            proof {
                assert(path@[at as int] == '?');
            }
            return join3(path, "&", query.as_str());
        }
        at += 1;
    }
    join3(path, "?", query.as_str())
}

/// Path of a task's log on its executor.
pub fn log_path(id: TaskId, tail: Option<u64>) -> (path: String)
    ensures
        path@ == "/v1/cluster/tasks/"@ + hyphenated(id.0) + "/log"@ + (match tail {
            Some(tail) => "?tail="@ + decimal_digits(tail as nat),
            None => ""@,
        }),
{
    let uuid = id.text();
    let path = join3("/v1/cluster/tasks/", uuid.as_str(), "/log");
    match tail {
        Some(tail) => {
            let number = decimal(tail);
            let query = join2("?tail=", number.as_str());
            join2(path.as_str(), query.as_str())
        },
        None => join2(path.as_str(), ""),
    }
}

/// What [`remote_read`] makes of an answer.
pub open spec fn remote_body(
    response: Result<ClusterResponse, String>,
    machine: MachineId,
    id: TaskId,
) -> Result<(), ErrorView> {
    match response {
        Err(error) => Err(ErrorView::MachineUnavailable { machine, message: error@ }),
        Ok(response) => if response.status.number() != 200 {
            Err(ErrorView::TaskUnavailable { task: id, machine })
        } else {
            match json_text_member(response.body@, "id"@) {
                Err(error) => Err(ErrorView::Internal { message: error }),
                Ok(named) => match json_number_member(response.body@, "api_version"@) {
                    Err(error) => Err(ErrorView::Internal { message: error }),
                    Ok(version) => if answers(named, version, id) {
                        Ok(())
                    } else {
                        Err(ErrorView::TaskUnavailable { task: id, machine })
                    },
                },
            }
        },
    }
}

/// Whether the two members of a body say that it is about the named task and of this API version.
pub open spec fn answers(named: Option<Seq<char>>, version: Option<u64>, id: TaskId) -> bool {
    named == Some(hyphenated(id.0)) && version == Some(API_VERSION as u64)
}

/// Whether the two members of a body say that it is about the named task and of this API version.
pub fn names_task(named: &Option<String>, version: Option<u64>, id: TaskId) -> (names: bool)
    ensures
        names == answers(optional_text(*named), version, id),
{
    let uuid = id.text();
    let same_task = match named {
        Some(named) => same_text(named.as_str(), uuid.as_str()),
        None => false,
    };
    same_task && version == Some(API_VERSION as u64)
}

/// Accept a peer's body only when it is about the named task and of this API version.
///
/// `response` is the peer's answer, or the text of a failed request.
pub fn remote_read(response: &Result<ClusterResponse, String>, machine: MachineId, id: TaskId) -> (result:
    Result<(), AppError>)
    ensures
        match remote_body(*response, machine, id) {
            Ok(_) => result is Ok,
            Err(error) => result matches Err(found) && found@ == error,
        },
{
    let response = match response {
        Ok(response) => response,
        Err(error) => {
            return Err(AppError::MachineUnavailable { machine, message: error.clone() });
        },
    };
    if !response.status.is_ok() {
        return Err(AppError::TaskUnavailable { task: id, machine });
    }
    let named = match text_member(&response.body, "id") {
        Ok(named) => named,
        Err(message) => {
            return Err(AppError::Internal { message });
        },
    };
    let version = match number_member(&response.body, "api_version") {
        Ok(version) => version,
        Err(message) => {
            return Err(AppError::Internal { message });
        },
    };
    if !names_task(&named, version, id) {
        return Err(AppError::TaskUnavailable { task: id, machine });
    }
    Ok(())
}

/// The three cluster reads that [`read_peer`] judges.
#[derive(Debug)]
pub struct PeerPaths {
    pub execution: String,
    pub origin: String,
    pub identity: String,
}

/// Paths of the three cluster reads about one task on one machine.
pub fn peer_paths(machine: MachineId, id: TaskId) -> (paths: PeerPaths)
    ensures
        paths.execution@ == "/v1/cluster/tasks/"@ + hyphenated(id.0) + "?"@ + read_query_text(
            machine,
        ),
        paths.origin@ == "/v1/cluster/origin/tasks/"@ + hyphenated(id.0) + "?"@ + read_query_text(
            machine,
        ),
        paths.identity@ == "/v1/cluster/identities/"@ + hyphenated(id.0) + "?"@ + read_query_text(
            machine,
        ),
{
    let uuid = id.text();
    let query = read_query(machine);
    let execution = join3("/v1/cluster/tasks/", uuid.as_str(), "?");
    let origin = join3("/v1/cluster/origin/tasks/", uuid.as_str(), "?");
    let identity = join3("/v1/cluster/identities/", uuid.as_str(), "?");
    PeerPaths {
        execution: join2(execution.as_str(), query.as_str()),
        origin: join2(origin.as_str(), query.as_str()),
        identity: join2(identity.as_str(), query.as_str()),
    }
}

/// Next part of reaching a machine.
#[derive(Debug)]
pub enum ConnectStep {
    /// The machine was reached.
    Connected,
    /// Probe this address, and check that the machine answers there.
    Probe { address: String, next: AwaitProbe },
    Failed(AppError),
}

/// Waiting for a probe of one hinted address.
#[derive(Debug)]
pub struct AwaitProbe {
    pub machine: MachineId,
    /// Addresses that are still to be tried, in order.
    pub hints: Vec<String>,
}

/// The next address to try, or the end of the search.
pub open spec fn next_hint(machine: MachineId, hints: Seq<String>, step: ConnectStep) -> bool {
    if hints.len() == 0 {
        step matches ConnectStep::Failed(error) && error@ == (ErrorView::MachineUnavailable {
            machine,
            message: "no verified executor address"@,
        })
    } else {
        &&& step matches ConnectStep::Probe { address, next }
        &&& address == hints[0]
        &&& next.machine == machine
        &&& next.hints@ == hints.drop_first()
    }
}

fn try_hint(machine: MachineId, hints: Vec<String>) -> (step: ConnectStep)
    ensures
        next_hint(machine, hints@, step),
{
    let mut hints = hints;
    if hints.len() == 0 {
        return ConnectStep::Failed(
            AppError::MachineUnavailable {
                machine,
                message: "no verified executor address".to_owned(),
            },
        );
    }
    let ghost all = hints@;
    let address = hints.remove(0);
    proof {
        assert(hints@ =~= all.drop_first());
    }
    ConnectStep::Probe { address, next: AwaitProbe { machine, hints } }
}

/// Reach a machine: as the fleet knows it, else at the first hinted address where it answers.
///
/// `connected` tells whether the fleet's own connection worked.
pub fn connect_or_hints(machine: MachineId, connected: bool, hints: Vec<String>) -> (step:
    ConnectStep)
    ensures
        if connected {
            step == ConnectStep::Connected
        } else {
            next_hint(machine, hints@, step)
        },
{
    if connected {
        ConnectStep::Connected
    } else {
        try_hint(machine, hints)
    }
}

impl AwaitProbe {
    /// Stop at the first address where the machine itself answered.
    pub fn on_probe(self, verified: bool) -> (step: ConnectStep)
        ensures
            if verified {
                step == ConnectStep::Connected
            } else {
                next_hint(self.machine, self.hints@, step)
            },
    {
        if verified {
            ConnectStep::Connected
        } else {
            try_hint(self.machine, self.hints)
        }
    }
}

impl Records {
    /// The address where a machine answered this lookup.
    pub fn address_hint(&self, machine: MachineId) -> (address: Option<&String>)
        ensures
            match address {
                Some(address) => self.addresses@.contains((machine, *address)),
                None => !has_machine(self.addresses@, machine),
            },
    {
        self.addresses.get(machine)
    }
}

/// The addresses that an inventory lists for a machine.
pub open spec fn listed_addresses(machines: Seq<PeerView>, machine: MachineId) -> Seq<Seq<char>>
    decreases machines.len(),
{
    if machines.len() == 0 {
        Seq::empty()
    } else if machines[0].machine == machine {
        texts(machines[0].addresses@)
    } else {
        listed_addresses(machines.drop_first(), machine)
    }
}

/// The addresses that a route's origin knows for its executor: none when the answer is not a
/// usable inventory of that origin itself.
pub open spec fn hinted_addresses(
    answer: Option<PeerAnswer<MachinesBody>>,
    origin: MachineId,
    executor: MachineId,
) -> Seq<Seq<char>> {
    match answer {
        Some(answer) => match answer.body {
            Some(body) => if answer.status == 200 && body.api_version == API_VERSION
                && body.local.machine == origin {
                listed_addresses(body.machines@, executor)
            } else {
                Seq::empty()
            },
            None => Seq::empty(),
        },
        None => Seq::empty(),
    }
}

/// The addresses that a route's origin knows for its executor.
pub fn origin_address_hints(
    answer: &Option<PeerAnswer<MachinesBody>>,
    origin: MachineId,
    executor: MachineId,
) -> (hints: Vec<String>)
    ensures
        texts(hints@) == hinted_addresses(*answer, origin, executor),
{
    if let Some(PeerAnswer { status, body: Some(body) }) = answer {
        if *status == 200 && body.api_version == API_VERSION && body.local.machine == origin {
            let mut at: usize = 0;
            proof {
                assert(body.machines@.skip(0) =~= body.machines@);
            }
            while at < body.machines.len()
                invariant
                    at <= body.machines.len(),
                    hinted_addresses(*answer, origin, executor) == listed_addresses(
                        body.machines@.skip(at as int),
                        executor,
                    ),
                decreases body.machines.len() - at,
            {
                proof {
                    assert(body.machines@.skip(at as int)[0] == body.machines@[at as int]);
                    assert(body.machines@.skip(at as int).drop_first() =~= body.machines@.skip(
                        at as int + 1,
                    ));
                }
                if body.machines[at].machine == executor {
                    return copy_texts(&body.machines[at].addresses);
                }
                at += 1;
            }
        }
    }
    let hints: Vec<String> = Vec::new();
    proof {
        assert(texts(hints@) =~= Seq::<Seq<char>>::empty());
    }
    hints
}

/// The origin that a retained identity names.
pub open spec fn identity_origin_of(identity: Option<ExecutorIdentity>) -> Option<MachineId> {
    match identity {
        Some(ExecutorIdentity::Accepted(record)) => Some(record.origin_machine),
        Some(ExecutorIdentity::Rejected(record)) => Some(record.origin_machine),
        None => None,
    }
}

/// The origin that a retained identity names.
pub fn local_identity_origin(identity: &Option<ExecutorIdentity>) -> (origin: Option<MachineId>)
    ensures
        origin == identity_origin_of(*identity),
{
    match identity {
        Some(ExecutorIdentity::Accepted(record)) => Some(record.origin_machine),
        Some(ExecutorIdentity::Rejected(record)) => Some(record.origin_machine),
        None => None,
    }
}

/// What an inspection adds to a task that this machine runs.
pub fn annotate_local(local: MachineId, identity: &Option<ExecutorIdentity>) -> (annotation:
    Annotation)
    ensures
        annotation == (Annotation {
            origin_machine: match identity_origin_of(*identity) {
                Some(origin) => origin,
                None => local,
            },
            execution_machine: local,
            found_on: local,
            availability: Availability::Available,
        }),
{
    let origin_machine = match local_identity_origin(identity) {
        Some(origin) => origin,
        None => local,
    };
    Annotation {
        origin_machine,
        execution_machine: local,
        found_on: local,
        availability: Availability::Available,
    }
}

/// The failures that an inspection of a local task shows: none of their own without a route.
pub fn local_failures(routed: bool, failures: &Vec<FailedInboxEvent>) -> (shown: Option<
    Vec<CallbackFailureSummary>,
>)
    ensures
        match shown {
            None => !routed,
            Some(summaries) => routed && safe_failures(failures@, summaries@),
        },
{
    if routed {
        Some(summarize_failures(failures))
    } else {
        None
    }
}

} // verus!
