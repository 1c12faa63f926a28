//! Local fleet control and read-only machine inventory.

use vstd::prelude::*;

use crate::actors::store::StoreMsg;
use crate::cluster::{ExecutionBody, ExecutionView};
use crate::domain::TaskRow;
use crate::error::{usage, AppError, ErrorView};
use crate::events::FailedInboxEvent;
use crate::fleet::API_VERSION;
use crate::ids::{hyphenated, uuid_parsed, MachineId, TaskId};
use crate::inspection::{peer_paths, read_query_text, PeerAnswer};
use crate::submission::OriginRoute;
use crate::text::join2;

verus! {

/// Whether another daemon claims this installation's identity.
#[derive(Debug, Clone, Copy, PartialEq, Eq, Structural)]
pub enum LocalIdentityStatus {
    Consistent,
    Conflicting,
}

/// Whether a peer answered its last probe.
#[derive(Debug, Clone, Copy, PartialEq, Eq, Structural)]
pub enum Reachability {
    Online,
    Offline,
}

/// One known machine of the fleet.
#[derive(Debug)]
pub struct PeerView {
    pub machine: MachineId,
    /// Display name.
    pub name: String,
    /// Version of the peer's daemon, from the last probe.
    pub version: String,
    /// Base URLs, best first.
    pub addresses: Vec<String>,
    pub reachability: Reachability,
}

/// The local machine fields shown with the fleet inventory.
#[derive(Debug)]
pub struct LocalView {
    /// Stable installation identity.
    pub machine: MachineId,
    /// Display name.
    pub name: String,
    /// Advertised listener addresses.
    pub advertised: Vec<String>,
    /// Whether another daemon claims this installation's identity.
    pub identity: LocalIdentityStatus,
}

/// Fleet inventory, with last-known offline peers.
#[derive(Debug)]
pub struct MachinesBody {
    /// Public API version.
    pub api_version: u32,
    /// This daemon's identity.
    pub local: LocalView,
    /// Known remote machines.
    pub machines: Vec<PeerView>,
    /// Addresses not yet bound to a machine identity.
    pub unresolved: Vec<String>,
}

/// One discovery round and its resulting inventory.
#[derive(Debug)]
pub struct DiscoverBody {
    /// Probe round result, as JSON.
    pub round: String,
    /// Current inventory.
    pub inventory: MachinesBody,
}

/// Strict address mutation or probe request.
#[derive(Debug)]
pub struct AddressBody {
    /// Public API version.
    pub api_version: u32,
    /// Base HTTP URL.
    pub address: String,
}

/// Strict remove request. A known identity or an explicit address is accepted.
#[derive(Debug)]
pub struct RemoveBody {
    /// Public API version.
    pub api_version: u32,
    /// Machine identity or base HTTP URL.
    pub machine_or_address: String,
}

/// Result of a fleet control operation.
#[derive(Debug, Clone, Copy, PartialEq, Eq, Structural)]
pub struct ChangeBody {
    /// Public API version.
    pub api_version: u32,
    /// Whether the directory changed.
    pub changed: bool,
}

/// Probe result, with incompatible peers by identity.
#[derive(Debug)]
pub struct ProbeBody {
    /// Public API version.
    pub api_version: u32,
    /// Probe result.
    pub machine: ProbedMachineView,
}

/// Probe fields that are present for both compatible and incompatible peers.
#[derive(Debug)]
pub struct ProbedMachineView {
    /// Stable identity.
    pub machine: MachineId,
    /// Name given by the answering daemon.
    pub name: String,
    /// Whether this daemon supports its cluster protocol.
    pub compatible: bool,
}

/// Strict versioned request without operation fields.
#[derive(Debug, Clone, Copy, PartialEq, Eq, Structural)]
pub struct VersionBody {
    /// Public API version.
    pub api_version: u32,
}

/// What [`check_version`] answers.
pub open spec fn version_gate(version: u32) -> Result<(), ErrorView> {
    if version == API_VERSION {
        Ok(())
    } else {
        Err(ErrorView::Usage { message: "unsupported API version"@ })
    }
}

/// Refuse a request of another API version.
pub fn check_version(version: u32) -> (result: Result<(), AppError>)
    ensures
        match version_gate(version) {
            Ok(_) => result is Ok,
            Err(error) => result matches Err(found) && found@ == error,
        },
{
    if version == API_VERSION {
        Ok(())
    } else {
        Err(usage("unsupported API version"))
    }
}

/// What stands before a fleet control operation: the version first, then the fleet itself.
pub open spec fn control_gate(version: u32, enabled: bool) -> Result<(), ErrorView> {
    if version != API_VERSION {
        Err(ErrorView::Usage { message: "unsupported API version"@ })
    } else if !enabled {
        Err(ErrorView::Usage { message: "fleet is disabled"@ })
    } else {
        Ok(())
    }
}

/// Refuse fleet control while this machine is in no fleet.
pub fn enabled(in_fleet: bool) -> (result: Result<(), AppError>)
    ensures
        result is Ok == in_fleet,
        result matches Err(error) ==> error@ == (ErrorView::Usage {
            message: "fleet is disabled"@,
        }),
{
    if in_fleet {
        Ok(())
    } else {
        Err(usage("fleet is disabled"))
    }
}

/// Admit a fleet control operation.
pub fn check_control(version: u32, in_fleet: bool) -> (result: Result<(), AppError>)
    ensures
        match control_gate(version, in_fleet) {
            Ok(_) => result is Ok,
            Err(error) => result matches Err(found) && found@ == error,
        },
{
    match check_version(version) {
        Err(error) => Err(error),
        Ok(_) => enabled(in_fleet),
    }
}

/// What the fleet knows of this machine and its peers.
#[derive(Debug)]
pub struct FleetState {
    pub advertised: Vec<String>,
    pub identity: LocalIdentityStatus,
    pub machines: Vec<PeerView>,
    pub unresolved: Vec<String>,
}

/// The machines that this daemon knows: only itself outside a fleet.
pub fn inventory(machine: MachineId, name: String, fleet: Option<FleetState>) -> (body:
    MachinesBody)
    ensures
        body.api_version == API_VERSION,
        body.local.machine == machine,
        body.local.name == name,
        match fleet {
            Some(fleet) => {
                &&& body.local.advertised == fleet.advertised
                &&& body.local.identity == fleet.identity
                &&& body.machines == fleet.machines
                &&& body.unresolved == fleet.unresolved
            },
            None => {
                &&& body.local.advertised@.len() == 0
                &&& body.local.identity == LocalIdentityStatus::Consistent
                &&& body.machines@.len() == 0
                &&& body.unresolved@.len() == 0
            },
        },
{
    let fleet = match fleet {
        Some(fleet) => fleet,
        None => FleetState {
            advertised: Vec::new(),
            identity: LocalIdentityStatus::Consistent,
            machines: Vec::new(),
            unresolved: Vec::new(),
        },
    };
    MachinesBody {
        api_version: API_VERSION,
        local: LocalView {
            machine,
            name,
            advertised: fleet.advertised,
            identity: fleet.identity,
        },
        machines: fleet.machines,
        unresolved: fleet.unresolved,
    }
}

/// Answer to a probe: its header, or the probe's failure as a usage error.
pub fn probe_answer(probed: Result<ProbedMachineView, String>) -> (body: Result<
    ProbeBody,
    AppError,
>)
    ensures
        body == (match probed {
            Ok(machine) => Ok(ProbeBody { api_version: API_VERSION, machine }),
            Err(message) => Err(AppError::Usage { message }),
        }),
{
    match probed {
        Ok(machine) => Ok(ProbeBody { api_version: API_VERSION, machine }),
        Err(message) => Err(AppError::Usage { message }),
    }
}

/// Answer to a change of the directory.
pub fn change_answer(changed: bool) -> (body: ChangeBody)
    ensures
        body == (ChangeBody { api_version: API_VERSION, changed }),
{
    ChangeBody { api_version: API_VERSION, changed }
}

/// What a remove request asks of the directory.
#[derive(Debug)]
pub enum Removal {
    /// Drop an explicit address.
    Address(String),
    /// Forget a machine.
    Machine(MachineId),
}

/// What [`remove`] makes of a request.
pub open spec fn removal(
    version: u32,
    enabled: bool,
    address: Option<String>,
    text: Seq<char>,
) -> Result<Removal, ErrorView> {
    match control_gate(version, enabled) {
        Err(error) => Err(error),
        Ok(_) => match address {
            Some(address) => Ok(Removal::Address(address)),
            None => match uuid_parsed(text) {
                Some(uuid) => Ok(Removal::Machine(MachineId(uuid))),
                None => Err(
                    ErrorView::Usage { message: "expected a machine UUID or HTTP address"@ },
                ),
            },
        },
    }
}

/// Decide what to remove: an address when the text is one, else a machine.
///
/// `address` is what the text gives as an address.
pub fn remove(body: &RemoveBody, in_fleet: bool, address: Option<String>) -> (result: Result<
    Removal,
    AppError,
>)
    ensures
        match removal(body.api_version, in_fleet, address, body.machine_or_address@) {
            Ok(removal) => result == Ok::<Removal, AppError>(removal),
            Err(error) => result matches Err(found) && found@ == error,
        },
{
    match check_control(body.api_version, in_fleet) {
        Err(error) => {
            return Err(error);
        },
        Ok(_) => {},
    }
    match address {
        Some(address) => Ok(Removal::Address(address)),
        None => match MachineId::parse(body.machine_or_address.as_str()) {
            Some(machine) => Ok(Removal::Machine(machine)),
            None => Err(usage("expected a machine UUID or HTTP address")),
        },
    }
}

/// Event delivery of a task that this machine executes.
pub fn executor_event_detail<T>(id: TaskId, status: Option<T>) -> (detail: Result<T, AppError>)
    ensures
        detail == (match status {
            Some(status) => Ok(status),
            None => Err(AppError::TaskNotFound { id }),
        }),
{
    match status {
        Some(status) => Ok(status),
        None => Err(AppError::TaskNotFound { id }),
    }
}

/// Origin-owned event delivery detail, separate from executor process state.
#[derive(Debug)]
pub struct OriginInboxDetail {
    /// Public API version.
    pub api_version: u32,
    pub task: TaskId,
    /// Highest event sequence accepted at this origin.
    pub last_accepted_seq: u64,
    /// Highest contiguous settled event sequence.
    pub last_settled_seq: u64,
    /// Retained callback delivery failures.
    pub failed_events: Vec<FailedInboxEvent>,
}

/// Next part of an inbox read.
#[derive(Debug)]
pub enum InboxStep {
    AskRoute { message: StoreMsg, next: AwaitInboxRoute },
    AskFailures { message: StoreMsg, next: AwaitInboxFailures },
    Done(Result<OriginInboxDetail, AppError>),
}

/// Waiting for the origin route.
#[derive(Debug, Clone, Copy, PartialEq, Eq, Structural)]
pub struct AwaitInboxRoute {
    pub id: TaskId,
}

/// Waiting for the retained failures.
#[derive(Debug, Clone, Copy, PartialEq, Eq, Structural)]
pub struct AwaitInboxFailures {
    pub id: TaskId,
    pub last_accepted_seq: u64,
    pub last_settled_seq: u64,
}

/// Show the event delivery of a task that this machine submitted.
pub fn origin_inbox_detail(id: TaskId) -> (step: InboxStep)
    ensures
        step == (InboxStep::AskRoute {
            message: StoreMsg::OriginRoute { id },
            next: AwaitInboxRoute { id },
        }),
{
    InboxStep::AskRoute { message: StoreMsg::OriginRoute { id }, next: AwaitInboxRoute { id } }
}

impl AwaitInboxRoute {
    /// Only a route's own origin has an inbox for it.
    pub fn on_route(self, reply: Result<Option<OriginRoute>, AppError>) -> (step: InboxStep)
        ensures
            step == (match reply {
                Err(error) => InboxStep::Done(Err(error)),
                Ok(None) => InboxStep::Done(Err(AppError::RouteNotFound { task: self.id })),
                Ok(Some(route)) => InboxStep::AskFailures {
                    message: StoreMsg::FailedInboxEvents { id: self.id },
                    next: AwaitInboxFailures {
                        id: self.id,
                        last_accepted_seq: route.last_accepted_seq,
                        last_settled_seq: route.last_settled_seq,
                    },
                },
            }),
    {
        match reply {
            Err(error) => InboxStep::Done(Err(error)),
            Ok(None) => InboxStep::Done(Err(AppError::RouteNotFound { task: self.id })),
            Ok(Some(route)) => InboxStep::AskFailures {
                message: StoreMsg::FailedInboxEvents { id: self.id },
                next: AwaitInboxFailures {
                    id: self.id,
                    last_accepted_seq: route.last_accepted_seq,
                    last_settled_seq: route.last_settled_seq,
                },
            },
        }
    }
}

impl AwaitInboxFailures {
    /// The detail with the retained failures.
    pub fn on_failures(self, reply: Result<Vec<FailedInboxEvent>, AppError>) -> (step: InboxStep)
        ensures
            step == InboxStep::Done(
                match reply {
                    Err(error) => Err(error),
                    Ok(failed_events) => Ok(
                        OriginInboxDetail {
                            api_version: API_VERSION,
                            task: self.id,
                            last_accepted_seq: self.last_accepted_seq,
                            last_settled_seq: self.last_settled_seq,
                            failed_events,
                        },
                    ),
                },
            ),
    {
        match reply {
            Err(error) => InboxStep::Done(Err(error)),
            Ok(failed_events) => InboxStep::Done(
                Ok(
                    OriginInboxDetail {
                        api_version: API_VERSION,
                        task: self.id,
                        last_accepted_seq: self.last_accepted_seq,
                        last_settled_seq: self.last_settled_seq,
                        failed_events,
                    },
                ),
            ),
        }
    }
}

/// Why one known machine could not answer a lookup.
#[derive(Debug, Clone, Copy, PartialEq, Eq, Structural)]
pub enum LookupGapReason {
    /// No verified route could be established.
    Unavailable,
    /// The peer speaks no supported cluster protocol.
    Incompatible,
    /// A response did not match the strict read schema.
    InvalidResponse,
}

/// One machine that could not be checked.
#[derive(Debug, Clone, Copy, PartialEq, Eq, Structural)]
pub struct LookupGap {
    /// Stable machine identity.
    pub machine: MachineId,
    /// Why its records are unknown.
    pub reason: LookupGapReason,
}

/// Fleet-wide task lookup without inferred process state.
#[derive(Debug)]
pub enum LookupResult {
    /// One execution record was found.
    Found { execution: ExecutionView, unchecked: Vec<LookupGap> },
    /// Every known machine answered with no record.
    NotFound,
    /// No record was found, but at least one machine did not answer.
    Incomplete { unchecked: Vec<LookupGap> },
    /// More than one machine claims the same execution.
    OwnershipConflict { executions: Vec<ExecutionView>, unchecked: Vec<LookupGap> },
}

/// Versioned lookup response.
#[derive(Debug)]
pub struct LookupBody {
    /// Public API version.
    pub api_version: u32,
    /// Task requested.
    pub task: TaskId,
    /// Exact lookup outcome.
    pub outcome: LookupResult,
}

/// What one peer's answer to a lookup is worth.
pub type PeerLookup = Result<Option<ExecutionView>, LookupGap>;

/// How the connection to a peer failed.
#[derive(Debug, Clone, Copy, PartialEq, Eq, Structural)]
pub enum ConnectFailure {
    /// The peer speaks no supported cluster protocol.
    Incompatible,
    /// Any other failure.
    Unavailable,
}

/// What a connection error means for a lookup.
pub fn connect_failure(error: &AppError) -> (failure: ConnectFailure)
    ensures
        failure == if *error is ClusterProtocolIncompatible {
            ConnectFailure::Incompatible
        } else {
            ConnectFailure::Unavailable
        },
{
    match error {
        AppError::ClusterProtocolIncompatible { .. } => ConnectFailure::Incompatible,
        _ => ConnectFailure::Unavailable,
    }
}

/// Whether an answer is a peer's own, consistent record of a task, or its own absence of one.
pub open spec fn consistent(answer: PeerAnswer<ExecutionBody>, machine: MachineId, id: TaskId) -> bool {
    &&& answer.status == 200 || answer.status == 404
    &&& answer.body matches Some(body)
    &&& body.api_version == API_VERSION
    &&& body.execution matches Some(view) ==> view.task == id && view.execution_machine == machine
    &&& (answer.status == 200) == (body.execution is Some)
}

/// What [`lookup_peer`] makes of an answer.
pub open spec fn peer_lookup(
    answer: Result<Option<PeerAnswer<ExecutionBody>>, ConnectFailure>,
    machine: MachineId,
    id: TaskId,
) -> PeerLookup {
    match answer {
        Err(ConnectFailure::Incompatible) => Err(
            LookupGap { machine, reason: LookupGapReason::Incompatible },
        ),
        Err(ConnectFailure::Unavailable) => Err(
            LookupGap { machine, reason: LookupGapReason::Unavailable },
        ),
        Ok(None) => Err(LookupGap { machine, reason: LookupGapReason::Unavailable }),
        Ok(Some(answer)) => if consistent(answer, machine, id) {
            Ok(answer.body->0.execution)
        } else {
            Err(LookupGap { machine, reason: LookupGapReason::InvalidResponse })
        },
    }
}

/// Judge one peer's answer. A peer may only speak of its own executions.
///
/// `answer` is a failed connection, or the peer's answer when one came.
pub fn lookup_peer(
    answer: Result<Option<PeerAnswer<ExecutionBody>>, ConnectFailure>,
    machine: MachineId,
    id: TaskId,
) -> (lookup: PeerLookup)
    ensures
        lookup == peer_lookup(answer, machine, id),
{
    let answer = match answer {
        Err(ConnectFailure::Incompatible) => {
            return Err(LookupGap { machine, reason: LookupGapReason::Incompatible });
        },
        Err(ConnectFailure::Unavailable) => {
            return Err(LookupGap { machine, reason: LookupGapReason::Unavailable });
        },
        Ok(None) => {
            return Err(LookupGap { machine, reason: LookupGapReason::Unavailable });
        },
        Ok(Some(answer)) => answer,
    };
    let body = match answer.body {
        Some(body) => body,
        None => {
            return Err(LookupGap { machine, reason: LookupGapReason::InvalidResponse });
        },
    };
    let own = match body.execution {
        Some(view) => view.task == id && view.execution_machine == machine && answer.status == 200,
        None => answer.status == 404,
    };
    if body.api_version != API_VERSION || !own {
        return Err(LookupGap { machine, reason: LookupGapReason::InvalidResponse });
    }
    Ok(body.execution)
}

/// Path of the cluster read that [`lookup_peer`] judges.
pub fn lookup_path(machine: MachineId, id: TaskId) -> (path: String)
    ensures
        path@ == "/v1/cluster/tasks/"@ + hyphenated(id.0) + "?"@ + read_query_text(machine),
{
    peer_paths(machine, id).execution
}

/// Next part of a fleet-wide lookup.
#[derive(Debug)]
pub enum LookupStep {
    AskTask { message: StoreMsg, next: AwaitLookupTask },
    /// List the peers of the fleet, if this machine is in one, and look at each of them.
    AskPeers { next: AwaitLookups },
    Done(Result<LookupBody, AppError>),
}

/// Waiting for the local task.
#[derive(Debug, Clone, Copy, PartialEq, Eq, Structural)]
pub struct AwaitLookupTask {
    pub local: MachineId,
    pub id: TaskId,
}

/// Waiting for the peers.
#[derive(Debug, Clone, Copy, PartialEq, Eq, Structural)]
pub struct AwaitLookups {
    pub id: TaskId,
}

/// Look a task up, here first.
pub fn lookup_task(local: MachineId, id: TaskId) -> (step: LookupStep)
    ensures
        step == (LookupStep::AskTask {
            message: StoreMsg::GetTask { id },
            next: AwaitLookupTask { local, id },
        }),
{
    LookupStep::AskTask {
        message: StoreMsg::GetTask { id },
        next: AwaitLookupTask { local, id },
    }
}

impl AwaitLookupTask {
    /// A local execution answers without asking anyone.
    pub fn on_task(self, reply: Result<Option<TaskRow>, AppError>) -> (step: LookupStep)
        ensures
            match reply {
                Err(error) => step == LookupStep::Done(Err(error)),
                Ok(None) => step == (LookupStep::AskPeers { next: AwaitLookups { id: self.id } }),
                Ok(Some(row)) => {
                    &&& step matches LookupStep::Done(Ok(body))
                    &&& body.api_version == API_VERSION
                    &&& body.task == self.id
                    &&& body.outcome matches LookupResult::Found { execution, unchecked }
                    &&& execution == (ExecutionView {
                        task: self.id,
                        execution_machine: self.local,
                        status: row.status,
                    })
                    &&& unchecked@.len() == 0
                },
            },
    {
        match reply {
            Err(error) => LookupStep::Done(Err(error)),
            Ok(None) => LookupStep::AskPeers { next: AwaitLookups { id: self.id } },
            Ok(Some(row)) => LookupStep::Done(
                Ok(
                    LookupBody {
                        api_version: API_VERSION,
                        task: self.id,
                        outcome: LookupResult::Found {
                            execution: ExecutionView {
                                task: self.id,
                                execution_machine: self.local,
                                status: row.status,
                            },
                            unchecked: Vec::new(),
                        },
                    },
                ),
            ),
        }
    }
}

/// The executions that peers found, in order.
pub open spec fn found_in(lookups: Seq<PeerLookup>) -> Seq<ExecutionView>
    decreases lookups.len(),
{
    if lookups.len() == 0 {
        Seq::empty()
    } else {
        match lookups.last() {
            Ok(Some(execution)) => found_in(lookups.drop_last()).push(execution),
            _ => found_in(lookups.drop_last()),
        }
    }
}

/// The gaps that peers left, in order.
pub open spec fn gaps_in(lookups: Seq<PeerLookup>) -> Seq<LookupGap>
    decreases lookups.len(),
{
    if lookups.len() == 0 {
        Seq::empty()
    } else {
        match lookups.last() {
            Err(gap) => gaps_in(lookups.drop_last()).push(gap),
            _ => gaps_in(lookups.drop_last()),
        }
    }
}

/// Whether an outcome is that of some lookups.
pub open spec fn outcome_of(lookups: Seq<PeerLookup>, outcome: LookupResult) -> bool {
    let found = found_in(lookups);
    let gaps = gaps_in(lookups);
    if found.len() == 0 {
        if gaps.len() == 0 {
            outcome == LookupResult::NotFound
        } else {
            outcome matches LookupResult::Incomplete { unchecked } && unchecked@ == gaps
        }
    } else if found.len() == 1 {
        outcome matches LookupResult::Found { execution, unchecked } && execution == found[0]
            && unchecked@ == gaps
    } else {
        outcome matches LookupResult::OwnershipConflict { executions, unchecked } && executions@
            == found && unchecked@ == gaps
    }
}

/// What the peers' answers say together.
pub fn lookup_outcome(lookups: &Vec<PeerLookup>) -> (outcome: LookupResult)
    ensures
        outcome_of(lookups@, outcome),
{
    let mut found: Vec<ExecutionView> = Vec::new();
    let mut unchecked: Vec<LookupGap> = Vec::new();
    let mut at: usize = 0;
    while at < lookups.len()
        invariant
            at <= lookups.len(),
            found@ == found_in(lookups@.take(at as int)),
            unchecked@ == gaps_in(lookups@.take(at as int)),
        decreases lookups.len() - at,
    {
        proof {
            let next = lookups@.take(at as int + 1);
            assert(next.drop_last() =~= lookups@.take(at as int));
            assert(next.last() == lookups@[at as int]);
        }
        match &lookups[at] {
            Ok(Some(execution)) => {
                found.push(*execution);
            },
            Ok(None) => {},
            Err(gap) => {
                unchecked.push(*gap);
            },
        }
        at += 1;
    }
    proof {
        assert(lookups@.take(lookups.len() as int) =~= lookups@);
    }
    if found.len() == 0 {
        if unchecked.len() == 0 {
            LookupResult::NotFound
        } else {
            LookupResult::Incomplete { unchecked }
        }
    } else if found.len() == 1 {
        LookupResult::Found { execution: found[0], unchecked }
    } else {
        LookupResult::OwnershipConflict { executions: found, unchecked }
    }
}

impl AwaitLookups {
    /// Answer from what every peer said; outside a fleet there is nobody to ask.
    ///
    /// `lookups` are the peers' answers in the order they came, or the failure of a reader.
    pub fn on_peers(self, lookups: Option<Result<Vec<PeerLookup>, String>>) -> (result: Result<
        LookupBody,
        AppError,
    >)
        ensures
            match lookups {
                None => result == Ok::<LookupBody, AppError>(
                    LookupBody {
                        api_version: API_VERSION,
                        task: self.id,
                        outcome: LookupResult::NotFound,
                    },
                ),
                Some(Err(error)) => result matches Err(found) && found@ == (ErrorView::Internal {
                    message: "fleet lookup worker failed: "@ + error@,
                }),
                Some(Ok(lookups)) => {
                    &&& result matches Ok(body)
                    &&& body.api_version == API_VERSION
                    &&& body.task == self.id
                    &&& outcome_of(lookups@, body.outcome)
                },
            },
    {
        let outcome = match lookups {
            None => LookupResult::NotFound,
            Some(Err(error)) => {
                return Err(
                    AppError::Internal {
                        message: join2("fleet lookup worker failed: ", error.as_str()),
                    },
                );
            },
            Some(Ok(lookups)) => lookup_outcome(&lookups),
        };
        Ok(LookupBody { api_version: API_VERSION, task: self.id, outcome })
    }
}

/// A lookup says that a task is nowhere only when every peer answered so, and names an owner
/// only when exactly one peer claims the task.
pub proof fn absence_needs_every_answer(lookups: Seq<PeerLookup>, outcome: LookupResult)
    requires
        outcome_of(lookups, outcome),
    ensures
        outcome == LookupResult::NotFound <==> forall|at: int|
            0 <= at < lookups.len() ==> #[trigger] lookups[at] == Ok::<
                Option<ExecutionView>,
                LookupGap,
            >(None),
        outcome matches LookupResult::Found { execution, .. } ==> exists|at: int|
            0 <= at < lookups.len() && #[trigger] lookups[at] == Ok::<
                Option<ExecutionView>,
                LookupGap,
            >(Some(execution)),
{
    answers_are_kept(lookups);
    if outcome == LookupResult::NotFound {
        assert forall|at: int| 0 <= at < lookups.len() implies #[trigger] lookups[at] == Ok::<
            Option<ExecutionView>,
            LookupGap,
        >(None) by {
            match lookups[at] {
                Ok(Some(execution)) => {
                    assert(found_in(lookups).contains(execution));
                },
                Err(gap) => {
                    assert(gaps_in(lookups).contains(gap));
                },
                Ok(None) => {},
            }
        }
    }
    if found_in(lookups).len() > 0 {
        assert(found_in(lookups).contains(found_in(lookups)[0]));
    }
    if gaps_in(lookups).len() > 0 {
        assert(gaps_in(lookups).contains(gaps_in(lookups)[0]));
    }
}

proof fn answers_are_kept(lookups: Seq<PeerLookup>)
    ensures
        forall|execution: ExecutionView| #[trigger]
            found_in(lookups).contains(execution) <==> exists|at: int|
                0 <= at < lookups.len() && #[trigger] lookups[at] == Ok::<
                    Option<ExecutionView>,
                    LookupGap,
                >(Some(execution)),
        forall|gap: LookupGap| #[trigger]
            gaps_in(lookups).contains(gap) <==> exists|at: int|
                0 <= at < lookups.len() && #[trigger] lookups[at] == Err::<
                    Option<ExecutionView>,
                    LookupGap,
                >(gap),
    decreases lookups.len(),
{
    broadcast use vstd::seq_lib::group_seq_properties;

    if lookups.len() > 0 {
        let front = lookups.drop_last();
        answers_are_kept(front);
        assert forall|execution: ExecutionView| #[trigger]
            found_in(lookups).contains(execution) <==> exists|at: int|
            0 <= at < lookups.len() && #[trigger] lookups[at] == Ok::<
                Option<ExecutionView>,
                LookupGap,
            >(Some(execution)) by {
            assert(forall|at: int| 0 <= at < front.len() ==> #[trigger] front[at] == lookups[at]);
            if found_in(front).contains(execution) {
                let at = choose|at: int|
                    0 <= at < front.len() && #[trigger] front[at] == Ok::<
                        Option<ExecutionView>,
                        LookupGap,
                    >(Some(execution));
                assert(lookups[at] == Ok::<Option<ExecutionView>, LookupGap>(Some(execution)));
            }
            if exists|at: int|
                0 <= at < lookups.len() && #[trigger] lookups[at] == Ok::<
                    Option<ExecutionView>,
                    LookupGap,
                >(Some(execution)) {
                let at = choose|at: int|
                    0 <= at < lookups.len() && #[trigger] lookups[at] == Ok::<
                        Option<ExecutionView>,
                        LookupGap,
                    >(Some(execution));
                if at < front.len() {
                    assert(front[at] == lookups[at]);
                }
            }
            assert(lookups[lookups.len() - 1] == lookups.last());
        }
        assert forall|gap: LookupGap| #[trigger]
            gaps_in(lookups).contains(gap) <==> exists|at: int|
            0 <= at < lookups.len() && #[trigger] lookups[at] == Err::<
                Option<ExecutionView>,
                LookupGap,
            >(gap) by {
            if gaps_in(front).contains(gap) {
                let at = choose|at: int|
                    0 <= at < front.len() && #[trigger] front[at] == Err::<
                        Option<ExecutionView>,
                        LookupGap,
                    >(gap);
                assert(lookups[at] == Err::<Option<ExecutionView>, LookupGap>(gap));
            }
            if exists|at: int|
                0 <= at < lookups.len() && #[trigger] lookups[at] == Err::<
                    Option<ExecutionView>,
                    LookupGap,
                >(gap) {
                let at = choose|at: int|
                    0 <= at < lookups.len() && #[trigger] lookups[at] == Err::<
                        Option<ExecutionView>,
                        LookupGap,
                    >(gap);
                if at < front.len() {
                    assert(front[at] == lookups[at]);
                }
            }
            assert(lookups[lookups.len() - 1] == lookups.last());
        }
    }
}

} // verus!
