//! Finding a task anywhere in the fleet: what was read decides where its detail and its log come
//! from, and what is shown where they cannot be read.

use vstd::prelude::*;

use crate::actors::store::StoreMsg;
use crate::cancellation::CancellationOwner;
use crate::cluster::{
    CallbackFailureSummary, ExecutionBody, IdentitySummary, IdentitySummaryBody, OriginBody,
    OriginSummary,
};
use crate::error::{AppError, ErrorView};
use crate::events::FailedInboxEvent;
use crate::fleet::{ClusterResponse, API_VERSION};
use crate::ids::{MachineId, TaskId, ThreadId};
use crate::inspection::{
    absent, after_peers, annotate_local, cached_route, cancellation_owner, cancellation_target,
    compact_identity, connect_or_hints, descending, identity_origin, is_target, local_failures,
    local_identity_origin, log, lookup, message_origin_route, next_target, origin_for,
    other_unchecked, peers_to_read, read_peer, remote_read, show, show_unreadable, Annotation,
    AwaitFailures, AwaitIdentity, AwaitPeers, AwaitProbe, AwaitRead, AwaitRoute, AwaitTarget,
    CachedRoute, CompactIdentity, CompactSubmission, ConnectStep, LookupStep, PeerAnswers,
    PeerRecords, Records, ShowStep,
};
use crate::submission::{ExecutorIdentity, OriginRoute, SubmissionState};
use crate::table::{has_machine, keys};

verus! {

/// The machine that an identity names as the origin of its task.
pub open spec fn origin_named(identity: IdentitySummary) -> MachineId {
    match identity {
        IdentitySummary::Accepted { origin_machine, .. } => origin_machine,
        IdentitySummary::Rejected { origin_machine, .. } => origin_machine,
    }
}

/// The machine that an identity names as the executor of its task.
pub open spec fn executor_named(identity: IdentitySummary) -> MachineId {
    match identity {
        IdentitySummary::Accepted { execution_machine, .. } => execution_machine,
        IdentitySummary::Rejected { execution_machine, .. } => execution_machine,
    }
}

/// Whether two routes tell different things of one task.
pub open spec fn tell_apart(left: OriginSummary, right: OriginSummary) -> bool {
    ||| left.task != right.task
    ||| left.request_id != right.request_id
    ||| left.submission@ != right.submission@
    ||| left.execution_machine != right.execution_machine
    ||| left.origin_machine != right.origin_machine
}

/// Whether every route that was read tells the same.
pub open spec fn routes_agree(records: Records) -> bool {
    forall|at: int|
        0 <= at < records.routes@.len() ==> !tell_apart(
            (#[trigger] records.routes@[at]).1,
            records.routes@[0].1,
        )
}

/// Whether an origin is the one to show for a machine's execution: the route's where a route is
/// known, else that of the identity the machine itself retains, else the machine.
pub open spec fn shows_origin(records: Records, machine: MachineId, origin: MachineId) -> bool {
    &&& records.routes@.len() > 0 ==> origin == records.routes@[0].1.origin_machine
    &&& records.routes@.len() == 0 && has_machine(records.identities@, machine) ==> exists|at: int|
        {
            &&& 0 <= at < records.identities@.len()
            &&& (#[trigger] records.identities@[at]).0 == machine
            &&& origin == origin_named(records.identities@[at].1)
        }
    &&& records.routes@.len() == 0 && !has_machine(records.identities@, machine) ==> origin
        == machine
}

/// The retained origin is that of the machine's own identity, or the machine itself.
proof fn retained_origins_are_the_machines_own(
    identities: Seq<(MachineId, IdentitySummary)>,
    machine: MachineId,
)
    ensures
        has_machine(identities, machine) ==> exists|at: int|
            {
                &&& 0 <= at < identities.len()
                &&& (#[trigger] identities[at]).0 == machine
                &&& identity_origin(identities, machine) == origin_named(identities[at].1)
            },
        !has_machine(identities, machine) ==> identity_origin(identities, machine) == machine,
    decreases identities.len(),
{
    if identities.len() > 0 {
        let rest = identities.drop_first();
        retained_origins_are_the_machines_own(rest, machine);
        assert(forall|at: int|
            1 <= at < identities.len() ==> #[trigger] identities[at] == rest[at - 1]);
        if has_machine(rest, machine) {
            let at = choose|at: int|
                {
                    &&& 0 <= at < rest.len()
                    &&& (#[trigger] rest[at]).0 == machine
                    &&& identity_origin(rest, machine) == origin_named(rest[at].1)
                };
            assert(identities[at + 1] == rest[at]);
        }
        if has_machine(identities, machine) && identities[0].0 != machine {
            let at = choose|at: int|
                0 <= at < identities.len() && (#[trigger] identities[at]).0 == machine;
            assert(rest[at - 1] == identities[at]);
            assert(has_machine(rest, machine));
        }
    }
}

/// A log is read exactly where some machine holds the execution, and from that machine: it is
/// answered as the executing machine and as the one that the task was found on, and the origin is
/// the route's where a route is known.
pub proof fn logs_are_read_from_the_executing_machine(
    id: TaskId,
    records: Records,
    source: Result<Annotation, AppError>,
)
    requires
        call_ensures(log, (id, &records), source),
    ensures
        source is Ok <==> records.executions@.len() > 0,
        source matches Ok(answered) ==> {
            let machine = records.executions@[0].0;
            &&& answered.execution_machine == machine
            &&& answered.found_on == machine
            &&& answered.availability is Available
            &&& shows_origin(records, machine, answered.origin_machine)
        },
{
    if records.executions@.len() > 0 {
        retained_origins_are_the_machines_own(records.identities@, records.executions@[0].0);
    }
}

/// Without an execution there is no log. Work that was rejected has not started; work whose
/// executor is known is unavailable there; routes that disagree are a conflict; and with nothing
/// known the task is absent, as far as every machine could be asked.
pub proof fn missing_logs_tell_why(
    id: TaskId,
    records: Records,
    source: Result<Annotation, AppError>,
    missing: AppError,
)
    requires
        call_ensures(log, (id, &records), source),
        call_ensures(absent, (id, &records), missing),
        records.executions@.len() == 0,
    ensures
        source matches Err(error) && {
            &&& records.identities@.len() > 0 ==> {
                &&& records.identities@[0].1 is Rejected ==> error@ == (ErrorView::TaskNotStarted {
                    task: id,
                })
                &&& records.identities@[0].1 is Accepted ==> error@ == (
                ErrorView::TaskUnavailable { task: id, machine: records.identities@[0].0 })
            }
            &&& records.identities@.len() == 0 && !routes_agree(records) ==> error@ == (
            ErrorView::ClusterTaskConflict { task: id })
            &&& records.identities@.len() == 0 && records.routes@.len() > 0 && routes_agree(records)
                ==> {
                &&& records.routes@[0].1.submission is Rejected ==> error@ == (
                ErrorView::TaskNotStarted { task: id })
                &&& records.routes@[0].1.submission !is Rejected ==> error@ == (
                ErrorView::TaskUnavailable {
                    task: id,
                    machine: records.routes@[0].1.execution_machine,
                })
            }
            &&& records.identities@.len() == 0 && records.routes@.len() == 0 ==> error@ == missing@
        },
{
}

/// A task that nobody knows is not found once every machine was checked; while some were not,
/// the lookup is incomplete, and names exactly them.
pub proof fn absence_needs_every_machine(id: TaskId, records: Records, error: AppError)
    requires
        call_ensures(absent, (id, &records), error),
    ensures
        records.unchecked@.len() == 0 <==> error@ == (ErrorView::TaskNotFound { id }),
        error@ is TaskNotFound || error@ is ClusterLookupIncomplete,
        error@ matches ErrorView::ClusterLookupIncomplete { task, unchecked } ==> {
            &&& task == id
            &&& unchecked.len() == records.unchecked@.len()
            &&& forall|at: int|
                0 <= at < unchecked.len() ==> #[trigger] unchecked[at] == records.unchecked@[at].0
        },
{
}

/// A task is shown by its execution where one was found, from the machine that holds it, with
/// the callback failures of its route. Otherwise its retained identity is shown, then its route,
/// and with neither it is absent.
pub proof fn tasks_are_shown_by_their_best_record<'a>(
    id: TaskId,
    records: &'a Records,
    step: ShowStep<'a>,
    missing: AppError,
)
    requires
        call_ensures(show, (id, records), step),
        call_ensures(absent, (id, records), missing),
    ensures
        step is ReadDetail <==> records.executions@.len() > 0,
        step is Identity <==> records.executions@.len() == 0 && records.identities@.len() > 0,
        step is Cached <==> records.executions@.len() == 0 && records.identities@.len() == 0
            && records.routes@.len() > 0 && routes_agree(*records),
        step matches ShowStep::ReadDetail { annotation, failed_events } ==> {
            let machine = records.executions@[0].0;
            &&& annotation.execution_machine == machine
            &&& annotation.found_on == machine
            &&& annotation.availability is Available
            &&& shows_origin(*records, machine, annotation.origin_machine)
            &&& failed_events is Some <==> records.routes@.len() > 0
            &&& failed_events matches Some(events) ==> *events == records.routes@[0].1.failed_events
        },
        step matches ShowStep::Identity(shown) ==> compacts(
            shown,
            id,
            records.identities@[0].0,
            &records.identities@[0].1,
        ),
        step matches ShowStep::Cached(shown) ==> caches(shown, records),
        step matches ShowStep::Failed(error) ==> {
            &&& !routes_agree(*records) ==> error@ == (ErrorView::ClusterTaskConflict { task: id })
            &&& routes_agree(*records) ==> error@ == missing@
        },
{
    if records.executions@.len() > 0 {
        retained_origins_are_the_machines_own(records.identities@, records.executions@[0].0);
    }
}

/// Whether a compact answer shows an identity: its status where it was accepted, its reason where
/// it was rejected, its own two machines, and the machine that retained it; never any detail.
pub open spec fn compacts<'a>(
    shown: CompactIdentity<'a>,
    id: TaskId,
    machine: MachineId,
    identity: &'a IdentitySummary,
) -> bool {
    &&& shown.api_version == API_VERSION
    &&& shown.id == id
    &&& !shown.detail_available
    &&& shown.annotation.found_on == machine
    &&& shown.annotation.origin_machine == origin_named(*identity)
    &&& shown.annotation.execution_machine == executor_named(*identity)
    &&& shown.annotation.availability is DetailUnavailable
    &&& *identity matches IdentitySummary::Accepted { status, .. } ==> shown.status == Some(status)
        && shown.submission is None && shown.reason is None
    &&& *identity matches IdentitySummary::Rejected { reason, .. } ==> {
        &&& shown.status is None
        &&& shown.submission matches Some(CompactSubmission::Rejected { reason: submitted })
        &&& *submitted == reason
        &&& shown.reason matches Some(told)
        &&& *told == reason
    }
}

/// Whether a cached answer shows the first route: with the machine that holds the route, and with
/// the state that the route last heard of exactly where its work was accepted. Rejected work is
/// shown as rejected; other work whose executor could not be checked as unavailable there.
pub open spec fn caches<'a>(shown: CachedRoute<'a>, records: &'a Records) -> bool {
    let route = records.routes@[0].1;
    let rejected = match route.submission {
        SubmissionState::Rejected { .. } => true,
        SubmissionState::ResourceAction { phase, .. } => phase is Rejected,
        SubmissionState::ResourceBackground { phase, .. } => phase is Rejected,
        _ => false,
    };
    let heard = match route.submission {
        SubmissionState::Accepted => true,
        SubmissionState::Resource { .. } => true,
        SubmissionState::ResourceAction { phase, .. } => phase is Accepted,
        SubmissionState::ResourceBackground { phase, .. } => phase is Accepted,
        _ => false,
    };
    &&& *shown.route == route
    &&& heard ==> shown.status == route.last_execution_state
    &&& !heard ==> shown.status is None
    &&& shown.annotation.origin_machine == route.origin_machine
    &&& shown.annotation.execution_machine == route.execution_machine
    &&& shown.annotation.found_on == records.routes@[0].0
    &&& shown.annotation.availability is Rejected <==> rejected
    &&& shown.annotation.availability is ExecutorUnavailable <==> !rejected && has_machine(
        records.unchecked@,
        route.execution_machine,
    )
    &&& shown.annotation.availability is DetailUnavailable <==> !rejected && !has_machine(
        records.unchecked@,
        route.execution_machine,
    )
}

/// A retained identity and a saved route are shown as they were read. A detail that could not be
/// read falls back to the route, and without one the task is unavailable on its machine.
pub proof fn unreadable_details_fall_back_to_the_route<'a>(
    id: TaskId,
    records: &'a Records,
    machine: MachineId,
    identity: &'a IdentitySummary,
    shown: CompactIdentity<'a>,
    cached: Result<CachedRoute<'a>, AppError>,
    step: ShowStep<'a>,
)
    requires
        call_ensures(compact_identity, (id, machine, identity), shown),
        call_ensures(cached_route, (records, id), cached),
        call_ensures(show_unreadable, (id, records, machine), step),
    ensures
        compacts(shown, id, machine, identity),
        cached is Ok <==> records.routes@.len() > 0 && routes_agree(*records),
        cached matches Ok(route) ==> caches(route, records),
        !routes_agree(*records) ==> cached == Err::<CachedRoute<'a>, AppError>(
            AppError::ClusterTaskConflict { task: id },
        ),
        records.routes@.len() == 0 ==> cached == Err::<CachedRoute<'a>, AppError>(
            AppError::TaskNotFound { id },
        ),
        step is Cached <==> cached is Ok,
        step matches ShowStep::Cached(route) ==> caches(route, records),
        !routes_agree(*records) ==> step == ShowStep::<'a>::Failed(
            AppError::ClusterTaskConflict { task: id },
        ),
        records.routes@.len() == 0 ==> step == ShowStep::<'a>::Failed(
            AppError::TaskUnavailable { task: id, machine },
        ),
{
}

/// The origin that is shown for a machine's execution.
pub proof fn shown_origins_follow_the_route(
    records: Records,
    machine: MachineId,
    origin: MachineId,
)
    requires
        call_ensures(origin_for, (&records, machine), origin),
    ensures
        shows_origin(records, machine, origin),
{
    retained_origins_are_the_machines_own(records.identities@, machine);
}

/// A local detail is shown as this machine's own, with the origin that its identity names, if it
/// has one.
pub proof fn local_details_are_this_machines(
    local: MachineId,
    identity: Option<ExecutorIdentity>,
    annotation: Annotation,
    origin: Option<MachineId>,
    routed: bool,
    failures: Vec<FailedInboxEvent>,
    shown: Option<Vec<CallbackFailureSummary>>,
)
    requires
        call_ensures(annotate_local, (local, &identity), annotation),
        call_ensures(local_identity_origin, (&identity,), origin),
        call_ensures(local_failures, (routed, &failures), shown),
    ensures
        annotation.execution_machine == local,
        annotation.found_on == local,
        annotation.availability is Available,
        identity is None ==> annotation.origin_machine == local && origin is None,
        identity matches Some(ExecutorIdentity::Accepted(record)) ==> annotation.origin_machine
            == record.origin_machine && origin == Some(record.origin_machine),
        identity matches Some(ExecutorIdentity::Rejected(record)) ==> annotation.origin_machine
            == record.origin_machine && origin == Some(record.origin_machine),
        shown is Some <==> routed,
        shown matches Some(summaries) ==> {
            &&& summaries@.len() == failures@.len()
            &&& forall|at: int|
                0 <= at < failures@.len() ==> (#[trigger] summaries@[at]).seq == failures@[at].seq
                    && summaries@[at].attempts == failures@[at].attempts
        },
{
}

/// A message goes to the origin that holds the task's route, and to the thread that the route
/// names. Routes that disagree are a conflict; without a route the task is unknown only once
/// every machine was checked, and known work without a route has none.
pub proof fn messages_go_to_the_route_of_their_task(
    id: TaskId,
    records: Records,
    route: Result<(MachineId, ThreadId), AppError>,
)
    requires
        call_ensures(message_origin_route, (id, &records), route),
    ensures
        route is Ok <==> records.routes@.len() > 0 && routes_agree(records),
        route matches Ok((machine, thread)) ==> machine == records.routes@[0].0 && thread
            == records.routes@[0].1.thread,
        route matches Err(error) ==> {
            &&& records.routes@.len() > 0 ==> error@ == (ErrorView::ClusterTaskConflict {
                task: id,
            })
            &&& records.routes@.len() == 0 && records.unchecked@.len() > 0 ==> (
            error@ matches ErrorView::ClusterLookupIncomplete { task, unchecked } && task == id
                && unchecked.len() == records.unchecked@.len() && forall|at: int|
                0 <= at < unchecked.len() ==> #[trigger] unchecked[at] == records.unchecked@[at].0)
            &&& records.routes@.len() == 0 && records.unchecked@.len() == 0 ==> {
                &&& error@ == (ErrorView::RouteNotFound { task: id })
                    <==> records.executions@.len() > 0 || records.identities@.len() > 0
                &&& error@ == (ErrorView::TaskNotFound { id }) <==> records.executions@.len() == 0
                    && records.identities@.len() == 0
            }
        },
{
}

/// The machines that a check leaves aside are none but the two that own the task.
proof fn other_machines_are_not_owners(
    unchecked: Seq<MachineId>,
    origin: MachineId,
    execution: MachineId,
)
    ensures
        forall|machine: MachineId| #[trigger]
            other_unchecked(unchecked, origin, execution).contains(machine)
                <==> unchecked.contains(machine) && machine != origin && machine != execution,
    decreases unchecked.len(),
{
    if unchecked.len() > 0 {
        let rest = unchecked.drop_last();
        other_machines_are_not_owners(rest, origin, execution);
        let earlier = other_unchecked(rest, origin, execution);
        let last = unchecked.last();
        assert(unchecked == rest.push(last));
        assert forall|machine: MachineId| #[trigger]
            other_unchecked(unchecked, origin, execution).contains(machine)
                <==> unchecked.contains(machine) && machine != origin && machine
                != execution by {
            vstd::seq_lib::lemma_seq_contains_after_push(rest, last, machine);
            vstd::seq_lib::lemma_seq_contains_after_push(earlier, last, machine);
        }
    }
}

/// A task is cancelled at the machine its route names, and only once every machine but the two
/// owners was checked. Without a route nothing is cancelled: an identity whose origin could not
/// be checked, machines that could not, or an execution alone leave the lookup incomplete.
pub proof fn cancellations_need_the_route_of_their_task(
    id: TaskId,
    records: Records,
    owner: Result<CancellationOwner, AppError>,
)
    requires
        call_ensures(cancellation_owner, (id, &records), owner),
    ensures
        owner matches Ok(found) ==> {
            &&& records.routes@.len() > 0
            &&& routes_agree(records)
            &&& records.routes@[0].1.task == id
            &&& records.routes@[0].1.origin_machine == records.routes@[0].0
            &&& forall|at: int|
                0 <= at < records.unchecked@.len() ==> (#[trigger] records.unchecked@[at]).0
                    == records.routes@[0].1.origin_machine || records.unchecked@[at].0
                    == records.routes@[0].1.execution_machine
            &&& found matches CancellationOwner::Execution(target) ==> target.origin_machine
                == records.routes@[0].1.origin_machine && target.execution_machine
                == records.routes@[0].1.execution_machine
            &&& found matches CancellationOwner::Resource(target) ==> target.task_id == id
                && target.origin_machine == records.routes@[0].1.origin_machine
                && target.authority_machine == records.routes@[0].1.execution_machine
        },
        owner matches Err(error) ==> {
            &&& !routes_agree(records) ==> error@ == (ErrorView::ClusterTaskConflict { task: id })
            &&& records.routes@.len() == 0 && records.identities@.len() > 0 ==> {
                let machine = records.identities@[0].0;
                let origin = origin_named(records.identities@[0].1);
                let open = executor_named(records.identities@[0].1) == machine && has_machine(
                    records.unchecked@,
                    origin,
                );
                &&& open ==> error@ == (ErrorView::ClusterLookupIncomplete {
                    task: id,
                    unchecked: seq![origin],
                })
                &&& !open ==> error@ == (ErrorView::ClusterTaskConflict { task: id })
            }
            &&& records.routes@.len() == 0 && records.identities@.len() == 0
                && records.unchecked@.len() == 0 ==> {
                &&& records.executions@.len() > 0 ==> error@ == (
                ErrorView::ClusterLookupIncomplete {
                    task: id,
                    unchecked: seq![records.executions@[0].0],
                })
                &&& records.executions@.len() == 0 ==> error@ == (ErrorView::TaskNotFound { id })
            }
            &&& records.routes@.len() == 0 && records.identities@.len() == 0
                && records.unchecked@.len() > 0 ==> (
            error@ matches ErrorView::ClusterLookupIncomplete { task, unchecked } && task == id
                && unchecked == keys(records.unchecked@))
        },
{
    let unchecked = keys(records.unchecked@);
    if owner is Ok {
        let (origin, execution) = owner->Ok_0.spec_machines();
        other_machines_are_not_owners(unchecked, origin, execution);
        assert forall|at: int| 0 <= at < records.unchecked@.len() implies (
        #[trigger] records.unchecked@[at]).0 == origin || records.unchecked@[at].0
            == execution by {
            assert(unchecked[at] == records.unchecked@[at].0);
            assert(unchecked.contains(unchecked[at]));
            assert(!other_unchecked(unchecked, origin, execution).contains(unchecked[at]));
        }
    }
}

/// A route's cancellation goes to the machines that it names, unless it is about another task or
/// was read from a machine that it does not name; rejected work has nothing to cancel.
pub proof fn cancellation_targets_are_their_routes(
    id: TaskId,
    machine: MachineId,
    route: OriginSummary,
    target: Result<CancellationOwner, AppError>,
)
    requires
        call_ensures(cancellation_target, (id, machine, &route), target),
    ensures
        target is Ok ==> route.task == id && route.origin_machine == machine,
        route.task != id || route.origin_machine != machine ==> (target matches Err(error) && error@
            == (ErrorView::ClusterTaskConflict { task: id })),
        route.task == id && route.origin_machine == machine && route.submission is Rejected ==> (
        target matches Err(error) && error@ == (ErrorView::TaskNotStarted { task: id })),
        route.task == id && route.origin_machine == machine && (route.submission is Accepted
            || route.submission is AcceptanceUnknown || route.submission is Resource) ==> target
            is Ok,
        target matches Ok(CancellationOwner::Execution(found)) ==> found.origin_machine
            == route.origin_machine && found.execution_machine == route.execution_machine,
        target matches Ok(CancellationOwner::Resource(found)) ==> found.request_id
            == route.request_id && found.authority_machine == route.execution_machine,
{
}

/// What a peer tells of a task is kept only as far as it is a whole answer of the current version
/// about that task and that peer. A peer that cannot be reached, or of whose answers one is not
/// whole, was not checked.
pub proof fn peers_tell_of_the_task_that_was_asked(
    machine: MachineId,
    id: TaskId,
    answers: Option<PeerAnswers>,
    records: PeerRecords,
)
    requires
        call_ensures(read_peer, (machine, id, answers), records),
    ensures
        records.machine == machine,
        records.execution matches Some(view) ==> {
            &&& view.task == id
            &&& view.execution_machine == machine
            &&& answers matches Some(told)
            &&& told.execution matches Some(answer)
            &&& answer.status == 200
            &&& answer.body matches Some(body)
            &&& body.api_version == API_VERSION
            &&& body.execution == Some(view)
        },
        records.route matches Some(route) ==> {
            &&& route.task == id
            &&& route.origin_machine == machine
            &&& answers matches Some(told)
            &&& told.origin matches Some(answer)
            &&& answer.status == 200
            &&& answer.body matches Some(body)
            &&& body.api_version == API_VERSION
            &&& body.origin == Some(route)
        },
        records.identity matches Some(identity) ==> {
            &&& executor_named(identity) == machine
            &&& answers matches Some(told)
            &&& told.identity matches Some(answer)
            &&& answer.status == 200
            &&& answer.body matches Some(body)
            &&& body.api_version == API_VERSION
            &&& body.identity == Some(identity)
        },
        answers is None ==> records.incomplete && records.address is None,
        answers matches Some(told) ==> records.address == Some(told.address),
        !records.incomplete ==> {
            &&& answers matches Some(told)
            &&& told.execution matches Some(execution)
            &&& told.origin matches Some(origin)
            &&& told.identity matches Some(identity)
            &&& execution.body matches Some(body)
            &&& body.execution == records.execution
            &&& execution.status == 404 <==> body.execution is None
            &&& origin.body matches Some(body)
            &&& body.origin == records.route
            &&& identity.body matches Some(body)
            &&& body.identity == records.identity
        },
{
}

/// A peer's whole and right answers are kept, and then the peer was checked.
pub proof fn whole_answers_check_their_peer(
    machine: MachineId,
    id: TaskId,
    told: PeerAnswers,
    execution: ExecutionBody,
    origin: OriginBody,
    identity: IdentitySummaryBody,
    records: PeerRecords,
)
    requires
        call_ensures(read_peer, (machine, id, Some(told)), records),
        told.execution matches Some(answer) && answer.body == Some(execution) && answer.status == (
        if execution.execution is Some {
            200u16
        } else {
            404u16
        }),
        told.origin matches Some(answer) && answer.body == Some(origin) && answer.status == 200,
        told.identity matches Some(answer) && answer.body == Some(identity) && answer.status == 200,
        execution.api_version == API_VERSION && origin.api_version == API_VERSION
            && identity.api_version == API_VERSION,
        execution.execution matches Some(view) ==> view.task == id && view.execution_machine
            == machine,
        origin.origin matches Some(route) ==> route.task == id && route.origin_machine == machine,
        identity.identity matches Some(kept) ==> executor_named(kept) == machine && (match kept {
            IdentitySummary::Accepted { task, .. } => task == id,
            IdentitySummary::Rejected { task, .. } => task == id,
        }),
    ensures
        !records.incomplete,
        records.execution == execution.execution,
        records.route == origin.origin,
        records.identity == identity.identity,
{
}

/// A lookup begins with this machine's own route and its failures, goes on with this machine's
/// identity, and keeps both under this machine before any peer is asked.
pub proof fn lookups_begin_with_this_machine(
    local: MachineId,
    id: TaskId,
    first: LookupStep,
    route: Option<OriginRoute>,
    second: LookupStep,
    failures: Vec<FailedInboxEvent>,
    third: LookupStep,
    identity: Option<ExecutorIdentity>,
    step: LookupStep,
)
    requires
        call_ensures(lookup, (local, id), first),
        first matches LookupStep::AskRoute { next, .. } ==> call_ensures(
            AwaitRoute::on_route,
            (next, Ok(route)),
            second,
        ),
        second matches LookupStep::AskFailures { next, .. } ==> call_ensures(
            AwaitFailures::on_failures,
            (next, Ok(failures)),
            third,
        ),
        second matches LookupStep::AskIdentity { .. } ==> third == second,
        third matches LookupStep::AskIdentity { next, .. } ==> call_ensures(
            AwaitIdentity::on_identity,
            (next, Ok(identity)),
            step,
        ),
    ensures
        first matches LookupStep::AskRoute { message, .. } && message == (StoreMsg::OriginRoute {
            id,
        }),
        route is Some <==> second is AskFailures,
        second matches LookupStep::AskFailures { message, .. } ==> message == (
        StoreMsg::FailedInboxEvents { id }),
        third matches LookupStep::AskIdentity { message, .. } && message == (
        StoreMsg::ExecutorIdentity { id }),
        step matches LookupStep::ListPeers { next } && {
            let records = next.lookup.records;
            &&& next.lookup.local == local
            &&& next.lookup.id == id
            &&& records.wf()
            &&& records.executions@.len() == 0
            &&& records.unchecked@.len() == 0
            &&& records.addresses@.len() == 0
            &&& records.routes@.len() == (if route is Some {
                1nat
            } else {
                0nat
            })
            &&& route matches Some(saved) ==> {
                let (machine, shown) = records.routes@[0];
                &&& machine == local
                &&& shown.task == saved.task
                &&& shown.request_id == saved.request
                &&& shown.origin_machine == saved.origin_machine
                &&& shown.execution_machine == saved.execution_machine
                &&& shown.thread == saved.thread
                &&& shown.submission == saved.submission
                &&& shown.last_execution_state == saved.last_execution_state
                &&& shown.last_updated_at == saved.last_updated_at
                &&& shown.last_accepted_seq == saved.last_accepted_seq
                &&& shown.last_settled_seq == saved.last_settled_seq
                &&& shown.failed_events@.len() == failures@.len()
            }
            &&& records.identities@.len() == (if identity is Some {
                1nat
            } else {
                0nat
            })
            &&& identity matches Some(ExecutorIdentity::Accepted(record)) ==> records.identities@[0]
                == (
                local,
                IdentitySummary::Accepted {
                    task: record.task,
                    origin_machine: record.origin_machine,
                    execution_machine: record.execution_machine,
                    status: record.state,
                },
            )
            &&& identity matches Some(ExecutorIdentity::Rejected(record)) ==> records.identities@[0]
                == (
                local,
                IdentitySummary::Rejected {
                    task: record.task,
                    origin_machine: record.origin_machine,
                    execution_machine: record.execution_machine,
                    reason: record.reason,
                },
            )
        },
{
    reveal_with_fuel(crate::table::below, 2);
}

/// A lookup whose store fails fails with that error, and asks nothing more.
pub proof fn failed_reads_end_a_lookup(
    waits: (AwaitRoute, AwaitFailures, AwaitIdentity),
    error: AppError,
    steps: (LookupStep, LookupStep, LookupStep),
)
    requires
        call_ensures(AwaitRoute::on_route, (waits.0, Err(error)), steps.0),
        call_ensures(AwaitFailures::on_failures, (waits.1, Err(error)), steps.1),
        call_ensures(AwaitIdentity::on_identity, (waits.2, Err(error)), steps.2),
    ensures
        steps.0 == LookupStep::Done(Err(error)),
        steps.1 == LookupStep::Done(Err(error)),
        steps.2 == LookupStep::Done(Err(error)),
{
}

/// The peers to read are those of the list, once each, without this machine.
proof fn peers_are_read_once(local: MachineId, peers: Seq<MachineId>)
    ensures
        peers_to_read(local, peers).no_duplicates(),
        forall|machine: MachineId| #[trigger]
            peers_to_read(local, peers).contains(machine) <==> peers.contains(machine) && machine
                != local,
    decreases peers.len(),
{
    if peers.len() > 0 {
        let rest = peers.drop_last();
        peers_are_read_once(local, rest);
        let earlier = peers_to_read(local, rest);
        let last = peers.last();
        assert(peers == rest.push(last));
        assert forall|machine: MachineId| #[trigger]
            peers_to_read(local, peers).contains(machine) <==> peers.contains(machine) && machine
                != local by {
            vstd::seq_lib::lemma_seq_contains_after_push(rest, last, machine);
            vstd::seq_lib::lemma_seq_contains_after_push(earlier, last, machine);
        }
    }
}

/// Without a fleet a lookup ends with this machine's records. With one, every other listed
/// machine is read once, and this machine is not asked again.
pub proof fn every_listed_peer_is_read_once(
    wait: AwaitPeers,
    peers: Vec<MachineId>,
    step: LookupStep,
    alone: LookupStep,
    checked: Result<(), AppError>,
)
    requires
        call_ensures(AwaitPeers::on_peers, (wait, Some(peers)), step),
        call_ensures(AwaitPeers::on_peers, (wait, None), alone),
        call_ensures(Records::check_conflicts, (&wait.lookup.records, wait.lookup.id), checked),
    ensures
        step matches LookupStep::ReadPeers { machines, next } && {
            &&& machines@.no_duplicates()
            &&& forall|machine: MachineId| #[trigger]
                machines@.contains(machine) <==> peers@.contains(machine) && machine
                    != wait.lookup.local
            &&& next.lookup == wait.lookup
            &&& forall|machine: MachineId| #[trigger]
                next.seen@.contains(machine) <==> machine == wait.lookup.local
                    || machines@.contains(machine)
        },
        alone matches LookupStep::Done(ended) && (ended matches Ok(records) ==> records
            == wait.lookup.records) && (ended is Ok <==> checked is Ok),
{
    peers_are_read_once(wait.lookup.local, peers@);
    let machines = peers_to_read(wait.lookup.local, peers@);
    let seen = seq![wait.lookup.local] + machines;
    assert forall|machine: MachineId| #[trigger] seen.contains(machine) <==> machine
        == wait.lookup.local || machines.contains(machine) by {
        if machine == wait.lookup.local {
            assert(seen[0] == machine);
        }
        if machines.contains(machine) {
            let at = choose|at: int| 0 <= at < machines.len() && machines[at] == machine;
            assert(seen[at + 1] == machine);
        }
        if seen.contains(machine) {
            let at = choose|at: int| 0 <= at < seen.len() && seen[at] == machine;
            if at > 0 {
                assert(machines[at - 1] == machine);
            }
        }
    }
}

/// A read that failed as a whole ends the lookup; otherwise each machine that some route names
/// as executor, and that was not read yet, is read next, one at a time.
pub proof fn unread_executors_are_read_next(
    wait: AwaitRead,
    peers: Result<Vec<PeerRecords>, String>,
    step: LookupStep,
)
    requires
        call_ensures(AwaitRead::on_peers, (wait, peers), step),
        wait.lookup.records.wf(),
    ensures
        peers is Err ==> (step matches LookupStep::Done(Err(error)) && error@ is Internal),
        peers is Ok ==> step is ReadTarget || step is Done,
        step matches LookupStep::ReadTarget { machine, next, .. } ==> {
            &&& !wait.seen@.contains(machine)
            &&& next.lookup.id == wait.lookup.id
            &&& next.lookup.local == wait.lookup.local
            &&& exists|at: int|
                0 <= at < next.lookup.records.routes@.len() && (
                #[trigger] next.lookup.records.routes@[at]).1.execution_machine == machine
            &&& !next.remaining@.contains(machine)
        },
        peers is Ok ==> (step matches LookupStep::Done(Ok(records)) ==> !records.conflicting()),
        peers is Ok ==> (step matches LookupStep::Done(Err(error)) ==> error == (
        AppError::ClusterTaskConflict { task: wait.lookup.id })),
        peers is Ok ==> (step matches LookupStep::Done(Ok(records)) ==> forall|at: int|
            0 <= at < records.routes@.len() ==> wait.seen@.contains(
                (#[trigger] records.routes@[at]).1.execution_machine,
            )),
{
    if peers is Ok {
        let (records, targets) = choose|records: Records, targets: Seq<MachineId>|
            {
                &&& #[trigger] after_peers(wait.lookup.records, peers->Ok_0@, records)
                &&& descending(targets)
                &&& forall|machine: MachineId| #[trigger]
                    targets.contains(machine) <==> is_target(records, wait.seen@, machine)
                &&& #[trigger] next_target(
                    crate::inspection::Lookup { records, ..wait.lookup },
                    targets,
                    step,
                )
            };
        if targets.len() > 0 {
            assert(targets.contains(targets.last()));
            assert(is_target(records, wait.seen@, targets.last()));
            if targets.drop_last().contains(targets.last()) {
                let at = choose|at: int|
                    0 <= at < targets.drop_last().len() && targets.drop_last()[at]
                        == targets.last();
                assert(targets[at].0 > targets[targets.len() - 1].0);
            }
        } else {
            assert forall|at: int| 0 <= at < records.routes@.len() implies wait.seen@.contains(
                (#[trigger] records.routes@[at]).1.execution_machine,
            ) by {
                let machine = records.routes@[at].1.execution_machine;
                if !wait.seen@.contains(machine) {
                    assert(is_target(records, wait.seen@, machine));
                    assert(targets.contains(machine));
                }
            }
        }
    }
}

/// What a target tells is kept under its machine beside what was known, and then the next target
/// is read, or the lookup ends.
pub proof fn targets_add_to_what_is_known(wait: AwaitTarget, peer: PeerRecords, step: LookupStep)
    requires
        call_ensures(AwaitTarget::on_target, (wait, peer), step),
        wait.lookup.records.wf(),
    ensures
        step is ReadTarget <==> wait.remaining@.len() > 0,
        step is Done <==> wait.remaining@.len() == 0,
        step matches LookupStep::ReadTarget { machine, next, .. } ==> {
            &&& machine == wait.remaining@.last()
            &&& next.remaining@ == wait.remaining@.drop_last()
            &&& adds_to(next.lookup.records, wait.lookup.records, peer)
        },
        step matches LookupStep::Done(Ok(records)) ==> adds_to(
            records,
            wait.lookup.records,
            peer,
        ),
        step matches LookupStep::Done(Err(error)) ==> error == (AppError::ClusterTaskConflict {
            task: wait.lookup.id,
        }),
{
    let before = wait.lookup.records;
    let after = choose|records: Records|
        #[trigger] crate::inspection::adds(before, peer, records) && next_target(
            crate::inspection::Lookup { records, ..wait.lookup },
            wait.remaining@,
            step,
        );
    peer_records_are_kept(before, peer, after);
}

/// Whether records hold what a peer told, beside everything that other machines told.
pub open spec fn adds_to(after: Records, before: Records, peer: PeerRecords) -> bool {
    &&& peer.execution matches Some(view) ==> after.executions@.contains((peer.machine, view))
    &&& peer.route matches Some(route) ==> after.routes@.contains((peer.machine, route))
    &&& peer.identity matches Some(identity) ==> after.identities@.contains(
        (peer.machine, identity),
    )
    &&& peer.address matches Some(address) ==> after.addresses@.contains((peer.machine, address))
    &&& peer.incomplete ==> has_machine(after.unchecked@, peer.machine)
    &&& forall|machine: MachineId|
        machine != peer.machine ==> (#[trigger] has_machine(after.executions@, machine)
            <==> has_machine(before.executions@, machine))
    &&& forall|machine: MachineId|
        machine != peer.machine ==> (#[trigger] has_machine(after.routes@, machine)
            <==> has_machine(before.routes@, machine))
    &&& forall|machine: MachineId|
        machine != peer.machine ==> (#[trigger] has_machine(after.identities@, machine)
            <==> has_machine(before.identities@, machine))
    &&& forall|machine: MachineId|
        machine != peer.machine ==> (#[trigger] has_machine(after.unchecked@, machine)
            <==> has_machine(before.unchecked@, machine))
    &&& peer.execution is None ==> after.executions@ == before.executions@
    &&& peer.route is None ==> after.routes@ == before.routes@
    &&& peer.identity is None ==> after.identities@ == before.identities@
    &&& !peer.incomplete ==> after.unchecked@ == before.unchecked@
}

/// What a peer told is kept, and nothing else changes.
proof fn peer_records_are_kept(before: Records, peer: PeerRecords, after: Records)
    requires
        before.wf(),
        crate::inspection::adds(before, peer, after),
    ensures
        adds_to(after, before, peer),
{
    kept_under_its_machine(before.executions@, peer.machine, peer.execution);
    kept_under_its_machine(before.routes@, peer.machine, peer.route);
    kept_under_its_machine(before.identities@, peer.machine, peer.identity);
    kept_under_its_machine(before.addresses@, peer.machine, peer.address);
    kept_under_its_machine(
        before.unchecked@,
        peer.machine,
        if peer.incomplete {
            Some(())
        } else {
            None
        },
    );
}

/// An entry is kept under its machine, and the other machines stay.
proof fn kept_under_its_machine<T>(
    entries: Seq<(MachineId, T)>,
    machine: MachineId,
    value: Option<T>,
)
    requires
        crate::table::in_order(entries),
    ensures
        value matches Some(kept) ==> crate::inspection::with_optional(
            entries,
            machine,
            value,
        ).contains((machine, kept)),
        value matches Some(kept) ==> has_machine(
            crate::inspection::with_optional(entries, machine, value),
            machine,
        ),
        value is None ==> crate::inspection::with_optional(entries, machine, value) == entries,
        forall|other: MachineId|
            other != machine ==> (#[trigger] has_machine(
                crate::inspection::with_optional(entries, machine, value),
                other,
            ) <==> has_machine(entries, other)),
{
    if value is Some {
        crate::table::entries_stay_in_order(entries, machine, value->0, machine);
        assert forall|other: MachineId| other != machine implies (#[trigger] has_machine(
            crate::inspection::with_optional(entries, machine, value),
            other,
        ) <==> has_machine(entries, other)) by {
            crate::table::entries_stay_in_order(entries, machine, value->0, other);
        }
    }
}

/// Records are refused exactly where they contradict each other: routes that disagree, work held
/// by two machines or by another one than its route or its identity names, two identities, an
/// identity kept by another machine than its executor, and an outcome that another record denies.
pub proof fn contradicting_records_are_refused(
    records: Records,
    id: TaskId,
    result: Result<(), AppError>,
)
    requires
        call_ensures(Records::check_conflicts, (&records, id), result),
    ensures
        result is Err ==> result == Err::<(), AppError>(AppError::ClusterTaskConflict { task: id }),
        !routes_agree(records) ==> result is Err,
        records.executions@.len() > 1 ==> result is Err,
        records.identities@.len() > 1 ==> result is Err,
        records.executions@.len() > 0 && records.routes@.len() > 0 && (
        records.routes@[0].1.execution_machine != records.executions@[0].0
            || records.routes@[0].1.submission is Rejected) ==> result is Err,
        records.identities@.len() > 0 && contradicted(records, 0) ==> result is Err,
        result is Err ==> {
            ||| !routes_agree(records)
            ||| records.executions@.len() > 1
            ||| records.identities@.len() > 1
            ||| records.executions@.len() > 0 && records.routes@.len() > 0 && (
            records.routes@[0].1.execution_machine != records.executions@[0].0
                || records.routes@[0].1.submission is Rejected)
            ||| records.identities@.len() > 0 && contradicted(records, 0)
        },
{
    if records.identities@.len() == 1 {
        assert(records.identity_conflicts(0) == contradicted(records, 0));
    }
    if records.identities@.len() > 0 {
        assert(records.identity_conflicts(0) == contradicted(records, 0));
    }
}

/// Whether other records contradict an identity.
pub open spec fn contradicted(records: Records, at: int) -> bool {
    let (machine, identity) = records.identities@[at];
    let route = records.routes@[0].1;
    ||| executor_named(identity) != machine
    ||| records.executions@.len() > 0 && records.executions@[0].0 != executor_named(identity)
    ||| identity is Rejected && has_machine(records.executions@, machine)
    ||| records.routes@.len() > 0 && {
        ||| route.origin_machine != origin_named(identity)
        ||| route.execution_machine != executor_named(identity)
        ||| route.submission is Rejected && identity is Accepted
        ||| route.submission is Accepted && identity is Rejected
        ||| route.submission matches SubmissionState::Rejected { reason: told }
            && identity matches IdentitySummary::Rejected { reason: kept, .. } && told@ != kept@
    }
}

/// The route of a task is the first that was read, where all of them agree.
pub proof fn agreed_routes_are_one(
    records: Records,
    id: TaskId,
    route: Result<Option<(&MachineId, &OriginSummary)>, AppError>,
)
    requires
        call_ensures(Records::route, (&records, id), route),
    ensures
        route is Err <==> !routes_agree(records),
        route matches Err(error) ==> error == (AppError::ClusterTaskConflict { task: id }),
        route matches Ok(found) ==> (found is Some <==> records.routes@.len() > 0),
        route matches Ok(Some((machine, summary))) ==> *machine == records.routes@[0].0 && *summary
            == records.routes@[0].1,
{
}

/// A connection is tried at each hint in turn, and only a verified one is used; with no hint
/// left the machine is unavailable.
pub proof fn hints_are_tried_in_turn(
    machine: MachineId,
    hints: Vec<String>,
    connected: bool,
    first: ConnectStep,
    wait: AwaitProbe,
    verified: bool,
    step: ConnectStep,
)
    requires
        call_ensures(connect_or_hints, (machine, connected, hints), first),
        call_ensures(AwaitProbe::on_probe, (wait, verified), step),
    ensures
        connected <==> first is Connected,
        verified <==> step is Connected,
        !connected && hints@.len() > 0 ==> (first matches ConnectStep::Probe { address, next }
            && address == hints@[0] && next.machine == machine && next.hints@
            == hints@.drop_first()),
        !connected && hints@.len() == 0 ==> (first matches ConnectStep::Failed(error)
            && error@ matches ErrorView::MachineUnavailable { machine: named, .. } && named
            == machine),
        !verified && wait.hints@.len() > 0 ==> (step matches ConnectStep::Probe { address, next }
            && address == wait.hints@[0] && next.machine == wait.machine && next.hints@
            == wait.hints@.drop_first()),
        !verified && wait.hints@.len() == 0 ==> (step matches ConnectStep::Failed(error)
            && error@ matches ErrorView::MachineUnavailable { machine: named, .. } && named
            == wait.machine),
{
}

/// A remote answer is taken only where it succeeded; an answer that failed leaves the task
/// unavailable on that machine, and no answer the machine itself.
pub proof fn remote_answers_must_succeed(
    response: Result<ClusterResponse, String>,
    machine: MachineId,
    id: TaskId,
    result: Result<(), AppError>,
)
    requires
        call_ensures(remote_read, (&response, machine, id), result),
    ensures
        result is Ok ==> (response matches Ok(answer) && answer.status.number() == 200),
        response matches Ok(answer) && answer.status.number() != 200 ==> (result matches Err(error)
            && error@ == (ErrorView::TaskUnavailable { task: id, machine })),
        response matches Err(failure) ==> (result matches Err(error) && error@ == (
        ErrorView::MachineUnavailable { machine, message: failure@ })),
{
}

} // verus!
