//! The fleet as this machine knows it: who may change it, what is told of it, and where a task is
//! found in it.

use vstd::prelude::*;

use crate::actors::store::StoreMsg;
use crate::cluster::{ExecutionBody, ExecutionView};
use crate::content::{
    map_io, mirror_path, serve_regular_file, FileFailure, FileKind, PathToken, ServeStep,
};
use crate::domain::TaskRow;
use crate::error::{AppError, ErrorView};
use crate::events::FailedInboxEvent;
use crate::fleet::{check_destination, ClusterResponse, HttpStatus, ProtocolRange, API_VERSION};
use crate::fleet_api::{
    change_answer, check_control, check_version, connect_failure, enabled, executor_event_detail,
    found_in, gaps_in, inventory, lookup_outcome, lookup_peer, lookup_task, origin_inbox_detail,
    probe_answer, remove, AwaitInboxFailures, AwaitInboxRoute, AwaitLookupTask, AwaitLookups,
    ChangeBody, ConnectFailure, FleetState, InboxStep, LookupBody, LookupGap, LookupResult,
    LookupStep, MachinesBody, PeerLookup, ProbeBody, ProbedMachineView, Removal, RemoveBody,
};
use crate::ids::{uuid_parsed, MachineId, TaskId};
use crate::inspection::PeerAnswer;
use crate::path::{absolute, has_segment};
use crate::peer_read::{parsed_body, read_peer};
use crate::submission::OriginRoute;

verus! {

/// The fleet is read in the current version, and changed only where there is one.
pub proof fn fleets_change_only_where_enabled(
    version: u32,
    in_fleet: bool,
    read: Result<(), AppError>,
    allowed: Result<(), AppError>,
    changes: Result<(), AppError>,
)
    requires
        call_ensures(check_version, (version,), read),
        call_ensures(enabled, (in_fleet,), allowed),
        call_ensures(check_control, (version, in_fleet), changes),
    ensures
        read is Ok <==> version == API_VERSION,
        allowed is Ok <==> in_fleet,
        changes is Ok <==> version == API_VERSION && in_fleet,
        changes matches Err(error) ==> error@ is Usage,
{
}

/// The inventory shows this machine and its fleet as they are; without a fleet it shows this
/// machine alone, at one with itself.
pub proof fn inventories_show_the_fleet(
    machine: MachineId,
    name: String,
    fleet: Option<FleetState>,
    body: MachinesBody,
)
    requires
        call_ensures(inventory, (machine, name, fleet), body),
    ensures
        body.local.machine == machine,
        body.local.name == name,
        body.api_version == API_VERSION,
        fleet matches Some(known) ==> body.machines == known.machines && body.unresolved
            == known.unresolved && body.local.advertised == known.advertised && body.local.identity
            == known.identity,
        fleet is None ==> body.machines@.len() == 0 && body.unresolved@.len() == 0
            && body.local.advertised@.len() == 0 && body.local.identity is Consistent,
{
}

/// An address is removed as an address, and otherwise the machine that the text names.
pub proof fn removals_name_an_address_or_a_machine(
    body: RemoveBody,
    in_fleet: bool,
    address: Option<String>,
    result: Result<Removal, AppError>,
    probed: Result<ProbedMachineView, String>,
    probe: Result<ProbeBody, AppError>,
    changed: bool,
    change: ChangeBody,
)
    requires
        call_ensures(remove, (&body, in_fleet, address), result),
        call_ensures(probe_answer, (probed,), probe),
        call_ensures(change_answer, (changed,), change),
    ensures
        result is Ok <==> body.api_version == API_VERSION && in_fleet && (address is Some
            || uuid_parsed(body.machine_or_address@) is Some),
        result matches Ok(Removal::Address(removed)) ==> address == Some(removed),
        result matches Ok(Removal::Machine(removed)) ==> address is None && uuid_parsed(
            body.machine_or_address@,
        ) == Some(removed.0),
        result is Ok && address is Some ==> result->Ok_0 is Address,
        result matches Err(error) ==> error@ is Usage,
        probe is Ok <==> probed is Ok,
        probe matches Ok(told) ==> told.machine == probed->Ok_0 && told.api_version == API_VERSION,
        probe matches Err(error) ==> error@ is Usage,
        change.changed == changed,
        change.api_version == API_VERSION,
{
}

/// The inbox of a task is shown by its route's own sequences and its own failures; without a
/// route there is none.
pub proof fn inboxes_are_shown_by_their_route(
    id: TaskId,
    first: InboxStep,
    route: Option<OriginRoute>,
    second: InboxStep,
    failures: Result<Vec<FailedInboxEvent>, AppError>,
    step: InboxStep,
)
    requires
        call_ensures(origin_inbox_detail, (id,), first),
        first matches InboxStep::AskRoute { next, .. } ==> call_ensures(
            AwaitInboxRoute::on_route,
            (next, Ok(route)),
            second,
        ),
        second matches InboxStep::AskFailures { next, .. } ==> call_ensures(
            AwaitInboxFailures::on_failures,
            (next, failures),
            step,
        ),
    ensures
        first matches InboxStep::AskRoute { message, .. } && message == (StoreMsg::OriginRoute {
            id,
        }),
        route is None ==> (second matches InboxStep::Done(Err(error)) && error == (
        AppError::RouteNotFound { task: id })),
        route matches Some(saved) ==> {
            &&& second matches InboxStep::AskFailures { message, .. }
            &&& message == (StoreMsg::FailedInboxEvents { id })
            &&& failures matches Err(error) ==> (step matches InboxStep::Done(Err(told)) && told
                == error)
            &&& failures matches Ok(events) ==> (step matches InboxStep::Done(Ok(shown))
                && shown.task == id && shown.last_accepted_seq == saved.last_accepted_seq
                && shown.last_settled_seq == saved.last_settled_seq && shown.failed_events == events
                && shown.api_version == API_VERSION)
        },
{
}

/// An event status is shown as it is, and its task is not found without one.
pub proof fn event_statuses_are_shown<T>(
    id: TaskId,
    status: Option<T>,
    detail: Result<T, AppError>,
)
    requires
        call_ensures(executor_event_detail::<T>, (id, status), detail),
    ensures
        detail is Ok <==> status is Some,
        detail matches Ok(shown) ==> status == Some(shown),
        detail matches Err(error) ==> error == (AppError::TaskNotFound { id }),
{
}

/// A peer's answer counts exactly where it is a whole one of the current version about the task
/// and that peer itself: found, or not. Otherwise there is a gap for that peer, with its cause.
pub proof fn peers_leave_gaps_with_their_cause(
    answer: Result<Option<PeerAnswer<ExecutionBody>>, ConnectFailure>,
    machine: MachineId,
    id: TaskId,
    found: PeerLookup,
    error: AppError,
    failure: ConnectFailure,
)
    requires
        call_ensures(lookup_peer, (answer, machine, id), found),
        call_ensures(connect_failure, (&error,), failure),
    ensures
        found matches Ok(execution) ==> {
            &&& answer matches Ok(Some(told))
            &&& told.body matches Some(body)
            &&& body.execution == execution
            &&& body.api_version == API_VERSION
            &&& told.status == 200 <==> execution is Some
            &&& told.status == 404 <==> execution is None
            &&& execution matches Some(view) ==> view.task == id && view.execution_machine
                == machine
        },
        (answer matches Ok(Some(told)) && (told.body matches Some(body) && body.api_version
            == API_VERSION && ((told.status == 404 && body.execution is None) || (told.status == 200
            && (body.execution matches Some(view) && view.task == id && view.execution_machine
            == machine))))) ==> found is Ok,
        found matches Err(gap) ==> {
            &&& gap.machine == machine
            &&& gap.reason is Incompatible <==> (answer matches Err(cause) && cause is Incompatible)
            &&& gap.reason is InvalidResponse <==> answer matches Ok(Some(_))
        },
        failure is Incompatible <==> error is ClusterProtocolIncompatible,
{
}

/// A task on this machine is found here without asking anyone; only then are peers asked.
pub proof fn own_tasks_are_found_here(
    local: MachineId,
    id: TaskId,
    first: LookupStep,
    reply: Result<Option<TaskRow>, AppError>,
    step: LookupStep,
)
    requires
        call_ensures(lookup_task, (local, id), first),
        first matches LookupStep::AskTask { next, .. } ==> call_ensures(
            AwaitLookupTask::on_task,
            (next, reply),
            step,
        ),
    ensures
        first matches LookupStep::AskTask { message, .. } && message == (StoreMsg::GetTask { id }),
        step is AskPeers <==> reply matches Ok(None),
        step matches LookupStep::AskPeers { next } ==> next.id == id,
        reply matches Err(error) ==> (step matches LookupStep::Done(Err(told)) && told == error),
        reply matches Ok(Some(row)) ==> (step matches LookupStep::Done(Ok(body)) && body.task == id
            && (body.outcome matches LookupResult::Found { execution, unchecked } && execution.task
            == id && execution.execution_machine == local && execution.status == row.status
            && unchecked@.len() == 0)),
{
}

/// Whether a peer told of an execution.
pub open spec fn told_of(lookups: Seq<PeerLookup>, view: ExecutionView) -> bool {
    lookups.contains(Ok::<Option<ExecutionView>, LookupGap>(Some(view)))
}

/// Whether a peer left a gap.
pub open spec fn left_open(lookups: Seq<PeerLookup>, gap: LookupGap) -> bool {
    lookups.contains(Err::<Option<ExecutionView>, LookupGap>(gap))
}

/// What was found, and what was not answered, is all there and nothing else.
proof fn lookups_are_found_or_gaps(lookups: Seq<PeerLookup>)
    ensures
        forall|view: ExecutionView| #[trigger]
            found_in(lookups).contains(view) <==> told_of(lookups, view),
        forall|gap: LookupGap| #[trigger]
            gaps_in(lookups).contains(gap) <==> left_open(lookups, gap),
    decreases lookups.len(),
{
    if lookups.len() > 0 {
        let rest = lookups.drop_last();
        let last = lookups.last();
        lookups_are_found_or_gaps(rest);
        assert(lookups == rest.push(last));
        assert forall|view: ExecutionView| #[trigger]
            found_in(lookups).contains(view) <==> told_of(lookups, view) by {
            let told = Ok::<Option<ExecutionView>, LookupGap>(Some(view));
            vstd::seq_lib::lemma_seq_contains_after_push(rest, last, told);
            assert(found_in(rest).contains(view) <==> told_of(rest, view));
            match last {
                Ok(Some(found)) => {
                    vstd::seq_lib::lemma_seq_contains_after_push(found_in(rest), found, view);
                },
                _ => {},
            }
        }
        assert forall|gap: LookupGap| #[trigger]
            gaps_in(lookups).contains(gap) <==> left_open(lookups, gap) by {
            let told = Err::<Option<ExecutionView>, LookupGap>(gap);
            vstd::seq_lib::lemma_seq_contains_after_push(rest, last, told);
            assert(gaps_in(rest).contains(gap) <==> left_open(rest, gap));
            match last {
                Err(open) => {
                    vstd::seq_lib::lemma_seq_contains_after_push(gaps_in(rest), open, gap);
                },
                _ => {},
            }
        }
    }
}

/// Whether an outcome tells what peers answered: an execution is found only where one peer told
/// of it, the task is not found only where every peer answered without it, and each peer without
/// an answer is named as unchecked, and no other.
pub open spec fn tells_lookups(lookups: Seq<PeerLookup>, outcome: LookupResult) -> bool {
    &&& outcome matches LookupResult::Found { execution, unchecked } ==> {
        &&& told_of(lookups, execution)
        &&& forall|other: ExecutionView|
            #[trigger] told_of(lookups, other)
                ==> other == execution
        &&& names_gaps(lookups, unchecked@)
    }
    &&& outcome is NotFound <==> forall|at: int|
        0 <= at < lookups.len() ==> #[trigger] lookups[at] == Ok::<
            Option<ExecutionView>,
            LookupGap,
        >(None)
    &&& outcome matches LookupResult::Incomplete { unchecked } ==> {
        &&& unchecked@.len() > 0
        &&& forall|other: ExecutionView|
            !#[trigger] told_of(lookups, other)
        &&& names_gaps(lookups, unchecked@)
    }
    &&& outcome matches LookupResult::OwnershipConflict { executions, unchecked } ==> {
        &&& executions@.len() > 1
        &&& forall|view: ExecutionView| #[trigger]
            executions@.contains(view) <==> told_of(lookups, view)
        &&& names_gaps(lookups, unchecked@)
    }
}

/// Whether gaps are exactly those that peers left.
pub open spec fn names_gaps(lookups: Seq<PeerLookup>, gaps: Seq<LookupGap>) -> bool {
    forall|gap: LookupGap| #[trigger]
        gaps.contains(gap) <==> left_open(lookups, gap)
}

/// An outcome tells what the peers answered.
proof fn outcomes_tell_their_lookups(lookups: Seq<PeerLookup>, outcome: LookupResult)
    requires
        crate::fleet_api::outcome_of(lookups, outcome),
    ensures
        tells_lookups(lookups, outcome),
{
    lookups_are_found_or_gaps(lookups);
    let found = found_in(lookups);
    let gaps = gaps_in(lookups);
    if found.len() > 0 {
        assert(found.contains(found[0]));
        let told = Ok::<Option<ExecutionView>, LookupGap>(Some(found[0]));
        let at = choose|at: int| 0 <= at < lookups.len() && lookups[at] == told;
        assert(lookups[at] != Ok::<Option<ExecutionView>, LookupGap>(None));
    } else {
        assert forall|other: ExecutionView| !#[trigger] told_of(lookups, other) by {
            assert(!found.contains(other));
        }
    }
    if gaps.len() > 0 {
        assert(gaps.contains(gaps[0]));
        let left = Err::<Option<ExecutionView>, LookupGap>(gaps[0]);
        let at = choose|at: int| 0 <= at < lookups.len() && lookups[at] == left;
        assert(lookups[at] != Ok::<Option<ExecutionView>, LookupGap>(None));
    }
    if found.len() == 0 && gaps.len() == 0 {
        assert forall|at: int| 0 <= at < lookups.len() implies #[trigger] lookups[at] == Ok::<
            Option<ExecutionView>,
            LookupGap,
        >(None) by {
            let told = lookups[at];
            assert(lookups.contains(told));
            match told {
                Ok(Some(view)) => {
                    assert(found.contains(view));
                },
                Err(gap) => {
                    assert(gaps.contains(gap));
                },
                Ok(None) => {},
            }
        }
    }
    if found.len() == 1 {
        assert forall|other: ExecutionView|
            #[trigger] told_of(lookups, other) implies other == found[0] by {
            assert(found.contains(other));
        }
    }
}

/// A lookup tells what the peers answered; without a fleet the task is not found, and a lookup
/// that failed as a whole fails.
pub proof fn lookups_tell_what_peers_answered(
    lookups: Vec<PeerLookup>,
    outcome: LookupResult,
    wait: AwaitLookups,
    told: Result<LookupBody, AppError>,
    alone: Result<LookupBody, AppError>,
    failure: String,
    failed: Result<LookupBody, AppError>,
)
    requires
        call_ensures(lookup_outcome, (&lookups,), outcome),
        call_ensures(AwaitLookups::on_peers, (wait, Some(Ok(lookups))), told),
        call_ensures(AwaitLookups::on_peers, (wait, None), alone),
        call_ensures(AwaitLookups::on_peers, (wait, Some(Err(failure))), failed),
    ensures
        tells_lookups(lookups@, outcome),
        told matches Ok(body) && body.task == wait.id && body.api_version == API_VERSION
            && tells_lookups(lookups@, body.outcome),
        alone matches Ok(body) && body.task == wait.id && body.outcome is NotFound,
        failed matches Err(error) && error@ is Internal,
{
    outcomes_tell_their_lookups(lookups@, outcome);
    outcomes_tell_their_lookups(lookups@, told->Ok_0.outcome);
}

/// A peer's answer is read only where it succeeded, and its parse is what it is.
pub proof fn peer_answers_must_succeed<T>(
    response: ClusterResponse,
    result: Result<(), String>,
    parsed: Result<T, String>,
    body: Result<T, String>,
)
    requires
        call_ensures(read_peer, (&response,), result),
        call_ensures(parsed_body::<T>, (parsed,), body),
    ensures
        result is Ok ==> response.status.number() == 200,
        body is Ok <==> parsed is Ok,
        body matches Ok(value) ==> parsed == Ok::<T, String>(value),
{
}

/// A path that is mirrored is absolute and stays as it was asked for, without a step up; and one
/// that would step anywhere is refused.
pub proof fn mirrored_paths_never_step_up(captured: &str, path: Result<String, AppError>)
    requires
        call_ensures(mirror_path, (captured,), path),
    ensures
        path matches Ok(found) ==> absolute(found@) && found@.len() > 1 && found@[1] != '/',
        path matches Ok(found) ==> !has_segment(found@.drop_first(), ".."@) && !has_segment(
            found@.drop_first(),
            "."@,
        ),
        path matches Err(error) ==> error@ is Usage,
{
    if path is Ok {
        reveal_strlit("/");
        let trimmed = crate::content::without_slashes(captured@);
        trimmed_texts_begin_elsewhere(captured@);
        assert(path->Ok_0@.drop_first() =~= trimmed);
    }
}

/// A text without its leading slashes begins with none.
proof fn trimmed_texts_begin_elsewhere(text: Seq<char>)
    ensures
        ({
            let rest = crate::content::without_slashes(text);
            rest.len() == 0 || rest[0] != '/'
        }),
    decreases text.len(),
{
    if text.len() > 0 && text[0] == '/' {
        trimmed_texts_begin_elsewhere(text.drop_first());
    }
}

/// A regular file is streamed, a link is resolved first, and nothing else is served; a failure
/// tells what it was.
pub proof fn only_files_are_served(
    kind: FileKind,
    display: &str,
    step: Result<ServeStep, AppError>,
    failure: FileFailure,
    error: AppError,
    raw: String,
    token: Result<PathToken, AppError>,
)
    requires
        call_ensures(serve_regular_file, (kind, display), step),
        call_ensures(map_io, (display, failure), error),
        call_ensures(PathToken::from_raw, (raw,), token),
    ensures
        step is Ok <==> kind is Regular || kind is Link,
        step matches Ok(served) ==> (served is Stream <==> kind is Regular),
        step matches Err(refused) ==> refused@ is UnsupportedFile,
        failure is NotFound <==> error@ is FileNotFound,
        failure is PermissionDenied <==> error@ is Permission,
        failure is Other <==> error@ is Internal,
        token is Ok <==> raw@.len() > 0,
        token matches Ok(kept) ==> kept.encoded == raw,
{
}

/// A range of protocols begins at one and is not empty; a status is a number of three digits, and
/// is kept; and only this machine is its destination.
pub proof fn ranges_and_statuses_are_checked(
    min: u32,
    max: u32,
    range: Option<ProtocolRange>,
    code: u16,
    status: Option<HttpStatus>,
    known: HttpStatus,
    ok: bool,
    success: bool,
    number: u16,
    local: MachineId,
    destination: MachineId,
    result: Result<(), AppError>,
)
    requires
        call_ensures(ProtocolRange::new, (min, max), range),
        call_ensures(HttpStatus::new, (code,), status),
        call_ensures(HttpStatus::is_ok, (known,), ok),
        call_ensures(HttpStatus::is_success, (known,), success),
        call_ensures(HttpStatus::code, (known,), number),
        call_ensures(check_destination, (local, destination), result),
    ensures
        range is Some <==> 1 <= min && min <= max,
        range matches Some(found) ==> found.min == min && found.max == max,
        status is Some <==> 100 <= code <= 999,
        status matches Some(found) ==> found.number() == code,
        number == known.number(),
        ok <==> number == 200,
        success <==> 200 <= number <= 299,
        result is Ok <==> destination == local,
        result matches Err(error) ==> error@ == (ErrorView::MachineIdentityMismatch {
            expected: destination,
            found: Some(local),
        }),
{
}

} // verus!
