//! Where a read goes and when a wait ends: the path and the query that a read is sent with, the
//! machine and the addresses that lead to an executor, the names that actors are found by, and
//! the instants that a window closes and a retry is due.

use vstd::prelude::*;

use crate::actors::resource::{resource_actor_name, resource_id_from_actor_name};
use crate::actors::supervisor::{task_id_from_name, task_name};
use crate::api::filter::{status_names, TaskFilter};
use crate::cancel_delivery::{retry_of, Retry};
use crate::cluster::OriginSummary;
use crate::domain::{texts, ProcessStatus};
use crate::error::AppError;
use crate::fleet::API_VERSION;
use crate::fleet_api::{lookup_path, MachinesBody, PeerView};
use crate::fleet_tasks::peer_list_path;
use crate::ids::{uuid_parsed, CancellationId, MachineId, ResourceId, TaskId};
use crate::inspection::{
    first_owner, listed_addresses, log_path, origin_address_hints, peer_paths, read_query,
    remote_path, AwaitTarget, LookupStep, PeerAnswer, PeerPaths, PeerRecords, Records,
};
use crate::resource::ReturnDecisionWindow;
use crate::time::{Span, Tick, Timestamp};

verus! {

/// Whether a text begins with another.
pub open spec fn begins(text: Seq<char>, head: Seq<char>) -> bool {
    head.len() <= text.len() && text.take(head.len() as int) == head
}

/// Whether a text ends with another.
pub open spec fn ends(text: Seq<char>, tail: Seq<char>) -> bool {
    tail.len() <= text.len() && text.skip(text.len() - tail.len()) == tail
}

/// A read keeps its path and ends with the query of its machine, joined by an ampersand where
/// the path has a query already and by a question mark where it has none.
pub proof fn reads_end_with_their_query(
    path: &str,
    machine: MachineId,
    query: String,
    full: String,
)
    requires
        call_ensures(read_query, (machine,), query),
        call_ensures(remote_path, (path, machine), full),
    ensures
        begins(full@, path@),
        ends(full@, query@),
        full@.len() == path@.len() + query@.len() + 1,
        path@.contains('?') ==> full@[path@.len() as int] == '&',
        !path@.contains('?') ==> full@[path@.len() as int] == '?',
{
    reveal_strlit("&");
    reveal_strlit("?");
    assert(full@.take(path@.len() as int) =~= path@);
    assert(full@.skip(full@.len() - query@.len()) =~= query@);
}

/// The paths of a task's reads differ from each other by what is read, and all end with the
/// query of the machine that is asked; a lookup reads the execution.
pub proof fn reads_are_sent_to_their_machine(
    machine: MachineId,
    id: TaskId,
    query: String,
    paths: PeerPaths,
    lookup: String,
    filter: TaskFilter,
    list: String,
    prefix: String,
)
    requires
        call_ensures(read_query, (machine,), query),
        call_ensures(peer_paths, (machine, id), paths),
        call_ensures(lookup_path, (machine, id), lookup),
        call_ensures(peer_list_path, (machine, &filter), list),
        call_ensures(TaskFilter::query_prefix, (&filter,), prefix),
    ensures
        ends(paths.execution@, query@),
        ends(paths.origin@, query@),
        ends(paths.identity@, query@),
        lookup@ == paths.execution@,
        paths.execution@ != paths.origin@,
        paths.execution@ != paths.identity@,
        paths.origin@ != paths.identity@,
        ends(list@, prefix@ + query@),
        filter.statuses@.len() == 0 && filter.thread is None ==> prefix@.len() == 0,
{
    reveal_strlit("");
    reveal_strlit("/v1/cluster/tasks/");
    reveal_strlit("/v1/cluster/origin/tasks/");
    reveal_strlit("/v1/cluster/identities/");
    assert(paths.execution@.skip(paths.execution@.len() - query@.len()) =~= query@);
    assert(paths.origin@.skip(paths.origin@.len() - query@.len()) =~= query@);
    assert(paths.identity@.skip(paths.identity@.len() - query@.len()) =~= query@);
    assert(paths.execution@[12] == 't');
    assert(paths.origin@[12] == 'o');
    assert(paths.identity@[12] == 'i');
    let tail = prefix@ + query@;
    assert(list@ == "/v1/cluster/task-list?"@ + prefix@ + query@);
    assert(list@.skip(list@.len() - tail.len()) =~= tail);
}

/// A log's path begins alike with and without a tail, and ends with the tail that is asked for.
pub proof fn logs_are_read_from_their_tail(
    id: TaskId,
    tail: u64,
    whole: String,
    part: String,
    number: String,
)
    requires
        call_ensures(log_path, (id, None), whole),
        call_ensures(log_path, (id, Some(tail)), part),
        call_ensures(crate::text::decimal, (tail,), number),
    ensures
        part@ == whole@ + "?tail="@ + number@,
        begins(whole@, "/v1/cluster/tasks/"@),
        ends(whole@, "/log"@),
{
    reveal_strlit("");
    reveal_strlit("/log");
    reveal_strlit("/v1/cluster/tasks/");
    assert(part@ =~= whole@ + "?tail="@ + number@);
    assert(whole@.take("/v1/cluster/tasks/"@.len() as int) =~= "/v1/cluster/tasks/"@);
    assert(whole@.skip(whole@.len() - "/log"@.len()) =~= "/log"@);
}

/// The names of a filter's statuses, one after the other, are joined by commas.
pub proof fn status_names_are_joined(left: Seq<ProcessStatus>, right: Seq<ProcessStatus>)
    requires
        left.len() > 0,
        right.len() > 0,
    ensures
        status_names(left + right) == status_names(left) + ","@ + status_names(right),
        left.len() == 1 ==> status_names(left) == left[0].name(),
    decreases right.len(),
{
    let all = left + right;
    assert(all.drop_last() =~= left + right.drop_last());
    assert(all.last() == right.last());
    if right.len() == 1 {
        assert(left + right.drop_last() =~= left);
    } else {
        status_names_are_joined(left, right.drop_last());
        assert(status_names(all) =~= status_names(left) + ","@ + status_names(right));
    }
}

/// What an inventory lists for a machine comes from the first entry of that machine, and nothing
/// without one.
proof fn listed_addresses_are_of_the_machine(machines: Seq<PeerView>, machine: MachineId, at: int)
    requires
        0 <= at <= machines.len(),
        forall|before: int|
            0 <= before < at ==> (#[trigger] machines[before]).machine != machine,
        at < machines.len() ==> machines[at].machine == machine,
    ensures
        at < machines.len() ==> listed_addresses(machines, machine) == texts(
            machines[at].addresses@,
        ),
        at == machines.len() ==> listed_addresses(machines, machine).len() == 0,
    decreases machines.len(),
{
    if machines.len() > 0 && at > 0 {
        let rest = machines.drop_first();
        assert forall|before: int| 0 <= before < at - 1 implies (
        #[trigger] rest[before]).machine != machine by {
            assert(rest[before] == machines[before + 1]);
        }
        assert(machines[0].machine != machine);
        if at < machines.len() {
            assert(rest[at - 1] == machines[at]);
        }
        listed_addresses_are_of_the_machine(rest, machine, at - 1);
    }
}

/// Hints are the addresses that the origin itself lists for the executor, in its whole answer of
/// the current version; any other answer hints at nothing.
pub proof fn hints_come_from_the_origin_itself(
    answer: Option<PeerAnswer<MachinesBody>>,
    origin: MachineId,
    executor: MachineId,
    hints: Vec<String>,
    at: int,
)
    requires
        call_ensures(origin_address_hints, (&answer, origin, executor), hints),
    ensures
        hints@.len() > 0 ==> {
            &&& answer matches Some(told)
            &&& told.status == 200
            &&& told.body matches Some(body)
            &&& body.api_version == API_VERSION
            &&& body.local.machine == origin
        },
        (answer matches Some(told) && (told.body matches Some(body) && told.status == 200
            && body.api_version == API_VERSION && body.local.machine == origin && 0 <= at
            < body.machines@.len() && body.machines@[at].machine == executor && (forall|before: int|
            0 <= before < at ==> (#[trigger] body.machines@[before]).machine != executor)))
            ==> texts(hints@) == texts(answer->0.body->0.machines@[at].addresses@),
{
    assert(texts(hints@).len() == hints@.len());
    match answer {
        Some(PeerAnswer { status, body: Some(body) }) => {
            if 0 <= at < body.machines@.len() && body.machines@[at].machine == executor && (
            forall|before: int|
                0 <= before < at ==> (#[trigger] body.machines@[before]).machine != executor) {
                listed_addresses_are_of_the_machine(body.machines@, executor, at);
            }
        },
        _ => {},
    }
}

/// Time is left exactly until the deadline, and it ends there.
pub proof fn windows_stay_open_until_their_deadline(
    window: ReturnDecisionWindow,
    now: Timestamp,
    left: Span,
    open: bool,
)
    requires
        call_ensures(ReturnDecisionWindow::remaining_at, (window, now), left),
        call_ensures(Timestamp::after, (window.deadline_at, now), open),
    ensures
        left.nanos > 0 <==> open,
        open ==> now.total() + left.nanos == window.deadline_at.total(),
{
}

/// A cancellation that never failed is due at once and waits one second after its first failure;
/// one that failed stays due when its failure said.
pub proof fn first_deliveries_are_due_at_once(
    table: Map<u128, Retry>,
    cancellation: CancellationId,
    other: CancellationId,
    now: Tick,
    failed: Retry,
)
    ensures
        !table.contains_key(cancellation.0) ==> retry_of(table, cancellation, now).next == now
            && retry_of(table, cancellation, now).delay.nanos == 1_000_000_000,
        retry_of(table.insert(cancellation.0, failed), cancellation, now) == failed,
        other != cancellation ==> retry_of(table.insert(cancellation.0, failed), other, now)
            == retry_of(table, other, now),
        retry_of(table.remove(cancellation.0), cancellation, now).next == now,
{
}

/// The first route to an executor is the one that is asked, if there is one.
proof fn first_owners_come_first(
    routes: Seq<(MachineId, OriginSummary)>,
    machine: MachineId,
    at: int,
)
    requires
        0 <= at <= routes.len(),
        forall|before: int|
            0 <= before < at ==> (#[trigger] routes[before]).1.execution_machine != machine,
        at < routes.len() ==> routes[at].1.execution_machine == machine,
    ensures
        at < routes.len() ==> first_owner(routes, machine) == Some(routes[at].0),
        at == routes.len() ==> first_owner(routes, machine) is None,
    decreases routes.len(),
{
    if routes.len() > 0 && at > 0 {
        let rest = routes.drop_first();
        assert forall|before: int| 0 <= before < at - 1 implies (
        #[trigger] rest[before]).1.execution_machine != machine by {
            assert(rest[before] == routes[before + 1]);
        }
        assert(routes[0].1.execution_machine != machine);
        if at < routes.len() {
            assert(rest[at - 1] == routes[at]);
        }
        first_owners_come_first(rest, machine, at - 1);
    }
}

/// The machine that may know an executor's address is the first whose route leads to that
/// executor, unless it is this machine; without such a route there is none.
pub proof fn hinting_machines_have_the_route(
    records: Records,
    machine: MachineId,
    local: MachineId,
    hint: Option<MachineId>,
    at: int,
)
    requires
        call_ensures(Records::hint, (&records, machine, local), hint),
        0 <= at <= records.routes@.len(),
        forall|before: int|
            0 <= before < at ==> (#[trigger] records.routes@[before]).1.execution_machine
                != machine,
        at < records.routes@.len() ==> records.routes@[at].1.execution_machine == machine,
    ensures
        hint matches Some(owner) ==> owner != local && at < records.routes@.len() && owner
            == records.routes@[at].0,
        at < records.routes@.len() && records.routes@[at].0 != local ==> hint is Some,
{
    first_owners_come_first(records.routes@, machine, at);
}

/// A lookup ends only when every target was read, with records that do not contradict each other
/// or with the conflict.
pub proof fn lookups_end_without_a_contradiction(
    wait: AwaitTarget,
    peer: PeerRecords,
    step: LookupStep,
    checked: Result<(), AppError>,
)
    requires
        call_ensures(AwaitTarget::on_target, (wait, peer), step),
        step matches LookupStep::Done(Ok(records)) ==> call_ensures(
            Records::check_conflicts,
            (&records, wait.lookup.id),
            checked,
        ),
    ensures
        step is Done ==> wait.remaining@.len() == 0,
        step matches LookupStep::Done(Ok(_)) ==> checked is Ok,
        step matches LookupStep::Done(Err(error)) ==> error == (AppError::ClusterTaskConflict {
            task: wait.lookup.id,
        }),
{
}

/// An actor's name is read back as what it stands for, and a name of any other form stands for
/// nothing.
pub proof fn actor_names_are_read_back(
    task: TaskId,
    resource: ResourceId,
    names: (String, String),
    read: (Option<TaskId>, Option<ResourceId>),
    other: String,
    found: (Option<TaskId>, Option<ResourceId>),
    none: (Option<TaskId>, Option<ResourceId>),
)
    requires
        resource.0 != 0,
        call_ensures(task_name, (task,), names.0),
        call_ensures(resource_actor_name, (resource,), names.1),
        call_ensures(task_id_from_name, (Some(names.0),), read.0),
        call_ensures(resource_id_from_actor_name, (Some(names.1),), read.1),
        call_ensures(task_id_from_name, (Some(other),), found.0),
        call_ensures(resource_id_from_actor_name, (Some(other),), found.1),
        call_ensures(task_id_from_name, (None,), none.0),
        call_ensures(resource_id_from_actor_name, (None,), none.1),
    ensures
        read.0 == Some(task),
        read.1 == Some(resource),
        found.0 matches Some(id) ==> begins(other@, "homebased.task."@) && uuid_parsed(
            other@.skip(15),
        ) == Some(id.0),
        found.1 matches Some(id) ==> begins(other@, "homebased.resource."@) && id.0 != 0
            && uuid_parsed(other@.skip(19)) == Some(id.0),
        none.0 is None,
        none.1 is None,
{
    reveal_strlit("homebased.task.");
    reveal_strlit("homebased.resource.");
}

} // verus!
