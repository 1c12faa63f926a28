//! Fleet-wide task list for the dashboard.
//!
//! A browser reads one origin only, so this daemon reads every known peer and merges their
//! public task summaries. A peer that cannot answer is reported with its reason and never
//! hides the tasks of the other machines.

use std::collections::HashMap;

use vstd::prelude::*;

use crate::api::filter::{parsed_filter, status_names, ListQuery, TaskFilter};
use crate::api::views::TaskSummary;
use crate::cluster::check_api_version;
use crate::domain::optional_text;
use crate::error::{AppError, ErrorView};
use crate::fleet::{api_version_checked, check_destination, API_VERSION};
use crate::fleet_api::{PeerView, Reachability};
use crate::ids::{hyphenated, MachineId, TaskId};
use crate::inspection::{read_query, read_query_text};
use crate::text::join3;

verus! {

broadcast use vstd::std_specs::hash::group_hash_axioms;

/// The tasks of the fleet.
#[derive(Debug)]
pub struct FleetTaskList {
    /// Public API version.
    pub api_version: u32,
    /// This machine first, then every known peer and how its read went.
    pub machines: Vec<FleetMachine>,
    /// One entry per task, newest first.
    pub tasks: Vec<FleetTask>,
}

/// One machine of the fleet task list.
#[derive(Debug)]
pub struct FleetMachine {
    /// Stable installation identity.
    pub machine: MachineId,
    /// Display name.
    pub name: String,
    /// Version of the machine's daemon, from the last probe for a peer.
    pub version: String,
    /// Where a browser opens this machine's dashboard.
    pub location: MachineLocation,
    /// Result of reading this machine's tasks.
    pub read: MachineRead,
}

/// Dashboard location of one machine.
#[derive(Debug)]
pub enum MachineLocation {
    /// The daemon that serves this response, so the browser uses its own origin.
    Local,
    /// A peer dashboard at its best-ranked address, when one is known.
    Peer {
        /// Base URL of the peer daemon.
        address: Option<String>,
    },
}

/// Result of one machine's task read.
#[derive(Debug)]
pub enum MachineRead {
    /// The machine answered; its tasks are in the list.
    Online,
    /// The machine did not answer; its tasks are missing from the list.
    Unavailable {
        /// Why the read failed.
        message: String,
    },
}

/// One logical task and the machine that runs it.
#[derive(Debug)]
pub struct FleetTask {
    /// Execution machine, or the machine that answered when the task has no owners.
    pub machine: MachineId,
    /// Summary from the execution record when one answered.
    pub task: TaskSummary,
}

/// One daemon's own tasks.
#[derive(Debug)]
pub struct ClusterTaskList {
    pub api_version: u32,
    /// Machine that answered, checked against the destination.
    pub machine: MachineId,
    pub tasks: Vec<TaskSummary>,
}

/// Strict query of a peer's task list.
#[derive(Debug)]
pub struct ClusterTaskListQuery {
    pub api_version: u32,
    pub destination_machine: MachineId,
    pub status: Option<String>,
    pub thread: Option<String>,
}

/// One record of a task, and whether its execution machine gave it.
#[derive(Debug)]
pub struct Candidate {
    pub execution: bool,
    pub entry: FleetTask,
}

/// The candidate that one machine's record makes.
pub open spec fn candidate(answered_by: MachineId, task: TaskSummary) -> Candidate {
    let machine = match task.execution_machine {
        Some(machine) => machine,
        None => answered_by,
    };
    Candidate { execution: machine == answered_by, entry: FleetTask { machine, task } }
}

/// The candidates of one machine's records.
pub open spec fn of_machine(answered_by: MachineId, tasks: Seq<TaskSummary>) -> Seq<Candidate> {
    tasks.map_values(|task: TaskSummary| candidate(answered_by, task))
}

/// The candidates of every machine's records, in order.
pub open spec fn candidates(records: Seq<(MachineId, Vec<TaskSummary>)>) -> Seq<Candidate>
    decreases records.len(),
{
    if records.len() == 0 {
        Seq::empty()
    } else {
        of_machine(records[0].0, records[0].1@) + candidates(records.drop_first())
    }
}

/// The record that stands for a task: the first that its execution machine gave, else the
/// first of any machine.
pub open spec fn preferred(records: Seq<Candidate>, id: TaskId) -> Option<Candidate>
    decreases records.len(),
{
    if records.len() == 0 {
        None
    } else {
        let later = preferred(records.drop_first(), id);
        if records[0].entry.task.id != id {
            later
        } else if records[0].execution {
            Some(records[0])
        } else {
            match later {
                Some(kept) if kept.execution => later,
                _ => Some(records[0]),
            }
        }
    }
}

/// Whether one task is shown before another: the newer first, and of two that are as old the
/// one with the greater identity.
pub open spec fn before(left: FleetTask, right: FleetTask) -> bool {
    left.task.created_at.total() > right.task.created_at.total() || (left.task.created_at.total()
        == right.task.created_at.total() && left.task.id.0 > right.task.id.0)
}

/// Whether tasks are shown in order, so that no task is shown twice.
pub open spec fn newest_first(tasks: Seq<FleetTask>) -> bool {
    forall|left: int, right: int|
        0 <= left < right < tasks.len() ==> before(#[trigger] tasks[left], #[trigger] tasks[right])
}

/// Whether tasks have no identity in common.
pub open spec fn distinct(tasks: Seq<FleetTask>) -> bool {
    forall|left: int, right: int|
        0 <= left < right < tasks.len() ==> (#[trigger] tasks[left]).task.id != (
        #[trigger] tasks[right]).task.id
}

/// Whether a list shows each task of some records once, by its preferred record, newest first.
pub open spec fn merged(records: Seq<Candidate>, tasks: Seq<FleetTask>) -> bool {
    &&& newest_first(tasks)
    &&& forall|at: int|
        0 <= at < tasks.len() ==> {
            &&& preferred(records, (#[trigger] tasks[at]).task.id) matches Some(kept)
            &&& kept.entry == tasks[at]
        }
    &&& forall|id: TaskId| #[trigger]
        preferred(records, id) is Some ==> exists|at: int|
            0 <= at < tasks.len() && (#[trigger] tasks[at]).task.id == id
}

fn is_before(left: &FleetTask, right: &FleetTask) -> (is: bool)
    ensures
        is == before(*left, *right),
{
    let left_at: i128 = left.task.created_at.nanos_since_epoch();
    let right_at: i128 = right.task.created_at.nanos_since_epoch();
    left_at > right_at || (left_at == right_at && left.task.id.0 > right.task.id.0)
}

spec fn in_either(left: Seq<FleetTask>, right: Seq<FleetTask>, task: FleetTask) -> bool {
    left.contains(task) || right.contains(task)
}

/// Two lists without a common identity, merged in order.
fn merge(left: Vec<FleetTask>, right: Vec<FleetTask>) -> (tasks: Vec<FleetTask>)
    requires
        newest_first(left@),
        newest_first(right@),
        forall|at: int, other: int|
            0 <= at < left@.len() && 0 <= other < right@.len() ==> (
            #[trigger] left@[at]).task.id != (#[trigger] right@[other]).task.id,
    ensures
        newest_first(tasks@),
        forall|task: FleetTask| #[trigger]
            tasks@.contains(task) <==> left@.contains(task) || right@.contains(task),
{
    let ghost all_left = left@;
    let ghost all_right = right@;
    let mut left = left;
    let mut right = right;
    let mut oldest: Vec<FleetTask> = Vec::new();
    while left.len() > 0 || right.len() > 0
        invariant
            newest_first(left@),
            newest_first(right@),
            forall|at: int, other: int|
                0 <= at < left@.len() && 0 <= other < right@.len() ==> (
                #[trigger] left@[at]).task.id != (#[trigger] right@[other]).task.id,
            forall|newer: int, older: int|
                0 <= older < newer < oldest@.len() ==> before(
                    #[trigger] oldest@[newer],
                    #[trigger] oldest@[older],
                ),
            forall|at: int, done: int|
                0 <= at < left@.len() && 0 <= done < oldest@.len() ==> before(
                    #[trigger] left@[at],
                    #[trigger] oldest@[done],
                ),
            forall|at: int, done: int|
                0 <= at < right@.len() && 0 <= done < oldest@.len() ==> before(
                    #[trigger] right@[at],
                    #[trigger] oldest@[done],
                ),
            forall|task: FleetTask| #[trigger]
                in_either(all_left, all_right, task) <==> (in_either(left@, right@, task)
                    || oldest@.contains(task)),
        decreases left.len() + right.len(),
    {
        let ghost left_before = left@;
        let ghost right_before = right@;
        let ghost done = oldest@;
        let from_left = if left.len() == 0 {
            false
        } else if right.len() == 0 {
            true
        } else {
            is_before(&right[right.len() - 1], &left[left.len() - 1])
        };
        let next = if from_left {
            left.pop()
        } else {
            right.pop()
        };
        if let Some(task) = next {
            let ghost moved = task;
            oldest.push(task);
            proof {
                if from_left {
                    assert(left_before == left@.push(moved));
                    assert(left_before[left_before.len() - 1] == moved);
                    if right_before.len() > 0 {
                        let end = right_before.len() - 1;
                        assert(right_before[end] == right_before.last());
                        assert forall|at: int| 0 <= at < right_before.len() implies before(
                            #[trigger] right_before[at],
                            moved,
                        ) by {
                            if at < end {
                                assert(before(right_before[at], right_before[end]));
                            }
                        }
                    }
                    assert forall|at: int| 0 <= at < left@.len() implies before(
                        #[trigger] left@[at],
                        moved,
                    ) by {
                        assert(left_before[at] == left@[at]);
                    }
                } else {
                    assert(right_before == right@.push(moved));
                    assert(right_before[right_before.len() - 1] == moved);
                    if left_before.len() > 0 {
                        let end = left_before.len() - 1;
                        assert(left_before[end].task.id != moved.task.id);
                        assert forall|at: int| 0 <= at < left_before.len() implies before(
                            #[trigger] left_before[at],
                            moved,
                        ) by {
                            if at < end {
                                assert(before(left_before[at], left_before[end]));
                            }
                        }
                    }
                    assert forall|at: int| 0 <= at < right@.len() implies before(
                        #[trigger] right@[at],
                        moved,
                    ) by {
                        assert(right_before[at] == right@[at]);
                    }
                }
                assert forall|task: FleetTask| #[trigger]
                    in_either(all_left, all_right, task) <==> (in_either(left@, right@, task)
                        || oldest@.contains(task)) by {
                    assert(in_either(all_left, all_right, task) <==> (in_either(
                        left_before,
                        right_before,
                        task,
                    ) || done.contains(task)));
                    pushed_members(done, moved, task);
                    if from_left {
                        pushed_members(left@, moved, task);
                    } else {
                        pushed_members(right@, moved, task);
                    }
                }
            }
        }
    }
    let ghost reversed = oldest@;
    proof {
        assert forall|task: FleetTask| #[trigger]
            in_either(all_left, all_right, task) <==> reversed.contains(task) by {
            assert(!in_either(left@, right@, task));
        }
    }
    let mut tasks: Vec<FleetTask> = Vec::new();
    while oldest.len() > 0
        invariant
            forall|newer: int, older: int|
                0 <= older < newer < oldest@.len() ==> before(
                    #[trigger] oldest@[newer],
                    #[trigger] oldest@[older],
                ),
            forall|task: FleetTask| #[trigger]
                in_either(all_left, all_right, task) <==> reversed.contains(task),
            newest_first(tasks@),
            forall|at: int, left: int|
                0 <= at < tasks@.len() && 0 <= left < oldest@.len() ==> before(
                    #[trigger] tasks@[at],
                    #[trigger] oldest@[left],
                ),
            forall|task: FleetTask| #[trigger]
                reversed.contains(task) <==> tasks@.contains(task) || oldest@.contains(task),
        decreases oldest.len(),
    {
        let ghost shown = tasks@;
        let ghost hidden = oldest@;
        if let Some(task) = oldest.pop() {
            let ghost moved = task;
            tasks.push(task);
            proof {
                assert(hidden == oldest@.push(moved));
                assert(hidden[hidden.len() - 1] == moved);
                assert forall|task: FleetTask| #[trigger] reversed.contains(task) <==>
                    tasks@.contains(task) || oldest@.contains(task) by {
                    pushed_members(shown, moved, task);
                    pushed_members(oldest@, moved, task);
                }
            }
        }
    }
    proof {
        assert(oldest@.len() == 0);
        assert forall|task: FleetTask| #[trigger] tasks@.contains(task) <==> all_left.contains(task)
            || all_right.contains(task) by {
            assert(reversed.contains(task) <==> tasks@.contains(task));
            assert(in_either(all_left, all_right, task) <==> reversed.contains(task));
        }
    }
    tasks
}

proof fn pushed_members<T>(list: Seq<T>, last: T, item: T)
    ensures
        list.push(last).contains(item) <==> list.contains(item) || item == last,
{
    if list.contains(item) {
        let at = choose|at: int| 0 <= at < list.len() && list[at] == item;
        assert(list.push(last)[at] == item);
    }
    assert(list.push(last)[list.len() as int] == last);
}

/// Tasks without a common identity, newest first.
fn sort(tasks: Vec<FleetTask>) -> (sorted: Vec<FleetTask>)
    requires
        distinct(tasks@),
    ensures
        newest_first(sorted@),
        forall|task: FleetTask| #[trigger] sorted@.contains(task) <==> tasks@.contains(task),
    decreases tasks.len(),
{
    if tasks.len() <= 1 {
        return tasks;
    }
    let ghost all = tasks@;
    let middle: usize = tasks.len() / 2;
    let mut left = tasks;
    let right = left.split_off(middle);
    proof {
        assert(left@ == all.take(middle as int));
        assert(right@ == all.skip(middle as int));
        assert forall|task: FleetTask| #[trigger] all.contains(task) <==> left@.contains(task)
            || right@.contains(task) by {
            if all.contains(task) {
                let at = choose|at: int| 0 <= at < all.len() && all[at] == task;
                if at < middle {
                    assert(left@[at] == task);
                } else {
                    assert(right@[at - middle] == task);
                }
            }
        }
        assert forall|at: int, other: int|
            0 <= at < other < right@.len() implies (#[trigger] right@[at]).task.id != (
        #[trigger] right@[other]).task.id by {
            assert(all[at + middle] == right@[at]);
            assert(all[other + middle] == right@[other]);
        }
    }
    let ghost left_given = left@;
    let ghost right_given = right@;
    let left = sort(left);
    let right = sort(right);
    proof {
        assert forall|at: int, other: int|
            0 <= at < left@.len() && 0 <= other < right@.len() implies (
        #[trigger] left@[at]).task.id != (#[trigger] right@[other]).task.id by {
            assert(left@.contains(left@[at]));
            assert(right@.contains(right@[other]));
            let from = choose|from: int|
                0 <= from < left_given.len() && left_given[from] == left@[at];
            let to = choose|to: int|
                0 <= to < right_given.len() && right_given[to] == right@[other];
            assert(all[from] == left@[at]);
            assert(all[to + middle] == right@[other]);
        }
    }
    merge(left, right)
}

/// Whether kept records, found by their identities, are the preferred ones of some records.
pub open spec fn keeps(
    records: Seq<Candidate>,
    kept: Seq<Candidate>,
    places: Map<u128, usize>,
) -> bool {
    &&& forall|id: TaskId| #[trigger]
        preferred(records, id) is Some <==> places.contains_key(id.0)
    &&& forall|id: TaskId| #[trigger]
        places.contains_key(id.0) ==> places[id.0] < kept.len() && preferred(records, id) == Some(
            kept[places[id.0] as int],
        ) && kept[places[id.0] as int].entry.task.id == id
    &&& forall|at: int|
        0 <= at < kept.len() ==> places.contains_key((#[trigger] kept[at]).entry.task.id.0)
            && places[kept[at].entry.task.id.0] == at
}

/// Keep a record that stands before all others.
fn keep(
    kept: &mut Vec<Candidate>,
    places: &mut HashMap<u128, usize>,
    next: Candidate,
    Ghost(records): Ghost<Seq<Candidate>>,
)
    requires
        keeps(records, old(kept)@, old(places)@),
    ensures
        keeps(seq![next] + records, final(kept)@, final(places)@),
{
    let ghost more = seq![next] + records;
    let ghost given = next;
    let ghost kept_before = kept@;
    let ghost places_before = places@;
    proof {
        assert(more.drop_first() =~= records);
        assert(more[0] == given);
        assert(places@.contains_key(given.entry.task.id.0) || !places@.contains_key(
            given.entry.task.id.0,
        ));
    }
    let key: u128 = next.entry.task.id.0;
    match places.get(&key) {
        Some(place) => {
            let place: usize = *place;
            proof {
                assert(TaskId(key) == given.entry.task.id);
                assert(places_before.contains_key(TaskId(key).0));
            }
            if next.execution || !kept[place].execution {
                kept.set(place, next);
            }
        },
        None => {
            places.insert(key, kept.len());
            kept.push(next);
        },
    }
    proof {
        assert(TaskId(key) == given.entry.task.id);
        assert forall|id: TaskId| #[trigger] preferred(more, id) is Some <==> places@.contains_key(
            id.0,
        ) by {
            assert(preferred(records, id) is Some <==> places_before.contains_key(id.0));
            if id.0 == key {
                assert(id == given.entry.task.id);
            }
        }
        assert forall|id: TaskId| #[trigger] places@.contains_key(id.0) implies places@[id.0]
            < kept@.len() && preferred(more, id) == Some(kept@[places@[id.0] as int])
            && kept@[places@[id.0] as int].entry.task.id == id by {
            if id.0 == key {
                assert(id == given.entry.task.id);
                assert(preferred(records, id) is Some <==> places_before.contains_key(id.0));
            } else {
                assert(id != given.entry.task.id);
                assert(places_before.contains_key(id.0));
                let place = places_before[id.0] as int;
                if places_before.contains_key(key) {
                    assert(kept_before[places_before[key] as int].entry.task.id == TaskId(key));
                    assert(place != places_before[key]);
                }
                assert(kept@[place] == kept_before[place]);
            }
        }
        assert forall|at: int| 0 <= at < kept@.len() implies places@.contains_key(
            (#[trigger] kept@[at]).entry.task.id.0,
        ) && places@[kept@[at].entry.task.id.0] == at by {
            if at < kept_before.len() {
                assert(places_before.contains_key(kept_before[at].entry.task.id.0));
                assert(places_before[kept_before[at].entry.task.id.0] == at);
            }
        }
    }
}

/// Merge the machines' records into one entry per task, newest first.
///
/// A remote task has an origin record and an execution record. The execution record wins
/// because it owns the process state.
pub fn merge_records(records: Vec<(MachineId, Vec<TaskSummary>)>) -> (tasks: Vec<FleetTask>)
    ensures
        merged(candidates(records@), tasks@),
{
    let ghost all = records@;
    let mut records = records;
    let mut kept: Vec<Candidate> = Vec::new();
    let mut places: HashMap<u128, usize> = HashMap::new();
    let ghost mut done: Seq<Candidate> = Seq::empty();
    proof {
        assert(all.skip(all.len() as int) =~= Seq::<(MachineId, Vec<TaskSummary>)>::empty());
    }
    while records.len() > 0
        invariant
            records@.len() <= all.len(),
            records@ == all.take(records@.len() as int),
            done == candidates(all.skip(records@.len() as int)),
            keeps(done, kept@, places@),
        decreases records.len(),
    {
        let ghost count = records@.len();
        if let Some((answered_by, tasks)) = records.pop() {
            let ghost given = tasks@;
            let ghost rest = done;
            let mut tasks = tasks;
            proof {
                assert(all[count - 1] == (answered_by, tasks));
                assert(records@ =~= all.take(count - 1));
                assert(of_machine(answered_by, given.skip(given.len() as int)) + rest =~= rest);
            }
            while tasks.len() > 0
                invariant
                    tasks@.len() <= given.len(),
                    tasks@ == given.take(tasks@.len() as int),
                    done == of_machine(answered_by, given.skip(tasks@.len() as int)) + rest,
                    keeps(done, kept@, places@),
                decreases tasks.len(),
            {
                let ghost left = tasks@.len();
                if let Some(task) = tasks.pop() {
                    let ghost taken = task;
                    proof {
                        assert(given[left - 1] == taken);
                        assert(tasks@ =~= given.take(left - 1));
                    }
                    let machine = match task.execution_machine {
                        Some(machine) => machine,
                        None => answered_by,
                    };
                    let execution = machine == answered_by;
                    let next = Candidate { execution, entry: FleetTask { machine, task } };
                    let ghost added = next;
                    keep(&mut kept, &mut places, next, Ghost(done));
                    proof {
                        assert(added == candidate(answered_by, taken));
                        assert(seq![added] + done =~= of_machine(
                            answered_by,
                            given.skip(left - 1),
                        ) + rest);
                        done = seq![added] + done;
                    }
                }
            }
            proof {
                assert(given.skip(0) =~= given);
                let later = all.skip(count - 1);
                assert(later[0] == all[count - 1]);
                assert(later.drop_first() =~= all.skip(count as int));
                assert(done == candidates(later));
            }
        }
    }
    proof {
        assert(all.skip(0) =~= all);
        assert(done == candidates(all));
    }
    let ghost chosen = kept@;
    let ghost index = places@;
    let mut entries: Vec<FleetTask> = Vec::new();
    while kept.len() > 0
        invariant
            kept@.len() <= chosen.len(),
            kept@ == chosen.take(kept@.len() as int),
            entries@.len() == chosen.len() - kept@.len(),
            forall|at: int|
                0 <= at < entries@.len() ==> #[trigger] entries@[at] == chosen[chosen.len() - 1
                    - at].entry,
        decreases kept.len(),
    {
        let ghost count = kept@.len();
        if let Some(candidate) = kept.pop() {
            proof {
                assert(chosen[count - 1] == candidate);
                assert(kept@ =~= chosen.take(count - 1));
            }
            entries.push(candidate.entry);
        }
    }
    let ghost unsorted = entries@;
    proof {
        assert forall|left: int, right: int|
            0 <= left < right < unsorted.len() implies (#[trigger] unsorted[left]).task.id != (
        #[trigger] unsorted[right]).task.id by {
            let from = chosen.len() - 1 - left;
            let to = chosen.len() - 1 - right;
            assert(index[chosen[from].entry.task.id.0] == from);
            assert(index[chosen[to].entry.task.id.0] == to);
        }
    }
    let tasks = sort(entries);
    proof {
        assert forall|at: int| 0 <= at < tasks@.len() implies {
            &&& preferred(done, (#[trigger] tasks@[at]).task.id) matches Some(kept)
            &&& kept.entry == tasks@[at]
        } by {
            assert(tasks@.contains(tasks@[at]));
            assert(unsorted.contains(tasks@[at]));
            let from = choose|from: int|
                0 <= from < unsorted.len() && unsorted[from] == tasks@[at];
            let place = chosen.len() - 1 - from;
            let id = chosen[place].entry.task.id;
            assert(index.contains_key(id.0));
            assert(index[id.0] == place);
        }
        assert forall|id: TaskId| #[trigger] preferred(done, id) is Some implies exists|at: int|
            0 <= at < tasks@.len() && (#[trigger] tasks@[at]).task.id == id by {
            assert(index.contains_key(id.0));
            let place = index[id.0] as int;
            let entry = chosen[place].entry;
            assert(unsorted[chosen.len() - 1 - place] == entry);
            assert(unsorted.contains(entry));
            assert(tasks@.contains(entry));
            let at = choose|at: int| 0 <= at < tasks@.len() && tasks@[at] == entry;
            assert(tasks@[at].task.id == id);
        }
    }
    tasks
}

/// The record that stands for a task is one of its records, and it is an execution record
/// whenever any machine gave one.
pub proof fn execution_records_win(records: Seq<Candidate>, id: TaskId)
    ensures
        preferred(records, id) is Some <==> exists|at: int|
            0 <= at < records.len() && (#[trigger] records[at]).entry.task.id == id,
        preferred(records, id) matches Some(kept) ==> kept.entry.task.id == id && records.contains(
            kept,
        ),
        preferred(records, id) matches Some(kept) && !kept.execution ==> forall|at: int|
            0 <= at < records.len() && (#[trigger] records[at]).entry.task.id == id
                ==> !records[at].execution,
    decreases records.len(),
{
    if records.len() > 0 {
        let rest = records.drop_first();
        execution_records_win(rest, id);
        assert(forall|at: int| 0 <= at < rest.len() ==> #[trigger] rest[at] == records[at + 1]);
        assert forall|at: int|
            0 <= at < records.len() && (#[trigger] records[at]).entry.task.id == id && (preferred(
                records,
                id,
            ) matches Some(kept) && !kept.execution) implies !records[at].execution by {
            if at > 0 {
                assert(rest[at - 1] == records[at]);
            }
        }
        if preferred(rest, id) is Some {
            let kept = preferred(rest, id)->0;
            let at = choose|at: int| 0 <= at < rest.len() && rest[at] == kept;
            assert(records[at + 1] == kept);
            assert(records[at + 1].entry.task.id == id);
        }
        if exists|at: int| 0 <= at < records.len() && (#[trigger] records[at]).entry.task.id == id {
            let at = choose|at: int|
                0 <= at < records.len() && (#[trigger] records[at]).entry.task.id == id;
            if at > 0 {
                assert(rest[at - 1] == records[at]);
            }
        }
        assert(records.contains(records[0]));
    }
}

/// What a peer's answer to a task read is worth.
///
/// `answer` is nothing when the peer was not read.
pub fn peer_tasks(machine: MachineId, answer: Option<Result<ClusterTaskList, String>>) -> (tasks:
    Result<Vec<TaskSummary>, String>)
    ensures
        worth(machine, answer, tasks),
{
    match answer {
        None => Err("machine is offline".to_owned()),
        Some(Err(error)) => Err(error),
        Some(Ok(body)) => {
            if body.machine == machine {
                Ok(body.tasks)
            } else {
                Err("peer answered for another machine".to_owned())
            }
        },
    }
}

/// Whether a known machine is read: never this one, and never one that is known to be down,
/// so that it does not hold every refresh for the full read timeout.
pub fn reads_peer(local: MachineId, peer: &PeerView) -> (reads: bool)
    ensures
        reads == (peer.machine != local && peer.reachability == Reachability::Online),
{
    let online = match peer.reachability {
        Reachability::Online => true,
        Reachability::Offline => false,
    };
    peer.machine != local && online
}

/// Path of a peer's task list.
pub fn peer_list_path(machine: MachineId, filter: &TaskFilter) -> (path: String)
    ensures
        path@ == "/v1/cluster/task-list?"@ + ((if filter.statuses@.len() > 0 {
            "status="@ + status_names(filter.statuses@) + "&"@
        } else {
            ""@
        }) + (match filter.thread {
            Some(thread) => "thread="@ + hyphenated(thread.0) + "&"@,
            None => ""@,
        })) + read_query_text(machine),
{
    let prefix = filter.query_prefix();
    let query = read_query(machine);
    join3("/v1/cluster/task-list?", prefix.as_str(), query.as_str())
}

/// A peer with the result of its read.
#[derive(Debug)]
pub struct PeerTasks {
    pub peer: PeerView,
    pub tasks: Result<Vec<TaskSummary>, String>,
}

/// A known machine and its answer, nothing where none was asked for or came.
pub type PeerReply = (PeerView, Option<Result<ClusterTaskList, String>>);

/// What the answers of known machines are worth, in the directory's order. This machine is no
/// peer of itself.
pub fn read_peers(local: MachineId, replies: Vec<PeerReply>) -> (read: Vec<PeerTasks>)
    ensures
        judged(local, replies@, read@),
{
    let ghost all = replies@;
    let mut replies = replies;
    let mut read: Vec<PeerTasks> = Vec::new();
    let ghost mut at: int = 0;
    proof {
        assert(all.skip(0) =~= all);
    }
    while replies.len() > 0
        invariant
            0 <= at <= all.len(),
            replies@ == all.skip(at),
            judged(local, all.take(at), read@),
        decreases replies.len(),
    {
        let ghost before = read@;
        let (peer, answer) = replies.remove(0);
        proof {
            assert((peer, answer) == all[at]);
            assert(replies@ =~= all.skip(at + 1));
            assert(all.take(at + 1).drop_last() =~= all.take(at));
            assert(all.take(at + 1).last() == all[at]);
        }
        if peer.machine != local {
            let tasks = peer_tasks(peer.machine, answer);
            read.push(PeerTasks { peer, tasks });
            proof {
                assert(read@.drop_last() =~= before);
            }
        }
        proof {
            at = at + 1;
        }
    }
    proof {
        assert(all.take(at) =~= all);
    }
    read
}

/// Whether read results are what the answers of known machines are worth, in order.
pub open spec fn judged(local: MachineId, replies: Seq<PeerReply>, read: Seq<PeerTasks>) -> bool
    decreases replies.len(),
{
    if replies.len() == 0 {
        read.len() == 0
    } else if replies.last().0.machine == local {
        judged(local, replies.drop_last(), read)
    } else {
        &&& read.len() > 0
        &&& read.last().peer == replies.last().0
        &&& worth(replies.last().0.machine, replies.last().1, read.last().tasks)
        &&& judged(local, replies.drop_last(), read.drop_last())
    }
}

/// Whether tasks are what a machine's answer is worth.
pub open spec fn worth(
    machine: MachineId,
    answer: Option<Result<ClusterTaskList, String>>,
    tasks: Result<Vec<TaskSummary>, String>,
) -> bool {
    match answer {
        None => tasks matches Err(message) && message@ == "machine is offline"@,
        Some(Err(error)) => tasks == Err::<Vec<TaskSummary>, String>(error),
        Some(Ok(body)) => if body.machine == machine {
            tasks == Ok::<Vec<TaskSummary>, String>(body.tasks)
        } else {
            tasks matches Err(message) && message@ == "peer answered for another machine"@
        },
    }
}

/// The records of the peers that answered, in order.
pub open spec fn online_records(read: Seq<PeerTasks>) -> Seq<(MachineId, Vec<TaskSummary>)>
    decreases read.len(),
{
    if read.len() == 0 {
        Seq::empty()
    } else {
        match read.last().tasks {
            Ok(tasks) => online_records(read.drop_last()).push((read.last().peer.machine, tasks)),
            Err(_) => online_records(read.drop_last()),
        }
    }
}

/// Whether a machine of the list shows a peer and how its read went.
pub open spec fn shows_peer(machine: FleetMachine, read: PeerTasks) -> bool {
    &&& machine.machine == read.peer.machine
    &&& machine.name == read.peer.name
    &&& machine.version == read.peer.version
    &&& machine.location == (MachineLocation::Peer {
        address: if read.peer.addresses@.len() > 0 {
            Some(read.peer.addresses@[0])
        } else {
            None
        },
    })
    &&& machine.read == (match read.tasks {
        Ok(_) => MachineRead::Online,
        Err(message) => MachineRead::Unavailable { message },
    })
}

/// The task list of the whole fleet: this machine first, then every known peer.
pub fn fleet_tasks(
    local: MachineId,
    name: String,
    version: String,
    local_tasks: Vec<TaskSummary>,
    read: Vec<PeerTasks>,
) -> (list: FleetTaskList)
    ensures
        list.api_version == API_VERSION,
        list.machines@.len() == read@.len() + 1,
        list.machines@[0] == (FleetMachine {
            machine: local,
            name,
            version,
            location: MachineLocation::Local,
            read: MachineRead::Online,
        }),
        forall|at: int|
            0 <= at < read@.len() ==> shows_peer(#[trigger] list.machines@[at + 1], read@[at]),
        merged(candidates(seq![(local, local_tasks)] + online_records(read@)), list.tasks@),
{
    let ghost all = read@;
    let mut read = read;
    let mut machines: Vec<FleetMachine> = vec![
        FleetMachine {
            machine: local,
            name,
            version,
            location: MachineLocation::Local,
            read: MachineRead::Online,
        },
    ];
    let mut records: Vec<(MachineId, Vec<TaskSummary>)> = vec![(local, local_tasks)];
    let ghost first = machines@[0];
    let ghost mut at: int = 0;
    proof {
        assert(all.skip(0) =~= all);
        assert(records@ =~= seq![(local, local_tasks)] + online_records(all.take(0)));
    }
    while read.len() > 0
        invariant
            0 <= at <= all.len(),
            read@ == all.skip(at),
            machines@.len() == at + 1,
            machines@[0] == first,
            forall|done: int|
                0 <= done < at ==> shows_peer(#[trigger] machines@[done + 1], all[done]),
            records@ == seq![(local, local_tasks)] + online_records(all.take(at)),
        decreases read.len(),
    {
        let ghost before = records@;
        let ghost shown = machines@;
        let next = read.remove(0);
        proof {
            assert(next == all[at]);
            assert(read@ =~= all.skip(at + 1));
            assert(all.take(at + 1).drop_last() =~= all.take(at));
            assert(all.take(at + 1).last() == all[at]);
        }
        let address = if next.peer.addresses.len() > 0 {
            Some(next.peer.addresses[0].clone())
        } else {
            None
        };
        let machine = next.peer.machine;
        let result = match next.tasks {
            Ok(tasks) => {
                records.push((machine, tasks));
                MachineRead::Online
            },
            Err(message) => MachineRead::Unavailable { message },
        };
        machines.push(
            FleetMachine {
                machine,
                name: next.peer.name,
                version: next.peer.version,
                location: MachineLocation::Peer { address },
                read: result,
            },
        );
        proof {
            assert forall|done: int| 0 <= done < at + 1 implies shows_peer(
                #[trigger] machines@[done + 1],
                all[done],
            ) by {
                if done < at {
                    assert(machines@[done + 1] == shown[done + 1]);
                }
            }
            assert(records@ =~= seq![(local, local_tasks)] + online_records(all.take(at + 1)));
            at = at + 1;
        }
    }
    proof {
        assert(all.take(at) =~= all);
    }
    FleetTaskList { api_version: API_VERSION, machines, tasks: merge_records(records) }
}

/// What stands before a peer's read of this machine's tasks.
pub open spec fn list_gate(local: MachineId, query: ClusterTaskListQuery) -> Result<(), ErrorView> {
    if query.destination_machine != local {
        Err(
            ErrorView::MachineIdentityMismatch {
                expected: query.destination_machine,
                found: Some(local),
            },
        )
    } else {
        api_version_checked(query.api_version)
    }
}

/// Admit a peer's read of this machine's tasks, and read its filter.
pub fn cluster_task_list(local: MachineId, query: ClusterTaskListQuery) -> (filter: Result<
    TaskFilter,
    AppError,
>)
    ensures
        match list_gate(local, query) {
            Err(error) => filter matches Err(found) && found@ == error,
            Ok(_) => match parsed_filter(
                optional_text(query.status),
                optional_text(query.thread),
            ) {
                Ok((statuses, thread)) => filter matches Ok(filter) && filter.statuses@ == statuses
                    && filter.thread == thread,
                Err(error) => filter matches Err(found) && found@ == error,
            },
        },
{
    match check_destination(local, query.destination_machine) {
        Err(error) => {
            return Err(error);
        },
        Ok(_) => {},
    }
    match check_api_version(query.api_version) {
        Err(error) => {
            return Err(error);
        },
        Ok(_) => {},
    }
    TaskFilter::parse(ListQuery { status: query.status, thread: query.thread })
}

/// Answer a peer's read with this machine's own tasks.
pub fn cluster_tasks(local: MachineId, tasks: Vec<TaskSummary>) -> (list: ClusterTaskList)
    ensures
        list == (ClusterTaskList { api_version: API_VERSION, machine: local, tasks }),
{
    ClusterTaskList { api_version: API_VERSION, machine: local, tasks }
}

} // verus!
