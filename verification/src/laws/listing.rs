//! Listing the fleet's tasks: one entry for each task that any answering machine knows.

use vstd::prelude::*;

use crate::api::filter::TaskFilter;
use crate::api::views::TaskSummary;
use crate::error::AppError;
use crate::fleet::API_VERSION;
use crate::fleet_api::PeerView;
use crate::fleet_tasks::{
    candidate, candidates, cluster_task_list, cluster_tasks, fleet_tasks, judged, merge_records,
    of_machine, online_records, peer_tasks, preferred, read_peers, reads_peer, Candidate,
    ClusterTaskList, ClusterTaskListQuery, FleetTask, FleetTaskList, MachineLocation, MachineRead,
    PeerReply, PeerTasks,
};
use crate::ids::{MachineId, TaskId};

verus! {

/// Whether an entry shows a task as a machine told it: on the machine that executes it, which is
/// the teller where the task names none.
pub open spec fn shows(entry: FleetTask, told_by: MachineId, task: TaskSummary) -> bool {
    &&& entry.task == task
    &&& task.execution_machine matches Some(machine) ==> entry.machine == machine
    &&& task.execution_machine is None ==> entry.machine == told_by
}

/// Whether a machine tells of a task that it executes itself.
pub open spec fn executed_by(told_by: MachineId, task: TaskSummary) -> bool {
    task.execution_machine is None || task.execution_machine == Some(told_by)
}

/// Where a candidate comes from: a machine's record, behind every record before it.
proof fn source_of(records: Seq<(MachineId, Vec<TaskSummary>)>, at: int) -> (found: (int, int))
    requires
        0 <= at < candidates(records).len(),
    ensures
        0 <= found.0 < records.len(),
        0 <= found.1 < records[found.0].1@.len(),
        candidates(records)[at] == candidate(
            records[found.0].0,
            records[found.0].1@[found.1],
        ),
        forall|machine: int, task: int|
            (0 <= machine < found.0 || (machine == found.0 && task < found.1)) && 0 <= task
                < records[machine].1@.len() ==> exists|earlier: int|
                0 <= earlier < at && candidates(records)[earlier] == candidate(
                    records[machine].0,
                    #[trigger] records[machine].1@[task],
                ),
    decreases records.len(),
{
    let own = of_machine(records[0].0, records[0].1@);
    let rest = records.drop_first();
    assert(candidates(records) == own + candidates(rest));
    assert forall|task: int| 0 <= task < own.len() implies candidates(records)[task] == candidate(
        records[0].0,
        #[trigger] records[0].1@[task],
    ) by {
        assert(own[task] == candidate(records[0].0, records[0].1@[task]));
    }
    if at < own.len() {
        (0, at)
    } else {
        let later = source_of(rest, at - own.len());
        let found = (later.0 + 1, later.1);
        assert(rest[later.0] == records[found.0]);
        assert forall|machine: int, task: int|
            (0 <= machine < found.0 || (machine == found.0 && task < found.1)) && 0 <= task
                < records[machine].1@.len() implies exists|earlier: int|
            0 <= earlier < at && candidates(records)[earlier] == candidate(
                records[machine].0,
                #[trigger] records[machine].1@[task],
            ) by {
            if machine == 0 {
                assert(candidates(records)[task] == candidate(
                    records[0].0,
                    records[0].1@[task],
                ));
            } else {
                assert(rest[machine - 1] == records[machine]);
                let told = rest[machine - 1].1@[task];
                let earlier = choose|earlier: int|
                    0 <= earlier < at - own.len() && candidates(rest)[earlier] == candidate(
                        rest[machine - 1].0,
                        told,
                    );
                assert(candidates(records)[earlier + own.len()] == candidates(rest)[earlier]);
            }
        }
        found
    }
}

/// Every record of every machine is a candidate.
proof fn told_tasks_are_candidates(
    records: Seq<(MachineId, Vec<TaskSummary>)>,
    machine: int,
    task: int,
)
    requires
        0 <= machine < records.len(),
        0 <= task < records[machine].1@.len(),
    ensures
        candidates(records).contains(
            candidate(records[machine].0, records[machine].1@[task]),
        ),
    decreases records.len(),
{
    let own = of_machine(records[0].0, records[0].1@);
    let rest = records.drop_first();
    assert(candidates(records) == own + candidates(rest));
    if machine == 0 {
        assert(own[task] == candidate(records[0].0, records[0].1@[task]));
        assert(candidates(records)[task] == own[task]);
    } else {
        assert(rest[machine - 1] == records[machine]);
        told_tasks_are_candidates(rest, machine - 1, task);
        let told = candidate(records[machine].0, records[machine].1@[task]);
        let at = choose|at: int| 0 <= at < candidates(rest).len() && candidates(rest)[at] == told;
        assert(candidates(records)[at + own.len()] == told);
    }
}

/// The record that stands for a task: the first of the executing machine, or else the first.
proof fn preferred_records_come_first(records: Seq<Candidate>, id: TaskId) -> (found: int)
    ensures
        preferred(records, id) is None <==> forall|at: int|
            0 <= at < records.len() ==> (#[trigger] records[at]).entry.task.id != id,
        preferred(records, id) matches Some(kept) ==> {
            &&& 0 <= found < records.len()
            &&& records[found] == kept
            &&& kept.entry.task.id == id
            &&& forall|at: int|
                0 <= at < found ==> (#[trigger] records[at]).entry.task.id != id
                    || !records[at].execution
            &&& !kept.execution ==> forall|at: int|
                0 <= at < found ==> (#[trigger] records[at]).entry.task.id != id
            &&& !kept.execution ==> forall|at: int|
                0 <= at < records.len() ==> (#[trigger] records[at]).entry.task.id != id
                    || !records[at].execution
        },
    decreases records.len(),
{
    if records.len() == 0 {
        0
    } else {
        let rest = records.drop_first();
        let later = preferred_records_come_first(rest, id);
        assert(forall|at: int| 1 <= at < records.len() ==> #[trigger] records[at] == rest[at - 1]);
        if preferred(records, id) is Some {
            assert(records[0].entry.task.id == id || preferred(rest, id) is Some);
        } else {
            assert(records[0].entry.task.id != id);
        }
        if preferred(records, id) == preferred(rest, id) && preferred(rest, id) is Some && !(
        records[0].entry.task.id == id && records[0].execution) && !(records[0].entry.task.id == id
            && !preferred(rest, id)->0.execution) {
            later + 1
        } else {
            0
        }
    }
}

/// The peers that answered are the ones whose reads succeeded, in their order.
proof fn online_peers_keep_their_order(read: Seq<PeerTasks>)
    ensures
        forall|at: int|
            0 <= at < online_records(read).len() ==> exists|peer: int|
                {
                    &&& 0 <= peer < read.len()
                    &&& (#[trigger] read[peer]).peer.machine == (#[trigger] online_records(
                        read,
                    )[at]).0
                    &&& read[peer].tasks == Ok::<Vec<TaskSummary>, String>(
                        online_records(read)[at].1,
                    )
                },
        forall|peer: int|
            0 <= peer < read.len() && (#[trigger] read[peer]).tasks is Ok ==> exists|at: int|
                {
                    &&& 0 <= at < online_records(read).len()
                    &&& (#[trigger] online_records(read)[at]).0 == read[peer].peer.machine
                    &&& Ok::<Vec<TaskSummary>, String>(online_records(read)[at].1)
                        == read[peer].tasks
                },
    decreases read.len(),
{
    if read.len() > 0 {
        let rest = read.drop_last();
        online_peers_keep_their_order(rest);
        assert(forall|peer: int| 0 <= peer < rest.len() ==> #[trigger] rest[peer] == read[peer]);
        assert forall|at: int| 0 <= at < online_records(read).len() implies exists|peer: int|
            {
                &&& 0 <= peer < read.len()
                &&& (#[trigger] read[peer]).peer.machine == (#[trigger] online_records(read)[at]).0
                &&& read[peer].tasks == Ok::<Vec<TaskSummary>, String>(online_records(read)[at].1)
            } by {
            if at < online_records(rest).len() {
                assert(online_records(read)[at] == online_records(rest)[at]);
                let peer = choose|peer: int|
                    {
                        &&& 0 <= peer < rest.len()
                        &&& (#[trigger] rest[peer]).peer.machine == online_records(rest)[at].0
                        &&& rest[peer].tasks == Ok::<Vec<TaskSummary>, String>(
                            online_records(rest)[at].1,
                        )
                    };
                assert(read[peer] == rest[peer]);
            } else {
                assert(read[read.len() - 1] == read.last());
            }
        }
        assert forall|peer: int|
            0 <= peer < read.len() && (#[trigger] read[peer]).tasks is Ok implies exists|at: int|
            {
                &&& 0 <= at < online_records(read).len()
                &&& (#[trigger] online_records(read)[at]).0 == read[peer].peer.machine
                &&& Ok::<Vec<TaskSummary>, String>(online_records(read)[at].1) == read[peer].tasks
            } by {
            if peer < rest.len() {
                assert(rest[peer] == read[peer]);
                let at = choose|at: int|
                    {
                        &&& 0 <= at < online_records(rest).len()
                        &&& (#[trigger] online_records(rest)[at]).0 == rest[peer].peer.machine
                        &&& Ok::<Vec<TaskSummary>, String>(online_records(rest)[at].1)
                            == rest[peer].tasks
                    };
                assert(online_records(read)[at] == online_records(rest)[at]);
            } else {
                let at = online_records(read).len() - 1;
                assert(online_records(read)[at].0 == read[peer].peer.machine);
            }
        }
    }
}

/// Whether an entry shows a record that stands for its task.
pub open spec fn told_in(records: Seq<(MachineId, Vec<TaskSummary>)>, entry: FleetTask) -> bool {
    exists|machine: int, task: int|
        {
            &&& 0 <= machine < records.len()
            &&& 0 <= task < records[machine].1@.len()
            &&& shows(entry, records[machine].0, #[trigger] records[machine].1@[task])
            &&& stands_for(records, machine, task)
        }
}

/// Whether a task has an entry.
pub open spec fn listed(tasks: Seq<FleetTask>, id: TaskId) -> bool {
    exists|at: int| 0 <= at < tasks.len() && (#[trigger] tasks[at]).task.id == id
}

/// Every task of every record has exactly one entry, and every entry shows a record of its task.
/// Where any machine told of a task as its own, the entry is the first such record; otherwise it
/// is the first record at all. The newest tasks come first, and of two that were created at one
/// time the greater identity.
pub proof fn merged_records_show_each_task_once(
    records: Vec<(MachineId, Vec<TaskSummary>)>,
    tasks: Vec<FleetTask>,
)
    requires
        call_ensures(merge_records, (records,), tasks),
    ensures
        forall|machine: int, task: int|
            0 <= machine < records@.len() && 0 <= task < records@[machine].1@.len() ==> listed(
                tasks@,
                (#[trigger] records@[machine].1@[task]).id,
            ),
        forall|at: int| 0 <= at < tasks@.len() ==> told_in(records@, #[trigger] tasks@[at]),
        in_order_of_creation(tasks@),
{
    assert forall|machine: int, task: int|
        0 <= machine < records@.len() && 0 <= task < records@[machine].1@.len() implies listed(
        tasks@,
        (#[trigger] records@[machine].1@[task]).id,
    ) by {
        listed_once_told(records@, tasks@, machine, task);
    }
    assert forall|at: int| 0 <= at < tasks@.len() implies told_in(
        records@,
        #[trigger] tasks@[at],
    ) by {
        entries_stand_for_their_record(records@, tasks@[at]);
    }
}

/// Whether tasks are listed from the newest, and at one time from the greatest identity.
pub open spec fn in_order_of_creation(tasks: Seq<FleetTask>) -> bool {
    forall|left: int, right: int|
        0 <= left < right < tasks.len() ==> {
            ||| (#[trigger] tasks[left]).task.created_at.total() > (
            #[trigger] tasks[right]).task.created_at.total()
            ||| tasks[left].task.created_at.total() == tasks[right].task.created_at.total()
                && tasks[left].task.id.0 > tasks[right].task.id.0
        }
}

/// Whether a record stands for its task: no earlier record of the task is from the machine that
/// executes it, and if this one is not either, then none is, and none is earlier.
pub open spec fn stands_for(
    records: Seq<(MachineId, Vec<TaskSummary>)>,
    machine: int,
    task: int,
) -> bool {
    let told = records[machine].1@[task];
    let own = executed_by(records[machine].0, told);
    &&& forall|other: int, place: int|
        0 <= other < records.len() && 0 <= place < records[other].1@.len() && (
        #[trigger] records[other].1@[place]).id == told.id && (other < machine || (other == machine
            && place < task)) ==> own && !executed_by(records[other].0, records[other].1@[place])
    &&& !own ==> forall|other: int, place: int|
        0 <= other < records.len() && 0 <= place < records[other].1@.len() && (
        #[trigger] records[other].1@[place]).id == told.id ==> !executed_by(
            records[other].0,
            records[other].1@[place],
        )
}

/// An entry that is kept for its task shows a record that stands for it.
proof fn entries_stand_for_their_record(
    records: Seq<(MachineId, Vec<TaskSummary>)>,
    entry: FleetTask,
)
    requires
        preferred(candidates(records), entry.task.id) matches Some(kept) && kept.entry == entry,
    ensures
        told_in(records, entry),
{
    let all = candidates(records);
    let id = entry.task.id;
    let kept = preferred(all, id)->0;
    let found = preferred_records_come_first(all, id);
    let (machine, task) = source_of(records, found);
    let told = records[machine].1@[task];
    assert(shows(entry, records[machine].0, told));
    assert(kept.execution == executed_by(records[machine].0, told));
    assert forall|other: int, place: int|
        0 <= other < records.len() && 0 <= place < records[other].1@.len() && (
        #[trigger] records[other].1@[place]).id == told.id && (other < machine || (other == machine
            && place < task)) implies executed_by(records[machine].0, told) && !executed_by(
        records[other].0,
        records[other].1@[place],
    ) by {
        let mentioned = records[other].1@[place];
        let earlier = choose|earlier: int|
            0 <= earlier < found && all[earlier] == candidate(records[other].0, mentioned);
        assert(all[earlier].entry.task.id == id);
    }
    if !kept.execution {
        assert forall|other: int, place: int|
            0 <= other < records.len() && 0 <= place < records[other].1@.len() && (
            #[trigger] records[other].1@[place]).id == told.id implies !executed_by(
            records[other].0,
            records[other].1@[place],
        ) by {
            told_tasks_are_candidates(records, other, place);
            let mentioned = candidate(records[other].0, records[other].1@[place]);
            let at = choose|at: int| 0 <= at < all.len() && all[at] == mentioned;
            assert(all[at].entry.task.id == id);
        }
    }
    assert(stands_for(records, machine, task));
}

/// Whether an entry shows one of a machine's own tasks.
pub open spec fn told_by(machine: MachineId, tasks: Seq<TaskSummary>, entry: FleetTask) -> bool {
    exists|task: int| 0 <= task < tasks.len() && shows(entry, machine, #[trigger] tasks[task])
}

/// Whether an entry shows a task from the successful read of some peer.
pub open spec fn told_by_peers(read: Seq<PeerTasks>, entry: FleetTask) -> bool {
    exists|peer: int|
        {
            &&& 0 <= peer < read.len()
            &&& (#[trigger] read[peer]).tasks matches Ok(tasks)
            &&& told_by(read[peer].peer.machine, tasks@, entry)
        }
}

/// Every task that this machine has, or that a peer told in a read that succeeded, is in the
/// fleet's list under its identity; and every entry shows a task of this machine, or one from the
/// successful read of some peer.
pub proof fn the_fleet_lists_every_told_task(
    local: MachineId,
    name: String,
    version: String,
    local_tasks: Vec<TaskSummary>,
    read: Vec<PeerTasks>,
    list: FleetTaskList,
)
    requires
        call_ensures(fleet_tasks, (local, name, version, local_tasks, read), list),
    ensures
        forall|task: int|
            0 <= task < local_tasks@.len() ==> listed(
                list.tasks@,
                (#[trigger] local_tasks@[task]).id,
            ),
        forall|peer: int, task: int|
            0 <= peer < read@.len() && read@[peer].tasks is Ok && 0 <= task
                < read@[peer].tasks->Ok_0@.len() ==> listed(
                list.tasks@,
                (#[trigger] read@[peer].tasks->Ok_0@[task]).id,
            ),
        forall|at: int|
            0 <= at < list.tasks@.len() ==> told_by(
                local,
                local_tasks@,
                #[trigger] list.tasks@[at],
            ) || told_by_peers(read@, list.tasks@[at]),
        in_order_of_creation(list.tasks@),
{
    let online = online_records(read@);
    let records = seq![(local, local_tasks)] + online;
    online_peers_keep_their_order(read@);
    assert(records[0] == (local, local_tasks));
    assert(forall|at: int| 0 <= at < online.len() ==> #[trigger] online[at] == records[at + 1]);
    assert forall|task: int| 0 <= task < local_tasks@.len() implies listed(
        list.tasks@,
        (#[trigger] local_tasks@[task]).id,
    ) by {
        listed_once_told(records, list.tasks@, 0, task);
    }
    assert forall|peer: int, task: int|
        0 <= peer < read@.len() && read@[peer].tasks is Ok && 0 <= task
            < read@[peer].tasks->Ok_0@.len() implies listed(
        list.tasks@,
        (#[trigger] read@[peer].tasks->Ok_0@[task]).id,
    ) by {
        let at = choose|at: int|
            {
                &&& 0 <= at < online.len()
                &&& (#[trigger] online[at]).0 == read@[peer].peer.machine
                &&& Ok::<Vec<TaskSummary>, String>(online[at].1) == read@[peer].tasks
            };
        assert(records[at + 1] == online[at]);
        listed_once_told(records, list.tasks@, at + 1, task);
    }
    assert forall|at: int| 0 <= at < list.tasks@.len() implies told_by(
        local,
        local_tasks@,
        #[trigger] list.tasks@[at],
    ) || told_by_peers(read@, list.tasks@[at]) by {
        entries_stand_for_their_record(records, list.tasks@[at]);
        entries_come_from_a_read(local, local_tasks, read@, list.tasks@[at]);
    }
}

/// A record of this machine and its online peers is a task of this machine or of some peer.
proof fn entries_come_from_a_read(
    local: MachineId,
    local_tasks: Vec<TaskSummary>,
    read: Seq<PeerTasks>,
    entry: FleetTask,
)
    requires
        told_in(seq![(local, local_tasks)] + online_records(read), entry),
    ensures
        told_by(local, local_tasks@, entry) || told_by_peers(read, entry),
{
    let online = online_records(read);
    let records = seq![(local, local_tasks)] + online;
    let (machine, task) = choose|machine: int, task: int|
        {
            &&& 0 <= machine < records.len()
            &&& 0 <= task < records[machine].1@.len()
            &&& shows(entry, records[machine].0, #[trigger] records[machine].1@[task])
            &&& stands_for(records, machine, task)
        };
    if machine == 0 {
        assert(shows(entry, local, local_tasks@[task]));
    } else {
        online_peers_keep_their_order(read);
        assert(online[machine - 1] == records[machine]);
        let peer = choose|peer: int|
            {
                &&& 0 <= peer < read.len()
                &&& (#[trigger] read[peer]).peer.machine == online[machine - 1].0
                &&& read[peer].tasks == Ok::<Vec<TaskSummary>, String>(online[machine - 1].1)
            };
        assert(shows(entry, read[peer].peer.machine, online[machine - 1].1@[task]));
        assert(told_by(read[peer].peer.machine, online[machine - 1].1@, entry));
    }
}

/// A task that some record tells of is listed.
proof fn listed_once_told(
    records: Seq<(MachineId, Vec<TaskSummary>)>,
    tasks: Seq<FleetTask>,
    machine: int,
    task: int,
)
    requires
        crate::fleet_tasks::merged(candidates(records), tasks),
        0 <= machine < records.len(),
        0 <= task < records[machine].1@.len(),
    ensures
        listed(tasks, records[machine].1@[task].id),
{
    told_tasks_are_candidates(records, machine, task);
    let told = candidate(records[machine].0, records[machine].1@[task]);
    let id = records[machine].1@[task].id;
    let at = choose|at: int| 0 <= at < candidates(records).len() && candidates(records)[at] == told;
    assert(candidates(records)[at].entry.task.id == id);
    preferred_records_come_first(candidates(records), id);
    assert(preferred(candidates(records), id) is Some);
}

/// The list names this machine, online, and then each peer that was read, in the reads' order:
/// online exactly where its read succeeded, and otherwise with what went wrong.
pub proof fn the_fleet_lists_every_machine(
    local: MachineId,
    name: String,
    version: String,
    local_tasks: Vec<TaskSummary>,
    read: Vec<PeerTasks>,
    list: FleetTaskList,
)
    requires
        call_ensures(fleet_tasks, (local, name, version, local_tasks, read), list),
    ensures
        list.api_version == API_VERSION,
        list.machines@.len() == read@.len() + 1,
        list.machines@[0].machine == local,
        list.machines@[0].name == name,
        list.machines@[0].version == version,
        list.machines@[0].location is Local,
        list.machines@[0].read is Online,
        forall|peer: int|
            0 <= peer < read@.len() ==> {
                let shown = list.machines@[peer + 1];
                let told = #[trigger] read@[peer];
                &&& shown.machine == told.peer.machine
                &&& shown.name == told.peer.name
                &&& shown.version == told.peer.version
                &&& shown.read is Online <==> told.tasks is Ok
                &&& told.tasks matches Err(failure) ==> shown.read == (MachineRead::Unavailable {
                    message: failure,
                })
                &&& shown.location matches MachineLocation::Peer { address }
                &&& address is Some <==> told.peer.addresses@.len() > 0
                &&& address matches Some(first) ==> first == told.peer.addresses@[0]
            },
{
    assert forall|peer: int| 0 <= peer < read@.len() implies {
        let shown = list.machines@[peer + 1];
        let told = #[trigger] read@[peer];
        &&& shown.machine == told.peer.machine
        &&& shown.name == told.peer.name
        &&& shown.version == told.peer.version
        &&& shown.read is Online <==> told.tasks is Ok
        &&& told.tasks matches Err(failure) ==> shown.read == (MachineRead::Unavailable {
            message: failure,
        })
        &&& shown.location matches MachineLocation::Peer { address }
        &&& address is Some <==> told.peer.addresses@.len() > 0
        &&& address matches Some(first) ==> first == told.peer.addresses@[0]
    } by {
        let shown = list.machines@[peer + 1];
    }
}

/// A peer is read exactly when it is another machine and online; its read succeeds exactly where
/// it answered for itself, with the tasks of that answer.
pub proof fn peers_answer_for_themselves(
    local: MachineId,
    peer: PeerView,
    reads: bool,
    machine: MachineId,
    answer: Option<Result<ClusterTaskList, String>>,
    tasks: Result<Vec<TaskSummary>, String>,
)
    requires
        call_ensures(reads_peer, (local, &peer), reads),
        call_ensures(peer_tasks, (machine, answer), tasks),
    ensures
        reads <==> peer.machine != local && peer.reachability is Online,
        tasks is Ok <==> (answer matches Some(Ok(body)) && body.machine == machine),
        tasks matches Ok(told) ==> told == answer->0->Ok_0.tasks,
        answer matches Some(Err(failure)) ==> tasks == Err::<Vec<TaskSummary>, String>(failure),
{
}

/// The judged replies of other machines are all there, and nothing else is.
proof fn judged_replies_are_all_there(
    local: MachineId,
    replies: Seq<PeerReply>,
    read: Seq<PeerTasks>,
)
    requires
        judged(local, replies, read),
    ensures
        forall|at: int|
            0 <= at < read.len() ==> exists|reply: int|
                {
                    &&& 0 <= reply < replies.len()
                    &&& (#[trigger] replies[reply]).0 == (#[trigger] read[at]).peer
                    &&& replies[reply].0.machine != local
                    &&& judges(replies[reply], read[at])
                },
        forall|reply: int|
            0 <= reply < replies.len() && (#[trigger] replies[reply]).0.machine != local
                ==> exists|at: int|
                {
                    &&& 0 <= at < read.len()
                    &&& (#[trigger] read[at]).peer == replies[reply].0
                    &&& judges(replies[reply], read[at])
                },
        read.len() <= replies.len(),
    decreases replies.len(),
{
    if replies.len() > 0 {
        let rest = replies.drop_last();
        assert(forall|reply: int| 0 <= reply < rest.len() ==> #[trigger] rest[reply]
            == replies[reply]);
        assert(replies[replies.len() - 1] == replies.last());
        if replies.last().0.machine == local {
            judged_replies_are_all_there(local, rest, read);
            assert forall|at: int| 0 <= at < read.len() implies exists|reply: int|
                {
                    &&& 0 <= reply < replies.len()
                    &&& (#[trigger] replies[reply]).0 == (#[trigger] read[at]).peer
                    &&& replies[reply].0.machine != local
                    &&& judges(replies[reply], read[at])
                } by {
                let reply = choose|reply: int|
                    {
                        &&& 0 <= reply < rest.len()
                        &&& (#[trigger] rest[reply]).0 == read[at].peer
                        &&& rest[reply].0.machine != local
                        &&& judges(rest[reply], read[at])
                    };
                assert(replies[reply] == rest[reply]);
            }
            assert forall|reply: int|
                0 <= reply < replies.len() && (#[trigger] replies[reply]).0.machine
                    != local implies exists|at: int|
                {
                    &&& 0 <= at < read.len()
                    &&& (#[trigger] read[at]).peer == replies[reply].0
                    &&& judges(replies[reply], read[at])
                } by {
                assert(rest[reply] == replies[reply]);
            }
        } else {
            let kept = read.drop_last();
            judged_replies_are_all_there(local, rest, kept);
            assert(forall|at: int| 0 <= at < kept.len() ==> #[trigger] kept[at] == read[at]);
            assert(read[read.len() - 1] == read.last());
            assert forall|at: int| 0 <= at < read.len() implies exists|reply: int|
                {
                    &&& 0 <= reply < replies.len()
                    &&& (#[trigger] replies[reply]).0 == (#[trigger] read[at]).peer
                    &&& replies[reply].0.machine != local
                    &&& judges(replies[reply], read[at])
                } by {
                if at < kept.len() {
                    assert(kept[at] == read[at]);
                    let reply = choose|reply: int|
                        {
                            &&& 0 <= reply < rest.len()
                            &&& (#[trigger] rest[reply]).0 == kept[at].peer
                            &&& rest[reply].0.machine != local
                            &&& judges(rest[reply], kept[at])
                        };
                    assert(replies[reply] == rest[reply]);
                } else {
                    assert(judges(replies[replies.len() - 1], read[at]));
                }
            }
            assert forall|reply: int|
                0 <= reply < replies.len() && (#[trigger] replies[reply]).0.machine
                    != local implies exists|at: int|
                {
                    &&& 0 <= at < read.len()
                    &&& (#[trigger] read[at]).peer == replies[reply].0
                    &&& judges(replies[reply], read[at])
                } by {
                if reply < rest.len() {
                    assert(rest[reply] == replies[reply]);
                    let at = choose|at: int|
                        {
                            &&& 0 <= at < kept.len()
                            &&& (#[trigger] kept[at]).peer == rest[reply].0
                            &&& judges(rest[reply], kept[at])
                        };
                    assert(read[at] == kept[at]);
                } else {
                    assert(judges(replies[reply], read[read.len() - 1]));
                }
            }
        }
    }
}

/// Whether a read is what a reply is worth: its tasks where the peer answered for itself, and a
/// failure otherwise.
pub open spec fn judges(reply: PeerReply, read: PeerTasks) -> bool {
    &&& read.tasks is Ok <==> (reply.1 matches Some(Ok(body)) && body.machine == reply.0.machine)
    &&& read.tasks matches Ok(tasks) ==> tasks == reply.1->0->Ok_0.tasks
    &&& reply.1 matches Some(Err(failure)) ==> read.tasks == Err::<Vec<TaskSummary>, String>(
        failure,
    )
}

/// Each reply of another machine is judged, and what is judged is a reply of another machine:
/// no peer is left out, and none is read in this machine's name.
pub proof fn every_other_machine_is_judged(
    local: MachineId,
    replies: Vec<PeerReply>,
    read: Vec<PeerTasks>,
)
    requires
        call_ensures(read_peers, (local, replies), read),
    ensures
        forall|at: int|
            0 <= at < read@.len() ==> exists|reply: int|
                {
                    &&& 0 <= reply < replies@.len()
                    &&& (#[trigger] replies@[reply]).0 == (#[trigger] read@[at]).peer
                    &&& replies@[reply].0.machine != local
                    &&& judges(replies@[reply], read@[at])
                },
        forall|reply: int|
            0 <= reply < replies@.len() && (#[trigger] replies@[reply]).0.machine != local
                ==> exists|at: int|
                {
                    &&& 0 <= at < read@.len()
                    &&& (#[trigger] read@[at]).peer == replies@[reply].0
                    &&& judges(replies@[reply], read@[at])
                },
        read@.len() <= replies@.len(),
{
    judged_replies_are_all_there(local, replies@, read@);
}

/// A machine lists its own tasks, all of them, under its own identity, and only to a request
/// that means this machine and speaks the current version.
pub proof fn machines_list_their_own_tasks(
    local: MachineId,
    query: ClusterTaskListQuery,
    filter: Result<TaskFilter, AppError>,
    tasks: Vec<TaskSummary>,
    list: ClusterTaskList,
)
    requires
        call_ensures(cluster_task_list, (local, query), filter),
        call_ensures(cluster_tasks, (local, tasks), list),
    ensures
        filter is Ok ==> query.destination_machine == local && query.api_version == API_VERSION,
        query.destination_machine != local ==> (filter matches Err(error) && error@ == (
        crate::error::ErrorView::MachineIdentityMismatch {
            expected: query.destination_machine,
            found: Some(local),
        })),
        query.destination_machine == local && query.api_version == API_VERSION && query.status
            is None && query.thread is None ==> (filter matches Ok(all) && all.statuses@.len() == 0
            && all.thread is None),
        list.machine == local,
        list.tasks == tasks,
        list.api_version == API_VERSION,
{
}

} // verus!
