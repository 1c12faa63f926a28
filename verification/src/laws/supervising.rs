//! The supervisor: which actors live, what a message sets going, how a task is launched, and what
//! a restart does with the tasks it finds.

use vstd::prelude::*;

use crate::actors::resource::reconcile::find_snapshot;
use crate::actors::resource::{resource_actor_name, resource_id_from_actor_name};
use crate::actors::store::StoreMsg;
use crate::actors::supervisor::launch::{
    launch, launch_accepted, launch_remote, record_pid, spawn_inserted, AwaitExit, AwaitFiles,
    AwaitFinal, AwaitIdentity, AwaitInserted, AwaitLaunched, AwaitLocalCodex, AwaitLocalRow,
    AwaitLock, AwaitPid, AwaitPrepared, AwaitRun, RemoteLaunch, RemoteLaunchStep, SpawnMode,
    SpawnStep,
};
use crate::actors::supervisor::messages::{
    AwaitResolved, SupervisorActor, SupervisorMsg, SupervisorStep,
};
use crate::actors::supervisor::recovery::{
    accepted_task, startup_recovery_action, AcceptedResourceTask, RecoveryContext, RecoveryStep,
    StartupRecoveryAction,
};
use crate::actors::supervisor::resource_launch::{ReturnClosure, ReturnDecisionError};
use crate::actors::supervisor::{
    callback_executable, ensure_resource_actor, live_resource, matching_identity,
    on_actor_failed, on_actor_terminated, reconcile_resource_actor, reconcile_terminal_task,
    register_resource_actor, released_resources, releases, spawn_resource_actor, spawn_task_actor,
    task_id_from_name, task_name, AwaitEndedTask, AwaitReleases, CodexLookup, EnsureActor,
    EnsureStep, LiveActors, RegisterStep, SupervisionDecision, TerminalStep,
};
use crate::domain::{
    optional_text, ExitReason, NormalizedSpec, ProcessStatus, TaskPlacement, TaskRow,
};
use crate::error::{error_text, AppError, ErrorView};
use crate::ids::{MachineId, ResourceId, TaskId};
use crate::laws::serving::phase_of;
use crate::path::path_equal;
use crate::resource::{LoanPhase, Resource, ResourceSnapshot};
use crate::submission::{CallbackExecutable, ExecutorIdentity, SavedSpec};

verus! {

/// An actor's name leads back to what it was made for.
pub proof fn names_lead_back(
    task: TaskId,
    name: String,
    named: Option<TaskId>,
    resource: ResourceId,
    resource_name: String,
    resource_named: Option<ResourceId>,
)
    requires
        call_ensures(task_name, (task,), name),
        call_ensures(task_id_from_name, (Some(name),), named),
        call_ensures(resource_actor_name, (resource,), resource_name),
        call_ensures(resource_id_from_actor_name, (Some(resource_name),), resource_named),
        resource.0 != 0,
    ensures
        named == Some(task),
        resource_named == Some(resource),
{
}

/// A failed store, callback or resource actor stops the daemon; a failed task actor is started
/// again, for its own task; and any other failure is let be.
pub proof fn failures_stop_all_but_tasks(
    name: Option<String>,
    task: Option<TaskId>,
    resource: Option<ResourceId>,
    decision: SupervisionDecision,
)
    requires
        call_ensures(on_actor_failed, (name,), decision),
        call_ensures(task_id_from_name, (name,), task),
        call_ensures(resource_id_from_actor_name, (name,), resource),
    ensures
        name is None ==> decision is Ignore,
        resource is Some ==> decision is Stop,
        name matches Some(text) ==> (text@ == "homebased.store"@ || text@ == "homebased.callback"@
            ==> decision is Stop),
        decision is Stop ==> resource is Some || (name matches Some(text) && (text@
            == "homebased.store"@ || text@ == "homebased.callback"@)),
        decision matches SupervisionDecision::RestartTask { id } ==> task == Some(id),
        task is Some && decision !is Stop ==> decision is RestartTask,
        task is None && decision !is Stop ==> decision is Ignore,
{
}

/// A resource actor that ended stops the daemon, a task actor that ended has its task reconciled,
/// and any other end is let be.
pub proof fn ended_resources_stop_the_daemon(
    name: Option<String>,
    reason: Option<String>,
    task: Option<TaskId>,
    resource: Option<ResourceId>,
    decision: SupervisionDecision,
)
    requires
        call_ensures(on_actor_terminated, (name, reason), decision),
        call_ensures(task_id_from_name, (name,), task),
        call_ensures(resource_id_from_actor_name, (name,), resource),
    ensures
        decision is StopTerminated <==> resource is Some,
        decision matches SupervisionDecision::ReconcileTask { id } ==> task == Some(id),
        resource is None && task is Some ==> decision is ReconcileTask,
        resource is None && task is None ==> decision is Ignore,
        decision !is Stop && decision !is RestartTask,
{
}

/// An actor is spawned only where none lives; a resource's actor is made from its own snapshot,
/// and a resource that its authority does not have gets none.
pub proof fn actors_live_once(
    tasks: LiveActors,
    task: TaskId,
    task_spawn: Option<String>,
    resources: LiveActors,
    snapshot: ResourceSnapshot,
    resource_spawn: Option<String>,
    machine: MachineId,
    id: ResourceId,
    step: EnsureStep,
    snapshots: Vec<ResourceSnapshot>,
    found: Option<ResourceSnapshot>,
    ensured: EnsureStep,
)
    requires
        call_ensures(spawn_task_actor, (&tasks, task), task_spawn),
        call_ensures(spawn_resource_actor, (&resources, &snapshot), resource_spawn),
        call_ensures(ensure_resource_actor, (&resources, machine, id), step),
        step matches EnsureStep::AskSnapshots { next, .. } ==> call_ensures(
            EnsureActor::on_snapshots,
            (next, Ok(snapshots)),
            ensured,
        ),
        call_ensures(find_snapshot, (&snapshots, id), found),
    ensures
        task_spawn is Some <==> !tasks@.contains(task.0),
        resource_spawn is Some <==> !resources@.contains(snapshot.resource.id.0),
        step is Alive <==> resources@.contains(id.0),
        step is Alive || step is AskSnapshots,
        step matches EnsureStep::AskSnapshots { message, .. } ==> {
            &&& message == (StoreMsg::ResourceSnapshotsForAuthority { authority_machine: machine })
            &&& found matches Some(own) ==> ensured == (EnsureStep::Spawn { snapshot: own })
            &&& found is None ==> ensured is Failed
        },
{
}

/// A resource that was registered gets its actor, and one that was not gets none; a resource is
/// reconciled only while its actor lives.
pub proof fn registered_resources_get_their_actor(
    resources: LiveActors,
    machine: MachineId,
    registered: Result<Resource, AppError>,
    step: RegisterStep,
    id: ResourceId,
    during: &str,
    live: Result<(), AppError>,
    reconciled: Result<(), AppError>,
)
    requires
        call_ensures(register_resource_actor, (&resources, machine, registered), step),
        call_ensures(live_resource, (&resources, id, during), live),
        call_ensures(reconcile_resource_actor, (&resources, id), reconciled),
    ensures
        registered matches Err(error) ==> step == RegisterStep::Failed(error),
        registered matches Ok(resource) ==> (step matches RegisterStep::Ensure {
            resource: kept,
            step: ensured,
        } && kept == resource && (ensured is Alive <==> resources@.contains(resource.id.0)) && (
        ensured matches EnsureStep::AskSnapshots { message, next } ==> next.id == resource.id
            && message == (StoreMsg::ResourceSnapshotsForAuthority { authority_machine: machine }))
            && (ensured is Alive || ensured is AskSnapshots)),
        live is Ok <==> resources@.contains(id.0),
        reconciled is Ok <==> resources@.contains(id.0),
{
}

/// The resources that a task's end releases are exactly those whose loan awaits it.
proof fn released_resources_await_the_task(snapshots: Seq<ResourceSnapshot>, task: TaskId)
    ensures
        forall|at: int|
            0 <= at < snapshots.len() && awaits_end(#[trigger] snapshots[at], task)
                ==> released_resources(snapshots, task).contains(snapshots[at].resource.id),
        forall|id: ResourceId| #[trigger]
            released_resources(snapshots, task).contains(id) ==> exists|at: int|
                0 <= at < snapshots.len() && awaits_end(#[trigger] snapshots[at], task)
                    && snapshots[at].resource.id == id,
    decreases snapshots.len(),
{
    if snapshots.len() > 0 {
        let rest = snapshots.drop_last();
        released_resources_await_the_task(rest, task);
        let earlier = released_resources(rest, task);
        let all = released_resources(snapshots, task);
        let last = snapshots.last();
        assert(snapshots[snapshots.len() - 1] == last);
        assert(forall|at: int| 0 <= at < rest.len() ==> #[trigger] rest[at] == snapshots[at]);
        assert forall|at: int|
            0 <= at < snapshots.len() && awaits_end(
                #[trigger] snapshots[at],
                task,
            ) implies all.contains(snapshots[at].resource.id) by {
            if at < rest.len() {
                assert(rest[at] == snapshots[at]);
                let id = snapshots[at].resource.id;
                let place = choose|place: int| 0 <= place < earlier.len() && earlier[place] == id;
                assert(all[place] == id);
            } else {
                assert(all[all.len() - 1] == last.resource.id);
            }
        }
        assert forall|id: ResourceId| #[trigger] all.contains(id) implies exists|at: int|
            0 <= at < snapshots.len() && awaits_end(#[trigger] snapshots[at], task)
                && snapshots[at].resource.id == id by {
            let place = choose|place: int| 0 <= place < all.len() && all[place] == id;
            if place < earlier.len() {
                assert(earlier[place] == id);
                assert(earlier.contains(id));
                let at = choose|at: int|
                    0 <= at < rest.len() && awaits_end(#[trigger] rest[at], task)
                        && rest[at].resource.id == id;
                assert(snapshots[at] == rest[at]);
            } else {
                assert(awaits_end(snapshots[snapshots.len() - 1], task));
            }
        }
    }
}

/// Whether a resource's loan awaits the end of its registered background task.
pub open spec fn awaits_end(snapshot: ResourceSnapshot, task: TaskId) -> bool {
    &&& snapshot.resource.registered_background_task == Some(task)
    &&& phase_of(snapshot) matches Some(LoanPhase::AwaitingRelease { observed_background_task, .. })
    &&& observed_background_task == task
}

/// A task that ended has exactly those resources reconciled whose loan awaits its end; one that
/// did not end, or has no row, has none.
pub proof fn ended_tasks_release_what_awaits_them(
    machine: MachineId,
    task: TaskId,
    first: TerminalStep,
    row: Option<TaskRow>,
    second: TerminalStep,
    snapshots: Vec<ResourceSnapshot>,
    step: TerminalStep,
)
    requires
        call_ensures(reconcile_terminal_task, (machine, task), first),
        first matches TerminalStep::AskTask { next, .. } ==> call_ensures(
            AwaitEndedTask::on_task,
            (next, Ok(row)),
            second,
        ),
        second matches TerminalStep::AskSnapshots { next, .. } ==> call_ensures(
            AwaitReleases::on_snapshots,
            (next, Ok(snapshots)),
            step,
        ),
    ensures
        first matches TerminalStep::AskTask { message, .. } && message == (StoreMsg::GetTask {
            id: task,
        }),
        second is AskSnapshots <==> (row matches Some(row) && (row.status
            == ProcessStatus::Succeeded || row.status == ProcessStatus::Failed || row.status
            == ProcessStatus::Cancelled || row.status == ProcessStatus::Lost)),
        second !is AskSnapshots ==> second is Done,
        second matches TerminalStep::AskSnapshots { ended, message, .. } ==> {
            &&& ended == task
            &&& message == (StoreMsg::ResourceSnapshotsForAuthority { authority_machine: machine })
            &&& step matches TerminalStep::Reconcile { resources }
            &&& forall|at: int|
                0 <= at < snapshots@.len() && awaits_end(#[trigger] snapshots@[at], task)
                    ==> resources@.contains(snapshots@[at].resource.id)
            &&& forall|id: ResourceId| #[trigger]
                resources@.contains(id) ==> exists|at: int|
                    0 <= at < snapshots@.len() && awaits_end(#[trigger] snapshots@[at], task)
                        && snapshots@[at].resource.id == id
        },
{
    released_resources_await_the_task(snapshots@, task);
}

/// An identity is taken as one for a launch exactly where it is between the same machines, and
/// for accepted work where the two machines differ and the content is kept.
pub proof fn identities_match_their_launch(
    identity: ExecutorIdentity,
    spec: NormalizedSpec,
    origin: MachineId,
    execution: MachineId,
    task: TaskId,
    result: Result<ExecutorIdentity, AppError>,
)
    requires
        call_ensures(matching_identity, (identity, &spec, origin, execution, task), result),
    ensures
        result matches Ok(kept) ==> kept == identity,
        result is Err ==> result == Err::<ExecutorIdentity, AppError>(
            AppError::ClusterTaskConflict { task },
        ),
        identity matches ExecutorIdentity::Rejected(record) ==> (result is Ok
            <==> record.origin_machine == origin && record.execution_machine == execution),
        identity matches ExecutorIdentity::Accepted(record) ==> (result is Ok <==> {
            &&& record.origin_machine == origin
            &&& record.execution_machine == execution
            &&& origin != execution
            &&& record.spec matches SavedSpec::Current(saved)
            &&& path_equal(saved.cwd@, spec.cwd@)
            &&& saved.thread == spec.thread
            &&& saved.name@ == spec.name@
            &&& saved.timeout == spec.timeout
            &&& optional_text(saved.machine) == optional_text(spec.machine)
            &&& saved.workload@ == spec.workload@
        }),
{
}

/// A callback's executable is the one that was found, or unavailable with a reason.
pub proof fn executables_are_found_or_unavailable(
    resolved: Result<String, AppError>,
    executable: CallbackExecutable,
)
    requires
        call_ensures(callback_executable, (resolved,), executable),
    ensures
        resolved matches Ok(path) ==> executable == (CallbackExecutable::Available { path }),
        resolved is Err <==> executable is Unavailable,
{
}

/// Whether a step ends a task's row as never started, from the queue, with a failure's own text.
pub open spec fn ends_unstarted(step: SpawnStep, task: TaskId, failure: ErrorView) -> bool {
    &&& step matches SpawnStep::AskExit { message: StoreMsg::CasExit { id, from, reason, evidence }, ..
    }
    &&& id == task
    &&& from == ProcessStatus::Queued
    &&& evidence is NoChildSpawned
    &&& reason matches ExitReason::SpawnFailed { message }
    &&& message@ == error_text(failure)
}

/// What a launch answers after its row was ended: a fresh launch its failure, and one that was
/// accepted before nothing, for its row tells.
pub open spec fn answers_unstarted(step: SpawnStep, mode: SpawnMode, failure: AppError) -> bool {
    &&& step matches SpawnStep::AskExit { next, .. }
    &&& mode is Fresh ==> next.result == Err::<(), AppError>(failure)
    &&& mode is Accepted ==> next.result is Ok
}

/// A task runs only under its lock. A lock that another runner holds means that accepted work
/// already runs, and is watched; every other failure before the run ends the row unstarted.
pub proof fn tasks_run_under_their_lock(
    wait: AwaitLock,
    reply: Result<(), AppError>,
    step: SpawnStep,
    run: AwaitRun,
    ran: Result<u32, AppError>,
    after: SpawnStep,
)
    requires
        call_ensures(AwaitLock::on_lock, (wait, reply), step),
        call_ensures(AwaitRun::on_run, (run, ran), after),
    ensures
        step is Run <==> reply is Ok,
        step matches SpawnStep::Run { next } ==> next.task == wait.task && next.mode == wait.mode,
        reply matches Err(error) ==> {
            &&& wait.mode is Accepted && error is LockHeld ==> step == (SpawnStep::Watch {
                task: wait.task,
            })
            &&& !(wait.mode is Accepted && error is LockHeld) ==> ends_unstarted(
                step,
                wait.task,
                error@,
            ) && answers_unstarted(step, wait.mode, error)
        },
        ran matches Ok(pid) ==> {
            &&& pid <= i32::MAX ==> (after matches SpawnStep::AskPid {
                message: StoreMsg::SetPid { id, pid: saved },
                next,
            } && id == run.task && saved == pid && next.task == run.task)
            &&& pid > i32::MAX ==> after matches SpawnStep::Done(Err(_))
        },
        ran matches Err(error) ==> ends_unstarted(after, run.task, error@) && answers_unstarted(
            after,
            run.mode,
            error,
        ),
{
}

/// Inserted work prepares its files before it locks; accepted work locks at once. A runner whose
/// process was saved is watched, and one whose process was not fails the launch.
pub proof fn launches_prepare_lock_and_watch(
    task: TaskId,
    inserted: SpawnStep,
    accepted: SpawnStep,
    files: AwaitFiles,
    prepared: Result<(), AppError>,
    after_files: SpawnStep,
    pid: AwaitPid,
    saved: Result<(), AppError>,
    after_pid: SpawnStep,
    exit: AwaitExit,
    finished: Result<bool, AppError>,
    after_exit: SpawnStep,
    number: u32,
    message: Result<StoreMsg, AppError>,
)
    requires
        call_ensures(spawn_inserted, (task,), inserted),
        call_ensures(launch_accepted, (task,), accepted),
        call_ensures(AwaitFiles::on_prepared, (files, prepared), after_files),
        call_ensures(AwaitPid::on_saved, (pid, saved), after_pid),
        call_ensures(AwaitExit::on_finished, (exit, finished), after_exit),
        call_ensures(record_pid, (task, number), message),
    ensures
        inserted matches SpawnStep::Prepare { next } && next.task == task,
        accepted matches SpawnStep::Lock { next } && next.task == task && next.mode is Accepted,
        prepared is Ok ==> (after_files matches SpawnStep::Lock { next } && next.task == files.task
            && next.mode is Accepted),
        prepared matches Err(error) ==> ends_unstarted(after_files, files.task, error@)
            && answers_unstarted(after_files, SpawnMode::Accepted, error),
        saved is Ok ==> after_pid == (SpawnStep::Watch { task: pid.task }),
        saved matches Err(error) ==> after_pid == SpawnStep::Done(Err::<(), AppError>(error)),
        finished is Ok ==> after_exit == SpawnStep::Done(exit.result),
        finished matches Err(error) ==> after_exit == SpawnStep::Done(Err::<(), AppError>(error)),
        message is Ok <==> number <= i32::MAX,
        message matches Ok(asked) ==> (asked matches StoreMsg::SetPid { id, pid: kept } && id == task
            && kept == number),
{
}

/// A local launch saves its row, with the callback executable that was found, before it locks;
/// a row that was not saved starts nothing.
pub proof fn local_launches_save_their_row_first(
    row: TaskRow,
    placement: TaskPlacement,
    spec: NormalizedSpec,
    machine: MachineId,
    lookup: CodexLookup<AwaitLocalCodex>,
    resolved: Result<String, AppError>,
    asked: (StoreMsg, AwaitLocalRow),
    reply: Result<(), AppError>,
    step: SpawnStep,
)
    requires
        call_ensures(launch, (row, placement, spec, machine), lookup),
        call_ensures(AwaitLocalCodex::on_codex, (lookup.next, resolved), asked),
        call_ensures(AwaitLocalRow::on_inserted, (asked.1, reply), step),
    ensures
        lookup.path == placement.env.path,
        lookup.cwd == placement.cwd,
        asked.0 matches StoreMsg::InsertLocalTask {
            row: kept,
            placement: placed,
            spec: run,
            machine: here,
            codex,
        } && kept == row && placed == placement && run == spec && here == machine && (
        resolved matches Ok(path) ==> codex == (CallbackExecutable::Available { path })) && (resolved
            is Err <==> codex is Unavailable),
        reply is Ok ==> (step matches SpawnStep::Lock { next } && next.task == row.id && next.mode
            is Fresh),
        reply matches Err(error) ==> step == SpawnStep::Done(Err::<(), AppError>(error)),
{
}

/// Remote work that is already kept is answered by its identity, and never launched again. New
/// work is prepared, then kept as a queued row between its two machines.
pub proof fn remote_work_is_kept_before_it_runs(
    request: RemoteLaunch,
    first: RemoteLaunchStep,
    found: Option<ExecutorIdentity>,
    matched: Result<ExecutorIdentity, AppError>,
    second: RemoteLaunchStep,
    step: RemoteLaunchStep,
)
    requires
        call_ensures(launch_remote, (request,), first),
        first matches RemoteLaunchStep::AskIdentity { next, .. } ==> call_ensures(
            AwaitIdentity::on_identity,
            (next, Ok(found)),
            second,
        ),
        found matches Some(identity) ==> call_ensures(
            matching_identity,
            (identity, &request.spec, request.origin, request.execution, request.task),
            matched,
        ),
        second matches RemoteLaunchStep::Prepare { next, .. } ==> call_ensures(
            AwaitPrepared::on_prepared,
            (next, Ok(())),
            step,
        ),
    ensures
        first matches RemoteLaunchStep::AskIdentity { message, .. } && message == (
        StoreMsg::ExecutorIdentity { id: request.task }),
        second is Prepare <==> found is None,
        found is Some ==> second == RemoteLaunchStep::Done(matched),
        second matches RemoteLaunchStep::Prepare { task, .. } ==> {
            &&& task == request.task
            &&& step matches RemoteLaunchStep::AskInsert {
                message: StoreMsg::InsertRemoteTask { row, placement, spec, origin, execution },
                next,
            }
            &&& row.id == request.task
            &&& row.status == ProcessStatus::Queued
            &&& placement == request.placement
            &&& spec@ == request.spec@
            &&& origin == request.origin
            &&& execution == request.execution
            &&& next.task == request.task
            &&& next.origin == request.origin
            &&& next.execution == request.execution
            &&& next.spec == request.spec
        },
{
}

/// Kept remote work runs exactly where it was accepted for this launch; a rejection is answered
/// as it is, and another identity is a conflict. The answer is the identity after the launch.
pub proof fn accepted_remote_work_runs(
    wait: AwaitInserted,
    identity: ExecutorIdentity,
    matched: Result<ExecutorIdentity, AppError>,
    step: RemoteLaunchStep,
    launched: AwaitLaunched,
    asked: RemoteLaunchStep,
    reply: Option<ExecutorIdentity>,
    answered: RemoteLaunchStep,
)
    requires
        call_ensures(AwaitInserted::on_inserted, (wait, Ok(identity)), step),
        call_ensures(
            matching_identity,
            (identity, &wait.spec, wait.origin, wait.execution, wait.task),
            matched,
        ),
        call_ensures(AwaitLaunched::on_launched, (launched,), asked),
        asked matches RemoteLaunchStep::AskFinal { next, .. } ==> call_ensures(
            AwaitFinal::on_identity,
            (next, Ok(reply)),
            answered,
        ),
    ensures
        step is Launch <==> matched is Ok && identity is Accepted,
        step matches RemoteLaunchStep::Launch { step: begun, next } ==> next.task == wait.task && (
        begun matches SpawnStep::Lock { next: lock } && lock.task == wait.task && lock.mode
            is Accepted),
        step !is Launch ==> step == RemoteLaunchStep::Done(matched),
        asked matches RemoteLaunchStep::AskFinal { message, .. } && message == (
        StoreMsg::ExecutorIdentity { id: launched.task }),
        reply matches Some(told) ==> answered == RemoteLaunchStep::Done(
            Ok::<ExecutorIdentity, AppError>(told),
        ),
        reply is None ==> answered == RemoteLaunchStep::Done(
            Err::<ExecutorIdentity, AppError>(AppError::TaskNotFound { id: launched.task }),
        ),
{
}

/// A message to the supervisor sets going what it names, for the task or resource it names, on
/// this machine; a resource without an actor is inspected by nobody.
pub proof fn supervisor_messages_do_what_they_name(
    resources: LiveActors,
    machine: MachineId,
    message: SupervisorMsg,
    step: SupervisorStep,
)
    requires
        call_ensures(SupervisorActor::handle, (&resources, machine, message), step),
    ensures
        message is GetStore <==> step is ReplyStore,
        message matches SupervisorMsg::RegisterResource { resource } ==> step == (
        SupervisorStep::AskRegister {
            message: StoreMsg::RegisterResource { authority_machine: machine, resource },
        }),
        message matches SupervisorMsg::InspectResource { id } ==> {
            &&& resources@.contains(id.0) ==> step == (SupervisorStep::Inspect { id })
            &&& !resources@.contains(id.0) ==> step is ReplyNotFound
        },
        message matches SupervisorMsg::ReconcileResource { id } ==> (
        step matches SupervisorStep::Reconcile { id: named, step: ensured } && named == id && (
        ensured is Alive <==> resources@.contains(id.0)) && (
        ensured matches EnsureStep::AskSnapshots { next, .. } ==> next.id == id)),
        message matches SupervisorMsg::LaunchAssignedResourceTask { input } ==> (
        step matches SupervisorStep::AskAssigned { message: asked, next } && asked == (
        StoreMsg::AcceptAssignedResourceTask { input }) && next.task_id == input.task_id
            && next.resource_id == input.resource_id),
        message matches SupervisorMsg::DecideReturn { authority, decision } ==> step == (
        SupervisorStep::Decide { authority, decision }),
        message matches SupervisorMsg::ResourceAction { request } ==> step == (
        SupervisorStep::Action { request }),
        message matches SupervisorMsg::ResolveEndedRestore { authority, task_id, reason } ==> (
        step matches SupervisorStep::AskResolve { message: asked, next } && asked == (
        StoreMsg::ResolveEndedRestoreForAuthority { authority, task_id, reason })
            && next.resource_id == authority.resource_id),
        message matches SupervisorMsg::LaunchBackground { launch } ==> (
        step matches SupervisorStep::LaunchBackground { lookup } && lookup.next.launch == launch
            && lookup.next.machine == machine && lookup.path == launch.env.path && lookup.cwd
            == launch.callback_cwd),
        message matches SupervisorMsg::LaunchRemoteBackground { receipt, spec } ==> (
        step matches SupervisorStep::EnsureBackground {
            step: ensured,
            receipt: kept,
            spec: run,
        } && kept == receipt && run == spec && (ensured is Alive <==> resources@.contains(
            receipt.binding.assignment.resource_id.0,
        ))),
        message matches SupervisorMsg::Launch { row, placement, spec } ==> (
        step matches SupervisorStep::Launch { lookup } && lookup.next.row == row
            && lookup.next.placement == placement && lookup.next.spec == spec && lookup.next.machine
            == machine),
        message matches SupervisorMsg::LaunchRemote { request } ==> (
        step matches SupervisorStep::LaunchRemote { step: begun }
            && begun matches RemoteLaunchStep::AskIdentity { message: asked, next } && asked == (
        StoreMsg::ExecutorIdentity { id: request.task }) && next.request == request),
        message matches SupervisorMsg::Cancel { id } ==> step == (SupervisorStep::AskCancel {
            message: StoreMsg::RequestCancel { id },
        }),
        message matches SupervisorMsg::DispatchInbox { id } ==> step == (SupervisorStep::Progress {
            id,
            dispatch: true,
        }),
        message matches SupervisorMsg::RemoteOriginEvent { id } ==> step == (
        SupervisorStep::Progress { id, dispatch: false }),
{
}

/// A resolved restore wakes its resource, and a refused or failed one wakes nothing.
pub proof fn resolved_restores_wake_their_resource(
    wait: AwaitResolved,
    reply: Result<Result<ReturnClosure, ReturnDecisionError>, AppError>,
    wake: Option<ResourceId>,
)
    requires
        call_ensures(AwaitResolved::on_resolved, (wait, &reply), wake),
    ensures
        wake is Some <==> reply matches Ok(Ok(_)),
        wake matches Some(id) ==> id == wait.resource_id,
{
}

/// A restart launches exactly the queued work that another machine sent and this one accepted,
/// that no resource and no release watcher stands behind; a resource's queued task waits for its
/// resource, and everything else is watched.
pub proof fn restarts_launch_accepted_remote_work_only(
    row: TaskRow,
    resource_task: Option<AcceptedResourceTask>,
    release_watcher: bool,
    identity: Option<&ExecutorIdentity>,
    action: StartupRecoveryAction,
)
    requires
        call_ensures(
            startup_recovery_action,
            (&row, resource_task, release_watcher, identity),
            action,
        ),
    ensures
        action is LaunchAccepted <==> row.status == ProcessStatus::Queued && resource_task is None
            && !release_watcher && (identity matches Some(ExecutorIdentity::Accepted(record))
            && record.origin_machine != record.execution_machine),
        action is DeferResource <==> row.status == ProcessStatus::Queued && (
        resource_task matches Some(task) && task.state == ProcessStatus::Queued),
{
}

/// The accepted resource task of a row is one with its identity.
proof fn accepted_tasks_are_their_own(accepted: Seq<AcceptedResourceTask>, id: TaskId)
    ensures
        accepted_task(accepted, id) matches Some(found) ==> found.task_id == id
            && accepted.contains(found),
        accepted_task(accepted, id) is None <==> forall|at: int|
            0 <= at < accepted.len() ==> (#[trigger] accepted[at]).task_id != id,
    decreases accepted.len(),
{
    if accepted.len() > 0 {
        let rest = accepted.drop_last();
        accepted_tasks_are_their_own(rest, id);
        assert(forall|at: int| 0 <= at < rest.len() ==> #[trigger] rest[at] == accepted[at]);
        assert(accepted[accepted.len() - 1] == accepted.last());
        if accepted.last().task_id != id && accepted_task(rest, id) is Some {
            let found = accepted_task(rest, id)->0;
            let at = choose|at: int| 0 <= at < rest.len() && rest[at] == found;
            assert(accepted[at] == found);
            assert(accepted[at].task_id == id);
        }
        if accepted_task(accepted, id) is None {
            assert forall|at: int| 0 <= at < accepted.len() implies (
            #[trigger] accepted[at]).task_id != id by {
                if at < rest.len() {
                    assert(rest[at] == accepted[at]);
                }
            }
        }
    }
}

/// A queued row whose launch another part of the daemon finishes is left to it; a queued row
/// without a resource's acceptance has its identity read first, and every other row is acted on
/// at once, never by a launch.
pub proof fn rows_are_recovered_by_what_is_known(
    context: RecoveryContext,
    row: TaskRow,
    step: RecoveryStep,
    identity: Option<&ExecutorIdentity>,
    action: StartupRecoveryAction,
)
    requires
        call_ensures(RecoveryContext::recover, (&context, &row), step),
        call_ensures(RecoveryContext::on_identity, (&context, &row, identity), action),
    ensures
        ({
            let queued = row.status == ProcessStatus::Queued;
            let accepted = exists|at: int|
                0 <= at < context.accepted@.len() && (#[trigger] context.accepted@[at]).task_id
                    == row.id;
            let left = queued && (context.restoring@.contains(row.id)
                || context.background_launches@.contains(row.id));
            &&& step is Leave <==> left
            &&& step is AskIdentity <==> !left && queued && !accepted
            &&& step matches RecoveryStep::AskIdentity { message } ==> message == (
            StoreMsg::ExecutorIdentity { id: row.id })
            &&& step matches RecoveryStep::Act { action: taken } ==> taken !is LaunchAccepted
            &&& action is LaunchAccepted ==> queued && !accepted && !context.watchers@.contains(
                row.id,
            ) && (identity matches Some(ExecutorIdentity::Accepted(record))
                && record.origin_machine != record.execution_machine)
        }),
{
    accepted_tasks_are_their_own(context.accepted@, row.id);
}

} // verus!
