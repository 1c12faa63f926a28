//! The daemon's root: which actors live, what happens when one ends, and which
//! identities a remote launch may reuse.

use std::collections::HashSet;

use vstd::prelude::*;

use crate::actors::resource::reconcile::{find_snapshot, first_snapshot};
use crate::actors::resource::{
    resource_actor_name, resource_id_from_actor_name, resource_of_name,
};
use crate::actors::store::StoreMsg;
use crate::domain::{equal_specs, optional_text, NormalizedSpec, SpecContent, TaskRow};
use crate::error::{error_text, AppError, ErrorView};
use crate::ids::{hyphenated, uuid_parsed, MachineId, ResourceId, TaskId};
use crate::resource::{LoanPhase, LoanState, Resource, ResourceSnapshot};
use crate::submission::{
    saved_content, CallbackExecutable, ExecutorIdentity,
};
use crate::text::{has_prefix, join2, join3, same_text, strip_prefix};

pub mod launch;
pub mod messages;
pub mod recovery;
pub mod resource_launch;

verus! {

broadcast use vstd::std_specs::hash::group_hash_axioms;

/// Startup inputs for the root actor.
#[derive(Debug)]
pub struct SupervisorArgs {
    pub home: String,
    pub callback_codex_pin: Option<String>,
}

impl SupervisorArgs {
    /// Build startup inputs for the daemon home.
    ///
    /// `callback_codex_pin` names the Codex executable that callbacks use instead of a
    /// `PATH` lookup. It is captured once, so nothing reads the process environment later.
    pub fn new(home: String, callback_codex_pin: Option<String>) -> (args: SupervisorArgs)
        ensures
            args == (SupervisorArgs { home, callback_codex_pin }),
    {
        SupervisorArgs { home, callback_codex_pin }
    }
}

/// The task that an actor name stands for.
pub open spec fn task_of_name(name: Seq<char>) -> Option<TaskId> {
    if has_prefix(name, "homebased.task."@) {
        match uuid_parsed(name.skip("homebased.task."@.len() as int)) {
            Some(uuid) => Some(TaskId(uuid)),
            None => None,
        }
    } else {
        None
    }
}

/// Stable actor name of one task.
pub fn task_name(id: TaskId) -> (name: String)
    ensures
        name@ == "homebased.task."@ + hyphenated(id.0),
        task_of_name(name@) == Some(id),
{
    let text = id.text();
    let name = join2("homebased.task.", text.as_str());
    proof {
        let prefix = "homebased.task."@;
        assert(name@.take(prefix.len() as int) =~= prefix);
        assert(name@.skip(prefix.len() as int) =~= text@);
    }
    name
}

/// Parse one task actor name into its task.
pub fn task_id_from_name(name: Option<String>) -> (id: Option<TaskId>)
    ensures
        id == (match name {
            Some(name) => task_of_name(name@),
            None => None,
        }),
{
    let name = match name {
        Some(name) => name,
        None => {
            return None;
        },
    };
    match strip_prefix(name.as_str(), "homebased.task.") {
        Some(rest) => TaskId::parse(rest),
        None => None,
    }
}

/// Lookup of the executable that a task's callbacks use, by a search path and a directory.
#[derive(Debug)]
pub struct CodexLookup<N> {
    pub path: String,
    pub cwd: String,
    pub next: N,
}

/// Whether an executable is what a lookup left: the path that it found, or the reason that
/// callbacks fail with.
pub open spec fn resolved_executable(
    resolved: Result<String, AppError>,
    executable: CallbackExecutable,
) -> bool {
    match resolved {
        Ok(path) => executable == (CallbackExecutable::Available { path }),
        Err(error) => executable matches CallbackExecutable::Unavailable { reason } && reason@
            == "callback Codex executable is unavailable: "@ + error_text(error@),
    }
}

/// The executable that a lookup found, or the reason that its callbacks fail with.
///
/// A missing executable must not block the task itself, so the failure is kept as the
/// callback's durable reason instead of a path that cannot run.
pub fn callback_executable(resolved: Result<String, AppError>) -> (executable: CallbackExecutable)
    ensures
        resolved_executable(resolved, executable),
{
    match resolved {
        Ok(path) => CallbackExecutable::available(path),
        Err(error) => {
            let text = error.to_string();
            CallbackExecutable::Unavailable {
                reason: join2("callback Codex executable is unavailable: ", text.as_str()),
            }
        },
    }
}

/// Whether a retained identity is the one that a remote launch asks for.
///
/// Only a task whose origin is another machine has the same owners and content.
pub open spec fn identity_matches(
    identity: ExecutorIdentity,
    spec: SpecContent,
    origin: MachineId,
    execution: MachineId,
) -> bool {
    match identity {
        ExecutorIdentity::Accepted(record) => record.origin_machine == origin
            && record.execution_machine == execution && origin != execution && (saved_content(
            record.spec,
        ) matches Some(saved) && equal_specs(saved, spec)),
        ExecutorIdentity::Rejected(record) => record.origin_machine == origin
            && record.execution_machine == execution,
    }
}

/// Keep an identity that matches the request, and refuse any other as a conflict.
pub fn matching_identity(
    identity: ExecutorIdentity,
    spec: &NormalizedSpec,
    origin: MachineId,
    execution: MachineId,
    task: TaskId,
) -> (result: Result<ExecutorIdentity, AppError>)
    ensures
        result == if identity_matches(identity, spec@, origin, execution) {
            Ok(identity)
        } else {
            Err(AppError::ClusterTaskConflict { task })
        },
{
    let same = match &identity {
        ExecutorIdentity::Accepted(record) => {
            let same_spec = match record.spec.current() {
                Some(saved) => saved.equals(spec),
                None => false,
            };
            record.origin_machine == origin && record.execution_machine == execution && origin
                != execution && same_spec
        },
        ExecutorIdentity::Rejected(record) => record.origin_machine == origin
            && record.execution_machine == execution,
    };
    if same {
        Ok(identity)
    } else {
        Err(AppError::ClusterTaskConflict { task })
    }
}

/// What the end of an actor asks of the root.
#[derive(Debug)]
pub enum SupervisionDecision {
    /// The daemon cannot go on without the actor: stop with its failure.
    Stop,
    /// The daemon cannot go on without the actor, which ended without a failure.
    StopTerminated { error: AppError },
    /// Forget the task's actor and start another.
    RestartTask { id: TaskId },
    /// Forget the task's actor and reconcile the task's end.
    ReconcileTask { id: TaskId },
    Ignore,
}

/// What the failure of a named actor asks of the root.
///
/// The store and the callback actor are singletons that every live task actor refers to,
/// so nothing in the process can replace them.
pub open spec fn failure_decision(name: Option<Seq<char>>) -> SupervisionDecision {
    match name {
        None => SupervisionDecision::Ignore,
        Some(name) => if name == "homebased.store"@ || name == "homebased.callback"@
            || resource_of_name(name) is Some {
            SupervisionDecision::Stop
        } else {
            match task_of_name(name) {
                Some(id) => SupervisionDecision::RestartTask { id },
                None => SupervisionDecision::Ignore,
            }
        },
    }
}

/// Decide what the failure of an actor asks of the root.
pub fn on_actor_failed(name: Option<String>) -> (decision: SupervisionDecision)
    ensures
        decision == failure_decision(optional_text(name)),
{
    let name = match name {
        Some(name) => name,
        None => {
            return SupervisionDecision::Ignore;
        },
    };
    if same_text(name.as_str(), "homebased.store") || same_text(
        name.as_str(),
        "homebased.callback",
    ) {
        return SupervisionDecision::Stop;
    }
    if resource_id_from_actor_name(Some(name.clone())).is_some() {
        return SupervisionDecision::Stop;
    }
    match task_id_from_name(Some(name)) {
        Some(id) => SupervisionDecision::RestartTask { id },
        None => SupervisionDecision::Ignore,
    }
}

/// Reason shown for an actor that ended without one.
pub open spec fn end_reason(reason: Option<Seq<char>>) -> Seq<char> {
    match reason {
        Some(reason) => reason,
        None => "without an exit reason"@,
    }
}

/// Decide what the orderly end of an actor asks of the root.
///
/// A resource actor never ends on its own, so its end stops the daemon.
pub fn on_actor_terminated(name: Option<String>, reason: Option<String>) -> (decision:
    SupervisionDecision)
    ensures
        match optional_text(name) {
            None => decision == SupervisionDecision::Ignore,
            Some(text) => match resource_of_name(text) {
                Some(id) => decision matches SupervisionDecision::StopTerminated { error }
                    && error@ == (ErrorView::Internal {
                    message: "resource actor "@ + hyphenated(id.0) + " terminated unexpectedly: "@
                        + end_reason(optional_text(reason)),
                }),
                None => decision == (match task_of_name(text) {
                    Some(id) => SupervisionDecision::ReconcileTask { id },
                    None => SupervisionDecision::Ignore,
                }),
            },
        },
{
    let name = match name {
        Some(name) => name,
        None => {
            return SupervisionDecision::Ignore;
        },
    };
    if let Some(id) = resource_id_from_actor_name(Some(name.clone())) {
        let reason = match reason {
            Some(reason) => reason,
            None => "without an exit reason".to_owned(),
        };
        let uuid = id.text();
        let head = join3("resource actor ", uuid.as_str(), " terminated unexpectedly: ");
        return SupervisionDecision::StopTerminated {
            error: AppError::Internal { message: join2(head.as_str(), reason.as_str()) },
        };
    }
    match task_id_from_name(Some(name)) {
        Some(id) => SupervisionDecision::ReconcileTask { id },
        None => SupervisionDecision::Ignore,
    }
}

/// Identities whose actor is alive.
#[derive(Debug)]
pub struct LiveActors {
    ids: HashSet<u128>,
}

impl View for LiveActors {
    type V = Set<u128>;

    closed spec fn view(&self) -> Set<u128> {
        self.ids@
    }
}

impl LiveActors {
    /// No actor is alive.
    pub fn new() -> (live: LiveActors)
        ensures
            live@ == Set::<u128>::empty(),
    {
        LiveActors { ids: HashSet::new() }
    }

    /// Whether the actor of `id` is alive.
    pub fn contains(&self, id: u128) -> (alive: bool)
        ensures
            alive == self@.contains(id),
    {
        self.ids.contains(&id)
    }

    /// Remember the actor of `id`.
    pub fn started(&mut self, id: u128)
        ensures
            final(self)@ == old(self)@.insert(id),
    {
        self.ids.insert(id);
    }

    /// Forget the actor of `id`.
    pub fn ended(&mut self, id: u128)
        ensures
            final(self)@ == old(self)@.remove(id),
    {
        self.ids.remove(&id);
    }
}

/// Name to start a task's actor under, or nothing when the task already has one.
pub fn spawn_task_actor(tasks: &LiveActors, id: TaskId) -> (name: Option<String>)
    ensures
        name is None == tasks@.contains(id.0),
        name matches Some(name) ==> name@ == "homebased.task."@ + hyphenated(id.0),
{
    if tasks.contains(id.0) {
        return None;
    }
    Some(task_name(id))
}

/// Remember a started task actor.
pub fn on_task_actor_spawned(tasks: &mut LiveActors, id: TaskId, spawned: Result<(), String>) -> (result:
    Result<(), AppError>)
    ensures
        match spawned {
            Ok(_) => result is Ok && final(tasks)@ == old(tasks)@.insert(id.0),
            Err(error) => final(tasks)@ == old(tasks)@ && (result matches Err(found) && found@ == (
            ErrorView::Internal { message: "spawn task actor: "@ + error@ })),
        },
{
    match spawned {
        Ok(_) => {
            tasks.started(id.0);
            Ok(())
        },
        Err(error) => Err(
            AppError::Internal { message: join2("spawn task actor: ", error.as_str()) },
        ),
    }
}

/// Name to start a resource's actor under, or nothing when the resource already has one.
pub fn spawn_resource_actor(resources: &LiveActors, snapshot: &ResourceSnapshot) -> (name: Option<
    String,
>)
    ensures
        name is None == resources@.contains(snapshot.resource.id.0),
        name matches Some(name) ==> name@ == "homebased.resource."@ + hyphenated(
            snapshot.resource.id.0,
        ),
{
    if resources.contains(snapshot.resource.id.0) {
        return None;
    }
    Some(resource_actor_name(snapshot.resource.id))
}

/// Remember a started resource actor.
pub fn on_resource_actor_spawned(
    resources: &mut LiveActors,
    id: ResourceId,
    spawned: Result<(), String>,
) -> (result: Result<(), AppError>)
    ensures
        match spawned {
            Ok(_) => result is Ok && final(resources)@ == old(resources)@.insert(id.0),
            Err(error) => final(resources)@ == old(resources)@ && (result matches Err(found)
                && found@ == (ErrorView::Internal {
                message: "spawn resource actor "@ + hyphenated(id.0) + ": "@ + error@,
            })),
        },
{
    match spawned {
        Ok(_) => {
            resources.started(id.0);
            Ok(())
        },
        Err(error) => {
            let uuid = id.text();
            let head = join3("spawn resource actor ", uuid.as_str(), ": ");
            Err(AppError::Internal { message: join2(head.as_str(), error.as_str()) })
        },
    }
}

/// Next part of making sure that a resource has its actor.
#[derive(Debug)]
pub enum EnsureStep {
    /// The actor is alive.
    Alive,
    AskSnapshots { message: StoreMsg, next: EnsureActor },
    /// Start the actor from this snapshot.
    Spawn { snapshot: ResourceSnapshot },
    Failed(AppError),
}

/// Waiting for the snapshot that a resource actor starts from.
#[derive(Debug, Clone, Copy, PartialEq, Eq, Structural)]
pub struct EnsureActor {
    pub id: ResourceId,
}

/// Make sure that a resource has its actor.
pub fn ensure_resource_actor(resources: &LiveActors, machine: MachineId, id: ResourceId) -> (step:
    EnsureStep)
    ensures
        step == if resources@.contains(id.0) {
            EnsureStep::Alive
        } else {
            EnsureStep::AskSnapshots {
                message: StoreMsg::ResourceSnapshotsForAuthority { authority_machine: machine },
                next: EnsureActor { id },
            }
        },
{
    if resources.contains(id.0) {
        return EnsureStep::Alive;
    }
    EnsureStep::AskSnapshots {
        message: StoreMsg::ResourceSnapshotsForAuthority { authority_machine: machine },
        next: EnsureActor { id },
    }
}

impl EnsureActor {
    /// Start the actor from the resource's snapshot, which a registered resource has.
    pub fn on_snapshots(self, reply: Result<Vec<ResourceSnapshot>, AppError>) -> (step: EnsureStep)
        ensures
            match reply {
                Err(error) => step == EnsureStep::Failed(error),
                Ok(snapshots) => match first_snapshot(snapshots@, self.id) {
                    Some(snapshot) => step == (EnsureStep::Spawn { snapshot }),
                    None => step matches EnsureStep::Failed(error) && error@ == (
                    ErrorView::Internal {
                        message: "registered resource "@ + hyphenated(self.id.0)
                            + " is missing from the authority store"@,
                    }),
                },
            },
    {
        let snapshots = match reply {
            Ok(snapshots) => snapshots,
            Err(error) => {
                return EnsureStep::Failed(error);
            },
        };
        match find_snapshot(&snapshots, self.id) {
            Some(snapshot) => EnsureStep::Spawn { snapshot },
            None => {
                let uuid = self.id.text();
                EnsureStep::Failed(
                    AppError::Internal {
                        message: join3(
                            "registered resource ",
                            uuid.as_str(),
                            " is missing from the authority store",
                        ),
                    },
                )
            },
        }
    }
}

/// Refuse to call a resource actor that is not alive.
///
/// `during` says what the caller was doing, with a leading space, or is empty.
pub fn live_resource(resources: &LiveActors, id: ResourceId, during: &str) -> (result: Result<
    (),
    AppError,
>)
    ensures
        result is Ok == resources@.contains(id.0),
        result matches Err(error) ==> error@ == (ErrorView::Internal {
            message: "resource actor "@ + hyphenated(id.0) + " disappeared"@ + during@,
        }),
{
    if resources.contains(id.0) {
        return Ok(());
    }
    let uuid = id.text();
    let head = join3("resource actor ", uuid.as_str(), " disappeared");
    Err(AppError::Internal { message: join2(head.as_str(), during) })
}

/// Make sure, once its actor was ensured, that a resource can be reconciled.
pub fn reconcile_resource_actor(resources: &LiveActors, id: ResourceId) -> (result: Result<
    (),
    AppError,
>)
    ensures
        result is Ok == resources@.contains(id.0),
        result matches Err(error) ==> error@ == (ErrorView::Internal {
            message: "resource actor "@ + hyphenated(id.0) + " disappeared"@
                + " during reconciliation"@,
        }),
{
    live_resource(resources, id, " during reconciliation")
}

/// Next part of registering one resource.
#[derive(Debug)]
pub enum RegisterStep {
    /// Make sure of the registered resource's actor, then answer with the resource.
    Ensure { resource: Resource, step: EnsureStep },
    Failed(AppError),
}

/// Make sure of the actor of a resource that the store registered or reused.
pub fn register_resource_actor(
    resources: &LiveActors,
    machine: MachineId,
    registered: Result<Resource, AppError>,
) -> (step: RegisterStep)
    ensures
        step == (match registered {
            Err(error) => RegisterStep::Failed(error),
            Ok(resource) => RegisterStep::Ensure {
                resource,
                step: if resources@.contains(resource.id.0) {
                    EnsureStep::Alive
                } else {
                    EnsureStep::AskSnapshots {
                        message: StoreMsg::ResourceSnapshotsForAuthority {
                            authority_machine: machine,
                        },
                        next: EnsureActor { id: resource.id },
                    }
                },
            },
        }),
{
    match registered {
        Err(error) => RegisterStep::Failed(error),
        Ok(resource) => {
            let step = ensure_resource_actor(resources, machine, resource.id);
            RegisterStep::Ensure { resource, step }
        },
    }
}

/// Whether a task's end is the exact release that a loan waits for.
pub open spec fn releases(snapshot: ResourceSnapshot, task: TaskId) -> bool {
    &&& snapshot.resource.registered_background_task == Some(task)
    &&& snapshot.loan matches Some(loan)
    &&& loan.state matches LoanState::Active { phase }
    &&& phase matches LoanPhase::AwaitingRelease { observed_background_task, .. }
    &&& observed_background_task == task
}

/// Resources that wait for the release by `task`, in order.
pub open spec fn released_resources(snapshots: Seq<ResourceSnapshot>, task: TaskId) -> Seq<
    ResourceId,
>
    decreases snapshots.len(),
{
    if snapshots.len() == 0 {
        Seq::empty()
    } else {
        let earlier = released_resources(snapshots.drop_last(), task);
        if releases(snapshots.last(), task) {
            earlier.push(snapshots.last().resource.id)
        } else {
            earlier
        }
    }
}

/// Next part of reconciling one ended task.
#[derive(Debug)]
pub enum TerminalStep {
    AskTask { message: StoreMsg, next: AwaitEndedTask },
    /// Tell every live resource actor that the task ended, then ask.
    AskSnapshots { ended: TaskId, message: StoreMsg, next: AwaitReleases },
    /// Reconcile these resources in order, stopping at the first failure.
    Reconcile { resources: Vec<ResourceId> },
    Done,
    Failed(AppError),
}

/// Waiting for the row of a task whose actor ended.
#[derive(Debug, Clone, Copy, PartialEq, Eq, Structural)]
pub struct AwaitEndedTask {
    pub task: TaskId,
    pub machine: MachineId,
}

/// Waiting for the snapshots that a task's end may release.
#[derive(Debug, Clone, Copy, PartialEq, Eq, Structural)]
pub struct AwaitReleases {
    pub task: TaskId,
}

/// Reconcile the resources of a task whose actor ended.
pub fn reconcile_terminal_task(machine: MachineId, task: TaskId) -> (step: TerminalStep)
    ensures
        step == (TerminalStep::AskTask {
            message: StoreMsg::GetTask { id: task },
            next: AwaitEndedTask { task, machine },
        }),
{
    TerminalStep::AskTask {
        message: StoreMsg::GetTask { id: task },
        next: AwaitEndedTask { task, machine },
    }
}

impl AwaitEndedTask {
    /// Only a task that ended for good concerns its resources.
    pub fn on_task(self, reply: Result<Option<TaskRow>, AppError>) -> (step: TerminalStep)
        ensures
            step == (match reply {
                Err(error) => TerminalStep::Failed(error),
                Ok(None) => TerminalStep::Done,
                Ok(Some(row)) => if row.status.terminal() {
                    TerminalStep::AskSnapshots {
                        ended: self.task,
                        message: StoreMsg::ResourceSnapshotsForAuthority {
                            authority_machine: self.machine,
                        },
                        next: AwaitReleases { task: self.task },
                    }
                } else {
                    TerminalStep::Done
                },
            }),
    {
        match reply {
            Err(error) => TerminalStep::Failed(error),
            Ok(None) => TerminalStep::Done,
            Ok(Some(row)) => {
                if !row.status.is_terminal() {
                    return TerminalStep::Done;
                }
                TerminalStep::AskSnapshots {
                    ended: self.task,
                    message: StoreMsg::ResourceSnapshotsForAuthority {
                        authority_machine: self.machine,
                    },
                    next: AwaitReleases { task: self.task },
                }
            },
        }
    }
}

fn is_exact_release(snapshot: &ResourceSnapshot, task: TaskId) -> (exact: bool)
    ensures
        exact == releases(*snapshot, task),
{
    let observed = match snapshot.loan {
        Some(loan) => match loan.state {
            LoanState::Active {
                phase: LoanPhase::AwaitingRelease { observed_background_task, .. },
            } => observed_background_task == task,
            _ => false,
        },
        None => false,
    };
    observed && snapshot.resource.registered_background_task == Some(task)
}

impl AwaitReleases {
    /// Reconcile each resource whose loan waits for exactly the named task.
    pub fn on_snapshots(self, reply: Result<Vec<ResourceSnapshot>, AppError>) -> (step:
        TerminalStep)
        ensures
            match reply {
                Err(error) => step == TerminalStep::Failed(error),
                Ok(snapshots) => step matches TerminalStep::Reconcile { resources } && resources@
                    == released_resources(snapshots@, self.task),
            },
    {
        let snapshots = match reply {
            Ok(snapshots) => snapshots,
            Err(error) => {
                return TerminalStep::Failed(error);
            },
        };
        let mut resources: Vec<ResourceId> = Vec::new();
        let mut index: usize = 0;
        while index < snapshots.len()
            invariant
                index <= snapshots.len(),
                resources@ == released_resources(snapshots@.take(index as int), self.task),
            decreases snapshots.len() - index,
        {
            proof {
                let next = snapshots@.take(index as int + 1);
                assert(next.drop_last() =~= snapshots@.take(index as int));
                assert(next.last() == snapshots@[index as int]);
            }
            if is_exact_release(&snapshots[index], self.task) {
                resources.push(snapshots[index].resource.id);
            }
            index += 1;
        }
        proof {
            assert(snapshots@.take(snapshots.len() as int) =~= snapshots@);
        }
        TerminalStep::Reconcile { resources }
    }
}

} // verus!
