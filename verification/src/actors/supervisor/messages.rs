//! Messages of the daemon's root and what each of them starts.

use vstd::prelude::*;

use crate::actors::resource::reconcile::ReleaseWatcherLaunch;
use crate::actors::resource::watcher::command_of;
use crate::actors::store::{ResourceTaskAcceptanceInput, StoreMsg};
use crate::actors::supervisor::launch::{
    launch, launch_remote, AwaitIdentity, AwaitLocalCodex, RemoteLaunch, RemoteLaunchStep,
};
use crate::actors::supervisor::resource_launch::{
    launch_assigned_resource_task, launch_background, launch_bound_release_watcher, AssignedLaunch,
    AwaitBackgroundCodex, AwaitWatcherSpec, BackgroundLaunch, ResourceActionRequest, ReturnClosure, ReturnDecision,
    ReturnDecisionError, WatcherLaunchStep,
};
use crate::actors::supervisor::{
    ensure_resource_actor, CodexLookup, EnsureActor, EnsureStep, LiveActors,
};
use crate::domain::{NormalizedSpec, TaskPlacement, TaskRow};
use crate::error::AppError;
use crate::ids::{MachineId, ResourceId, TaskId};
use crate::resource::{RemoteBackgroundLaunchReceipt, Resource, SupervisorActionAuthority};

verus! {

/// Messages sent to the daemon root supervisor.
#[derive(Debug)]
pub enum SupervisorMsg {
    /// The store, for reads outside the actors.
    GetStore,
    /// Register or reuse one resource on this machine and ensure its actor exists.
    RegisterResource { resource: Resource },
    /// Inspect the restored snapshot and identity of one resource actor.
    InspectResource { id: ResourceId },
    /// Wake one resource actor after queue acceptance or an authority-side retry.
    ReconcileResource { id: ResourceId },
    /// Accept one assigned request and launch only when this call inserts its task.
    LaunchAssignedResourceTask { input: ResourceTaskAcceptanceInput },
    /// Accept one authority-bound release watcher and spawn only when this call inserts it.
    LaunchBoundReleaseWatcher { launch: ReleaseWatcherLaunch },
    /// Apply one supervisor return decision and spawn only a newly inserted return task.
    DecideReturn { authority: SupervisorActionAuthority, decision: ReturnDecision },
    /// Apply one validated operation from a remote supervisor's machine.
    ResourceAction { request: ResourceActionRequest },
    /// Close a restoring loan after the supervisor resolves a return task that ended early.
    ResolveEndedRestore { authority: SupervisorActionAuthority, task_id: TaskId, reason: String },
    /// Bind one first background launch and spawn only a newly inserted task.
    LaunchBackground { launch: BackgroundLaunch },
    /// Bind one remote supervisor's first background launch and spawn only a new insertion.
    LaunchRemoteBackground { receipt: RemoteBackgroundLaunchReceipt, spec: NormalizedSpec },
    /// Persist a queued row, spawn its worker, and watch it.
    Launch { row: TaskRow, placement: TaskPlacement, spec: NormalizedSpec },
    /// Accept a remote task and launch only if this request won acceptance.
    LaunchRemote { request: RemoteLaunch },
    /// Cancel a task.
    Cancel { id: TaskId },
    /// Wake the ordered origin inbox worker after a receive commits.
    DispatchInbox { id: TaskId },
    /// Wake resource owners after an executor event for a remote origin is ready to send.
    RemoteOriginEvent { id: TaskId },
}

/// What one message starts.
#[derive(Debug)]
pub enum SupervisorStep {
    ReplyStore,
    /// Register in the store, then ensure the resource's actor.
    AskRegister { message: StoreMsg },
    /// Ask the live resource actor.
    Inspect { id: ResourceId },
    /// No actor, so nothing to inspect.
    ReplyNotFound,
    /// Ensure the actor, then have it reconcile.
    Reconcile { id: ResourceId, step: EnsureStep },
    AskAssigned { message: StoreMsg, next: AssignedLaunch },
    LaunchWatcher { step: WatcherLaunchStep },
    /// Decide with this executor's environment.
    Decide { authority: SupervisorActionAuthority, decision: ReturnDecision },
    /// Apply the operation with this executor's environment.
    Action { request: ResourceActionRequest },
    AskResolve { message: StoreMsg, next: AwaitResolved },
    LaunchBackground { lookup: CodexLookup<AwaitBackgroundCodex> },
    /// Ensure the actor, then launch with this executor's environment.
    EnsureBackground {
        step: EnsureStep,
        receipt: RemoteBackgroundLaunchReceipt,
        spec: NormalizedSpec,
    },
    Launch { lookup: CodexLookup<AwaitLocalCodex> },
    LaunchRemote { step: RemoteLaunchStep },
    AskCancel { message: StoreMsg },
    /// Tell every live resource actor of a task's progress, after the callback actor where
    /// `dispatch` says so.
    Progress { id: TaskId, dispatch: bool },
}

/// Waiting for the resolution of a return task that ended early.
#[derive(Debug, Clone, Copy, PartialEq, Eq, Structural)]
pub struct AwaitResolved {
    pub resource_id: ResourceId,
}

/// The first part of ensuring a resource's actor.
pub open spec fn ensured(resources: Set<u128>, machine: MachineId, id: ResourceId) -> EnsureStep {
    if resources.contains(id.0) {
        EnsureStep::Alive
    } else {
        EnsureStep::AskSnapshots {
            message: StoreMsg::ResourceSnapshotsForAuthority { authority_machine: machine },
            next: EnsureActor { id },
        }
    }
}

/// What one message starts.
pub open spec fn handled(
    resources: Set<u128>,
    machine: MachineId,
    message: SupervisorMsg,
) -> SupervisorStep {
    match message {
        SupervisorMsg::GetStore => SupervisorStep::ReplyStore,
        SupervisorMsg::RegisterResource { resource } => SupervisorStep::AskRegister {
            message: StoreMsg::RegisterResource { authority_machine: machine, resource },
        },
        SupervisorMsg::InspectResource { id } => if resources.contains(id.0) {
            SupervisorStep::Inspect { id }
        } else {
            SupervisorStep::ReplyNotFound
        },
        SupervisorMsg::ReconcileResource { id } => SupervisorStep::Reconcile {
            id,
            step: ensured(resources, machine, id),
        },
        SupervisorMsg::LaunchAssignedResourceTask { input } => SupervisorStep::AskAssigned {
            message: StoreMsg::AcceptAssignedResourceTask { input },
            next: AssignedLaunch { task_id: input.task_id, resource_id: input.resource_id },
        },
        SupervisorMsg::LaunchBoundReleaseWatcher { launch } => SupervisorStep::LaunchWatcher {
            step: WatcherLaunchStep::BuildSpec {
                command: command_of(launch.resource_id, launch.intent),
                executable: launch.executable,
                thread: launch.supervisor.thread,
                next: AwaitWatcherSpec { launch },
            },
        },
        SupervisorMsg::DecideReturn { authority, decision } => SupervisorStep::Decide {
            authority,
            decision,
        },
        SupervisorMsg::ResourceAction { request } => SupervisorStep::Action {
            request,
        },
        SupervisorMsg::ResolveEndedRestore { authority, task_id, reason } =>
            SupervisorStep::AskResolve {
                message: StoreMsg::ResolveEndedRestoreForAuthority { authority, task_id, reason },
                next: AwaitResolved { resource_id: authority.resource_id },
            },
        SupervisorMsg::LaunchBackground { launch } => SupervisorStep::LaunchBackground {
            lookup: CodexLookup {
                path: launch.env.path,
                cwd: launch.callback_cwd,
                next: AwaitBackgroundCodex { machine, launch },
            },
        },
        SupervisorMsg::LaunchRemoteBackground { receipt, spec } =>
            SupervisorStep::EnsureBackground {
                step: ensured(resources, machine, receipt.binding.assignment.resource_id),
                receipt,
                spec,
            },
        SupervisorMsg::Launch { row, placement, spec } => SupervisorStep::Launch {
            lookup: CodexLookup {
                path: placement.env.path,
                cwd: placement.cwd,
                next: AwaitLocalCodex { row, placement, spec, machine },
            },
        },
        SupervisorMsg::LaunchRemote { request } => SupervisorStep::LaunchRemote {
            step: RemoteLaunchStep::AskIdentity {
                message: StoreMsg::ExecutorIdentity { id: request.task },
                next: AwaitIdentity { request },
            },
        },
        SupervisorMsg::Cancel { id } => SupervisorStep::AskCancel {
            message: StoreMsg::RequestCancel { id },
        },
        SupervisorMsg::DispatchInbox { id } => SupervisorStep::Progress { id, dispatch: true },
        SupervisorMsg::RemoteOriginEvent { id } => SupervisorStep::Progress { id, dispatch: false },
    }
}

/// The daemon's root actor.
#[derive(Debug, Clone, Copy)]
pub struct SupervisorActor;

impl SupervisorActor {
    /// Start what one message asks for.
    pub fn handle(resources: &LiveActors, machine: MachineId, message: SupervisorMsg) -> (step:
        SupervisorStep)
        ensures
            step == handled(resources@, machine, message),
    {
        match message {
            SupervisorMsg::GetStore => SupervisorStep::ReplyStore,
            SupervisorMsg::RegisterResource { resource } => SupervisorStep::AskRegister {
                message: StoreMsg::RegisterResource { authority_machine: machine, resource },
            },
            SupervisorMsg::InspectResource { id } => {
                if resources.contains(id.0) {
                    SupervisorStep::Inspect { id }
                } else {
                    SupervisorStep::ReplyNotFound
                }
            },
            SupervisorMsg::ReconcileResource { id } => SupervisorStep::Reconcile {
                id,
                step: ensure_resource_actor(resources, machine, id),
            },
            SupervisorMsg::LaunchAssignedResourceTask { input } => {
                let (message, next) = launch_assigned_resource_task(input);
                SupervisorStep::AskAssigned { message, next }
            },
            SupervisorMsg::LaunchBoundReleaseWatcher { launch } => SupervisorStep::LaunchWatcher {
                step: launch_bound_release_watcher(launch),
            },
            SupervisorMsg::DecideReturn { authority, decision } => SupervisorStep::Decide {
                authority,
                decision,
            },
            SupervisorMsg::ResourceAction { request } => SupervisorStep::Action {
                request,
            },
            SupervisorMsg::ResolveEndedRestore { authority, task_id, reason } =>
                SupervisorStep::AskResolve {
                    message: StoreMsg::ResolveEndedRestoreForAuthority {
                        authority,
                        task_id,
                        reason,
                    },
                    next: AwaitResolved { resource_id: authority.resource_id },
                },
            SupervisorMsg::LaunchBackground { launch } => SupervisorStep::LaunchBackground {
                lookup: launch_background(machine, launch),
            },
            SupervisorMsg::LaunchRemoteBackground { receipt, spec } => {
                let id = receipt.binding.assignment.resource_id;
                SupervisorStep::EnsureBackground {
                    step: ensure_resource_actor(resources, machine, id),
                    receipt,
                    spec,
                }
            },
            SupervisorMsg::Launch { row, placement, spec } => SupervisorStep::Launch {
                lookup: launch(row, placement, spec, machine),
            },
            SupervisorMsg::LaunchRemote { request } => SupervisorStep::LaunchRemote {
                step: launch_remote(request),
            },
            SupervisorMsg::Cancel { id } => SupervisorStep::AskCancel {
                message: StoreMsg::RequestCancel { id },
            },
            // a delivered state event may confirm the start of a bound return task
            SupervisorMsg::DispatchInbox { id } => SupervisorStep::Progress { id, dispatch: true },
            SupervisorMsg::RemoteOriginEvent { id } => SupervisorStep::Progress {
                id,
                dispatch: false,
            },
        }
    }
}

impl AwaitResolved {
    /// The resource actor to wake: only after its loan closed.
    pub fn on_resolved(
        self,
        reply: &Result<Result<ReturnClosure, ReturnDecisionError>, AppError>,
    ) -> (wake: Option<ResourceId>)
        ensures
            wake == (match *reply {
                Ok(Ok(_)) => Some(self.resource_id),
                _ => None,
            }),
    {
        match reply {
            Ok(Ok(_)) => Some(self.resource_id),
            _ => None,
        }
    }
}

} // verus!
