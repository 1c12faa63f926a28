//! Origin routes and executor identities of submitted tasks.

use vstd::prelude::*;

use crate::domain::{NormalizedSpec, ProcessStatus, SpecContent, SpecDigest, TaskEnv};
use crate::ids::{ActionId, MachineId, RequestId, ResourceId, TaskId, ThreadId};
use crate::resource::{BackgroundLaunchBinding, ResourceRevision};
use crate::text::same_text;
use crate::time::Timestamp;

verus! {

/// Phase of an origin's resource request.
#[derive(Debug)]
pub enum ResourceRoutePhase {
    AcceptanceUnknown,
    Waiting,
    Activated,
    CancelledBeforeLaunch,
    Rejected { reason: String },
}

/// A [`ResourceRoutePhase`] with its text as a character sequence.
pub enum PhaseView {
    AcceptanceUnknown,
    Waiting,
    Activated,
    CancelledBeforeLaunch,
    Rejected { reason: Seq<char> },
}

impl View for ResourceRoutePhase {
    type V = PhaseView;

    open spec fn view(&self) -> PhaseView {
        match *self {
            ResourceRoutePhase::AcceptanceUnknown => PhaseView::AcceptanceUnknown,
            ResourceRoutePhase::Waiting => PhaseView::Waiting,
            ResourceRoutePhase::Activated => PhaseView::Activated,
            ResourceRoutePhase::CancelledBeforeLaunch => PhaseView::CancelledBeforeLaunch,
            ResourceRoutePhase::Rejected { reason } => PhaseView::Rejected { reason: reason@ },
        }
    }
}

impl ResourceRoutePhase {
    /// Whether two phases are the same.
    pub fn same(&self, other: &ResourceRoutePhase) -> (same: bool)
        ensures
            same == (self@ == other@),
    {
        match (self, other) {
            (
                ResourceRoutePhase::AcceptanceUnknown,
                ResourceRoutePhase::AcceptanceUnknown,
            ) => true,
            (ResourceRoutePhase::Waiting, ResourceRoutePhase::Waiting) => true,
            (ResourceRoutePhase::Activated, ResourceRoutePhase::Activated) => true,
            (
                ResourceRoutePhase::CancelledBeforeLaunch,
                ResourceRoutePhase::CancelledBeforeLaunch,
            ) => true,
            (
                ResourceRoutePhase::Rejected { reason: left },
                ResourceRoutePhase::Rejected { reason: right },
            ) => same_text(left.as_str(), right.as_str()),
            _ => false,
        }
    }
}

impl Clone for ResourceRoutePhase {
    fn clone(&self) -> (copy: ResourceRoutePhase)
        ensures
            copy == *self,
    {
        match self {
            ResourceRoutePhase::AcceptanceUnknown => ResourceRoutePhase::AcceptanceUnknown,
            ResourceRoutePhase::Waiting => ResourceRoutePhase::Waiting,
            ResourceRoutePhase::Activated => ResourceRoutePhase::Activated,
            ResourceRoutePhase::CancelledBeforeLaunch => ResourceRoutePhase::CancelledBeforeLaunch,
            ResourceRoutePhase::Rejected { reason } => ResourceRoutePhase::Rejected {
                reason: reason.clone(),
            },
        }
    }
}

/// What a resource action route is bound to.
#[derive(Debug, Clone, Copy, PartialEq, Eq, Structural)]
pub struct ActionRouteBinding {
    pub resource: ResourceId,
    pub action_id: ActionId,
    pub expected_state_revision: ResourceRevision,
}

/// Phase of a supervisor action or first background launch at its origin.
#[derive(Debug)]
pub enum BoundRoutePhase {
    AcceptanceUnknown,
    Accepted,
    Rejected { reason: String },
}

/// A [`BoundRoutePhase`] with its text as a character sequence.
pub enum BoundPhaseView {
    AcceptanceUnknown,
    Accepted,
    Rejected { reason: Seq<char> },
}

impl View for BoundRoutePhase {
    type V = BoundPhaseView;

    open spec fn view(&self) -> BoundPhaseView {
        match *self {
            BoundRoutePhase::AcceptanceUnknown => BoundPhaseView::AcceptanceUnknown,
            BoundRoutePhase::Accepted => BoundPhaseView::Accepted,
            BoundRoutePhase::Rejected { reason } => BoundPhaseView::Rejected { reason: reason@ },
        }
    }
}

impl BoundRoutePhase {
    /// Whether two phases are the same.
    pub fn same(&self, other: &BoundRoutePhase) -> (same: bool)
        ensures
            same == (self@ == other@),
    {
        match (self, other) {
            (BoundRoutePhase::AcceptanceUnknown, BoundRoutePhase::AcceptanceUnknown) => true,
            (BoundRoutePhase::Accepted, BoundRoutePhase::Accepted) => true,
            (
                BoundRoutePhase::Rejected { reason: left },
                BoundRoutePhase::Rejected { reason: right },
            ) => same_text(left.as_str(), right.as_str()),
            _ => false,
        }
    }
}

impl Clone for BoundRoutePhase {
    fn clone(&self) -> (copy: BoundRoutePhase)
        ensures
            copy == *self,
    {
        match self {
            BoundRoutePhase::AcceptanceUnknown => BoundRoutePhase::AcceptanceUnknown,
            BoundRoutePhase::Accepted => BoundRoutePhase::Accepted,
            BoundRoutePhase::Rejected { reason } => BoundRoutePhase::Rejected {
                reason: reason.clone(),
            },
        }
    }
}

/// What an origin knows of one submission.
#[derive(Debug)]
pub enum SubmissionState {
    AcceptanceUnknown,
    Accepted,
    Rejected { reason: String },
    /// A request that waits for a resource.
    Resource { resource: ResourceId, phase: ResourceRoutePhase },
    /// A task that a supervisor action launches.
    ResourceAction { binding: ActionRouteBinding, phase: BoundRoutePhase },
    /// A first background task of a resource.
    ResourceBackground { binding: BackgroundLaunchBinding, phase: BoundRoutePhase },
}

/// A [`SubmissionState`] with its texts as character sequences.
pub enum SubmissionView {
    AcceptanceUnknown,
    Accepted,
    Rejected { reason: Seq<char> },
    Resource { resource: ResourceId, phase: PhaseView },
    ResourceAction { binding: ActionRouteBinding, phase: BoundPhaseView },
    ResourceBackground { binding: BackgroundLaunchBinding, phase: BoundPhaseView },
}

impl View for SubmissionState {
    type V = SubmissionView;

    open spec fn view(&self) -> SubmissionView {
        match *self {
            SubmissionState::AcceptanceUnknown => SubmissionView::AcceptanceUnknown,
            SubmissionState::Accepted => SubmissionView::Accepted,
            SubmissionState::Rejected { reason } => SubmissionView::Rejected { reason: reason@ },
            SubmissionState::Resource { resource, phase } => SubmissionView::Resource {
                resource,
                phase: phase@,
            },
            SubmissionState::ResourceAction { binding, phase } => SubmissionView::ResourceAction {
                binding,
                phase: phase@,
            },
            SubmissionState::ResourceBackground { binding, phase } =>
                SubmissionView::ResourceBackground { binding, phase: phase@ },
        }
    }
}

impl SubmissionState {
    /// Whether two states are the same.
    pub fn same(&self, other: &SubmissionState) -> (same: bool)
        ensures
            same == (self@ == other@),
    {
        match (self, other) {
            (SubmissionState::AcceptanceUnknown, SubmissionState::AcceptanceUnknown) => true,
            (SubmissionState::Accepted, SubmissionState::Accepted) => true,
            (
                SubmissionState::Rejected { reason: left },
                SubmissionState::Rejected { reason: right },
            ) => same_text(left.as_str(), right.as_str()),
            (
                SubmissionState::Resource { resource: left, phase: left_phase },
                SubmissionState::Resource { resource: right, phase: right_phase },
            ) => *left == *right && left_phase.same(right_phase),
            (
                SubmissionState::ResourceAction { binding: left, phase: left_phase },
                SubmissionState::ResourceAction { binding: right, phase: right_phase },
            ) => *left == *right && left_phase.same(right_phase),
            (
                SubmissionState::ResourceBackground { binding: left, phase: left_phase },
                SubmissionState::ResourceBackground { binding: right, phase: right_phase },
            ) => *left == *right && left_phase.same(right_phase),
            _ => false,
        }
    }
}

impl Clone for SubmissionState {
    fn clone(&self) -> (copy: SubmissionState)
        ensures
            copy == *self,
    {
        match self {
            SubmissionState::AcceptanceUnknown => SubmissionState::AcceptanceUnknown,
            SubmissionState::Accepted => SubmissionState::Accepted,
            SubmissionState::Rejected { reason } => SubmissionState::Rejected {
                reason: reason.clone(),
            },
            SubmissionState::Resource { resource, phase } => SubmissionState::Resource {
                resource: *resource,
                phase: phase.clone(),
            },
            SubmissionState::ResourceAction { binding, phase } => SubmissionState::ResourceAction {
                binding: *binding,
                phase: phase.clone(),
            },
            SubmissionState::ResourceBackground { binding, phase } =>
                SubmissionState::ResourceBackground { binding: *binding, phase: phase.clone() },
        }
    }
}

/// The agent executable that callbacks run.
#[derive(Debug)]
pub enum CallbackExecutable {
    Available { path: String },
    Unavailable { reason: String },
}

impl CallbackExecutable {
    /// An executable that was found at `path`.
    pub fn available(path: String) -> (executable: CallbackExecutable)
        ensures
            executable == (CallbackExecutable::Available { path }),
    {
        CallbackExecutable::Available { path }
    }

    /// Path of the executable, when one was found.
    pub fn path(&self) -> (path: Option<&String>)
        ensures
            path == (match *self {
                CallbackExecutable::Available { path } => Some(&path),
                CallbackExecutable::Unavailable { .. } => None,
            }),
    {
        match self {
            CallbackExecutable::Available { path } => Some(path),
            CallbackExecutable::Unavailable { .. } => None,
        }
    }

    /// Why no executable was found, when none was.
    pub fn unavailable_reason(&self) -> (reason: Option<&String>)
        ensures
            reason == (match *self {
                CallbackExecutable::Available { .. } => None,
                CallbackExecutable::Unavailable { reason } => Some(&reason),
            }),
    {
        match self {
            CallbackExecutable::Available { .. } => None,
            CallbackExecutable::Unavailable { reason } => Some(reason),
        }
    }
}

/// Everything a callback needs at its origin.
#[derive(Debug)]
pub struct CallbackContext {
    pub env: TaskEnv,
    pub cwd: String,
    pub codex: CallbackExecutable,
}

/// The specification saved with a route or identity.
#[derive(Debug)]
pub enum SavedSpec {
    /// A specification in the current format.
    Current(NormalizedSpec),
    /// A task migrated from before specifications were saved.
    MigratedLocal,
}

/// The content of a saved specification.
pub open spec fn saved_content(spec: SavedSpec) -> Option<SpecContent> {
    match spec {
        SavedSpec::Current(spec) => Some(spec@),
        SavedSpec::MigratedLocal => None,
    }
}

impl SavedSpec {
    /// The specification in the current format, when there is one.
    pub fn current(&self) -> (spec: Option<&NormalizedSpec>)
        ensures
            spec == (match *self {
                SavedSpec::Current(spec) => Some(&spec),
                SavedSpec::MigratedLocal => None,
            }),
    {
        match self {
            SavedSpec::Current(spec) => Some(spec),
            SavedSpec::MigratedLocal => None,
        }
    }

    /// Whether two saved specifications have the same content.
    pub fn same(&self, other: &SavedSpec) -> (same: bool)
        ensures
            same == (saved_content(*self) == saved_content(*other)),
    {
        match (self, other) {
            (SavedSpec::Current(left), SavedSpec::Current(right)) => left.same(right),
            (SavedSpec::MigratedLocal, SavedSpec::MigratedLocal) => true,
            _ => false,
        }
    }
}

/// The origin's immutable route of one submission and what it learned since.
#[derive(Debug)]
pub struct OriginRoute {
    pub request: RequestId,
    pub task: TaskId,
    pub origin_machine: MachineId,
    pub execution_machine: MachineId,
    pub thread: ThreadId,
    pub callback: CallbackContext,
    pub spec: SavedSpec,
    pub submission: SubmissionState,
    pub last_execution_state: Option<ProcessStatus>,
    pub last_updated_at: Option<Timestamp>,
    pub last_accepted_seq: u64,
    pub last_settled_seq: u64,
}

/// An execution that its machine accepted.
#[derive(Debug)]
pub struct ExecutionRecord {
    pub task: TaskId,
    pub origin_machine: MachineId,
    pub execution_machine: MachineId,
    pub spec: SavedSpec,
    pub state: ProcessStatus,
}

/// A task identity that can never start on its machine.
#[derive(Debug)]
pub struct RejectionTombstone {
    pub task: TaskId,
    pub origin_machine: MachineId,
    pub execution_machine: MachineId,
    pub reason: String,
}

/// What an executor retains of one task identity.
#[derive(Debug)]
pub enum ExecutorIdentity {
    Accepted(ExecutionRecord),
    Rejected(RejectionTombstone),
}

/// Safe proof of an origin's resource route.
#[derive(Debug)]
pub struct ResourceRouteProof {
    pub request: RequestId,
    pub task: TaskId,
    pub origin_machine: MachineId,
    pub authority_machine: MachineId,
    pub resource: ResourceId,
    pub thread: ThreadId,
    pub normalized_spec_sha256: SpecDigest,
    pub phase: ResourceRoutePhase,
}

impl ResourceRouteProof {
    /// The proof that a route carries, for a route whose specification has this digest.
    pub open spec fn of_route(route: OriginRoute, digest: Option<SpecDigest>) -> Option<
        ResourceRouteProof,
    > {
        match (route.submission, digest) {
            (SubmissionState::Resource { resource, phase }, Some(digest)) => Some(
                ResourceRouteProof {
                    request: route.request,
                    task: route.task,
                    origin_machine: route.origin_machine,
                    authority_machine: route.execution_machine,
                    resource,
                    thread: route.thread,
                    normalized_spec_sha256: digest,
                    phase,
                },
            ),
            _ => None,
        }
    }

    /// The proof that a route carries, if it is a resource route.
    ///
    /// `digest` is that of the route's saved specification, when it has one.
    pub fn from_route(route: &OriginRoute, digest: Option<SpecDigest>) -> (shown: Option<
        ResourceRouteProof,
    >)
        ensures
            shown == ResourceRouteProof::of_route(*route, digest),
    {
        match (&route.submission, digest) {
            (SubmissionState::Resource { resource, phase }, Some(digest)) => Some(
                ResourceRouteProof {
                    request: route.request,
                    task: route.task,
                    origin_machine: route.origin_machine,
                    authority_machine: route.execution_machine,
                    resource: *resource,
                    thread: route.thread,
                    normalized_spec_sha256: digest,
                    phase: phase.clone(),
                },
            ),
            _ => None,
        }
    }
}

/// The authority's answer to one resource request.
#[derive(Debug)]
pub enum ResourceQueueOutcome {
    Waiting,
    Rejected { reason: String },
}

/// A [`ResourceQueueOutcome`] with its text as a character sequence.
pub enum QueueOutcomeView {
    Waiting,
    Rejected { reason: Seq<char> },
}

impl View for ResourceQueueOutcome {
    type V = QueueOutcomeView;

    open spec fn view(&self) -> QueueOutcomeView {
        match *self {
            ResourceQueueOutcome::Waiting => QueueOutcomeView::Waiting,
            ResourceQueueOutcome::Rejected { reason } => QueueOutcomeView::Rejected {
                reason: reason@,
            },
        }
    }
}

/// Receipt for one resource request.
#[derive(Debug)]
pub struct ResourceQueueReceipt {
    pub request: RequestId,
    pub task: TaskId,
    pub origin_machine: MachineId,
    pub authority_machine: MachineId,
    pub resource: ResourceId,
    pub outcome: ResourceQueueOutcome,
}

} // verus!
