//! Shared resources, their loans, and the requests that wait for them.

use std::sync::Arc;

use vstd::prelude::*;

use crate::domain::{share, ExitReason, NormalizedSpec, ProcessStatus, SpecDigest};
use crate::ids::{
    ActionId, DeliveryAttemptId, LoanId, MachineId, NoticeId, RequestId, ResourceId, TaskId,
    ThreadId,
};
use crate::submission::CallbackExecutable;
use crate::time::{Span, Timestamp};

verus! {

/// Counter of a resource's state changes.
#[derive(Debug, Clone, Copy, PartialEq, Eq, Structural)]
pub struct ResourceRevision(pub u64);

/// Counter of a resource's supervisor changes.
#[derive(Debug, Clone, Copy, PartialEq, Eq, Structural)]
pub struct AssignmentRevision(pub u64);

/// The thread that supervises a resource.
#[derive(Debug, Clone, Copy, PartialEq, Eq, Structural)]
pub struct SupervisorAddress {
    pub machine: MachineId,
    pub thread: ThreadId,
}

/// One resource as its authority stores it.
#[derive(Debug, Clone, Copy, PartialEq, Eq, Structural)]
pub struct Resource {
    pub id: ResourceId,
    pub authority_machine: MachineId,
    pub supervisor: SupervisorAddress,
    pub assignment_revision: AssignmentRevision,
    pub state_revision: ResourceRevision,
    pub registered_background_task: Option<TaskId>,
}

/// Saved identities of the one watcher of a release action.
#[derive(Debug, Clone, Copy, PartialEq, Eq, Structural)]
pub struct ReleaseWatcherIntent {
    pub action_id: ActionId,
    pub state_revision: ResourceRevision,
    pub observed_background_task: TaskId,
    pub watcher_task_id: TaskId,
    pub request_id: RequestId,
    pub normalized_spec_sha256: SpecDigest,
}

/// Phase of an active loan.
#[derive(Debug, Clone, Copy, PartialEq, Eq, Structural)]
pub enum LoanPhase {
    /// The background task must end before the resource is lent.
    AwaitingRelease {
        action_id: ActionId,
        observed_background_task: TaskId,
        watcher_intent: Option<ReleaseWatcherIntent>,
    },
    /// One request holds the resource.
    Serving { current_request_id: RequestId },
    /// The supervisor must decide how the resource goes back.
    AwaitingReturn { action_id: ActionId },
    /// The return task is being started or run.
    Restoring { action_id: ActionId, resume_task_id: TaskId },
}

/// State of a loan.
#[derive(Debug, Clone, Copy, PartialEq, Eq, Structural)]
pub enum LoanState {
    Active { phase: LoanPhase },
    NeedsAttention,
    Closed,
}

/// One loan of a resource.
#[derive(Debug, Clone, Copy, PartialEq, Eq, Structural)]
pub struct Loan {
    pub id: LoanId,
    pub state: LoanState,
}

/// A resource with its open loan.
#[derive(Debug, Clone, Copy, PartialEq, Eq, Structural)]
pub struct ResourceSnapshot {
    pub resource: Resource,
    pub loan: Option<Loan>,
}

/// State of a queued request.
#[derive(Debug)]
pub enum ResourceRequestState {
    Queued,
    Assigned { loan_id: LoanId },
    Finished { outcome: ExitReason },
    CancelledBeforeLaunch,
    Rejected { reason: String },
}

impl Clone for ResourceRequestState {
    fn clone(&self) -> (copy: ResourceRequestState)
        ensures
            copy == *self,
    {
        match self {
            ResourceRequestState::Queued => ResourceRequestState::Queued,
            ResourceRequestState::Assigned { loan_id } => ResourceRequestState::Assigned {
                loan_id: *loan_id,
            },
            ResourceRequestState::Finished { outcome } => ResourceRequestState::Finished {
                outcome: outcome.clone(),
            },
            ResourceRequestState::CancelledBeforeLaunch =>
                ResourceRequestState::CancelledBeforeLaunch,
            ResourceRequestState::Rejected { reason } => ResourceRequestState::Rejected {
                reason: reason.clone(),
            },
        }
    }
}

/// One accepted request for a resource.
#[derive(Debug)]
pub struct ResourceRequest {
    pub request_id: RequestId,
    pub task_id: TaskId,
    pub resource_id: ResourceId,
    /// Position in the authority's acceptance order.
    pub acceptance_sequence: u64,
    pub origin_machine: MachineId,
    pub state: ResourceRequestState,
    /// The command that the request asks for.
    pub spec: Arc<NormalizedSpec>,
    /// Digest of the request's normalized specification, or why it cannot be computed.
    pub spec_digest: Result<SpecDigest, String>,
}

impl Clone for ResourceRequest {
    fn clone(&self) -> (copy: ResourceRequest)
        ensures
            copy == *self,
    {
        ResourceRequest {
            request_id: self.request_id,
            task_id: self.task_id,
            resource_id: self.resource_id,
            acceptance_sequence: self.acceptance_sequence,
            origin_machine: self.origin_machine,
            state: self.state.clone(),
            spec: share(&self.spec),
            spec_digest: match &self.spec_digest {
                Ok(digest) => Ok(*digest),
                Err(error) => Err(error.clone()),
            },
        }
    }
}

/// A fixed action that a supervisor acts under.
#[derive(Debug, Clone, Copy, PartialEq, Eq, Structural)]
pub struct SupervisorActionAuthority {
    pub authority_machine: MachineId,
    pub resource_id: ResourceId,
    pub loan_id: LoanId,
    pub action_id: ActionId,
    pub expected_state_revision: ResourceRevision,
    pub assignment_revision: AssignmentRevision,
    pub supervisor: SupervisorAddress,
}

/// The saved window in which the supervisor may decide a return.
#[derive(Debug, Clone, Copy, PartialEq, Eq, Structural)]
pub struct ReturnDecisionWindow {
    pub action_id: ActionId,
    pub deadline_at: Timestamp,
}

impl ReturnDecisionWindow {
    /// Time left until the deadline, zero once it passed.
    pub fn remaining_at(self, now: Timestamp) -> (remaining: Span)
        ensures
            remaining.nanos == if self.deadline_at.total() > now.total() {
                self.deadline_at.total() - now.total()
            } else {
                0
            },
    {
        self.deadline_at.elapsed_since(now)
    }
}

/// A notice for the supervisor of a resource.
#[derive(Debug)]
pub struct SupervisorNoticeRequest {
    pub api_version: u32,
    pub protocol_version: u32,
    pub source_machine: MachineId,
    pub destination: SupervisorAddress,
    pub notice_id: NoticeId,
    pub loan_id: LoanId,
    pub action_id: ActionId,
    pub state_revision: ResourceRevision,
    pub assignment_revision: AssignmentRevision,
    pub attempt_id: DeliveryAttemptId,
    /// What the notice says, as JSON text.
    pub payload: String,
}

/// Proof that a supervisor notice reached its thread's queue.
#[derive(Debug, Clone, Copy, PartialEq, Eq, Structural)]
pub struct SupervisorNoticeReceipt {
    pub api_version: u32,
    pub protocol_version: u32,
    pub notice_id: NoticeId,
    pub attempt_id: DeliveryAttemptId,
    pub destination_machine: MachineId,
    pub destination_thread: ThreadId,
    pub delivered_at: Timestamp,
}

/// Supervisor assignment that a remote background launch was made under.
#[derive(Debug, Clone, Copy, PartialEq, Eq, Structural)]
pub struct BackgroundSupervisorAssignment {
    pub authority_machine: MachineId,
    pub resource_id: ResourceId,
    pub supervisor: SupervisorAddress,
    pub assignment_revision: AssignmentRevision,
}

/// What a remote background launch is bound to.
#[derive(Debug, Clone, Copy, PartialEq, Eq, Structural)]
pub struct BackgroundLaunchBinding {
    pub assignment: BackgroundSupervisorAssignment,
    pub expected_state_revision: ResourceRevision,
}

/// Exact identities that a supervisor machine saved before it sent a background launch.
#[derive(Debug, Clone, Copy, PartialEq, Eq, Structural)]
pub struct RemoteBackgroundLaunchReceipt {
    pub binding: BackgroundLaunchBinding,
    pub request_id: RequestId,
    pub task_id: TaskId,
    pub normalized_spec_sha256: SpecDigest,
}

/// A return task that a supervisor asks for.
#[derive(Debug)]
pub struct ReturnLaunch {
    pub request_id: RequestId,
    pub task_id: TaskId,
    /// What the task is for, as JSON text.
    pub work: String,
    /// The command that the work holds, where the supervisor gave one.
    pub supervisor_spec: Option<NormalizedSpec>,
}

/// Where the callback route of a return task is kept.
#[derive(Debug)]
pub enum ReturnTaskOrigin {
    Local { callback_codex: CallbackExecutable },
    /// The supervisor machine saved a route for this digest.
    Remote { normalized_spec_sha256: SpecDigest },
}

/// Fixed identity of a task that a supervisor action launches.
#[derive(Debug, Clone, Copy, PartialEq, Eq, Structural)]
pub struct ActionTaskIdentity {
    pub request_id: RequestId,
    pub task_id: TaskId,
    pub normalized_spec_sha256: SpecDigest,
}

/// Why a supervisor operation was refused for good.
#[derive(Debug)]
pub enum ResourceActionRejection {
    NotCurrentSupervisor,
    ActionNotPending,
    StaleRevision { expected: ResourceRevision, actual: ResourceRevision },
    SpecMismatch,
    ConflictingRetry,
    IdentityConflict,
    WatcherUnavailable { reason: String },
    RestoreNotResolvable { reason: String },
    DecisionRejected { reason: String },
}

/// A [`ResourceActionRejection`] with its texts as character sequences.
pub enum RejectionView {
    NotCurrentSupervisor,
    ActionNotPending,
    StaleRevision { expected: ResourceRevision, actual: ResourceRevision },
    SpecMismatch,
    ConflictingRetry,
    IdentityConflict,
    WatcherUnavailable { reason: Seq<char> },
    RestoreNotResolvable { reason: Seq<char> },
    DecisionRejected { reason: Seq<char> },
}

impl View for ResourceActionRejection {
    type V = RejectionView;

    open spec fn view(&self) -> RejectionView {
        match *self {
            ResourceActionRejection::NotCurrentSupervisor => RejectionView::NotCurrentSupervisor,
            ResourceActionRejection::ActionNotPending => RejectionView::ActionNotPending,
            ResourceActionRejection::StaleRevision { expected, actual } =>
                RejectionView::StaleRevision { expected, actual },
            ResourceActionRejection::SpecMismatch => RejectionView::SpecMismatch,
            ResourceActionRejection::ConflictingRetry => RejectionView::ConflictingRetry,
            ResourceActionRejection::IdentityConflict => RejectionView::IdentityConflict,
            ResourceActionRejection::WatcherUnavailable { reason } =>
                RejectionView::WatcherUnavailable { reason: reason@ },
            ResourceActionRejection::RestoreNotResolvable { reason } =>
                RejectionView::RestoreNotResolvable { reason: reason@ },
            ResourceActionRejection::DecisionRejected { reason } =>
                RejectionView::DecisionRejected { reason: reason@ },
        }
    }
}

/// Why a return task's loan needs attention.
#[derive(Debug, Clone, Copy, PartialEq, Eq, Structural)]
pub enum RestoreAttentionReason {
    ReconcileFailed,
    LaunchUncertain,
    /// The return task ended before its loan could close.
    EndedEarly { state: ProcessStatus },
    /// Nothing proves that the return task released the resource.
    ReleaseUnproven,
}

} // verus!
