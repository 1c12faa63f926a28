//! One actor per resource: it reconciles the queue that its machine owns.

use vstd::prelude::*;

use crate::actors::store::ResourceStoreError;
use crate::domain::ProcessStatus;
use crate::error::AppError;
use crate::ids::{
    hyphenated, parse_uuid, uuid_parsed, ActionId, LoanId, MachineId, RequestId, ResourceId, TaskId,
};
use crate::resource::{
    Loan, LoanPhase, LoanState, ResourceRequest, ResourceRequestState, ResourceSnapshot,
    RestoreAttentionReason,
};
use crate::text::{has_prefix, join2, strip_prefix};

pub mod messages;
pub mod reconcile;
pub mod watcher;

verus! {

/// Outcome of one supervisor request to bind and launch a first background task.
#[derive(Debug, Clone, Copy, PartialEq, Eq, Structural)]
pub enum BackgroundLaunchResult {
    /// The launch was inserted by this request, so it was the only spawn attempt.
    Inserted,
    /// An exact earlier launch existed and was only observed.
    Existing,
    /// Nothing was inserted, or a committed row may have no worker.
    NotInserted,
}

/// Outcome of asking the supervisor to accept one bound release watcher.
#[derive(Debug, Clone, Copy, PartialEq, Eq, Structural)]
pub enum ReleaseWatcherLaunchResult {
    /// The watcher row was inserted by this request, so it was the only spawn attempt.
    Inserted,
    /// An exact watcher acceptance already existed with this process state.
    Existing { state: ProcessStatus },
    /// The resource supervisor is not on the authority machine.
    UnsupportedRemoteSupervisor,
    /// The authority rejected the watcher identity or command.
    Rejected,
    /// The request may have committed, but its result was not definitive.
    Uncertain,
}

/// Outcome of the supervisor's one bind-and-launch request for a return task.
#[derive(Debug, Clone, Copy, PartialEq, Eq, Structural)]
pub enum RestoreLaunchResult {
    /// The request inserted the task, so its worker launch was the only spawn attempt.
    Inserted,
    /// An exact earlier binding existed, so the request only observed it.
    Existing { state: ProcessStatus },
    /// The request wrote no task records or its result was not definitive.
    NotInserted,
}

/// Launch and observation state of the bound watcher for one release action.
#[derive(Debug, Clone, Copy, PartialEq, Eq, Structural)]
pub enum ReleaseWatcherStatus {
    /// The watcher is bound, and the remote supervisor machine must launch it.
    AwaitingRemoteSupervisor {
        action_id: ActionId,
        watcher_task_id: TaskId,
        supervisor_machine: MachineId,
    },
    /// The one launch request is in flight or its task has not started.
    Launching { action_id: ActionId, watcher_task_id: TaskId },
    /// The watcher task is running.
    Running { action_id: ActionId, watcher_task_id: TaskId },
    /// The watcher finished its part; release proof remains with the resource owner.
    Finished { action_id: ActionId, watcher_task_id: TaskId },
    /// The loan stays reserved and the watcher needs attention.
    Attention { action_id: ActionId, reason: ReleaseWatcherAttentionReason },
}

/// Why a release action cannot use or trust its bound watcher.
#[derive(Debug, Clone, Copy, PartialEq, Eq, Structural)]
pub enum ReleaseWatcherAttentionReason {
    /// The resource supervisor runs on another machine, so no watcher task was written.
    RemoteSupervisorUnsupported { supervisor_machine: MachineId },
    /// The running trainer has no saved attempt association.
    TrainerAssociationMissing { task_id: TaskId },
    /// The daemon cannot name the executable for the canonical watcher command.
    ExecutableUnavailable,
    /// The authority rejected binding the watcher identity to the release action.
    BindingRejected,
    /// The authority could not capture the checkpoint baseline.
    BaselineUnavailable,
    /// The authority rejected the watcher acceptance or its canonical command.
    LaunchRejected { watcher_task_id: TaskId },
    /// The watcher task was accepted, but whether its worker started is unknown.
    LaunchUncertain { watcher_task_id: TaskId },
    /// The watcher task ended without finishing its part.
    WatcherTaskEnded { watcher_task_id: TaskId, state: ProcessStatus },
}

/// Outcome of asking the supervisor to accept one fixed resource task.
#[derive(Debug, Clone, Copy, PartialEq, Eq, Structural)]
pub enum ResourceTaskActivationResult {
    /// The task layer inserted the task for the first time.
    Inserted,
    /// An exact task acceptance already existed with this process state.
    Existing { state: ProcessStatus },
    /// Cancellation prevented task acceptance.
    Prevented,
    /// The request may have committed, but the supervisor result was not definitive.
    Uncertain,
}

/// Acceptance of an assigned request as a task.
#[derive(Debug, Clone, Copy, PartialEq, Eq, Structural)]
pub enum ResourceTaskAcceptance {
    Inserted { task: TaskId },
    Existing { task: TaskId, state: ProcessStatus },
}

/// Acceptance of a bound release watcher.
#[derive(Debug, Clone, Copy, PartialEq, Eq, Structural)]
pub enum ReleaseWatcherAcceptance {
    Inserted { task: TaskId },
    Existing { task: TaskId, state: ProcessStatus },
    UnsupportedRemoteSupervisor { supervisor_machine: MachineId },
}

/// Why the store refused a release watcher.
#[derive(Debug)]
pub enum ReleaseWatcherAcceptanceError {
    Conflict,
    Resource(ResourceStoreError),
    Identity(crate::actors::store::IdentityError),
    /// The checkpoint evidence does not allow a watcher; the text says why.
    Checkpoint(String),
    /// The watcher's task records could not be written.
    TaskRecords(AppError),
    Storage(AppError),
}

/// Why a release action could not be completed.
#[derive(Debug)]
pub enum CompleteReleaseError {
    BackgroundTaskNotTerminal,
    BackgroundTaskLost,
    WorkerExitUnconfirmed,
    CompletedResultChanged,
    CompletedResultRequestMismatch,
    Watcher(String),
    StoppedCheckpointChanged,
    OwnershipLockStillHeld,
    OwnershipLock(String),
    TrainerAssociationMissing,
    Resource(ResourceStoreError),
    Notice(String),
    TrainerAssociation(String),
    Identity(crate::actors::store::IdentityError),
    TaskStorage(AppError),
    CommandShape(String),
    ActionNotFound,
    NotAwaitingRelease,
    InvalidReleaseNotice,
    StaleRevision,
    BackgroundTaskMissing,
    TrainerAssociationMismatch,
    TrainerIdentityMissing,
    TrainerIdentityChanged,
    StoppedProofUnavailable,
    TrainerCancellationMarkerChanged,
    Checkpoint(String),
    TaskStateChanged,
    TaskCommandChanged,
    RevisionExhausted,
    ConflictingRetry,
    RequestChanged,
    LoanChanged,
    Storage(AppError),
}

/// Why the release of a background task is not proven.
#[derive(Debug, Clone, Copy, PartialEq, Eq, Structural)]
pub enum ReleaseProofAttentionReason {
    TrainerNotCompleted,
    TrainerLost,
    WorkerExitUnconfirmed,
    CompletedResultUnavailable,
    StoppedCheckpointUnavailable,
    OwnershipLockUnverified,
    /// No saved lock names the worker, so only an operator can resolve it.
    TrainerAssociationMissing,
    SavedEvidenceMismatch,
}

/// The attention reason of a release that the store would not complete.
pub open spec fn release_proof_reason(error: CompleteReleaseError) -> ReleaseProofAttentionReason {
    match error {
        CompleteReleaseError::BackgroundTaskNotTerminal =>
            ReleaseProofAttentionReason::TrainerNotCompleted,
        CompleteReleaseError::BackgroundTaskLost => ReleaseProofAttentionReason::TrainerLost,
        CompleteReleaseError::WorkerExitUnconfirmed =>
            ReleaseProofAttentionReason::WorkerExitUnconfirmed,
        CompleteReleaseError::CompletedResultChanged =>
            ReleaseProofAttentionReason::CompletedResultUnavailable,
        CompleteReleaseError::CompletedResultRequestMismatch =>
            ReleaseProofAttentionReason::CompletedResultUnavailable,
        CompleteReleaseError::Watcher(_) => ReleaseProofAttentionReason::CompletedResultUnavailable,
        CompleteReleaseError::StoppedCheckpointChanged =>
            ReleaseProofAttentionReason::StoppedCheckpointUnavailable,
        CompleteReleaseError::OwnershipLockStillHeld =>
            ReleaseProofAttentionReason::OwnershipLockUnverified,
        CompleteReleaseError::OwnershipLock(_) =>
            ReleaseProofAttentionReason::OwnershipLockUnverified,
        CompleteReleaseError::TrainerAssociationMissing =>
            ReleaseProofAttentionReason::TrainerAssociationMissing,
        _ => ReleaseProofAttentionReason::SavedEvidenceMismatch,
    }
}

/// The attention reason of a release that the store would not complete.
pub fn release_proof_attention_reason(error: CompleteReleaseError) -> (reason:
    ReleaseProofAttentionReason)
    ensures
        reason == release_proof_reason(error),
{
    match error {
        CompleteReleaseError::BackgroundTaskNotTerminal =>
            ReleaseProofAttentionReason::TrainerNotCompleted,
        CompleteReleaseError::BackgroundTaskLost => ReleaseProofAttentionReason::TrainerLost,
        CompleteReleaseError::WorkerExitUnconfirmed =>
            ReleaseProofAttentionReason::WorkerExitUnconfirmed,
        CompleteReleaseError::CompletedResultChanged
        | CompleteReleaseError::CompletedResultRequestMismatch
        | CompleteReleaseError::Watcher(
            _,
        ) => ReleaseProofAttentionReason::CompletedResultUnavailable,
        CompleteReleaseError::StoppedCheckpointChanged =>
            ReleaseProofAttentionReason::StoppedCheckpointUnavailable,
        CompleteReleaseError::OwnershipLockStillHeld | CompleteReleaseError::OwnershipLock(_) =>
            ReleaseProofAttentionReason::OwnershipLockUnverified,
        CompleteReleaseError::TrainerAssociationMissing =>
            ReleaseProofAttentionReason::TrainerAssociationMissing,
        CompleteReleaseError::Resource(_)
        | CompleteReleaseError::Notice(_)
        | CompleteReleaseError::TrainerAssociation(_)
        | CompleteReleaseError::Identity(_)
        | CompleteReleaseError::TaskStorage(_)
        | CompleteReleaseError::CommandShape(_)
        | CompleteReleaseError::ActionNotFound
        | CompleteReleaseError::NotAwaitingRelease
        | CompleteReleaseError::InvalidReleaseNotice
        | CompleteReleaseError::StaleRevision
        | CompleteReleaseError::BackgroundTaskMissing
        | CompleteReleaseError::TrainerAssociationMismatch
        | CompleteReleaseError::TrainerIdentityMissing
        | CompleteReleaseError::TrainerIdentityChanged
        | CompleteReleaseError::StoppedProofUnavailable
        | CompleteReleaseError::TrainerCancellationMarkerChanged
        | CompleteReleaseError::Checkpoint(_)
        | CompleteReleaseError::TaskStateChanged
        | CompleteReleaseError::TaskCommandChanged
        | CompleteReleaseError::RevisionExhausted
        | CompleteReleaseError::ConflictingRetry
        | CompleteReleaseError::RequestChanged
        | CompleteReleaseError::LoanChanged
        | CompleteReleaseError::Storage(_) => ReleaseProofAttentionReason::SavedEvidenceMismatch,
    }
}

/// Class of an unproven ownership of a resource's device.
#[derive(Debug, Clone, Copy, PartialEq, Eq, Structural)]
pub struct OwnershipRisk(pub u32);

/// Why the store would not advance an assigned task.
#[derive(Debug, Clone, Copy, PartialEq, Eq, Structural)]
pub enum AssignedResourceTaskAttention {
    RequestChanged,
    LoanChanged,
    TaskIdentityMismatch,
    StaleRevision,
    ServingReleaseUnverified,
    TaskLost,
    ExitWitnessUnconfirmed,
    InvalidNoChildSpawnEvidence,
    OwnershipUncertain(OwnershipRisk),
}

/// Why a resource queue needs attention.
#[derive(Debug, Clone, Copy, PartialEq, Eq, Structural)]
pub enum ResourceQueueAttentionReason {
    BackgroundTaskNotRunning { task_id: TaskId, state: ProcessStatus },
    AssignedTaskReconcileFailed { task_id: TaskId },
    AcceptedTaskLaunchUncertain { task_id: TaskId },
    AssignedTaskLaunchUncertain { task_id: TaskId },
    AssignedTaskIdentityMismatch { task_id: TaskId },
    AssignedTaskStaleRevision { task_id: TaskId },
    UnverifiedServingRelease,
    AssignedTaskLost { task_id: TaskId },
    AssignedTaskExitUnconfirmed { task_id: TaskId },
    AssignedTaskNoChildSpawnProofInvalid { task_id: TaskId },
    AssignedTaskOwnershipUncertain { task_id: TaskId, risk: OwnershipRisk },
}

/// The queue attention reason of an assigned task that the store would not advance.
pub open spec fn completion_reason(
    task_id: TaskId,
    attention: AssignedResourceTaskAttention,
) -> ResourceQueueAttentionReason {
    match attention {
        AssignedResourceTaskAttention::RequestChanged
        | AssignedResourceTaskAttention::LoanChanged
        | AssignedResourceTaskAttention::TaskIdentityMismatch =>
            ResourceQueueAttentionReason::AssignedTaskIdentityMismatch { task_id },
        AssignedResourceTaskAttention::StaleRevision =>
            ResourceQueueAttentionReason::AssignedTaskStaleRevision { task_id },
        AssignedResourceTaskAttention::ServingReleaseUnverified =>
            ResourceQueueAttentionReason::UnverifiedServingRelease,
        AssignedResourceTaskAttention::TaskLost => ResourceQueueAttentionReason::AssignedTaskLost {
            task_id,
        },
        AssignedResourceTaskAttention::ExitWitnessUnconfirmed =>
            ResourceQueueAttentionReason::AssignedTaskExitUnconfirmed { task_id },
        AssignedResourceTaskAttention::InvalidNoChildSpawnEvidence =>
            ResourceQueueAttentionReason::AssignedTaskNoChildSpawnProofInvalid { task_id },
        AssignedResourceTaskAttention::OwnershipUncertain(risk) =>
            ResourceQueueAttentionReason::AssignedTaskOwnershipUncertain { task_id, risk },
    }
}

/// The queue attention reason of an assigned task that the store would not advance.
pub fn task_completion_attention_reason(
    task_id: TaskId,
    attention: AssignedResourceTaskAttention,
) -> (reason: ResourceQueueAttentionReason)
    ensures
        reason == completion_reason(task_id, attention),
{
    match attention {
        AssignedResourceTaskAttention::RequestChanged
        | AssignedResourceTaskAttention::LoanChanged
        | AssignedResourceTaskAttention::TaskIdentityMismatch =>
            ResourceQueueAttentionReason::AssignedTaskIdentityMismatch { task_id },
        AssignedResourceTaskAttention::StaleRevision =>
            ResourceQueueAttentionReason::AssignedTaskStaleRevision { task_id },
        AssignedResourceTaskAttention::ServingReleaseUnverified =>
            ResourceQueueAttentionReason::UnverifiedServingRelease,
        AssignedResourceTaskAttention::TaskLost => ResourceQueueAttentionReason::AssignedTaskLost {
            task_id,
        },
        AssignedResourceTaskAttention::ExitWitnessUnconfirmed =>
            ResourceQueueAttentionReason::AssignedTaskExitUnconfirmed { task_id },
        AssignedResourceTaskAttention::InvalidNoChildSpawnEvidence =>
            ResourceQueueAttentionReason::AssignedTaskNoChildSpawnProofInvalid { task_id },
        AssignedResourceTaskAttention::OwnershipUncertain(risk) =>
            ResourceQueueAttentionReason::AssignedTaskOwnershipUncertain { task_id, risk },
    }
}

/// Result of one queue reconciliation.
#[derive(Debug)]
pub enum ResourceQueueReconcileOutcome {
    NoQueuedRequest,
    /// The loan keeps the resource as it should.
    LoanAlreadyActive { loan: Loan },
    AttentionRequired { request: ResourceRequest, reason: ResourceQueueAttentionReason },
    /// The awaited release is not proven, so the loan stays reserved.
    ReleaseProofUnavailable {
        loan: Loan,
        action_id: ActionId,
        task_id: TaskId,
        reason: ReleaseProofAttentionReason,
    },
    RestoreAttentionRequired {
        loan: Loan,
        action_id: ActionId,
        task_id: TaskId,
        reason: RestoreAttentionReason,
    },
    /// A queued first background launch may never start.
    BackgroundLaunchUncertain { task_id: TaskId },
    /// A first background launch ended without release proof.
    BackgroundLaunchReleaseUnproven { request_id: RequestId, task_id: TaskId },
}

impl Clone for ResourceQueueReconcileOutcome {
    fn clone(&self) -> (copy: ResourceQueueReconcileOutcome)
        ensures
            copy == *self,
    {
        match self {
            ResourceQueueReconcileOutcome::NoQueuedRequest =>
                ResourceQueueReconcileOutcome::NoQueuedRequest,
            ResourceQueueReconcileOutcome::LoanAlreadyActive { loan } =>
                ResourceQueueReconcileOutcome::LoanAlreadyActive { loan: *loan },
            ResourceQueueReconcileOutcome::AttentionRequired { request, reason } =>
                ResourceQueueReconcileOutcome::AttentionRequired {
                    request: request.clone(),
                    reason: *reason,
                },
            ResourceQueueReconcileOutcome::ReleaseProofUnavailable {
                loan,
                action_id,
                task_id,
                reason,
            } => ResourceQueueReconcileOutcome::ReleaseProofUnavailable {
                loan: *loan,
                action_id: *action_id,
                task_id: *task_id,
                reason: *reason,
            },
            ResourceQueueReconcileOutcome::RestoreAttentionRequired {
                loan,
                action_id,
                task_id,
                reason,
            } => ResourceQueueReconcileOutcome::RestoreAttentionRequired {
                loan: *loan,
                action_id: *action_id,
                task_id: *task_id,
                reason: *reason,
            },
            ResourceQueueReconcileOutcome::BackgroundLaunchUncertain { task_id } =>
                ResourceQueueReconcileOutcome::BackgroundLaunchUncertain { task_id: *task_id },
            ResourceQueueReconcileOutcome::BackgroundLaunchReleaseUnproven {
                request_id,
                task_id,
            } => ResourceQueueReconcileOutcome::BackgroundLaunchReleaseUnproven {
                request_id: *request_id,
                task_id: *task_id,
            },
        }
    }
}

/// Awaiting-release loan whose release proof the store refused.
#[derive(Debug, Clone, Copy, PartialEq, Eq, Structural)]
pub struct ReleaseProofFailure {
    pub loan: Loan,
    pub action_id: ActionId,
    pub trainer_task_id: TaskId,
    pub reason: ReleaseProofAttentionReason,
}

impl ReleaseProofFailure {
    /// The queue outcome of this failure.
    pub open spec fn outcome(self) -> ResourceQueueReconcileOutcome {
        ResourceQueueReconcileOutcome::ReleaseProofUnavailable {
            loan: self.loan,
            action_id: self.action_id,
            task_id: self.trainer_task_id,
            reason: self.reason,
        }
    }

    /// The queue outcome of this failure.
    pub fn into_outcome(self) -> (outcome: ResourceQueueReconcileOutcome)
        ensures
            outcome == self.outcome(),
    {
        ResourceQueueReconcileOutcome::ReleaseProofUnavailable {
            loan: self.loan,
            action_id: self.action_id,
            task_id: self.trainer_task_id,
            reason: self.reason,
        }
    }
}

// each phase launches through a different supervisor path and can outlive the
// others, so each keeps its own slot; a slot holds only this actor lifetime's
// request, so a queued row that this lifetime did not insert may have lost its
// spawn and is only observed, never respawned

/// Identity of one launch request.
pub trait LaunchKey: Sized + Copy {
    /// Whether two identities are the same.
    fn same(self, other: Self) -> (same: bool)
        ensures
            same == (self == other),
    ;
}

/// Return action and its fixed task.
#[derive(Debug, Clone, Copy, PartialEq, Eq, Structural)]
pub struct RestoreLaunchKey {
    pub action_id: ActionId,
    pub task_id: TaskId,
}

/// Release action and its watcher task.
#[derive(Debug, Clone, Copy, PartialEq, Eq, Structural)]
pub struct WatcherLaunchKey {
    pub action_id: ActionId,
    pub watcher_task_id: TaskId,
}

/// Assigned request and its task.
#[derive(Debug, Clone, Copy, PartialEq, Eq, Structural)]
pub struct ActivationKey {
    pub request_id: RequestId,
    pub task_id: TaskId,
}

impl LaunchKey for RequestId {
    fn same(self, other: Self) -> (same: bool) {
        self == other
    }
}

impl LaunchKey for RestoreLaunchKey {
    fn same(self, other: Self) -> (same: bool) {
        self == other
    }
}

impl LaunchKey for WatcherLaunchKey {
    fn same(self, other: Self) -> (same: bool) {
        self == other
    }
}

impl LaunchKey for ActivationKey {
    fn same(self, other: Self) -> (same: bool) {
        self == other
    }
}

/// Whether a launch request has replied, and with which result.
#[derive(Debug, Clone, Copy, PartialEq, Eq, Structural)]
pub enum LaunchProgress<R> {
    Pending,
    Finished(R),
}

/// One supervisor launch request made by this actor lifetime.
#[derive(Debug, Clone, Copy, PartialEq, Eq, Structural)]
pub struct LaunchAttempt<K, R> {
    pub key: K,
    pub progress: LaunchProgress<R>,
}

/// One launch request per first background request and actor lifetime.
pub type BackgroundLaunchAttempt = LaunchAttempt<RequestId, BackgroundLaunchResult>;

/// One launch request per return task and actor lifetime.
pub type RestoreLaunchAttempt = LaunchAttempt<RestoreLaunchKey, RestoreLaunchResult>;

/// One launch request per watcher identity and actor lifetime.
pub type WatcherLaunchAttempt = LaunchAttempt<WatcherLaunchKey, ReleaseWatcherLaunchResult>;

/// One launch request per assigned task and actor lifetime.
pub type ActivationAttempt = LaunchAttempt<ActivationKey, ResourceTaskActivationResult>;

impl<K: LaunchKey, R: Copy> LaunchAttempt<K, R> {
    /// A request that has not replied yet.
    pub fn pending(key: K) -> (attempt: Self)
        ensures
            attempt == (LaunchAttempt { key, progress: LaunchProgress::<R>::Pending }),
    {
        LaunchAttempt { key, progress: LaunchProgress::Pending }
    }

    /// Record the reply for this exact pending request.
    ///
    /// A reply for another identity, or a second reply, is stale and changes nothing.
    pub fn finish(&mut self, key: K, result: R) -> (recorded: bool)
        ensures
            recorded == (old(self).key == key && old(self).progress is Pending),
            *final(self) == if recorded {
                LaunchAttempt { key, progress: LaunchProgress::Finished(result) }
            } else {
                *old(self)
            },
    {
        if !self.key.same(key) || !matches!(self.progress, LaunchProgress::Pending) {
            return false;
        }
        self.progress = LaunchProgress::Finished(result);
        true
    }

    /// Whether this request is still in flight or inserted the launch itself.
    pub fn launching(&self, key: K, inserted: impl FnOnce(R) -> bool) -> (launching: bool)
        requires
            self.key == key ==> (self.progress matches LaunchProgress::Finished(result)
                ==> call_requires(inserted, (result,))),
        ensures
            self.key != key ==> !launching,
            self.key == key ==> match self.progress {
                LaunchProgress::Pending => launching,
                LaunchProgress::Finished(result) => call_ensures(inserted, (result,), launching),
            },
    {
        if !self.key.same(key) {
            return false;
        }
        match self.progress {
            LaunchProgress::Pending => true,
            LaunchProgress::Finished(result) => inserted(result),
        }
    }
}

/// The one reply a launch request takes is the first for its own identity: replaying any
/// reply on a finished request leaves it as it is.
pub proof fn finished_attempts_never_change<K, R>(
    before: LaunchAttempt<K, R>,
    first: R,
    second: R,
    after_first: LaunchAttempt<K, R>,
    after_second: LaunchAttempt<K, R>,
)
    requires
        after_first == attempt_after(before, before.key, first),
        after_second == attempt_after(after_first, before.key, second),
    ensures
        after_second == after_first,
        before.progress is Pending ==> after_first.progress == LaunchProgress::Finished(first),
{
}

/// A launch request after a reply for `key`.
pub open spec fn attempt_after<K, R>(
    attempt: LaunchAttempt<K, R>,
    key: K,
    result: R,
) -> LaunchAttempt<K, R> {
    if attempt.key == key && attempt.progress is Pending {
        LaunchAttempt { key, progress: LaunchProgress::Finished(result) }
    } else {
        attempt
    }
}

/// The loan that waits for a release, with the release action and the observed task.
pub open spec fn release_awaited(snapshot: ResourceSnapshot) -> Option<(Loan, ActionId, TaskId)> {
    match snapshot.loan {
        Some(loan) => match loan.state {
            LoanState::Active {
                phase: LoanPhase::AwaitingRelease { action_id, observed_background_task, .. },
            } => Some((loan, action_id, observed_background_task)),
            _ => None,
        },
        None => None,
    }
}

/// The loan that waits for a release, with the release action and the observed task.
pub fn awaiting_release(snapshot: &ResourceSnapshot) -> (awaited: Option<(Loan, ActionId, TaskId)>)
    ensures
        awaited == release_awaited(*snapshot),
{
    match snapshot.loan {
        Some(loan) => match loan.state {
            LoanState::Active {
                phase: LoanPhase::AwaitingRelease { action_id, observed_background_task, .. },
            } => Some((loan, action_id, observed_background_task)),
            _ => None,
        },
        None => None,
    }
}

/// The loan whose return task is bound, with the return action and that task.
pub open spec fn restoring_loan(snapshot: ResourceSnapshot) -> Option<(Loan, ActionId, TaskId)> {
    match snapshot.loan {
        Some(loan) => match loan.state {
            LoanState::Active { phase: LoanPhase::Restoring { action_id, resume_task_id } } => Some(
                (loan, action_id, resume_task_id),
            ),
            _ => None,
        },
        None => None,
    }
}

/// The loan whose return task is bound, with the return action and that task.
pub fn restoring(snapshot: &ResourceSnapshot) -> (found: Option<(Loan, ActionId, TaskId)>)
    ensures
        found == restoring_loan(*snapshot),
{
    match snapshot.loan {
        Some(loan) => match loan.state {
            LoanState::Active { phase: LoanPhase::Restoring { action_id, resume_task_id } } => Some(
                (loan, action_id, resume_task_id),
            ),
            _ => None,
        },
        None => None,
    }
}

/// The action whose return decision is still open.
pub open spec fn return_awaited(snapshot: ResourceSnapshot) -> Option<ActionId> {
    match snapshot.loan {
        Some(loan) => match loan.state {
            LoanState::Active { phase: LoanPhase::AwaitingReturn { action_id } } => Some(action_id),
            _ => None,
        },
        None => None,
    }
}

/// The action whose return decision is still open.
pub fn awaiting_return_action(snapshot: &ResourceSnapshot) -> (action: Option<ActionId>)
    ensures
        action == return_awaited(*snapshot),
{
    match snapshot.loan {
        Some(loan) => match loan.state {
            LoanState::Active { phase: LoanPhase::AwaitingReturn { action_id } } => Some(action_id),
            _ => None,
        },
        None => None,
    }
}

/// Whether `request` is the one that a loan serves under `request_id`.
pub open spec fn assigned_to(
    request: ResourceRequest,
    request_id: RequestId,
    loan_id: LoanId,
) -> bool {
    request.request_id == request_id && request.state == (ResourceRequestState::Assigned {
        loan_id,
    })
}

/// The request that a loan serves under `request_id`, searched in order.
pub open spec fn first_assigned(
    requests: Seq<ResourceRequest>,
    request_id: RequestId,
    loan_id: LoanId,
) -> Option<ResourceRequest>
    decreases requests.len(),
{
    if requests.len() == 0 {
        None
    } else if assigned_to(requests[0], request_id, loan_id) {
        Some(requests[0])
    } else {
        first_assigned(requests.drop_first(), request_id, loan_id)
    }
}

/// Index of the request that a loan serves under `request_id`.
fn find_assigned(requests: &Vec<ResourceRequest>, request_id: RequestId, loan_id: LoanId) -> (found:
    Option<usize>)
    ensures
        match found {
            Some(index) => index < requests.len() && first_assigned(
                requests@,
                request_id,
                loan_id,
            ) == Some(requests@[index as int]),
            None => first_assigned(requests@, request_id, loan_id) is None,
        },
{
    let mut index: usize = 0;
    proof {
        assert(requests@.skip(0) =~= requests@);
    }
    while index < requests.len()
        invariant
            index <= requests.len(),
            first_assigned(requests@, request_id, loan_id) == first_assigned(
                requests@.skip(index as int),
                request_id,
                loan_id,
            ),
        decreases requests.len() - index,
    {
        proof {
            assert(requests@.skip(index as int)[0] == requests@[index as int]);
            assert(requests@.skip(index as int).drop_first() =~= requests@.skip(index as int + 1));
        }
        let request = &requests[index];
        if request.request_id == request_id {
            if let ResourceRequestState::Assigned { loan_id: assigned } = &request.state {
                if *assigned == loan_id {
                    return Some(index);
                }
            }
        }
        index += 1;
    }
    None
}

/// The serving loan and the request assigned to it.
pub open spec fn serving_pair(
    snapshot: ResourceSnapshot,
    requests: Seq<ResourceRequest>,
) -> Option<(Loan, ResourceRequest)> {
    match snapshot.loan {
        Some(loan) => match loan.state {
            LoanState::Active { phase: LoanPhase::Serving { current_request_id } } => match
                first_assigned(requests, current_request_id, loan.id) {
                Some(request) => Some((loan, request)),
                None => None,
            },
            _ => None,
        },
        None => None,
    }
}

/// The serving loan and the request assigned to it.
pub fn serving_assignment(snapshot: &ResourceSnapshot, requests: &Vec<ResourceRequest>) -> (found:
    Option<(Loan, ResourceRequest)>)
    ensures
        found == serving_pair(*snapshot, requests@),
{
    match snapshot.loan {
        Some(loan) => match loan.state {
            LoanState::Active { phase: LoanPhase::Serving { current_request_id } } => match
                find_assigned(requests, current_request_id, loan.id) {
                Some(index) => Some((loan, requests[index].clone())),
                None => None,
            },
            _ => None,
        },
        None => None,
    }
}

/// Result reported to the resource actor for one assigned-task launch request.
pub open spec fn activation_of_reply(
    task_id: TaskId,
    reply: Result<Result<ResourceTaskAcceptance, ResourceStoreError>, AppError>,
) -> ResourceTaskActivationResult {
    match reply {
        Ok(Ok(ResourceTaskAcceptance::Inserted { task })) if task == task_id =>
            ResourceTaskActivationResult::Inserted,
        Ok(Ok(ResourceTaskAcceptance::Existing { task, state })) if task == task_id =>
            ResourceTaskActivationResult::Existing { state },
        Ok(Err(ResourceStoreError::Prevented)) => ResourceTaskActivationResult::Prevented,
        _ => ResourceTaskActivationResult::Uncertain,
    }
}

/// Result reported to the resource actor for one assigned-task launch request.
///
/// Anything but an answer for the exact task, or a prevented acceptance, is uncertain.
pub fn schedule_assigned_activation(
    task_id: TaskId,
    reply: Result<Result<ResourceTaskAcceptance, ResourceStoreError>, AppError>,
) -> (result: ResourceTaskActivationResult)
    ensures
        result == activation_of_reply(task_id, reply),
{
    match reply {
        Ok(Ok(ResourceTaskAcceptance::Inserted { task })) if task == task_id =>
            ResourceTaskActivationResult::Inserted,
        Ok(Ok(ResourceTaskAcceptance::Existing { task, state })) if task == task_id =>
            ResourceTaskActivationResult::Existing { state },
        Ok(Err(ResourceStoreError::Prevented)) => ResourceTaskActivationResult::Prevented,
        _ => ResourceTaskActivationResult::Uncertain,
    }
}

/// Result reported to the resource actor for one watcher launch request.
pub open spec fn watcher_launch_of_reply(
    watcher_task_id: TaskId,
    reply: Result<Result<ReleaseWatcherAcceptance, ReleaseWatcherAcceptanceError>, AppError>,
) -> ReleaseWatcherLaunchResult {
    match reply {
        Ok(Ok(ReleaseWatcherAcceptance::Inserted { task })) if task == watcher_task_id =>
            ReleaseWatcherLaunchResult::Inserted,
        Ok(Ok(ReleaseWatcherAcceptance::Existing { task, state })) if task == watcher_task_id =>
            ReleaseWatcherLaunchResult::Existing { state },
        Ok(Ok(ReleaseWatcherAcceptance::UnsupportedRemoteSupervisor { .. })) =>
            ReleaseWatcherLaunchResult::UnsupportedRemoteSupervisor,
        Ok(Err(ReleaseWatcherAcceptanceError::Conflict)) => ReleaseWatcherLaunchResult::Rejected,
        Ok(Err(ReleaseWatcherAcceptanceError::Resource(_))) => ReleaseWatcherLaunchResult::Rejected,
        Ok(Err(ReleaseWatcherAcceptanceError::Identity(_))) => ReleaseWatcherLaunchResult::Rejected,
        Ok(Err(ReleaseWatcherAcceptanceError::Checkpoint(_))) =>
            ReleaseWatcherLaunchResult::Rejected,
        _ => ReleaseWatcherLaunchResult::Uncertain,
    }
}

/// Result reported to the resource actor for one watcher launch request.
///
/// A refusal by the resource, the watcher's identity or its checkpoint is a rejection, and so is
/// a conflict; every other failure is uncertain.
pub fn schedule_release_watcher_launch(
    watcher_task_id: TaskId,
    reply: Result<Result<ReleaseWatcherAcceptance, ReleaseWatcherAcceptanceError>, AppError>,
) -> (result: ReleaseWatcherLaunchResult)
    ensures
        result == watcher_launch_of_reply(watcher_task_id, reply),
{
    match reply {
        Ok(Ok(ReleaseWatcherAcceptance::Inserted { task })) if task == watcher_task_id =>
            ReleaseWatcherLaunchResult::Inserted,
        Ok(Ok(ReleaseWatcherAcceptance::Existing { task, state })) if task == watcher_task_id =>
            ReleaseWatcherLaunchResult::Existing { state },
        Ok(Ok(ReleaseWatcherAcceptance::UnsupportedRemoteSupervisor { .. })) =>
            ReleaseWatcherLaunchResult::UnsupportedRemoteSupervisor,
        Ok(
            Err(
                ReleaseWatcherAcceptanceError::Conflict
                | ReleaseWatcherAcceptanceError::Resource(_)
                | ReleaseWatcherAcceptanceError::Identity(_)
                | ReleaseWatcherAcceptanceError::Checkpoint(_),
            ),
        ) => ReleaseWatcherLaunchResult::Rejected,
        _ => ReleaseWatcherLaunchResult::Uncertain,
    }
}

/// The resource that an actor name belongs to, if it is a resource actor's name.
pub open spec fn resource_of_name(name: Seq<char>) -> Option<ResourceId> {
    let prefix = "homebased.resource."@;
    if has_prefix(name, prefix) {
        match uuid_parsed(name.skip(prefix.len() as int)) {
            Some(uuid) => if uuid == 0 {
                None
            } else {
                Some(ResourceId(uuid))
            },
            None => None,
        }
    } else {
        None
    }
}

/// Stable actor name for one resource identity.
///
/// The name reads back as the same resource.
pub fn resource_actor_name(id: ResourceId) -> (name: String)
    ensures
        name@ == "homebased.resource."@ + hyphenated(id.0),
        id.0 != 0 ==> resource_of_name(name@) == Some(id),
{
    let uuid = id.text();
    let name = join2("homebased.resource.", uuid.as_str());
    proof {
        let prefix = "homebased.resource."@;
        assert(name@.take(prefix.len() as int) =~= prefix);
        assert(name@.skip(prefix.len() as int) =~= uuid@);
    }
    name
}

/// Parse one resource actor name into its stable resource identity.
pub fn resource_id_from_actor_name(name: Option<String>) -> (id: Option<ResourceId>)
    ensures
        id == (match name {
            Some(name) => resource_of_name(name@),
            None => None,
        }),
{
    let name = name?;
    let rest = strip_prefix(name.as_str(), "homebased.resource.")?;
    let uuid: u128 = parse_uuid(rest)?;
    match ResourceId::from_uuid(uuid) {
        Ok(id) => Some(id),
        Err(_) => None,
    }
}

} // verus!
