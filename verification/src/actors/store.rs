//! Questions to the durable store and the errors their failures become.

use std::sync::Arc;

use vstd::prelude::*;

use crate::cancellation::{
    CancellationReceipt, CancellationRequest, CancellationRequestIdentity, ExecutorCancelState,
    ResourceCancellationReceipt, ResourceCancellationRequestIdentity,
};
use crate::domain::{
    ExitReason, NormalizedSpec, ProcessGroupExitEvidence, ProcessStatus, TaskEnv, TaskPlacement,
    TaskRow,
};
use crate::error::{internal, usage, AppError, ErrorView};
use crate::events::{DeliveryOutcome, EventPayload, TaskEvent};
use crate::ids::{
    ActionId, CancellationId, DeliveryAttemptId, LoanId, MachineId, MessageId, NoticeId, RequestId,
    ResourceId, TaskId, ThreadId,
};
use crate::message::{MessageAttempt, MessageReceipt, MessageSendRequest, Recipient};
use crate::resource::{
    ActionTaskIdentity, AssignmentRevision, ReleaseWatcherIntent, RemoteBackgroundLaunchReceipt,
    Resource, ResourceRevision, ReturnLaunch, ReturnTaskOrigin, SupervisorActionAuthority,
    SupervisorAddress,
};
use crate::submission::{
    CallbackContext, CallbackExecutable, OriginRoute, RejectionTombstone, ResourceQueueReceipt,
    ResourceRouteProof, SubmissionState,
};
use crate::text::join2;

verus! {

/// Why the store refused an identity question.
#[derive(Debug)]
pub enum IdentityError {
    Conflict,
    RouteNotFound,
    Storage(AppError),
}

/// Why the store refused an event question.
#[derive(Debug)]
pub enum EventError {
    RouteNotFound { task: TaskId },
    OwnerConflict { task: TaskId },
    ContentConflict { task: TaskId, seq: u64 },
    Invalid { message: String },
    Storage(AppError),
}

/// Why the store refused a resource question.
#[derive(Debug)]
pub enum ResourceStoreError {
    Conflict,
    LegacyWatcherIntentUnproven,
    /// Cancellation came before acceptance.
    Prevented,
    ResourceNotFound,
    WrongAuthority { expected: MachineId, found: MachineId },
    OriginRouteNotFound { task: TaskId },
    ExecutorAlreadyAccepted { task: TaskId },
    Identity(IdentityError),
    /// The command is not usable; the text says why.
    InvalidCommandSpec(String),
    TaskPreparation(AppError),
    TaskRow(AppError),
    Event(EventError),
    Storage(AppError),
}

/// Why a release loan could not be opened.
#[derive(Debug)]
pub enum OpenReleaseLoanError {
    Resource(ResourceStoreError),
    /// Any other refusal, as text.
    Refused(String),
}

/// Why a resource queue could not be reconciled.
#[derive(Debug)]
pub enum ResourceQueueReconcileError {
    Resource(ResourceStoreError),
    Release(OpenReleaseLoanError),
    Storage(AppError),
}

/// What [`identity_error`] makes of a refusal.
pub open spec fn identity_error_view(error: IdentityError) -> ErrorView {
    match error {
        IdentityError::Conflict => ErrorView::Usage { message: "executor identity conflict"@ },
        IdentityError::RouteNotFound => ErrorView::Internal {
            message: "executor identity disappeared"@,
        },
        IdentityError::Storage(error) => error@,
    }
}

/// The error of an identity question that names no task.
pub fn identity_error(error: IdentityError) -> (result: AppError)
    ensures
        result@ == identity_error_view(error),
        error matches IdentityError::Storage(cause) ==> result == cause,
{
    match error {
        IdentityError::Conflict => usage("executor identity conflict"),
        IdentityError::RouteNotFound => internal("executor identity disappeared"),
        IdentityError::Storage(error) => error,
    }
}

/// What [`event_error`] makes of a refusal.
pub open spec fn event_error_view(error: EventError) -> ErrorView {
    match error {
        EventError::RouteNotFound { task } => ErrorView::RouteNotFound { task },
        EventError::OwnerConflict { task } => ErrorView::ClusterTaskConflict { task },
        EventError::ContentConflict { task, seq } => ErrorView::EventContentConflict { task, seq },
        EventError::Invalid { message } => ErrorView::Usage { message: message@ },
        EventError::Storage(error) => error@,
    }
}

/// The error of an event question.
pub fn event_error(error: EventError) -> (result: AppError)
    ensures
        result@ == event_error_view(error),
        error matches EventError::Storage(cause) ==> result == cause,
{
    match error {
        EventError::RouteNotFound { task } => AppError::RouteNotFound { task },
        EventError::OwnerConflict { task } => AppError::ClusterTaskConflict { task },
        EventError::ContentConflict { task, seq } => AppError::EventContentConflict { task, seq },
        EventError::Invalid { message } => AppError::Usage { message },
        EventError::Storage(error) => error,
    }
}

/// A task conflict, or a usage error with `message` when no task is named.
pub open spec fn conflict_view(task: Option<TaskId>, message: Seq<char>) -> ErrorView {
    match task {
        Some(task) => ErrorView::ClusterTaskConflict { task },
        None => ErrorView::Usage { message },
    }
}

fn conflict_error(task: Option<TaskId>, message: &str) -> (result: AppError)
    ensures
        result@ == conflict_view(task, message@),
{
    match task {
        Some(task) => AppError::ClusterTaskConflict { task },
        None => usage(message),
    }
}

/// What [`resource_error`] makes of a refusal.
pub open spec fn resource_error_view(
    error: ResourceStoreError,
    task: Option<TaskId>,
    request: Option<RequestId>,
) -> ErrorView {
    match error {
        ResourceStoreError::Conflict => conflict_view(task, "resource identity conflict"@),
        ResourceStoreError::LegacyWatcherIntentUnproven => ErrorView::Usage {
            message: "legacy release watcher identity is unproven"@,
        },
        ResourceStoreError::Prevented => match (request, task) {
            (Some(request), Some(task)) => ErrorView::SubmissionRejected {
                request,
                task,
                reason: "cancelled_before_acceptance"@,
            },
            _ => ErrorView::Usage {
                message: "resource request was prevented before acceptance"@,
            },
        },
        ResourceStoreError::ResourceNotFound => ErrorView::Usage {
            message: "resource not found"@,
        },
        ResourceStoreError::WrongAuthority { expected, found } =>
            ErrorView::MachineIdentityMismatch { expected, found: Some(found) },
        ResourceStoreError::OriginRouteNotFound { task } => ErrorView::RouteNotFound { task },
        ResourceStoreError::ExecutorAlreadyAccepted { task } => ErrorView::ClusterTaskConflict {
            task,
        },
        ResourceStoreError::Identity(IdentityError::Conflict) => conflict_view(
            task,
            "resource executor identity conflict"@,
        ),
        ResourceStoreError::Identity(IdentityError::RouteNotFound) => ErrorView::Internal {
            message: "executor identity disappeared during resource cancellation"@,
        },
        ResourceStoreError::Identity(IdentityError::Storage(error)) => error@,
        ResourceStoreError::InvalidCommandSpec(message) => ErrorView::Usage { message: message@ },
        ResourceStoreError::TaskPreparation(error) => error@,
        ResourceStoreError::TaskRow(error) => error@,
        ResourceStoreError::Event(error) => event_error_view(error),
        ResourceStoreError::Storage(error) => error@,
    }
}

/// The error of a resource question about `task` and `request`, as far as it names them.
pub fn resource_error(
    error: ResourceStoreError,
    task: Option<TaskId>,
    request: Option<RequestId>,
) -> (result: AppError)
    ensures
        result@ == resource_error_view(error, task, request),
        error matches ResourceStoreError::Storage(cause) ==> result == cause,
{
    match error {
        ResourceStoreError::Conflict => conflict_error(task, "resource identity conflict"),
        ResourceStoreError::LegacyWatcherIntentUnproven => usage(
            "legacy release watcher identity is unproven",
        ),
        ResourceStoreError::Prevented => match (request, task) {
            (Some(request), Some(task)) => AppError::SubmissionRejected {
                request,
                task,
                reason: "cancelled_before_acceptance".to_owned(),
            },
            _ => usage("resource request was prevented before acceptance"),
        },
        ResourceStoreError::ResourceNotFound => usage("resource not found"),
        ResourceStoreError::WrongAuthority { expected, found } =>
            AppError::MachineIdentityMismatch { expected, found: Some(found) },
        ResourceStoreError::OriginRouteNotFound { task } => AppError::RouteNotFound { task },
        ResourceStoreError::ExecutorAlreadyAccepted { task } => AppError::ClusterTaskConflict {
            task,
        },
        ResourceStoreError::Identity(IdentityError::Conflict) => conflict_error(
            task,
            "resource executor identity conflict",
        ),
        ResourceStoreError::Identity(IdentityError::RouteNotFound) => internal(
            "executor identity disappeared during resource cancellation",
        ),
        ResourceStoreError::Identity(IdentityError::Storage(error)) => error,
        ResourceStoreError::InvalidCommandSpec(message) => AppError::Usage { message },
        ResourceStoreError::TaskPreparation(error) => error,
        ResourceStoreError::TaskRow(error) => error,
        ResourceStoreError::Event(error) => event_error(error),
        ResourceStoreError::Storage(error) => error,
    }
}

/// What [`resource_queue_reconcile_error`] makes of a refusal.
pub open spec fn queue_error_view(error: ResourceQueueReconcileError) -> ErrorView {
    match error {
        ResourceQueueReconcileError::Resource(error) => resource_error_view(error, None, None),
        ResourceQueueReconcileError::Release(OpenReleaseLoanError::Resource(error)) =>
            resource_error_view(error, None, None),
        ResourceQueueReconcileError::Release(OpenReleaseLoanError::Refused(reason)) =>
            ErrorView::Internal { message: "resource queue reconciliation failed: "@ + reason@ },
        ResourceQueueReconcileError::Storage(error) => error@,
    }
}

/// The error of a queue reconciliation.
pub fn resource_queue_reconcile_error(error: ResourceQueueReconcileError) -> (result: AppError)
    ensures
        result@ == queue_error_view(error),
        error matches ResourceQueueReconcileError::Storage(cause) ==> result == cause,
{
    match error {
        ResourceQueueReconcileError::Resource(error) => resource_error(error, None, None),
        ResourceQueueReconcileError::Release(OpenReleaseLoanError::Resource(error)) =>
            resource_error(error, None, None),
        ResourceQueueReconcileError::Release(OpenReleaseLoanError::Refused(reason)) =>
            AppError::Internal {
                message: join2("resource queue reconciliation failed: ", reason.as_str()),
            },
        ResourceQueueReconcileError::Storage(error) => error,
    }
}

/// Selection, task and revision of one assigned request.
#[derive(Debug, Clone, Copy, PartialEq, Eq, Structural)]
pub struct AssignedResourceTaskReconcileInput {
    pub authority_machine: MachineId,
    pub resource_id: ResourceId,
    pub loan_id: LoanId,
    pub request_id: RequestId,
    pub task_id: TaskId,
    pub expected_state_revision: ResourceRevision,
}

/// Selection, task, revision and command of one request to accept as a task.
#[derive(Debug)]
pub struct ResourceTaskAcceptanceInput {
    pub authority_machine: MachineId,
    pub resource_id: ResourceId,
    pub request_id: RequestId,
    pub task_id: TaskId,
    pub acceptance_sequence: u64,
    pub loan_id: LoanId,
    pub expected_state_revision: ResourceRevision,
    /// The request's own command.
    pub command_spec: Arc<NormalizedSpec>,
    /// This executor's environment.
    pub executor_env: TaskEnv,
}

/// One question to the store.
#[derive(Debug)]
pub enum StoreMsg {
    /// Migrate historical local rows before recovery begins.
    MigrateLegacyLocal { machine: MachineId },
    /// Register or reuse one resource on its fixed authority.
    RegisterResource { authority_machine: MachineId, resource: Resource },
    /// The authority's resources and open loans.
    ResourceSnapshotsForAuthority { authority_machine: MachineId },
    /// Bind verified trainer attempt evidence to a registered task.
    BindTrainerAttemptAssociationForAuthority {
        authority_machine: MachineId,
        resource_id: ResourceId,
        task_id: TaskId,
        /// Encoded request and held-lock evidence.
        verified_attempt: Vec<u8>,
    },
    /// Saved trainer attempt of one resource.
    TrainerAttemptAssociationForAuthority { authority_machine: MachineId, resource_id: ResourceId },
    /// Saved trainer attempt of one task.
    TrainerAttemptAssociationForTaskForAuthority { authority_machine: MachineId, task_id: TaskId },
    /// Accepted tasks of the authority's assignments.
    AcceptedResourceTasksForAuthority { authority_machine: MachineId },
    /// Accept a request and allocate its queue position.
    AcceptResourceRequest {
        authority_machine: MachineId,
        request_id: RequestId,
        task_id: TaskId,
        resource_id: ResourceId,
        origin_machine: MachineId,
        normalized_spec: NormalizedSpec,
    },
    /// Accept the request selected by a serving loan as a queued task.
    AcceptAssignedResourceTask { input: ResourceTaskAcceptanceInput },
    /// Reconcile one assigned task and advance only after its exit proof.
    AssignedResourceTaskReconcile { input: AssignedResourceTaskReconcileInput },
    /// All requests of one resource in acceptance order.
    ResourceRequests { authority_machine: MachineId, resource_id: ResourceId },
    /// The oldest queued request of one resource.
    OldestQueuedResourceRequest { authority_machine: MachineId, resource_id: ResourceId },
    /// Reconcile one resource queue.
    ReconcileResourceQueue { authority_machine: MachineId, resource_id: ResourceId },
    /// Fence cancellation before executor activation.
    CancelResourceRequestBeforeActivation {
        authority_machine: MachineId,
        request_id: RequestId,
        task_id: TaskId,
        resource_id: ResourceId,
        origin_machine: MachineId,
    },
    /// Saved receipt of one resource cancellation.
    ResourceCancellationReceipt { identity: ResourceCancellationRequestIdentity },
    /// Cancel a queued or assigned resource request and keep the result.
    CancelResourceRequestWithReceipt {
        authority_machine: MachineId,
        identity: ResourceCancellationRequestIdentity,
        proof: ResourceRouteProof,
    },
    /// Open or reuse a release loan.
    OpenReleaseLoanForAuthority {
        authority_machine: MachineId,
        resource_id: ResourceId,
        expected_state_revision: ResourceRevision,
    },
    /// Bind a preallocated watcher identity to the saved release action.
    BindReleaseWatcherForAuthority {
        authority_machine: MachineId,
        resource_id: ResourceId,
        intent: ReleaseWatcherIntent,
    },
    /// Capture the checkpoint baseline before the watcher is accepted.
    CaptureReleaseCheckpointBaselineForAuthority {
        authority_machine: MachineId,
        resource_id: ResourceId,
        action_id: ActionId,
        expected_state_revision: ResourceRevision,
    },
    /// Reserve a stop only after the exact checkpoint verifies.
    ReserveReleaseCheckpointStopForAuthority {
        authority_machine: MachineId,
        resource_id: ResourceId,
        action_id: ActionId,
        expected_state_revision: ResourceRevision,
    },
    /// Revalidate the one saved checkpoint.
    RevalidateReleaseCheckpointStopForAuthority {
        authority_machine: MachineId,
        resource_id: ResourceId,
        action_id: ActionId,
        expected_state_revision: ResourceRevision,
    },
    /// Commit cancellation for the exact reserved trainer task.
    CommitReleaseCheckpointCancellationForAuthority {
        authority_machine: MachineId,
        resource_id: ResourceId,
        action_id: ActionId,
        expected_state_revision: ResourceRevision,
        /// Encoded decision that the reservation returned.
        decision: Vec<u8>,
    },
    /// Persist the one co-located watcher acceptance.
    AcceptReleaseWatcherForAuthority {
        authority_machine: MachineId,
        resource_id: ResourceId,
        supervisor: SupervisorAddress,
        intent: ReleaseWatcherIntent,
        /// Canonical command of the watcher.
        spec: NormalizedSpec,
        env: TaskEnv,
        callback: CallbackContext,
        executable: String,
    },
    /// Validate one watcher poll and advance its saved stop decision.
    PollReleaseWatcherForAuthority {
        authority_machine: MachineId,
        request: crate::release_watcher_api::ReleaseWatcherPollRequest,
    },
    /// Complete a saved release action.
    CompleteReleaseForAuthority {
        authority_machine: MachineId,
        resource_id: ResourceId,
        action_id: ActionId,
        expected_state_revision: ResourceRevision,
    },
    /// Observe the bound return task of a restoring loan.
    ReconcileRestoringLoanForAuthority { authority_machine: MachineId, resource_id: ResourceId },
    /// Serve the next queued request once the return window closed.
    ServeAfterReturnDeadline { authority_machine: MachineId, resource_id: ResourceId },
    /// The pending first background launch of a resource.
    BackgroundLaunchForAuthority { authority_machine: MachineId, resource_id: ResourceId },
    /// Tasks that a restoring loan is bound to.
    RestoringTasksForAuthority { authority_machine: MachineId },
    /// Queued first background tasks.
    QueuedBackgroundLaunchTasksForAuthority { authority_machine: MachineId },
    /// Bound release watcher tasks.
    ReleaseWatcherTasksForAuthority { authority_machine: MachineId },
    /// Bind one fixed return task.
    AcceptReturnTaskForAuthority {
        authority: SupervisorActionAuthority,
        launch: ReturnLaunch,
        /// This executor's environment.
        executor_env: TaskEnv,
        origin: ReturnTaskOrigin,
    },
    /// Derive the canonical return task without binding it.
    PrepareReturnTaskForAuthority {
        authority: SupervisorActionAuthority,
        launch: ReturnLaunch,
        /// This executor's environment.
        executor_env: TaskEnv,
    },
    /// Close the loan without a return task.
    RecordNoResumeForAuthority { authority: SupervisorActionAuthority, reason: String },
    /// Move the return decision deadline.
    HoldReturnForAuthority { authority: SupervisorActionAuthority, hold_secs: u64 },
    /// Close a restoring loan whose return task ended early.
    ResolveEndedRestoreForAuthority {
        authority: SupervisorActionAuthority,
        task_id: TaskId,
        reason: String,
    },
    /// Bind one co-located first background launch.
    AcceptBackgroundLaunchForAuthority {
        authority_machine: MachineId,
        resource_id: ResourceId,
        request_id: RequestId,
        /// Task identity for a launch that no earlier request fixed.
        task_id: TaskId,
        spec: NormalizedSpec,
        env: TaskEnv,
        callback_codex: CallbackExecutable,
    },
    /// Bind one remote supervisor's first background launch.
    AcceptRemoteBackgroundLaunchForAuthority {
        receipt: RemoteBackgroundLaunchReceipt,
        spec: NormalizedSpec,
        /// This authority's executor environment.
        env: TaskEnv,
    },
    /// Accept a remote supervisor's bound watcher.
    AcceptRemoteReleaseWatcherForAuthority {
        authority: SupervisorActionAuthority,
        observed_background_task: TaskId,
        task: ActionTaskIdentity,
        /// The authority's own canonical command.
        spec: NormalizedSpec,
        /// This authority's executor environment.
        env: TaskEnv,
        executable: String,
    },
    /// One durable supervisor notice.
    SupervisorNotice { notice_id: NoticeId },
    /// Notices that can receive another delivery attempt.
    PendingSupervisorNotices,
    /// Reserve one exact notice delivery attempt.
    ReserveSupervisorNoticeAttempt { notice_id: NoticeId, attempt_id: DeliveryAttemptId },
    /// Settle one exact notice delivery attempt.
    SettleSupervisorNoticeAttempt {
        notice_id: NoticeId,
        attempt_id: DeliveryAttemptId,
        result: Result<(), String>,
    },
    /// Recover in-flight notices after restart.
    RecoverSendingSupervisorNotices,
    /// Retarget an undelivered notice.
    RetargetSupervisorNotice {
        notice_id: NoticeId,
        expected_assignment_revision: AssignmentRevision,
        destination: SupervisorAddress,
        new_assignment_revision: AssignmentRevision,
    },
    /// Save or reuse a caller-owned cancellation before delivery.
    InsertCancellationRequest { request: CancellationRequest },
    /// The retained caller-owned cancellation of one task.
    GetCancellationRequest { task: TaskId },
    /// Caller-owned cancellations left after restart.
    PendingCancellationRequests,
    /// Complete delivery after a validated executor receipt.
    AcknowledgeCancellation { receipt: CancellationReceipt },
    /// Settle one resource cancellation with its authority receipt.
    AcknowledgeResourceCancellation { receipt: ResourceCancellationReceipt },
    /// Store an executor receipt.
    ReceiveCancellation { request: CancellationRequestIdentity },
    /// Accepted cancellations left after executor restart.
    PendingExecutorCancellations,
    /// Retain an executor application result.
    FinishExecutorCancellation { cancellation: CancellationId, state: ExecutorCancelState },
    /// Reserve a message identity and compare its complete request.
    BeginOutboundMessage { request: MessageSendRequest },
    /// Fix the receiver and recipient of a reserved message.
    BindOutboundMessage {
        request: MessageSendRequest,
        destination_machine: MachineId,
        recipient: Recipient,
    },
    /// Saved attempt and receipt of one message.
    MessageDelivery { id: MessageId },
    /// Bind a message to immutable content and its destination.
    BindMessageAttempt { attempt: MessageAttempt },
    /// Commit a message receipt.
    CommitMessageReceipt { receipt: MessageReceipt },
    /// Tasks with events to send.
    PendingOutboundTasks,
    /// Compact one bounded batch of old event payloads.
    CompactOldEventPayloads,
    /// The earliest pending event of one task.
    FirstPendingOutbound { id: TaskId },
    /// The first retained event at or after one sequence.
    OutboundEventAtOrAfter { id: TaskId, seq: u64 },
    /// Append an event for a retained execution.
    AppendOutboundEvent {
        id: TaskId,
        origin: MachineId,
        execution: MachineId,
        payload: EventPayload,
    },
    /// Record the origin's receipt of one event.
    AcknowledgeOutbound { id: TaskId, seq: u64 },
    /// Stop sending after a verified missing route.
    OrphanOutboundRoute { id: TaskId },
    /// Transport state of one task's events.
    OutboundRouteStatus { id: TaskId },
    /// Tasks with callback work.
    PendingInboxTasks,
    /// Tasks whose callback waits for its thread.
    WaitingInboxTasks,
    /// The first event after the settled cursor.
    EarliestInbox { id: TaskId },
    /// Reserve one queue attempt for the earliest pending event.
    ReserveInboxAttempt { id: TaskId, seq: u64 },
    /// Record one attempt and advance the settled cursor.
    SettleInboxAttempt { id: TaskId, seq: u64, outcome: DeliveryOutcome },
    /// Retained callback failures.
    FailedInboxEvents { id: TaskId },
    /// The origin route of one task.
    OriginRoute { id: TaskId },
    /// The origin route of one retry identity.
    OriginRouteByRequest { request: RequestId },
    /// Unresolved routes after restart.
    UnknownOriginRoutes,
    /// Unresolved resource routes after restart.
    UnknownResourceOriginRoutes,
    /// Allocate a request and its route before any send.
    InsertOriginRoute { route: OriginRoute },
    /// Save a definitive executor result.
    ResolveOriginRoute { id: TaskId, outcome: SubmissionState },
    /// Apply a resource queue receipt to its route.
    ResolveResourceRoute { receipt: ResourceQueueReceipt },
    /// Cancel a resource route after the authority confirmed it.
    CancelResourceRouteBeforeLaunch { receipt: ResourceCancellationReceipt },
    /// Accept a sequenced event.
    AcceptInboundEvent { event: TaskEvent },
    /// The retained executor identity of one task.
    ExecutorIdentity { id: TaskId },
    /// Store a definitive rejection.
    RejectExecution { tombstone: RejectionTombstone },
    /// Abandon an identity before acceptance.
    AbandonExecution { id: TaskId, origin: MachineId, execution: MachineId },
    /// Insert a queued task.
    InsertTask { row: TaskRow },
    /// Insert a new local task with its ownership and first event.
    InsertLocalTask {
        row: TaskRow,
        placement: TaskPlacement,
        spec: NormalizedSpec,
        machine: MachineId,
        codex: CallbackExecutable,
    },
    /// Insert a remote identity, its task and first event.
    InsertRemoteTask {
        row: TaskRow,
        placement: TaskPlacement,
        spec: NormalizedSpec,
        origin: MachineId,
        execution: MachineId,
    },
    /// Whether a task has a durable event identity.
    IsEventTask { id: TaskId },
    /// One task.
    GetTask { id: TaskId },
    /// Exit witness of one task's process group.
    GetProcessGroupExitEvidence { id: TaskId },
    /// Tasks with optional filters.
    ListTasks { statuses: Vec<ProcessStatus>, thread: Option<ThreadId> },
    /// Dashboard metadata of some tasks.
    TaskPresentations { ids: Vec<TaskId> },
    /// Queued and running tasks.
    NonTerminal,
    /// Count of queued or running tasks.
    InFlightCount,
    /// Change a status if it still is `from`.
    CasStatus { id: TaskId, from: ProcessStatus, to: ProcessStatus },
    /// Finish a task if its status still is `from`.
    CasExit {
        id: TaskId,
        from: ProcessStatus,
        reason: ExitReason,
        evidence: ProcessGroupExitEvidence,
    },
    /// Record the worker pid.
    SetPid { id: TaskId, pid: i32 },
    /// Request cancel.
    RequestCancel { id: TaskId },
    /// Commit a task's inactivity event and claim together.
    ProduceAttentionEvent { id: TaskId },
    /// Release a legacy reminder claim.
    ReleaseAttention { id: TaskId },
    /// Reports of one task in order.
    Reports { id: TaskId },
}

/// A refusal of the store, by the layer that refused.
#[derive(Debug)]
pub enum StoreFailure {
    App(AppError),
    Identity(IdentityError),
    Resource(ResourceStoreError),
    Queue(ResourceQueueReconcileError),
    Event(EventError),
}

/// The identities that a question's error names.
#[derive(Debug, Clone, Copy, PartialEq, Eq, Structural)]
pub struct ErrorContext {
    /// Task of a resource question that has one.
    pub resource_task: Option<TaskId>,
    /// Request of a resource question that has one.
    pub resource_request: Option<RequestId>,
    /// Task whose owners an identity question may find in conflict.
    pub identity_task: Option<TaskId>,
}

impl StoreMsg {
    /// The identities that this question's error names.
    pub open spec fn context(self) -> ErrorContext {
        match self {
            StoreMsg::AcceptResourceRequest { task_id, request_id, .. } => resource_context(
                task_id,
                request_id,
            ),
            StoreMsg::CancelResourceRequestBeforeActivation { task_id, request_id, .. } =>
                resource_context(task_id, request_id),
            StoreMsg::ResourceCancellationReceipt { identity } => resource_context(
                identity.task,
                identity.request,
            ),
            StoreMsg::CancelResourceRequestWithReceipt { identity, .. } => resource_context(
                identity.task,
                identity.request,
            ),
            StoreMsg::ResolveResourceRoute { receipt } => identity_context(receipt.task),
            StoreMsg::CancelResourceRouteBeforeLaunch { receipt } => identity_context(
                receipt.identity.task,
            ),
            StoreMsg::RejectExecution { tombstone } => identity_context(tombstone.task),
            StoreMsg::AbandonExecution { id, .. } => identity_context(id),
            _ => ErrorContext { resource_task: None, resource_request: None, identity_task: None },
        }
    }

    /// The identities that this question's error names.
    pub fn error_context(&self) -> (context: ErrorContext)
        ensures
            context == self.context(),
    {
        match self {
            StoreMsg::AcceptResourceRequest { task_id, request_id, .. } => ErrorContext {
                resource_task: Some(*task_id),
                resource_request: Some(*request_id),
                identity_task: None,
            },
            StoreMsg::CancelResourceRequestBeforeActivation { task_id, request_id, .. } =>
                ErrorContext {
                    resource_task: Some(*task_id),
                    resource_request: Some(*request_id),
                    identity_task: None,
                },
            StoreMsg::ResourceCancellationReceipt { identity } => ErrorContext {
                resource_task: Some(identity.task),
                resource_request: Some(identity.request),
                identity_task: None,
            },
            StoreMsg::CancelResourceRequestWithReceipt { identity, .. } => ErrorContext {
                resource_task: Some(identity.task),
                resource_request: Some(identity.request),
                identity_task: None,
            },
            StoreMsg::ResolveResourceRoute { receipt } => ErrorContext {
                resource_task: None,
                resource_request: None,
                identity_task: Some(receipt.task),
            },
            StoreMsg::CancelResourceRouteBeforeLaunch { receipt } => ErrorContext {
                resource_task: None,
                resource_request: None,
                identity_task: Some(receipt.identity.task),
            },
            StoreMsg::RejectExecution { tombstone } => ErrorContext {
                resource_task: None,
                resource_request: None,
                identity_task: Some(tombstone.task),
            },
            StoreMsg::AbandonExecution { id, .. } => ErrorContext {
                resource_task: None,
                resource_request: None,
                identity_task: Some(*id),
            },
            _ => ErrorContext { resource_task: None, resource_request: None, identity_task: None },
        }
    }
}

/// The context of a resource question about one task and request.
pub open spec fn resource_context(task: TaskId, request: RequestId) -> ErrorContext {
    ErrorContext {
        resource_task: Some(task),
        resource_request: Some(request),
        identity_task: None,
    }
}

/// The context of an identity question about one task.
pub open spec fn identity_context(task: TaskId) -> ErrorContext {
    ErrorContext { resource_task: None, resource_request: None, identity_task: Some(task) }
}

/// What a refusal becomes for a question with this context.
pub open spec fn failure_view(context: ErrorContext, failure: StoreFailure) -> ErrorView {
    match failure {
        StoreFailure::App(error) => error@,
        StoreFailure::Identity(IdentityError::Conflict) => conflict_view(
            context.identity_task,
            "executor identity conflict"@,
        ),
        StoreFailure::Identity(error) => identity_error_view(error),
        StoreFailure::Resource(error) => resource_error_view(
            error,
            context.resource_task,
            context.resource_request,
        ),
        StoreFailure::Queue(error) => queue_error_view(error),
        StoreFailure::Event(error) => event_error_view(error),
    }
}

/// Owner of the daemon's one store connection.
#[derive(Debug, Clone, Copy)]
pub struct StoreActor;

impl StoreMsg {
    /// Whether the asker gets the store's refusal itself, inside a successful reply.
    pub open spec fn typed_refusal(self) -> bool {
        match self {
            StoreMsg::BindTrainerAttemptAssociationForAuthority { .. } => true,
            StoreMsg::TrainerAttemptAssociationForAuthority { .. } => true,
            StoreMsg::TrainerAttemptAssociationForTaskForAuthority { .. } => true,
            StoreMsg::AcceptAssignedResourceTask { .. } => true,
            StoreMsg::AssignedResourceTaskReconcile { .. } => true,
            StoreMsg::OpenReleaseLoanForAuthority { .. } => true,
            StoreMsg::BindReleaseWatcherForAuthority { .. } => true,
            StoreMsg::CaptureReleaseCheckpointBaselineForAuthority { .. } => true,
            StoreMsg::ReserveReleaseCheckpointStopForAuthority { .. } => true,
            StoreMsg::RevalidateReleaseCheckpointStopForAuthority { .. } => true,
            StoreMsg::CommitReleaseCheckpointCancellationForAuthority { .. } => true,
            StoreMsg::AcceptReleaseWatcherForAuthority { .. } => true,
            StoreMsg::PollReleaseWatcherForAuthority { .. } => true,
            StoreMsg::CompleteReleaseForAuthority { .. } => true,
            StoreMsg::ReconcileRestoringLoanForAuthority { .. } => true,
            StoreMsg::ServeAfterReturnDeadline { .. } => true,
            StoreMsg::AcceptReturnTaskForAuthority { .. } => true,
            StoreMsg::PrepareReturnTaskForAuthority { .. } => true,
            StoreMsg::RecordNoResumeForAuthority { .. } => true,
            StoreMsg::HoldReturnForAuthority { .. } => true,
            StoreMsg::ResolveEndedRestoreForAuthority { .. } => true,
            StoreMsg::AcceptBackgroundLaunchForAuthority { .. } => true,
            StoreMsg::AcceptRemoteBackgroundLaunchForAuthority { .. } => true,
            StoreMsg::AcceptRemoteReleaseWatcherForAuthority { .. } => true,
            StoreMsg::SupervisorNotice { .. } => true,
            StoreMsg::PendingSupervisorNotices => true,
            StoreMsg::ReserveSupervisorNoticeAttempt { .. } => true,
            StoreMsg::SettleSupervisorNoticeAttempt { .. } => true,
            StoreMsg::RecoverSendingSupervisorNotices => true,
            StoreMsg::RetargetSupervisorNotice { .. } => true,
            _ => false,
        }
    }

    /// Whether the asker gets the store's refusal itself, inside a successful reply.
    pub fn keeps_refusal_typed(&self) -> (typed: bool)
        ensures
            typed == self.typed_refusal(),
    {
        match self {
            StoreMsg::BindTrainerAttemptAssociationForAuthority { .. }
            | StoreMsg::TrainerAttemptAssociationForAuthority { .. }
            | StoreMsg::TrainerAttemptAssociationForTaskForAuthority { .. }
            | StoreMsg::AcceptAssignedResourceTask { .. }
            | StoreMsg::AssignedResourceTaskReconcile { .. }
            | StoreMsg::OpenReleaseLoanForAuthority { .. }
            | StoreMsg::BindReleaseWatcherForAuthority { .. }
            | StoreMsg::CaptureReleaseCheckpointBaselineForAuthority { .. }
            | StoreMsg::ReserveReleaseCheckpointStopForAuthority { .. }
            | StoreMsg::RevalidateReleaseCheckpointStopForAuthority { .. }
            | StoreMsg::CommitReleaseCheckpointCancellationForAuthority { .. }
            | StoreMsg::AcceptReleaseWatcherForAuthority { .. }
            | StoreMsg::PollReleaseWatcherForAuthority { .. }
            | StoreMsg::CompleteReleaseForAuthority { .. }
            | StoreMsg::ReconcileRestoringLoanForAuthority { .. }
            | StoreMsg::ServeAfterReturnDeadline { .. }
            | StoreMsg::AcceptReturnTaskForAuthority { .. }
            | StoreMsg::PrepareReturnTaskForAuthority { .. }
            | StoreMsg::RecordNoResumeForAuthority { .. }
            | StoreMsg::HoldReturnForAuthority { .. }
            | StoreMsg::ResolveEndedRestoreForAuthority { .. }
            | StoreMsg::AcceptBackgroundLaunchForAuthority { .. }
            | StoreMsg::AcceptRemoteBackgroundLaunchForAuthority { .. }
            | StoreMsg::AcceptRemoteReleaseWatcherForAuthority { .. }
            | StoreMsg::SupervisorNotice { .. }
            | StoreMsg::PendingSupervisorNotices
            | StoreMsg::ReserveSupervisorNoticeAttempt { .. }
            | StoreMsg::SettleSupervisorNoticeAttempt { .. }
            | StoreMsg::RecoverSendingSupervisorNotices
            | StoreMsg::RetargetSupervisorNotice { .. } => true,
            _ => false,
        }
    }
}

/// A store result as the asker of `message` gets it.
#[derive(Debug)]
pub enum StoreReply<T> {
    /// The answer, or the error that the refusal became.
    Plain(Result<T, AppError>),
    /// The answer, or the refusal itself.
    Typed(Result<T, StoreFailure>),
}

impl StoreActor {
    /// The error that answers `message` when the store refused it with `failure`.
    pub fn refusal(&self, message: &StoreMsg, failure: StoreFailure) -> (error: AppError)
        ensures
            error@ == failure_view(message.context(), failure),
    {
        let context = message.error_context();
        match failure {
            StoreFailure::App(error) => error,
            StoreFailure::Identity(IdentityError::Conflict) => conflict_error(
                context.identity_task,
                "executor identity conflict",
            ),
            StoreFailure::Identity(error) => identity_error(error),
            StoreFailure::Resource(error) => resource_error(
                error,
                context.resource_task,
                context.resource_request,
            ),
            StoreFailure::Queue(error) => resource_queue_reconcile_error(error),
            StoreFailure::Event(error) => event_error(error),
        }
    }

    /// Reply to `message` with what the store answered.
    ///
    /// A question that keeps refusals typed gets the store's result as it is;
    /// every other question gets the refusal as the error it becomes.
    pub fn handle<T>(&self, message: &StoreMsg, outcome: Result<T, StoreFailure>) -> (reply:
        StoreReply<T>)
        ensures
            message.typed_refusal() ==> reply == StoreReply::Typed(outcome),
            !message.typed_refusal() ==> match outcome {
                Ok(value) => reply == StoreReply::Plain(Ok::<T, AppError>(value)),
                Err(failure) => reply matches StoreReply::Plain(Err(error)) && error@
                    == failure_view(message.context(), failure),
            },
    {
        if message.keeps_refusal_typed() {
            return StoreReply::Typed(outcome);
        }
        match outcome {
            Ok(value) => StoreReply::Plain(Ok(value)),
            Err(failure) => StoreReply::Plain(Err(self.refusal(message, failure))),
        }
    }
}

/// The storage cause inside a refusal, when storage itself failed.
pub open spec fn storage_cause(failure: StoreFailure) -> Option<AppError> {
    match failure {
        StoreFailure::App(error) => Some(error),
        StoreFailure::Identity(IdentityError::Storage(error)) => Some(error),
        StoreFailure::Resource(ResourceStoreError::Storage(error)) => Some(error),
        StoreFailure::Resource(ResourceStoreError::Identity(IdentityError::Storage(error))) => Some(
            error,
        ),
        StoreFailure::Resource(ResourceStoreError::Event(EventError::Storage(error))) => Some(
            error,
        ),
        StoreFailure::Queue(ResourceQueueReconcileError::Storage(error)) => Some(error),
        StoreFailure::Event(EventError::Storage(error)) => Some(error),
        _ => None,
    }
}

/// A failure of storage itself is answered as it is, whatever was asked.
pub proof fn storage_failures_pass_through(message: StoreMsg, failure: StoreFailure)
    requires
        storage_cause(failure) is Some,
    ensures
        failure_view(message.context(), failure) == storage_cause(failure)->0@,
{
}

/// A question that names a task in an owner conflict answers with that task.
pub proof fn conflicts_name_their_task(task: TaskId, request: RequestId)
    ensures
        failure_view(
            resource_context(task, request),
            StoreFailure::Resource(ResourceStoreError::Conflict),
        ) == (ErrorView::ClusterTaskConflict { task }),
        failure_view(
            identity_context(task),
            StoreFailure::Identity(IdentityError::Conflict),
        ) == (ErrorView::ClusterTaskConflict { task }),
{
}

} // verus!
