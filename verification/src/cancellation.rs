//! Cancellation requests, their receipts, and who owns a task's cancellation.

use vstd::prelude::*;

use crate::domain::ProcessStatus;
use crate::error::{AppError, ErrorView};
use crate::ids::{CancellationId, MachineId, RequestId, ResourceId, TaskId};
use crate::submission::{BoundRoutePhase, ResourceRoutePhase, SubmissionState};

verus! {

/// Fixed identity of one cancellation at its executor.
#[derive(Debug, Clone, Copy, PartialEq, Eq, Structural)]
pub struct CancellationRequestIdentity {
    pub requester_machine: MachineId,
    pub cancellation: CancellationId,
    pub task: TaskId,
    pub origin_machine: MachineId,
    pub execution_machine: MachineId,
}

/// Application state of a cancellation at its executor.
#[derive(Debug, Clone, Copy, PartialEq, Eq, Structural)]
pub enum ExecutorCancelState {
    PendingApplication,
    Applied { status: ProcessStatus },
    AlreadyTerminal { status: ProcessStatus },
    /// The task was fenced before it was accepted.
    PreventedAcceptance,
}

/// An executor's receipt of one cancellation.
#[derive(Debug, Clone, Copy, PartialEq, Eq, Structural)]
pub struct CancellationReceipt {
    pub request: CancellationRequestIdentity,
    pub state: ExecutorCancelState,
}

/// Delivery of a caller-owned cancellation.
#[derive(Debug, Clone, Copy, PartialEq, Eq, Structural)]
pub enum CancellationDelivery {
    Pending,
    Delivered { result: ExecutorCancelState },
}

/// A caller-owned cancellation.
#[derive(Debug, Clone, Copy, PartialEq, Eq, Structural)]
pub struct CancellationRequest {
    pub requester_machine: MachineId,
    pub cancellation: CancellationId,
    pub task: TaskId,
    pub origin_machine: MachineId,
    pub execution_machine: MachineId,
    pub delivery: CancellationDelivery,
}

impl CancellationRequest {
    /// The part of this request that the executor stores.
    pub open spec fn spec_identity(self) -> CancellationRequestIdentity {
        CancellationRequestIdentity {
            requester_machine: self.requester_machine,
            cancellation: self.cancellation,
            task: self.task,
            origin_machine: self.origin_machine,
            execution_machine: self.execution_machine,
        }
    }

    /// The part of this request that the executor stores.
    #[verifier::when_used_as_spec(spec_identity)]
    pub fn identity(self) -> (identity: CancellationRequestIdentity)
        ensures
            identity == self.spec_identity(),
    {
        CancellationRequestIdentity {
            requester_machine: self.requester_machine,
            cancellation: self.cancellation,
            task: self.task,
            origin_machine: self.origin_machine,
            execution_machine: self.execution_machine,
        }
    }
}

/// Fixed identity of one resource cancellation at its authority.
#[derive(Debug, Clone, Copy, PartialEq, Eq, Structural)]
pub struct ResourceCancellationRequestIdentity {
    pub cancellation: CancellationId,
    pub request: RequestId,
    pub task: TaskId,
    pub resource: ResourceId,
    pub origin_machine: MachineId,
    pub authority_machine: MachineId,
}

/// An authority's receipt of one resource cancellation.
#[derive(Debug, Clone, Copy, PartialEq, Eq, Structural)]
pub struct ResourceCancellationReceipt {
    pub identity: ResourceCancellationRequestIdentity,
    /// Whether the request never started because of this cancellation.
    pub before_launch: bool,
}

/// The owners of an execution that can be cancelled.
#[derive(Debug, Clone, Copy, PartialEq, Eq, Structural)]
pub struct ExecutionCancellationTarget {
    pub origin_machine: MachineId,
    pub execution_machine: MachineId,
}

/// The full identity of a resource request that can be cancelled.
#[derive(Debug)]
pub struct ResourceCancellationTarget {
    pub request_id: RequestId,
    pub task_id: TaskId,
    pub resource_id: ResourceId,
    pub origin_machine: MachineId,
    pub authority_machine: MachineId,
    pub phase: ResourceRoutePhase,
}

/// Who a cancellation of one task must reach.
#[derive(Debug)]
pub enum CancellationOwner {
    Execution(ExecutionCancellationTarget),
    Resource(ResourceCancellationTarget),
}

/// The fields of an origin route that decide its cancellation owner.
#[derive(Debug)]
pub struct CancellationRoute<'a> {
    pub task: TaskId,
    pub request_id: RequestId,
    pub origin_machine: MachineId,
    pub execution_machine: MachineId,
    pub submission: &'a SubmissionState,
}

/// Why a route has no cancellation owner.
#[derive(Debug, Clone, Copy, PartialEq, Eq, Structural)]
pub enum CancellationRefusal {
    /// The route names other identities, or its launch is not settled.
    Conflict,
    /// The task was rejected and never started.
    NotStarted,
}

impl CancellationRefusal {
    /// The error for a cancellation of `task`.
    pub fn into_error(self, task: TaskId) -> (error: AppError)
        ensures
            error@ == (match self {
                CancellationRefusal::Conflict => ErrorView::ClusterTaskConflict { task },
                CancellationRefusal::NotStarted => ErrorView::TaskNotStarted { task },
            }),
    {
        match self {
            CancellationRefusal::Conflict => AppError::ClusterTaskConflict { task },
            CancellationRefusal::NotStarted => AppError::TaskNotStarted { task },
        }
    }
}

/// The owner that [`CancellationOwner::from_route`] finds.
pub open spec fn owner_of_route(
    task: TaskId,
    route_machine: MachineId,
    route: CancellationRoute,
) -> Result<CancellationOwner, CancellationRefusal> {
    let execution = CancellationOwner::Execution(
        ExecutionCancellationTarget {
            origin_machine: route.origin_machine,
            execution_machine: route.execution_machine,
        },
    );
    if route.task != task || route.origin_machine != route_machine {
        Err(CancellationRefusal::Conflict)
    } else {
        match *route.submission {
            SubmissionState::Rejected { .. } => Err(CancellationRefusal::NotStarted),
            SubmissionState::AcceptanceUnknown | SubmissionState::Accepted => Ok(execution),
            SubmissionState::Resource { resource, phase } => Ok(
                CancellationOwner::Resource(
                    ResourceCancellationTarget {
                        request_id: route.request_id,
                        task_id: route.task,
                        resource_id: resource,
                        origin_machine: route.origin_machine,
                        authority_machine: route.execution_machine,
                        phase,
                    },
                ),
            ),
            SubmissionState::ResourceAction { phase: BoundRoutePhase::Accepted, .. } => Ok(
                execution,
            ),
            SubmissionState::ResourceBackground { phase: BoundRoutePhase::Accepted, .. } => Ok(
                execution,
            ),
            // a cancellation must never fence a fixed launch identity before acceptance
            SubmissionState::ResourceAction { .. } | SubmissionState::ResourceBackground { .. } =>
                Err(CancellationRefusal::Conflict),
        }
    }
}

impl CancellationOwner {
    /// Who a cancellation of `task` must reach, from the route that `route_machine` holds.
    pub fn from_route(task: TaskId, route_machine: MachineId, route: CancellationRoute<'_>) -> (owner:
        Result<CancellationOwner, CancellationRefusal>)
        ensures
            owner == owner_of_route(task, route_machine, route),
    {
        if route.task != task || route.origin_machine != route_machine {
            return Err(CancellationRefusal::Conflict);
        }
        let execution = ExecutionCancellationTarget {
            origin_machine: route.origin_machine,
            execution_machine: route.execution_machine,
        };
        match route.submission {
            SubmissionState::Rejected { .. } => Err(CancellationRefusal::NotStarted),
            SubmissionState::AcceptanceUnknown | SubmissionState::Accepted => Ok(
                CancellationOwner::Execution(execution),
            ),
            SubmissionState::Resource { resource, phase } => Ok(
                CancellationOwner::Resource(
                    ResourceCancellationTarget {
                        request_id: route.request_id,
                        task_id: route.task,
                        resource_id: *resource,
                        origin_machine: route.origin_machine,
                        authority_machine: route.execution_machine,
                        phase: phase.clone(),
                    },
                ),
            ),
            SubmissionState::ResourceAction { phase: BoundRoutePhase::Accepted, .. } => Ok(
                CancellationOwner::Execution(execution),
            ),
            SubmissionState::ResourceBackground { phase: BoundRoutePhase::Accepted, .. } => Ok(
                CancellationOwner::Execution(execution),
            ),
            SubmissionState::ResourceAction { .. } | SubmissionState::ResourceBackground { .. } =>
                Err(CancellationRefusal::Conflict),
        }
    }

    /// The origin machine and the machine that owns the work.
    pub open spec fn spec_machines(self) -> (MachineId, MachineId) {
        match self {
            CancellationOwner::Execution(target) => (
                target.origin_machine,
                target.execution_machine,
            ),
            CancellationOwner::Resource(target) => (
                target.origin_machine,
                target.authority_machine,
            ),
        }
    }

    /// The origin machine and the machine that owns the work.
    pub fn machines(&self) -> (machines: (MachineId, MachineId))
        ensures
            machines == self.spec_machines(),
    {
        match self {
            CancellationOwner::Execution(target) => (
                target.origin_machine,
                target.execution_machine,
            ),
            CancellationOwner::Resource(target) => (
                target.origin_machine,
                target.authority_machine,
            ),
        }
    }
}

} // verus!
