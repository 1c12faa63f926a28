//! The one watcher of a release action: binding, status, and remote preparation.

use vstd::prelude::*;

use crate::actors::resource::{
    awaiting_release, release_awaited, LaunchProgress, ReleaseWatcherAttentionReason,
    ReleaseWatcherLaunchResult, ReleaseWatcherStatus, WatcherLaunchAttempt, WatcherLaunchKey,
};
use crate::actors::store::StoreMsg;
use crate::domain::{NormalizedSpec, ProcessStatus, SpecDigest, TaskRow};
use crate::error::AppError;
use crate::ids::{
    hyphenated, uuid_text, ActionId, MachineId, RequestId, ResourceId, TaskId, ThreadId,
};
use crate::release_watcher_api::ReleaseWatcherCommand;
use crate::resource::{
    Loan, LoanPhase, LoanState, ReleaseWatcherIntent, Resource, ResourceActionRejection,
    ResourceSnapshot, SupervisorActionAuthority,
};
use crate::text::join3;

verus! {

/// Status of a watcher whose launch reply alone decides it.
pub open spec fn status_without_row(
    attempt: WatcherLaunchAttempt,
    supervisor_machine: MachineId,
) -> Option<ReleaseWatcherStatus> {
    let action_id = attempt.key.action_id;
    let watcher_task_id = attempt.key.watcher_task_id;
    match attempt.progress {
        LaunchProgress::Pending => Some(
            ReleaseWatcherStatus::Launching { action_id, watcher_task_id },
        ),
        LaunchProgress::Finished(ReleaseWatcherLaunchResult::UnsupportedRemoteSupervisor) => Some(
            ReleaseWatcherStatus::Attention {
                action_id,
                reason: ReleaseWatcherAttentionReason::RemoteSupervisorUnsupported {
                    supervisor_machine,
                },
            },
        ),
        LaunchProgress::Finished(ReleaseWatcherLaunchResult::Rejected) => Some(
            ReleaseWatcherStatus::Attention {
                action_id,
                reason: ReleaseWatcherAttentionReason::LaunchRejected { watcher_task_id },
            },
        ),
        _ => None,
    }
}

/// Status of a watcher from its durable task row.
///
/// A queued row is a launch in progress only when this actor's own request inserted it.
pub open spec fn status_of_row(
    key: WatcherLaunchKey,
    inserted: bool,
    row: Option<ProcessStatus>,
) -> ReleaseWatcherStatus {
    let action_id = key.action_id;
    let watcher_task_id = key.watcher_task_id;
    match row {
        Some(ProcessStatus::Running) => ReleaseWatcherStatus::Running {
            action_id,
            watcher_task_id,
        },
        Some(ProcessStatus::Succeeded) => ReleaseWatcherStatus::Finished {
            action_id,
            watcher_task_id,
        },
        Some(ProcessStatus::Queued) => if inserted {
            ReleaseWatcherStatus::Launching { action_id, watcher_task_id }
        } else {
            ReleaseWatcherStatus::Attention {
                action_id,
                reason: ReleaseWatcherAttentionReason::LaunchUncertain { watcher_task_id },
            }
        },
        Some(state) => ReleaseWatcherStatus::Attention {
            action_id,
            reason: ReleaseWatcherAttentionReason::WatcherTaskEnded { watcher_task_id, state },
        },
        None => ReleaseWatcherStatus::Attention {
            action_id,
            reason: ReleaseWatcherAttentionReason::LaunchUncertain { watcher_task_id },
        },
    }
}

/// A watcher status, or the row that is needed to tell it.
#[derive(Debug)]
pub enum WatcherStatusStep {
    Known(ReleaseWatcherStatus),
    Ask { message: StoreMsg, next: AwaitWatcherRow },
}

/// Waiting for a watcher's task row.
#[derive(Debug, Clone, Copy, PartialEq, Eq, Structural)]
pub struct AwaitWatcherRow {
    pub key: WatcherLaunchKey,
    /// Whether this actor's own request inserted the row.
    pub inserted: bool,
}

/// What [`watcher_status`] needs.
pub open spec fn status_step(
    attempt: WatcherLaunchAttempt,
    supervisor_machine: MachineId,
) -> WatcherStatusStep {
    match status_without_row(attempt, supervisor_machine) {
        Some(status) => WatcherStatusStep::Known(status),
        None => WatcherStatusStep::Ask {
            message: StoreMsg::GetTask { id: attempt.key.watcher_task_id },
            next: AwaitWatcherRow {
                key: attempt.key,
                inserted: attempt.progress == LaunchProgress::Finished(
                    ReleaseWatcherLaunchResult::Inserted,
                ),
            },
        },
    }
}

/// Derive the watcher status from the launch reply and, where it matters, the task row.
pub fn watcher_status(attempt: WatcherLaunchAttempt, supervisor_machine: MachineId) -> (step:
    WatcherStatusStep)
    ensures
        step == status_step(attempt, supervisor_machine),
{
    let action_id = attempt.key.action_id;
    let watcher_task_id = attempt.key.watcher_task_id;
    let inserted = match attempt.progress {
        LaunchProgress::Pending => {
            return WatcherStatusStep::Known(
                ReleaseWatcherStatus::Launching { action_id, watcher_task_id },
            );
        },
        LaunchProgress::Finished(result) => match result {
            ReleaseWatcherLaunchResult::UnsupportedRemoteSupervisor => {
                return WatcherStatusStep::Known(
                    ReleaseWatcherStatus::Attention {
                        action_id,
                        reason: ReleaseWatcherAttentionReason::RemoteSupervisorUnsupported {
                            supervisor_machine,
                        },
                    },
                );
            },
            ReleaseWatcherLaunchResult::Rejected => {
                return WatcherStatusStep::Known(
                    ReleaseWatcherStatus::Attention {
                        action_id,
                        reason: ReleaseWatcherAttentionReason::LaunchRejected { watcher_task_id },
                    },
                );
            },
            ReleaseWatcherLaunchResult::Inserted => true,
            ReleaseWatcherLaunchResult::Existing { .. } | ReleaseWatcherLaunchResult::Uncertain =>
                false,
        },
    };
    WatcherStatusStep::Ask {
        message: StoreMsg::GetTask { id: watcher_task_id },
        next: AwaitWatcherRow { key: attempt.key, inserted },
    }
}

/// The status of an optional task row.
pub open spec fn row_status(row: Option<TaskRow>) -> Option<ProcessStatus> {
    match row {
        Some(row) => Some(row.status),
        None => None,
    }
}

impl AwaitWatcherRow {
    /// The status once the row is known.
    pub fn on_row(self, row: Option<TaskRow>) -> (status: ReleaseWatcherStatus)
        ensures
            status == status_of_row(self.key, self.inserted, row_status(row)),
    {
        let action_id = self.key.action_id;
        let watcher_task_id = self.key.watcher_task_id;
        let row = match row {
            Some(row) => row,
            None => {
                return ReleaseWatcherStatus::Attention {
                    action_id,
                    reason: ReleaseWatcherAttentionReason::LaunchUncertain { watcher_task_id },
                };
            },
        };
        match row.status {
            ProcessStatus::Queued => if self.inserted {
                ReleaseWatcherStatus::Launching { action_id, watcher_task_id }
            } else {
                ReleaseWatcherStatus::Attention {
                    action_id,
                    reason: ReleaseWatcherAttentionReason::LaunchUncertain { watcher_task_id },
                }
            },
            ProcessStatus::Running => ReleaseWatcherStatus::Running { action_id, watcher_task_id },
            ProcessStatus::Succeeded => ReleaseWatcherStatus::Finished {
                action_id,
                watcher_task_id,
            },
            ProcessStatus::Failed | ProcessStatus::Cancelled | ProcessStatus::Lost =>
                ReleaseWatcherStatus::Attention {
                    action_id,
                    reason: ReleaseWatcherAttentionReason::WatcherTaskEnded {
                        watcher_task_id,
                        state: row.status,
                    },
                },
        }
    }
}

/// A queued watcher row counts as a launch in progress only for the request that inserted it:
/// any other finished request shows it as needing attention.
pub proof fn foreign_queued_watchers_need_attention(
    attempt: WatcherLaunchAttempt,
    supervisor_machine: MachineId,
)
    requires
        attempt.progress is Finished,
        attempt.progress != LaunchProgress::Finished(ReleaseWatcherLaunchResult::Inserted),
    ensures
        match status_step(attempt, supervisor_machine) {
            WatcherStatusStep::Known(status) => status is Attention,
            WatcherStatusStep::Ask { next, .. } => status_of_row(
                next.key,
                next.inserted,
                Some(ProcessStatus::Queued),
            ) is Attention,
        },
{
}

/// Result of binding and baselining the watcher for one release action.
#[derive(Debug)]
pub enum WatcherBinding {
    /// The trainer is not running, so no watcher is needed now.
    NotNeeded,
    /// The watcher cannot be bound, and the loan stays reserved.
    Attention(ReleaseWatcherAttentionReason),
    /// The saved watcher identity and a verified checkpoint baseline exist.
    Bound {
        intent: ReleaseWatcherIntent,
        /// Executable placed in the canonical watcher command.
        executable: String,
    },
}

/// What one binding is about.
#[derive(Debug, Clone, Copy, PartialEq, Eq, Structural)]
pub struct BindInput {
    pub authority_machine: MachineId,
    pub resource: Resource,
    pub loan: Loan,
    pub action_id: ActionId,
    pub trainer_task_id: TaskId,
}

/// Next part of one binding.
#[derive(Debug)]
pub enum BindStep {
    AskTrainer { message: StoreMsg, next: BindTrainer },
    AskAssociation { message: StoreMsg, next: BindAssociation },
    /// Find the executable of the canonical watcher command.
    FindExecutable { next: BindExecutable },
    /// Allocate the watcher and request identities and digest the canonical command.
    Allocate { next: BindAllocation },
    AskBind { message: StoreMsg, next: BindBound },
    AskBaseline { message: StoreMsg, next: BindBaseline },
    Done(WatcherBinding),
    Failed(AppError),
}

/// Waiting for the trainer's task row.
#[derive(Debug, Clone, Copy, PartialEq, Eq, Structural)]
pub struct BindTrainer {
    pub input: BindInput,
}

/// Waiting for the trainer's saved attempt.
#[derive(Debug, Clone, Copy, PartialEq, Eq, Structural)]
pub struct BindAssociation {
    pub input: BindInput,
}

/// Waiting for the watcher executable.
#[derive(Debug, Clone, Copy, PartialEq, Eq, Structural)]
pub struct BindExecutable {
    pub input: BindInput,
}

/// Waiting for fresh identities.
#[derive(Debug)]
pub struct BindAllocation {
    pub input: BindInput,
    pub executable: String,
}

/// Waiting for the store to bind the identities.
#[derive(Debug)]
pub struct BindBound {
    pub input: BindInput,
    pub executable: String,
}

/// Waiting for the checkpoint baseline.
#[derive(Debug)]
pub struct BindBaseline {
    pub intent: ReleaseWatcherIntent,
    pub executable: String,
}

/// Newly allocated identities of a watcher.
#[derive(Debug, Clone, Copy, PartialEq, Eq, Structural)]
pub struct FreshWatcher {
    pub watcher_task_id: TaskId,
    pub request_id: RequestId,
    /// Digest of the canonical command, when it can be built.
    pub normalized_spec_sha256: Option<SpecDigest>,
}

/// The question about the trainer that every binding starts with.
pub open spec fn bind_start(input: BindInput) -> BindStep {
    BindStep::AskTrainer {
        message: StoreMsg::GetTask { id: input.trainer_task_id },
        next: BindTrainer { input },
    }
}

/// The question about the checkpoint baseline of a bound watcher.
pub open spec fn baseline_question(
    input: BindInput,
    intent: ReleaseWatcherIntent,
    executable: String,
) -> BindStep {
    BindStep::AskBaseline {
        message: StoreMsg::CaptureReleaseCheckpointBaselineForAuthority {
            authority_machine: input.authority_machine,
            resource_id: input.resource.id,
            action_id: input.action_id,
            expected_state_revision: intent.state_revision,
        },
        next: BindBaseline { intent, executable },
    }
}

/// What a found executable leads to.
pub open spec fn executable_step(input: BindInput, executable: String) -> BindStep {
    match input.loan.state {
        LoanState::Active { phase: LoanPhase::AwaitingRelease { watcher_intent, .. } } => match
            watcher_intent {
            Some(intent) => baseline_question(input, intent, executable),
            None => BindStep::Allocate { next: BindAllocation { input, executable } },
        },
        _ => BindStep::Done(WatcherBinding::NotNeeded),
    }
}

/// The command that a saved intent stands for.
pub open spec fn command_of(resource_id: ResourceId, intent: ReleaseWatcherIntent) ->
    ReleaseWatcherCommand {
    ReleaseWatcherCommand {
        resource_id,
        action_id: intent.action_id,
        state_revision: intent.state_revision,
        trainer_task_id: intent.observed_background_task,
        watcher_task_id: intent.watcher_task_id,
    }
}

/// The canonical command of a saved watcher.
pub fn bound_command(resource_id: ResourceId, intent: &ReleaseWatcherIntent) -> (command:
    ReleaseWatcherCommand)
    ensures
        command == command_of(resource_id, *intent),
{
    ReleaseWatcherCommand {
        resource_id,
        action_id: intent.action_id,
        state_revision: intent.state_revision,
        trainer_task_id: intent.observed_background_task,
        watcher_task_id: intent.watcher_task_id,
    }
}

/// The identities that a fresh watcher is bound with.
pub open spec fn fresh_intent(
    input: BindInput,
    fresh: FreshWatcher,
    digest: SpecDigest,
) -> ReleaseWatcherIntent {
    ReleaseWatcherIntent {
        action_id: input.action_id,
        state_revision: input.resource.state_revision,
        observed_background_task: input.trainer_task_id,
        watcher_task_id: fresh.watcher_task_id,
        request_id: fresh.request_id,
        normalized_spec_sha256: digest,
    }
}

/// Bind the watcher identity to the release action and capture its checkpoint baseline.
///
/// The authority allocates the watcher and request identities once and binds
/// them before any launch, so co-located and remote supervisors use one path.
pub fn bind_release_watcher(input: BindInput) -> (step: BindStep)
    ensures
        step == bind_start(input),
{
    BindStep::AskTrainer {
        message: StoreMsg::GetTask { id: input.trainer_task_id },
        next: BindTrainer { input },
    }
}

impl BindTrainer {
    /// A watcher is needed only while the trainer runs.
    pub fn on_trainer(self, reply: Result<Option<TaskRow>, AppError>) -> (step: BindStep)
        ensures
            step == (match reply {
                Err(error) => BindStep::Failed(error),
                Ok(row) => if row_status(row) == Some(ProcessStatus::Running) {
                    BindStep::AskAssociation {
                        message: StoreMsg::TrainerAttemptAssociationForTaskForAuthority {
                            authority_machine: self.input.authority_machine,
                            task_id: self.input.trainer_task_id,
                        },
                        next: BindAssociation { input: self.input },
                    }
                } else {
                    BindStep::Done(WatcherBinding::NotNeeded)
                },
            }),
    {
        match reply {
            Err(error) => BindStep::Failed(error),
            Ok(Some(row)) if row.status == ProcessStatus::Running => BindStep::AskAssociation {
                message: StoreMsg::TrainerAttemptAssociationForTaskForAuthority {
                    authority_machine: self.input.authority_machine,
                    task_id: self.input.trainer_task_id,
                },
                next: BindAssociation { input: self.input },
            },
            Ok(_) => BindStep::Done(WatcherBinding::NotNeeded),
        }
    }
}

impl BindAssociation {
    /// The trainer must have a saved attempt on this very resource.
    ///
    /// A found association is given by the resource it names; `None` stands for no
    /// association or a refused question.
    pub fn on_association(self, reply: Result<Option<ResourceId>, AppError>) -> (step: BindStep)
        ensures
            step == (match reply {
                Err(error) => BindStep::Failed(error),
                Ok(resource) => if resource == Some(self.input.resource.id) {
                    BindStep::FindExecutable { next: BindExecutable { input: self.input } }
                } else {
                    BindStep::Done(
                        WatcherBinding::Attention(
                            ReleaseWatcherAttentionReason::TrainerAssociationMissing {
                                task_id: self.input.trainer_task_id,
                            },
                        ),
                    )
                },
            }),
    {
        match reply {
            Err(error) => BindStep::Failed(error),
            Ok(Some(resource)) if resource == self.input.resource.id => BindStep::FindExecutable {
                next: BindExecutable { input: self.input },
            },
            Ok(_) => BindStep::Done(
                WatcherBinding::Attention(
                    ReleaseWatcherAttentionReason::TrainerAssociationMissing {
                        task_id: self.input.trainer_task_id,
                    },
                ),
            ),
        }
    }
}

impl BindExecutable {
    /// Reuse the saved identities, or allocate new ones when none are saved.
    pub fn on_executable(self, executable: Option<String>) -> (step: BindStep)
        ensures
            step == (match executable {
                None => BindStep::Done(
                    WatcherBinding::Attention(ReleaseWatcherAttentionReason::ExecutableUnavailable),
                ),
                Some(executable) => executable_step(self.input, executable),
            }),
    {
        let executable = match executable {
            Some(executable) => executable,
            None => {
                return BindStep::Done(
                    WatcherBinding::Attention(ReleaseWatcherAttentionReason::ExecutableUnavailable),
                );
            },
        };
        match self.input.loan.state {
            LoanState::Active { phase: LoanPhase::AwaitingRelease { watcher_intent, .. } } => {
                match watcher_intent {
                    Some(intent) => ask_baseline(self.input, intent, executable),
                    None => BindStep::Allocate {
                        next: BindAllocation { input: self.input, executable },
                    },
                }
            },
            _ => BindStep::Done(WatcherBinding::NotNeeded),
        }
    }
}

fn ask_baseline(input: BindInput, intent: ReleaseWatcherIntent, executable: String) -> (step:
    BindStep)
    ensures
        step == baseline_question(input, intent, executable),
{
    BindStep::AskBaseline {
        message: StoreMsg::CaptureReleaseCheckpointBaselineForAuthority {
            authority_machine: input.authority_machine,
            resource_id: input.resource.id,
            action_id: input.action_id,
            expected_state_revision: intent.state_revision,
        },
        next: BindBaseline { intent, executable },
    }
}

impl BindAllocation {
    /// The canonical command of a watcher with this fresh identity, which its binding digests.
    pub fn command(&self, watcher_task_id: TaskId) -> (command: ReleaseWatcherCommand)
        ensures
            command == (ReleaseWatcherCommand {
                resource_id: self.input.resource.id,
                action_id: self.input.action_id,
                state_revision: self.input.resource.state_revision,
                trainer_task_id: self.input.trainer_task_id,
                watcher_task_id,
            }),
            forall|fresh: FreshWatcher, digest: SpecDigest|
                fresh.watcher_task_id == watcher_task_id ==> command == command_of(
                    self.input.resource.id,
                    #[trigger] fresh_intent(self.input, fresh, digest),
                ),
    {
        ReleaseWatcherCommand {
            resource_id: self.input.resource.id,
            action_id: self.input.action_id,
            state_revision: self.input.resource.state_revision,
            trainer_task_id: self.input.trainer_task_id,
            watcher_task_id,
        }
    }

    /// Ask the store to bind the fresh identities before anything is launched.
    pub fn on_allocated(self, fresh: FreshWatcher) -> (step: BindStep)
        ensures
            step == (match fresh.normalized_spec_sha256 {
                None => BindStep::Done(
                    WatcherBinding::Attention(ReleaseWatcherAttentionReason::ExecutableUnavailable),
                ),
                Some(digest) => BindStep::AskBind {
                    message: StoreMsg::BindReleaseWatcherForAuthority {
                        authority_machine: self.input.authority_machine,
                        resource_id: self.input.resource.id,
                        intent: fresh_intent(self.input, fresh, digest),
                    },
                    next: BindBound { input: self.input, executable: self.executable },
                },
            }),
    {
        match fresh.normalized_spec_sha256 {
            None => BindStep::Done(
                WatcherBinding::Attention(ReleaseWatcherAttentionReason::ExecutableUnavailable),
            ),
            Some(digest) => BindStep::AskBind {
                message: StoreMsg::BindReleaseWatcherForAuthority {
                    authority_machine: self.input.authority_machine,
                    resource_id: self.input.resource.id,
                    intent: ReleaseWatcherIntent {
                        action_id: self.input.action_id,
                        state_revision: self.input.resource.state_revision,
                        observed_background_task: self.input.trainer_task_id,
                        watcher_task_id: fresh.watcher_task_id,
                        request_id: fresh.request_id,
                        normalized_spec_sha256: digest,
                    },
                },
                next: BindBound { input: self.input, executable: self.executable },
            },
        }
    }
}

impl BindBound {
    /// Continue with the identities that the store saved, which an earlier binding may own.
    pub fn on_bound(self, reply: Result<Result<ReleaseWatcherIntent, String>, AppError>) -> (step:
        BindStep)
        ensures
            step == (match reply {
                Err(error) => BindStep::Failed(error),
                Ok(Err(_)) => BindStep::Done(
                    WatcherBinding::Attention(ReleaseWatcherAttentionReason::BindingRejected),
                ),
                Ok(Ok(intent)) => baseline_question(self.input, intent, self.executable),
            }),
    {
        match reply {
            Err(error) => BindStep::Failed(error),
            Ok(Err(_)) => BindStep::Done(
                WatcherBinding::Attention(ReleaseWatcherAttentionReason::BindingRejected),
            ),
            Ok(Ok(intent)) => ask_baseline(self.input, intent, self.executable),
        }
    }
}

impl BindBaseline {
    /// The watcher is bound once its baseline is saved.
    pub fn on_baseline(self, reply: Result<Result<(), String>, AppError>) -> (step: BindStep)
        ensures
            step == (match reply {
                Err(error) => BindStep::Failed(error),
                Ok(Err(_)) => BindStep::Done(
                    WatcherBinding::Attention(ReleaseWatcherAttentionReason::BaselineUnavailable),
                ),
                Ok(Ok(())) => BindStep::Done(
                    WatcherBinding::Bound { intent: self.intent, executable: self.executable },
                ),
            }),
    {
        match reply {
            Err(error) => BindStep::Failed(error),
            Ok(Err(_)) => BindStep::Done(
                WatcherBinding::Attention(ReleaseWatcherAttentionReason::BaselineUnavailable),
            ),
            Ok(Ok(())) => BindStep::Done(
                WatcherBinding::Bound { intent: self.intent, executable: self.executable },
            ),
        }
    }
}

/// A retry or restart reuses the saved watcher: with a saved intent nothing is allocated or
/// bound again, and the only thing left is the baseline of that very intent.
pub proof fn saved_watchers_are_reused(
    input: BindInput,
    intent: ReleaseWatcherIntent,
    executable: String,
)
    requires
        input.loan.state matches LoanState::Active { phase } && phase matches
            LoanPhase::AwaitingRelease { watcher_intent, .. } && watcher_intent == Some(intent),
    ensures
        executable_step(input, executable) == baseline_question(input, intent, executable),
        executable_step(input, executable) matches BindStep::AskBaseline { next, .. }
            && next.intent == intent,
{
}

/// The debug name of a process state.
pub open spec fn status_debug(status: ProcessStatus) -> Seq<char> {
    match status {
        ProcessStatus::Queued => "Queued"@,
        ProcessStatus::Running => "Running"@,
        ProcessStatus::Succeeded => "Succeeded"@,
        ProcessStatus::Failed => "Failed"@,
        ProcessStatus::Cancelled => "Cancelled"@,
        ProcessStatus::Lost => "Lost"@,
    }
}

/// The text of an attention reason: its name and what it names.
pub open spec fn reason_text(reason: ReleaseWatcherAttentionReason) -> Seq<char> {
    match reason {
        ReleaseWatcherAttentionReason::RemoteSupervisorUnsupported { supervisor_machine } =>
            "RemoteSupervisorUnsupported { supervisor_machine: MachineId("@ + hyphenated(
                supervisor_machine.0,
            ) + ") }"@,
        ReleaseWatcherAttentionReason::TrainerAssociationMissing { task_id } =>
            "TrainerAssociationMissing { task_id: TaskId("@ + hyphenated(task_id.0) + ") }"@,
        ReleaseWatcherAttentionReason::ExecutableUnavailable => "ExecutableUnavailable"@,
        ReleaseWatcherAttentionReason::BindingRejected => "BindingRejected"@,
        ReleaseWatcherAttentionReason::BaselineUnavailable => "BaselineUnavailable"@,
        ReleaseWatcherAttentionReason::LaunchRejected { watcher_task_id } =>
            "LaunchRejected { watcher_task_id: TaskId("@ + hyphenated(watcher_task_id.0) + ") }"@,
        ReleaseWatcherAttentionReason::LaunchUncertain { watcher_task_id } =>
            "LaunchUncertain { watcher_task_id: TaskId("@ + hyphenated(watcher_task_id.0) + ") }"@,
        ReleaseWatcherAttentionReason::WatcherTaskEnded { watcher_task_id, state } =>
            "WatcherTaskEnded { watcher_task_id: TaskId("@ + hyphenated(watcher_task_id.0)
                + "), state: "@ + status_debug(state) + " }"@,
    }
}

impl ReleaseWatcherAttentionReason {
    /// The text of this reason.
    pub fn text(self) -> (text: String)
        ensures
            text@ == reason_text(self),
    {
        match self {
            ReleaseWatcherAttentionReason::RemoteSupervisorUnsupported { supervisor_machine } =>
                join3(
                    "RemoteSupervisorUnsupported { supervisor_machine: MachineId(",
                    uuid_text(supervisor_machine.0).as_str(),
                    ") }",
                ),
            ReleaseWatcherAttentionReason::TrainerAssociationMissing { task_id } => join3(
                "TrainerAssociationMissing { task_id: TaskId(",
                uuid_text(task_id.0).as_str(),
                ") }",
            ),
            ReleaseWatcherAttentionReason::ExecutableUnavailable =>
                "ExecutableUnavailable".to_owned(),
            ReleaseWatcherAttentionReason::BindingRejected => "BindingRejected".to_owned(),
            ReleaseWatcherAttentionReason::BaselineUnavailable => "BaselineUnavailable".to_owned(),
            ReleaseWatcherAttentionReason::LaunchRejected { watcher_task_id } => join3(
                "LaunchRejected { watcher_task_id: TaskId(",
                uuid_text(watcher_task_id.0).as_str(),
                ") }",
            ),
            ReleaseWatcherAttentionReason::LaunchUncertain { watcher_task_id } => join3(
                "LaunchUncertain { watcher_task_id: TaskId(",
                uuid_text(watcher_task_id.0).as_str(),
                ") }",
            ),
            ReleaseWatcherAttentionReason::WatcherTaskEnded { watcher_task_id, state } => {
                let state_name = match state {
                    ProcessStatus::Queued => "Queued",
                    ProcessStatus::Running => "Running",
                    ProcessStatus::Succeeded => "Succeeded",
                    ProcessStatus::Failed => "Failed",
                    ProcessStatus::Cancelled => "Cancelled",
                    ProcessStatus::Lost => "Lost",
                };
                let head = join3(
                    "WatcherTaskEnded { watcher_task_id: TaskId(",
                    uuid_text(watcher_task_id.0).as_str(),
                    "), state: ",
                );
                join3(head.as_str(), state_name, " }")
            },
        }
    }
}

/// A canonical task that a remote supervisor saves before it launches it.
#[derive(Debug)]
pub struct PreparedActionTask {
    pub request_id: RequestId,
    pub task_id: TaskId,
    pub spec: NormalizedSpec,
    pub normalized_spec_sha256: SpecDigest,
}

/// What one remote preparation is about.
#[derive(Debug, Clone, Copy, PartialEq, Eq, Structural)]
pub struct PrepareInput {
    pub authority_machine: MachineId,
    pub resource_id: ResourceId,
    pub authority: SupervisorActionAuthority,
    pub observed_background_task: TaskId,
}

/// Next part of one remote preparation.
#[derive(Debug)]
pub enum PrepareStep {
    AskSnapshot { message: StoreMsg, next: PrepareInput },
    /// The watcher is being bound.
    Bind { bind: BindStep, next: PrepareBind },
    /// Build the canonical command of the bound watcher and digest it.
    BuildSpec {
        command: ReleaseWatcherCommand,
        executable: String,
        thread: ThreadId,
        next: PrepareSpec,
    },
    Done(Result<PreparedActionTask, ResourceActionRejection>),
    Failed(AppError),
}

/// Preparation that waits for its binding.
#[derive(Debug, Clone, Copy, PartialEq, Eq, Structural)]
pub struct PrepareBind {
    pub resource: Resource,
}

/// Preparation that waits for its canonical command.
#[derive(Debug, Clone, Copy, PartialEq, Eq, Structural)]
pub struct PrepareSpec {
    pub resource: Resource,
    pub intent: ReleaseWatcherIntent,
}

/// Why a remote supervisor's action does not match the authority's state, if it does not.
pub open spec fn action_refusal(
    snapshot: ResourceSnapshot,
    input: PrepareInput,
) -> Option<ResourceActionRejection> {
    let resource = snapshot.resource;
    let authority = input.authority;
    if resource.supervisor != authority.supervisor || resource.assignment_revision
        != authority.assignment_revision || resource.supervisor.machine == input.authority_machine {
        Some(ResourceActionRejection::NotCurrentSupervisor)
    } else if resource.state_revision != authority.expected_state_revision {
        Some(
            ResourceActionRejection::StaleRevision {
                expected: authority.expected_state_revision,
                actual: resource.state_revision,
            },
        )
    } else {
        match release_awaited(snapshot) {
            Some((loan, action_id, trainer_task_id)) => if loan.id == authority.loan_id
                && action_id == authority.action_id && trainer_task_id
                == input.observed_background_task {
                None
            } else {
                Some(ResourceActionRejection::ActionNotPending)
            },
            None => Some(ResourceActionRejection::ActionNotPending),
        }
    }
}

/// Validate a remote supervisor's action, then return the bound canonical watcher.
pub fn prepare_remote_watcher(input: PrepareInput) -> (step: PrepareStep)
    ensures
        step == (PrepareStep::AskSnapshot {
            message: StoreMsg::ResourceSnapshotsForAuthority {
                authority_machine: input.authority_machine,
            },
            next: input,
        }),
{
    PrepareStep::AskSnapshot {
        message: StoreMsg::ResourceSnapshotsForAuthority {
            authority_machine: input.authority_machine,
        },
        next: input,
    }
}

impl PrepareInput {
    /// Bind the watcher only for the current supervisor's pending action.
    pub fn on_snapshot(self, snapshot: Result<ResourceSnapshot, AppError>) -> (step: PrepareStep)
        ensures
            match snapshot {
                Err(error) => step == PrepareStep::Failed(error),
                Ok(snapshot) => match action_refusal(snapshot, self) {
                    Some(refusal) => step == PrepareStep::Done(
                        Err::<PreparedActionTask, ResourceActionRejection>(refusal),
                    ),
                    None => step == (PrepareStep::Bind {
                        bind: bind_start(
                            BindInput {
                                authority_machine: self.authority_machine,
                                resource: snapshot.resource,
                                loan: (release_awaited(snapshot)->0).0,
                                action_id: self.authority.action_id,
                                trainer_task_id: self.observed_background_task,
                            },
                        ),
                        next: PrepareBind { resource: snapshot.resource },
                    }),
                },
            },
    {
        let snapshot = match snapshot {
            Ok(snapshot) => snapshot,
            Err(error) => {
                return PrepareStep::Failed(error);
            },
        };
        let resource = snapshot.resource;
        let authority = self.authority;
        if resource.supervisor != authority.supervisor || resource.assignment_revision
            != authority.assignment_revision || resource.supervisor.machine
            == self.authority_machine {
            return PrepareStep::Done(Err(ResourceActionRejection::NotCurrentSupervisor));
        }
        if resource.state_revision != authority.expected_state_revision {
            return PrepareStep::Done(
                Err(
                    ResourceActionRejection::StaleRevision {
                        expected: authority.expected_state_revision,
                        actual: resource.state_revision,
                    },
                ),
            );
        }
        let (loan, action_id, trainer_task_id) = match awaiting_release(&snapshot) {
            Some(awaited) => awaited,
            None => {
                return PrepareStep::Done(Err(ResourceActionRejection::ActionNotPending));
            },
        };
        if loan.id != authority.loan_id || action_id != authority.action_id || trainer_task_id
            != self.observed_background_task {
            return PrepareStep::Done(Err(ResourceActionRejection::ActionNotPending));
        }
        let bind = bind_release_watcher(
            BindInput {
                authority_machine: self.authority_machine,
                resource,
                loan,
                action_id,
                trainer_task_id,
            },
        );
        PrepareStep::Bind { bind, next: PrepareBind { resource } }
    }
}

/// Whether a preparation ended with this unavailability text.
pub open spec fn unavailable(step: PrepareStep, text: Seq<char>) -> bool {
    step matches PrepareStep::Done(Err(ResourceActionRejection::WatcherUnavailable { reason }))
        && reason@ == text
}

impl PrepareBind {
    /// Continue after one part of the binding.
    pub fn resume(self, bind: BindStep) -> (step: PrepareStep)
        ensures
            match bind {
                BindStep::Failed(error) => step == PrepareStep::Failed(error),
                BindStep::Done(WatcherBinding::NotNeeded) => unavailable(
                    step,
                    "the observed background task is not running"@,
                ),
                BindStep::Done(WatcherBinding::Attention(reason)) => unavailable(
                    step,
                    reason_text(reason),
                ),
                BindStep::Done(WatcherBinding::Bound { intent, executable }) => step == (
                PrepareStep::BuildSpec {
                    command: command_of(self.resource.id, intent),
                    executable,
                    thread: self.resource.supervisor.thread,
                    next: PrepareSpec { resource: self.resource, intent },
                }),
                _ => step == (PrepareStep::Bind { bind, next: self }),
            },
    {
        match bind {
            BindStep::Failed(error) => PrepareStep::Failed(error),
            BindStep::Done(WatcherBinding::NotNeeded) => PrepareStep::Done(
                Err(
                    ResourceActionRejection::WatcherUnavailable {
                        reason: "the observed background task is not running".to_owned(),
                    },
                ),
            ),
            BindStep::Done(WatcherBinding::Attention(reason)) => PrepareStep::Done(
                Err(ResourceActionRejection::WatcherUnavailable { reason: reason.text() }),
            ),
            BindStep::Done(WatcherBinding::Bound { intent, executable }) => PrepareStep::BuildSpec {
                command: bound_command(self.resource.id, &intent),
                executable,
                thread: self.resource.supervisor.thread,
                next: PrepareSpec { resource: self.resource, intent },
            },
            bind => PrepareStep::Bind { bind, next: self },
        }
    }
}

impl PrepareSpec {
    /// A changed daemon executable cannot silently replace the bound command.
    pub fn on_spec(self, built: Result<(NormalizedSpec, SpecDigest), AppError>) -> (step:
        PrepareStep)
        ensures
            match built {
                Err(error) => step == PrepareStep::Failed(error),
                Ok((spec, digest)) => if digest == self.intent.normalized_spec_sha256 {
                    step == PrepareStep::Done(
                        Ok::<PreparedActionTask, ResourceActionRejection>(
                            PreparedActionTask {
                                request_id: self.intent.request_id,
                                task_id: self.intent.watcher_task_id,
                                spec,
                                normalized_spec_sha256: digest,
                            },
                        ),
                    )
                } else {
                    unavailable(step, "the watcher executable differs from the bound command"@)
                },
            },
    {
        match built {
            Err(error) => PrepareStep::Failed(error),
            Ok((spec, digest)) => {
                if digest != self.intent.normalized_spec_sha256 {
                    return PrepareStep::Done(
                        Err(
                            ResourceActionRejection::WatcherUnavailable {
                                reason:
                                    "the watcher executable differs from the bound command".to_owned(),
                            },
                        ),
                    );
                }
                PrepareStep::Done(
                    Ok(
                        PreparedActionTask {
                            request_id: self.intent.request_id,
                            task_id: self.intent.watcher_task_id,
                            spec,
                            normalized_spec_sha256: digest,
                        },
                    ),
                )
            },
        }
    }
}

} // verus!
