//! The one error type that daemon operations answer with.

use vstd::prelude::*;

use crate::fleet::ProtocolRange;
use crate::ids::{hyphenated, MachineId, MessageId, RequestId, TaskId};
use crate::text::join2;

verus! {

/// Why an operation was refused or could not finish.
#[derive(Debug)]
pub enum AppError {
    /// The caller's request is not acceptable.
    Usage { message: String },
    /// The daemon itself failed.
    Internal { message: String },
    /// A submitted specification or envelope is invalid at `pointer`.
    InvalidSpec {
        /// JSON pointer of the failing part.
        pointer: String,
        /// JSON text found there.
        value: String,
        message: String,
    },
    /// A needed program was not found.
    ExecutableMissing { program: String },
    /// Another process holds a lock.
    LockHeld { path: String },
    TaskNotFound { id: TaskId },
    TaskNotStarted { task: TaskId },
    TaskUnavailable { task: TaskId, machine: MachineId },
    RouteNotFound { task: TaskId },
    /// Two records of one task disagree about who owns it.
    ClusterTaskConflict { task: TaskId },
    /// Some machines did not answer, so the task's records are incomplete.
    ClusterLookupIncomplete { task: TaskId, unchecked: Vec<MachineId> },
    ClusterProtocolIncompatible {
        machine: MachineId,
        local: ProtocolRange,
        remote: ProtocolRange,
    },
    EventContentConflict { task: TaskId, seq: u64 },
    MachineIdentityMismatch { expected: MachineId, found: Option<MachineId> },
    MachineNotFound { machine: String },
    MachineUnavailable { machine: MachineId, message: String },
    RemoteSubmissionUnavailable { message: String },
    SubmissionRejected { request: RequestId, task: TaskId, reason: String },
    SubmissionConflict { request: RequestId, task: TaskId, message: String },
    SubmissionOutcomeUnknown { request: RequestId, task: TaskId, message: String },
    MessageInvalid { message: String },
    MessageConflict { id: MessageId },
    MessageUnavailable { message: String },
    MessageDeliveryFailed { id: MessageId, message: String },
    MessageOutcomeUnknown { id: MessageId, machine: MachineId, message: String },
    AgentThreadNotFound { selector: String },
    FileNotFound { message: String },
    UnsupportedFile { message: String },
    Permission { message: String },
}

/// An [`AppError`] with its texts as character sequences.
pub enum ErrorView {
    Usage { message: Seq<char> },
    Internal { message: Seq<char> },
    InvalidSpec { pointer: Seq<char>, value: Seq<char>, message: Seq<char> },
    ExecutableMissing { program: Seq<char> },
    LockHeld { path: Seq<char> },
    TaskNotFound { id: TaskId },
    TaskNotStarted { task: TaskId },
    TaskUnavailable { task: TaskId, machine: MachineId },
    RouteNotFound { task: TaskId },
    ClusterTaskConflict { task: TaskId },
    ClusterLookupIncomplete { task: TaskId, unchecked: Seq<MachineId> },
    ClusterProtocolIncompatible { machine: MachineId, local: ProtocolRange, remote: ProtocolRange },
    EventContentConflict { task: TaskId, seq: u64 },
    MachineIdentityMismatch { expected: MachineId, found: Option<MachineId> },
    MachineNotFound { machine: Seq<char> },
    MachineUnavailable { machine: MachineId, message: Seq<char> },
    RemoteSubmissionUnavailable { message: Seq<char> },
    SubmissionRejected { request: RequestId, task: TaskId, reason: Seq<char> },
    SubmissionConflict { request: RequestId, task: TaskId, message: Seq<char> },
    SubmissionOutcomeUnknown { request: RequestId, task: TaskId, message: Seq<char> },
    MessageInvalid { message: Seq<char> },
    MessageConflict { id: MessageId },
    MessageUnavailable { message: Seq<char> },
    MessageDeliveryFailed { id: MessageId, message: Seq<char> },
    MessageOutcomeUnknown { id: MessageId, machine: MachineId, message: Seq<char> },
    AgentThreadNotFound { selector: Seq<char> },
    FileNotFound { message: Seq<char> },
    UnsupportedFile { message: Seq<char> },
    Permission { message: Seq<char> },
}

impl View for AppError {
    type V = ErrorView;

    open spec fn view(&self) -> ErrorView {
        match *self {
            AppError::Usage { message } => ErrorView::Usage { message: message@ },
            AppError::Internal { message } => ErrorView::Internal { message: message@ },
            AppError::InvalidSpec { pointer, value, message } => ErrorView::InvalidSpec {
                pointer: pointer@,
                value: value@,
                message: message@,
            },
            AppError::ExecutableMissing { program } => ErrorView::ExecutableMissing {
                program: program@,
            },
            AppError::LockHeld { path } => ErrorView::LockHeld { path: path@ },
            AppError::TaskNotFound { id } => ErrorView::TaskNotFound { id },
            AppError::TaskNotStarted { task } => ErrorView::TaskNotStarted { task },
            AppError::TaskUnavailable { task, machine } => ErrorView::TaskUnavailable {
                task,
                machine,
            },
            AppError::RouteNotFound { task } => ErrorView::RouteNotFound { task },
            AppError::ClusterTaskConflict { task } => ErrorView::ClusterTaskConflict { task },
            AppError::ClusterLookupIncomplete { task, unchecked } =>
                ErrorView::ClusterLookupIncomplete { task, unchecked: unchecked@ },
            AppError::ClusterProtocolIncompatible { machine, local, remote } =>
                ErrorView::ClusterProtocolIncompatible { machine, local, remote },
            AppError::EventContentConflict { task, seq } => ErrorView::EventContentConflict {
                task,
                seq,
            },
            AppError::MachineIdentityMismatch { expected, found } =>
                ErrorView::MachineIdentityMismatch { expected, found },
            AppError::MachineNotFound { machine } => ErrorView::MachineNotFound {
                machine: machine@,
            },
            AppError::MachineUnavailable { machine, message } => ErrorView::MachineUnavailable {
                machine,
                message: message@,
            },
            AppError::RemoteSubmissionUnavailable { message } =>
                ErrorView::RemoteSubmissionUnavailable { message: message@ },
            AppError::SubmissionRejected { request, task, reason } =>
                ErrorView::SubmissionRejected { request, task, reason: reason@ },
            AppError::SubmissionConflict { request, task, message } =>
                ErrorView::SubmissionConflict { request, task, message: message@ },
            AppError::SubmissionOutcomeUnknown { request, task, message } =>
                ErrorView::SubmissionOutcomeUnknown { request, task, message: message@ },
            AppError::MessageInvalid { message } => ErrorView::MessageInvalid {
                message: message@,
            },
            AppError::MessageConflict { id } => ErrorView::MessageConflict { id },
            AppError::MessageUnavailable { message } => ErrorView::MessageUnavailable {
                message: message@,
            },
            AppError::MessageDeliveryFailed { id, message } => ErrorView::MessageDeliveryFailed {
                id,
                message: message@,
            },
            AppError::MessageOutcomeUnknown { id, machine, message } =>
                ErrorView::MessageOutcomeUnknown { id, machine, message: message@ },
            AppError::AgentThreadNotFound { selector } => ErrorView::AgentThreadNotFound {
                selector: selector@,
            },
            AppError::FileNotFound { message } => ErrorView::FileNotFound { message: message@ },
            AppError::UnsupportedFile { message } => ErrorView::UnsupportedFile {
                message: message@,
            },
            AppError::Permission { message } => ErrorView::Permission { message: message@ },
        }
    }
}

/// A [`AppError::Usage`] with this message.
pub fn usage(message: &str) -> (error: AppError)
    ensures
        error@ == (ErrorView::Usage { message: message@ }),
{
    AppError::Usage { message: message.to_owned() }
}

/// A [`AppError::Internal`] with this message.
pub fn internal(message: &str) -> (error: AppError)
    ensures
        error@ == (ErrorView::Internal { message: message@ }),
{
    AppError::Internal { message: message.to_owned() }
}

/// The one-line text of an error.
pub open spec fn error_text(error: ErrorView) -> Seq<char> {
    match error {
        ErrorView::Usage { message } => message,
        ErrorView::Internal { message } => message,
        ErrorView::InvalidSpec { pointer, message, .. } => "invalid specification at "@ + pointer
            + ": "@ + message,
        ErrorView::ExecutableMissing { program } => "executable not found: "@ + program,
        ErrorView::LockHeld { path } => "lock is held: "@ + path,
        ErrorView::TaskNotFound { id } => "task not found: "@ + hyphenated(id.0),
        ErrorView::TaskNotStarted { task } => "task never started: "@ + hyphenated(task.0),
        ErrorView::TaskUnavailable { task, .. } => "task is unavailable: "@ + hyphenated(task.0),
        ErrorView::RouteNotFound { task } => "no origin route for task "@ + hyphenated(task.0),
        ErrorView::ClusterTaskConflict { task } => "conflicting records for task "@ + hyphenated(
            task.0,
        ),
        ErrorView::ClusterLookupIncomplete { task, .. } => "incomplete lookup of task "@
            + hyphenated(task.0),
        ErrorView::ClusterProtocolIncompatible { machine, .. } =>
            "no shared cluster protocol with machine "@ + hyphenated(machine.0),
        ErrorView::EventContentConflict { task, .. } => "conflicting event content for task "@
            + hyphenated(task.0),
        ErrorView::MachineIdentityMismatch { expected, .. } => "another machine answered for "@
            + hyphenated(expected.0),
        ErrorView::MachineNotFound { machine } => "machine not found: "@ + machine,
        ErrorView::MachineUnavailable { message, .. } => message,
        ErrorView::RemoteSubmissionUnavailable { message } => message,
        ErrorView::SubmissionRejected { reason, .. } => "submission rejected: "@ + reason,
        ErrorView::SubmissionConflict { message, .. } => message,
        ErrorView::SubmissionOutcomeUnknown { message, .. } => message,
        ErrorView::MessageInvalid { message } => message,
        ErrorView::MessageConflict { id } => "conflicting content for message "@ + hyphenated(id.0),
        ErrorView::MessageUnavailable { message } => message,
        ErrorView::MessageDeliveryFailed { message, .. } => message,
        ErrorView::MessageOutcomeUnknown { message, .. } => message,
        ErrorView::AgentThreadNotFound { selector } => "no agent thread for "@ + selector,
        ErrorView::FileNotFound { message } => message,
        ErrorView::UnsupportedFile { message } => message,
        ErrorView::Permission { message } => message,
    }
}

impl AppError {
    /// The one-line text of this error.
    pub fn to_string(&self) -> (text: String)
        ensures
            text@ == error_text(self@),
    {
        match self {
            AppError::Usage { message } => message.clone(),
            AppError::Internal { message } => message.clone(),
            AppError::InvalidSpec { pointer, message, .. } => {
                let place = join2("invalid specification at ", pointer.as_str());
                let head = join2(place.as_str(), ": ");
                join2(head.as_str(), message.as_str())
            },
            AppError::ExecutableMissing { program } => join2(
                "executable not found: ",
                program.as_str(),
            ),
            AppError::LockHeld { path } => join2("lock is held: ", path.as_str()),
            AppError::TaskNotFound { id } => join2("task not found: ", id.text().as_str()),
            AppError::TaskNotStarted { task } => join2(
                "task never started: ",
                task.text().as_str(),
            ),
            AppError::TaskUnavailable { task, .. } => join2(
                "task is unavailable: ",
                task.text().as_str(),
            ),
            AppError::RouteNotFound { task } => join2(
                "no origin route for task ",
                task.text().as_str(),
            ),
            AppError::ClusterTaskConflict { task } => join2(
                "conflicting records for task ",
                task.text().as_str(),
            ),
            AppError::ClusterLookupIncomplete { task, .. } => join2(
                "incomplete lookup of task ",
                task.text().as_str(),
            ),
            AppError::ClusterProtocolIncompatible { machine, .. } => join2(
                "no shared cluster protocol with machine ",
                machine.text().as_str(),
            ),
            AppError::EventContentConflict { task, .. } => join2(
                "conflicting event content for task ",
                task.text().as_str(),
            ),
            AppError::MachineIdentityMismatch { expected, .. } => join2(
                "another machine answered for ",
                expected.text().as_str(),
            ),
            AppError::MachineNotFound { machine } => join2(
                "machine not found: ",
                machine.as_str(),
            ),
            AppError::MachineUnavailable { message, .. } => message.clone(),
            AppError::RemoteSubmissionUnavailable { message } => message.clone(),
            AppError::SubmissionRejected { reason, .. } => join2(
                "submission rejected: ",
                reason.as_str(),
            ),
            AppError::SubmissionConflict { message, .. } => message.clone(),
            AppError::SubmissionOutcomeUnknown { message, .. } => message.clone(),
            AppError::MessageInvalid { message } => message.clone(),
            AppError::MessageConflict { id } => join2(
                "conflicting content for message ",
                crate::ids::uuid_text(id.0).as_str(),
            ),
            AppError::MessageUnavailable { message } => message.clone(),
            AppError::MessageDeliveryFailed { message, .. } => message.clone(),
            AppError::MessageOutcomeUnknown { message, .. } => message.clone(),
            AppError::AgentThreadNotFound { selector } => join2(
                "no agent thread for ",
                selector.as_str(),
            ),
            AppError::FileNotFound { message } => message.clone(),
            AppError::UnsupportedFile { message } => message.clone(),
            AppError::Permission { message } => message.clone(),
        }
    }
}

/// A result with its error as its view.
pub open spec fn result_view<T>(result: Result<T, AppError>) -> Result<T, ErrorView> {
    match result {
        Ok(value) => Ok(value),
        Err(error) => Err(error@),
    }
}

} // verus!
