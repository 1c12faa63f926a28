//! Tasks, their states, and the specifications they were submitted with.

use std::sync::Arc;

use vstd::prelude::*;

use crate::ids::{TaskId, ThreadId};
use crate::path::{path_equal, same_path};
use crate::text::same_text;
use crate::time::{Span, Timestamp};

verus! {

/// State of a task's process.
#[derive(Debug, Clone, Copy, PartialEq, Eq, Structural)]
pub enum ProcessStatus {
    Queued,
    Running,
    Succeeded,
    Failed,
    Cancelled,
    Lost,
}

impl ProcessStatus {
    /// Whether the process can no longer change state.
    pub open spec fn terminal(self) -> bool {
        !(self is Queued) && !(self is Running)
    }

    /// Whether the process can no longer change state.
    pub fn is_terminal(self) -> (terminal: bool)
        ensures
            terminal == self.terminal(),
    {
        match self {
            ProcessStatus::Queued | ProcessStatus::Running => false,
            _ => true,
        }
    }

    /// Stored name of this state.
    pub open spec fn name(self) -> Seq<char> {
        match self {
            ProcessStatus::Queued => "queued"@,
            ProcessStatus::Running => "running"@,
            ProcessStatus::Succeeded => "succeeded"@,
            ProcessStatus::Failed => "failed"@,
            ProcessStatus::Cancelled => "cancelled"@,
            ProcessStatus::Lost => "lost"@,
        }
    }

    /// Stored name of this state.
    pub fn as_str(self) -> (name: &'static str)
        ensures
            name@ == self.name(),
    {
        match self {
            ProcessStatus::Queued => "queued",
            ProcessStatus::Running => "running",
            ProcessStatus::Succeeded => "succeeded",
            ProcessStatus::Failed => "failed",
            ProcessStatus::Cancelled => "cancelled",
            ProcessStatus::Lost => "lost",
        }
    }

    /// The state with this stored name.
    pub fn from_storage(name: &str) -> (status: Option<ProcessStatus>)
        ensures
            status matches Some(status) ==> status.name() == name@,
            status is None ==> forall|other: ProcessStatus| #[trigger] other.name() != name@,
    {
        if same_text(name, "queued") {
            Some(ProcessStatus::Queued)
        } else if same_text(name, "running") {
            Some(ProcessStatus::Running)
        } else if same_text(name, "succeeded") {
            Some(ProcessStatus::Succeeded)
        } else if same_text(name, "failed") {
            Some(ProcessStatus::Failed)
        } else if same_text(name, "cancelled") {
            Some(ProcessStatus::Cancelled)
        } else if same_text(name, "lost") {
            Some(ProcessStatus::Lost)
        } else {
            None
        }
    }
}

/// No two process states share a stored name, so a stored name reads back as its state.
pub proof fn status_names_are_distinct(left: ProcessStatus, right: ProcessStatus)
    ensures
        left.name() == right.name() ==> left == right,
{
    reveal_strlit("queued");
    reveal_strlit("running");
    reveal_strlit("succeeded");
    reveal_strlit("failed");
    reveal_strlit("cancelled");
    reveal_strlit("lost");
    assert("queued"@[0] == 'q');
    assert("running"@[0] == 'r');
    assert("succeeded"@[0] == 's');
    assert("failed"@[0] == 'f');
    assert("cancelled"@[0] == 'c');
    assert("lost"@[0] == 'l');
}

/// Why a process ended.
#[derive(Debug)]
pub enum ExitReason {
    Exit { code: i32 },
    Signal { signal: i32 },
    Cancelled,
    SpawnFailed { message: String },
}

impl Clone for ExitReason {
    fn clone(&self) -> (copy: ExitReason)
        ensures
            copy == *self,
    {
        match self {
            ExitReason::Exit { code } => ExitReason::Exit { code: *code },
            ExitReason::Signal { signal } => ExitReason::Signal { signal: *signal },
            ExitReason::Cancelled => ExitReason::Cancelled,
            ExitReason::SpawnFailed { message } => ExitReason::SpawnFailed {
                message: message.clone(),
            },
        }
    }
}

/// Witness about the child's process group at exit.
#[derive(Debug, Clone, Copy, PartialEq, Eq, Structural)]
pub enum ProcessGroupExitEvidence {
    Confirmed,
    Unconfirmed,
    NoChildSpawned,
}

/// Environment captured for a task.
#[derive(Debug)]
pub struct TaskEnv {
    pub path: String,
    pub home: String,
}

impl Clone for TaskEnv {
    fn clone(&self) -> (copy: TaskEnv)
        ensures
            copy == *self,
    {
        TaskEnv { path: self.path.clone(), home: self.home.clone() }
    }
}

/// State of the one inactivity reminder of a task.
#[derive(Debug, Clone, Copy, PartialEq, Eq, Structural)]
pub enum AttentionState {
    Pending,
    Sending,
    Delivered,
}

/// State of a task's terminal callback.
#[derive(Debug, Clone, Copy, PartialEq, Eq, Structural)]
pub enum CallbackStatus {
    Pending,
    Sending,
    Sent,
    Failed,
}

/// The durable fields of a task that the daemon's rules read.
#[derive(Debug, Clone, Copy, PartialEq, Eq, Structural)]
pub struct TaskRow {
    pub id: TaskId,
    pub thread: ThreadId,
    pub status: ProcessStatus,
    /// Worker pid while running.
    pub pid: Option<i32>,
    pub attention: AttentionState,
    pub callback_status: CallbackStatus,
    pub timeout: Span,
    pub created_at: Timestamp,
}

/// The row of a task that has not started.
pub open spec fn queued_row(id: TaskId, thread: ThreadId, timeout: Span, created_at: Timestamp) ->
    TaskRow {
    TaskRow {
        id,
        thread,
        status: ProcessStatus::Queued,
        pid: None,
        attention: AttentionState::Pending,
        callback_status: CallbackStatus::Pending,
        timeout,
        created_at,
    }
}

/// The row of a task that has not started.
pub fn new_queued_task(id: TaskId, thread: ThreadId, timeout: Span, created_at: Timestamp) -> (row:
    TaskRow)
    ensures
        row == queued_row(id, thread, timeout, created_at),
{
    TaskRow {
        id,
        thread,
        status: ProcessStatus::Queued,
        pid: None,
        attention: AttentionState::Pending,
        callback_status: CallbackStatus::Pending,
        timeout,
        created_at,
    }
}

/// Where and with what a task runs.
#[derive(Debug)]
pub struct TaskPlacement {
    pub cwd: String,
    pub env: TaskEnv,
    /// Program that the workload runs.
    pub binary: String,
}

/// Outcome of a stored cancel request.
#[derive(Debug, Clone, Copy, PartialEq, Eq, Structural)]
pub enum CancelResult {
    AlreadyTerminal(TaskRow),
    CancelledQueued(TaskRow),
    SignalWorker(TaskRow),
}

impl CancelResult {
    /// The stored row after the request.
    pub open spec fn row(self) -> TaskRow {
        match self {
            CancelResult::AlreadyTerminal(row) => row,
            CancelResult::CancelledQueued(row) => row,
            CancelResult::SignalWorker(row) => row,
        }
    }
}

/// What a task runs.
#[derive(Debug)]
pub enum NormalizedWorkload {
    /// A command line.
    Task { command: Vec<String> },
    /// An agent prompt. `settings` is the canonical JSON of the remaining agent options.
    Agent { prompt: String, report_trailer: bool, settings: String },
}

/// A [`NormalizedWorkload`] with its texts as character sequences.
pub enum WorkloadContent {
    Task { command: Seq<Seq<char>> },
    Agent { prompt: Seq<char>, report_trailer: bool, settings: Seq<char> },
}

/// The texts of a list.
pub open spec fn texts(list: Seq<String>) -> Seq<Seq<char>> {
    list.map_values(|text: String| text@)
}

impl View for NormalizedWorkload {
    type V = WorkloadContent;

    open spec fn view(&self) -> WorkloadContent {
        match *self {
            NormalizedWorkload::Task { command } => WorkloadContent::Task {
                command: texts(command@),
            },
            NormalizedWorkload::Agent { prompt, report_trailer, settings } =>
                WorkloadContent::Agent { prompt: prompt@, report_trailer, settings: settings@ },
        }
    }
}

/// Whether two lists hold the same texts in the same order.
pub fn same_texts(left: &Vec<String>, right: &Vec<String>) -> (same: bool)
    ensures
        same == (texts(left@) == texts(right@)),
{
    if left.len() != right.len() {
        proof {
            assert(texts(left@).len() != texts(right@).len());
        }
        return false;
    }
    let mut index: usize = 0;
    while index < left.len()
        invariant
            index <= left.len(),
            left.len() == right.len(),
            forall|at: int| 0 <= at < index ==> left@[at]@ == right@[at]@,
        decreases left.len() - index,
    {
        if !same_text(left[index].as_str(), right[index].as_str()) {
            proof {
                assert(texts(left@)[index as int] != texts(right@)[index as int]);
            }
            return false;
        }
        index += 1;
    }
    proof {
        assert(texts(left@) =~= texts(right@));
    }
    true
}

/// A list with the same texts in the same order.
pub fn copy_texts(list: &Vec<String>) -> (copy: Vec<String>)
    ensures
        texts(copy@) == texts(list@),
{
    let mut copy: Vec<String> = Vec::new();
    let mut index: usize = 0;
    while index < list.len()
        invariant
            index <= list.len(),
            copy@.len() == index,
            forall|at: int| 0 <= at < index ==> copy@[at]@ == list@[at]@,
        decreases list.len() - index,
    {
        copy.push(list[index].clone());
        index += 1;
    }
    proof {
        assert(texts(copy@) =~= texts(list@));
    }
    copy
}

impl NormalizedWorkload {
    /// A workload with the same content.
    pub fn duplicate(&self) -> (copy: NormalizedWorkload)
        ensures
            copy@ == self@,
    {
        match self {
            NormalizedWorkload::Task { command } => NormalizedWorkload::Task {
                command: copy_texts(command),
            },
            NormalizedWorkload::Agent { prompt, report_trailer, settings } =>
                NormalizedWorkload::Agent {
                    prompt: prompt.clone(),
                    report_trailer: *report_trailer,
                    settings: settings.clone(),
                },
        }
    }

    /// Whether two workloads are the same.
    pub fn same(&self, other: &NormalizedWorkload) -> (same: bool)
        ensures
            same == (self@ == other@),
    {
        match (self, other) {
            (
                NormalizedWorkload::Task { command: left },
                NormalizedWorkload::Task { command: right },
            ) => same_texts(left, right),
            (
                NormalizedWorkload::Agent {
                    prompt: left_prompt,
                    report_trailer: left_trailer,
                    settings: left_settings,
                },
                NormalizedWorkload::Agent {
                    prompt: right_prompt,
                    report_trailer: right_trailer,
                    settings: right_settings,
                },
            ) => same_text(left_prompt.as_str(), right_prompt.as_str()) && *left_trailer
                == *right_trailer && same_text(left_settings.as_str(), right_settings.as_str()),
            _ => false,
        }
    }
}

/// Calls the `clone` of `std::sync::Arc`, which makes another pointer to the same value.
///
/// Claimed: the two pointers hold the same value.
#[verifier::external_body]
pub(crate) fn share(spec: &Arc<NormalizedSpec>) -> (copy: Arc<NormalizedSpec>)
    ensures
        copy == *spec,
{
    Arc::clone(spec)
}

/// What an agent's worker reads from its task's directory.
#[derive(Debug)]
pub struct PromptFiles {
    pub prompt: String,
    /// Whether the prompt ends with the request for reports.
    pub report_trailer: bool,
}

/// The prompt files that a workload needs: an agent's, and none for a command.
pub open spec fn needed_files(workload: NormalizedWorkload) -> Option<PromptFiles> {
    match workload {
        NormalizedWorkload::Task { .. } => None,
        NormalizedWorkload::Agent { prompt, report_trailer, .. } => Some(
            PromptFiles { prompt, report_trailer },
        ),
    }
}

/// The prompt files that a workload needs.
pub fn prompt_files(workload: &NormalizedWorkload) -> (files: Option<PromptFiles>)
    ensures
        files == needed_files(*workload),
{
    match workload {
        NormalizedWorkload::Task { .. } => None,
        NormalizedWorkload::Agent { prompt, report_trailer, .. } => Some(
            PromptFiles { prompt: prompt.clone(), report_trailer: *report_trailer },
        ),
    }
}

/// A validated task specification.
#[derive(Debug)]
pub struct NormalizedSpec {
    pub thread: ThreadId,
    pub name: String,
    pub cwd: String,
    pub timeout: Span,
    /// Selected machine, for a remote submission.
    pub machine: Option<String>,
    pub workload: NormalizedWorkload,
}

/// The content of a [`NormalizedSpec`].
pub struct SpecContent {
    pub thread: ThreadId,
    pub name: Seq<char>,
    pub cwd: Seq<char>,
    pub timeout: Span,
    pub machine: Option<Seq<char>>,
    pub workload: WorkloadContent,
}

/// Whether two specifications ask for the same task: their directories are the same path, and
/// everything else has the same content.
pub open spec fn equal_specs(left: SpecContent, right: SpecContent) -> bool {
    path_equal(left.cwd, right.cwd) && SpecContent { cwd: right.cwd, ..left } == right
}

/// An optional text.
pub open spec fn optional_text(text: Option<String>) -> Option<Seq<char>> {
    match text {
        Some(text) => Some(text@),
        None => None,
    }
}

impl View for NormalizedSpec {
    type V = SpecContent;

    open spec fn view(&self) -> SpecContent {
        SpecContent {
            thread: self.thread,
            name: self.name@,
            cwd: self.cwd@,
            timeout: self.timeout,
            machine: optional_text(self.machine),
            workload: self.workload@,
        }
    }
}

/// Whether two optional texts are the same.
pub fn same_optional_text(left: &Option<String>, right: &Option<String>) -> (same: bool)
    ensures
        same == (optional_text(*left) == optional_text(*right)),
{
    match (left, right) {
        (Some(left), Some(right)) => same_text(left.as_str(), right.as_str()),
        (None, None) => true,
        _ => false,
    }
}

impl NormalizedSpec {
    /// A specification with the same content.
    pub fn duplicate(&self) -> (copy: NormalizedSpec)
        ensures
            copy@ == self@,
            copy.thread == self.thread,
            copy.timeout == self.timeout,
    {
        NormalizedSpec {
            thread: self.thread,
            name: self.name.clone(),
            cwd: self.cwd.clone(),
            timeout: self.timeout,
            machine: match &self.machine {
                Some(machine) => Some(machine.clone()),
                None => None,
            },
            workload: self.workload.duplicate(),
        }
    }

    /// Whether two specifications ask for the same task, in directories that may be spelt
    /// differently.
    pub fn equals(&self, other: &NormalizedSpec) -> (equal: bool)
        ensures
            equal == equal_specs(self@, other@),
    {
        self.thread == other.thread && same_text(self.name.as_str(), other.name.as_str())
            && same_path(self.cwd.as_str(), other.cwd.as_str()) && self.timeout == other.timeout
            && same_optional_text(&self.machine, &other.machine) && self.workload.same(
            &other.workload,
        )
    }

    /// Whether two specifications have the same content.
    pub fn same(&self, other: &NormalizedSpec) -> (same: bool)
        ensures
            same == (self@ == other@),
    {
        self.thread == other.thread && same_text(self.name.as_str(), other.name.as_str())
            && same_text(self.cwd.as_str(), other.cwd.as_str()) && self.timeout == other.timeout
            && same_optional_text(&self.machine, &other.machine) && self.workload.same(
            &other.workload,
        )
    }
}

/// Digest of the canonical form of a specification.
#[derive(Debug, Clone, Copy, PartialEq, Eq, Structural)]
pub struct SpecDigest {
    pub high: u128,
    pub low: u128,
}

} // verus!
