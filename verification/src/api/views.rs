//! Bodies shared by the socket API, the command line and the dashboard.

use std::collections::HashMap;

use vstd::prelude::*;

use crate::domain::{
    copy_texts, optional_text, texts, AttentionState, CallbackStatus, ExitReason, ProcessStatus,
    TaskRow,
};
use crate::fleet::API_VERSION;
use crate::ids::{MachineId, TaskId, ThreadId};
use crate::time::{Timestamp, NANOS_PER_SEC};

verus! {

broadcast use vstd::std_specs::hash::group_hash_axioms;

/// Status of the running daemon.
#[derive(Debug)]
pub struct StatusBody {
    /// Schema version.
    pub api_version: u32,
    /// Version of the running daemon.
    pub version: String,
    /// Daemon pid.
    pub pid: u32,
    /// Unix socket path.
    pub socket: String,
    /// Dashboard base URL, or nothing when the TCP listener is off or failed to bind.
    pub web: Option<String>,
    /// Queued plus running tasks.
    pub in_flight: u64,
}

/// Inactivity-reminder state for the check timeout. A send that is still in flight has not
/// been delivered, so it reads as pending.
#[derive(Debug, Clone, Copy, PartialEq, Eq, Structural)]
pub enum CheckTimeoutStatus {
    /// Reminder not yet delivered.
    Pending,
    /// Reminder delivered successfully.
    Sent,
}

/// What a task runs, as it is shown.
#[derive(Debug)]
pub enum WorkloadView {
    Task { command: Vec<String> },
    /// `settings` is the canonical JSON of the agent options.
    Agent { settings: String },
    Container { image: String, args: Vec<String>, gpus: Option<String> },
}

/// A [`WorkloadView`] with its texts as character sequences.
pub enum WorkloadShown {
    Task { command: Seq<Seq<char>> },
    Agent { settings: Seq<char> },
    Container { image: Seq<char>, args: Seq<Seq<char>>, gpus: Option<Seq<char>> },
}

impl View for WorkloadView {
    type V = WorkloadShown;

    open spec fn view(&self) -> WorkloadShown {
        match *self {
            WorkloadView::Task { command } => WorkloadShown::Task { command: texts(command@) },
            WorkloadView::Agent { settings } => WorkloadShown::Agent { settings: settings@ },
            WorkloadView::Container { image, args, gpus } => WorkloadShown::Container {
                image: image@,
                args: texts(args@),
                gpus: optional_text(gpus),
            },
        }
    }
}

fn copy_optional(text: &Option<String>) -> (copy: Option<String>)
    ensures
        copy == *text,
{
    match text {
        Some(text) => Some(text.clone()),
        None => None,
    }
}

impl WorkloadView {
    /// A view of the same workload.
    pub fn duplicate(&self) -> (copy: WorkloadView)
        ensures
            copy@ == self@,
    {
        match self {
            WorkloadView::Task { command } => WorkloadView::Task { command: copy_texts(command) },
            WorkloadView::Agent { settings } => WorkloadView::Agent { settings: settings.clone() },
            WorkloadView::Container { image, args, gpus } => WorkloadView::Container {
                image: image.clone(),
                args: copy_texts(args),
                gpus: copy_optional(gpus),
            },
        }
    }
}

/// The two machines of a task.
#[derive(Debug, Clone, Copy, PartialEq, Eq, Structural)]
pub struct TaskOwners {
    pub origin_machine: MachineId,
    pub execution_machine: MachineId,
}

/// Where the state of a terminal callback is known.
#[derive(Debug, Clone, Copy, PartialEq, Eq, Structural)]
pub enum TerminalCallbackProjection {
    /// The task row itself.
    Legacy(CallbackStatus),
    /// This machine's inbox.
    OriginInbox(CallbackStatus),
    /// Another machine owns delivery.
    NotOwned,
}

/// Stored metadata that a task is shown with.
#[derive(Debug)]
pub struct TaskPresentation {
    pub owners: Option<TaskOwners>,
    /// Git worktree root captured when the executor accepted the task.
    pub project_root: Option<String>,
    pub terminal_callback: TerminalCallbackProjection,
    pub attention_delivered: bool,
}

/// Witness that a container stopped and was removed.
#[derive(Debug, Clone, Copy, PartialEq, Eq, Structural)]
pub enum ContainerExitEvidence {
    Confirmed,
    Unconfirmed,
    NoContainerStarted,
}

/// A task row with the fields that only its views read.
#[derive(Debug)]
pub struct StoredTask {
    pub row: TaskRow,
    /// Submitted name, missing only on rows stored before a name was required.
    pub name: Option<String>,
    /// Non-empty label for people.
    pub display_name: String,
    pub workload: WorkloadView,
    pub cwd: String,
    pub exit_reason: Option<ExitReason>,
    pub cancel_requested_at: Option<Timestamp>,
    pub updated_at: Timestamp,
    pub container_exit_evidence: ContainerExitEvidence,
}

/// One task in a list and the head of its detail.
#[derive(Debug)]
pub struct TaskSummary {
    pub id: TaskId,
    /// Submitted name.
    pub name: Option<String>,
    /// Non-empty label for people.
    pub display_name: String,
    pub status: ProcessStatus,
    pub workload: WorkloadView,
    /// Submitting thread.
    pub thread: ThreadId,
    /// Working directory.
    pub cwd: String,
    /// Git worktree root captured when the executor accepted the task.
    pub project_root: Option<String>,
    /// Machine that owns callbacks. Present with `execution_machine`.
    pub origin_machine: Option<MachineId>,
    /// Machine that runs the task. Present with `origin_machine`.
    pub execution_machine: Option<MachineId>,
    /// Worker pid while running. Display only.
    pub pid: Option<i32>,
    /// Terminal callback delivery state; a placeholder when the origin owns delivery.
    pub callback: CallbackStatus,
    /// Output-inactivity timeout in whole seconds.
    pub timeout_secs: u128,
    /// Whether the inactivity reminder is pending or sent.
    pub check_timeout: CheckTimeoutStatus,
    /// Why the process ended, once known.
    pub exit_reason: Option<ExitReason>,
    /// When cancel was requested.
    pub cancel_requested_at: Option<Timestamp>,
    /// Insert time.
    pub created_at: Timestamp,
    /// Last row update. For a terminal task this is the finish time.
    pub updated_at: Timestamp,
}

/// Callback state that a task is shown with.
pub open spec fn shown_callback(
    row: TaskRow,
    presentation: Option<TaskPresentation>,
) -> CallbackStatus {
    match presentation {
        None => row.callback_status,
        Some(presentation) => match presentation.terminal_callback {
            TerminalCallbackProjection::Legacy(status) => status,
            TerminalCallbackProjection::OriginInbox(status) => status,
            TerminalCallbackProjection::NotOwned => CallbackStatus::Pending,
        },
    }
}

/// Whether a task is shown with its reminder delivered.
pub open spec fn reminder_delivered(row: TaskRow, presentation: Option<TaskPresentation>) -> bool {
    match presentation {
        None => row.attention == AttentionState::Delivered,
        Some(presentation) => presentation.attention_delivered,
    }
}

/// Whether a summary is the view of a stored task and its metadata.
pub open spec fn shows(
    summary: TaskSummary,
    task: StoredTask,
    presentation: Option<TaskPresentation>,
) -> bool {
    let owners = match presentation {
        Some(presentation) => presentation.owners,
        None => None,
    };
    &&& summary.id == task.row.id
    &&& summary.name == task.name
    &&& summary.display_name == task.display_name
    &&& summary.status == task.row.status
    &&& summary.workload@ == task.workload@
    &&& summary.thread == task.row.thread
    &&& summary.cwd == task.cwd
    &&& summary.project_root == (match presentation {
        Some(presentation) => presentation.project_root,
        None => None,
    })
    &&& summary.origin_machine == (match owners {
        Some(owners) => Some(owners.origin_machine),
        None => None,
    })
    &&& summary.execution_machine == (match owners {
        Some(owners) => Some(owners.execution_machine),
        None => None,
    })
    &&& summary.pid == task.row.pid
    &&& summary.callback == shown_callback(task.row, presentation)
    &&& summary.timeout_secs == task.row.timeout.nanos as int / NANOS_PER_SEC as int
    &&& summary.check_timeout == if reminder_delivered(task.row, presentation) {
        CheckTimeoutStatus::Sent
    } else {
        CheckTimeoutStatus::Pending
    }
    &&& summary.exit_reason == task.exit_reason
    &&& summary.cancel_requested_at == task.cancel_requested_at
    &&& summary.created_at == task.row.created_at
    &&& summary.updated_at == task.updated_at
}

/// What some optional metadata refers to.
pub open spec fn referred(presentation: Option<&TaskPresentation>) -> Option<TaskPresentation> {
    match presentation {
        Some(presentation) => Some(*presentation),
        None => None,
    }
}

impl TaskSummary {
    /// Build a view from one task and its optional stored metadata.
    pub fn from_row(task: &StoredTask, presentation: Option<&TaskPresentation>) -> (summary:
        TaskSummary)
        ensures
            shows(summary, *task, referred(presentation)),
    {
        let owners = match presentation {
            Some(presentation) => presentation.owners,
            None => None,
        };
        let project_root = match presentation {
            Some(presentation) => copy_optional(&presentation.project_root),
            None => None,
        };
        let callback = match presentation {
            None => task.row.callback_status,
            Some(presentation) => match presentation.terminal_callback {
                TerminalCallbackProjection::Legacy(status) => status,
                TerminalCallbackProjection::OriginInbox(status) => status,
                TerminalCallbackProjection::NotOwned => CallbackStatus::Pending,
            },
        };
        let delivered = match presentation {
            None => match task.row.attention {
                AttentionState::Delivered => true,
                _ => false,
            },
            Some(presentation) => presentation.attention_delivered,
        };
        TaskSummary {
            id: task.row.id,
            name: copy_optional(&task.name),
            display_name: task.display_name.clone(),
            status: task.row.status,
            workload: task.workload.duplicate(),
            thread: task.row.thread,
            cwd: task.cwd.clone(),
            project_root,
            origin_machine: match owners {
                Some(owners) => Some(owners.origin_machine),
                None => None,
            },
            execution_machine: match owners {
                Some(owners) => Some(owners.execution_machine),
                None => None,
            },
            pid: task.row.pid,
            callback,
            timeout_secs: task.row.timeout.nanos / NANOS_PER_SEC,
            check_timeout: if delivered {
                CheckTimeoutStatus::Sent
            } else {
                CheckTimeoutStatus::Pending
            },
            exit_reason: match &task.exit_reason {
                Some(reason) => Some(reason.clone()),
                None => None,
            },
            cancel_requested_at: task.cancel_requested_at,
            created_at: task.row.created_at,
            updated_at: task.updated_at,
        }
    }
}

/// A view shows both machines of a task or neither.
pub proof fn owners_are_shown_together(
    summary: TaskSummary,
    task: StoredTask,
    presentation: Option<TaskPresentation>,
)
    requires
        shows(summary, task, presentation),
    ensures
        summary.origin_machine is Some <==> summary.execution_machine is Some,
{
}

/// Tasks in the order of their identities, which is creation order for version 7 identities.
#[derive(Debug)]
pub struct TaskList {
    /// Schema version.
    pub api_version: u32,
    pub tasks: Vec<TaskSummary>,
}

/// The metadata of one task in a table by task.
pub open spec fn presented(presentations: Map<u128, TaskPresentation>, id: TaskId) -> Option<
    TaskPresentation,
> {
    if presentations.contains_key(id.0) {
        Some(presentations[id.0])
    } else {
        None
    }
}

/// Whether summaries are the views of stored tasks, in order.
pub open spec fn lists(
    summaries: Seq<TaskSummary>,
    tasks: Seq<StoredTask>,
    presentations: Map<u128, TaskPresentation>,
) -> bool {
    &&& summaries.len() == tasks.len()
    &&& forall|at: int|
        0 <= at < tasks.len() ==> shows(
            #[trigger] summaries[at],
            tasks[at],
            presented(presentations, tasks[at].row.id),
        )
}

impl TaskList {
    /// Build from stored tasks and their metadata by task.
    pub fn from_rows(
        tasks: &Vec<StoredTask>,
        presentations: &HashMap<u128, TaskPresentation>,
    ) -> (list: TaskList)
        ensures
            list.api_version == API_VERSION,
            lists(list.tasks@, tasks@, presentations@),
    {
        let mut summaries: Vec<TaskSummary> = Vec::new();
        let mut index: usize = 0;
        while index < tasks.len()
            invariant
                index <= tasks.len(),
                summaries@.len() == index,
                forall|at: int|
                    0 <= at < index ==> shows(
                        #[trigger] summaries@[at],
                        tasks@[at],
                        presented(presentations@, tasks@[at].row.id),
                    ),
            decreases tasks.len() - index,
        {
            let presentation = presentations.get(&tasks[index].row.id.0);
            proof {
                assert(referred(presentation) == presented(
                    presentations@,
                    tasks@[index as int].row.id,
                ));
            }
            summaries.push(TaskSummary::from_row(&tasks[index], presentation));
            index += 1;
        }
        TaskList { api_version: API_VERSION, tasks: summaries }
    }
}

/// What the task layer saved of a container.
#[derive(Debug)]
pub struct TaskContainerRecord {
    pub container_id: Option<String>,
    pub started_at: Option<Timestamp>,
}

/// Container that a container task owns, as the task layer saved it.
#[derive(Debug)]
pub struct ContainerDetail {
    /// Fixed container name.
    pub name: String,
    /// Image pinned by digest.
    pub image: String,
    /// Container ID, once the worker saved it.
    pub container_id: Option<String>,
    /// When a worker first saw the container start.
    pub started_at: Option<Timestamp>,
    /// Witness that the container stopped and was removed.
    pub exit_evidence: ContainerExitEvidence,
}

impl ContainerDetail {
    /// Build the view of a container task, or nothing for other workloads. `name` is the
    /// fixed name of the task's container.
    pub fn from_row(
        task: &StoredTask,
        name: String,
        record: Option<&TaskContainerRecord>,
    ) -> (detail: Option<ContainerDetail>)
        ensures
            match task.workload {
                WorkloadView::Container { image, .. } => {
                    &&& detail matches Some(detail)
                    &&& detail.name == name
                    &&& detail.image == image
                    &&& detail.container_id == (match record {
                        Some(record) => record.container_id,
                        None => None,
                    })
                    &&& detail.started_at == (match record {
                        Some(record) => record.started_at,
                        None => None,
                    })
                    &&& detail.exit_evidence == task.container_exit_evidence
                },
                _ => detail is None,
            },
    {
        match &task.workload {
            WorkloadView::Container { image, .. } => Some(
                ContainerDetail {
                    name,
                    image: image.clone(),
                    container_id: match record {
                        Some(record) => copy_optional(&record.container_id),
                        None => None,
                    },
                    started_at: match record {
                        Some(record) => record.started_at,
                        None => None,
                    },
                    exit_evidence: task.container_exit_evidence,
                },
            ),
            _ => None,
        }
    }
}

/// All that is shown of one task.
#[derive(Debug)]
pub struct TaskDetail {
    /// Schema version.
    pub api_version: u32,
    /// Fields shared with the list.
    pub summary: TaskSummary,
    /// Worker reports in order, as JSON.
    pub reports: Vec<String>,
    /// Combined stdout and stderr of the child.
    pub output_log: String,
    /// Task directory.
    pub evidence: String,
    /// Event already sent, or the one that will be sent, as JSON. Nothing while running with
    /// no interim event.
    pub last_event: Option<String>,
    /// Container of a container task and its witness.
    pub container: Option<ContainerDetail>,
}

/// The end of a task's log.
#[derive(Debug)]
pub struct LogTail {
    /// Schema version.
    pub api_version: u32,
    pub id: TaskId,
    /// Log text. Empty while the child has written nothing.
    pub log: String,
    /// Whether earlier lines were dropped.
    pub truncated: bool,
}

} // verus!
