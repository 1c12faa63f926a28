//! Submissions, reads and cancellations on the local socket.

pub mod filter;
pub mod views;

use std::collections::HashMap;

use vstd::prelude::*;
use vstd::string::StrSliceExecFns;
use vstd::string::StringExecFns;

use crate::actors::store::StoreMsg;
use crate::actors::supervisor::messages::SupervisorMsg;
use crate::api::filter::{parsed_filter, ListQuery, TaskFilter};
use crate::api::views::{
    lists, presented, shows, ContainerDetail, LogTail, StatusBody, StoredTask,
    TaskContainerRecord, TaskDetail, TaskList, TaskPresentation, TaskSummary,
};
use crate::cancel_delivery::{response, CancellationView};
use crate::cancellation::{CancellationDelivery, CancellationOwner, CancellationRequest};
use crate::cluster::StdinPolicy;
use crate::domain::{
    needed_files, new_queued_task, optional_text, prompt_files, queued_row, CancelResult,
    NormalizedSpec, NormalizedWorkload, ProcessStatus, PromptFiles, TaskEnv, TaskPlacement, TaskRow,
};
use crate::error::{usage, AppError, ErrorView};
use crate::fleet::API_VERSION;
use crate::ids::{hyphenated, CancellationId, MachineId, RequestId, TaskId};
use crate::json::{document, json_document, json_pointed, json_string, pointed, string_value};
use crate::path::{join, joined};
use crate::text::{decimal, decimal_digits, join2, join3};
use crate::time::Timestamp;

verus! {

broadcast use vstd::std_specs::hash::group_hash_axioms;

/// A validated submission. The envelope, the specification and the captured environment were
/// each checked on their own.
#[derive(Debug)]
pub struct SubmitBody {
    pub spec: NormalizedSpec,
    pub env: TaskEnv,
    /// Retry identity of a remote submission.
    pub request: Option<RequestId>,
    pub callback_cwd: Option<String>,
}

/// The top level of a submission, with its two parts still as JSON texts.
#[derive(Debug)]
pub struct SubmitEnvelope {
    pub spec: Option<String>,
    pub env: Option<String>,
    pub request_id: Option<RequestId>,
    pub callback_cwd: Option<String>,
}

/// One step into a JSON document.
#[derive(Debug)]
pub enum PathSegment {
    Index(u64),
    Key(String),
}

/// Where and why a typed parse failed.
#[derive(Debug)]
pub struct ParseFailure {
    /// Steps from the parsed document's root.
    pub path: Vec<PathSegment>,
    pub message: String,
}

/// A key as one part of a JSON pointer: a tilde is written as `~0` and a slash as `~1`.
pub open spec fn escaped(key: Seq<char>) -> Seq<char>
    decreases key.len(),
{
    if key.len() == 0 {
        Seq::empty()
    } else {
        escaped(key.drop_last()) + (if key.last() == '~' {
            "~0"@
        } else if key.last() == '/' {
            "~1"@
        } else {
            seq![key.last()]
        })
    }
}

fn escape(key: &str) -> (text: String)
    ensures
        text@ == escaped(key@),
{
    let total: usize = key.unicode_len();
    let mut text = "".to_owned();
    let mut at: usize = 0;
    proof {
        reveal_strlit("");
        assert(text@ =~= Seq::<char>::empty());
    }
    while at < total
        invariant
            at <= total,
            total == key@.len(),
            text@ == escaped(key@.take(at as int)),
        decreases total - at,
    {
        proof {
            let next = key@.take(at as int + 1);
            assert(next.drop_last() =~= key@.take(at as int));
            assert(next.last() == key@[at as int]);
        }
        let c = key.get_char(at);
        if c == '~' {
            text.append("~0");
        } else if c == '/' {
            text.append("~1");
        } else {
            text.append(key.substring_char(at, at + 1));
            proof {
                assert(key@.subrange(at as int, at as int + 1) =~= seq![key@[at as int]]);
            }
        }
        at += 1;
    }
    proof {
        assert(key@.take(total as int) =~= key@);
    }
    text
}

/// The JSON pointer of some steps.
pub open spec fn pointer_text(path: Seq<PathSegment>) -> Seq<char>
    decreases path.len(),
{
    if path.len() == 0 {
        Seq::empty()
    } else {
        pointer_text(path.drop_last()) + "/"@ + (match path.last() {
            PathSegment::Index(index) => decimal_digits(index as nat),
            PathSegment::Key(key) => escaped(key@),
        })
    }
}

/// The JSON pointer of some steps.
pub fn json_pointer(path: &Vec<PathSegment>) -> (pointer: String)
    ensures
        pointer@ == pointer_text(path@),
{
    let mut pointer = "".to_owned();
    let mut at: usize = 0;
    proof {
        reveal_strlit("");
        assert(pointer@ =~= Seq::<char>::empty());
    }
    while at < path.len()
        invariant
            at <= path.len(),
            pointer@ == pointer_text(path@.take(at as int)),
        decreases path.len() - at,
    {
        proof {
            let next = path@.take(at as int + 1);
            assert(next.drop_last() =~= path@.take(at as int));
            assert(next.last() == path@[at as int]);
        }
        pointer.append("/");
        let part = match &path[at] {
            PathSegment::Index(index) => decimal(*index),
            PathSegment::Key(key) => escape(key.as_str()),
        };
        pointer.append(part.as_str());
        at += 1;
    }
    proof {
        assert(path@.take(path.len() as int) =~= path@);
    }
    pointer
}

/// What [`missing_field`] gives.
pub open spec fn missing(pointer: Seq<char>, name: Seq<char>) -> ErrorView {
    ErrorView::InvalidSpec {
        pointer,
        value: "null"@,
        message: "missing field `"@ + name + "`"@,
    }
}

/// An invalid specification that lacks a field.
pub fn missing_field(pointer: &str, name: &str) -> (error: AppError)
    ensures
        error@ == missing(pointer@, name@),
{
    AppError::InvalidSpec {
        pointer: pointer.to_owned(),
        value: "null".to_owned(),
        message: join3("missing field `", name, "`"),
    }
}

/// What [`invalid_at`] gives.
pub open spec fn invalid(root: Seq<char>, prefix: Seq<char>, failure: ParseFailure) -> ErrorView {
    let pointer = pointer_text(failure.path@);
    ErrorView::InvalidSpec {
        pointer: prefix + pointer,
        value: match json_pointed(root, pointer) {
            Some(value) => value,
            None => "null"@,
        },
        message: failure.message@,
    }
}

/// An invalid specification at the failing path of the document `root`, which itself stands
/// at `prefix`.
pub fn invalid_at(root: &str, prefix: &str, failure: ParseFailure) -> (error: AppError)
    ensures
        error@ == invalid(root@, prefix@, failure),
{
    let pointer = json_pointer(&failure.path);
    let value = match pointed(root, pointer.as_str()) {
        Some(value) => value,
        None => "null".to_owned(),
    };
    AppError::InvalidSpec {
        pointer: join2(prefix, pointer.as_str()),
        value,
        message: failure.message,
    }
}

/// What [`prefix`] gives.
pub open spec fn prefixed(prefix: Seq<char>, error: ErrorView) -> ErrorView {
    match error {
        ErrorView::InvalidSpec { pointer, value, message } => ErrorView::InvalidSpec {
            pointer: prefix + pointer,
            value,
            message,
        },
        other => other,
    }
}

/// Put an invalid specification's pointer under `root`; any other error stays.
pub fn prefix(root: &str, error: AppError) -> (result: AppError)
    ensures
        result@ == prefixed(root@, error@),
        !(error is InvalidSpec) ==> result == error,
{
    match error {
        AppError::InvalidSpec { pointer, value, message } => AppError::InvalidSpec {
            pointer: join2(root, pointer.as_str()),
            value,
            message,
        },
        other => other,
    }
}

/// Next part of reading a submission.
#[derive(Debug)]
pub enum SpecBodyStep {
    /// Parse the envelope; unknown members make it fail.
    ParseEnvelope { document: String, next: AwaitEnvelope },
    /// Parse the captured environment.
    ParseEnv { value: String, next: AwaitEnv },
    /// Parse and normalize the specification.
    ParseSpec { value: String, next: AwaitSpec },
    Done(Result<SubmitBody, AppError>),
}

/// Waiting for the envelope.
#[derive(Debug)]
pub struct AwaitEnvelope {
    pub document: String,
}

/// Waiting for the environment.
#[derive(Debug)]
pub struct AwaitEnv {
    pub value: String,
    pub spec: Option<String>,
    pub request_id: Option<RequestId>,
    pub callback_cwd: Option<String>,
}

/// Waiting for the specification.
#[derive(Debug)]
pub struct AwaitSpec {
    pub env: TaskEnv,
    pub request_id: Option<RequestId>,
    pub callback_cwd: Option<String>,
}

/// Whether a step refuses a body as a whole, with this message.
pub open spec fn refuses_body(step: SpecBodyStep, message: Seq<char>) -> bool {
    step matches SpecBodyStep::Done(Err(error)) && error@ == (ErrorView::InvalidSpec {
        pointer: ""@,
        value: "null"@,
        message,
    })
}

fn refuse_body(message: String) -> (step: SpecBodyStep)
    ensures
        refuses_body(step, message@),
{
    SpecBodyStep::Done(
        Err(
            AppError::InvalidSpec {
                pointer: "".to_owned(),
                value: "null".to_owned(),
                message,
            },
        ),
    )
}

/// The first step on a body, given what it holds as a JSON document.
pub open spec fn document_step(
    parsed: Result<Seq<char>, Seq<char>>,
    step: SpecBodyStep,
) -> bool {
    match parsed {
        Err(error) => refuses_body(step, "invalid JSON: "@ + error),
        Ok(text) => {
            &&& step matches SpecBodyStep::ParseEnvelope { document, next }
            &&& document@ == text
            &&& next.document@ == text
        },
    }
}

/// The first step on a body, given what it holds as a JSON document.
pub fn read_document(parsed: Result<String, String>) -> (step: SpecBodyStep)
    ensures
        document_step(crate::json::text_result(parsed), step),
{
    match parsed {
        Err(error) => refuse_body(join2("invalid JSON: ", error.as_str())),
        Ok(text) => SpecBodyStep::ParseEnvelope {
            document: text.clone(),
            next: AwaitEnvelope { document: text },
        },
    }
}

/// Read a submission. Every failure is an invalid specification at its own place.
///
/// `body` is the request body, or why it could not be read.
pub fn from_request(body: Result<Vec<u8>, String>) -> (step: SpecBodyStep)
    ensures
        match body {
            Err(error) => refuses_body(step, "invalid request body: "@ + error@),
            Ok(bytes) => document_step(json_document(bytes@), step),
        },
{
    match body {
        Err(error) => refuse_body(join2("invalid request body: ", error.as_str())),
        Ok(bytes) => read_document(document(&bytes)),
    }
}

impl AwaitEnvelope {
    /// The environment is read before the specification, and neither may be missing.
    pub fn on_envelope(self, parsed: Result<SubmitEnvelope, ParseFailure>) -> (step: SpecBodyStep)
        ensures
            match parsed {
                Err(failure) => step matches SpecBodyStep::Done(Err(error)) && error@ == invalid(
                    self.document@,
                    ""@,
                    failure,
                ),
                Ok(envelope) => match envelope.env {
                    None => step matches SpecBodyStep::Done(Err(error)) && error@ == missing(
                        "/env"@,
                        "env"@,
                    ),
                    Some(env) => step == (SpecBodyStep::ParseEnv {
                        value: env,
                        next: AwaitEnv {
                            value: env,
                            spec: envelope.spec,
                            request_id: envelope.request_id,
                            callback_cwd: envelope.callback_cwd,
                        },
                    }),
                },
            },
    {
        match parsed {
            Err(failure) => SpecBodyStep::Done(
                Err(invalid_at(self.document.as_str(), "", failure)),
            ),
            Ok(envelope) => match envelope.env {
                None => SpecBodyStep::Done(Err(missing_field("/env", "env"))),
                Some(env) => SpecBodyStep::ParseEnv {
                    value: env.clone(),
                    next: AwaitEnv {
                        value: env,
                        spec: envelope.spec,
                        request_id: envelope.request_id,
                        callback_cwd: envelope.callback_cwd,
                    },
                },
            },
        }
    }
}

impl AwaitEnv {
    /// Go on with the specification.
    pub fn on_env(self, parsed: Result<TaskEnv, ParseFailure>) -> (step: SpecBodyStep)
        ensures
            match parsed {
                Err(failure) => step matches SpecBodyStep::Done(Err(error)) && error@ == invalid(
                    self.value@,
                    "/env"@,
                    failure,
                ),
                Ok(env) => match self.spec {
                    None => step matches SpecBodyStep::Done(Err(error)) && error@ == missing(
                        "/spec"@,
                        "spec"@,
                    ),
                    Some(spec) => step == (SpecBodyStep::ParseSpec {
                        value: spec,
                        next: AwaitSpec {
                            env,
                            request_id: self.request_id,
                            callback_cwd: self.callback_cwd,
                        },
                    }),
                },
            },
    {
        match parsed {
            Err(failure) => SpecBodyStep::Done(
                Err(invalid_at(self.value.as_str(), "/env", failure)),
            ),
            Ok(env) => match self.spec {
                None => SpecBodyStep::Done(Err(missing_field("/spec", "spec"))),
                Some(spec) => SpecBodyStep::ParseSpec {
                    value: spec,
                    next: AwaitSpec {
                        env,
                        request_id: self.request_id,
                        callback_cwd: self.callback_cwd,
                    },
                },
            },
        }
    }
}

impl AwaitSpec {
    /// A remote submission has a retry identity, its own or a fresh one; a local one has none.
    pub fn on_spec(self, parsed: Result<NormalizedSpec, AppError>, fresh: RequestId) -> (step:
        SpecBodyStep)
        ensures
            match parsed {
                Err(error) => step matches SpecBodyStep::Done(Err(found)) && found@ == prefixed(
                    "/spec"@,
                    error@,
                ),
                Ok(spec) => match (spec.machine, self.request_id) {
                    (None, Some(request_id)) => step matches SpecBodyStep::Done(Err(found))
                        && found@ == (ErrorView::InvalidSpec {
                        pointer: "/request_id"@,
                        value: json_string(hyphenated(request_id.0)),
                        message:
                            "request_id is only valid for remote submissions with spec.machine"@,
                    }),
                    (machine, request_id) => step == SpecBodyStep::Done(
                        Ok(
                            SubmitBody {
                                spec,
                                env: self.env,
                                request: match (machine, request_id) {
                                    (None, _) => None,
                                    (Some(_), Some(request_id)) => Some(request_id),
                                    (Some(_), None) => Some(fresh),
                                },
                                callback_cwd: self.callback_cwd,
                            },
                        ),
                    ),
                },
            },
    {
        let spec = match parsed {
            Ok(spec) => spec,
            Err(error) => {
                return SpecBodyStep::Done(Err(prefix("/spec", error)));
            },
        };
        let request = match (spec.machine.is_some(), self.request_id) {
            (true, Some(request_id)) => Some(request_id),
            (true, None) => Some(fresh),
            (false, Some(request_id)) => {
                let uuid = request_id.text();
                return SpecBodyStep::Done(
                    Err(
                        AppError::InvalidSpec {
                            pointer: "/request_id".to_owned(),
                            value: string_value(uuid.as_str()),
                            message:
                                "request_id is only valid for remote submissions with spec.machine".to_owned(),
                        },
                    ),
                );
            },
            (false, None) => None,
        };
        SpecBodyStep::Done(
            Ok(SubmitBody { spec, env: self.env, request, callback_cwd: self.callback_cwd }),
        )
    }
}

/// Answer to a submission.
#[derive(Debug, Clone, Copy, PartialEq, Eq, Structural)]
pub struct SubmitResponse {
    pub api_version: u32,
    pub id: TaskId,
    pub task_id: TaskId,
    /// Retry identity of a remote submission.
    pub request_id: Option<RequestId>,
    pub status: ProcessStatus,
}

impl SubmitResponse {
    /// Answer for an accepted task.
    pub fn new(id: TaskId, status: ProcessStatus, request_id: Option<RequestId>) -> (answer:
        SubmitResponse)
        ensures
            answer == (SubmitResponse {
                api_version: API_VERSION,
                id,
                task_id: id,
                request_id,
                status,
            }),
    {
        SubmitResponse { api_version: API_VERSION, id, task_id: id, request_id, status }
    }

    /// This answer as JSON; a local submission has no retry identity to show.
    pub fn to_json(&self) -> (text: String)
        ensures
            text@ == "{\"api_version\":"@ + decimal_digits(self.api_version as nat) + ",\"id\":"@
                + json_string(hyphenated(self.id.0)) + ",\"task_id\":"@ + json_string(
                hyphenated(self.task_id.0),
            ) + (match self.request_id {
                Some(request_id) => ",\"request_id\":"@ + json_string(hyphenated(request_id.0)),
                None => ""@,
            }) + ",\"status\":"@ + json_string(self.status.name()) + "}"@,
    {
        let version = decimal(self.api_version as u64);
        let id = self.id.text();
        let task_id = self.task_id.text();
        let request = match self.request_id {
            Some(request_id) => {
                let uuid = request_id.text();
                join2(",\"request_id\":", string_value(uuid.as_str()).as_str())
            },
            None => "".to_owned(),
        };
        let mut text = "{\"api_version\":".to_owned();
        text.append(version.as_str());
        text.append(",\"id\":");
        text.append(string_value(id.as_str()).as_str());
        text.append(",\"task_id\":");
        text.append(string_value(task_id.as_str()).as_str());
        text.append(request.as_str());
        text.append(",\"status\":");
        text.append(string_value(self.status.as_str()).as_str());
        text.append("}");
        text
    }
}

/// Next part of accepting a local task.
#[derive(Debug)]
pub enum AcceptStep {
    /// Check that the working directory is usable.
    CheckCwd { cwd: String, next: AwaitCwd },
    /// Find the workload's program by this search path and directory, and allocate a task
    /// identity.
    ResolveBinary { path: String, cwd: String, next: AwaitBinary },
    /// Create the task's directory, and write these prompt files into it.
    Prepare { id: TaskId, files: Option<PromptFiles>, next: AwaitPrepared },
    AskLaunch { message: SupervisorMsg, next: AwaitLaunched },
    Done(Result<(TaskId, ProcessStatus), AppError>),
}

/// Waiting for the check of the working directory.
#[derive(Debug)]
pub struct AwaitCwd {
    pub spec: NormalizedSpec,
    pub env: TaskEnv,
}

/// Waiting for the workload's program.
#[derive(Debug)]
pub struct AwaitBinary {
    pub spec: NormalizedSpec,
    pub env: TaskEnv,
}

/// Waiting for the task's files.
#[derive(Debug)]
pub struct AwaitPrepared {
    pub id: TaskId,
    pub now: Timestamp,
    pub spec: NormalizedSpec,
    pub env: TaskEnv,
    pub binary: String,
}

/// Waiting for the supervisor.
#[derive(Debug, Clone, Copy, PartialEq, Eq, Structural)]
pub struct AwaitLaunched {
    pub id: TaskId,
}

/// Accept a task that runs on this machine.
pub fn accept_task(spec: NormalizedSpec, env: TaskEnv) -> (step: AcceptStep)
    ensures
        match spec.machine {
            Some(_) => step matches AcceptStep::Done(Err(error)) && error@ == (ErrorView::Usage {
                message: "local task acceptance received a remote machine selector"@,
            }),
            None => step == (AcceptStep::CheckCwd {
                cwd: spec.cwd,
                next: AwaitCwd { spec, env },
            }),
        },
{
    if spec.machine.is_some() {
        return AcceptStep::Done(
            Err(usage("local task acceptance received a remote machine selector")),
        );
    }
    AcceptStep::CheckCwd { cwd: spec.cwd.clone(), next: AwaitCwd { spec, env } }
}

impl AwaitCwd {
    /// Go on with a usable working directory.
    pub fn on_checked(self, checked: Result<(), AppError>) -> (step: AcceptStep)
        ensures
            step == (match checked {
                Err(error) => AcceptStep::Done(Err(error)),
                Ok(_) => AcceptStep::ResolveBinary {
                    path: self.env.path,
                    cwd: self.spec.cwd,
                    next: AwaitBinary { spec: self.spec, env: self.env },
                },
            }),
    {
        match checked {
            Err(error) => AcceptStep::Done(Err(error)),
            Ok(_) => AcceptStep::ResolveBinary {
                path: self.env.path.clone(),
                cwd: self.spec.cwd.clone(),
                next: AwaitBinary { spec: self.spec, env: self.env },
            },
        }
    }
}

impl AwaitBinary {
    /// Prepare the files of a task whose program exists.
    pub fn on_binary(self, found: Result<String, AppError>, id: TaskId, now: Timestamp) -> (step:
        AcceptStep)
        ensures
            step == (match found {
                Err(error) => AcceptStep::Done(Err(error)),
                Ok(binary) => AcceptStep::Prepare {
                    id,
                    files: needed_files(self.spec.workload),
                    next: AwaitPrepared { id, now, spec: self.spec, env: self.env, binary },
                },
            }),
    {
        match found {
            Err(error) => AcceptStep::Done(Err(error)),
            Ok(binary) => {
                let files = prompt_files(&self.spec.workload);
                AcceptStep::Prepare {
                    id,
                    files,
                    next: AwaitPrepared { id, now, spec: self.spec, env: self.env, binary },
                }
            },
        }
    }
}

impl AwaitPrepared {
    /// Hand the queued row to the supervisor.
    pub fn on_prepared(self, prepared: Result<(), AppError>) -> (step: AcceptStep)
        ensures
            step == (match prepared {
                Err(error) => AcceptStep::Done(Err(error)),
                Ok(_) => AcceptStep::AskLaunch {
                    message: SupervisorMsg::Launch {
                        row: queued_row(self.id, self.spec.thread, self.spec.timeout, self.now),
                        placement: TaskPlacement {
                            cwd: self.spec.cwd,
                            env: self.env,
                            binary: self.binary,
                        },
                        spec: self.spec,
                    },
                    next: AwaitLaunched { id: self.id },
                },
            }),
    {
        match prepared {
            Err(error) => AcceptStep::Done(Err(error)),
            Ok(_) => AcceptStep::AskLaunch {
                message: SupervisorMsg::Launch {
                    row: new_queued_task(self.id, self.spec.thread, self.spec.timeout, self.now),
                    placement: TaskPlacement {
                        cwd: self.spec.cwd.clone(),
                        env: self.env,
                        binary: self.binary,
                    },
                    spec: self.spec,
                },
                next: AwaitLaunched { id: self.id },
            },
        }
    }
}

impl AwaitLaunched {
    /// A launched task is answered as queued.
    pub fn on_launched(self, launched: Result<(), AppError>) -> (step: AcceptStep)
        ensures
            step == AcceptStep::Done(
                match launched {
                    Err(error) => Err(error),
                    Ok(_) => Ok((self.id, ProcessStatus::Queued)),
                },
            ),
    {
        match launched {
            Err(error) => AcceptStep::Done(Err(error)),
            Ok(_) => AcceptStep::Done(Ok((self.id, ProcessStatus::Queued))),
        }
    }
}

/// What a submission would run.
#[derive(Debug)]
pub struct DryRunResponse {
    pub api_version: u32,
    pub spec: NormalizedSpec,
    pub argv: Vec<String>,
    pub stdin: StdinPolicy,
    /// Directory on the executor, for a remote preview.
    pub execution_cwd: Option<String>,
    /// Managed environment as JSON, when there is one.
    pub managed_environment: Option<String>,
}

/// A command line that was built but not started.
#[derive(Debug)]
pub struct Invocation {
    pub argv: Vec<String>,
    pub stdin: StdinPolicy,
    /// Managed environment as JSON, when there is one.
    pub managed_environment: Option<String>,
}

/// Next part of a dry run.
#[derive(Debug)]
pub enum DryRunStep {
    /// Preview on the selected machine.
    Remote { spec: NormalizedSpec, env: TaskEnv },
    /// Check that the working directory is usable.
    CheckCwd { cwd: String, next: AwaitPreviewCwd },
    /// Build the command line with this search path and feed path.
    Build { path: String, feed: Option<String>, next: AwaitInvocation },
    Done(Result<DryRunResponse, AppError>),
}

/// Waiting for the check of the working directory.
#[derive(Debug)]
pub struct AwaitPreviewCwd {
    pub spec: NormalizedSpec,
    pub env: TaskEnv,
}

/// Waiting for the command line.
#[derive(Debug)]
pub struct AwaitInvocation {
    pub spec: NormalizedSpec,
}

/// The feed path that a dry run shows.
pub open spec fn feed_placeholder(root: Seq<char>, workload: NormalizedWorkload) -> Option<
    Seq<char>,
> {
    match workload {
        NormalizedWorkload::Agent { .. } => Some(
            joined(joined(joined(root, "tasks"@), "<task-id>"@), "prompt.feed.txt"@),
        ),
        NormalizedWorkload::Task { .. } => None,
    }
}

/// Deterministic feed path of a dry run for any agent; other workloads have none.
pub fn agent_feed_placeholder(root: &str, workload: &NormalizedWorkload) -> (feed: Option<String>)
    ensures
        optional_text(feed) == feed_placeholder(root@, *workload),
{
    match workload {
        NormalizedWorkload::Agent { .. } => {
            let tasks = join(root, "tasks");
            let task = join(tasks.as_str(), "<task-id>");
            Some(join(task.as_str(), "prompt.feed.txt"))
        },
        NormalizedWorkload::Task { .. } => None,
    }
}

/// Show what a submission would run, on the machine where it would run.
pub fn dry_run(spec: NormalizedSpec, env: TaskEnv) -> (step: DryRunStep)
    ensures
        step == (match spec.machine {
            Some(_) => DryRunStep::Remote { spec, env },
            None => DryRunStep::CheckCwd { cwd: spec.cwd, next: AwaitPreviewCwd { spec, env } },
        }),
{
    if spec.machine.is_some() {
        DryRunStep::Remote { spec, env }
    } else {
        local_dry_run(spec, env)
    }
}

/// Show what a local submission would run.
pub fn local_dry_run(spec: NormalizedSpec, env: TaskEnv) -> (step: DryRunStep)
    ensures
        step == (DryRunStep::CheckCwd { cwd: spec.cwd, next: AwaitPreviewCwd { spec, env } }),
{
    DryRunStep::CheckCwd { cwd: spec.cwd.clone(), next: AwaitPreviewCwd { spec, env } }
}

impl AwaitPreviewCwd {
    /// Build the command line in a usable directory.
    pub fn on_checked(self, checked: Result<(), AppError>, root: &str) -> (step: DryRunStep)
        ensures
            match checked {
                Err(error) => step == DryRunStep::Done(Err(error)),
                Ok(_) => {
                    &&& step matches DryRunStep::Build { path, feed, next }
                    &&& path == self.env.path
                    &&& optional_text(feed) == feed_placeholder(root@, self.spec.workload)
                    &&& next == (AwaitInvocation { spec: self.spec })
                },
            },
    {
        match checked {
            Err(error) => DryRunStep::Done(Err(error)),
            Ok(_) => {
                let feed = agent_feed_placeholder(root, &self.spec.workload);
                DryRunStep::Build {
                    path: self.env.path,
                    feed,
                    next: AwaitInvocation { spec: self.spec },
                }
            },
        }
    }
}

impl AwaitInvocation {
    /// Answer with the command line.
    pub fn on_invocation(self, built: Result<Invocation, AppError>) -> (step: DryRunStep)
        ensures
            step == DryRunStep::Done(
                match built {
                    Err(error) => Err(error),
                    Ok(invocation) => Ok(
                        DryRunResponse {
                            api_version: API_VERSION,
                            spec: self.spec,
                            argv: invocation.argv,
                            stdin: invocation.stdin,
                            execution_cwd: None,
                            managed_environment: invocation.managed_environment,
                        },
                    ),
                },
            ),
    {
        match built {
            Err(error) => DryRunStep::Done(Err(error)),
            Ok(invocation) => DryRunStep::Done(
                Ok(
                    DryRunResponse {
                        api_version: API_VERSION,
                        spec: self.spec,
                        argv: invocation.argv,
                        stdin: invocation.stdin,
                        execution_cwd: None,
                        managed_environment: invocation.managed_environment,
                    },
                ),
            ),
        }
    }
}

/// Next part of listing tasks.
#[derive(Debug)]
pub enum ListStep {
    AskTasks { message: StoreMsg, next: AwaitTasks },
    AskPresentations { message: StoreMsg, next: AwaitPresentations },
    Done(Result<TaskList, AppError>),
}

/// Waiting for the tasks.
#[derive(Debug, Clone, Copy, PartialEq, Eq, Structural)]
pub struct AwaitTasks;

/// Waiting for the metadata of the tasks.
#[derive(Debug)]
pub struct AwaitPresentations {
    pub tasks: Vec<StoredTask>,
}

/// List this machine's tasks.
pub fn list(query: ListQuery) -> (step: ListStep)
    ensures
        match parsed_filter(optional_text(query.status), optional_text(query.thread)) {
            Err(error) => step matches ListStep::Done(Err(found)) && found@ == error,
            Ok((statuses, thread)) => {
                &&& step matches ListStep::AskTasks { message, next }
                &&& message matches StoreMsg::ListTasks { statuses: asked, thread: of }
                &&& asked@ == statuses
                &&& of == thread
            },
        },
{
    match TaskFilter::parse(query) {
        Err(error) => ListStep::Done(Err(error)),
        Ok(filter) => ListStep::AskTasks {
            message: StoreMsg::ListTasks { statuses: filter.statuses, thread: filter.thread },
            next: AwaitTasks,
        },
    }
}

/// The identities of some tasks.
pub open spec fn task_ids(tasks: Seq<StoredTask>) -> Seq<TaskId> {
    tasks.map_values(|task: StoredTask| task.row.id)
}

fn ids_of(tasks: &Vec<StoredTask>) -> (ids: Vec<TaskId>)
    ensures
        ids@ == task_ids(tasks@),
{
    let mut ids: Vec<TaskId> = Vec::new();
    let mut at: usize = 0;
    while at < tasks.len()
        invariant
            at <= tasks.len(),
            ids@ == task_ids(tasks@.take(at as int)),
        decreases tasks.len() - at,
    {
        ids.push(tasks[at].row.id);
        proof {
            assert(task_ids(tasks@.take(at as int + 1)) =~= task_ids(tasks@.take(at as int)).push(
                tasks@[at as int].row.id,
            ));
        }
        at += 1;
    }
    proof {
        assert(tasks@.take(tasks.len() as int) =~= tasks@);
    }
    ids
}

impl AwaitTasks {
    /// Ask for the metadata of exactly these tasks.
    pub fn on_tasks(self, reply: Result<Vec<StoredTask>, AppError>) -> (step: ListStep)
        ensures
            match reply {
                Err(error) => step == ListStep::Done(Err(error)),
                Ok(tasks) => {
                    &&& step matches ListStep::AskPresentations { message, next }
                    &&& message matches StoreMsg::TaskPresentations { ids }
                    &&& ids@ == task_ids(tasks@)
                    &&& next == (AwaitPresentations { tasks })
                },
            },
    {
        match reply {
            Err(error) => ListStep::Done(Err(error)),
            Ok(tasks) => ListStep::AskPresentations {
                message: StoreMsg::TaskPresentations { ids: ids_of(&tasks) },
                next: AwaitPresentations { tasks },
            },
        }
    }
}

impl AwaitPresentations {
    /// Show the tasks with their metadata.
    pub fn on_presentations(self, reply: Result<HashMap<u128, TaskPresentation>, AppError>) -> (step:
        ListStep)
        ensures
            match reply {
                Err(error) => step == ListStep::Done(Err(error)),
                Ok(presentations) => {
                    &&& step matches ListStep::Done(Ok(list))
                    &&& list.api_version == API_VERSION
                    &&& lists(list.tasks@, self.tasks@, presentations@)
                },
            },
    {
        match reply {
            Err(error) => ListStep::Done(Err(error)),
            Ok(presentations) => ListStep::Done(
                Ok(TaskList::from_rows(&self.tasks, &presentations)),
            ),
        }
    }
}

/// Next part of showing a task of this machine.
#[derive(Debug)]
pub enum DetailStep {
    AskTask { message: StoreMsg, next: AwaitDetailTask },
    AskPresentations { message: StoreMsg, next: AwaitDetailPresentation },
    AskReports { message: StoreMsg, next: AwaitReports },
    /// Name the task's files and last event, and read its container record.
    Render { next: AwaitEvidence },
    Failed(AppError),
}

/// Waiting for the task.
#[derive(Debug, Clone, Copy, PartialEq, Eq, Structural)]
pub struct AwaitDetailTask {
    pub id: TaskId,
}

/// Waiting for the metadata of the task.
#[derive(Debug)]
pub struct AwaitDetailPresentation {
    pub id: TaskId,
    pub task: StoredTask,
}

/// Waiting for the task's reports.
#[derive(Debug)]
pub struct AwaitReports {
    pub id: TaskId,
    pub task: StoredTask,
    pub summary: TaskSummary,
}

/// Waiting for the task's files.
#[derive(Debug)]
pub struct AwaitEvidence {
    pub task: StoredTask,
    pub summary: TaskSummary,
    pub reports: Vec<String>,
}

/// Show a task that this machine runs.
pub fn local_detail(id: TaskId) -> (step: DetailStep)
    ensures
        step == (DetailStep::AskTask {
            message: StoreMsg::GetTask { id },
            next: AwaitDetailTask { id },
        }),
{
    DetailStep::AskTask { message: StoreMsg::GetTask { id }, next: AwaitDetailTask { id } }
}

impl AwaitDetailTask {
    /// Ask for the metadata of a task that exists.
    pub fn on_task(self, reply: Result<Option<StoredTask>, AppError>) -> (step: DetailStep)
        ensures
            match reply {
                Err(error) => step == DetailStep::Failed(error),
                Ok(None) => step == DetailStep::Failed(AppError::TaskNotFound { id: self.id }),
                Ok(Some(task)) => {
                    &&& step matches DetailStep::AskPresentations { message, next }
                    &&& message matches StoreMsg::TaskPresentations { ids }
                    &&& ids@ == seq![self.id]
                    &&& next == (AwaitDetailPresentation { id: self.id, task })
                },
            },
    {
        match reply {
            Err(error) => DetailStep::Failed(error),
            Ok(None) => DetailStep::Failed(AppError::TaskNotFound { id: self.id }),
            Ok(Some(task)) => {
                let ids = vec![self.id];
                proof {
                    assert(ids@ =~= seq![self.id]);
                }
                DetailStep::AskPresentations {
                    message: StoreMsg::TaskPresentations { ids },
                    next: AwaitDetailPresentation { id: self.id, task },
                }
            },
        }
    }
}

impl AwaitDetailPresentation {
    /// Ask for the reports of the task.
    pub fn on_presentations(self, reply: Result<HashMap<u128, TaskPresentation>, AppError>) -> (step:
        DetailStep)
        ensures
            match reply {
                Err(error) => step == DetailStep::Failed(error),
                Ok(presentations) => {
                    &&& step matches DetailStep::AskReports { message, next }
                    &&& message == (StoreMsg::Reports { id: self.id })
                    &&& next.id == self.id
                    &&& next.task == self.task
                    &&& shows(next.summary, self.task, presented(presentations@, self.id))
                },
            },
    {
        match reply {
            Err(error) => DetailStep::Failed(error),
            Ok(presentations) => {
                let presentation = presentations.get(&self.id.0);
                proof {
                    assert(crate::api::views::referred(presentation) == presented(
                        presentations@,
                        self.id,
                    ));
                }
                let summary = TaskSummary::from_row(&self.task, presentation);
                DetailStep::AskReports {
                    message: StoreMsg::Reports { id: self.id },
                    next: AwaitReports { id: self.id, task: self.task, summary },
                }
            },
        }
    }
}

impl AwaitReports {
    /// Go on with the reports.
    pub fn on_reports(self, reply: Result<Vec<String>, AppError>) -> (step: DetailStep)
        ensures
            step == (match reply {
                Err(error) => DetailStep::Failed(error),
                Ok(reports) => DetailStep::Render {
                    next: AwaitEvidence { task: self.task, summary: self.summary, reports },
                },
            }),
    {
        match reply {
            Err(error) => DetailStep::Failed(error),
            Ok(reports) => DetailStep::Render {
                next: AwaitEvidence { task: self.task, summary: self.summary, reports },
            },
        }
    }
}

impl AwaitEvidence {
    /// The detail with the task's files, its last event and its container.
    pub fn on_evidence(
        self,
        output_log: String,
        evidence: String,
        last_event: Option<String>,
        container_name: String,
        record: Option<&TaskContainerRecord>,
    ) -> (detail: TaskDetail)
        ensures
            detail.api_version == API_VERSION,
            detail.summary == self.summary,
            detail.reports == self.reports,
            detail.output_log == output_log,
            detail.evidence == evidence,
            detail.last_event == last_event,
            detail.container is Some <==> self.task.workload is Container,
            detail.container matches Some(container) ==> {
                &&& container.name == container_name
                &&& container.image == self.task.workload->image
                &&& container.container_id == (match record {
                    Some(record) => record.container_id,
                    None => None,
                })
                &&& container.started_at == (match record {
                    Some(record) => record.started_at,
                    None => None,
                })
                &&& container.exit_evidence == self.task.container_exit_evidence
            },
    {
        let container = ContainerDetail::from_row(&self.task, container_name, record);
        TaskDetail {
            api_version: API_VERSION,
            summary: self.summary,
            reports: self.reports,
            output_log,
            evidence,
            last_event,
            container,
        }
    }
}

/// The end of an output file.
#[derive(Debug)]
pub struct OutputTail {
    pub text: String,
    pub truncated: bool,
}

/// The log of a task of this machine: empty while its child has written nothing.
///
/// `exists` tells whether the store has the task, and `output` is what its file holds, or why
/// it could not be read.
pub fn local_log(id: TaskId, exists: bool, output: Result<Option<OutputTail>, AppError>) -> (tail:
    Result<LogTail, AppError>)
    ensures
        match tail {
            Err(error) => if exists {
                output == Err::<Option<OutputTail>, AppError>(error)
            } else {
                error == (AppError::TaskNotFound { id })
            },
            Ok(tail) => {
                &&& exists
                &&& tail.api_version == API_VERSION
                &&& tail.id == id
                &&& output matches Ok(output)
                &&& match output {
                    Some(output) => tail.log == output.text && tail.truncated == output.truncated,
                    None => tail.log@ == ""@ && !tail.truncated,
                }
            },
        },
{
    if !exists {
        return Err(AppError::TaskNotFound { id });
    }
    match output {
        Err(error) => Err(error),
        Ok(Some(output)) => Ok(
            LogTail { api_version: API_VERSION, id, log: output.text, truncated: output.truncated },
        ),
        Ok(None) => Ok(
            LogTail { api_version: API_VERSION, id, log: "".to_owned(), truncated: false },
        ),
    }
}

/// Where files are served, when they are.
pub fn files_origin(port: Option<u16>) -> (origin: Result<u16, AppError>)
    ensures
        match port {
            Some(port) => origin == Ok::<u16, AppError>(port),
            None => origin matches Err(error) && error@ == (ErrorView::Internal {
                message: "content origin is not available"@,
            }),
        },
{
    match port {
        Some(port) => Ok(port),
        None => Err(crate::error::internal("content origin is not available")),
    }
}

/// Status of the running daemon.
pub fn status(version: String, pid: u32, socket: String, web: Option<String>, in_flight: u64) -> (body:
    StatusBody)
    ensures
        body == (StatusBody { api_version: API_VERSION, version, pid, socket, web, in_flight }),
{
    StatusBody { api_version: API_VERSION, version, pid, socket, web, in_flight }
}

/// Answer to a cancellation.
#[derive(Debug, Clone, Copy, PartialEq, Eq, Structural)]
pub enum CancelAnswer {
    /// The state of a task of this machine.
    Status { id: TaskId, status: ProcessStatus },
    /// The saved request to another machine.
    Requested(CancellationView),
}

/// Next part of a cancellation.
#[derive(Debug)]
pub enum CancelStep {
    AskTask { message: StoreMsg, next: AwaitCancelTask },
    /// Find the owner of a task that this machine does not run, and allocate an identity.
    FindOwner { next: AwaitOwner },
    AskInsert { message: StoreMsg, next: AwaitSaved },
    AskCancel { message: SupervisorMsg, next: AwaitCancelled },
    Done(Result<CancelAnswer, AppError>),
}

/// Waiting for the local task.
#[derive(Debug, Clone, Copy, PartialEq, Eq, Structural)]
pub struct AwaitCancelTask {
    pub local: MachineId,
    pub id: TaskId,
}

/// Waiting for the task's owner.
#[derive(Debug, Clone, Copy, PartialEq, Eq, Structural)]
pub struct AwaitOwner {
    pub local: MachineId,
    pub id: TaskId,
}

/// Waiting for the saved request.
#[derive(Debug, Clone, Copy, PartialEq, Eq, Structural)]
pub struct AwaitSaved;

/// Waiting for the supervisor.
#[derive(Debug, Clone, Copy, PartialEq, Eq, Structural)]
pub struct AwaitCancelled {
    pub id: TaskId,
}

/// Cancel a task, wherever it runs.
pub fn cancel(local: MachineId, id: TaskId) -> (step: CancelStep)
    ensures
        step == (CancelStep::AskTask {
            message: StoreMsg::GetTask { id },
            next: AwaitCancelTask { local, id },
        }),
{
    CancelStep::AskTask {
        message: StoreMsg::GetTask { id },
        next: AwaitCancelTask { local, id },
    }
}

impl AwaitCancelTask {
    /// A local task is cancelled here; any other needs its owner.
    pub fn on_task(self, reply: Result<Option<TaskRow>, AppError>) -> (step: CancelStep)
        ensures
            step == (match reply {
                Err(error) => CancelStep::Done(Err(error)),
                Ok(None) => CancelStep::FindOwner {
                    next: AwaitOwner { local: self.local, id: self.id },
                },
                Ok(Some(_)) => CancelStep::AskCancel {
                    message: SupervisorMsg::Cancel { id: self.id },
                    next: AwaitCancelled { id: self.id },
                },
            }),
    {
        match reply {
            Err(error) => CancelStep::Done(Err(error)),
            Ok(None) => CancelStep::FindOwner {
                next: AwaitOwner { local: self.local, id: self.id },
            },
            Ok(Some(_)) => CancelStep::AskCancel {
                message: SupervisorMsg::Cancel { id: self.id },
                next: AwaitCancelled { id: self.id },
            },
        }
    }
}

impl AwaitOwner {
    /// Save a request that names the task's two machines; delivery comes later.
    pub fn on_owner(
        self,
        owner: Result<CancellationOwner, AppError>,
        cancellation: CancellationId,
    ) -> (step: CancelStep)
        ensures
            step == (match owner {
                Err(error) => CancelStep::Done(Err(error)),
                Ok(owner) => CancelStep::AskInsert {
                    message: StoreMsg::InsertCancellationRequest {
                        request: CancellationRequest {
                            requester_machine: self.local,
                            cancellation,
                            task: self.id,
                            origin_machine: owner.spec_machines().0,
                            execution_machine: owner.spec_machines().1,
                            delivery: CancellationDelivery::Pending,
                        },
                    },
                    next: AwaitSaved,
                },
            }),
    {
        match owner {
            Err(error) => CancelStep::Done(Err(error)),
            Ok(owner) => {
                let (origin_machine, execution_machine) = owner.machines();
                CancelStep::AskInsert {
                    message: StoreMsg::InsertCancellationRequest {
                        request: CancellationRequest {
                            requester_machine: self.local,
                            cancellation,
                            task: self.id,
                            origin_machine,
                            execution_machine,
                            delivery: CancellationDelivery::Pending,
                        },
                    },
                    next: AwaitSaved,
                }
            },
        }
    }
}

impl AwaitSaved {
    /// Answer with the saved request, which an earlier call may have made.
    pub fn on_saved(self, reply: Result<CancellationRequest, AppError>) -> (step: CancelStep)
        ensures
            match reply {
                Err(error) => step == CancelStep::Done(Err(error)),
                Ok(saved) => {
                    &&& step matches CancelStep::Done(Ok(CancelAnswer::Requested(view)))
                    &&& view.api_version == API_VERSION
                    &&& view.id == saved.task
                    &&& view.requester_machine == saved.requester_machine
                    &&& view.cancellation == saved.cancellation
                    &&& view.origin_machine == saved.origin_machine
                    &&& view.execution_machine == saved.execution_machine
                    &&& view.delivery == saved.delivery
                },
            },
    {
        match reply {
            Err(error) => CancelStep::Done(Err(error)),
            Ok(saved) => CancelStep::Done(Ok(CancelAnswer::Requested(response(&saved)))),
        }
    }
}

impl AwaitCancelled {
    /// A queued task is answered as cancelled; any other by its stored state.
    pub fn on_cancelled(self, reply: Result<CancelResult, AppError>) -> (step: CancelStep)
        ensures
            step == CancelStep::Done(
                match reply {
                    Err(error) => Err(error),
                    Ok(CancelResult::AlreadyTerminal(row)) => Ok(
                        CancelAnswer::Status { id: row.id, status: row.status },
                    ),
                    Ok(CancelResult::CancelledQueued(_)) => Ok(
                        CancelAnswer::Status { id: self.id, status: ProcessStatus::Cancelled },
                    ),
                    Ok(CancelResult::SignalWorker(row)) => Ok(
                        CancelAnswer::Status { id: self.id, status: row.status },
                    ),
                },
            ),
    {
        match reply {
            Err(error) => CancelStep::Done(Err(error)),
            Ok(CancelResult::AlreadyTerminal(row)) => CancelStep::Done(
                Ok(CancelAnswer::Status { id: row.id, status: row.status }),
            ),
            Ok(CancelResult::CancelledQueued(_)) => CancelStep::Done(
                Ok(CancelAnswer::Status { id: self.id, status: ProcessStatus::Cancelled }),
            ),
            Ok(CancelResult::SignalWorker(row)) => CancelStep::Done(
                Ok(CancelAnswer::Status { id: self.id, status: row.status }),
            ),
        }
    }
}

} // verus!
