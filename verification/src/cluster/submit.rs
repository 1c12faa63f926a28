//! Acceptance of a remote task at its executor.
//!
//! A task identity is decided once: an exact retry gets the retained answer, and a request
//! that can never run is fenced by a tombstone.

use vstd::prelude::*;

use crate::actors::store::StoreMsg;
use crate::actors::supervisor::launch::RemoteLaunch;
use crate::api::Invocation;
use crate::cluster::{check_request, gate, identity_body, IdentityBody, PreviewBody};
use crate::domain::{NormalizedSpec, TaskEnv, TaskPlacement};
use crate::error::{error_text, AppError, ErrorView};
use crate::fleet::API_VERSION;
use crate::ids::{MachineId, TaskId};
use crate::json::{json_string, string_value};
use crate::path::{absolute, contains_segment, has_segment, is_absolute, join, joined};
use crate::submission::{saved_content, ExecutorIdentity, RejectionTombstone};
use crate::text::{has_prefix, join2, slice_text, strip_prefix};
use crate::time::Timestamp;

verus! {

/// A remote request bound to one task and two machine identities.
#[derive(Debug)]
pub struct SubmitExecution {
    /// Public API schema version; a missing value is zero.
    pub api_version: u32,
    /// Cluster protocol version.
    pub protocol_version: u32,
    /// Intended receiver.
    pub destination_machine: MachineId,
    /// Callback owner.
    pub origin_machine: MachineId,
    /// Global task identity.
    pub task: TaskId,
    /// Inline, normalized content, or why it is none; no origin environment is allowed.
    pub spec: Result<NormalizedSpec, AppError>,
    /// Names of unrecognized top-level fields, which make a bound request invalid.
    pub unknown: Vec<String>,
}

/// Preview request without task identity or origin callback data.
#[derive(Debug)]
pub struct PreviewExecution {
    /// Public API schema version; a missing value is zero.
    pub api_version: u32,
    /// Cluster protocol version.
    pub protocol_version: u32,
    /// Intended execution owner.
    pub destination_machine: MachineId,
    /// Inline normalized content, or why it is none.
    pub spec: Result<NormalizedSpec, AppError>,
}

/// What [`expand_executor_cwd`] makes of a directory.
pub open spec fn expanded_cwd(cwd: Seq<char>, home: Option<Seq<char>>) -> Result<
    Seq<char>,
    ErrorView,
> {
    if absolute(cwd) {
        Ok(cwd)
    } else if has_prefix(cwd, "~/"@) {
        let relative = cwd.skip("~/"@.len() as int);
        if absolute(relative) || has_segment(relative, ".."@) {
            Err(
                ErrorView::InvalidSpec {
                    pointer: "/spec/cwd"@,
                    value: json_string(cwd),
                    message: "remote cwd must remain under executor HOME"@,
                },
            )
        } else {
            match home {
                None => Err(
                    ErrorView::RemoteSubmissionUnavailable {
                        message: "executor HOME is unavailable"@,
                    },
                ),
                Some(home) => if absolute(home) {
                    Ok(joined(home, relative))
                } else {
                    Err(
                        ErrorView::RemoteSubmissionUnavailable {
                            message: "executor HOME is not absolute"@,
                        },
                    )
                },
            }
        }
    } else {
        Err(
            ErrorView::InvalidSpec {
                pointer: "/spec/cwd"@,
                value: json_string(cwd),
                message: "remote cwd must be absolute or start with ~/"@,
            },
        )
    }
}

fn invalid_cwd(cwd: &str, message: &str) -> (error: AppError)
    ensures
        error@ == (ErrorView::InvalidSpec {
            pointer: "/spec/cwd"@,
            value: json_string(cwd@),
            message: message@,
        }),
{
    AppError::InvalidSpec {
        pointer: "/spec/cwd".to_owned(),
        value: string_value(cwd),
        message: message.to_owned(),
    }
}

fn unavailable(message: &str) -> (error: AppError)
    ensures
        error@ == (ErrorView::RemoteSubmissionUnavailable { message: message@ }),
{
    AppError::RemoteSubmissionUnavailable { message: message.to_owned() }
}

/// The directory of a remote task on this executor: absolute as it is, or below its home.
pub fn expand_executor_cwd(cwd: &str, home: Option<&str>) -> (path: Result<String, AppError>)
    ensures
        match expanded_cwd(cwd@, slice_text(home)) {
            Ok(text) => path matches Ok(path) && path@ == text,
            Err(error) => path matches Err(found) && found@ == error,
        },
{
    if is_absolute(cwd) {
        return Ok(cwd.to_owned());
    }
    let relative = match strip_prefix(cwd, "~/") {
        Some(relative) => relative,
        None => {
            return Err(invalid_cwd(cwd, "remote cwd must be absolute or start with ~/"));
        },
    };
    if is_absolute(relative) || contains_segment(relative, "..") {
        return Err(invalid_cwd(cwd, "remote cwd must remain under executor HOME"));
    }
    let home = match home {
        Some(home) => home,
        None => {
            return Err(unavailable("executor HOME is unavailable"));
        },
    };
    if !is_absolute(home) {
        return Err(unavailable("executor HOME is not absolute"));
    }
    Ok(join(home, relative))
}

/// Next part of one remote submission.
#[derive(Debug)]
pub enum SubmitStep {
    AskExisting { message: StoreMsg, next: AwaitExisting },
    /// Look at the directory that the task would run in.
    InspectCwd { cwd: String, next: AwaitCwd },
    AskReject { message: StoreMsg, next: AwaitRejected },
    /// Resolve the program that the workload runs, by this search path and directory.
    ResolveBinary { path: String, cwd: String, next: AwaitBinary },
    /// Launch through the supervisor.
    Launch { request: RemoteLaunch, next: AwaitLaunched },
    Done(Result<IdentityBody, AppError>),
}

/// Waiting for the identity that an earlier request left.
#[derive(Debug)]
pub struct AwaitExisting {
    pub body: SubmitExecution,
}

/// Waiting for what the directory is.
#[derive(Debug)]
pub struct AwaitCwd {
    pub protocol_version: u32,
    pub task: TaskId,
    pub origin: MachineId,
    pub execution: MachineId,
    pub spec: NormalizedSpec,
    pub cwd: String,
}

/// Waiting for the stored rejection.
#[derive(Debug, Clone, Copy, PartialEq, Eq, Structural)]
pub struct AwaitRejected {
    pub protocol_version: u32,
    pub task: TaskId,
}

/// Waiting for the program of the workload.
#[derive(Debug)]
pub struct AwaitBinary {
    pub protocol_version: u32,
    pub task: TaskId,
    pub origin: MachineId,
    pub execution: MachineId,
    pub spec: NormalizedSpec,
    pub cwd: String,
    pub env: TaskEnv,
}

/// Waiting for the supervisor.
#[derive(Debug, Clone, Copy, PartialEq, Eq, Structural)]
pub struct AwaitLaunched {
    pub protocol_version: u32,
}

/// The answer with one identity.
pub open spec fn answered(protocol_version: u32, identity: ExecutorIdentity) -> SubmitStep {
    SubmitStep::Done(
        Ok(
            IdentityBody {
                api_version: API_VERSION,
                protocol_version,
                identity: Some(identity),
            },
        ),
    )
}

/// Accept one remote task at its executor.
pub fn submit_execution(local: MachineId, body: SubmitExecution) -> (step: SubmitStep)
    ensures
        match gate(
            local,
            body.destination_machine,
            body.api_version,
            body.protocol_version,
            body.origin_machine,
        ) {
            Err(error) => step matches SubmitStep::Done(Err(found)) && found@ == error,
            Ok(_) => step == (SubmitStep::AskExisting {
                message: StoreMsg::ExecutorIdentity { id: body.task },
                next: AwaitExisting { body },
            }),
        },
{
    match check_request(
        local,
        body.destination_machine,
        body.api_version,
        body.protocol_version,
        body.origin_machine,
    ) {
        Err(error) => SubmitStep::Done(Err(error)),
        Ok(_) => SubmitStep::AskExisting {
            message: StoreMsg::ExecutorIdentity { id: body.task },
            next: AwaitExisting { body },
        },
    }
}

/// Whether a retained identity is the one that a submission asks for.
pub open spec fn retained_for(identity: ExecutorIdentity, body: SubmitExecution) -> bool {
    match identity {
        ExecutorIdentity::Accepted(record) => {
            &&& record.origin_machine == body.origin_machine
            &&& record.execution_machine == body.destination_machine
            &&& record.origin_machine != record.execution_machine
            &&& body.unknown@.len() == 0
            &&& body.spec matches Ok(spec)
            &&& saved_content(record.spec) == Some(spec@)
        },
        ExecutorIdentity::Rejected(record) => record.origin_machine == body.origin_machine
            && record.execution_machine == body.destination_machine,
    }
}

fn is_retained_for(identity: &ExecutorIdentity, body: &SubmitExecution) -> (retained: bool)
    ensures
        retained == retained_for(*identity, *body),
{
    match identity {
        ExecutorIdentity::Accepted(record) => {
            let same_spec = match (record.spec.current(), &body.spec) {
                (Some(stored), Ok(spec)) => stored.same(spec),
                _ => false,
            };
            record.origin_machine == body.origin_machine && record.execution_machine
                == body.destination_machine && record.origin_machine != record.execution_machine
                && body.unknown.len() == 0 && same_spec
        },
        ExecutorIdentity::Rejected(record) => record.origin_machine == body.origin_machine
            && record.execution_machine == body.destination_machine,
    }
}

/// Why a new submission can never run, before its directory is looked at.
pub open spec fn definite_rejection(body: SubmitExecution, home: Option<Seq<char>>) -> Option<
    Seq<char>,
> {
    if body.origin_machine == body.destination_machine {
        Some("origin_equals_executor"@)
    } else if body.unknown@.len() > 0 {
        Some("invalid_request_fields"@)
    } else {
        match body.spec {
            Err(_) => Some("invalid_spec"@),
            Ok(spec) => if expanded_cwd(spec.cwd@, home) matches Err(error) && error is InvalidSpec {
                Some("invalid_cwd"@)
            } else {
                None
            },
        }
    }
}

/// Whether a step stores a tombstone of these owners with this reason.
pub open spec fn stores_rejection(
    step: SubmitStep,
    protocol_version: u32,
    task: TaskId,
    origin: MachineId,
    execution: MachineId,
    reason: Seq<char>,
) -> bool {
    &&& step matches SubmitStep::AskReject { message, next }
    &&& message matches StoreMsg::RejectExecution { tombstone }
    &&& tombstone.task == task
    &&& tombstone.origin_machine == origin
    &&& tombstone.execution_machine == execution
    &&& tombstone.reason@ == reason
    &&& next == (AwaitRejected { protocol_version, task })
}

fn reject(
    protocol_version: u32,
    task: TaskId,
    origin: MachineId,
    execution: MachineId,
    reason: &str,
) -> (step: SubmitStep)
    ensures
        stores_rejection(step, protocol_version, task, origin, execution, reason@),
{
    SubmitStep::AskReject {
        message: StoreMsg::RejectExecution {
            tombstone: RejectionTombstone {
                task,
                origin_machine: origin,
                execution_machine: execution,
                reason: reason.to_owned(),
            },
        },
        next: AwaitRejected { protocol_version, task },
    }
}

/// What a new submission asks for.
pub open spec fn new_submission(
    body: SubmitExecution,
    home: Option<Seq<char>>,
    step: SubmitStep,
) -> bool {
    match definite_rejection(body, home) {
        Some(reason) => stores_rejection(
            step,
            body.protocol_version,
            body.task,
            body.origin_machine,
            body.destination_machine,
            reason,
        ),
        None => match body.spec {
            Err(_) => false,
            Ok(spec) => match expanded_cwd(spec.cwd@, home) {
                Err(error) => step matches SubmitStep::Done(Err(found)) && found@ == error,
                Ok(path) => {
                    &&& step matches SubmitStep::InspectCwd { cwd, next }
                    &&& cwd@ == path
                    &&& next == (AwaitCwd {
                        protocol_version: body.protocol_version,
                        task: body.task,
                        origin: body.origin_machine,
                        execution: body.destination_machine,
                        spec,
                        cwd,
                    })
                },
            },
        },
    }
}

impl AwaitExisting {
    /// Answer an exact retry, refuse another use of the identity, and look at a new request.
    ///
    /// `home` is this executor's home directory, if it has one.
    pub fn on_existing(
        self,
        reply: Result<Option<ExecutorIdentity>, AppError>,
        home: Option<&str>,
    ) -> (step: SubmitStep)
        ensures
            match reply {
                Err(error) => step == SubmitStep::Done(Err(error)),
                Ok(Some(identity)) => step == if retained_for(identity, self.body) {
                    answered(self.body.protocol_version, identity)
                } else {
                    SubmitStep::Done(Err(AppError::ClusterTaskConflict { task: self.body.task }))
                },
                Ok(None) => new_submission(self.body, slice_text(home), step),
            },
    {
        let existing = match reply {
            Ok(existing) => existing,
            Err(error) => {
                return SubmitStep::Done(Err(error));
            },
        };
        let body = self.body;
        if let Some(identity) = existing {
            if !is_retained_for(&identity, &body) {
                return SubmitStep::Done(Err(AppError::ClusterTaskConflict { task: body.task }));
            }
            return SubmitStep::Done(Ok(identity_body(body.protocol_version, identity)));
        }
        let protocol_version: u32 = body.protocol_version;
        let task = body.task;
        let origin = body.origin_machine;
        let execution = body.destination_machine;
        if origin == execution {
            return reject(protocol_version, task, origin, execution, "origin_equals_executor");
        }
        if body.unknown.len() > 0 {
            return reject(protocol_version, task, origin, execution, "invalid_request_fields");
        }
        let spec = match body.spec {
            Ok(spec) => spec,
            Err(_) => {
                return reject(protocol_version, task, origin, execution, "invalid_spec");
            },
        };
        let cwd = match expand_executor_cwd(spec.cwd.as_str(), home) {
            Ok(cwd) => cwd,
            Err(AppError::InvalidSpec { .. }) => {
                return reject(protocol_version, task, origin, execution, "invalid_cwd");
            },
            Err(error) => {
                return SubmitStep::Done(Err(error));
            },
        };
        SubmitStep::InspectCwd {
            cwd: cwd.clone(),
            next: AwaitCwd { protocol_version, task, origin, execution, spec, cwd },
        }
    }
}

/// What a directory turned out to be.
#[derive(Debug)]
pub enum CwdKind {
    Directory,
    NotDirectory,
    NotFound,
    /// It could not be looked at; the text says why.
    Failed(String),
}

impl AwaitCwd {
    /// A task that has no directory can never run; one whose directory cannot be looked at
    /// may run later. `env` is this executor's own environment, which the task runs in.
    pub fn on_cwd(self, kind: CwdKind, env: TaskEnv) -> (step: SubmitStep)
        ensures
            match kind {
                CwdKind::Directory => step == (SubmitStep::ResolveBinary {
                    path: env.path,
                    cwd: self.cwd,
                    next: AwaitBinary {
                        protocol_version: self.protocol_version,
                        task: self.task,
                        origin: self.origin,
                        execution: self.execution,
                        spec: self.spec,
                        cwd: self.cwd,
                        env,
                    },
                }),
                CwdKind::NotDirectory => stores_rejection(
                    step,
                    self.protocol_version,
                    self.task,
                    self.origin,
                    self.execution,
                    "cwd_not_directory"@,
                ),
                CwdKind::NotFound => stores_rejection(
                    step,
                    self.protocol_version,
                    self.task,
                    self.origin,
                    self.execution,
                    "cwd_not_found"@,
                ),
                CwdKind::Failed(error) => step matches SubmitStep::Done(Err(found)) && found@ == (
                ErrorView::RemoteSubmissionUnavailable {
                    message: "cannot inspect executor cwd: "@ + error@,
                }),
            },
    {
        match kind {
            CwdKind::Directory => SubmitStep::ResolveBinary {
                path: env.path.clone(),
                cwd: self.cwd.clone(),
                next: AwaitBinary {
                    protocol_version: self.protocol_version,
                    task: self.task,
                    origin: self.origin,
                    execution: self.execution,
                    spec: self.spec,
                    cwd: self.cwd,
                    env,
                },
            },
            CwdKind::NotDirectory => reject(
                self.protocol_version,
                self.task,
                self.origin,
                self.execution,
                "cwd_not_directory",
            ),
            CwdKind::NotFound => reject(
                self.protocol_version,
                self.task,
                self.origin,
                self.execution,
                "cwd_not_found",
            ),
            CwdKind::Failed(error) => SubmitStep::Done(
                Err(
                    AppError::RemoteSubmissionUnavailable {
                        message: join2("cannot inspect executor cwd: ", error.as_str()),
                    },
                ),
            ),
        }
    }
}

impl AwaitRejected {
    /// Answer with the stored rejection; an acceptance that came first is a conflict.
    pub fn on_rejected(self, reply: Result<ExecutorIdentity, AppError>) -> (step: SubmitStep)
        ensures
            step == (match reply {
                Err(error) => SubmitStep::Done(Err(error)),
                Ok(identity) => if identity is Accepted {
                    SubmitStep::Done(Err(AppError::ClusterTaskConflict { task: self.task }))
                } else {
                    answered(self.protocol_version, identity)
                },
            }),
    {
        match reply {
            Err(error) => SubmitStep::Done(Err(error)),
            Ok(ExecutorIdentity::Accepted(_)) => SubmitStep::Done(
                Err(AppError::ClusterTaskConflict { task: self.task }),
            ),
            Ok(identity) => SubmitStep::Done(Ok(identity_body(self.protocol_version, identity))),
        }
    }
}

impl AwaitBinary {
    /// Launch the task with this executor's own environment and program.
    pub fn on_binary(self, binary: Result<String, AppError>, created_at: Timestamp) -> (step:
        SubmitStep)
        ensures
            match binary {
                Err(error) => step matches SubmitStep::Done(Err(found)) && found@ == (
                ErrorView::RemoteSubmissionUnavailable {
                    message: "execution capability unavailable: "@ + error_text(error@),
                }),
                Ok(binary) => step == (SubmitStep::Launch {
                    request: RemoteLaunch {
                        task: self.task,
                        origin: self.origin,
                        execution: self.execution,
                        spec: self.spec,
                        placement: TaskPlacement { cwd: self.cwd, env: self.env, binary },
                        created_at,
                    },
                    next: AwaitLaunched { protocol_version: self.protocol_version },
                }),
            },
    {
        match binary {
            Err(error) => {
                let text = error.to_string();
                SubmitStep::Done(
                    Err(
                        AppError::RemoteSubmissionUnavailable {
                            message: join2("execution capability unavailable: ", text.as_str()),
                        },
                    ),
                )
            },
            Ok(binary) => SubmitStep::Launch {
                request: RemoteLaunch {
                    task: self.task,
                    origin: self.origin,
                    execution: self.execution,
                    spec: self.spec,
                    placement: TaskPlacement { cwd: self.cwd, env: self.env, binary },
                    created_at,
                },
                next: AwaitLaunched { protocol_version: self.protocol_version },
            },
        }
    }
}

impl AwaitLaunched {
    /// Answer with the identity that the supervisor left.
    pub fn on_launched(self, reply: Result<ExecutorIdentity, AppError>) -> (step: SubmitStep)
        ensures
            step == (match reply {
                Err(error) => SubmitStep::Done(Err(error)),
                Ok(identity) => answered(self.protocol_version, identity),
            }),
    {
        match reply {
            Err(error) => SubmitStep::Done(Err(error)),
            Ok(identity) => SubmitStep::Done(Ok(identity_body(self.protocol_version, identity))),
        }
    }
}

/// Next part of one preview.
#[derive(Debug)]
pub enum PreviewStep {
    /// Check the expanded directory.
    CheckCwd { cwd: String, next: AwaitPreviewCwd },
    /// Build the command line with this search path and feed path.
    Build { path: String, feed: String, next: AwaitPreview },
    Done(Result<PreviewBody, AppError>),
}

/// Waiting for the check of a preview's directory.
#[derive(Debug)]
pub struct AwaitPreviewCwd {
    pub protocol_version: u32,
    pub spec: NormalizedSpec,
    pub cwd: String,
}

/// Waiting for the command line of a preview.
#[derive(Debug)]
pub struct AwaitPreview {
    pub protocol_version: u32,
    /// What would run, in its expanded directory.
    pub spec: NormalizedSpec,
}

/// Show what a remote task would run here, without storing anything.
pub fn preview_execution(local: MachineId, body: PreviewExecution, home: Option<&str>) -> (step:
    PreviewStep)
    ensures
        match gate(
            local,
            body.destination_machine,
            body.api_version,
            body.protocol_version,
            body.destination_machine,
        ) {
            Err(error) => step matches PreviewStep::Done(Err(found)) && found@ == error,
            Ok(_) => match body.spec {
                Err(error) => step == PreviewStep::Done(Err(error)),
                Ok(spec) => match expanded_cwd(spec.cwd@, slice_text(home)) {
                    Err(error) => step matches PreviewStep::Done(Err(found)) && found@ == error,
                    Ok(path) => {
                        &&& step matches PreviewStep::CheckCwd { cwd, next }
                        &&& cwd@ == path
                        &&& next == (AwaitPreviewCwd {
                            protocol_version: body.protocol_version,
                            spec,
                            cwd,
                        })
                    },
                },
            },
        },
{
    let protocol_version: u32 = body.protocol_version;
    match check_request(
        local,
        body.destination_machine,
        body.api_version,
        body.protocol_version,
        body.destination_machine,
    ) {
        Ok(_) => {},
        Err(error) => {
            return PreviewStep::Done(Err(error));
        },
    }
    let spec = match body.spec {
        Ok(spec) => spec,
        Err(error) => {
            return PreviewStep::Done(Err(error));
        },
    };
    match expand_executor_cwd(spec.cwd.as_str(), home) {
        Ok(cwd) => PreviewStep::CheckCwd {
            cwd: cwd.clone(),
            next: AwaitPreviewCwd { protocol_version, spec, cwd },
        },
        Err(error) => PreviewStep::Done(Err(error)),
    }
}

impl AwaitPreviewCwd {
    /// Go on in a usable directory and this executor's environment `env`, with a placeholder
    /// for the feed below the state directory `root`.
    pub fn on_checked(self, checked: Result<(), AppError>, env: TaskEnv, root: &str) -> (step:
        PreviewStep)
        ensures
            match checked {
                Err(error) => step == PreviewStep::Done(Err(error)),
                Ok(_) => {
                    &&& step matches PreviewStep::Build { path, feed, next }
                    &&& path == env.path
                    &&& feed@ == joined(root@, "tasks/<task-id>/prompt.feed.txt"@)
                    &&& next == (AwaitPreview {
                        protocol_version: self.protocol_version,
                        spec: NormalizedSpec { cwd: self.cwd, ..self.spec },
                    })
                },
            },
    {
        match checked {
            Err(error) => PreviewStep::Done(Err(error)),
            Ok(_) => {
                let mut spec = self.spec;
                spec.cwd = self.cwd;
                PreviewStep::Build {
                    path: env.path,
                    feed: join(root, "tasks/<task-id>/prompt.feed.txt"),
                    next: AwaitPreview { protocol_version: self.protocol_version, spec },
                }
            },
        }
    }
}

impl AwaitPreview {
    /// Answer with the command line and the directory that it would run in.
    pub fn on_invocation(self, built: Result<Invocation, AppError>) -> (step: PreviewStep)
        ensures
            step == PreviewStep::Done(
                match built {
                    Err(error) => Err(error),
                    Ok(invocation) => Ok(
                        PreviewBody {
                            api_version: API_VERSION,
                            protocol_version: self.protocol_version,
                            cwd: self.spec.cwd,
                            argv: invocation.argv,
                            stdin: invocation.stdin,
                        },
                    ),
                },
            ),
    {
        match built {
            Err(error) => PreviewStep::Done(Err(error)),
            Ok(invocation) => PreviewStep::Done(
                Ok(
                    PreviewBody {
                        api_version: API_VERSION,
                        protocol_version: self.protocol_version,
                        cwd: self.spec.cwd,
                        argv: invocation.argv,
                        stdin: invocation.stdin,
                    },
                ),
            ),
        }
    }
}

/// A relative directory stays below the executor's home: what a submission expands to either
/// is the absolute directory it names or begins with the home, and holds no parent segment
/// after it.
pub proof fn relative_directories_stay_below_home(cwd: Seq<char>, home: Seq<char>)
    requires
        !absolute(cwd),
        expanded_cwd(cwd, Some(home)) is Ok,
    ensures
        ({
            let path = expanded_cwd(cwd, Some(home))->Ok_0;
            let relative = cwd.skip("~/"@.len() as int);
            &&& absolute(path)
            &&& has_prefix(path, home)
            &&& path == joined(home, relative)
            &&& !has_segment(relative, ".."@)
        }),
{
    let path = expanded_cwd(cwd, Some(home))->Ok_0;
    assert(path.take(home.len() as int) =~= home);
}

} // verus!
