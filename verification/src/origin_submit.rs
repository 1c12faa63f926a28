//! Origin-owned remote submission and resolution of unknown acceptance.
//!
//! A route is saved before anything is sent. From then on its request is never sent again:
//! what the executor retains decides, and a task that the executor does not know is fenced.

use vstd::prelude::*;

use crate::actors::store::StoreMsg;
use crate::api::{local_dry_run, AwaitPreviewCwd, DryRunResponse, DryRunStep, SubmitBody};
use crate::cluster::submit::{PreviewExecution, SubmitExecution};
use crate::cluster::{AbandonExecution, IdentityBody, PreviewBody};
use crate::domain::{NormalizedSpec, ProcessStatus, TaskEnv};
use crate::error::{error_text, internal, AppError, ErrorView};
use crate::fleet::{
    http_status_text, success_status, ClusterResponse, API_VERSION, CLUSTER_PROTOCOL_VERSION,
};
use crate::ids::{hyphenated, MachineId, RequestId, TaskId};
use crate::inspection::{read_query, read_query_text};
use crate::json::{
    check_body_version, json_string, string_value, version_checked, VersionRefusal,
};
use crate::message_sender::NameTarget;
use crate::path::{absolute, is_absolute};
use crate::submission::{
    saved_content, CallbackContext, CallbackExecutable, ExecutorIdentity, OriginRoute, SavedSpec,
    SubmissionState,
};
use crate::text::{join2, join3, same_text};
use crate::time::Timestamp;

verus! {

/// Locks that concurrent submissions are spread over.
pub const SUBMISSION_SHARDS: u64 = 64;

/// The lock of a request, by the hash of its identity.
pub fn submission_shard(hash: u64) -> (shard: u64)
    ensures
        shard == hash % SUBMISSION_SHARDS,
        shard < SUBMISSION_SHARDS,
{
    hash % SUBMISSION_SHARDS
}

/// An accepted remote submission.
#[derive(Debug, Clone, Copy, PartialEq, Eq, Structural)]
pub struct Submitted {
    pub task: TaskId,
    pub status: ProcessStatus,
    pub request: RequestId,
}

/// What [`unknown`] gives.
pub open spec fn unknown_error(route: OriginRoute, message: Seq<char>) -> ErrorView {
    ErrorView::SubmissionOutcomeUnknown { request: route.request, task: route.task, message }
}

/// It is not known whether a submission was accepted.
pub fn unknown(route: &OriginRoute, message: &str) -> (error: AppError)
    ensures
        error@ == unknown_error(*route, message@),
{
    AppError::SubmissionOutcomeUnknown {
        request: route.request,
        task: route.task,
        message: message.to_owned(),
    }
}

/// What [`conflict`] gives.
pub open spec fn conflict_error(route: OriginRoute, message: Seq<char>) -> ErrorView {
    ErrorView::SubmissionConflict { request: route.request, task: route.task, message }
}

/// A submission contradicts what its request or task identity stands for.
pub fn conflict(route: &OriginRoute, message: &str) -> (error: AppError)
    ensures
        error@ == conflict_error(*route, message@),
{
    AppError::SubmissionConflict {
        request: route.request,
        task: route.task,
        message: message.to_owned(),
    }
}

/// Whether a submission belongs to a resource.
pub open spec fn of_resource(submission: SubmissionState) -> bool {
    submission is Resource || submission is ResourceAction || submission is ResourceBackground
}

/// Why a route is not one of a direct remote submission, if it is none.
pub open spec fn indirect(route: OriginRoute) -> Option<ErrorView> {
    if of_resource(route.submission) {
        Some(conflict_error(route, "request UUID belongs to a resource route"@))
    } else if route.spec is MigratedLocal {
        Some(conflict_error(route, "migrated local task has no remote request"@))
    } else {
        None
    }
}

/// Refuse a route that is not one of a direct remote submission.
pub fn ensure_direct_route(route: &OriginRoute) -> (result: Result<(), AppError>)
    ensures
        match indirect(*route) {
            Some(error) => result matches Err(found) && found@ == error,
            None => result is Ok,
        },
{
    match route.submission {
        SubmissionState::Resource { .. }
        | SubmissionState::ResourceAction { .. }
        | SubmissionState::ResourceBackground { .. } => {
            return Err(conflict(route, "request UUID belongs to a resource route"));
        },
        _ => {},
    }
    if route.spec.current().is_none() {
        return Err(conflict(route, "migrated local task has no remote request"));
    }
    Ok(())
}

/// What [`local_machine_selector`] gives.
pub open spec fn selects_local(machine: Seq<char>) -> ErrorView {
    ErrorView::InvalidSpec {
        pointer: "/machine"@,
        value: json_string(machine),
        message: "omit machine to submit the task locally"@,
    }
}

/// A remote submission selected this machine itself.
pub fn local_machine_selector(machine: &str) -> (error: AppError)
    ensures
        error@ == selects_local(machine@),
{
    AppError::InvalidSpec {
        pointer: "/machine".to_owned(),
        value: string_value(machine),
        message: "omit machine to submit the task locally".to_owned(),
    }
}

/// Why an executor's answer is refused before its typed parse, if it is.
pub open spec fn response_refused(
    route: OriginRoute,
    status: u16,
    version: Result<(), VersionRefusal>,
) -> Option<ErrorView> {
    if !success_status(status) {
        Some(unknown_error(route, "executor returned HTTP "@ + http_status_text(status)))
    } else {
        match version {
            Err(VersionRefusal::Invalid(error)) => Some(
                unknown_error(route, "invalid executor response: "@ + error@),
            ),
            Err(VersionRefusal::Unsupported) => Some(
                unknown_error(route, "executor returned an unsupported API version"@),
            ),
            Ok(_) => None,
        }
    }
}

/// What [`decode_identity`] makes of an executor's answer.
pub open spec fn decoded_identity(
    route: OriginRoute,
    status: u16,
    version: Result<(), VersionRefusal>,
    parsed: Result<IdentityBody, String>,
    protocol: u32,
) -> Result<IdentityBody, ErrorView> {
    match response_refused(route, status, version) {
        Some(error) => Err(error),
        None => match parsed {
            Err(error) => Err(unknown_error(route, "invalid executor response: "@ + error@)),
            Ok(body) => if body.api_version != API_VERSION {
                Err(unknown_error(route, "executor returned an unsupported API version"@))
            } else if body.protocol_version != protocol {
                Err(unknown_error(route, "executor returned another protocol version"@))
            } else {
                Ok(body)
            },
        },
    }
}

/// Judge an executor's answer, given what its version member says.
pub fn decode_versioned(
    route: &OriginRoute,
    response: &ClusterResponse,
    version: Result<(), VersionRefusal>,
    parsed: Result<IdentityBody, String>,
    protocol: u32,
) -> (body: Result<IdentityBody, AppError>)
    ensures
        match decoded_identity(*route, response.status.number(), version, parsed, protocol) {
            Ok(found) => body == Ok::<IdentityBody, AppError>(found),
            Err(error) => body matches Err(found) && found@ == error,
        },
{
    if !response.status.is_success() {
        let status = response.status.text();
        let message = join2("executor returned HTTP ", status.as_str());
        return Err(unknown(route, message.as_str()));
    }
    match version {
        Err(VersionRefusal::Invalid(error)) => {
            let message = join2("invalid executor response: ", error.as_str());
            return Err(unknown(route, message.as_str()));
        },
        Err(VersionRefusal::Unsupported) => {
            return Err(unknown(route, "executor returned an unsupported API version"));
        },
        Ok(_) => {},
    }
    let body = match parsed {
        Ok(body) => body,
        Err(error) => {
            let message = join2("invalid executor response: ", error.as_str());
            return Err(unknown(route, message.as_str()));
        },
    };
    if body.api_version != API_VERSION {
        return Err(unknown(route, "executor returned an unsupported API version"));
    }
    if body.protocol_version != protocol {
        return Err(unknown(route, "executor returned another protocol version"));
    }
    Ok(body)
}

/// Whether a result is what an executor's answer is worth.
pub open spec fn decodes(
    route: OriginRoute,
    response: ClusterResponse,
    parsed: Result<IdentityBody, String>,
    protocol: u32,
    result: Result<IdentityBody, ErrorView>,
) -> bool {
    exists|version: Result<(), VersionRefusal>|
        #[trigger] version_checked(response.body@, API_VERSION, version) && result
            == decoded_identity(route, response.status.number(), version, parsed, protocol)
}

/// Accept an executor's answer only as a versioned identity in the protocol that was asked in.
/// `parsed` is the body as an identity, or why it is none.
pub fn decode_identity(
    route: &OriginRoute,
    response: &ClusterResponse,
    parsed: Result<IdentityBody, String>,
    protocol: u32,
) -> (body: Result<IdentityBody, AppError>)
    ensures
        decodes(*route, *response, parsed, protocol, crate::error::result_view(body)),
{
    let version = check_body_version(&response.body, API_VERSION);
    decode_versioned(route, response, version, parsed, protocol)
}

/// Next part of a submission or of its resolution.
#[derive(Debug)]
pub enum SubmitStep {
    /// Wait until no other submission of this request runs.
    LockRequest { request: RequestId, next: AwaitLocked },
    AskSaved { message: StoreMsg, next: AwaitSaved },
    /// Resolve the selected machine's name, if this machine is in a fleet.
    ResolveName { name: String, next: AwaitTarget },
    /// Connect to the executor.
    Connect { machine: MachineId, next: AwaitConnected },
    /// Check that the callback directory is usable.
    CheckCwd { cwd: String, next: AwaitCwd },
    /// Find the agent executable for callbacks, and allocate a task identity.
    ResolveCodex { path: String, cwd: String, next: AwaitCodex },
    AskInsert { message: StoreMsg, next: AwaitInserted },
    AskFound { message: StoreMsg, next: AwaitFound },
    /// Send the task to its executor.
    PostSubmit { wire: SubmitExecution, next: AwaitSubmitted },
    /// Connect to the executor of an unresolved route.
    ConnectRoute { machine: MachineId, next: AwaitRouteConnected },
    /// Ask the executor what it retains.
    GetIdentity { path: String, next: AwaitRetained },
    /// Connect to the executor again, to fence the task.
    ConnectAbandon { machine: MachineId, next: AwaitAbandonConnected },
    /// Have the executor fence a task that it does not know.
    PostAbandon { wire: AbandonExecution, next: AwaitAbandoned },
    AskResolve { message: StoreMsg, next: AwaitResolved },
    Done(Result<Submitted, AppError>),
}

/// Waiting for the request's lock.
#[derive(Debug)]
pub struct AwaitLocked {
    pub request: RequestId,
    pub body: SubmitBody,
}

/// Waiting for a saved route of the request.
#[derive(Debug)]
pub struct AwaitSaved {
    pub request: RequestId,
    pub body: SubmitBody,
}

/// Waiting for the selected machine.
#[derive(Debug)]
pub struct AwaitTarget {
    pub request: RequestId,
    pub body: SubmitBody,
    pub name: String,
}

/// Waiting for the connection.
#[derive(Debug)]
pub struct AwaitConnected {
    pub request: RequestId,
    pub body: SubmitBody,
    pub machine: MachineId,
}

/// Waiting for the check of the callback directory.
#[derive(Debug)]
pub struct AwaitCwd {
    pub request: RequestId,
    pub body: SubmitBody,
    pub machine: MachineId,
    pub protocol: u32,
    pub callback_cwd: String,
}

/// Waiting for the agent executable.
#[derive(Debug)]
pub struct AwaitCodex {
    pub request: RequestId,
    pub body: SubmitBody,
    pub machine: MachineId,
    pub protocol: u32,
    pub callback_cwd: String,
}

/// Waiting for the saved route.
#[derive(Debug, Clone, Copy, PartialEq, Eq, Structural)]
pub struct AwaitInserted {
    pub request: RequestId,
    pub task: TaskId,
    pub machine: MachineId,
    pub protocol: u32,
}

/// Waiting for what stood in the way of a route.
#[derive(Debug)]
pub struct AwaitFound {
    pub error: AppError,
}

/// Waiting for the executor's answer.
#[derive(Debug)]
pub struct AwaitSubmitted {
    pub route: OriginRoute,
    pub protocol: u32,
}

/// Waiting for the connection to an unresolved route's executor.
#[derive(Debug)]
pub struct AwaitRouteConnected {
    pub route: OriginRoute,
}

/// Waiting for what the executor retains.
#[derive(Debug)]
pub struct AwaitRetained {
    pub route: OriginRoute,
}

/// Waiting for the second connection.
#[derive(Debug)]
pub struct AwaitAbandonConnected {
    pub route: OriginRoute,
}

/// Waiting for the executor's answer to a fence.
#[derive(Debug)]
pub struct AwaitAbandoned {
    pub route: OriginRoute,
    pub protocol: u32,
}

/// Waiting for the saved outcome.
#[derive(Debug)]
pub struct AwaitResolved {
    pub route: OriginRoute,
    pub status: ProcessStatus,
}

/// An executor's answer and its body as an identity, or the text of a failed request.
pub type IdentityReply = Result<(ClusterResponse, Result<IdentityBody, String>), String>;

/// Submit a remote request once, or resolve its saved outcome without sending it again.
pub fn submit(body: SubmitBody) -> (step: SubmitStep)
    ensures
        match body.request {
            None => step matches SubmitStep::Done(Err(error)) && error@ == (ErrorView::Internal {
                message: "remote dispatch has no request UUID"@,
            }),
            Some(request) => step == (SubmitStep::LockRequest {
                request,
                next: AwaitLocked { request, body },
            }),
        },
{
    match body.request {
        None => SubmitStep::Done(Err(internal("remote dispatch has no request UUID"))),
        Some(request) => SubmitStep::LockRequest { request, next: AwaitLocked { request, body } },
    }
}

impl AwaitLocked {
    /// Look for a saved route of the request first.
    pub fn on_locked(self, locked: Result<(), String>) -> (step: SubmitStep)
        ensures
            match locked {
                Err(error) => step matches SubmitStep::Done(Err(found)) && found@ == (
                ErrorView::Internal { message: "submission permit unavailable: "@ + error@ }),
                Ok(_) => step == (SubmitStep::AskSaved {
                    message: StoreMsg::OriginRouteByRequest { request: self.request },
                    next: AwaitSaved { request: self.request, body: self.body },
                }),
            },
    {
        match locked {
            Err(error) => SubmitStep::Done(
                Err(
                    AppError::Internal {
                        message: join2("submission permit unavailable: ", error.as_str()),
                    },
                ),
            ),
            Ok(_) => SubmitStep::AskSaved {
                message: StoreMsg::OriginRouteByRequest { request: self.request },
                next: AwaitSaved { request: self.request, body: self.body },
            },
        }
    }
}

/// Whether a step starts the resolution of a route.
pub open spec fn reconciles(route: OriginRoute, step: SubmitStep) -> bool {
    match indirect(route) {
        Some(error) => step matches SubmitStep::Done(Err(found)) && found@ == error,
        None => step == (SubmitStep::ConnectRoute {
            machine: route.execution_machine,
            next: AwaitRouteConnected { route },
        }),
    }
}

/// Resolve a route whose acceptance is unknown, without sending its task again.
pub fn reconcile(route: OriginRoute) -> (step: SubmitStep)
    ensures
        reconciles(route, step),
{
    match ensure_direct_route(&route) {
        Err(error) => SubmitStep::Done(Err(error)),
        Ok(_) => SubmitStep::ConnectRoute {
            machine: route.execution_machine,
            next: AwaitRouteConnected { route },
        },
    }
}

/// Whether a step goes on with a saved route.
pub open spec fn finishes(route: OriginRoute, step: SubmitStep) -> bool {
    match route.submission {
        SubmissionState::Accepted => step == SubmitStep::Done(
            Ok(
                Submitted {
                    task: route.task,
                    status: match route.last_execution_state {
                        Some(status) => status,
                        None => ProcessStatus::Queued,
                    },
                    request: route.request,
                },
            ),
        ),
        SubmissionState::Rejected { reason } => step == SubmitStep::Done(
            Err(
                AppError::SubmissionRejected {
                    request: route.request,
                    task: route.task,
                    reason,
                },
            ),
        ),
        SubmissionState::AcceptanceUnknown => reconciles(route, step),
        _ => step matches SubmitStep::Done(Err(error)) && error@ == conflict_error(
            route,
            "request UUID belongs to a resource route"@,
        ),
    }
}

/// Answer a retry from its saved route.
pub fn finish_saved(route: OriginRoute) -> (step: SubmitStep)
    ensures
        finishes(route, step),
{
    match &route.submission {
        SubmissionState::Accepted => {
            let status = match route.last_execution_state {
                Some(status) => status,
                None => ProcessStatus::Queued,
            };
            SubmitStep::Done(
                Ok(Submitted { task: route.task, status, request: route.request }),
            )
        },
        SubmissionState::Rejected { reason } => SubmitStep::Done(
            Err(
                AppError::SubmissionRejected {
                    request: route.request,
                    task: route.task,
                    reason: reason.clone(),
                },
            ),
        ),
        SubmissionState::AcceptanceUnknown => reconcile(route),
        _ => SubmitStep::Done(Err(conflict(&route, "request UUID belongs to a resource route"))),
    }
}

/// Whether a step answers a retry from its saved route.
pub open spec fn retried(body: SubmitBody, route: OriginRoute, step: SubmitStep) -> bool {
    match indirect(route) {
        Some(error) => step matches SubmitStep::Done(Err(found)) && found@ == error,
        None => if saved_content(route.spec) != Some(body.spec@) {
            step matches SubmitStep::Done(Err(error)) && error@ == conflict_error(
                route,
                "request UUID has different normalized content"@,
            )
        } else {
            finishes(route, step)
        },
    }
}

impl AwaitSaved {
    /// A retry is answered from its saved route; a new request needs its executor.
    pub fn on_saved(self, reply: Result<Option<OriginRoute>, AppError>) -> (step: SubmitStep)
        ensures
            match reply {
                Err(error) => step == SubmitStep::Done(Err(error)),
                Ok(Some(route)) => retried(self.body, route, step),
                Ok(None) => match self.body.spec.machine {
                    None => step matches SubmitStep::Done(Err(error)) && error@ == (
                    ErrorView::Internal { message: "remote dispatch has no machine"@ }),
                    Some(name) => step == (SubmitStep::ResolveName {
                        name,
                        next: AwaitTarget { request: self.request, body: self.body, name },
                    }),
                },
            },
    {
        let route = match reply {
            Err(error) => {
                return SubmitStep::Done(Err(error));
            },
            Ok(Some(route)) => route,
            Ok(None) => {
                let name = match &self.body.spec.machine {
                    Some(name) => name.clone(),
                    None => {
                        return SubmitStep::Done(Err(internal("remote dispatch has no machine")));
                    },
                };
                return SubmitStep::ResolveName {
                    name: name.clone(),
                    next: AwaitTarget { request: self.request, body: self.body, name },
                };
            },
        };
        match ensure_direct_route(&route) {
            Err(error) => {
                return SubmitStep::Done(Err(error));
            },
            Ok(_) => {},
        }
        let same = match route.spec.current() {
            Some(saved) => saved.same(&self.body.spec),
            None => false,
        };
        if !same {
            return SubmitStep::Done(
                Err(conflict(&route, "request UUID has different normalized content")),
            );
        }
        finish_saved(route)
    }
}

/// A request with a saved route is never sent to an executor again: it is answered at once, or
/// what the executor retains is asked for.
pub proof fn saved_requests_are_not_sent_again(
    body: SubmitBody,
    route: OriginRoute,
    step: SubmitStep,
)
    requires
        retried(body, route, step),
    ensures
        step is Done || step is ConnectRoute,
        step matches SubmitStep::Done(Ok(answer)) ==> answer.task == route.task && answer.request
            == route.request,
        step matches SubmitStep::Done(Ok(_)) ==> route.submission is Accepted && saved_content(
            route.spec,
        ) == Some(body.spec@),
{
}

impl AwaitTarget {
    /// Only another machine of the fleet runs a remote task.
    ///
    /// `target` is what the fleet makes of the name, or nothing outside a fleet.
    pub fn on_target(self, target: Option<Result<NameTarget, AppError>>, local_name: &str) -> (step:
        SubmitStep)
        ensures
            match target {
                None => step matches SubmitStep::Done(Err(error)) && error@ == (if self.name@
                    == local_name@ {
                    selects_local(self.name@)
                } else {
                    ErrorView::MachineNotFound { machine: self.name@ }
                }),
                Some(Err(error)) => step == SubmitStep::Done(Err(error)),
                Some(Ok(NameTarget::Local)) => step matches SubmitStep::Done(Err(error)) && error@
                    == selects_local(self.name@),
                Some(Ok(NameTarget::Peer(machine))) => step == (SubmitStep::Connect {
                    machine,
                    next: AwaitConnected { request: self.request, body: self.body, machine },
                }),
            },
    {
        match target {
            None => {
                if same_text(self.name.as_str(), local_name) {
                    SubmitStep::Done(Err(local_machine_selector(self.name.as_str())))
                } else {
                    SubmitStep::Done(Err(AppError::MachineNotFound { machine: self.name }))
                }
            },
            Some(Err(error)) => SubmitStep::Done(Err(error)),
            Some(Ok(NameTarget::Local)) => SubmitStep::Done(
                Err(local_machine_selector(self.name.as_str())),
            ),
            Some(Ok(NameTarget::Peer(machine))) => SubmitStep::Connect {
                machine,
                next: AwaitConnected { request: self.request, body: self.body, machine },
            },
        }
    }
}

impl AwaitConnected {
    /// A remote task calls back into an absolute directory of this machine.
    ///
    /// `connected` is the protocol version that the connection settled on.
    pub fn on_connected(self, connected: Result<u32, AppError>) -> (step: SubmitStep)
        ensures
            match connected {
                Err(error) => step == SubmitStep::Done(Err(error)),
                Ok(protocol) => match self.body.callback_cwd {
                    None => step matches SubmitStep::Done(Err(error)) && error@ == (
                    ErrorView::InvalidSpec {
                        pointer: "/callback_cwd"@,
                        value: "null"@,
                        message: "remote submission needs the CLI callback directory"@,
                    }),
                    Some(cwd) => if !absolute(cwd@) {
                        step matches SubmitStep::Done(Err(error)) && error@ == (
                        ErrorView::InvalidSpec {
                            pointer: "/callback_cwd"@,
                            value: json_string(cwd@),
                            message: "callback directory must be absolute"@,
                        })
                    } else {
                        step == (SubmitStep::CheckCwd {
                            cwd,
                            next: AwaitCwd {
                                request: self.request,
                                body: self.body,
                                machine: self.machine,
                                protocol,
                                callback_cwd: cwd,
                            },
                        })
                    },
                },
            },
    {
        let protocol: u32 = match connected {
            Ok(protocol) => protocol,
            Err(error) => {
                return SubmitStep::Done(Err(error));
            },
        };
        let callback_cwd = match &self.body.callback_cwd {
            Some(cwd) => cwd.clone(),
            None => {
                return SubmitStep::Done(
                    Err(
                        AppError::InvalidSpec {
                            pointer: "/callback_cwd".to_owned(),
                            value: "null".to_owned(),
                            message: "remote submission needs the CLI callback directory".to_owned(),
                        },
                    ),
                );
            },
        };
        if !is_absolute(callback_cwd.as_str()) {
            return SubmitStep::Done(
                Err(
                    AppError::InvalidSpec {
                        pointer: "/callback_cwd".to_owned(),
                        value: string_value(callback_cwd.as_str()),
                        message: "callback directory must be absolute".to_owned(),
                    },
                ),
            );
        }
        SubmitStep::CheckCwd {
            cwd: callback_cwd.clone(),
            next: AwaitCwd {
                request: self.request,
                body: self.body,
                machine: self.machine,
                protocol,
                callback_cwd,
            },
        }
    }
}

impl AwaitCwd {
    /// Find the agent executable as the caller's environment has it.
    pub fn on_checked(self, checked: Result<(), AppError>) -> (step: SubmitStep)
        ensures
            step == (match checked {
                Err(error) => SubmitStep::Done(Err(error)),
                Ok(_) => SubmitStep::ResolveCodex {
                    path: self.body.env.path,
                    cwd: self.callback_cwd,
                    next: AwaitCodex {
                        request: self.request,
                        body: self.body,
                        machine: self.machine,
                        protocol: self.protocol,
                        callback_cwd: self.callback_cwd,
                    },
                },
            }),
    {
        match checked {
            Err(error) => SubmitStep::Done(Err(error)),
            Ok(_) => SubmitStep::ResolveCodex {
                path: self.body.env.path.clone(),
                cwd: self.callback_cwd.clone(),
                next: AwaitCodex {
                    request: self.request,
                    body: self.body,
                    machine: self.machine,
                    protocol: self.protocol,
                    callback_cwd: self.callback_cwd,
                },
            },
        }
    }
}

impl AwaitCodex {
    /// Save the route, with unknown acceptance, before anything is sent.
    pub fn on_codex(
        self,
        found: Result<String, AppError>,
        local: MachineId,
        task: TaskId,
        now: Timestamp,
    ) -> (step: SubmitStep)
        ensures
            step == (match found {
                Err(error) => SubmitStep::Done(Err(error)),
                Ok(codex) => SubmitStep::AskInsert {
                    message: StoreMsg::InsertOriginRoute {
                        route: OriginRoute {
                            request: self.request,
                            task,
                            origin_machine: local,
                            execution_machine: self.machine,
                            thread: self.body.spec.thread,
                            callback: CallbackContext {
                                env: self.body.env,
                                cwd: self.callback_cwd,
                                codex: CallbackExecutable::Available { path: codex },
                            },
                            spec: SavedSpec::Current(self.body.spec),
                            submission: SubmissionState::AcceptanceUnknown,
                            last_execution_state: None,
                            last_updated_at: Some(now),
                            last_accepted_seq: 0,
                            last_settled_seq: 0,
                        },
                    },
                    next: AwaitInserted {
                        request: self.request,
                        task,
                        machine: self.machine,
                        protocol: self.protocol,
                    },
                },
            }),
    {
        match found {
            Err(error) => SubmitStep::Done(Err(error)),
            Ok(codex) => SubmitStep::AskInsert {
                message: StoreMsg::InsertOriginRoute {
                    route: OriginRoute {
                        request: self.request,
                        task,
                        origin_machine: local,
                        execution_machine: self.machine,
                        thread: self.body.spec.thread,
                        callback: CallbackContext {
                            env: self.body.env,
                            cwd: self.callback_cwd,
                            codex: CallbackExecutable::available(codex),
                        },
                        spec: SavedSpec::Current(self.body.spec),
                        submission: SubmissionState::AcceptanceUnknown,
                        last_execution_state: None,
                        last_updated_at: Some(now),
                        last_accepted_seq: 0,
                        last_settled_seq: 0,
                    },
                },
                next: AwaitInserted {
                    request: self.request,
                    task,
                    machine: self.machine,
                    protocol: self.protocol,
                },
            },
        }
    }
}

impl AwaitInserted {
    /// Send the task only when this call saved its route; another call's route is resolved.
    pub fn on_inserted(self, reply: Result<OriginRoute, AppError>) -> (step: SubmitStep)
        ensures
            match reply {
                Err(error) => step == (SubmitStep::AskFound {
                    message: StoreMsg::OriginRouteByRequest { request: self.request },
                    next: AwaitFound { error },
                }),
                Ok(saved) => if saved.task != self.task {
                    finishes(saved, step)
                } else {
                    match saved.spec {
                        SavedSpec::MigratedLocal => step matches SubmitStep::Done(Err(error))
                            && error@ == conflict_error(
                            saved,
                            "migrated local task has no remote request"@,
                        ),
                        SavedSpec::Current(spec) => {
                            &&& step matches SubmitStep::PostSubmit { wire, next }
                            &&& wire.api_version == API_VERSION
                            &&& wire.protocol_version == self.protocol
                            &&& wire.destination_machine == self.machine
                            &&& wire.origin_machine == saved.origin_machine
                            &&& wire.task == self.task
                            &&& wire.spec matches Ok(sent) && sent@ == spec@
                            &&& wire.unknown@.len() == 0
                            &&& next == (AwaitSubmitted { route: saved, protocol: self.protocol })
                        },
                    }
                },
            },
    {
        let saved = match reply {
            Ok(saved) => saved,
            Err(error) => {
                return SubmitStep::AskFound {
                    message: StoreMsg::OriginRouteByRequest { request: self.request },
                    next: AwaitFound { error },
                };
            },
        };
        if saved.task != self.task {
            return finish_saved(saved);
        }
        let spec = match saved.spec.current() {
            Some(spec) => spec.duplicate(),
            None => {
                return SubmitStep::Done(
                    Err(conflict(&saved, "migrated local task has no remote request")),
                );
            },
        };
        SubmitStep::PostSubmit {
            wire: SubmitExecution {
                api_version: API_VERSION,
                protocol_version: self.protocol,
                destination_machine: self.machine,
                origin_machine: saved.origin_machine,
                task: self.task,
                spec: Ok(spec),
                unknown: Vec::new(),
            },
            next: AwaitSubmitted { route: saved, protocol: self.protocol },
        }
    }
}

impl AwaitFound {
    /// A route that stands in the way makes the failure a conflict with it.
    pub fn on_found(self, reply: Result<Option<OriginRoute>, AppError>) -> (step: SubmitStep)
        ensures
            match reply {
                Err(error) => step == SubmitStep::Done(Err(error)),
                Ok(None) => step == SubmitStep::Done(Err(self.error)),
                Ok(Some(found)) => step matches SubmitStep::Done(Err(error)) && error@
                    == conflict_error(found, error_text(self.error@)),
            },
    {
        match reply {
            Err(error) => SubmitStep::Done(Err(error)),
            Ok(None) => SubmitStep::Done(Err(self.error)),
            Ok(Some(found)) => {
                let message = self.error.to_string();
                SubmitStep::Done(Err(conflict(&found, message.as_str())))
            },
        }
    }
}

/// Whether an identity's task and owners are a route's.
pub open spec fn same_owners(
    route: OriginRoute,
    task: TaskId,
    origin_machine: MachineId,
    execution_machine: MachineId,
) -> bool {
    task == route.task && origin_machine == route.origin_machine && execution_machine
        == route.execution_machine
}

/// Whether a step goes on with what an executor retains of a route.
pub open spec fn resolves(
    route: OriginRoute,
    identity: Option<ExecutorIdentity>,
    step: SubmitStep,
) -> bool {
    match indirect(route) {
        Some(error) => step matches SubmitStep::Done(Err(found)) && found@ == error,
        None => match identity {
            None => step matches SubmitStep::Done(Err(error)) && error@ == unknown_error(
                route,
                "executor returned no definitive identity"@,
            ),
            Some(ExecutorIdentity::Accepted(record)) => if same_owners(
                route,
                record.task,
                record.origin_machine,
                record.execution_machine,
            ) && saved_content(record.spec) == saved_content(route.spec) {
                step == (SubmitStep::AskResolve {
                    message: StoreMsg::ResolveOriginRoute {
                        id: route.task,
                        outcome: SubmissionState::Accepted,
                    },
                    next: AwaitResolved { route, status: record.state },
                })
            } else {
                step matches SubmitStep::Done(Err(error)) && error@ == conflict_error(
                    route,
                    "executor accepted a different identity"@,
                )
            },
            Some(ExecutorIdentity::Rejected(record)) => if same_owners(
                route,
                record.task,
                record.origin_machine,
                record.execution_machine,
            ) {
                step == (SubmitStep::AskResolve {
                    message: StoreMsg::ResolveOriginRoute {
                        id: route.task,
                        outcome: SubmissionState::Rejected { reason: record.reason },
                    },
                    next: AwaitResolved { route, status: ProcessStatus::Queued },
                })
            } else {
                step matches SubmitStep::Done(Err(error)) && error@ == conflict_error(
                    route,
                    "executor rejected a different owner"@,
                )
            },
        },
    }
}

/// Go on with what an executor retains of a route: only a definitive identity with the same
/// owners, and for accepted work the same content, resolves it.
pub fn resolve_identity(route: OriginRoute, identity: Option<ExecutorIdentity>) -> (step: SubmitStep)
    ensures
        resolves(route, identity, step),
{
    match ensure_direct_route(&route) {
        Err(error) => {
            return SubmitStep::Done(Err(error));
        },
        Ok(_) => {},
    }
    match identity {
        None => SubmitStep::Done(
            Err(unknown(&route, "executor returned no definitive identity")),
        ),
        Some(ExecutorIdentity::Accepted(record)) => {
            if record.task != route.task || record.origin_machine != route.origin_machine
                || record.execution_machine != route.execution_machine || !record.spec.same(
                &route.spec,
            ) {
                return SubmitStep::Done(
                    Err(conflict(&route, "executor accepted a different identity")),
                );
            }
            SubmitStep::AskResolve {
                message: StoreMsg::ResolveOriginRoute {
                    id: route.task,
                    outcome: SubmissionState::Accepted,
                },
                next: AwaitResolved { route, status: record.state },
            }
        },
        Some(ExecutorIdentity::Rejected(record)) => {
            if record.task != route.task || record.origin_machine != route.origin_machine
                || record.execution_machine != route.execution_machine {
                return SubmitStep::Done(
                    Err(conflict(&route, "executor rejected a different owner")),
                );
            }
            SubmitStep::AskResolve {
                message: StoreMsg::ResolveOriginRoute {
                    id: route.task,
                    outcome: SubmissionState::Rejected { reason: record.reason },
                },
                next: AwaitResolved { route, status: ProcessStatus::Queued },
            }
        },
    }
}

/// A route is resolved only by an identity of its own task and owners, and as accepted only
/// with its own content.
pub proof fn only_matching_identities_resolve(
    route: OriginRoute,
    identity: Option<ExecutorIdentity>,
    step: SubmitStep,
)
    requires
        resolves(route, identity, step),
        step is AskResolve,
    ensures
        match identity {
            Some(ExecutorIdentity::Accepted(record)) => same_owners(
                route,
                record.task,
                record.origin_machine,
                record.execution_machine,
            ) && saved_content(record.spec) == saved_content(route.spec),
            Some(ExecutorIdentity::Rejected(record)) => same_owners(
                route,
                record.task,
                record.origin_machine,
                record.execution_machine,
            ),
            None => false,
        },
        indirect(route) is None,
{
}

/// Whether a step goes on with an executor's reply, which names an identity in `protocol`.
pub open spec fn settles(
    route: OriginRoute,
    reply: IdentityReply,
    protocol: u32,
    step: SubmitStep,
) -> bool {
    match reply {
        Err(error) => step matches SubmitStep::Done(Err(found)) && found@ == unknown_error(
            route,
            error@,
        ),
        Ok((response, parsed)) => exists|decoded: Result<IdentityBody, ErrorView>|
            #[trigger] decodes(route, response, parsed, protocol, decoded) && match decoded {
                Err(error) => step matches SubmitStep::Done(Err(found)) && found@ == error,
                Ok(body) => resolves(route, body.identity, step),
            },
    }
}

fn settle(route: OriginRoute, reply: IdentityReply, protocol: u32) -> (step: SubmitStep)
    ensures
        settles(route, reply, protocol, step),
{
    match reply {
        Err(error) => SubmitStep::Done(Err(unknown(&route, error.as_str()))),
        Ok((response, parsed)) => {
            let decoded = decode_identity(&route, &response, parsed, protocol);
            proof {
                assert(decodes(
                    route,
                    response,
                    parsed,
                    protocol,
                    crate::error::result_view(decoded),
                ));
            }
            match decoded {
                Err(error) => SubmitStep::Done(Err(error)),
                Ok(body) => resolve_identity(route, body.identity),
            }
        },
    }
}

impl AwaitSubmitted {
    /// Only a definitive answer in the protocol that was sent in resolves the route.
    pub fn on_submitted(self, reply: IdentityReply) -> (step: SubmitStep)
        ensures
            settles(self.route, reply, self.protocol, step),
    {
        settle(self.route, reply, self.protocol)
    }
}

impl AwaitRouteConnected {
    /// Ask the executor what it retains of the task.
    ///
    /// `connected` is nothing when this machine is in no fleet.
    pub fn on_connected(self, connected: Option<Result<(), String>>) -> (step: SubmitStep)
        ensures
            match connected {
                None => step matches SubmitStep::Done(Err(error)) && error@ == unknown_error(
                    self.route,
                    "fleet is disabled"@,
                ),
                Some(Err(error)) => step matches SubmitStep::Done(Err(found)) && found@
                    == unknown_error(self.route, error@),
                Some(Ok(_)) => {
                    &&& step matches SubmitStep::GetIdentity { path, next }
                    &&& path@ == "/v1/cluster/executions/"@ + hyphenated(self.route.task.0) + "?"@
                        + read_query_text(self.route.execution_machine)
                    &&& next == (AwaitRetained { route: self.route })
                },
            },
    {
        match connected {
            None => SubmitStep::Done(Err(unknown(&self.route, "fleet is disabled"))),
            Some(Err(error)) => SubmitStep::Done(Err(unknown(&self.route, error.as_str()))),
            Some(Ok(_)) => {
                let task = self.route.task.text();
                let query = read_query(self.route.execution_machine);
                let head = join3("/v1/cluster/executions/", task.as_str(), "?");
                SubmitStep::GetIdentity {
                    path: join2(head.as_str(), query.as_str()),
                    next: AwaitRetained { route: self.route },
                }
            },
        }
    }
}

/// Whether a step goes on with what an executor says it retains.
pub open spec fn looks_up(route: OriginRoute, reply: IdentityReply, step: SubmitStep) -> bool {
    match reply {
        Err(error) => step matches SubmitStep::Done(Err(found)) && found@ == unknown_error(
            route,
            error@,
        ),
        Ok((response, parsed)) => exists|decoded: Result<IdentityBody, ErrorView>|
            #[trigger] decodes(route, response, parsed, CLUSTER_PROTOCOL_VERSION, decoded)
                && match decoded {
                Err(error) => step matches SubmitStep::Done(Err(found)) && found@ == error,
                Ok(body) => if body.identity is Some {
                    resolves(route, body.identity, step)
                } else {
                    step == (SubmitStep::ConnectAbandon {
                        machine: route.execution_machine,
                        next: AwaitAbandonConnected { route },
                    })
                },
            },
    }
}

impl AwaitRetained {
    /// A retained identity decides; a task that the executor does not know is fenced.
    pub fn on_retained(self, reply: IdentityReply) -> (step: SubmitStep)
        ensures
            looks_up(self.route, reply, step),
    {
        let route = self.route;
        match reply {
            Err(error) => SubmitStep::Done(Err(unknown(&route, error.as_str()))),
            Ok((response, parsed)) => {
                let decoded = decode_identity(&route, &response, parsed, CLUSTER_PROTOCOL_VERSION);
                proof {
                    assert(decodes(
                        route,
                        response,
                        parsed,
                        CLUSTER_PROTOCOL_VERSION,
                        crate::error::result_view(decoded),
                    ));
                }
                match decoded {
                    Err(error) => SubmitStep::Done(Err(error)),
                    Ok(body) => {
                        if body.identity.is_some() {
                            resolve_identity(route, body.identity)
                        } else {
                            SubmitStep::ConnectAbandon {
                                machine: route.execution_machine,
                                next: AwaitAbandonConnected { route },
                            }
                        }
                    },
                }
            },
        }
    }
}

impl AwaitAbandonConnected {
    /// Fence the task, so that a submission still on its way can no longer start it.
    ///
    /// `connected` is the protocol version that the connection settled on.
    pub fn on_connected(self, connected: Result<u32, String>) -> (step: SubmitStep)
        ensures
            match connected {
                Err(error) => step matches SubmitStep::Done(Err(found)) && found@ == unknown_error(
                    self.route,
                    error@,
                ),
                Ok(protocol) => step == (SubmitStep::PostAbandon {
                    wire: AbandonExecution {
                        api_version: API_VERSION,
                        protocol_version: protocol,
                        destination_machine: self.route.execution_machine,
                        origin_machine: self.route.origin_machine,
                        task: self.route.task,
                    },
                    next: AwaitAbandoned { route: self.route, protocol },
                }),
            },
    {
        match connected {
            Err(error) => SubmitStep::Done(Err(unknown(&self.route, error.as_str()))),
            Ok(protocol) => SubmitStep::PostAbandon {
                wire: AbandonExecution {
                    api_version: API_VERSION,
                    protocol_version: protocol,
                    destination_machine: self.route.execution_machine,
                    origin_machine: self.route.origin_machine,
                    task: self.route.task,
                },
                next: AwaitAbandoned { route: self.route, protocol },
            },
        }
    }
}

impl AwaitAbandoned {
    /// The executor's answer to the fence decides.
    pub fn on_abandoned(self, reply: IdentityReply) -> (step: SubmitStep)
        ensures
            settles(self.route, reply, self.protocol, step),
    {
        settle(self.route, reply, self.protocol)
    }
}

impl AwaitResolved {
    /// Answer with the outcome that was saved, which an earlier call may have decided.
    pub fn on_resolved(self, reply: Result<OriginRoute, AppError>) -> (step: SubmitStep)
        ensures
            match reply {
                Err(error) => step matches SubmitStep::Done(Err(found)) && found@ == unknown_error(
                    self.route,
                    "cannot save executor result: "@ + error_text(error@),
                ),
                Ok(saved) => match saved.submission {
                    SubmissionState::Accepted => step == SubmitStep::Done(
                        Ok(
                            Submitted {
                                task: self.route.task,
                                status: match saved.last_execution_state {
                                    Some(status) => status,
                                    None => self.status,
                                },
                                request: self.route.request,
                            },
                        ),
                    ),
                    SubmissionState::Rejected { reason } => step == SubmitStep::Done(
                        Err(
                            AppError::SubmissionRejected {
                                request: self.route.request,
                                task: self.route.task,
                                reason,
                            },
                        ),
                    ),
                    SubmissionState::AcceptanceUnknown => step matches SubmitStep::Done(Err(error))
                        && error@ == unknown_error(self.route, "origin route is unresolved"@),
                    _ => step matches SubmitStep::Done(Err(error)) && error@ == conflict_error(
                        saved,
                        "request UUID belongs to a resource route"@,
                    ),
                },
            },
    {
        let saved = match reply {
            Ok(saved) => saved,
            Err(error) => {
                let cause = error.to_string();
                let message = join2("cannot save executor result: ", cause.as_str());
                return SubmitStep::Done(Err(unknown(&self.route, message.as_str())));
            },
        };
        match &saved.submission {
            SubmissionState::Accepted => {
                let status = match saved.last_execution_state {
                    Some(status) => status,
                    None => self.status,
                };
                SubmitStep::Done(
                    Ok(
                        Submitted {
                            task: self.route.task,
                            status,
                            request: self.route.request,
                        },
                    ),
                )
            },
            SubmissionState::Rejected { reason } => SubmitStep::Done(
                Err(
                    AppError::SubmissionRejected {
                        request: self.route.request,
                        task: self.route.task,
                        reason: reason.clone(),
                    },
                ),
            ),
            SubmissionState::AcceptanceUnknown => SubmitStep::Done(
                Err(unknown(&self.route, "origin route is unresolved")),
            ),
            _ => SubmitStep::Done(
                Err(conflict(&saved, "request UUID belongs to a resource route")),
            ),
        }
    }
}

/// Whether a failed resolution after a restart is worth a warning: a rejection is an outcome.
pub fn warns(error: &AppError) -> (warns: bool)
    ensures
        warns == !(*error is SubmissionRejected),
{
    match error {
        AppError::SubmissionRejected { .. } => false,
        _ => true,
    }
}

/// Next part of a remote dry run.
#[derive(Debug)]
pub enum PreviewStep {
    /// Resolve the selected machine's name, if this machine is in a fleet.
    ResolveName { name: String, next: AwaitPreviewTarget },
    /// The task would run on this machine.
    Local(DryRunStep),
    /// Connect to the executor.
    Connect { machine: MachineId, next: AwaitPreviewConnected },
    /// Ask the executor for a preview.
    Post { wire: PreviewExecution, next: AwaitPreview },
    /// The executor refused; its answer says why.
    Refused { response: ClusterResponse },
    Done(Result<DryRunResponse, AppError>),
}

/// Waiting for the selected machine.
#[derive(Debug)]
pub struct AwaitPreviewTarget {
    pub spec: NormalizedSpec,
    /// Environment of the submitter, which a local preview is built in.
    pub env: TaskEnv,
    pub name: String,
}

/// Waiting for the connection.
#[derive(Debug)]
pub struct AwaitPreviewConnected {
    pub spec: NormalizedSpec,
    pub machine: MachineId,
}

/// Waiting for the preview.
#[derive(Debug)]
pub struct AwaitPreview {
    pub spec: NormalizedSpec,
    pub machine: MachineId,
    pub protocol: u32,
}

/// Ask the execution owner to validate and expand a task without storing its identity.
pub fn dry_run(spec: NormalizedSpec, env: TaskEnv) -> (step: PreviewStep)
    ensures
        match spec.machine {
            None => step matches PreviewStep::Done(Err(error)) && error@ == (ErrorView::Internal {
                message: "remote dry-run has no machine"@,
            }),
            Some(name) => step == (PreviewStep::ResolveName {
                name,
                next: AwaitPreviewTarget { spec, env, name },
            }),
        },
{
    let name = match &spec.machine {
        Some(name) => name.clone(),
        None => {
            return PreviewStep::Done(Err(internal("remote dry-run has no machine")));
        },
    };
    PreviewStep::ResolveName { name: name.clone(), next: AwaitPreviewTarget { spec, env, name } }
}

/// Whether a step is the local dry run of a specification, which then selects no machine.
pub open spec fn previews_locally(spec: NormalizedSpec, env: TaskEnv, step: PreviewStep) -> bool {
    step == PreviewStep::Local(
        DryRunStep::CheckCwd {
            cwd: spec.cwd,
            next: AwaitPreviewCwd { spec: NormalizedSpec { machine: None, ..spec }, env },
        },
    )
}

fn preview_locally(spec: NormalizedSpec, env: TaskEnv) -> (step: PreviewStep)
    ensures
        previews_locally(spec, env, step),
{
    let mut spec = spec;
    spec.machine = None;
    PreviewStep::Local(local_dry_run(spec, env))
}

impl AwaitPreviewTarget {
    /// This machine's own name is previewed here.
    ///
    /// `target` is what the fleet makes of the name, or nothing outside a fleet.
    pub fn on_target(self, target: Option<Result<NameTarget, AppError>>, local_name: &str) -> (step:
        PreviewStep)
        ensures
            match target {
                None => if self.name@ == local_name@ {
                    previews_locally(self.spec, self.env, step)
                } else {
                    step matches PreviewStep::Done(Err(error)) && error@ == (
                    ErrorView::MachineNotFound { machine: self.name@ })
                },
                Some(Err(error)) => step == PreviewStep::Done(Err(error)),
                Some(Ok(NameTarget::Local)) => previews_locally(self.spec, self.env, step),
                Some(Ok(NameTarget::Peer(machine))) => step == (PreviewStep::Connect {
                    machine,
                    next: AwaitPreviewConnected { spec: self.spec, machine },
                }),
            },
    {
        match target {
            None => {
                if same_text(self.name.as_str(), local_name) {
                    preview_locally(self.spec, self.env)
                } else {
                    PreviewStep::Done(Err(AppError::MachineNotFound { machine: self.name }))
                }
            },
            Some(Err(error)) => PreviewStep::Done(Err(error)),
            Some(Ok(NameTarget::Local)) => preview_locally(self.spec, self.env),
            Some(Ok(NameTarget::Peer(machine))) => PreviewStep::Connect {
                machine,
                next: AwaitPreviewConnected { spec: self.spec, machine },
            },
        }
    }
}

impl AwaitPreviewConnected {
    /// Ask in the protocol version that the connection settled on.
    pub fn on_connected(self, connected: Result<u32, AppError>) -> (step: PreviewStep)
        ensures
            match connected {
                Err(error) => step == PreviewStep::Done(Err(error)),
                Ok(protocol) => {
                    &&& step matches PreviewStep::Post { wire, next }
                    &&& wire.api_version == API_VERSION
                    &&& wire.protocol_version == protocol
                    &&& wire.destination_machine == self.machine
                    &&& wire.spec matches Ok(spec) && spec@ == self.spec@
                    &&& next == (AwaitPreview {
                        spec: self.spec,
                        machine: self.machine,
                        protocol,
                    })
                },
            },
    {
        match connected {
            Err(error) => PreviewStep::Done(Err(error)),
            Ok(protocol) => PreviewStep::Post {
                wire: PreviewExecution {
                    api_version: API_VERSION,
                    protocol_version: protocol,
                    destination_machine: self.machine,
                    spec: Ok(self.spec.duplicate()),
                },
                next: AwaitPreview { spec: self.spec, machine: self.machine, protocol },
            },
        }
    }
}

/// What a preview that cannot be used is answered.
pub open spec fn no_preview(message: Seq<char>) -> ErrorView {
    ErrorView::RemoteSubmissionUnavailable { message }
}

/// What [`decode_preview`] makes of an executor's preview.
pub open spec fn decoded_preview(
    version: Result<(), VersionRefusal>,
    parsed: Result<PreviewBody, String>,
    protocol: u32,
) -> Result<PreviewBody, ErrorView> {
    match version {
        Err(VersionRefusal::Invalid(error)) => Err(
            no_preview("invalid executor preview response: "@ + error@),
        ),
        Err(VersionRefusal::Unsupported) => Err(
            no_preview("executor preview returned an unsupported API version"@),
        ),
        Ok(_) => match parsed {
            Err(error) => Err(no_preview("invalid executor preview response: "@ + error@)),
            Ok(preview) => if preview.api_version != API_VERSION {
                Err(no_preview("executor preview returned an unsupported API version"@))
            } else if preview.protocol_version != protocol {
                Err(no_preview("executor preview returned another protocol version"@))
            } else {
                Ok(preview)
            },
        },
    }
}

/// Accept a preview only in this API version and the protocol that was asked in.
///
/// `version` is what the body's version member says, and `parsed` is the body as a preview.
pub fn decode_preview(
    version: Result<(), VersionRefusal>,
    parsed: Result<PreviewBody, String>,
    protocol: u32,
) -> (preview: Result<PreviewBody, AppError>)
    ensures
        match decoded_preview(version, parsed, protocol) {
            Ok(found) => preview == Ok::<PreviewBody, AppError>(found),
            Err(error) => preview matches Err(found) && found@ == error,
        },
{
    match version {
        Err(VersionRefusal::Invalid(error)) => {
            return Err(
                AppError::RemoteSubmissionUnavailable {
                    message: join2("invalid executor preview response: ", error.as_str()),
                },
            );
        },
        Err(VersionRefusal::Unsupported) => {
            return Err(
                AppError::RemoteSubmissionUnavailable {
                    message: "executor preview returned an unsupported API version".to_owned(),
                },
            );
        },
        Ok(_) => {},
    }
    let preview = match parsed {
        Ok(preview) => preview,
        Err(error) => {
            return Err(
                AppError::RemoteSubmissionUnavailable {
                    message: join2("invalid executor preview response: ", error.as_str()),
                },
            );
        },
    };
    if preview.api_version != API_VERSION {
        return Err(
            AppError::RemoteSubmissionUnavailable {
                message: "executor preview returned an unsupported API version".to_owned(),
            },
        );
    }
    if preview.protocol_version != protocol {
        return Err(
            AppError::RemoteSubmissionUnavailable {
                message: "executor preview returned another protocol version".to_owned(),
            },
        );
    }
    Ok(preview)
}

/// An executor's answer and its body as a preview, or the text of a failed request.
pub type PreviewReply = Result<(ClusterResponse, Result<PreviewBody, String>), String>;

/// Whether a step ends a preview with an executor's answer.
pub open spec fn previews(wait: AwaitPreview, reply: PreviewReply, step: PreviewStep) -> bool {
    match reply {
        Err(message) => step == PreviewStep::Done(
            Err(AppError::MachineUnavailable { machine: wait.machine, message }),
        ),
        Ok((response, parsed)) => if !success_status(response.status.number()) {
            step == (PreviewStep::Refused { response })
        } else {
            exists|version: Result<(), VersionRefusal>|
                #[trigger] version_checked(response.body@, API_VERSION, version)
                    && match decoded_preview(version, parsed, wait.protocol) {
                    Err(error) => step matches PreviewStep::Done(Err(found)) && found@ == error,
                    Ok(preview) => step == PreviewStep::Done(
                        Ok(
                            DryRunResponse {
                                api_version: API_VERSION,
                                spec: wait.spec,
                                argv: preview.argv,
                                stdin: preview.stdin,
                                execution_cwd: Some(preview.cwd),
                                managed_environment: None,
                            },
                        ),
                    ),
                }
        },
    }
}

impl AwaitPreview {
    /// Answer with the executor's preview.
    pub fn on_preview(self, reply: PreviewReply) -> (step: PreviewStep)
        ensures
            previews(self, reply, step),
    {
        let (response, parsed) = match reply {
            Err(message) => {
                return PreviewStep::Done(
                    Err(AppError::MachineUnavailable { machine: self.machine, message }),
                );
            },
            Ok((response, parsed)) => (response, parsed),
        };
        if !response.status.is_success() {
            return PreviewStep::Refused { response };
        }
        let version = check_body_version(&response.body, API_VERSION);
        proof {
            assert(version_checked(response.body@, API_VERSION, version));
        }
        match decode_preview(version, parsed, self.protocol) {
            Err(error) => PreviewStep::Done(Err(error)),
            Ok(preview) => PreviewStep::Done(
                Ok(
                    DryRunResponse {
                        api_version: API_VERSION,
                        spec: self.spec,
                        argv: preview.argv,
                        stdin: preview.stdin,
                        execution_cwd: Some(preview.cwd),
                        managed_environment: None,
                    },
                ),
            ),
        }
    }
}

} // verus!
