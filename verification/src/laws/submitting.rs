//! Submitting a task to another machine: one request is saved, sent and resolved once, and it
//! ends as its executor decided.

use vstd::prelude::*;

use crate::actors::store::StoreMsg;
use crate::api::{DryRunStep, SubmitBody};
use crate::cluster::IdentityBody;
use crate::domain::{NormalizedSpec, ProcessStatus, TaskEnv};
use crate::error::{AppError, ErrorView};
use crate::fleet::{ClusterResponse, API_VERSION};
use crate::ids::{MachineId, TaskId};
use crate::message_sender::NameTarget;
use crate::origin_submit::{
    dry_run, finish_saved, reconcile, resolve_identity, submit, AwaitAbandonConnected,
    AwaitAbandoned, AwaitCodex, AwaitConnected, AwaitCwd, AwaitFound, AwaitInserted, AwaitLocked,
    AwaitPreview, AwaitPreviewConnected, AwaitPreviewTarget, AwaitResolved, AwaitRetained,
    AwaitRouteConnected, AwaitSaved, AwaitSubmitted, AwaitTarget, IdentityReply, PreviewReply,
    PreviewStep, SubmitStep,
};
use crate::submission::{
    CallbackExecutable, ExecutorIdentity, OriginRoute, SavedSpec, SubmissionState,
};
use crate::time::Timestamp;

verus! {

/// Whether a route belongs to a request that was sent to another machine as it is, and not to a
/// resource's queue or to an older local task.
pub open spec fn direct(route: OriginRoute) -> bool {
    &&& route.spec is Current
    &&& route.submission is AcceptanceUnknown || route.submission is Accepted
        || route.submission is Rejected
}

/// Whether an identity is the executor's decision on a route: the same task between the same two
/// machines, and for accepted work the same content.
pub open spec fn decides(identity: ExecutorIdentity, route: OriginRoute) -> bool {
    match identity {
        ExecutorIdentity::Accepted(record) => {
            &&& record.task == route.task
            &&& record.origin_machine == route.origin_machine
            &&& record.execution_machine == route.execution_machine
            &&& record.spec matches SavedSpec::Current(kept)
            &&& route.spec matches SavedSpec::Current(sent)
            &&& kept@ == sent@
        },
        ExecutorIdentity::Rejected(tombstone) => {
            &&& tombstone.task == route.task
            &&& tombstone.origin_machine == route.origin_machine
            &&& tombstone.execution_machine == route.execution_machine
        },
    }
}

/// Whether a step resolves a route as an identity decided: to accepted exactly for an
/// acceptance, and otherwise to rejected with the tombstone's own reason.
pub open spec fn resolves_as(
    step: SubmitStep,
    route: OriginRoute,
    identity: ExecutorIdentity,
) -> bool {
    &&& step matches SubmitStep::AskResolve {
        message: StoreMsg::ResolveOriginRoute { id, outcome },
        next,
    }
    &&& id == route.task
    &&& next.route == route
    &&& outcome is Accepted <==> identity is Accepted
    &&& outcome is Rejected <==> identity is Rejected
    &&& identity matches ExecutorIdentity::Accepted(record) ==> next.status == record.state
    &&& identity matches ExecutorIdentity::Rejected(tombstone) ==> outcome == (
    SubmissionState::Rejected { reason: tombstone.reason })
}

/// Whether a step ends a submission with a conflict on a route.
pub open spec fn ends_in_conflict(step: SubmitStep, route: OriginRoute) -> bool {
    &&& step matches SubmitStep::Done(Err(error))
    &&& error@ matches ErrorView::SubmissionConflict { request, task, .. }
    &&& request == route.request
    &&& task == route.task
}

/// Whether a step ends a submission without knowing what its executor decided.
pub open spec fn ends_unknown(step: SubmitStep, route: OriginRoute) -> bool {
    &&& step matches SubmitStep::Done(Err(error))
    &&& error@ matches ErrorView::SubmissionOutcomeUnknown { request, task, .. }
    &&& request == route.request
    &&& task == route.task
}

/// Whether two steps are the same, where an error is the same if it says the same.
pub open spec fn same_end(left: SubmitStep, right: SubmitStep) -> bool {
    ||| left == right
    ||| left matches SubmitStep::Done(Err(one)) && right matches SubmitStep::Done(Err(other))
        && one@ == other@
}

/// A route is resolved exactly when it is direct and the executor's identity decides it, and then
/// to the outcome of the identity's own kind. Another identity is a conflict, and none at all
/// leaves the outcome unknown.
pub proof fn routes_resolve_as_their_executor_decided(
    route: OriginRoute,
    identity: Option<ExecutorIdentity>,
    step: SubmitStep,
)
    requires
        call_ensures(resolve_identity, (route, identity), step),
    ensures
        step is AskResolve <==> direct(route) && (identity matches Some(found) && decides(
            found,
            route,
        )),
        step is AskResolve ==> resolves_as(step, route, identity->0),
        !direct(route) ==> ends_in_conflict(step, route),
        direct(route) && identity is None ==> ends_unknown(step, route),
        direct(route) && (identity matches Some(found) && !decides(found, route))
            ==> ends_in_conflict(step, route),
{
}

/// Two identities resolve one route to the same outcome only if they are of the same kind and
/// give the same reason.
pub proof fn outcomes_tell_identities_apart(
    route: OriginRoute,
    left: ExecutorIdentity,
    right: ExecutorIdentity,
    left_step: SubmitStep,
    right_step: SubmitStep,
)
    requires
        call_ensures(resolve_identity, (route, Some(left)), left_step),
        call_ensures(resolve_identity, (route, Some(right)), right_step),
        left_step matches SubmitStep::AskResolve { message: left_message, .. } && right_step
            matches SubmitStep::AskResolve { message: right_message, .. } && left_message
            == right_message,
    ensures
        left is Accepted <==> right is Accepted,
        left is Rejected ==> left->Rejected_0.reason == right->Rejected_0.reason,
{
}

/// Whether an answer is a whole one of the current version and of a connection's protocol.
pub open spec fn usable(body: IdentityBody, response: ClusterResponse, protocol: u32) -> bool {
    &&& 200 <= response.status.number() < 300
    &&& body.api_version == API_VERSION
    &&& body.protocol_version == protocol
}

/// The answer to a submission, or to its abandonment, resolves the route only where it succeeded,
/// has the right versions and names an identity that decides the route; the route is then
/// resolved as that identity decided. Without an answer the outcome stays unknown, and the
/// request is never sent again by itself.
pub proof fn answers_resolve_what_they_decide(
    submitted: AwaitSubmitted,
    abandoned: AwaitAbandoned,
    reply: IdentityReply,
    after_submit: SubmitStep,
    after_abandon: SubmitStep,
)
    requires
        call_ensures(AwaitSubmitted::on_submitted, (submitted, reply), after_submit),
        call_ensures(AwaitAbandoned::on_abandoned, (abandoned, reply), after_abandon),
    ensures
        after_submit is AskResolve || after_submit matches SubmitStep::Done(Err(_)),
        after_abandon is AskResolve || after_abandon matches SubmitStep::Done(Err(_)),
        after_submit is AskResolve ==> (reply matches Ok((response, Ok(body))) && {
            &&& usable(body, response, submitted.protocol)
            &&& direct(submitted.route)
            &&& body.identity matches Some(identity)
            &&& decides(identity, submitted.route)
            &&& resolves_as(after_submit, submitted.route, identity)
        }),
        after_abandon is AskResolve ==> (reply matches Ok((response, Ok(body))) && {
            &&& usable(body, response, abandoned.protocol)
            &&& direct(abandoned.route)
            &&& body.identity matches Some(identity)
            &&& decides(identity, abandoned.route)
            &&& resolves_as(after_abandon, abandoned.route, identity)
        }),
        reply is Err ==> ends_unknown(after_submit, submitted.route),
        reply is Err ==> ends_unknown(after_abandon, abandoned.route),
        reply matches Ok((response, _)) && !(200 <= response.status.number() < 300)
            ==> ends_unknown(after_submit, submitted.route) && ends_unknown(
            after_abandon,
            abandoned.route,
        ),
        reply matches Ok((_, Err(_))) ==> ends_unknown(after_submit, submitted.route)
            && ends_unknown(after_abandon, abandoned.route),
{
}

/// An executor's retained identity resolves its route. The request is abandoned exactly where
/// the executor answered that it has none, never where the answer failed.
pub proof fn only_missing_identities_are_abandoned(
    retained: AwaitRetained,
    reply: IdentityReply,
    step: SubmitStep,
)
    requires
        call_ensures(AwaitRetained::on_retained, (retained, reply), step),
    ensures
        step is AskResolve || step is ConnectAbandon || step matches SubmitStep::Done(Err(_)),
        step matches SubmitStep::ConnectAbandon { machine, next } ==> {
            &&& machine == retained.route.execution_machine
            &&& next.route == retained.route
            &&& reply matches Ok((response, Ok(body)))
            &&& 200 <= response.status.number() < 300
            &&& body.api_version == API_VERSION
            &&& body.identity is None
        },
        step is AskResolve ==> (reply matches Ok((response, Ok(body))) && {
            &&& 200 <= response.status.number() < 300
            &&& body.api_version == API_VERSION
            &&& direct(retained.route)
            &&& body.identity matches Some(identity)
            &&& decides(identity, retained.route)
            &&& resolves_as(step, retained.route, identity)
        }),
        reply is Err ==> ends_unknown(step, retained.route),
        reply matches Ok((response, _)) && !(200 <= response.status.number() < 300)
            ==> ends_unknown(step, retained.route),
        reply matches Ok((_, Err(_))) ==> ends_unknown(step, retained.route),
{
}

/// An abandonment names the route's task between the route's own two machines, over the
/// protocol of the connection that it goes by.
pub proof fn abandonments_name_their_route(
    wait: AwaitAbandonConnected,
    connected: Result<u32, String>,
    step: SubmitStep,
)
    requires
        call_ensures(AwaitAbandonConnected::on_connected, (wait, connected), step),
    ensures
        step is PostAbandon <==> connected is Ok,
        step matches SubmitStep::PostAbandon { wire, next } ==> {
            &&& wire.task == wait.route.task
            &&& wire.origin_machine == wait.route.origin_machine
            &&& wire.destination_machine == wait.route.execution_machine
            &&& wire.api_version == API_VERSION
            &&& Ok::<u32, String>(wire.protocol_version) == connected
            &&& next.route == wait.route
            &&& next.protocol == wire.protocol_version
        },
        connected is Err ==> ends_unknown(step, wait.route),
{
}

/// A submission is answered by what its route was saved as: accepted work with the state that
/// the route last heard of, or else the state that the executor told; rejected work with the
/// saved reason. A result that could not be saved is not answered as one.
pub proof fn submissions_are_answered_as_saved(
    wait: AwaitResolved,
    reply: Result<OriginRoute, AppError>,
    step: SubmitStep,
)
    requires
        call_ensures(AwaitResolved::on_resolved, (wait, reply), step),
    ensures
        step is Done,
        step matches SubmitStep::Done(Ok(submitted)) ==> {
            &&& reply matches Ok(saved)
            &&& saved.submission is Accepted
            &&& submitted.task == wait.route.task
            &&& submitted.request == wait.route.request
            &&& saved.last_execution_state matches Some(status) ==> submitted.status == status
            &&& saved.last_execution_state is None ==> submitted.status == wait.status
        },
        reply matches Ok(saved) && saved.submission is Accepted ==> step matches SubmitStep::Done(
            Ok(_),
        ),
        reply matches Ok(saved) ==> (saved.submission matches SubmissionState::Rejected { reason }
            ==> step == SubmitStep::Done(
            Err(
                AppError::SubmissionRejected {
                    request: wait.route.request,
                    task: wait.route.task,
                    reason,
                },
            ),
        )),
        (step matches SubmitStep::Done(Err(error)) && error is SubmissionRejected) ==> (
        reply matches Ok(saved) && saved.submission is Rejected),
        reply is Err ==> ends_unknown(step, wait.route),
        reply matches Ok(saved) && saved.submission is AcceptanceUnknown ==> ends_unknown(
            step,
            wait.route,
        ),
        reply matches Ok(saved) && (saved.submission is Resource || saved.submission
            is ResourceAction || saved.submission is ResourceBackground) ==> ends_in_conflict(
            step,
            reply->Ok_0,
        ),
{
}

/// A request whose route is settled is answered from the route alone, without another machine:
/// what was accepted stays accepted, what was rejected stays rejected for the same reason, and
/// only a route with an unknown outcome is looked up, at its own executor.
pub proof fn settled_routes_are_answered_from_themselves(route: OriginRoute, step: SubmitStep)
    requires
        call_ensures(finish_saved, (route,), step),
    ensures
        step is Done || step is ConnectRoute,
        route.submission is Accepted <==> step matches SubmitStep::Done(Ok(_)),
        step matches SubmitStep::Done(Ok(submitted)) ==> {
            &&& submitted.task == route.task
            &&& submitted.request == route.request
            &&& route.last_execution_state matches Some(status) ==> submitted.status == status
            &&& route.last_execution_state is None ==> submitted.status == ProcessStatus::Queued
        },
        route.submission matches SubmissionState::Rejected { reason } ==> step == SubmitStep::Done(
            Err(
                AppError::SubmissionRejected {
                    request: route.request,
                    task: route.task,
                    reason,
                },
            ),
        ),
        step matches SubmitStep::ConnectRoute { machine, next } ==> machine
            == route.execution_machine && next.route == route && route.submission
            is AcceptanceUnknown && route.spec is Current,
        route.submission is AcceptanceUnknown && route.spec is Current ==> step is ConnectRoute,
        route.submission !is Accepted && route.submission !is Rejected && !direct(route)
            ==> ends_in_conflict(step, route),
{
}

/// A route is looked up again at its own executor exactly when it is direct.
pub proof fn direct_routes_are_looked_up(route: OriginRoute, step: SubmitStep)
    requires
        call_ensures(reconcile, (route,), step),
    ensures
        direct(route) <==> step is ConnectRoute,
        step matches SubmitStep::ConnectRoute { machine, next } ==> machine
            == route.execution_machine && next.route == route,
        !direct(route) ==> ends_in_conflict(step, route),
{
}

/// A request that is sent again is bound to what it said first: other content is a conflict, the
/// same content is answered from the saved route, and a saved request never reaches a new machine.
pub proof fn repeated_requests_keep_their_first_content(
    wait: AwaitSaved,
    route: OriginRoute,
    step: SubmitStep,
    saved_step: SubmitStep,
)
    requires
        call_ensures(AwaitSaved::on_saved, (wait, Ok(Some(route))), step),
        call_ensures(finish_saved, (route,), saved_step),
    ensures
        step !is ResolveName && step !is Connect && step !is AskInsert && step !is PostSubmit,
        !direct(route) ==> ends_in_conflict(step, route),
        direct(route) && (route.spec matches SavedSpec::Current(spec) && spec@ != wait.body.spec@)
            ==> ends_in_conflict(step, route),
        direct(route) && (route.spec matches SavedSpec::Current(spec) && spec@ == wait.body.spec@)
            ==> step == saved_step,
{
}

/// A new request goes to the machine that it names, and nowhere without a name.
pub proof fn new_requests_go_to_the_machine_they_name(
    wait: AwaitSaved,
    step: SubmitStep,
    failed: SubmitStep,
    error: AppError,
)
    requires
        call_ensures(AwaitSaved::on_saved, (wait, Ok(None)), step),
        call_ensures(AwaitSaved::on_saved, (wait, Err(error)), failed),
    ensures
        failed == SubmitStep::Done(Err(error)),
        step is ResolveName <==> wait.body.spec.machine is Some,
        step matches SubmitStep::ResolveName { name, next } ==> {
            &&& wait.body.spec.machine == Some(name)
            &&& next.name == name
            &&& next.request == wait.request
            &&& next.body == wait.body
        },
        step !is ResolveName ==> step matches SubmitStep::Done(Err(_)),
{
}

/// A submission holds its request's lock before it reads what is saved of the request.
pub proof fn submissions_lock_their_request(
    body: SubmitBody,
    first: SubmitStep,
    locked: Result<(), String>,
    step: SubmitStep,
)
    requires
        call_ensures(submit, (body,), first),
        first matches SubmitStep::LockRequest { next, .. } ==> call_ensures(
            AwaitLocked::on_locked,
            (next, locked),
            step,
        ),
    ensures
        first is LockRequest <==> body.request is Some,
        first !is LockRequest ==> first matches SubmitStep::Done(Err(_)),
        first matches SubmitStep::LockRequest { request, .. } ==> {
            &&& body.request == Some(request)
            &&& step is AskSaved <==> locked is Ok
            &&& step matches SubmitStep::AskSaved { message, next } ==> {
                &&& message == (StoreMsg::OriginRouteByRequest { request })
                &&& next.request == request
                &&& next.body == body
            }
            &&& locked is Err ==> step matches SubmitStep::Done(Err(_))
        },
{
}

/// A name is another machine's or the submission fails: the local machine, by its own name or by
/// its answer, and a name that nobody has are refused.
pub proof fn submissions_leave_the_local_machine(
    wait: AwaitTarget,
    target: Option<Result<NameTarget, AppError>>,
    local_name: &str,
    step: SubmitStep,
)
    requires
        call_ensures(AwaitTarget::on_target, (wait, target, local_name), step),
    ensures
        step is Connect <==> target matches Some(Ok(NameTarget::Peer(_))),
        step matches SubmitStep::Connect { machine, next } ==> {
            &&& target == Some(Ok::<NameTarget, AppError>(NameTarget::Peer(machine)))
            &&& next.machine == machine
            &&& next.request == wait.request
            &&& next.body == wait.body
        },
        step !is Connect ==> step matches SubmitStep::Done(Err(_)),
        target matches Some(Ok(NameTarget::Local)) ==> (step matches SubmitStep::Done(Err(error))
            && error@ is InvalidSpec),
        target is None && wait.name@ == local_name@ ==> (step matches SubmitStep::Done(Err(error))
            && error@ is InvalidSpec),
        target is None && wait.name@ != local_name@ ==> (step matches SubmitStep::Done(Err(error))
            && error@ == (ErrorView::MachineNotFound { machine: wait.name@ })),
        target matches Some(Err(error)) ==> step == SubmitStep::Done(Err(error)),
{
}

/// From the connection to the saved route, a submission keeps the machine that it is for, the
/// directory that its callbacks run in, and the content that was asked for; the saved route has
/// this machine as its origin and an unknown outcome, and nothing is heard of it yet.
pub proof fn saved_routes_say_what_was_asked(
    wait: AwaitConnected,
    protocol: u32,
    first: SubmitStep,
    second: SubmitStep,
    codex: String,
    local: MachineId,
    task: TaskId,
    now: Timestamp,
    step: SubmitStep,
)
    requires
        call_ensures(AwaitConnected::on_connected, (wait, Ok(protocol)), first),
        first matches SubmitStep::CheckCwd { next, .. } && call_ensures(
            AwaitCwd::on_checked,
            (next, Ok(())),
            second,
        ),
        second matches SubmitStep::ResolveCodex { next, .. } ==> call_ensures(
            AwaitCodex::on_codex,
            (next, Ok(codex), local, task, now),
            step,
        ),
    ensures
        first matches SubmitStep::CheckCwd { cwd, .. } && wait.body.callback_cwd == Some(cwd),
        second matches SubmitStep::ResolveCodex { path, cwd, .. } && path == wait.body.env.path
            && wait.body.callback_cwd == Some(cwd),
        step matches SubmitStep::AskInsert {
            message: StoreMsg::InsertOriginRoute { route },
            next,
        } && {
            &&& route.request == wait.request
            &&& route.task == task
            &&& route.origin_machine == local
            &&& route.execution_machine == wait.machine
            &&& route.thread == wait.body.spec.thread
            &&& route.spec == SavedSpec::Current(wait.body.spec)
            &&& route.callback.env == wait.body.env
            &&& Some(route.callback.cwd) == wait.body.callback_cwd
            &&& route.callback.codex == (CallbackExecutable::Available { path: codex })
            &&& route.submission is AcceptanceUnknown
            &&& route.last_execution_state is None
            &&& route.last_updated_at == Some(now)
            &&& route.last_accepted_seq == 0
            &&& route.last_settled_seq == 0
            &&& next.task == task
            &&& next.request == wait.request
            &&& next.machine == wait.machine
            &&& next.protocol == protocol
        },
{
}

/// A submission that cannot connect, check its callback directory or find the callback's
/// executable saves nothing and fails with that error.
pub proof fn unprepared_submissions_save_nothing(
    connected: AwaitConnected,
    cwd: AwaitCwd,
    codex: AwaitCodex,
    error: AppError,
    local: MachineId,
    task: TaskId,
    now: Timestamp,
    steps: (SubmitStep, SubmitStep, SubmitStep),
)
    requires
        call_ensures(AwaitConnected::on_connected, (connected, Err(error)), steps.0),
        call_ensures(AwaitCwd::on_checked, (cwd, Err(error)), steps.1),
        call_ensures(AwaitCodex::on_codex, (codex, Err(error), local, task, now), steps.2),
    ensures
        steps.0 == SubmitStep::Done(Err(error)),
        steps.1 == SubmitStep::Done(Err(error)),
        steps.2 == SubmitStep::Done(Err(error)),
{
}

/// A callback directory is needed, and it must be absolute.
pub proof fn callback_directories_are_checked(
    wait: AwaitConnected,
    protocol: u32,
    step: SubmitStep,
)
    requires
        call_ensures(AwaitConnected::on_connected, (wait, Ok(protocol)), step),
    ensures
        wait.body.callback_cwd is None ==> (step matches SubmitStep::Done(Err(error)) && error@
            is InvalidSpec),
        step is CheckCwd || step matches SubmitStep::Done(Err(_)),
        step is CheckCwd ==> wait.body.callback_cwd is Some,
        step !is CheckCwd ==> (step matches SubmitStep::Done(Err(error)) && error@ is InvalidSpec),
{
}

/// The route that this submission saved is sent to the machine it is for, with the saved
/// content; a route that another submission saved first is answered as it stands, and is not
/// sent again.
pub proof fn saved_routes_are_sent_once(
    wait: AwaitInserted,
    saved: OriginRoute,
    step: SubmitStep,
    saved_step: SubmitStep,
)
    requires
        call_ensures(AwaitInserted::on_inserted, (wait, Ok(saved)), step),
        call_ensures(finish_saved, (saved,), saved_step),
    ensures
        step is PostSubmit <==> saved.task == wait.task && saved.spec is Current,
        saved.task != wait.task ==> same_end(step, saved_step),
        saved.task == wait.task && saved.spec is MigratedLocal ==> ends_in_conflict(step, saved),
        step matches SubmitStep::PostSubmit { wire, next } ==> {
            &&& wire.task == saved.task
            &&& wire.origin_machine == saved.origin_machine
            &&& wire.destination_machine == wait.machine
            &&& wire.api_version == API_VERSION
            &&& wire.protocol_version == wait.protocol
            &&& wire.spec matches Ok(sent)
            &&& saved.spec matches SavedSpec::Current(spec)
            &&& sent@ == spec@
            &&& wire.unknown@.len() == 0
            &&& next.route == saved
            &&& next.protocol == wait.protocol
        },
{
}

/// A route that could not be saved is looked for under its request: a route that is found is a
/// conflict on that route, and otherwise the first error stands.
pub proof fn unsaved_routes_keep_their_error(
    wait: AwaitInserted,
    error: AppError,
    first: SubmitStep,
    reply: Result<Option<OriginRoute>, AppError>,
    step: SubmitStep,
)
    requires
        call_ensures(AwaitInserted::on_inserted, (wait, Err(error)), first),
        first matches SubmitStep::AskFound { next, .. } && call_ensures(
            AwaitFound::on_found,
            (next, reply),
            step,
        ),
    ensures
        first matches SubmitStep::AskFound { message, .. } && message == (
        StoreMsg::OriginRouteByRequest { request: wait.request }),
        reply matches Ok(Some(found)) ==> ends_in_conflict(step, found),
        reply matches Ok(None) ==> step == SubmitStep::Done(Err(error)),
        reply matches Err(failed) ==> step == SubmitStep::Done(Err(failed)),
{
}

/// A route's executor is asked only over a connection; without a fleet or a connection the
/// outcome stays unknown.
pub proof fn lookups_need_a_connection(
    wait: AwaitRouteConnected,
    connected: Option<Result<(), String>>,
    step: SubmitStep,
)
    requires
        call_ensures(AwaitRouteConnected::on_connected, (wait, connected), step),
    ensures
        step is GetIdentity <==> connected matches Some(Ok(_)),
        step matches SubmitStep::GetIdentity { next, .. } ==> next.route == wait.route,
        step !is GetIdentity ==> ends_unknown(step, wait.route),
{
}

/// A preview goes to the machine that its spec names: to a peer over the wire, and for the local
/// machine, under its own name or by its answer, to the local preview of the same work.
pub proof fn previews_go_where_their_task_would(
    spec: NormalizedSpec,
    env: TaskEnv,
    first: PreviewStep,
    target: Option<Result<NameTarget, AppError>>,
    local_name: &str,
    step: PreviewStep,
)
    requires
        call_ensures(dry_run, (spec, env), first),
        first matches PreviewStep::ResolveName { next, .. } && call_ensures(
            AwaitPreviewTarget::on_target,
            (next, target, local_name),
            step,
        ),
    ensures
        first matches PreviewStep::ResolveName { name, .. } && {
            &&& spec.machine == Some(name)
            &&& step is Local <==> (target matches Some(Ok(NameTarget::Local))) || (target is None
                && name@ == local_name@)
            &&& target is None && name@ != local_name@ ==> (step matches PreviewStep::Done(
                Err(error),
            ) && error@ == (ErrorView::MachineNotFound { machine: name@ }))
        },
        step is Connect <==> target matches Some(Ok(NameTarget::Peer(_))),
        step matches PreviewStep::Connect { machine, next } ==> target == Some(
            Ok::<NameTarget, AppError>(NameTarget::Peer(machine)),
        ) && next.machine == machine && next.spec == spec,
        step matches PreviewStep::Local(local) ==> (local matches DryRunStep::CheckCwd { cwd, next }
            && cwd == spec.cwd && next.env == env && next.spec == (NormalizedSpec {
            machine: None,
            ..spec
        })),
        target matches Some(Err(error)) ==> step == PreviewStep::Done(Err(error)),
{
}

/// A preview without a machine fails, and one with a machine asks for its name.
pub proof fn previews_need_a_machine(spec: NormalizedSpec, env: TaskEnv, step: PreviewStep)
    requires
        call_ensures(dry_run, (spec, env), step),
    ensures
        step is ResolveName <==> spec.machine is Some,
        step !is ResolveName ==> step matches PreviewStep::Done(Err(_)),
{
}

/// A peer is asked to preview the same content, and its whole answer of the right versions is
/// shown beside the spec that was asked for. An answer that failed is handed on as it came, and
/// without one the machine is unavailable.
pub proof fn previews_show_the_executors_answer(
    wait: AwaitPreviewConnected,
    protocol: u32,
    first: PreviewStep,
    reply: PreviewReply,
    step: PreviewStep,
)
    requires
        call_ensures(AwaitPreviewConnected::on_connected, (wait, Ok(protocol)), first),
        first matches PreviewStep::Post { next, .. } && call_ensures(
            AwaitPreview::on_preview,
            (next, reply),
            step,
        ),
    ensures
        first matches PreviewStep::Post { wire, .. } && {
            &&& wire.destination_machine == wait.machine
            &&& wire.protocol_version == protocol
            &&& wire.api_version == API_VERSION
            &&& wire.spec matches Ok(sent)
            &&& sent@ == wait.spec@
        },
        step is Refused || step is Done,
        step matches PreviewStep::Done(Ok(shown)) ==> {
            &&& reply matches Ok((response, Ok(preview)))
            &&& 200 <= response.status.number() < 300
            &&& preview.api_version == API_VERSION
            &&& preview.protocol_version == protocol
            &&& shown.spec == wait.spec
            &&& shown.argv == preview.argv
            &&& shown.stdin == preview.stdin
            &&& shown.execution_cwd == Some(preview.cwd)
            &&& shown.managed_environment is None
            &&& shown.api_version == API_VERSION
        },
        step is Refused <==> (reply matches Ok((response, _)) && !(200 <= response.status.number()
            < 300)),
        step matches PreviewStep::Refused { response } ==> reply->Ok_0.0 == response,
        reply matches Err(message) ==> step == PreviewStep::Done(
            Err(AppError::MachineUnavailable { machine: wait.machine, message }),
        ),
{
}

} // verus!
