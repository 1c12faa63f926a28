//! Launching a resource's tasks: a row is spawned by the launch that inserted it and by no other,
//! and the resource hears of a launch what really came of it.

use vstd::prelude::*;

use crate::actors::resource::messages::ResourceMsg;
use crate::actors::resource::reconcile::ReleaseWatcherLaunch;
use crate::actors::resource::watcher::{bound_command, PreparedActionTask};
use crate::actors::resource::{
    BackgroundLaunchResult, ReleaseWatcherAcceptance, ReleaseWatcherAcceptanceError,
    ReleaseWatcherLaunchResult, ResourceTaskAcceptance, RestoreLaunchResult,
};
use crate::actors::store::{
    EventError, IdentityError, ResourceStoreError, ResourceTaskAcceptanceInput, StoreMsg,
};
use crate::actors::supervisor::resource_launch::{
    bind_background_launch, decide_return, decided_launch, launch_assigned_resource_task,
    launch_background, launch_bound_release_watcher, launch_remote_background,
    launch_remote_release_watcher, launch_return_task, on_assigned_accepted,
    remote_watcher_outcome, resource_action, return_decision_rejection, return_rejection,
    AcceptedActionTask, ActionStep, ActionTaskAcceptance, AssignedLaunch, AssignedStep,
    AwaitActorPrepared, AwaitBackgroundBound, AwaitBackgroundCodex, AwaitClosed, AwaitHeld,
    AwaitNoResume, AwaitObserved, AwaitRemoteAccepted, AwaitRemoteCommand, AwaitReturnAccepted,
    AwaitReturnCodex, AwaitReturnLaunched, AwaitReturnPrepared, AwaitSpawn, AwaitWatcherAccepted,
    AwaitWatcherCodex, AwaitWatcherContext, AwaitWatcherEnv, AwaitWatcherRoute, AwaitWatcherSpec,
    BackgroundLaunch, BackgroundLaunchAcceptance, BackgroundLaunchError, BackgroundStart,
    BackgroundStep, DecideStep, Decided, LaunchReporter, LaunchStep, RemoteWatcherStep,
    ResourceActionError, ResourceActionOperation, ResourceActionOutcome, ResourceActionRequest,
    ReturnClosure, ReturnDecision, ReturnDecisionError, ReturnDecisionOutcome, ReturnStart,
    ReturnStep, ReturnTaskAcceptance, StartTold, WatcherLaunchStep, WatcherStep,
};
use crate::actors::supervisor::CodexLookup;
use crate::domain::{NormalizedSpec, ProcessStatus, SpecDigest, TaskEnv};
use crate::error::AppError;
use crate::ids::{MachineId, TaskId};
use crate::release_watcher_api::ReleaseWatcherCommand;
use crate::resource::{
    ActionTaskIdentity, RejectionView, RemoteBackgroundLaunchReceipt, ResourceActionRejection,
    ReturnDecisionWindow, ReturnLaunch, ReturnTaskOrigin, SupervisorActionAuthority,
};
use crate::submission::{CallbackExecutable, OriginRoute};

verus! {

/// A spawn that worked reports an insertion and answers the acceptance; one that failed reports
/// the launch as uncertain. A watch that failed reports nothing.
pub proof fn spawns_report_what_came_of_them<A, E, R>(
    spawn: AwaitSpawn<A, R>,
    observed: AwaitObserved<A, R>,
    reply: Result<(), AppError>,
    spawned: LaunchStep<A, E, R>,
    watched: LaunchStep<A, E, R>,
)
    requires
        call_ensures(AwaitSpawn::<A, R>::on_spawned::<E>, (spawn, reply), spawned),
        call_ensures(AwaitObserved::<A, R>::on_observed::<E>, (observed, reply), watched),
    ensures
        reply is Ok ==> spawned == (LaunchStep::<A, E, R>::Done {
            report: spawn.inserted,
            result: Ok(Ok(spawn.acceptance)),
        }),
        reply matches Err(error) ==> spawned == (LaunchStep::<A, E, R>::Done {
            report: spawn.uncertain,
            result: Err(error),
        }),
        reply is Ok ==> watched == (LaunchStep::<A, E, R>::Done {
            report: observed.observed,
            result: Ok(Ok(observed.acceptance)),
        }),
        reply matches Err(error) ==> watched == (LaunchStep::<A, E, R>::Done {
            report: None,
            result: Err(error),
        }),
{
}

/// A resource hears of a launch's end exactly if its actor was told of the start.
pub proof fn reports_reach_the_actor_that_was_told<R>(
    told: StartTold,
    reporter: Result<LaunchReporter, AppError>,
    report: Option<R>,
    heard: Option<R>,
)
    requires
        call_ensures(LaunchReporter::start, (told,), reporter),
        reporter matches Ok(found) ==> call_ensures(
            LaunchReporter::finish::<R>,
            (found, report),
            heard,
        ),
    ensures
        reporter is Err <==> told is Failed,
        told is Told ==> heard == report,
        told is NoActor ==> heard is None,
{
}

/// An assigned task is spawned exactly where its own launch inserted it; one that is queued by
/// others has its resource reconciled, one that runs is watched, and one that ended is let be. An
/// acceptance of another task fails.
pub proof fn assigned_tasks_are_spawned_by_their_insertion(
    input: ResourceTaskAcceptanceInput,
    asked: (StoreMsg, AssignedLaunch),
    reply: Result<Result<ResourceTaskAcceptance, ResourceStoreError>, AppError>,
    step: AssignedStep,
)
    requires
        call_ensures(launch_assigned_resource_task, (input,), asked),
        call_ensures(on_assigned_accepted, (asked.1, reply), step),
    ensures
        asked.0 == (StoreMsg::AcceptAssignedResourceTask { input }),
        step is Spawn <==> (reply matches Ok(Ok(ResourceTaskAcceptance::Inserted { task })) && task
            == input.task_id),
        step matches AssignedStep::Spawn { task, next } ==> task == input.task_id
            && reply->Ok_0->Ok_0 == next.acceptance,
        step is Reconcile <==> (reply matches Ok(
            Ok(ResourceTaskAcceptance::Existing { task, state }),
        ) && task == input.task_id && state == ProcessStatus::Queued),
        step matches AssignedStep::Reconcile { resource, .. } ==> resource == input.resource_id,
        step is Watch <==> (reply matches Ok(Ok(ResourceTaskAcceptance::Existing { task, state }))
            && task == input.task_id && state == ProcessStatus::Running),
        step matches AssignedStep::Watch { task, .. } ==> task == input.task_id,
        reply matches Err(error) ==> (step matches AssignedStep::Done { result, .. } && result
            == Err::<Result<ResourceTaskAcceptance, ResourceStoreError>, AppError>(error)),
        reply matches Ok(Err(error)) ==> (step matches AssignedStep::Done { result, .. } && result
            == Ok::<Result<ResourceTaskAcceptance, ResourceStoreError>, AppError>(
            Err::<ResourceTaskAcceptance, ResourceStoreError>(error),
        )),
        (reply matches Ok(Ok(ResourceTaskAcceptance::Inserted { task })) && task != input.task_id)
            ==> (step matches AssignedStep::Done { result, .. } && result is Err),
        (reply matches Ok(Ok(ResourceTaskAcceptance::Existing { task, .. })) && task
            != input.task_id) ==> (step matches AssignedStep::Done { result, .. } && result is Err),
{
}

/// Whether a step asks for a bound watcher's acceptance with everything that the launch bound.
pub open spec fn asks_watcher_acceptance(
    step: WatcherLaunchStep,
    launch: ReleaseWatcherLaunch,
    built: NormalizedSpec,
) -> bool {
    &&& step matches WatcherLaunchStep::AskAcceptance {
        message: StoreMsg::AcceptReleaseWatcherForAuthority {
            authority_machine,
            resource_id,
            supervisor,
            intent,
            spec,
            executable,
            ..
        },
        next,
    }
    &&& authority_machine == launch.authority_machine
    &&& resource_id == launch.resource_id
    &&& supervisor == launch.supervisor
    &&& intent == launch.intent
    &&& spec == built
    &&& executable == launch.executable
    &&& next.task == launch.intent.watcher_task_id
}

/// A bound watcher is built from its own command, and accepted in the context that was saved for
/// its task where there is one; otherwise in a new one, with the callback executable as found.
pub proof fn bound_watchers_keep_their_saved_context(
    launch: ReleaseWatcherLaunch,
    first: WatcherLaunchStep,
    command: ReleaseWatcherCommand,
    built: NormalizedSpec,
    second: WatcherLaunchStep,
    saved: Option<TaskEnv>,
    third: WatcherLaunchStep,
    route: Option<OriginRoute>,
    step: WatcherLaunchStep,
)
    requires
        call_ensures(launch_bound_release_watcher, (launch,), first),
        call_ensures(bound_command, (launch.resource_id, &launch.intent), command),
        first matches WatcherLaunchStep::BuildSpec { next, .. } ==> call_ensures(
            AwaitWatcherSpec::on_spec,
            (next, Ok(built)),
            second,
        ),
        second matches WatcherLaunchStep::AskRow { next, .. } ==> call_ensures(
            AwaitWatcherEnv::on_row,
            (next, Ok(saved)),
            third,
        ),
        third matches WatcherLaunchStep::AskRoute { next, .. } ==> call_ensures(
            AwaitWatcherRoute::on_route,
            (next, Ok(route)),
            step,
        ),
    ensures
        first matches WatcherLaunchStep::BuildSpec { command: own, executable, thread, .. } && own
            == command && executable == launch.executable && thread == launch.supervisor.thread,
        second matches WatcherLaunchStep::AskRow { message, .. } && message == (StoreMsg::GetTask {
            id: launch.intent.watcher_task_id,
        }),
        third matches WatcherLaunchStep::AskRoute { message, .. } && message == (
        StoreMsg::OriginRouteByRequest { request: launch.intent.request_id }),
        ({
            let kept = saved is Some && (route matches Some(found) && found.task
                == launch.intent.watcher_task_id);
            &&& step is AskAcceptance <==> kept
            &&& kept ==> asks_watcher_acceptance(step, launch, built)
            &&& step matches WatcherLaunchStep::AskAcceptance {
                message: StoreMsg::AcceptReleaseWatcherForAuthority { env, callback, .. },
                ..
            } ==> Some(env) == saved && callback == route->0.callback
            &&& !kept ==> (step matches WatcherLaunchStep::Capture { next } && next.launch == launch
                && next.spec == built)
        }),
{
}

/// A watcher's new context is its captured environment in the directory of its own command.
pub proof fn new_watchers_get_a_captured_context(
    wait: AwaitWatcherContext,
    env: TaskEnv,
    first: WatcherLaunchStep,
    resolved: Result<String, AppError>,
    step: WatcherLaunchStep,
)
    requires
        call_ensures(AwaitWatcherContext::on_captured, (wait, env), first),
        first matches WatcherLaunchStep::ResolveCodex { lookup } ==> call_ensures(
            AwaitWatcherCodex::on_codex,
            (lookup.next, resolved),
            step,
        ),
    ensures
        first matches WatcherLaunchStep::ResolveCodex { lookup } && lookup.path == env.path
            && lookup.cwd == wait.spec.cwd,
        asks_watcher_acceptance(step, wait.launch, wait.spec),
        step matches WatcherLaunchStep::AskAcceptance {
            message: StoreMsg::AcceptReleaseWatcherForAuthority { env: kept, callback, .. },
            ..
        } && kept == env && callback.env == env && callback.cwd == wait.spec.cwd && (
        resolved matches Ok(path) ==> callback.codex == (CallbackExecutable::Available { path }))
            && (resolved is Err <==> callback.codex is Unavailable),
{
}

/// A watcher is spawned exactly where its own launch inserted it, and watched where it runs.
pub proof fn watchers_are_spawned_by_their_insertion(
    wait: AwaitWatcherAccepted,
    reply: Result<Result<ReleaseWatcherAcceptance, ReleaseWatcherAcceptanceError>, AppError>,
    step: WatcherStep,
)
    requires
        call_ensures(AwaitWatcherAccepted::on_accepted, (wait, reply), step),
    ensures
        step is Spawn <==> (reply matches Ok(Ok(ReleaseWatcherAcceptance::Inserted { task }))
            && task == wait.task),
        step matches WatcherStep::Spawn { task, .. } ==> task == wait.task,
        step is Watch <==> (reply matches Ok(
            Ok(ReleaseWatcherAcceptance::Existing { task, state }),
        ) && task == wait.task && state == ProcessStatus::Running),
        step matches WatcherStep::Watch { task, .. } ==> task == wait.task,
        step !is Reconcile,
        (reply matches Ok(Ok(ReleaseWatcherAcceptance::Existing { task, state })) && task
            == wait.task && state != ProcessStatus::Running) ==> (step matches WatcherStep::Done {
            result,
            ..
        } && result is Ok),
        (reply matches Ok(Ok(ReleaseWatcherAcceptance::Inserted { task })) && task != wait.task)
            ==> (step matches WatcherStep::Done { result, .. } && result is Err),
        reply matches Err(error) ==> (step matches WatcherStep::Done { result, .. } && result
            == Err::<Result<ReleaseWatcherAcceptance, ReleaseWatcherAcceptanceError>, AppError>(
            error,
        )),
{
}

/// A return is launched with the authority, the launch and the origin that were decided, and its
/// resource hears of it under the return's own action and task.
pub proof fn returns_start_as_decided(
    authority: SupervisorActionAuthority,
    launch: ReturnLaunch,
    env: TaskEnv,
    origin: ReturnTaskOrigin,
    start: ReturnStart,
    reporter: LaunchReporter,
    report: Option<RestoreLaunchResult>,
    message: Option<ResourceMsg>,
)
    requires
        call_ensures(launch_return_task, (authority, launch, env, origin), start),
        call_ensures(AwaitReturnAccepted::finished, (start.next, reporter, report), message),
    ensures
        start.started == (ResourceMsg::RestoreLaunchStarted {
            action_id: authority.action_id,
            task_id: launch.task_id,
        }),
        start.message == (StoreMsg::AcceptReturnTaskForAuthority {
            authority,
            launch,
            executor_env: env,
            origin,
        }),
        message is Some <==> reporter.has_actor && report is Some,
        message matches Some(told) ==> told == (ResourceMsg::RestoreLaunchFinished {
            action_id: authority.action_id,
            task_id: launch.task_id,
            result: report->0,
        }),
{
}

/// A return is spawned exactly where its own launch inserted it. It is reported as inserted only
/// after the spawn, as existing where its own task was found, and otherwise as not inserted.
pub proof fn returns_are_spawned_by_their_insertion(
    wait: AwaitReturnAccepted,
    reply: Result<Result<ReturnTaskAcceptance, ReturnDecisionError>, AppError>,
    step: ReturnStep,
)
    requires
        call_ensures(AwaitReturnAccepted::on_accepted, (wait, reply), step),
    ensures
        step is Spawn <==> (reply matches Ok(Ok(ReturnTaskAcceptance::Inserted { task })) && task
            == wait.task_id),
        step matches ReturnStep::Spawn { task, next } ==> task == wait.task_id && next.inserted
            == Some(RestoreLaunchResult::Inserted) && next.uncertain == Some(
            RestoreLaunchResult::NotInserted,
        ) && reply->Ok_0->Ok_0 == next.acceptance,
        step is Watch <==> (reply matches Ok(Ok(ReturnTaskAcceptance::Existing { task, state }))
            && task == wait.task_id && state == ProcessStatus::Running),
        step matches ReturnStep::Watch { task, next } ==> task == wait.task_id && next.observed
            == Some(RestoreLaunchResult::Existing { state: ProcessStatus::Running }),
        step matches ReturnStep::Done { report, .. } ==> {
            &&& report is Some
            &&& report != Some(RestoreLaunchResult::Inserted)
            &&& report matches Some(RestoreLaunchResult::Existing { state }) ==> (
            reply matches Ok(Ok(ReturnTaskAcceptance::Existing { task, state: found })) && task
                == wait.task_id && found == state)
            &&& (reply matches Ok(Ok(ReturnTaskAcceptance::Existing { task, .. })) && task
                == wait.task_id) ==> report matches Some(RestoreLaunchResult::Existing { .. })
        },
        step !is Reconcile,
        reply matches Err(error) ==> (step matches ReturnStep::Done { result, .. } && result
            == Err::<Result<ReturnTaskAcceptance, ReturnDecisionError>, AppError>(error)),
        reply matches Ok(Err(error)) ==> (step matches ReturnStep::Done { result, .. } && result
            == Ok::<Result<ReturnTaskAcceptance, ReturnDecisionError>, AppError>(
            Err::<ReturnTaskAcceptance, ReturnDecisionError>(error),
        )),
{
}

/// A supervisor's decision closes the loan with its reason, or launches the return locally in the
/// callback directory of the supervisor's own command, if it gave one.
pub proof fn decisions_close_or_launch(
    authority: SupervisorActionAuthority,
    decision: ReturnDecision,
    env: TaskEnv,
    root: &str,
    first: DecideStep,
    resolved: Result<String, AppError>,
    step: DecideStep,
)
    requires
        call_ensures(decide_return, (authority, decision, env, root), first),
        first matches DecideStep::ResolveCodex { lookup } ==> call_ensures(
            AwaitReturnCodex::on_codex,
            (lookup.next, resolved),
            step,
        ),
    ensures
        decision matches ReturnDecision::NoResume { reason } ==> (
        first matches DecideStep::AskClosed { message, next } && message == (
        StoreMsg::RecordNoResumeForAuthority { authority, reason }) && next.resource_id
            == authority.resource_id),
        decision matches ReturnDecision::Launch(launch) ==> {
            &&& first matches DecideStep::ResolveCodex { lookup }
            &&& lookup.path == env.path
            &&& launch.supervisor_spec matches Some(spec) ==> lookup.cwd@ == spec.cwd@
            &&& launch.supervisor_spec is None ==> lookup.cwd@ == root@
            &&& step matches DecideStep::Launch { start }
            &&& start.message matches StoreMsg::AcceptReturnTaskForAuthority {
                authority: by,
                launch: what,
                executor_env,
                origin: ReturnTaskOrigin::Local { callback_codex },
            }
            &&& by == authority
            &&& what == launch
            &&& executor_env == env
            &&& resolved matches Ok(path) ==> callback_codex == (CallbackExecutable::Available {
                path,
            })
            &&& resolved is Err <==> callback_codex is Unavailable
            &&& start.next.task_id == launch.task_id
            &&& start.next.action_id == authority.action_id
        },
{
}

/// A closed loan wakes its resource, and an error of either kind wakes nothing and is kept.
pub proof fn closed_loans_wake_their_resource(
    wait: AwaitNoResume,
    reply: Result<Result<ReturnClosure, ReturnDecisionError>, AppError>,
    decided: Decided,
    launched: Result<Result<ReturnTaskAcceptance, ReturnDecisionError>, AppError>,
    result: Result<Result<ReturnDecisionOutcome, ReturnDecisionError>, AppError>,
)
    requires
        call_ensures(AwaitNoResume::on_closed, (wait, reply), decided),
        call_ensures(decided_launch, (launched,), result),
    ensures
        decided.wake is Some <==> reply matches Ok(Ok(_)),
        decided.wake matches Some(id) ==> id == wait.resource_id,
        reply matches Ok(Ok(closure)) ==> decided.result == Ok::<
            Result<ReturnDecisionOutcome, ReturnDecisionError>,
            AppError,
        >(Ok(ReturnDecisionOutcome::Closed(closure))),
        reply matches Ok(Err(error)) ==> decided.result == Ok::<
            Result<ReturnDecisionOutcome, ReturnDecisionError>,
            AppError,
        >(Err(error)),
        reply matches Err(error) ==> decided.result == Err::<
            Result<ReturnDecisionOutcome, ReturnDecisionError>,
            AppError,
        >(error),
        launched matches Ok(Ok(acceptance)) ==> result == Ok::<
            Result<ReturnDecisionOutcome, ReturnDecisionError>,
            AppError,
        >(Ok(ReturnDecisionOutcome::Launch(acceptance))),
        launched matches Ok(Err(error)) ==> result == Ok::<
            Result<ReturnDecisionOutcome, ReturnDecisionError>,
            AppError,
        >(Err(error)),
        launched matches Err(error) ==> result == Err::<
            Result<ReturnDecisionOutcome, ReturnDecisionError>,
            AppError,
        >(error),
{
}

/// A background task is accepted as it was asked for, on this machine, and its resource hears of
/// it under its request; a remote one as its receipt binds it.
pub proof fn background_launches_start_as_asked(
    machine: MachineId,
    launch: BackgroundLaunch,
    lookup: CodexLookup<AwaitBackgroundCodex>,
    resolved: Result<String, AppError>,
    task: TaskId,
    start: BackgroundStart,
    receipt: RemoteBackgroundLaunchReceipt,
    remote_spec: NormalizedSpec,
    remote_env: TaskEnv,
    remote: BackgroundStart,
    reporter: LaunchReporter,
    report: Option<BackgroundLaunchResult>,
    told: Option<ResourceMsg>,
)
    requires
        call_ensures(launch_background, (machine, launch), lookup),
        call_ensures(AwaitBackgroundCodex::on_codex, (lookup.next, resolved, task), start),
        call_ensures(launch_remote_background, (receipt, remote_spec, remote_env), remote),
        call_ensures(AwaitBackgroundBound::finished, (start.next, reporter, report), told),
    ensures
        lookup.path == launch.env.path,
        lookup.cwd == launch.callback_cwd,
        start.resource_id == launch.resource_id,
        start.started == (ResourceMsg::BackgroundLaunchStarted { request_id: launch.request_id }),
        start.message matches StoreMsg::AcceptBackgroundLaunchForAuthority {
            authority_machine,
            resource_id,
            request_id,
            task_id,
            spec,
            env,
            callback_codex,
        } && authority_machine == machine && resource_id == launch.resource_id && request_id
            == launch.request_id && task_id == task && spec == launch.spec && env == launch.env && (
        resolved matches Ok(path) ==> callback_codex == (CallbackExecutable::Available { path }))
            && (resolved is Err <==> callback_codex is Unavailable),
        remote.resource_id == receipt.binding.assignment.resource_id,
        remote.started == (ResourceMsg::BackgroundLaunchStarted { request_id: receipt.request_id }),
        remote.message == (StoreMsg::AcceptRemoteBackgroundLaunchForAuthority {
            receipt,
            spec: remote_spec,
            env: remote_env,
        }),
        remote.next.request_id == receipt.request_id,
        told is Some <==> reporter.has_actor && report is Some,
        told matches Some(message) ==> message == (ResourceMsg::BackgroundLaunchFinished {
            request_id: launch.request_id,
            result: report->0,
        }),
{
}

/// A background task is spawned exactly where it was inserted, and watched where it runs; it is
/// reported as inserted only after the spawn.
pub proof fn background_tasks_are_spawned_by_their_insertion(
    reply: Result<Result<BackgroundLaunchAcceptance, BackgroundLaunchError>, AppError>,
    step: BackgroundStep,
)
    requires
        call_ensures(bind_background_launch, (reply,), step),
    ensures
        step is Spawn <==> (reply matches Ok(Ok(accepted)) && accepted is Inserted),
        step matches BackgroundStep::Spawn { task, next } ==> reply->Ok_0->Ok_0 == (
        BackgroundLaunchAcceptance::Inserted { task }) && next.acceptance == reply->Ok_0->Ok_0
            && next.inserted == Some(BackgroundLaunchResult::Inserted) && next.uncertain == Some(
            BackgroundLaunchResult::NotInserted,
        ),
        step is Watch <==> (reply matches Ok(Ok(BackgroundLaunchAcceptance::Existing { state, .. }))
            && state == ProcessStatus::Running),
        step matches BackgroundStep::Watch { task, next } ==> reply->Ok_0->Ok_0 == (
        BackgroundLaunchAcceptance::Existing { task, state: ProcessStatus::Running })
            && next.observed == Some(BackgroundLaunchResult::Existing),
        step matches BackgroundStep::Done { report, .. } ==> {
            &&& report == Some(BackgroundLaunchResult::Existing) <==> (reply matches Ok(Ok(accepted))
                && accepted is Existing)
            &&& report == Some(BackgroundLaunchResult::Existing) || report == Some(
                BackgroundLaunchResult::NotInserted,
            )
        },
        step !is Reconcile,
        reply matches Err(error) ==> (step matches BackgroundStep::Done { result, .. } && result
            == Err::<Result<BackgroundLaunchAcceptance, BackgroundLaunchError>, AppError>(error)),
{
}

/// An action sets going what it names, under its own authority: a watcher is prepared by the
/// resource's actor or built from the action, a return is prepared or launched for its origin,
/// and the loan is closed, held or resolved as asked.
pub proof fn actions_do_what_they_name(
    request: ResourceActionRequest,
    env: TaskEnv,
    step: ActionStep,
)
    requires
        call_ensures(resource_action, (request, env), step),
    ensures
        request.operation matches ResourceActionOperation::PrepareReleaseWatcher {
            observed_background_task,
        } ==> (step matches ActionStep::CallActor { resource_id, message, .. } && resource_id
            == request.authority.resource_id && message == (ResourceMsg::PrepareRemoteWatcher {
            authority: request.authority,
            observed_background_task,
        })),
        request.operation matches ResourceActionOperation::LaunchReleaseWatcher {
            observed_background_task,
            task,
        } ==> (step matches ActionStep::BuildWatcher { command, thread, next }
            && command.resource_id == request.authority.resource_id && command.action_id
            == request.authority.action_id && command.state_revision
            == request.authority.expected_state_revision && command.trainer_task_id
            == observed_background_task && command.watcher_task_id == task.task_id && thread
            == request.authority.supervisor.thread && next.authority == request.authority
            && next.observed_background_task == observed_background_task && next.task == task),
        request.operation matches ResourceActionOperation::PrepareReturn { launch } ==> (
        step matches ActionStep::AskPrepared { message, next } && message == (
        StoreMsg::PrepareReturnTaskForAuthority {
            authority: request.authority,
            launch,
            executor_env: env,
        }) && next.request_id == launch.request_id && next.task_id == launch.task_id),
        request.operation matches ResourceActionOperation::LaunchReturn {
            launch,
            normalized_spec_sha256,
        } ==> (step matches ActionStep::LaunchReturn { start, next } && start.message == (
        StoreMsg::AcceptReturnTaskForAuthority {
            authority: request.authority,
            launch,
            executor_env: env,
            origin: ReturnTaskOrigin::Remote { normalized_spec_sha256 },
        }) && start.next.task_id == launch.task_id && start.next.action_id
            == request.authority.action_id && next.receipt.kind is Return && next.receipt.authority
            == request.authority && next.receipt.request_id == launch.request_id
            && next.receipt.task_id == launch.task_id && next.receipt.normalized_spec_sha256
            == normalized_spec_sha256),
        request.operation matches ResourceActionOperation::NoResume { reason } ==> (
        step matches ActionStep::AskClosed { message, next } && message == (
        StoreMsg::RecordNoResumeForAuthority { authority: request.authority, reason })
            && next.resource_id == request.authority.resource_id),
        request.operation matches ResourceActionOperation::HoldReturn { hold_secs } ==> (
        step matches ActionStep::AskHeld { message, .. } && message == (
        StoreMsg::HoldReturnForAuthority { authority: request.authority, hold_secs })),
        request.operation matches ResourceActionOperation::ResolveEndedRestore { task_id, reason }
            ==> (step matches ActionStep::AskClosed { message, next } && message == (
        StoreMsg::ResolveEndedRestoreForAuthority {
            authority: request.authority,
            task_id,
            reason,
        }) && next.resource_id == request.authority.resource_id),
{
}

/// Whether an action's answer is a refusal that a decision's error means, or the error itself.
pub open spec fn answers_refusal(
    result: Result<ResourceActionOutcome, AppError>,
    refusal: Result<ResourceActionRejection, AppError>,
) -> bool {
    &&& refusal matches Ok(reason) ==> (
    result matches Ok(ResourceActionOutcome::Rejected { reason: told }) && told@ == reason@)
    &&& refusal matches Err(error) ==> (result matches Err(told) && told@ == error@)
}

/// Whatever a prepared or launched action came to is its answer: the prepared task, the receipt
/// with its acceptance, the closed loan, the held window, or the refusal. Only a closed loan
/// wakes its resource.
pub proof fn actions_answer_what_came_of_them(
    error: ReturnDecisionError,
    refusal: Result<ResourceActionRejection, AppError>,
    rejected: Result<ResourceActionOutcome, AppError>,
    prepared: AwaitReturnPrepared,
    spec: NormalizedSpec,
    digest: SpecDigest,
    preparing: (ActionStep, ActionStep),
    launched: AwaitReturnLaunched,
    acceptance: ReturnTaskAcceptance,
    launching: (ActionStep, ActionStep),
    closed: AwaitClosed,
    closure: ReturnClosure,
    closing: (ActionStep, ActionStep),
    held: AwaitHeld,
    window: ReturnDecisionWindow,
    holding: (ActionStep, ActionStep),
)
    requires
        call_ensures(return_decision_rejection, (error,), refusal),
        call_ensures(return_rejection, (error,), rejected),
        call_ensures(
            AwaitReturnPrepared::on_prepared,
            (prepared, Ok(Ok((spec, digest)))),
            preparing.0,
        ),
        call_ensures(AwaitReturnPrepared::on_prepared, (prepared, Ok(Err(error))), preparing.1),
        call_ensures(AwaitReturnLaunched::on_launched, (launched, Ok(Ok(acceptance))), launching.0),
        call_ensures(AwaitReturnLaunched::on_launched, (launched, Ok(Err(error))), launching.1),
        call_ensures(AwaitClosed::closed_outcome, (closed, Ok(Ok(closure))), closing.0),
        call_ensures(AwaitClosed::closed_outcome, (closed, Ok(Err(error))), closing.1),
        call_ensures(AwaitHeld::on_held, (held, Ok(Ok(window))), holding.0),
        call_ensures(AwaitHeld::on_held, (held, Ok(Err(error))), holding.1),
    ensures
        answers_refusal(rejected, refusal),
        preparing.0 matches ActionStep::Done { wake, result } && wake is None && (
        result matches Ok(ResourceActionOutcome::Prepared { task }) && task.request_id
            == prepared.request_id && task.task_id == prepared.task_id && task.spec == spec
            && task.normalized_spec_sha256 == digest),
        preparing.1 matches ActionStep::Done { wake, result } && wake is None && answers_refusal(
            result,
            refusal,
        ),
        launching.0 matches ActionStep::Done { wake, result } && wake is None && (acceptance
            is Inserted ==> (result matches Ok(ResourceActionOutcome::Accepted {
            receipt,
            acceptance: told,
        }) && receipt == launched.receipt && told is Inserted)) && (
        acceptance matches ReturnTaskAcceptance::Existing { state, .. } ==> (
        result matches Ok(ResourceActionOutcome::Accepted { receipt, acceptance: told }) && receipt
            == launched.receipt && told == (ActionTaskAcceptance::Existing { state }))) && (
        acceptance is UnsupportedRemoteSupervisor ==> (
        result matches Ok(ResourceActionOutcome::Rejected { reason }) && reason
            is NotCurrentSupervisor)),
        launching.1 matches ActionStep::Done { wake, result } && wake is None && answers_refusal(
            result,
            refusal,
        ),
        closing.0 matches ActionStep::Done { wake, result } && wake == Some(closed.resource_id) && (
        result matches Ok(ResourceActionOutcome::Closed { loan, state_revision }) && loan
            == closure.loan && state_revision == closure.state_revision),
        closing.1 matches ActionStep::Done { wake, result } && wake is None && answers_refusal(
            result,
            refusal,
        ),
        holding.0 matches ActionStep::Done { wake, result } && wake is None && (
        result matches Ok(ResourceActionOutcome::ReturnHeld { window: told }) && told == window),
        holding.1 matches ActionStep::Done { wake, result } && wake is None && answers_refusal(
            result,
            refusal,
        ),
{
}

/// A decision's error is a refusal where the store decided, and is handed on where it may not
/// have: the outcome of a failed store is unknown, and never told as refused.
pub proof fn refusals_tell_their_reason(
    error: ReturnDecisionError,
    refusal: Result<ResourceActionRejection, AppError>,
)
    requires
        call_ensures(return_decision_rejection, (error,), refusal),
    ensures
        error matches ReturnDecisionError::Storage(cause) ==> (refusal matches Err(told) && told@
            == cause@),
        error matches ReturnDecisionError::Encoding(cause) ==> (refusal matches Err(told) && told@
            == cause@),
        error is NotCurrentSupervisor || error is OriginMismatch ==> (refusal matches Ok(reason)
            && reason is NotCurrentSupervisor),
        error is ActionNotPending || error is InvalidReturnNotice ==> (refusal matches Ok(reason)
            && reason is ActionNotPending),
        error matches ReturnDecisionError::StaleRevision { expected, actual } ==> (
        refusal matches Ok(ResourceActionRejection::StaleRevision { expected: told, actual: found })
            && told == expected && found == actual),
        error is SpecMismatch ==> (refusal matches Ok(reason) && reason is SpecMismatch),
        error is ConflictingRetry ==> (refusal matches Ok(reason) && reason is ConflictingRetry),
        error is IdentityConflict ==> (refusal matches Ok(reason) && reason is IdentityConflict),
        error is RestoreNotEnded || error is RestoreReleaseUnproven || error
            is RestoreOwnershipUnproven ==> (refusal matches Ok(reason) && reason
            is RestoreNotResolvable),
        error is Rejected || error is HoldRejected || error is BackgroundTaskMismatch ==> (
        refusal matches Ok(reason) && reason is DecisionRejected),
        error matches ReturnDecisionError::RestoreNotEnded { text } ==> (
        refusal matches Ok(reason) && reason@ == (RejectionView::RestoreNotResolvable {
            reason: text@,
        })),
        error matches ReturnDecisionError::RestoreReleaseUnproven { text } ==> (
        refusal matches Ok(reason) && reason@ == (RejectionView::RestoreNotResolvable {
            reason: text@,
        })),
        error matches ReturnDecisionError::RestoreOwnershipUnproven { text } ==> (
        refusal matches Ok(reason) && reason@ == (RejectionView::RestoreNotResolvable {
            reason: text@,
        })),
        error matches ReturnDecisionError::Rejected { text } ==> (refusal matches Ok(reason)
            && reason@ == (RejectionView::DecisionRejected { reason: text@ })),
        error matches ReturnDecisionError::HoldRejected { text } ==> (refusal matches Ok(reason)
            && reason@ == (RejectionView::DecisionRejected { reason: text@ })),
        error matches ReturnDecisionError::BackgroundTaskMismatch { text } ==> (
        refusal matches Ok(reason) && reason@ == (RejectionView::DecisionRejected {
            reason: text@,
        })),
        error matches ReturnDecisionError::Identity(IdentityError::Storage(cause)) ==> (
        refusal matches Err(told) && told@ == cause@),
        error matches ReturnDecisionError::Identity(kind) ==> (kind !is Storage ==> (
        refusal matches Ok(reason) && reason is IdentityConflict)),
        error matches ReturnDecisionError::Resource(
            ResourceStoreError::Identity(IdentityError::Storage(cause)),
        ) ==> (refusal matches Err(told) && told@ == cause@),
        error matches ReturnDecisionError::Resource(
            ResourceStoreError::Event(EventError::Storage(cause)),
        ) ==> (refusal matches Err(told) && told@ == cause@),
        error matches ReturnDecisionError::Resource(ResourceStoreError::TaskPreparation(cause))
            ==> (refusal is Err <==> cause is Internal),
        error matches ReturnDecisionError::Resource(ResourceStoreError::TaskRow(cause)) ==> (refusal
            is Err <==> cause is Internal),
        error matches ReturnDecisionError::Resource(kind) ==> (refusal matches Ok(reason) ==> reason
            is ActionNotPending),
        error is RevisionExhausted ==> refusal is Err,
        error matches ReturnDecisionError::TaskRecords(cause) ==> (refusal is Err <==> cause
            is Internal),
        error matches ReturnDecisionError::Resource(ResourceStoreError::Storage(cause)) ==> (
        refusal matches Err(told) && told@ == cause@),
{
}

/// A remote supervisor's watcher is accepted for the task, the action and the trainer of its
/// authority, and its resource hears of it under them.
pub proof fn remote_watchers_are_accepted_for_their_action(
    authority: SupervisorActionAuthority,
    observed: TaskId,
    task: ActionTaskIdentity,
    first: ActionStep,
    built: Result<(NormalizedSpec, String), AppError>,
    env: TaskEnv,
    step: ActionStep,
    reporter: LaunchReporter,
    report: Option<ReleaseWatcherLaunchResult>,
    told: Option<ResourceMsg>,
)
    requires
        call_ensures(launch_remote_release_watcher, (authority, observed, task), first),
        first matches ActionStep::BuildWatcher { next, .. } ==> call_ensures(
            AwaitRemoteCommand::on_command,
            (next, built, env),
            step,
        ),
        step matches ActionStep::AskWatcher { next, .. } ==> call_ensures(
            AwaitRemoteAccepted::finished,
            (next, reporter, report),
            told,
        ),
    ensures
        first matches ActionStep::BuildWatcher { command, thread, .. } && command.resource_id
            == authority.resource_id && command.action_id == authority.action_id
            && command.state_revision == authority.expected_state_revision
            && command.trainer_task_id == observed && command.watcher_task_id == task.task_id
            && thread == authority.supervisor.thread,
        step is AskWatcher <==> built is Ok,
        built matches Err(error) ==> (step matches ActionStep::Done { wake, result } && wake is None
            && result == Err::<ResourceActionOutcome, AppError>(error)),
        step matches ActionStep::AskWatcher { started, message, next } ==> {
            &&& started == (ResourceMsg::RemoteWatcherLaunchStarted {
                action_id: authority.action_id,
                watcher_task_id: task.task_id,
            })
            &&& message == (StoreMsg::AcceptRemoteReleaseWatcherForAuthority {
                authority,
                observed_background_task: observed,
                task,
                spec: built->Ok_0.0,
                env,
                executable: built->Ok_0.1,
            })
            &&& next.task_id == task.task_id
            &&& told is Some <==> reporter.has_actor && report is Some
            &&& told matches Some(heard) ==> heard == (ResourceMsg::WatcherLaunchFinished {
                action_id: authority.action_id,
                watcher_task_id: task.task_id,
                result: report->0,
            })
        },
{
}

/// A remote watcher is spawned exactly where it was inserted; a refusal is reported as one, and a
/// failed store as uncertain. What came of it is the action's answer.
pub proof fn remote_watchers_are_spawned_by_their_insertion(
    wait: AwaitRemoteAccepted,
    reply: Result<Result<AcceptedActionTask, ResourceActionError>, AppError>,
    step: RemoteWatcherStep,
    launched: Result<Result<AcceptedActionTask, ResourceActionRejection>, AppError>,
    outcome: Result<ResourceActionOutcome, AppError>,
    actor: AwaitActorPrepared,
    prepared: Result<Result<PreparedActionTask, ResourceActionRejection>, AppError>,
    answered: ActionStep,
)
    requires
        call_ensures(AwaitRemoteAccepted::on_accepted, (wait, reply), step),
        call_ensures(remote_watcher_outcome, (launched,), outcome),
        call_ensures(AwaitActorPrepared::on_prepared, (actor, prepared), answered),
    ensures
        step is Spawn <==> (reply matches Ok(Ok(accepted)) && accepted.acceptance is Inserted),
        step matches RemoteWatcherStep::Spawn { task, next } ==> task == wait.task_id
            && next.inserted == Some(ReleaseWatcherLaunchResult::Inserted) && next.uncertain
            == Some(ReleaseWatcherLaunchResult::Uncertain) && next.acceptance
            == reply->Ok_0->Ok_0,
        step is Watch <==> (reply matches Ok(Ok(accepted)) && accepted.acceptance == (
        ActionTaskAcceptance::Existing { state: ProcessStatus::Running })),
        step matches RemoteWatcherStep::Watch { task, next } ==> task == wait.task_id
            && next.observed == Some(
            ReleaseWatcherLaunchResult::Existing { state: ProcessStatus::Running },
        ),
        step matches RemoteWatcherStep::Done { report, .. } ==> {
            &&& report == Some(ReleaseWatcherLaunchResult::Rejected) <==> (reply matches Ok(
                Err(refused),
            ) && refused is Rejected)
            &&& report == Some(ReleaseWatcherLaunchResult::Uncertain) <==> (reply is Err || (
            reply matches Ok(Err(failed)) && failed is Storage))
        },
        launched matches Err(error) ==> outcome == Err::<ResourceActionOutcome, AppError>(error),
        launched matches Ok(Ok(accepted)) ==> (outcome matches Ok(ResourceActionOutcome::Accepted {
            receipt,
            acceptance,
        }) && receipt == accepted.receipt && acceptance == accepted.acceptance),
        launched matches Ok(Err(reason)) ==> (outcome matches Ok(ResourceActionOutcome::Rejected {
            reason: told,
        }) && told == reason),
        answered matches ActionStep::Done { wake, result } && wake is None && (
        prepared matches Ok(Ok(task)) ==> result == Ok::<ResourceActionOutcome, AppError>(
            ResourceActionOutcome::Prepared { task },
        )) && (prepared matches Ok(Err(reason)) ==> result == Ok::<ResourceActionOutcome, AppError>(
            ResourceActionOutcome::Rejected { reason },
        )) && (prepared matches Err(error) ==> result == Err::<ResourceActionOutcome, AppError>(
            error,
        )),
{
}

} // verus!
