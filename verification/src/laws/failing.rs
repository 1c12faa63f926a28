//! What a failed step leads to: the operation fails with that very error, and nothing more is
//! asked.

use vstd::prelude::*;

use crate::actors::resource::reconcile::{
    AwaitBackground, AwaitQueueAgain, AwaitRelease, AwaitRequests, ReconcileStep,
};
use crate::actors::resource::watcher::{PrepareInput, PrepareSpec, PrepareStep};
use crate::actors::supervisor::launch::{self, AwaitFinal, RemoteLaunchStep};
use crate::actors::supervisor::resource_launch::{
    ActionStep, AwaitClosed, AwaitHeld, AwaitReturnLaunched, AwaitReturnPrepared, AwaitWatcherEnv,
    AwaitWatcherRoute, AwaitWatcherSpec, WatcherLaunchStep,
};
use crate::actors::supervisor::{
    AwaitEndedTask, AwaitReleases, EnsureActor, EnsureStep, TerminalStep,
};
use crate::api::{self, AwaitPresentations, AwaitTasks, DryRunStep, ListStep};
use crate::cancel_delivery::{AwaitDestination, DeliverStep};
use crate::cluster::submit::{self, AwaitExisting, SubmitStep};
use crate::cluster::{AwaitReceipt, CancelStep};
use crate::error::{AppError, ErrorView};
use crate::fleet_api::{AwaitInboxRoute, InboxStep};
use crate::message_receiver::{
    AwaitNoticeBound, AwaitNoticeCommitted, AwaitNoticeDelivery, AwaitNoticeDestination, NoticeStep,
};
use crate::message_sender::{AwaitBegun, AwaitRouteBound, SendStep};
use crate::origin_submit::{self, AwaitPreviewConnected};
use crate::serve::{AwaitExit, AwaitFailedReports, AwaitFailedTask, SpawnStep};

verus! {

/// A list, a preview, a cancellation or an inbox that cannot be read fails with its error.
pub proof fn failed_reads_fail_their_answer(
    error: AppError,
    tasks: AwaitTasks,
    presentations: AwaitPresentations,
    lists: (ListStep, ListStep),
    cwd: api::AwaitPreviewCwd,
    root: &str,
    dry: DryRunStep,
    receipt: AwaitReceipt,
    cancel: CancelStep,
    route: AwaitInboxRoute,
    inbox: InboxStep,
)
    requires
        call_ensures(AwaitTasks::on_tasks, (tasks, Err(error)), lists.0),
        call_ensures(AwaitPresentations::on_presentations, (presentations, Err(error)), lists.1),
        call_ensures(api::AwaitPreviewCwd::on_checked, (cwd, Err(error), root), dry),
        call_ensures(AwaitReceipt::on_received, (receipt, Err(error)), cancel),
        call_ensures(AwaitInboxRoute::on_route, (route, Err(error)), inbox),
    ensures
        lists.0 matches ListStep::Done(Err(told)) && told == error,
        lists.1 matches ListStep::Done(Err(told)) && told == error,
        dry matches DryRunStep::Done(Err(told)) && told == error,
        cancel matches CancelStep::Done(Err(told)) && told == error,
        inbox matches InboxStep::Done(Err(told)) && told == error,
{
}

/// A message or a notice whose record, destination or attempt fails is not sent, and fails with
/// that error.
pub proof fn failed_messages_are_not_sent(
    error: AppError,
    delivery: AwaitNoticeDelivery,
    destination: AwaitNoticeDestination,
    bound: AwaitNoticeBound,
    committed: AwaitNoticeCommitted,
    notices: (NoticeStep, NoticeStep, NoticeStep, NoticeStep),
    begun: AwaitBegun,
    routed: AwaitRouteBound,
    sends: (SendStep, SendStep),
)
    requires
        call_ensures(AwaitNoticeDelivery::on_delivery, (delivery, Err(error)), notices.0),
        call_ensures(AwaitNoticeDestination::on_destination, (destination, Err(error)), notices.1),
        call_ensures(AwaitNoticeBound::on_bound, (bound, Err(error)), notices.2),
        call_ensures(AwaitNoticeCommitted::on_committed, (committed, Err(error)), notices.3),
        call_ensures(AwaitBegun::on_begun, (begun, Err(error)), sends.0),
        call_ensures(AwaitRouteBound::on_bound, (routed, Err(error)), sends.1),
    ensures
        notices.0 matches NoticeStep::Done(Err(told)) && told == error,
        notices.1 matches NoticeStep::Done(Err(told)) && told == error,
        notices.2 matches NoticeStep::Done(Err(told)) && told == error,
        notices.3 matches NoticeStep::Done(Err(told)) && told == error,
        sends.0 matches SendStep::Done(Err(told)) && told == error,
        sends.1 matches SendStep::Done(Err(told)) && told == error,
{
}

/// Work that cannot be prepared, previewed or looked up is not accepted, and fails with that
/// error.
pub proof fn failed_work_is_not_accepted(
    error: AppError,
    existing: AwaitExisting,
    home: Option<&str>,
    submitted: SubmitStep,
    cwd: submit::AwaitPreviewCwd,
    env: crate::domain::TaskEnv,
    root: &str,
    preview: submit::PreviewStep,
    connected: AwaitPreviewConnected,
    remote: origin_submit::PreviewStep,
    prepared: launch::AwaitPrepared,
    last: AwaitFinal,
    launches: (RemoteLaunchStep, RemoteLaunchStep),
    task: AwaitFailedTask,
    reports: AwaitFailedReports,
    spawns: (SpawnStep, SpawnStep),
)
    requires
        call_ensures(AwaitExisting::on_existing, (existing, Err(error), home), submitted),
        call_ensures(submit::AwaitPreviewCwd::on_checked, (cwd, Err(error), env, root), preview),
        call_ensures(AwaitPreviewConnected::on_connected, (connected, Err(error)), remote),
        call_ensures(launch::AwaitPrepared::on_prepared, (prepared, Err(error)), launches.0),
        call_ensures(AwaitFinal::on_identity, (last, Err(error)), launches.1),
        call_ensures(AwaitFailedTask::on_task, (task, Err(error)), spawns.0),
        call_ensures(AwaitFailedReports::on_reports, (reports, Err(error)), spawns.1),
    ensures
        submitted matches SubmitStep::Done(Err(told)) && told == error,
        preview matches submit::PreviewStep::Done(Err(told)) && told == error,
        remote matches origin_submit::PreviewStep::Done(Err(told)) && told == error,
        launches.0 matches RemoteLaunchStep::Done(Err(told)) && told == error,
        launches.1 matches RemoteLaunchStep::Done(Err(told)) && told == error,
        spawns.0 matches SpawnStep::Done(Err(told)) && told == error,
        spawns.1 matches SpawnStep::Done(Err(told)) && told == error,
{
}

/// A watcher, an actor or an ended task that cannot be looked up is not gone on with.
pub proof fn failed_lookups_end_the_supervision(
    error: AppError,
    spec: AwaitWatcherSpec,
    row: AwaitWatcherEnv,
    route: AwaitWatcherRoute,
    watchers: (WatcherLaunchStep, WatcherLaunchStep, WatcherLaunchStep),
    input: PrepareInput,
    built: PrepareSpec,
    prepares: (PrepareStep, PrepareStep),
    actor: EnsureActor,
    ensured: EnsureStep,
    task: AwaitEndedTask,
    releases: AwaitReleases,
    ends: (TerminalStep, TerminalStep),
)
    requires
        call_ensures(AwaitWatcherSpec::on_spec, (spec, Err(error)), watchers.0),
        call_ensures(AwaitWatcherEnv::on_row, (row, Err(error)), watchers.1),
        call_ensures(AwaitWatcherRoute::on_route, (route, Err(error)), watchers.2),
        call_ensures(PrepareInput::on_snapshot, (input, Err(error)), prepares.0),
        call_ensures(PrepareSpec::on_spec, (built, Err(error)), prepares.1),
        call_ensures(EnsureActor::on_snapshots, (actor, Err(error)), ensured),
        call_ensures(AwaitEndedTask::on_task, (task, Err(error)), ends.0),
        call_ensures(AwaitReleases::on_snapshots, (releases, Err(error)), ends.1),
    ensures
        watchers.0 == WatcherLaunchStep::Failed(error),
        watchers.1 == WatcherLaunchStep::Failed(error),
        watchers.2 == WatcherLaunchStep::Failed(error),
        prepares.0 == PrepareStep::Failed(error),
        prepares.1 == PrepareStep::Failed(error),
        ensured == EnsureStep::Failed(error),
        ends.0 == TerminalStep::Failed(error),
        ends.1 == TerminalStep::Failed(error),
{
}

/// An action whose store fails is answered with that error, and wakes no one.
pub proof fn failed_actions_wake_no_one(
    error: AppError,
    prepared: AwaitReturnPrepared,
    launched: AwaitReturnLaunched,
    closed: AwaitClosed,
    held: AwaitHeld,
    steps: (ActionStep, ActionStep, ActionStep, ActionStep),
)
    requires
        call_ensures(AwaitReturnPrepared::on_prepared, (prepared, Err(error)), steps.0),
        call_ensures(AwaitReturnLaunched::on_launched, (launched, Err(error)), steps.1),
        call_ensures(AwaitClosed::closed_outcome, (closed, Err(error)), steps.2),
        call_ensures(AwaitHeld::on_held, (held, Err(error)), steps.3),
    ensures
        steps.0 matches ActionStep::Done { wake: None, result: Err(told) } && told == error,
        steps.1 matches ActionStep::Done { wake: None, result: Err(told) } && told == error,
        steps.2 matches ActionStep::Done { wake: None, result: Err(told) } && told == error,
        steps.3 matches ActionStep::Done { wake: None, result: Err(told) } && told == error,
{
}

/// A pass whose store fails keeps its state and its effects, and fails with that error.
pub proof fn failed_passes_keep_their_state(
    error: AppError,
    release: AwaitRelease,
    requests: AwaitRequests,
    queue: AwaitQueueAgain,
    background: AwaitBackground,
    steps: (ReconcileStep, ReconcileStep, ReconcileStep, ReconcileStep),
)
    requires
        call_ensures(AwaitRelease::on_release, (release, Err(error)), steps.0),
        call_ensures(AwaitRequests::on_requests, (requests, Err(error)), steps.1),
        call_ensures(AwaitQueueAgain::on_queue, (queue, Err(error)), steps.2),
        call_ensures(AwaitBackground::on_background, (background, Err(error)), steps.3),
    ensures
        steps.0 matches ReconcileStep::Failed { state, effects, error: told } && told == error
            && state == release.pass.state && effects == release.pass.effects,
        steps.1 matches ReconcileStep::Failed { state, effects, error: told } && told == error
            && state == requests.pass.state && effects == requests.pass.effects,
        steps.2 matches ReconcileStep::Failed { state, effects, error: told } && told == error
            && state == queue.pass.state && effects == queue.pass.effects,
        steps.3 matches ReconcileStep::Failed { state, effects, error: told } && told == error
            && state == background.pass.state && effects == background.pass.effects,
{
}

/// A remote launch whose identity or insertion fails, and a local exit that cannot be saved, end
/// with that error.
pub proof fn failed_launches_end_with_their_error(
    error: AppError,
    identity: launch::AwaitIdentity,
    inserted: launch::AwaitInserted,
    launches: (RemoteLaunchStep, RemoteLaunchStep),
    exit: AwaitExit,
    spawn: SpawnStep,
)
    requires
        call_ensures(launch::AwaitIdentity::on_identity, (identity, Err(error)), launches.0),
        call_ensures(launch::AwaitInserted::on_inserted, (inserted, Err(error)), launches.1),
        call_ensures(AwaitExit::on_exit, (exit, Err(error)), spawn),
    ensures
        launches.0 matches RemoteLaunchStep::Done(Err(told)) && told == error,
        launches.1 matches RemoteLaunchStep::Done(Err(told)) && told == error,
        spawn matches SpawnStep::Done(Err(told)) && told == error,
{
}

/// A cancellation is not posted to an executor that cannot be reached, or outside a fleet.
pub proof fn unreachable_executors_get_no_cancellation(
    error: AppError,
    wait: AwaitDestination,
    steps: (DeliverStep, DeliverStep),
)
    requires
        call_ensures(AwaitDestination::on_destination, (wait, Err(error)), steps.0),
        call_ensures(AwaitDestination::on_destination, (wait, Ok(None)), steps.1),
    ensures
        steps.0 matches DeliverStep::Done(Err(told)) && told == error,
        steps.1 matches DeliverStep::Done(Err(told)) && (
        told@ matches ErrorView::MachineUnavailable { machine, .. } && machine
            == wait.request.execution_machine),
{
}

} // verus!
