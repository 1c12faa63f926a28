//! What people and peers are told: a text names what it is about, and texts tell different things
//! apart.

use vstd::prelude::*;

use crate::actors::callback::{CallbackState, Notice};
use crate::actors::resource::reconcile::ResourceActorState;
use crate::actors::resource::{resource_id_from_actor_name, ReleaseWatcherAttentionReason};
use crate::actors::supervisor::{on_actor_terminated, SupervisionDecision};
use crate::api::{from_request, read_document, SpecBodyStep, SubmitResponse};
use crate::domain::ProcessStatus;
use crate::error::{AppError, ErrorView};
use crate::events::{EventPayload, TaskEvent};
use crate::fleet::API_VERSION;
use crate::ids::{hyphenated, MachineId, RequestId, ResourceId, TaskId};
use crate::inspection::{names_task, Availability, Records};
use crate::json::{json_document, json_string};
use crate::laws::reaching::{begins, ends};
use crate::message::{MessageRequest, MessageSource};
use crate::message_receiver::source_value;
use crate::message_sender::unknown_outcome;
use crate::origin_submit::{submission_shard, SUBMISSION_SHARDS};
use crate::resource::{Loan, Resource};
use crate::time::Timestamp;

verus! {

/// The task that an error names, if its text ends with one.
pub open spec fn named_task(error: ErrorView) -> Option<TaskId> {
    match error {
        ErrorView::TaskNotFound { id } => Some(id),
        ErrorView::TaskNotStarted { task } => Some(task),
        ErrorView::TaskUnavailable { task, .. } => Some(task),
        ErrorView::RouteNotFound { task } => Some(task),
        ErrorView::ClusterTaskConflict { task } => Some(task),
        ErrorView::ClusterLookupIncomplete { task, .. } => Some(task),
        ErrorView::EventContentConflict { task, .. } => Some(task),
        _ => None,
    }
}

/// A text ends with its last part.
proof fn texts_end_with_their_last_part(head: Seq<char>, tail: Seq<char>)
    ensures
        ends(head + tail, tail),
        begins(head + tail, head),
{
    assert((head + tail).skip((head + tail).len() - tail.len()) =~= tail);
    assert((head + tail).take(head.len() as int) =~= head);
}

/// An error's text ends with the task, the machine or the message that it names, and an error
/// that is only a message is that message.
pub proof fn error_texts_name_what_failed(
    error: AppError,
    text: String,
    task: TaskId,
    machine: MachineId,
    ids: (String, String),
)
    requires
        call_ensures(AppError::to_string, (&error,), text),
        call_ensures(TaskId::text, (task,), ids.0),
        call_ensures(MachineId::text, (machine,), ids.1),
    ensures
        named_task(error@) == Some(task) ==> ends(text@, ids.0@),
        error@ is TaskNotFound ==> begins(text@, "task not found: "@),
        error@ is TaskNotStarted ==> begins(text@, "task never started: "@),
        error@ is TaskUnavailable ==> begins(text@, "task is unavailable: "@),
        error@ is RouteNotFound ==> begins(text@, "no origin route for task "@),
        error@ is ClusterTaskConflict ==> begins(text@, "conflicting records for task "@),
        error@ is ClusterLookupIncomplete ==> begins(text@, "incomplete lookup of task "@),
        error@ is EventContentConflict ==> begins(text@, "conflicting event content for task "@),
        error@ matches ErrorView::ClusterProtocolIncompatible { machine: other, .. } ==> (other
            == machine ==> ends(text@, ids.1@)),
        error@ matches ErrorView::MachineIdentityMismatch { expected, .. } ==> (expected == machine
            ==> ends(text@, ids.1@)),
        error@ matches ErrorView::Usage { message } ==> text@ == message,
        error@ matches ErrorView::Internal { message } ==> text@ == message,
        error@ matches ErrorView::MachineUnavailable { message, .. } ==> text@ == message,
        error@ matches ErrorView::RemoteSubmissionUnavailable { message } ==> text@ == message,
        error@ matches ErrorView::SubmissionConflict { message, .. } ==> text@ == message,
        error@ matches ErrorView::SubmissionOutcomeUnknown { message, .. } ==> text@ == message,
        error@ matches ErrorView::MessageInvalid { message } ==> text@ == message,
        error@ matches ErrorView::MessageUnavailable { message } ==> text@ == message,
        error@ matches ErrorView::MessageDeliveryFailed { message, .. } ==> text@ == message,
        error@ matches ErrorView::MessageOutcomeUnknown { message, .. } ==> text@ == message,
        error@ matches ErrorView::FileNotFound { message } ==> text@ == message,
        error@ matches ErrorView::UnsupportedFile { message } ==> text@ == message,
        error@ matches ErrorView::Permission { message } ==> text@ == message,
        error@ matches ErrorView::InvalidSpec { message, .. } ==> ends(text@, message),
        error@ matches ErrorView::SubmissionRejected { reason, .. } ==> ends(text@, reason),
        error@ matches ErrorView::ExecutableMissing { program } ==> ends(text@, program),
        error@ matches ErrorView::MachineNotFound { machine: name } ==> ends(text@, name),
        error@ matches ErrorView::AgentThreadNotFound { selector } ==> ends(text@, selector),
{
    let place = ids.1@;
    match error@ {
        ErrorView::TaskNotFound { id: named } => {
            texts_end_with_their_last_part("task not found: "@, hyphenated(named.0));
        },
        ErrorView::TaskNotStarted { task: named } => {
            texts_end_with_their_last_part("task never started: "@, hyphenated(named.0));
        },
        ErrorView::TaskUnavailable { task: named, .. } => {
            texts_end_with_their_last_part("task is unavailable: "@, hyphenated(named.0));
        },
        ErrorView::RouteNotFound { task: named } => {
            texts_end_with_their_last_part("no origin route for task "@, hyphenated(named.0));
        },
        ErrorView::ClusterTaskConflict { task: named } => {
            texts_end_with_their_last_part("conflicting records for task "@, hyphenated(named.0));
        },
        ErrorView::ClusterLookupIncomplete { task: named, .. } => {
            texts_end_with_their_last_part("incomplete lookup of task "@, hyphenated(named.0));
        },
        ErrorView::EventContentConflict { task: named, .. } => {
            texts_end_with_their_last_part("conflicting event content for task "@, hyphenated(named.0));
        },
        ErrorView::ClusterProtocolIncompatible { .. } => {
            texts_end_with_their_last_part("no shared cluster protocol with machine "@, place);
        },
        ErrorView::MachineIdentityMismatch { .. } => {
            texts_end_with_their_last_part("another machine answered for "@, place);
        },
        ErrorView::InvalidSpec { pointer, message, .. } => {
            texts_end_with_their_last_part(
                "invalid specification at "@ + pointer + ": "@,
                message,
            );
        },
        ErrorView::SubmissionRejected { reason, .. } => {
            texts_end_with_their_last_part("submission rejected: "@, reason);
        },
        ErrorView::ExecutableMissing { program } => {
            texts_end_with_their_last_part("executable not found: "@, program);
        },
        ErrorView::MachineNotFound { machine: name } => {
            texts_end_with_their_last_part("machine not found: "@, name);
        },
        ErrorView::AgentThreadNotFound { selector } => {
            texts_end_with_their_last_part("no agent thread for "@, selector);
        },
        _ => {},
    }
}

/// A body that is no document is refused as a whole, and a document is read as it is; a body that
/// arrived is read as its document.
pub proof fn bodies_are_read_as_their_document(
    parsed: Result<String, String>,
    step: SpecBodyStep,
    body: Result<Vec<u8>, String>,
    first: SpecBodyStep,
)
    requires
        call_ensures(read_document, (parsed,), step),
        call_ensures(from_request, (body,), first),
    ensures
        step is ParseEnvelope <==> parsed is Ok,
        step matches SpecBodyStep::ParseEnvelope { document, next } ==> document@ == parsed->Ok_0@
            && next.document@ == document@,
        parsed is Err ==> (step matches SpecBodyStep::Done(Err(error)) && error@ is InvalidSpec),
        body is Err ==> (first matches SpecBodyStep::Done(Err(error)) && error@ is InvalidSpec),
        body matches Ok(bytes) ==> (first is ParseEnvelope <==> json_document(bytes@) is Ok),
        body matches Ok(bytes) ==> (first matches SpecBodyStep::ParseEnvelope { document, next }
            ==> json_document(bytes@) == Ok::<Seq<char>, Seq<char>>(document@) && next.document@
            == document@),
        first is ParseEnvelope || (first matches SpecBodyStep::Done(Err(error)) && error@
            is InvalidSpec),
{
}

/// People are told of a waiting thread exactly for an event that has a callback, with the
/// thread's title, the task's name and the reason.
pub proof fn notices_tell_who_waits(
    state: CallbackState,
    title: &str,
    event: TaskEvent,
    reason: &str,
    notice: Option<Notice>,
)
    requires
        call_ensures(CallbackState::waiting_notice, (&state, title, &event, reason), notice),
    ensures
        notice is Some <==> event.payload is Callback,
        notice matches Some(told) ==> {
            &&& told.high_priority
            &&& ends(told.title@, title@)
            &&& event.payload matches EventPayload::Callback { display_name, .. }
            &&& begins(told.message@, display_name@)
            &&& ends(told.message@, reason@ + ". Open the thread to receive it."@)
        },
{
    match (event.payload, notice) {
        (EventPayload::Callback { kind, display_name, .. }, Some(told)) => {
            texts_end_with_their_last_part("Thread needs you: "@, title@);
            let middle = display_name@ + " ("@ + kind@ + (") is waiting on "@ + state.machine()
                + ": "@);
            let end = reason@ + ". Open the thread to receive it."@;
            texts_end_with_their_last_part(middle, end);
            assert(told.message@ =~= display_name@ + (" ("@ + kind@ + (") is waiting on "@
                + state.machine() + ": "@) + end));
            texts_end_with_their_last_part(
                display_name@,
                " ("@ + kind@ + (") is waiting on "@ + state.machine() + ": "@) + end,
            );
        },
        _ => {},
    }
}

/// A new actor of a resource knows its resource and its loan, and has asked for nothing.
pub proof fn new_resource_actors_have_asked_for_nothing(
    authority: MachineId,
    resource: Resource,
    loan: Option<Loan>,
    state: ResourceActorState,
)
    requires
        call_ensures(ResourceActorState::new, (authority, resource, loan), state),
    ensures
        state.authority_machine == authority,
        state.resource == resource,
        state.loan == loan,
        state.reconcile_outcome is None,
        state.activation_attempt is None,
        state.watcher_launch is None,
        state.release_watcher is None,
        state.restore_launch is None,
        state.background_launch is None,
        state.pending_background_task is None,
        state.return_deadline_wake is None,
{
}

/// A resource actor that ended stops the daemon, and the reason that it gave is told last.
pub proof fn ended_resource_actors_tell_why(
    name: String,
    reason: String,
    resource: Option<ResourceId>,
    decision: SupervisionDecision,
    silent: SupervisionDecision,
)
    requires
        call_ensures(resource_id_from_actor_name, (Some(name),), resource),
        call_ensures(on_actor_terminated, (Some(name), Some(reason)), decision),
        call_ensures(on_actor_terminated, (Some(name), None), silent),
    ensures
        decision is StopTerminated <==> resource is Some,
        silent is StopTerminated <==> resource is Some,
        decision matches SupervisionDecision::StopTerminated { error } ==> (
        error@ matches ErrorView::Internal { message } && ends(message, reason@)),
        silent matches SupervisionDecision::StopTerminated { error } ==> (
        error@ matches ErrorView::Internal { message } && ends(
            message,
            "without an exit reason"@,
        )),
{
    match resource {
        Some(id) => {
            let head = "resource actor "@ + hyphenated(id.0) + " terminated unexpectedly: "@;
            texts_end_with_their_last_part(head, reason@);
            texts_end_with_their_last_part(head, "without an exit reason"@);
        },
        None => {},
    }
}

/// A reason's text begins with its name.
pub proof fn reasons_are_told_by_name(reason: ReleaseWatcherAttentionReason, text: String)
    requires
        call_ensures(ReleaseWatcherAttentionReason::text, (reason,), text),
    ensures
        reason is RemoteSupervisorUnsupported <==> begins(text@, "RemoteSupervisorUnsupported"@),
        reason is TrainerAssociationMissing <==> begins(text@, "TrainerAssociationMissing"@),
        reason is ExecutableUnavailable <==> begins(text@, "ExecutableUnavailable"@),
        reason is BindingRejected <==> begins(text@, "BindingRejected"@),
        reason is BaselineUnavailable <==> begins(text@, "BaselineUnavailable"@),
        reason is LaunchRejected <==> begins(text@, "LaunchRejected"@),
        reason is LaunchUncertain <==> begins(text@, "LaunchUncertain"@),
        reason is WatcherTaskEnded <==> begins(text@, "WatcherTaskEnded"@),
{
    reveal_strlit("RemoteSupervisorUnsupported { supervisor_machine: MachineId(");
    reveal_strlit("TrainerAssociationMissing { task_id: TaskId(");
    reveal_strlit("LaunchRejected { watcher_task_id: TaskId(");
    reveal_strlit("LaunchUncertain { watcher_task_id: TaskId(");
    reveal_strlit("WatcherTaskEnded { watcher_task_id: TaskId(");
    reveal_strlit("RemoteSupervisorUnsupported");
    reveal_strlit("TrainerAssociationMissing");
    reveal_strlit("ExecutableUnavailable");
    reveal_strlit("BindingRejected");
    reveal_strlit("BaselineUnavailable");
    reveal_strlit("LaunchRejected");
    reveal_strlit("LaunchUncertain");
    reveal_strlit("WatcherTaskEnded");
    let own = match reason {
        ReleaseWatcherAttentionReason::RemoteSupervisorUnsupported { .. } =>
            "RemoteSupervisorUnsupported"@,
        ReleaseWatcherAttentionReason::TrainerAssociationMissing { .. } =>
            "TrainerAssociationMissing"@,
        ReleaseWatcherAttentionReason::ExecutableUnavailable => "ExecutableUnavailable"@,
        ReleaseWatcherAttentionReason::BindingRejected => "BindingRejected"@,
        ReleaseWatcherAttentionReason::BaselineUnavailable => "BaselineUnavailable"@,
        ReleaseWatcherAttentionReason::LaunchRejected { .. } => "LaunchRejected"@,
        ReleaseWatcherAttentionReason::LaunchUncertain { .. } => "LaunchUncertain"@,
        ReleaseWatcherAttentionReason::WatcherTaskEnded { .. } => "WatcherTaskEnded"@,
    };
    assert(text@.take(own.len() as int) =~= own);
    assert(forall|head: Seq<char>, at: int|
        begins(text@, head) && 0 <= at < head.len() ==> #[trigger] head[at] == text@[at]) by {
        assert forall|head: Seq<char>, at: int|
            begins(text@, head) && 0 <= at < head.len() implies #[trigger] head[at]
            == text@[at] by {
            assert(text@.take(head.len() as int)[at] == text@[at]);
        }
    }
    assert(text@[0] == own[0]);
    assert(text@[1] == own[1]);
    assert(text@[6] == own[6]);
    assert(text@[7] == own[7]);
    assert("RemoteSupervisorUnsupported"@[0] == 'R');
    assert("TrainerAssociationMissing"@[0] == 'T');
    assert("ExecutableUnavailable"@[0] == 'E');
    assert("BindingRejected"@[0] == 'B' && "BindingRejected"@[1] == 'i');
    assert("BaselineUnavailable"@[0] == 'B' && "BaselineUnavailable"@[1] == 'a');
    assert("LaunchRejected"@[0] == 'L' && "LaunchRejected"@[6] == 'R');
    assert("LaunchUncertain"@[0] == 'L' && "LaunchUncertain"@[6] == 'U');
    assert("WatcherTaskEnded"@[0] == 'W');
}

/// The text of a watcher that ended tells the state that it ended in.
pub proof fn ended_watchers_tell_their_state(
    watcher_task_id: TaskId,
    state: ProcessStatus,
    text: String,
)
    requires
        call_ensures(
            ReleaseWatcherAttentionReason::text,
            (ReleaseWatcherAttentionReason::WatcherTaskEnded { watcher_task_id, state },),
            text,
        ),
    ensures
        state is Queued ==> ends(text@, "), state: Queued }"@),
        state is Running ==> ends(text@, "), state: Running }"@),
        state is Succeeded ==> ends(text@, "), state: Succeeded }"@),
        state is Failed ==> ends(text@, "), state: Failed }"@),
        state is Cancelled ==> ends(text@, "), state: Cancelled }"@),
        state is Lost ==> ends(text@, "), state: Lost }"@),
{
    reveal_strlit("), state: ");
    reveal_strlit(" }");
    reveal_strlit("Queued");
    reveal_strlit("), state: Queued }");
    reveal_strlit("Running");
    reveal_strlit("), state: Running }");
    reveal_strlit("Succeeded");
    reveal_strlit("), state: Succeeded }");
    reveal_strlit("Failed");
    reveal_strlit("), state: Failed }");
    reveal_strlit("Cancelled");
    reveal_strlit("), state: Cancelled }");
    reveal_strlit("Lost");
    reveal_strlit("), state: Lost }");
    match state {
        ProcessStatus::Queued => {
            assert(text@.skip(text@.len() - "), state: Queued }"@.len()) =~= "), state: Queued }"@);
        },
        ProcessStatus::Running => {
            assert(text@.skip(text@.len() - "), state: Running }"@.len()) =~= "), state: Running }"@);
        },
        ProcessStatus::Succeeded => {
            assert(text@.skip(text@.len() - "), state: Succeeded }"@.len()) =~= "), state: Succeeded }"@);
        },
        ProcessStatus::Failed => {
            assert(text@.skip(text@.len() - "), state: Failed }"@.len()) =~= "), state: Failed }"@);
        },
        ProcessStatus::Cancelled => {
            assert(text@.skip(text@.len() - "), state: Cancelled }"@.len()) =~= "), state: Cancelled }"@);
        },
        ProcessStatus::Lost => {
            assert(text@.skip(text@.len() - "), state: Lost }"@.len()) =~= "), state: Lost }"@);
        },
    }
}

/// What an inspection could see is told by a name of its own.
pub proof fn availabilities_are_told_apart(
    left: Availability,
    right: Availability,
    names: (&'static str, &'static str),
)
    requires
        call_ensures(Availability::as_str, (left,), names.0),
        call_ensures(Availability::as_str, (right,), names.1),
    ensures
        names.0@ == names.1@ <==> left == right,
        left is Available ==> names.0@ == "available"@,
        left is Rejected ==> names.0@ == "rejected"@,
{
    reveal_strlit("available");
    reveal_strlit("rejected");
    reveal_strlit("executor_unavailable");
    reveal_strlit("detail_unavailable");
    assert("available"@.len() == 9);
    assert("rejected"@.len() == 8);
    assert("executor_unavailable"@.len() == 20);
    assert("detail_unavailable"@.len() == 18);
}

/// A sender's text begins with its kind.
pub proof fn senders_are_told_by_kind(source: MessageSource, json: String)
    requires
        call_ensures(source_value, (source,), json),
    ensures
        source is Thread ==> begins(json@, "{\"kind\":\"thread\",\"machine\":"@),
        source is Task ==> begins(json@, "{\"kind\":\"task\",\"machine\":"@),
        source is ResourceNotice ==> begins(json@, "{\"kind\":\"resource_notice\",\"machine\":"@),
        ends(json@, "}"@),
{
    let head = match source {
        MessageSource::Thread { .. } => "{\"kind\":\"thread\",\"machine\":"@,
        MessageSource::Task { .. } => "{\"kind\":\"task\",\"machine\":"@,
        MessageSource::ResourceNotice { .. } => "{\"kind\":\"resource_notice\",\"machine\":"@,
    };
    assert(json@.take(head.len() as int) =~= head);
    assert(json@.skip(json@.len() - "}"@.len()) =~= "}"@);
}

/// An answer to a submission begins with its version, names its request where it has one and else
/// its task last, and ends with its status.
pub proof fn submissions_are_answered_with_their_status(
    answer: SubmitResponse,
    text: String,
    task: String,
    request: String,
)
    requires
        call_ensures(SubmitResponse::to_json, (&answer,), text),
        call_ensures(TaskId::text, (answer.task_id,), task),
        answer.request_id matches Some(id) ==> call_ensures(RequestId::text, (id,), request),
    ensures
        begins(text@, "{\"api_version\":"@),
        answer.request_id is Some ==> ends(
            text@,
            ",\"request_id\":"@ + json_string(request@) + ",\"status\":"@ + json_string(
                answer.status.name(),
            ) + "}"@,
        ),
        answer.request_id is None ==> ends(
            text@,
            ",\"task_id\":"@ + json_string(task@) + ",\"status\":"@ + json_string(
                answer.status.name(),
            ) + "}"@,
        ),
{
    reveal_strlit("");
    let tail = if answer.request_id is Some {
        ",\"request_id\":"@ + json_string(request@) + ",\"status\":"@ + json_string(
            answer.status.name(),
        ) + "}"@
    } else {
        ",\"task_id\":"@ + json_string(task@) + ",\"status\":"@ + json_string(
            answer.status.name(),
        ) + "}"@
    };
    assert(text@.take("{\"api_version\":"@.len() as int) =~= "{\"api_version\":"@);
    assert(text@.skip(text@.len() - tail.len()) =~= tail);
}

/// The machines that are still to be read are those that a route leads to and that were not read.
pub proof fn targets_are_unread_executors(
    records: Records,
    seen: Vec<MachineId>,
    targets: Vec<MachineId>,
    at: int,
    machine: MachineId,
)
    requires
        call_ensures(Records::targets, (&records, &seen), targets),
    ensures
        targets@.contains(machine) ==> !seen@.contains(machine),
        0 <= at < records.routes@.len() && !seen@.contains(
            records.routes@[at].1.execution_machine,
        ) ==> targets@.contains(records.routes@[at].1.execution_machine),
        targets@.contains(machine) ==> exists|place: int|
            0 <= place < records.routes@.len() && (
            #[trigger] records.routes@[place]).1.execution_machine == machine,
        targets@.no_duplicates(),
{
    if 0 <= at < records.routes@.len() {
        assert(targets@.contains(records.routes@[at].1.execution_machine)
            <==> crate::inspection::is_target(
            records,
            seen@,
            records.routes@[at].1.execution_machine,
        ));
    }
    assert(targets@.contains(machine) <==> crate::inspection::is_target(records, seen@, machine));
    assert forall|left: int, right: int|
        0 <= left < targets@.len() && 0 <= right < targets@.len() && left
            != right implies targets@[left] != targets@[right] by {
        if left < right {
            assert(targets@[left].0 > targets@[right].0);
        } else {
            assert(targets@[right].0 > targets@[left].0);
        }
    }
}

/// A body is about a task where it names the task and is of the current version.
pub proof fn bodies_are_about_the_task_they_name(
    named: Option<String>,
    version: Option<u64>,
    id: TaskId,
    text: String,
    names: bool,
)
    requires
        call_ensures(names_task, (&named, version, id), names),
        call_ensures(TaskId::text, (id,), text),
    ensures
        names <==> named is Some && named->0@ == text@ && version == Some(API_VERSION as u64),
{
}

/// An instant is its seconds and the rest, which is less than one; an unknown outcome names its
/// message and its machine; and a request always falls into the same shard.
pub proof fn instants_shards_and_outcomes_are_kept(
    secs: i64,
    rest: u32,
    at: Option<Timestamp>,
    nanos: i128,
    hash: u64,
    shard: u64,
    request: MessageRequest,
    machine: MachineId,
    message: String,
    error: AppError,
)
    requires
        call_ensures(Timestamp::new, (secs, rest), at),
        at matches Some(instant) ==> call_ensures(Timestamp::nanos_since_epoch, (instant,), nanos),
        call_ensures(submission_shard, (hash,), shard),
        call_ensures(unknown_outcome, (&request, machine, message), error),
    ensures
        at is Some <==> rest < 1_000_000_000,
        at is Some ==> nanos == secs * 1_000_000_000 + rest,
        shard < SUBMISSION_SHARDS,
        (hash - shard) % (SUBMISSION_SHARDS as int) == 0,
        error == (AppError::MessageOutcomeUnknown { id: request.message_id, machine, message }),
{
}

} // verus!
