//! Answering this machine's own callers: what is read of a request, how local work is accepted,
//! and what a list, a detail and a log show.

use std::collections::HashMap;
use vstd::prelude::*;

use crate::actors::store::StoreMsg;
use crate::actors::supervisor::messages::SupervisorMsg;
use crate::api;
use crate::api::filter::{first_comma, trim, trimmed_end, trimmed_start, ListQuery, TaskFilter};
use crate::api::views::{
    LogTail, StatusBody, StoredTask, TaskContainerRecord, TaskDetail, TaskPresentation,
    TaskSummary, TerminalCallbackProjection, WorkloadView,
};
use crate::api::{
    AcceptStep, AwaitBinary, AwaitCwd, AwaitDetailPresentation, AwaitDetailTask, AwaitEnv,
    AwaitEnvelope, AwaitEvidence, AwaitInvocation, AwaitLaunched, AwaitPrepared,
    AwaitPresentations, AwaitPreviewCwd, AwaitReports, AwaitSpec, AwaitTasks, DetailStep,
    DryRunStep, Invocation, ListStep, OutputTail, ParseFailure, SpecBodyStep, SubmitEnvelope,
    SubmitResponse,
};
use crate::domain::{CallbackStatus, NormalizedSpec, ProcessStatus, TaskEnv};
use crate::error::{AppError, ErrorView};
use crate::fleet::API_VERSION;
use crate::ids::{RequestId, TaskId};
use crate::text::is_whitespace;
use crate::time::Timestamp;

verus! {

/// An error about a specification.
pub open spec fn refuses_spec<T>(result: Result<T, AppError>) -> bool {
    result matches Err(error) && error@ is InvalidSpec
}

/// A request needs an environment and a specification, and is then what they say, with the
/// caller's own directory. A task for another machine has its caller's request, or else a fresh
/// one; a task for this machine has none, and refuses one.
pub proof fn requests_are_what_their_parts_say(
    wait: AwaitEnvelope,
    envelope: SubmitEnvelope,
    first: SpecBodyStep,
    env: TaskEnv,
    second: SpecBodyStep,
    spec: NormalizedSpec,
    fresh: RequestId,
    step: SpecBodyStep,
)
    requires
        call_ensures(AwaitEnvelope::on_envelope, (wait, Ok(envelope)), first),
        first matches SpecBodyStep::ParseEnv { next, .. } ==> call_ensures(
            AwaitEnv::on_env,
            (next, Ok(env)),
            second,
        ),
        second matches SpecBodyStep::ParseSpec { next, .. } ==> call_ensures(
            AwaitSpec::on_spec,
            (next, Ok(spec), fresh),
            step,
        ),
    ensures
        first is ParseEnv <==> envelope.env is Some,
        envelope.env is None ==> (first matches SpecBodyStep::Done(result) && refuses_spec(result)),
        first matches SpecBodyStep::ParseEnv { value, .. } ==> {
            &&& envelope.env == Some(value)
            &&& second is ParseSpec <==> envelope.spec is Some
            &&& envelope.spec is None ==> (second matches SpecBodyStep::Done(result)
                && refuses_spec(result))
            &&& second matches SpecBodyStep::ParseSpec { value: text, .. } ==> {
                &&& envelope.spec == Some(text)
                &&& step matches SpecBodyStep::Done(result)
                &&& result is Err <==> spec.machine is None && envelope.request_id is Some
                &&& result is Err ==> refuses_spec(result)
                &&& result matches Ok(body) ==> {
                    &&& body.spec == spec
                    &&& body.env == env
                    &&& body.callback_cwd == envelope.callback_cwd
                    &&& body.request is Some <==> spec.machine is Some
                    &&& spec.machine is Some && envelope.request_id is Some ==> body.request
                        == envelope.request_id
                    &&& spec.machine is Some && envelope.request_id is None ==> body.request
                        == Some(fresh)
                }
            }
        },
{
}

/// A part that cannot be read refuses the request; an error about a specification points below
/// it, and any other error is handed on.
pub proof fn unreadable_parts_refuse_the_request(
    envelope: AwaitEnvelope,
    env: AwaitEnv,
    spec: AwaitSpec,
    failure: ParseFailure,
    error: AppError,
    fresh: RequestId,
    steps: (SpecBodyStep, SpecBodyStep, SpecBodyStep),
)
    requires
        call_ensures(AwaitEnvelope::on_envelope, (envelope, Err(failure)), steps.0),
        call_ensures(AwaitEnv::on_env, (env, Err(failure)), steps.1),
        call_ensures(AwaitSpec::on_spec, (spec, Err(error), fresh), steps.2),
    ensures
        steps.0 matches SpecBodyStep::Done(result) && refuses_spec(result),
        steps.1 matches SpecBodyStep::Done(result) && refuses_spec(result),
        steps.2 matches SpecBodyStep::Done(Err(told)) && {
            &&& error@ matches ErrorView::InvalidSpec { pointer, value, message } ==> told@ == (
            ErrorView::InvalidSpec { pointer: "/spec"@ + pointer, value, message })
            &&& error@ !is InvalidSpec ==> told@ == error@
        },
{
}

/// Local work is accepted on this machine alone: its directory is checked, its binary found and
/// its files prepared before it is launched, as a queued task of what was asked.
pub proof fn local_work_is_launched_as_asked(
    spec: NormalizedSpec,
    env: TaskEnv,
    first: AcceptStep,
    second: AcceptStep,
    binary: String,
    id: TaskId,
    now: Timestamp,
    third: AcceptStep,
    fourth: AcceptStep,
    launched: Result<(), AppError>,
    step: AcceptStep,
)
    requires
        call_ensures(api::accept_task, (spec, env), first),
        first matches AcceptStep::CheckCwd { next, .. } ==> call_ensures(
            AwaitCwd::on_checked,
            (next, Ok(())),
            second,
        ),
        second matches AcceptStep::ResolveBinary { next, .. } ==> call_ensures(
            AwaitBinary::on_binary,
            (next, Ok(binary), id, now),
            third,
        ),
        third matches AcceptStep::Prepare { next, .. } ==> call_ensures(
            AwaitPrepared::on_prepared,
            (next, Ok(())),
            fourth,
        ),
        fourth matches AcceptStep::AskLaunch { next, .. } ==> call_ensures(
            AwaitLaunched::on_launched,
            (next, launched),
            step,
        ),
    ensures
        first is CheckCwd <==> spec.machine is None,
        spec.machine is Some ==> (first matches AcceptStep::Done(Err(error)) && error@ is Usage),
        first matches AcceptStep::CheckCwd { cwd, .. } ==> {
            &&& cwd == spec.cwd
            &&& second matches AcceptStep::ResolveBinary { path, cwd: at, .. }
            &&& path == env.path
            &&& at == spec.cwd
            &&& third matches AcceptStep::Prepare { id: prepared, .. }
            &&& prepared == id
            &&& fourth matches AcceptStep::AskLaunch {
                message: SupervisorMsg::Launch { row, placement, spec: run },
                ..
            }
            &&& row.id == id
            &&& row.thread == spec.thread
            &&& row.status == ProcessStatus::Queued
            &&& row.pid is None
            &&& row.attention is Pending
            &&& row.callback_status == CallbackStatus::Pending
            &&& row.timeout == spec.timeout
            &&& row.created_at == now
            &&& placement.cwd == spec.cwd
            &&& placement.env == env
            &&& placement.binary == binary
            &&& run == spec
            &&& launched is Ok ==> step == AcceptStep::Done(
                Ok::<(TaskId, ProcessStatus), AppError>((id, ProcessStatus::Queued)),
            )
            &&& launched matches Err(error) ==> step == AcceptStep::Done(
                Err::<(TaskId, ProcessStatus), AppError>(error),
            )
        },
{
}

/// Work whose directory, binary or files fail is launched nowhere, and fails with that error.
pub proof fn unready_work_is_not_launched(
    cwd: AwaitCwd,
    binary: AwaitBinary,
    prepared: AwaitPrepared,
    error: AppError,
    id: TaskId,
    now: Timestamp,
    steps: (AcceptStep, AcceptStep, AcceptStep),
)
    requires
        call_ensures(AwaitCwd::on_checked, (cwd, Err(error)), steps.0),
        call_ensures(AwaitBinary::on_binary, (binary, Err(error), id, now), steps.1),
        call_ensures(AwaitPrepared::on_prepared, (prepared, Err(error)), steps.2),
    ensures
        steps.0 == AcceptStep::Done(Err::<(TaskId, ProcessStatus), AppError>(error)),
        steps.1 == AcceptStep::Done(Err::<(TaskId, ProcessStatus), AppError>(error)),
        steps.2 == AcceptStep::Done(Err::<(TaskId, ProcessStatus), AppError>(error)),
{
}

/// An accepted task is answered under both of its names, with its status and its request.
pub proof fn accepted_tasks_are_answered_by_identity(
    id: TaskId,
    status: ProcessStatus,
    request: Option<RequestId>,
    answer: SubmitResponse,
)
    requires
        call_ensures(SubmitResponse::new, (id, status, request), answer),
    ensures
        answer.id == id,
        answer.task_id == id,
        answer.status == status,
        answer.request_id == request,
        answer.api_version == API_VERSION,
{
}

/// A preview of local work is built on this machine after its directory was checked, and shows
/// the invocation for the same spec; work for another machine is previewed there.
pub proof fn previews_show_the_invocation(
    spec: NormalizedSpec,
    env: TaskEnv,
    first: DryRunStep,
    here: DryRunStep,
    root: &str,
    second: DryRunStep,
    built: Result<Invocation, AppError>,
    step: DryRunStep,
)
    requires
        call_ensures(api::dry_run, (spec, env), first),
        call_ensures(api::local_dry_run, (spec, env), here),
        here matches DryRunStep::CheckCwd { next, .. } ==> call_ensures(
            AwaitPreviewCwd::on_checked,
            (next, Ok(()), root),
            second,
        ),
        second matches DryRunStep::Build { next, .. } ==> call_ensures(
            AwaitInvocation::on_invocation,
            (next, built),
            step,
        ),
    ensures
        spec.machine is Some ==> first == (DryRunStep::Remote { spec, env }),
        spec.machine is None ==> first == here,
        here matches DryRunStep::CheckCwd { cwd, .. } && cwd == spec.cwd,
        second matches DryRunStep::Build { path, .. } && path == env.path,
        built matches Err(error) ==> step == DryRunStep::Done(
            Err::<api::DryRunResponse, AppError>(error),
        ),
        built matches Ok(invocation) ==> (step matches DryRunStep::Done(Ok(shown)) && shown.spec
            == spec && shown.argv == invocation.argv && shown.stdin == invocation.stdin
            && shown.managed_environment == invocation.managed_environment && shown.execution_cwd
            is None && shown.api_version == API_VERSION),
{
}

/// Whether a summary shows a stored task: everything that the row and its record say, the owners
/// together or not at all, and the callback and the reminder as the presentation has them, or as
/// the row does without one.
pub open spec fn summarizes_task(
    summary: TaskSummary,
    task: StoredTask,
    presentation: Option<TaskPresentation>,
) -> bool {
    &&& summary.id == task.row.id
    &&& summary.name == task.name
    &&& summary.display_name == task.display_name
    &&& summary.status == task.row.status
    &&& summary.workload@ == task.workload@
    &&& summary.thread == task.row.thread
    &&& summary.cwd == task.cwd
    &&& summary.pid == task.row.pid
    &&& summary.exit_reason == task.exit_reason
    &&& summary.cancel_requested_at == task.cancel_requested_at
    &&& summary.created_at == task.row.created_at
    &&& summary.updated_at == task.updated_at
    &&& summary.timeout_secs * 1_000_000_000 <= task.row.timeout.nanos
    &&& task.row.timeout.nanos < (summary.timeout_secs + 1) * 1_000_000_000
    &&& summary.origin_machine is Some <==> summary.execution_machine is Some
    &&& presentation is None ==> {
        &&& summary.project_root is None
        &&& summary.origin_machine is None
        &&& summary.callback == task.row.callback_status
        &&& summary.check_timeout is Sent <==> task.row.attention is Delivered
    }
    &&& presentation matches Some(shown) ==> {
        &&& summary.project_root == shown.project_root
        &&& summary.origin_machine is Some <==> shown.owners is Some
        &&& shown.owners matches Some(owners) ==> summary.origin_machine == Some(
            owners.origin_machine,
        ) && summary.execution_machine == Some(owners.execution_machine)
        &&& summary.check_timeout is Sent <==> shown.attention_delivered
        &&& shown.terminal_callback matches TerminalCallbackProjection::Legacy(status)
            ==> summary.callback == status
        &&& shown.terminal_callback matches TerminalCallbackProjection::OriginInbox(status)
            ==> summary.callback == status
        &&& shown.terminal_callback is NotOwned ==> summary.callback == CallbackStatus::Pending
    }
}

/// A task's summary shows its row and its presentation.
pub proof fn summaries_show_their_task(
    task: StoredTask,
    presentation: Option<&TaskPresentation>,
    summary: TaskSummary,
)
    requires
        call_ensures(TaskSummary::from_row, (&task, presentation), summary),
    ensures
        summarizes_task(
            summary,
            task,
            match presentation {
                Some(shown) => Some(*shown),
                None => None,
            },
        ),
{
    whole_seconds_fit(task.row.timeout.nanos as int);
}

/// Whole seconds are the most that fit.
proof fn whole_seconds_fit(nanos: int)
    requires
        nanos >= 0,
    ensures
        (nanos / 1_000_000_000) * 1_000_000_000 <= nanos,
        nanos < (nanos / 1_000_000_000 + 1) * 1_000_000_000,
{
}

/// The presentation that a task is shown with is its own, if there is one.
pub open spec fn own_presentation(
    presentations: Map<u128, TaskPresentation>,
    id: TaskId,
) -> Option<TaskPresentation> {
    if presentations.contains_key(id.0) {
        Some(presentations[id.0])
    } else {
        None
    }
}

/// A list asks for the tasks that its filter means, then for their presentations, and shows each
/// stored task once, in the store's order, with its own presentation.
pub proof fn lists_show_every_stored_task(
    query: ListQuery,
    filter: Result<TaskFilter, AppError>,
    first: ListStep,
    wait: AwaitTasks,
    tasks: Vec<StoredTask>,
    second: ListStep,
    presentations: HashMap<u128, TaskPresentation>,
    step: ListStep,
)
    requires
        call_ensures(TaskFilter::parse, (query,), filter),
        call_ensures(api::list, (query,), first),
        call_ensures(AwaitTasks::on_tasks, (wait, Ok(tasks)), second),
        second matches ListStep::AskPresentations { next, .. } ==> call_ensures(
            AwaitPresentations::on_presentations,
            (next, Ok(presentations)),
            step,
        ),
    ensures
        first is AskTasks <==> filter is Ok,
        first matches ListStep::AskTasks { message, .. } ==> (
        message matches StoreMsg::ListTasks { statuses, thread } && statuses@
            == filter->Ok_0.statuses@ && thread == filter->Ok_0.thread),
        filter matches Err(error) ==> (first matches ListStep::Done(Err(told)) && told@ == error@),
        second matches ListStep::AskPresentations { message: StoreMsg::TaskPresentations { ids }, ..
        } && ids@.len() == tasks@.len() && forall|at: int|
            0 <= at < tasks@.len() ==> #[trigger] ids@[at] == tasks@[at].row.id,
        step matches ListStep::Done(Ok(list)) && list.api_version == API_VERSION
            && list.tasks@.len() == tasks@.len() && forall|at: int|
            0 <= at < tasks@.len() ==> summarizes_task(
                #[trigger] list.tasks@[at],
                tasks@[at],
                own_presentation(presentations@, tasks@[at].row.id),
            ),
{
    assert forall|at: int| 0 <= at < tasks@.len() implies summarizes_task(
        #[trigger] step->Done_0->Ok_0.tasks@[at],
        tasks@[at],
        own_presentation(presentations@, tasks@[at].row.id),
    ) by {
        whole_seconds_fit(tasks@[at].row.timeout.nanos as int);
    }
}

/// A detail is of the task that was asked for, with its own presentation, its own reports and
/// the evidence that was read; a container's is shown exactly where the task is one.
pub proof fn details_show_the_task_that_was_asked(
    id: TaskId,
    first: DetailStep,
    task: StoredTask,
    second: DetailStep,
    presentations: HashMap<u128, TaskPresentation>,
    third: DetailStep,
    reports: Vec<String>,
    fourth: DetailStep,
    texts: (String, String, Option<String>, String),
    record: Option<&TaskContainerRecord>,
    detail: TaskDetail,
)
    requires
        call_ensures(api::local_detail, (id,), first),
        first matches DetailStep::AskTask { next, .. } ==> call_ensures(
            AwaitDetailTask::on_task,
            (next, Ok(Some(task))),
            second,
        ),
        second matches DetailStep::AskPresentations { next, .. } ==> call_ensures(
            AwaitDetailPresentation::on_presentations,
            (next, Ok(presentations)),
            third,
        ),
        third matches DetailStep::AskReports { next, .. } ==> call_ensures(
            AwaitReports::on_reports,
            (next, Ok(reports)),
            fourth,
        ),
        fourth matches DetailStep::Render { next } ==> call_ensures(
            AwaitEvidence::on_evidence,
            (next, texts.0, texts.1, texts.2, texts.3, record),
            detail,
        ),
    ensures
        first matches DetailStep::AskTask { message, .. } && message == (StoreMsg::GetTask { id }),
        second matches DetailStep::AskPresentations {
            message: StoreMsg::TaskPresentations { ids },
            ..
        } && ids@ == seq![id],
        third matches DetailStep::AskReports { message, .. } && message == (StoreMsg::Reports {
            id,
        }),
        fourth is Render,
        summarizes_task(detail.summary, task, own_presentation(presentations@, id)),
        detail.reports == reports,
        detail.output_log == texts.0,
        detail.evidence == texts.1,
        detail.last_event == texts.2,
        detail.api_version == API_VERSION,
        detail.container is Some <==> task.workload is Container,
        detail.container matches Some(container) ==> {
            &&& container.name == texts.3
            &&& task.workload matches WorkloadView::Container { image, .. }
            &&& container.image == image
            &&& container.exit_evidence == task.container_exit_evidence
            &&& record matches Some(kept) ==> container.container_id == kept.container_id
                && container.started_at == kept.started_at
            &&& record is None ==> container.container_id is None && container.started_at is None
        },
{
    whole_seconds_fit(task.row.timeout.nanos as int);
}

/// A detail of a task that is not there, or whose store fails, fails.
pub proof fn missing_details_fail(
    task: AwaitDetailTask,
    presentation: AwaitDetailPresentation,
    reports: AwaitReports,
    error: AppError,
    steps: (DetailStep, DetailStep, DetailStep, DetailStep),
)
    requires
        call_ensures(AwaitDetailTask::on_task, (task, Ok(None)), steps.0),
        call_ensures(AwaitDetailTask::on_task, (task, Err(error)), steps.1),
        call_ensures(
            AwaitDetailPresentation::on_presentations,
            (presentation, Err(error)),
            steps.2,
        ),
        call_ensures(AwaitReports::on_reports, (reports, Err(error)), steps.3),
    ensures
        steps.0 == DetailStep::Failed(AppError::TaskNotFound { id: task.id }),
        steps.1 == DetailStep::Failed(error),
        steps.2 == DetailStep::Failed(error),
        steps.3 == DetailStep::Failed(error),
{
}

/// A log is of a task that exists: its output as it was read, or nothing before any.
pub proof fn logs_show_the_output(
    id: TaskId,
    exists: bool,
    output: Result<Option<OutputTail>, AppError>,
    tail: Result<LogTail, AppError>,
)
    requires
        call_ensures(api::local_log, (id, exists, output), tail),
    ensures
        tail is Ok <==> exists && output is Ok,
        !exists ==> tail == Err::<LogTail, AppError>(AppError::TaskNotFound { id }),
        exists ==> (output matches Err(error) ==> tail == Err::<LogTail, AppError>(error)),
        tail matches Ok(shown) ==> {
            &&& shown.id == id
            &&& shown.api_version == API_VERSION
            &&& output matches Ok(Some(read)) ==> shown.log == read.text && shown.truncated
                == read.truncated
            &&& output matches Ok(None) ==> shown.log@ == ""@ && !shown.truncated
        },
{
}

/// The status shows what it was told, and content is served only where it has an origin.
pub proof fn statuses_show_the_daemon(
    version: String,
    pid: u32,
    socket: String,
    web: Option<String>,
    in_flight: u64,
    body: StatusBody,
    port: Option<u16>,
    origin: Result<u16, AppError>,
)
    requires
        call_ensures(api::status, (version, pid, socket, web, in_flight), body),
        call_ensures(api::files_origin, (port,), origin),
    ensures
        body.version == version,
        body.pid == pid,
        body.socket == socket,
        body.web == web,
        body.in_flight == in_flight,
        body.api_version == API_VERSION,
        origin is Ok <==> port is Some,
        origin matches Ok(found) ==> port == Some(found),
{
}

/// A comma ends the first part of a text.
proof fn commas_end_the_first_part(left: Seq<char>, right: Seq<char>)
    requires
        !left.contains(','),
    ensures
        first_comma(left + seq![','] + right) == left.len(),
    decreases left.len(),
{
    let text = left + seq![','] + right;
    if left.len() == 0 {
        assert(text[0] == ',');
    } else {
        assert(text[0] == left[0]);
        assert(left.contains(left[0]));
        let rest = left.drop_first();
        assert forall|at: int| 0 <= at < rest.len() implies rest[at] != ',' by {
            assert(left.contains(left[at + 1]));
        }
        commas_end_the_first_part(rest, right);
        assert(text.drop_first() =~= rest + seq![','] + right);
    }
}

/// A filter means the statuses of its parts, one after the other: two texts joined by a comma
/// mean what the first means and then what the second means, and fail where either does. A part
/// alone means the status that it names, or nothing where it is blank.
pub proof fn filters_mean_their_parts(
    left: String,
    right: String,
    both: String,
    left_filter: Result<TaskFilter, AppError>,
    right_filter: Result<TaskFilter, AppError>,
    filter: Result<TaskFilter, AppError>,
    name: &str,
    text: &str,
)
    requires
        !left@.contains(','),
        both@ == left@ + seq![','] + right@,
        text@ == left@,
        call_ensures(trim, (text,), name),
        call_ensures(
            TaskFilter::parse,
            (ListQuery { status: Some(left), thread: None },),
            left_filter,
        ),
        call_ensures(
            TaskFilter::parse,
            (ListQuery { status: Some(right), thread: None },),
            right_filter,
        ),
        call_ensures(
            TaskFilter::parse,
            (ListQuery { status: Some(both), thread: None },),
            filter,
        ),
    ensures
        filter is Ok <==> left_filter is Ok && right_filter is Ok,
        filter matches Ok(found) ==> found.statuses@ == left_filter->Ok_0.statuses@
            + right_filter->Ok_0.statuses@ && found.thread is None,
        filter matches Err(error) ==> error@ is Usage,
        left_filter matches Ok(found) ==> {
            &&& name@.len() == 0 <==> found.statuses@.len() == 0
            &&& found.statuses@.len() <= 1
            &&& found.statuses@.len() == 1 ==> found.statuses@[0].name() == name@
        },
        name@.len() == 0 ==> left_filter is Ok,
        (exists|status: ProcessStatus| #[trigger] status.name() == name@) ==> left_filter is Ok,
{
    commas_end_the_first_part(left@, right@);
    let end = left@.len() as int;
    assert(both@.take(end) =~= left@);
    assert(both@.skip(end + 1) =~= right@);
    no_comma_means_one_part(left@);
}

/// A text without a comma has no part after its first.
proof fn no_comma_means_one_part(text: Seq<char>)
    requires
        !text.contains(','),
    ensures
        first_comma(text) == text.len(),
    decreases text.len(),
{
    if text.len() > 0 {
        assert(text.contains(text[0]));
        let rest = text.drop_first();
        assert forall|at: int| 0 <= at < rest.len() implies rest[at] != ',' by {
            assert(text.contains(text[at + 1]));
        }
        no_comma_means_one_part(rest);
    }
}

/// What is cut from the start of a text is white space, and what is left begins with none.
proof fn starts_are_trimmed(text: Seq<char>) -> (cut: int)
    ensures
        0 <= cut <= text.len(),
        trimmed_start(text) == text.skip(cut),
        forall|at: int| 0 <= at < cut ==> is_whitespace(#[trigger] text[at]),
        cut < text.len() ==> !is_whitespace(text[cut]),
    decreases text.len(),
{
    if text.len() > 0 && is_whitespace(text[0]) {
        let rest = text.drop_first();
        let cut = starts_are_trimmed(rest) + 1;
        assert(text.skip(cut) =~= rest.skip(cut - 1));
        assert forall|at: int| 0 <= at < cut implies is_whitespace(#[trigger] text[at]) by {
            if at > 0 {
                assert(rest[at - 1] == text[at]);
            }
        }
        if cut < text.len() {
            assert(rest[cut - 1] == text[cut]);
        }
        cut
    } else {
        assert(text.skip(0) =~= text);
        0
    }
}

/// What is cut from the end of a text is white space, and what is left ends with none.
proof fn ends_are_trimmed(text: Seq<char>) -> (end: int)
    ensures
        0 <= end <= text.len(),
        trimmed_end(text) == text.take(end),
        forall|at: int| end <= at < text.len() ==> is_whitespace(#[trigger] text[at]),
        end > 0 ==> !is_whitespace(text[end - 1]),
    decreases text.len(),
{
    if text.len() > 0 && is_whitespace(text.last()) {
        let rest = text.drop_last();
        let end = ends_are_trimmed(rest);
        assert(text.take(end) =~= rest.take(end));
        assert forall|at: int| end <= at < text.len() implies is_whitespace(
            #[trigger] text[at],
        ) by {
            if at < text.len() - 1 {
                assert(rest[at] == text[at]);
            }
        }
        if end > 0 {
            assert(rest[end - 1] == text[end - 1]);
        }
        end
    } else {
        assert(text.take(text.len() as int) =~= text);
        text.len() as int
    }
}

/// Whether a part of a text is left of it once the white space at its ends is cut.
pub open spec fn left_after_cutting(text: Seq<char>, part: Seq<char>, start: int, end: int) -> bool {
    &&& 0 <= start <= end <= text.len()
    &&& part == text.subrange(start, end)
    &&& forall|at: int| 0 <= at < start || end <= at < text.len() ==> is_whitespace(
        #[trigger] text[at],
    )
}

/// A trimmed text is the text without the white space at its ends, and nothing else is cut.
pub proof fn only_outer_white_space_is_trimmed(text: &str, rest: &str)
    requires
        call_ensures(trim, (text,), rest),
    ensures
        exists|start: int, end: int| #[trigger] left_after_cutting(text@, rest@, start, end),
        rest@.len() > 0 ==> !is_whitespace(rest@[0]) && !is_whitespace(rest@.last()),
{
    let start = starts_are_trimmed(text@);
    let middle = text@.skip(start);
    let end = ends_are_trimmed(middle);
    assert(rest@ =~= text@.subrange(start, start + end));
    assert forall|at: int| 0 <= at < start || start + end <= at < text@.len() implies is_whitespace(
        #[trigger] text@[at],
    ) by {
        if at >= start + end {
            assert(middle[at - start] == text@[at]);
        }
    }
    assert(left_after_cutting(text@, rest@, start, start + end));
}

/// A filter without a status means every status, and its thread is the one that is named.
pub proof fn filters_name_their_thread(
    thread: Option<String>,
    filter: Result<TaskFilter, AppError>,
)
    requires
        call_ensures(TaskFilter::parse, (ListQuery { status: None, thread },), filter),
    ensures
        thread is None ==> filter is Ok,
        filter matches Ok(found) ==> {
            &&& found.statuses@.len() == 0
            &&& found.thread is Some <==> thread is Some
            &&& found.thread matches Some(id) ==> crate::ids::uuid_parsed(thread->0@) == Some(id.0)
        },
        filter is Err ==> crate::ids::uuid_parsed(thread->0@) is None,
{
}

} // verus!
