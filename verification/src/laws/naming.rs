//! How values are written down and told apart: identities, statuses, numbers, paths and pointers
//! are written so that they can be read back, and two values are the same only where what they
//! hold is the same.

use vstd::prelude::*;

use crate::api::{
    agent_feed_placeholder, escaped, invalid_at, json_pointer, missing_field, pointer_text, prefix,
    ParseFailure, PathSegment,
};
use crate::domain::{
    new_queued_task, prompt_files, NormalizedSpec, NormalizedWorkload, ProcessStatus, PromptFiles,
    SpecDigest, TaskRow,
};
use crate::error::{AppError, ErrorView};
use crate::ids::{MachineId, MessageId, NilIdentity, RequestId, ResourceId, TaskId, ThreadId};
use crate::json::{check_body_version, check_version_member, json_number_member, VersionRefusal};
use crate::message::{MessageReceipt, MessageRequest, MessageSource, Recipient};
use crate::message_receiver::sessions::{is_rollout, session_directory};
use crate::path::{absolute, contains_segment, is_absolute, join};
use crate::submission::{
    BoundRoutePhase, CallbackExecutable, OriginRoute, ResourceRoutePhase, ResourceRouteProof,
    SavedSpec, SubmissionState,
};
use crate::text::{decimal, decimal_digits, strip_prefix};
use crate::time::{Span, Tick, Timestamp};

verus! {

/// An identity is read back from its text, whatever it names.
pub proof fn identities_are_read_back(
    task: TaskId,
    machine: MachineId,
    thread: ThreadId,
    texts: (String, String, String),
    slices: (&str, &str, &str),
    read: (Option<TaskId>, Option<MachineId>, Option<ThreadId>),
)
    requires
        call_ensures(TaskId::text, (task,), texts.0),
        call_ensures(MachineId::text, (machine,), texts.1),
        call_ensures(ThreadId::text, (thread,), texts.2),
        slices.0@ == texts.0@,
        slices.1@ == texts.1@,
        slices.2@ == texts.2@,
        call_ensures(TaskId::parse, (slices.0,), read.0),
        call_ensures(MachineId::parse, (slices.1,), read.1),
        call_ensures(ThreadId::parse, (slices.2,), read.2),
    ensures
        read.0 == Some(task),
        read.1 == Some(machine),
        read.2 == Some(thread),
{
}

/// Two identities with one text are one identity.
pub proof fn texts_tell_identities_apart(
    left: RequestId,
    right: RequestId,
    resources: (ResourceId, ResourceId),
    texts: (String, String, String, String),
)
    requires
        call_ensures(RequestId::text, (left,), texts.0),
        call_ensures(RequestId::text, (right,), texts.1),
        call_ensures(ResourceId::text, (resources.0,), texts.2),
        call_ensures(ResourceId::text, (resources.1,), texts.3),
    ensures
        texts.0@ == texts.1@ <==> left == right,
        texts.2@ == texts.3@ <==> resources.0 == resources.1,
{
}

/// Every identity of a resource or a message but the empty one is kept as it is.
pub proof fn only_empty_identities_are_refused(
    uuid: u128,
    resource: Result<ResourceId, NilIdentity>,
    message: Result<MessageId, NilIdentity>,
    thread: ThreadId,
    nil: bool,
)
    requires
        call_ensures(ResourceId::from_uuid, (uuid,), resource),
        call_ensures(MessageId::from_uuid, (uuid,), message),
        call_ensures(ThreadId::is_nil, (thread,), nil),
    ensures
        resource is Err <==> uuid == 0,
        message is Err <==> uuid == 0,
        resource matches Ok(id) ==> id.0 == uuid,
        message matches Ok(id) ==> id.0 == uuid,
        nil <==> thread.0 == 0,
{
}

/// A status is read back from its name, and a name that is read is that status's own. Work has
/// ended in every status but the two before its end.
pub proof fn statuses_are_read_back(
    status: ProcessStatus,
    name: &'static str,
    stored: &str,
    read: Option<ProcessStatus>,
    ended: bool,
)
    requires
        call_ensures(ProcessStatus::as_str, (status,), name),
        call_ensures(ProcessStatus::from_storage, (stored,), read),
        call_ensures(ProcessStatus::is_terminal, (status,), ended),
    ensures
        stored@ == name@ <==> read == Some(status),
        status is Queued ==> name@ == "queued"@,
        status is Running ==> name@ == "running"@,
        status is Succeeded ==> name@ == "succeeded"@,
        status is Failed ==> name@ == "failed"@,
        status is Cancelled ==> name@ == "cancelled"@,
        status is Lost ==> name@ == "lost"@,
        ended <==> status is Succeeded || status is Failed || status is Cancelled || status is Lost,
{
    if read is Some {
        crate::domain::status_names_are_distinct(read->0, status);
    }
}

/// The number that some digits stand for.
pub open spec fn value_of(digits: Seq<char>) -> nat
    decreases digits.len(),
{
    if digits.len() == 0 {
        0
    } else {
        (value_of(digits.drop_last()) * 10 + (digits.last() as int - 48)) as nat
    }
}

/// Digits stand for the number that was written, and begin with no needless zero.
proof fn digits_stand_for_their_number(value: nat)
    ensures
        value_of(decimal_digits(value)) == value,
        decimal_digits(value).len() > 0,
        forall|at: int|
            0 <= at < decimal_digits(value).len() ==> '0' <= #[trigger] decimal_digits(value)[at]
                <= '9',
        decimal_digits(value).len() > 1 ==> decimal_digits(value)[0] != '0',
        value > 0 ==> decimal_digits(value)[0] != '0',
    decreases value,
{
    let digits = decimal_digits(value);
    if value < 10 {
        assert(digits.drop_last() =~= Seq::<char>::empty());
        assert(value_of(digits.drop_last()) == 0);
    } else {
        digits_stand_for_their_number(value / 10);
        let head = decimal_digits(value / 10);
        assert(digits.drop_last() =~= head);
        assert(digits[0] == head[0]);
        assert(digits.last() as int == 48 + value % 10);
    }
}

/// A number is written in digits that stand for it, without a needless zero.
pub proof fn numbers_are_read_back(value: u64, text: String)
    requires
        call_ensures(decimal, (value,), text),
    ensures
        value_of(text@) == value,
        forall|at: int| 0 <= at < text@.len() ==> '0' <= #[trigger] text@[at] <= '9',
        text@.len() > 0,
        text@.len() > 1 ==> text@[0] != '0',
{
    digits_stand_for_their_number(value as nat);
}

/// What stands behind a prefix is the rest, and only where the text begins with it.
pub proof fn prefixes_leave_the_rest(text: &str, start: &str, rest: Option<&str>, tail: Seq<char>)
    requires
        call_ensures(strip_prefix, (text, start), rest),
    ensures
        rest matches Some(found) ==> text@ == start@ + found@,
        text@ == start@ + tail ==> (rest matches Some(found) && found@ == tail),
{
    match rest {
        Some(found) => {
            let len = start@.len() as int;
            assert(text@ =~= text@.take(len) + text@.skip(len));
        },
        None => {},
    }
    if text@ == start@ + tail {
        let len = start@.len() as int;
        assert(text@.take(len) =~= start@);
        assert(text@.skip(len) =~= tail);
    }
}

/// A path below a directory is that directory, one slash and the path; an absolute one stays.
pub proof fn joined_paths_stay_below_their_base(
    base: &str,
    relative: &str,
    path: String,
    from_root: bool,
)
    requires
        call_ensures(join, (base, relative), path),
        call_ensures(is_absolute, (relative,), from_root),
    ensures
        from_root <==> (relative@.len() > 0 && relative@[0] == '/'),
        from_root ==> path@ == relative@,
        !from_root ==> {
            let gap = path@.len() - base@.len() - relative@.len();
            &&& path@.take(base@.len() as int) == base@
            &&& path@.skip(path@.len() - relative@.len()) == relative@
            &&& 0 <= gap <= 1
            &&& gap == 1 ==> path@[base@.len() as int] == '/' && base@.last() != '/'
            &&& base@.len() > 0 && gap == 0 ==> base@.last() == '/'
        },
{
    reveal_strlit("/");
    if !from_root {
        assert(path@.take(base@.len() as int) =~= base@);
        assert(path@.skip(path@.len() - relative@.len()) =~= relative@);
    }
}

/// A path holds a part exactly where the part stands in it alone, between slashes or its ends.
pub proof fn segments_stand_alone(
    before: Seq<char>,
    after: Seq<char>,
    path: &str,
    segment: &str,
    found: bool,
)
    requires
        call_ensures(contains_segment, (path, segment), found),
        path@ == before + segment@ + after,
        before.len() == 0 || before.last() == '/',
        after.len() == 0 || after[0] == '/',
    ensures
        found,
{
    let start = before.len() as int;
    assert(path@.subrange(start, start + segment@.len()) =~= segment@);
    assert(crate::path::segment_at(path@, segment@, start));
}

/// An escaped key holds no slash.
proof fn escaped_keys_hold_no_slash(key: Seq<char>)
    ensures
        !escaped(key).contains('/'),
    decreases key.len(),
{
    reveal_strlit("~0");
    reveal_strlit("~1");
    if key.len() > 0 {
        escaped_keys_hold_no_slash(key.drop_last());
        let text = escaped(key);
        let head = escaped(key.drop_last());
        assert forall|at: int| 0 <= at < text.len() implies text[at] != '/' by {
            if at < head.len() {
                assert(text[at] == head[at]);
                assert(head.contains(head[at]));
            }
        }
    }
}

/// Escaped keys are told apart: one text comes of one key only.
proof fn escaped_keys_differ(left: Seq<char>, right: Seq<char>)
    requires
        escaped(left) == escaped(right),
    ensures
        left == right,
    decreases left.len(),
{
    reveal_strlit("~0");
    reveal_strlit("~1");
    if left.len() == 0 {
        if right.len() > 0 {
            assert(escaped(right).len() > 0);
        }
        assert(left =~= right);
    } else if right.len() == 0 {
        assert(escaped(left).len() > 0);
    } else {
        escaped_ends_alike(left, right);
        let cut = if left.last() == '~' || left.last() == '/' {
            2int
        } else {
            1int
        };
        let text = escaped(left);
        assert(escaped(left.drop_last()) =~= text.take(text.len() - cut));
        assert(escaped(right.drop_last()) =~= text.take(text.len() - cut));
        escaped_keys_differ(left.drop_last(), right.drop_last());
        assert(left =~= left.drop_last().push(left.last()));
        assert(right =~= right.drop_last().push(right.last()));
    }
}

/// An escaped key ends with no tilde.
proof fn escaped_keys_end_plainly(key: Seq<char>)
    ensures
        escaped(key).len() > 0 ==> escaped(key).last() != '~',
{
    reveal_strlit("~0");
    reveal_strlit("~1");
}

/// Two keys with one escaped text end with the same character.
proof fn escaped_ends_alike(left: Seq<char>, right: Seq<char>)
    requires
        left.len() > 0,
        right.len() > 0,
        escaped(left) == escaped(right),
    ensures
        left.last() == right.last(),
{
    reveal_strlit("~0");
    reveal_strlit("~1");
    escaped_keys_end_plainly(left.drop_last());
    escaped_keys_end_plainly(right.drop_last());
    let text = escaped(left);
    let end = text.len() - 1;
    let first = escaped(left.drop_last());
    let second = escaped(right.drop_last());
    if left.last() == '~' || left.last() == '/' {
        assert(text[end - 1] == '~');
        if !(right.last() == '~' || right.last() == '/') {
            assert(second =~= text.take(end));
            assert(second.last() == '~');
        }
        assert(text[end] == (if left.last() == '~' { '0' } else { '1' }));
        assert(escaped(right)[end] == (if right.last() == '~' { '0' } else { '1' }));
    } else if right.last() == '~' || right.last() == '/' {
        assert(text[end - 1] == '~');
        assert(first =~= text.take(end));
        assert(first.last() == '~');
    } else {
        assert(text[end] == left.last());
        assert(escaped(right)[end] == right.last());
    }
}

/// A pointer names each step behind a slash of its own: one step more adds one slash and the
/// step, which holds none, and an index is the number itself.
pub proof fn pointers_name_every_step(
    shorter: Vec<PathSegment>,
    longer: Vec<PathSegment>,
    step: PathSegment,
    shorter_text: String,
    longer_text: String,
)
    requires
        longer@ == shorter@.push(step),
        call_ensures(json_pointer, (&shorter,), shorter_text),
        call_ensures(json_pointer, (&longer,), longer_text),
    ensures
        shorter@.len() == 0 ==> shorter_text@.len() == 0,
        longer_text@.take(shorter_text@.len() as int) == shorter_text@,
        longer_text@.len() > shorter_text@.len(),
        longer_text@[shorter_text@.len() as int] == '/',
        !longer_text@.skip(shorter_text@.len() as int + 1).contains('/'),
        step matches PathSegment::Index(index) ==> value_of(
            longer_text@.skip(shorter_text@.len() as int + 1),
        ) == index,
{
    reveal_strlit("/");
    assert(longer@.drop_last() =~= shorter@);
    let part = match step {
        PathSegment::Index(index) => decimal_digits(index as nat),
        PathSegment::Key(key) => escaped(key@),
    };
    assert(longer_text@ == pointer_text(shorter@) + "/"@ + part);
    assert(longer_text@.take(shorter_text@.len() as int) =~= shorter_text@);
    assert(longer_text@.skip(shorter_text@.len() as int + 1) =~= part);
    match step {
        PathSegment::Index(index) => {
            digits_stand_for_their_number(index as nat);
            assert forall|at: int| 0 <= at < part.len() implies part[at] != '/' by {
                assert('0' <= decimal_digits(index as nat)[at]);
            }
        },
        PathSegment::Key(key) => {
            escaped_keys_hold_no_slash(key@);
        },
    }
}

/// Two keys that are written alike in a pointer are one key.
pub proof fn pointers_tell_keys_apart(
    left: Vec<PathSegment>,
    right: Vec<PathSegment>,
    left_key: String,
    right_key: String,
    left_text: String,
    right_text: String,
)
    requires
        left@ == seq![PathSegment::Key(left_key)],
        right@ == seq![PathSegment::Key(right_key)],
        call_ensures(json_pointer, (&left,), left_text),
        call_ensures(json_pointer, (&right,), right_text),
        left_text@ == right_text@,
    ensures
        left_key@ == right_key@,
{
    reveal_strlit("/");
    assert(left@.drop_last() =~= Seq::<PathSegment>::empty());
    assert(right@.drop_last() =~= Seq::<PathSegment>::empty());
    assert(pointer_text(left@.drop_last()) =~= Seq::<char>::empty());
    assert(left_text@.skip(1) =~= escaped(left_key@));
    assert(right_text@.skip(1) =~= escaped(right_key@));
    escaped_keys_differ(left_key@, right_key@);
}

/// A refused value is pointed at below the place where its document stands, and its reason is the
/// parse's own; a further place stands before the pointer, and changes nothing else.
pub proof fn refused_values_are_pointed_at(
    root: &str,
    place: &str,
    failure: ParseFailure,
    error: AppError,
    outer: &str,
    placed: AppError,
    pointer: String,
    lacking: AppError,
)
    requires
        call_ensures(json_pointer, (&failure.path,), pointer),
        call_ensures(invalid_at, (root, place, failure), error),
        call_ensures(prefix, (outer, error), placed),
        call_ensures(missing_field, (place, outer), lacking),
    ensures
        error@ matches ErrorView::InvalidSpec { pointer: at, value, message } && at == place@
            + pointer@ && message == failure.message@ && (placed@ == ErrorView::InvalidSpec {
            pointer: outer@ + at,
            value,
            message,
        }),
        lacking@ matches ErrorView::InvalidSpec { pointer: at, value, .. } && at == place@ && value
            == "null"@,
{
}

/// Only an agent has a feed, below the root.
pub proof fn only_agents_have_a_feed(
    root: &str,
    workload: NormalizedWorkload,
    feed: Option<String>,
    files: Option<PromptFiles>,
)
    requires
        call_ensures(agent_feed_placeholder, (root, &workload), feed),
        call_ensures(prompt_files, (&workload,), files),
    ensures
        feed is Some <==> workload is Agent,
        files is Some <==> workload is Agent,
        feed matches Some(path) ==> path@.take(root@.len() as int) == root@,
        files matches Some(needed) ==> (workload matches NormalizedWorkload::Agent {
            prompt,
            report_trailer,
            ..
        } && needed.prompt == prompt && needed.report_trailer == report_trailer),
{
    reveal_strlit("/");
    reveal_strlit("tasks");
    reveal_strlit("<task-id>");
    reveal_strlit("prompt.feed.txt");
    match feed {
        Some(path) => {
            assert(path@.take(root@.len() as int) =~= root@);
        },
        None => {},
    }
}

/// A new row is queued, unstarted and unreported, with what it was made of.
pub proof fn new_rows_have_not_begun(
    id: TaskId,
    thread: ThreadId,
    timeout: Span,
    at: Timestamp,
    row: TaskRow,
)
    requires
        call_ensures(new_queued_task, (id, thread, timeout, at), row),
    ensures
        row.id == id,
        row.thread == thread,
        row.timeout == timeout,
        row.created_at == at,
        row.status is Queued,
        row.pid is None,
        row.attention is Pending,
        row.callback_status is Pending,
{
}

/// A copy of a specification is the same one, and two are the same only where each part is.
pub proof fn specs_are_the_same_part_by_part(
    spec: NormalizedSpec,
    copy: NormalizedSpec,
    other: NormalizedSpec,
    same: bool,
    equal: bool,
)
    requires
        call_ensures(NormalizedSpec::duplicate, (&spec,), copy),
        call_ensures(NormalizedSpec::same, (&copy, &other), same),
        call_ensures(NormalizedSpec::equals, (&copy, &other), equal),
    ensures
        copy.thread == spec.thread,
        copy.name@ == spec.name@,
        copy.cwd@ == spec.cwd@,
        copy.timeout == spec.timeout,
        copy.machine is Some <==> spec.machine is Some,
        copy.machine is Some ==> copy.machine->0@ == spec.machine->0@,
        copy.workload@ == spec.workload@,
        same ==> {
            &&& spec.thread == other.thread
            &&& spec.name@ == other.name@
            &&& spec.cwd@ == other.cwd@
            &&& spec.timeout == other.timeout
            &&& spec.machine is Some <==> other.machine is Some
            &&& spec.machine is Some ==> spec.machine->0@ == other.machine->0@
            &&& spec.workload@ == other.workload@
        },
        spec == other ==> same,
        equal ==> {
            &&& spec.thread == other.thread
            &&& spec.name@ == other.name@
            &&& spec.timeout == other.timeout
            &&& spec.machine is Some <==> other.machine is Some
            &&& spec.workload@ == other.workload@
        },
{
}

/// Two phases, or two submissions, are the same only in the same stage, for the same reason and
/// of the same resource.
pub proof fn stages_are_the_same_in_full(
    phases: (ResourceRoutePhase, ResourceRoutePhase),
    bound: (BoundRoutePhase, BoundRoutePhase),
    submissions: (SubmissionState, SubmissionState),
    same: (bool, bool, bool),
)
    requires
        call_ensures(ResourceRoutePhase::same, (&phases.0, &phases.1), same.0),
        call_ensures(BoundRoutePhase::same, (&bound.0, &bound.1), same.1),
        call_ensures(SubmissionState::same, (&submissions.0, &submissions.1), same.2),
    ensures
        phases.0 == phases.1 ==> same.0,
        bound.0 == bound.1 ==> same.1,
        submissions.0 == submissions.1 ==> same.2,
        same.0 ==> {
            &&& phases.0 is AcceptanceUnknown <==> phases.1 is AcceptanceUnknown
            &&& phases.0 is Waiting <==> phases.1 is Waiting
            &&& phases.0 is Activated <==> phases.1 is Activated
            &&& phases.0 is CancelledBeforeLaunch <==> phases.1 is CancelledBeforeLaunch
            &&& phases.0 matches ResourceRoutePhase::Rejected { reason: left } ==> (
            phases.1 matches ResourceRoutePhase::Rejected { reason: right } && left@ == right@)
        },
        same.1 ==> {
            &&& bound.0 is AcceptanceUnknown <==> bound.1 is AcceptanceUnknown
            &&& bound.0 is Accepted <==> bound.1 is Accepted
            &&& bound.0 matches BoundRoutePhase::Rejected { reason: left } ==> (
            bound.1 matches BoundRoutePhase::Rejected { reason: right } && left@ == right@)
        },
        same.2 ==> {
            &&& submissions.0 is AcceptanceUnknown <==> submissions.1 is AcceptanceUnknown
            &&& submissions.0 is Accepted <==> submissions.1 is Accepted
            &&& submissions.0 matches SubmissionState::Rejected { reason: left } ==> (
            submissions.1 matches SubmissionState::Rejected { reason: right } && left@ == right@)
            &&& submissions.0 matches SubmissionState::Resource { resource: left, phase: first }
                ==> (submissions.1 matches SubmissionState::Resource {
                resource: right,
                phase: second,
            } && left == right && first@ == second@)
            &&& submissions.0 matches SubmissionState::ResourceAction {
                binding: left,
                phase: first,
            } ==> (submissions.1 matches SubmissionState::ResourceAction {
                binding: right,
                phase: second,
            } && left == right && first@ == second@)
            &&& submissions.0 matches SubmissionState::ResourceBackground {
                binding: left,
                phase: first,
            } ==> (submissions.1 matches SubmissionState::ResourceBackground {
                binding: right,
                phase: second,
            } && left == right && first@ == second@)
        },
{
}

/// A saved specification is current or migrated, and a current one never equals a migrated one.
pub proof fn saved_specs_are_current_or_migrated(
    left: SavedSpec,
    right: SavedSpec,
    same: bool,
    current: Option<&NormalizedSpec>,
)
    requires
        call_ensures(SavedSpec::same, (&left, &right), same),
        call_ensures(SavedSpec::current, (&left,), current),
    ensures
        current is Some <==> left is Current,
        current matches Some(spec) ==> left == SavedSpec::Current(*spec),
        left == right ==> same,
        same ==> (left is Current <==> right is Current),
        left is MigratedLocal && right is MigratedLocal ==> same,
        same ==> (left matches SavedSpec::Current(first) ==> (
        right matches SavedSpec::Current(second) && first@ == second@)),
{
}

/// A callback executable has a path or a reason, never both.
pub proof fn callback_executables_have_a_path_or_a_reason(
    executable: CallbackExecutable,
    path: Option<&String>,
    reason: Option<&String>,
    given: String,
    made: CallbackExecutable,
    found: Option<&String>,
)
    requires
        call_ensures(CallbackExecutable::path, (&executable,), path),
        call_ensures(CallbackExecutable::unavailable_reason, (&executable,), reason),
        call_ensures(CallbackExecutable::available, (given,), made),
        call_ensures(CallbackExecutable::path, (&made,), found),
    ensures
        path is Some <==> reason is None,
        path matches Some(text) ==> executable == (CallbackExecutable::Available { path: *text }),
        reason matches Some(text) ==> executable == (CallbackExecutable::Unavailable {
            reason: *text,
        }),
        found matches Some(text) && *text == given,
{
}

/// A proof of a resource route shows the route's own identities, with its executor as the
/// authority; only a resource route with a digest has one.
pub proof fn route_proofs_show_their_route(
    route: OriginRoute,
    digest: Option<SpecDigest>,
    shown: Option<ResourceRouteProof>,
)
    requires
        call_ensures(ResourceRouteProof::from_route, (&route, digest), shown),
    ensures
        shown is Some <==> route.submission is Resource && digest is Some,
        shown matches Some(made) ==> {
            &&& made.request == route.request
            &&& made.task == route.task
            &&& made.origin_machine == route.origin_machine
            &&& made.authority_machine == route.execution_machine
            &&& made.thread == route.thread
            &&& digest == Some(made.normalized_spec_sha256)
            &&& route.submission == (SubmissionState::Resource {
                resource: made.resource,
                phase: made.phase,
            })
        },
{
}

/// A message comes from the machine that its source names, and a receipt in another protocol is
/// the same receipt.
pub proof fn messages_name_their_machine(
    source: MessageSource,
    machine: MachineId,
    receipt: MessageReceipt,
    protocol: u32,
    told: MessageReceipt,
)
    requires
        call_ensures(MessageSource::machine, (source,), machine),
        call_ensures(MessageReceipt::for_protocol_version, (receipt, protocol), told),
    ensures
        source matches MessageSource::Thread { machine: at, .. } ==> machine == at,
        source matches MessageSource::Task { machine: at, .. } ==> machine == at,
        source matches MessageSource::ResourceNotice { machine: at, .. } ==> machine == at,
        told.protocol_version == protocol,
        told.api_version == receipt.api_version,
        told.message_id == receipt.message_id,
        told.destination_thread == receipt.destination_thread,
        told.destination_cwd == receipt.destination_cwd,
        told.delivered_at == receipt.delivered_at,
{
}

/// Recipients are the same only of one kind, and one message's identity is all that it says but
/// the protocol that it came in.
pub proof fn messages_are_the_same_in_full(
    left: MessageRequest,
    right: MessageRequest,
    same: bool,
    recipients: bool,
)
    requires
        call_ensures(MessageRequest::same_identity, (&left, &right), same),
        call_ensures(Recipient::same, (&left.recipient, &right.recipient), recipients),
    ensures
        same ==> recipients,
        recipients ==> (left.recipient is Thread <==> right.recipient is Thread),
        recipients ==> (left.recipient matches Recipient::Thread { thread: first } ==> (
        right.recipient matches Recipient::Thread { thread: second } && first == second)),
        same ==> {
            &&& left.message_id == right.message_id
            &&& left.api_version == right.api_version
            &&& left.destination_machine == right.destination_machine
            &&& left.source == right.source
            &&& left.body@ == right.body@
            &&& left.reply_to == right.reply_to
            &&& left.conversation_id == right.conversation_id
        },
        recipients && (MessageRequest {
            protocol_version: right.protocol_version,
            recipient: right.recipient,
            ..left
        } == right) ==> same,
{
}

/// A version is accepted only where it is there and the same; a body's is its own member.
pub proof fn versions_must_be_there_and_the_same(
    member: Result<Option<u64>, String>,
    version: u32,
    result: Result<(), VersionRefusal>,
    body: Vec<u8>,
    checked: Result<(), VersionRefusal>,
)
    requires
        call_ensures(check_version_member, (member, version), result),
        call_ensures(check_body_version, (&body, version), checked),
    ensures
        result is Ok <==> (member matches Ok(Some(found)) && found == version),
        result matches Err(VersionRefusal::Invalid(text)) ==> member == Err::<Option<u64>, String>(
            text,
        ),
        member is Err <==> (result matches Err(VersionRefusal::Invalid(_))),
        checked is Ok <==> json_number_member(body@, "api_version"@) == Ok::<
            Option<u64>,
            Seq<char>,
        >(Some(version as u64)),
        (checked matches Err(VersionRefusal::Invalid(_))) <==> json_number_member(
            body@,
            "api_version"@,
        ) is Err,
{
}

/// Session files lie below an absolute directory, and only such files are read.
pub proof fn sessions_lie_below_an_absolute_root(
    codex_home: Option<&str>,
    home: Option<&str>,
    directory: Result<String, AppError>,
    name: &str,
    is: bool,
)
    requires
        call_ensures(session_directory, (codex_home, home), directory),
        call_ensures(is_rollout, (name,), is),
    ensures
        directory matches Ok(path) ==> absolute(path@),
        directory is Ok ==> codex_home is Some || home is Some,
        codex_home matches Some(root) ==> (directory is Ok <==> absolute(root@)),
        codex_home matches Some(root) ==> (directory matches Ok(path) ==> path@.take(
            root@.len() as int,
        ) == root@),
        directory matches Err(error) ==> error@ is MessageUnavailable,
        is ==> name@.take(8) == "rollout-"@ && name@.skip(name@.len() - 6) == ".jsonl"@,
{
    reveal_strlit("/");
    reveal_strlit("sessions");
    reveal_strlit(".codex");
    reveal_strlit("rollout-");
    reveal_strlit(".jsonl");
    match (codex_home, directory) {
        (Some(root), Ok(path)) => {
            assert(path@.take(root@.len() as int) =~= root@);
        },
        _ => {},
    }
}

/// Time that went by is what lies between two instants, and none before the earlier one.
pub proof fn elapsed_time_lies_between(
    earlier: Timestamp,
    later: Timestamp,
    is_later: bool,
    forward: Span,
    back: Span,
    nanos: (i128, i128),
)
    requires
        call_ensures(Timestamp::after, (later, earlier), is_later),
        call_ensures(Timestamp::elapsed_since, (later, earlier), forward),
        call_ensures(Timestamp::elapsed_since, (earlier, later), back),
        call_ensures(Timestamp::nanos_since_epoch, (earlier,), nanos.0),
        call_ensures(Timestamp::nanos_since_epoch, (later,), nanos.1),
    ensures
        is_later <==> nanos.1 > nanos.0,
        is_later <==> forward.nanos > 0,
        nanos.1 - nanos.0 == forward.nanos - back.nanos,
        forward.nanos == 0 || back.nanos == 0,
{
}

/// A later tick is later by the whole span, and the shorter span is one of the two.
pub proof fn spans_add_up(
    now: Tick,
    span: Span,
    other: Span,
    tick: Option<Tick>,
    least: Span,
    zero: bool,
    secs: u64,
    millis: u64,
    spans: (Span, Span),
)
    requires
        call_ensures(Tick::checked_after, (now, span), tick),
        call_ensures(Span::min, (span, other), least),
        call_ensures(Span::is_zero, (span,), zero),
        call_ensures(Span::from_secs, (secs,), spans.0),
        call_ensures(Span::from_millis, (millis,), spans.1),
    ensures
        tick matches Some(later) ==> later.nanos - now.nanos == span.nanos,
        tick is None ==> now.nanos + span.nanos > u128::MAX,
        least == span || least == other,
        least.nanos <= span.nanos,
        least.nanos <= other.nanos,
        zero <==> span.nanos == 0,
        millis == 1000 * secs ==> spans.0 == spans.1,
        spans.1.nanos == 1_000_000 * millis,
{
}

} // verus!
