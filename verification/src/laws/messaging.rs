//! Messages between threads: one identity is delivered to one thread at most once, and the sender
//! learns of it only from a receipt for that very message.

use vstd::prelude::*;
use vstd::utf8::encode_utf8;

use crate::actors::store::StoreMsg;
use crate::error::{AppError, ErrorView};
use crate::fleet::{ClusterResponse, API_VERSION, CLUSTER_PROTOCOL_VERSION};
use crate::ids::{hyphenated, MachineId, MessageId, ThreadId};
use crate::laws::reaching::{begins, ends};
use crate::message::{
    MessageAttempt, MessageDelivery, MessageReceipt, MessageRequest, MessageResponse,
    MessageSendRequest, MessageSource, MessageSourceSelector, MessageTarget,
    OutboundMessageBinding, Recipient,
};
use crate::message_receiver::sessions::{
    collect_sessions, expand_receiver_cwd, first_failure, has_sessions, latest, read_session_meta,
    resolve_destination_sync, session_meta, sessions_in, LocalSession, SessionMetaLine, SessionRoot,
};
use crate::message_receiver::{
    notice_backing_request, notice_value, queued_line, receive, receive_supervisor_notice,
    supervisor_notice_receipt, AwaitBound, AwaitCommitted, AwaitDelivery, AwaitDestination,
    AwaitNoticeBound, AwaitNoticeCommitted, AwaitNoticeDelivery, AwaitNoticeDestination,
    AwaitNoticePermit, AwaitNoticeSent, AwaitPermit, AwaitSent, MessageStep, NoticeStep,
};
use crate::message_sender::{
    decode_remote_receipt, receiver_request, resolve_machine, selected_machine, send, source_route,
    validate_receipt, AwaitAnswer, AwaitBegun, AwaitConnected, AwaitMachine, AwaitParsed,
    AwaitReceipt, AwaitRouteBound, AwaitTaskRoute, NameTarget, Routed, SendStep,
};
use crate::path::{absolute, path_equal};
use crate::resource::{SupervisorNoticeReceipt, SupervisorNoticeRequest};
use crate::time::Timestamp;

verus! {

/// A valid message waits for its identity's only permit before anything is read of it, and then
/// what was saved of that identity is read; an invalid one fails at once.
pub proof fn messages_wait_for_their_permit(
    request: MessageRequest,
    valid: Result<(), AppError>,
    first: MessageStep,
    contended: bool,
    step: MessageStep,
)
    requires
        call_ensures(receive, (request, valid), first),
        first matches MessageStep::AcquirePermit { next, .. } ==> call_ensures(
            AwaitPermit::on_permit,
            (next, contended),
            step,
        ),
    ensures
        first is AcquirePermit <==> valid is Ok,
        valid matches Err(error) ==> first == MessageStep::Done(
            Err::<MessageReceipt, AppError>(error),
        ),
        first matches MessageStep::AcquirePermit { id, .. } ==> {
            &&& id == request.message_id
            &&& step matches MessageStep::AskDelivery { message, next }
            &&& message == (StoreMsg::MessageDelivery { id: request.message_id })
            &&& next.request == request
            &&& next.contended == contended
        },
{
}

/// A message that was delivered is answered with its own receipt, and is not sent again. One that
/// is being tried by someone else is not tried beside them; one that was tried before goes to the
/// same thread; only one that nobody tried is resolved. Another message under the identity is a
/// conflict.
pub proof fn messages_are_delivered_once(
    wait: AwaitDelivery,
    saved: MessageDelivery,
    same: bool,
    step: MessageStep,
)
    requires
        call_ensures(AwaitDelivery::on_delivery, (wait, Ok(saved)), step),
        saved.attempt matches Some(attempt) ==> call_ensures(
            MessageRequest::same_identity,
            (&attempt.request, &wait.request),
            same,
        ),
    ensures
        saved.attempt is Some && !same ==> step == MessageStep::Done(
            Err::<MessageReceipt, AppError>(
                AppError::MessageConflict { id: wait.request.message_id },
            ),
        ),
        saved.attempt is Some && same && saved.receipt is Some ==> (step matches MessageStep::Done(
            Ok(receipt),
        ) && receipt == (MessageReceipt {
            protocol_version: wait.request.protocol_version,
            ..saved.receipt->0
        })),
        saved.attempt is Some && same && saved.receipt is None && wait.contended ==> (
        step matches MessageStep::Done(Err(error))
            && error@ matches ErrorView::MessageDeliveryFailed { id, .. } && id
            == wait.request.message_id),
        saved.attempt is Some && same && saved.receipt is None && !wait.contended ==> (
        step matches MessageStep::AskBind { message: StoreMsg::BindMessageAttempt { attempt }, .. }
            && attempt.destination_thread == saved.attempt->0.destination_thread
            && attempt.destination_cwd == saved.attempt->0.destination_cwd && attempt.request == (
        MessageRequest {
            protocol_version: wait.request.protocol_version,
            ..saved.attempt->0.request
        })),
        saved.attempt is None && saved.receipt is Some ==> (step matches MessageStep::Done(
            Err(error),
        ) && error@ is Internal),
        step is Resolve <==> saved.attempt is None && saved.receipt is None,
        step matches MessageStep::Resolve { recipient, next } ==> recipient
            == wait.request.recipient && next.request == wait.request,
        step !is Send,
{
}

/// Two messages are the same exactly if every part but the protocol is.
pub proof fn identities_cover_the_whole_message(
    left: MessageRequest,
    right: MessageRequest,
    same: bool,
)
    requires
        call_ensures(MessageRequest::same_identity, (&left, &right), same),
    ensures
        same ==> left.message_id == right.message_id && left.body@ == right.body@ && left.source
            == right.source && left.destination_machine == right.destination_machine
            && left.reply_to == right.reply_to && left.conversation_id == right.conversation_id
            && left.api_version == right.api_version,
        same ==> (left.recipient is Thread <==> right.recipient is Thread),
        same ==> (left.recipient matches Recipient::Thread { thread } ==> right.recipient == (
        Recipient::Thread { thread })),
        left == (MessageRequest { protocol_version: left.protocol_version, ..right })
            && left.recipient is Thread ==> same,
        left.message_id != right.message_id || left.body@ != right.body@ || left.source
            != right.source || left.conversation_id != right.conversation_id ==> !same,
{
}

/// What is bound is the message with the thread that was found, what is sent goes to the bound
/// thread, and what is then kept is a receipt for the bound message and thread. A send that failed
/// keeps none.
pub proof fn receipts_say_where_the_message_went(
    wait: AwaitDestination,
    thread: ThreadId,
    cwd: String,
    first: MessageStep,
    bound: AwaitBound,
    attempt: MessageAttempt,
    line: String,
    second: MessageStep,
    sent: Result<(), String>,
    now: Timestamp,
    step: MessageStep,
)
    requires
        call_ensures(AwaitDestination::on_destination, (wait, Ok((thread, cwd))), first),
        call_ensures(AwaitBound::on_bound, (bound, Ok(attempt)), second),
        call_ensures(queued_line, (&attempt,), line),
        second matches MessageStep::Send { next, .. } ==> call_ensures(
            AwaitSent::on_sent,
            (next, sent, now),
            step,
        ),
    ensures
        first matches MessageStep::AskBind {
            message: StoreMsg::BindMessageAttempt { attempt: made },
            ..
        } && made.request == wait.request && made.destination_thread == thread
            && made.destination_cwd == cwd,
        second matches MessageStep::Send { thread: to, cwd: at, line: text, .. } && to
            == attempt.destination_thread && at == attempt.destination_cwd && text@ == line@,
        sent is Ok ==> (step matches MessageStep::AskCommit {
            message: StoreMsg::CommitMessageReceipt { receipt },
            ..
        } && receipt.message_id == attempt.request.message_id && receipt.protocol_version
            == attempt.request.protocol_version && receipt.destination_thread
            == attempt.destination_thread && receipt.destination_cwd == attempt.destination_cwd
            && receipt.delivered_at == now && receipt.api_version == API_VERSION),
        sent is Err ==> (step matches MessageStep::Done(Err(error))
            && error@ matches ErrorView::MessageDeliveryFailed { id, .. } && id
            == attempt.request.message_id),
{
}

/// A failure of the store, or of the thread's search, ends the message with that error; what the
/// store kept is the answer.
pub proof fn receiving_failures_are_handed_on(
    waits: (AwaitDelivery, AwaitDestination, AwaitBound, AwaitCommitted),
    error: AppError,
    steps: (MessageStep, MessageStep, MessageStep),
    reply: Result<MessageReceipt, AppError>,
    committed: MessageStep,
)
    requires
        call_ensures(AwaitDelivery::on_delivery, (waits.0, Err(error)), steps.0),
        call_ensures(AwaitDestination::on_destination, (waits.1, Err(error)), steps.1),
        call_ensures(AwaitBound::on_bound, (waits.2, Err(error)), steps.2),
        call_ensures(AwaitCommitted::on_committed, (waits.3, reply), committed),
    ensures
        steps.0 == MessageStep::Done(Err::<MessageReceipt, AppError>(error)),
        steps.1 == MessageStep::Done(Err::<MessageReceipt, AppError>(error)),
        steps.2 == MessageStep::Done(Err::<MessageReceipt, AppError>(error)),
        committed == MessageStep::Done(reply),
{
}

/// A supervisor's notice is carried by a message of its own attempt, from the notice's source to
/// its thread on its machine, and holds the notice as it is written; a nil attempt has none, and
/// neither has a notice that is too long for a message.
pub proof fn notices_are_carried_by_their_attempt(
    notice: SupervisorNoticeRequest,
    json: String,
    backing: Result<MessageRequest, AppError>,
)
    requires
        call_ensures(notice_value, (&notice,), json),
        call_ensures(notice_backing_request, (&notice,), backing),
    ensures
        backing matches Ok(carried) ==> carries(carried, notice) && carried.body@ == json@,
        backing is Ok <==> notice.attempt_id.0 != 0 && encode_utf8(json@).len() <= 65_536,
        backing matches Err(error) ==> error@ is MessageInvalid,
        ends(json@, ",\"payload\":"@ + notice.payload@ + "}"@),
{
    let tail = ",\"payload\":"@ + notice.payload@ + "}"@;
    assert(json@.skip(json@.len() - tail.len()) =~= tail);
}

/// Whether a message carries a notice.
pub open spec fn carries(carried: MessageRequest, notice: SupervisorNoticeRequest) -> bool {
    &&& carried.message_id.0 == notice.attempt_id.0
    &&& carried.destination_machine == notice.destination.machine
    &&& carried.recipient == (Recipient::Thread { thread: notice.destination.thread })
    &&& carried.source == (MessageSource::ResourceNotice {
        machine: notice.source_machine,
        notice_id: notice.notice_id,
    })
    &&& carried.api_version == notice.api_version
    &&& carried.protocol_version == notice.protocol_version
    &&& carried.conversation_id == notice.notice_id.0
    &&& carried.reply_to is None
}

/// A notice is received only on the machine that it is for, and under its attempt's permit.
pub proof fn notices_are_received_on_their_machine(
    local: MachineId,
    notice: SupervisorNoticeRequest,
    valid: Result<(), AppError>,
    backing: Result<MessageRequest, AppError>,
    first: NoticeStep,
    contended: bool,
    step: NoticeStep,
)
    requires
        call_ensures(receive_supervisor_notice, (local, notice, valid), first),
        call_ensures(notice_backing_request, (&notice,), backing),
        first matches NoticeStep::AcquirePermit { next, .. } ==> call_ensures(
            AwaitNoticePermit::on_permit,
            (next, contended),
            step,
        ),
    ensures
        first is AcquirePermit <==> valid is Ok && notice.destination.machine == local && backing
            is Ok,
        first !is AcquirePermit ==> first matches NoticeStep::Done(Err(_)),
        valid is Ok && notice.destination.machine != local ==> (first matches NoticeStep::Done(
            Err(error),
        ) && error@ == (ErrorView::MachineIdentityMismatch {
            expected: notice.destination.machine,
            found: Some(local),
        })),
        first matches NoticeStep::AcquirePermit { id, next } ==> {
            &&& id.0 == notice.attempt_id.0
            &&& next.notice == notice
            &&& carries(next.backing, notice)
            &&& step matches NoticeStep::AskDelivery { message, next: delivery }
            &&& message == (StoreMsg::MessageDelivery { id })
            &&& delivery.notice == notice
            &&& delivery.backing == next.backing
            &&& delivery.contended == contended
        },
{
}

/// A notice that was delivered is answered by its receipt and not sent again; one that was tried
/// goes to its own thread again, and only one that nobody tried is resolved. Another message
/// under the attempt is a conflict, and another thread is refused.
pub proof fn notices_are_delivered_once(
    wait: AwaitNoticeDelivery,
    saved: MessageDelivery,
    same: bool,
    answer: Result<SupervisorNoticeReceipt, AppError>,
    step: NoticeStep,
)
    requires
        call_ensures(AwaitNoticeDelivery::on_delivery, (wait, Ok(saved)), step),
        saved.attempt matches Some(attempt) ==> call_ensures(
            MessageRequest::same_identity,
            (&attempt.request, &wait.backing),
            same,
        ),
        saved.receipt matches Some(receipt) ==> call_ensures(
            supervisor_notice_receipt,
            (
                &wait.notice,
                MessageReceipt { protocol_version: wait.notice.protocol_version, ..receipt },
            ),
            answer,
        ),
    ensures
        saved.attempt is Some && !same ==> step == NoticeStep::Done(
            Err::<SupervisorNoticeReceipt, AppError>(
                AppError::MessageConflict { id: wait.backing.message_id },
            ),
        ),
        saved.attempt is Some && same && saved.attempt->0.destination_thread
            != wait.notice.destination.thread ==> (step matches NoticeStep::Done(Err(error))
            && error@ is Internal),
        saved.attempt is Some && same && saved.attempt->0.destination_thread
            == wait.notice.destination.thread ==> {
            &&& saved.receipt is Some && answer is Ok ==> step == NoticeStep::Done(answer)
            &&& saved.receipt is Some && answer is Err ==> (step matches NoticeStep::Done(Err(_)))
            &&& saved.receipt is None && wait.contended ==> (step matches NoticeStep::Done(
                Err(error),
            ) && error@ is MessageDeliveryFailed)
            &&& saved.receipt is None && !wait.contended ==> (step matches NoticeStep::AskBind {
                message: StoreMsg::BindMessageAttempt { attempt },
                next,
            } && attempt.request == wait.backing && attempt.destination_thread
                == wait.notice.destination.thread && attempt.destination_cwd
                == saved.attempt->0.destination_cwd && next.notice == wait.notice)
        },
        step is Resolve <==> saved.attempt is None && saved.receipt is None,
        step matches NoticeStep::Resolve { recipient, next } ==> recipient == (Recipient::Thread {
            thread: wait.notice.destination.thread,
        }) && next.notice == wait.notice && next.backing == wait.backing,
{
}

/// A notice is bound only for its own thread, sent where it was bound, and receipted for its
/// attempt; a send that failed is not receipted.
pub proof fn notices_reach_their_own_thread(
    wait: AwaitNoticeDestination,
    thread: ThreadId,
    cwd: String,
    first: NoticeStep,
    bound: AwaitNoticeBound,
    attempt: MessageAttempt,
    second: NoticeStep,
    sent: Result<(), String>,
    now: Timestamp,
    step: NoticeStep,
)
    requires
        call_ensures(AwaitNoticeDestination::on_destination, (wait, Ok((thread, cwd))), first),
        call_ensures(AwaitNoticeBound::on_bound, (bound, Ok(attempt)), second),
        second matches NoticeStep::Send { next, .. } ==> call_ensures(
            AwaitNoticeSent::on_sent,
            (next, sent, now),
            step,
        ),
    ensures
        first is AskBind <==> thread == wait.notice.destination.thread,
        first !is AskBind ==> (first matches NoticeStep::Done(Err(error)) && error@ is Internal),
        first matches NoticeStep::AskBind {
            message: StoreMsg::BindMessageAttempt { attempt: made },
            next,
        } ==> made.request == wait.backing && made.destination_thread == thread
            && made.destination_cwd == cwd && next.notice == wait.notice && next.message_id
            == wait.backing.message_id,
        second matches NoticeStep::Send { thread: to, cwd: at, .. } && to
            == attempt.destination_thread && at == attempt.destination_cwd,
        sent is Ok ==> (step matches NoticeStep::AskCommit {
            message: StoreMsg::CommitMessageReceipt { receipt },
            next,
        } && receipt.message_id == bound.message_id && receipt.protocol_version
            == bound.notice.protocol_version && receipt.destination_thread
            == attempt.destination_thread && receipt.destination_cwd == attempt.destination_cwd
            && receipt.delivered_at == now && receipt.api_version == API_VERSION && next.notice
            == bound.notice),
        sent is Err ==> (step matches NoticeStep::Done(Err(error))
            && error@ matches ErrorView::MessageDeliveryFailed { id, .. } && id
            == bound.message_id),
{
}

/// A message's receipt is one for a notice exactly where it is of the notice's attempt, thread
/// and versions; it then names the notice, and when it was delivered.
pub proof fn notice_receipts_are_of_their_attempt(
    notice: SupervisorNoticeRequest,
    receipt: MessageReceipt,
    answer: Result<SupervisorNoticeReceipt, AppError>,
    wait: AwaitNoticeCommitted,
    step: NoticeStep,
)
    requires
        call_ensures(supervisor_notice_receipt, (&notice, receipt), answer),
        call_ensures(AwaitNoticeCommitted::on_committed, (wait, Ok(receipt)), step),
        wait.notice == notice,
    ensures
        answer is Ok <==> receipt.message_id.0 == notice.attempt_id.0 && receipt.api_version
            == API_VERSION && receipt.protocol_version == notice.protocol_version
            && receipt.destination_thread == notice.destination.thread,
        answer matches Ok(told) ==> {
            &&& told.notice_id == notice.notice_id
            &&& told.attempt_id == notice.attempt_id
            &&& told.destination_machine == notice.destination.machine
            &&& told.destination_thread == notice.destination.thread
            &&& told.delivered_at == receipt.delivered_at
            &&& told.protocol_version == notice.protocol_version
            &&& told.api_version == API_VERSION
        },
        step matches NoticeStep::Done(ended) && (ended is Ok <==> answer is Ok) && (ended is Ok
            ==> ended == answer),
{
}

/// Whether a session is the one that was used last of those that something reaches.
pub open spec fn last_used(
    sessions: Seq<LocalSession>,
    reaches: spec_fn(LocalSession) -> bool,
    thread: ThreadId,
    cwd: String,
) -> bool {
    exists|at: int|
        {
            &&& 0 <= at < sessions.len()
            &&& reaches(#[trigger] sessions[at])
            &&& sessions[at].thread == thread
            &&& sessions[at].cwd == cwd
            &&& forall|other: int|
                0 <= other < sessions.len() && reaches(#[trigger] sessions[other])
                    ==> sessions[other].modified <= sessions[at].modified
        }
}

/// A recipient's directory is absolute: the one that was named, or one below the home directory
/// for a leading tilde. Any other name is invalid, and without an absolute home a tilde leads
/// nowhere.
pub proof fn receiver_directories_are_absolute(
    cwd: &str,
    home: Option<&str>,
    path: Result<String, AppError>,
)
    requires
        call_ensures(expand_receiver_cwd, (cwd, home), path),
    ensures
        absolute(cwd@) ==> (path matches Ok(found) && found@ == cwd@),
        path matches Ok(found) ==> absolute(found@),
        !absolute(cwd@) && path is Ok ==> begins(cwd@, "~/"@) && home is Some && absolute(
            home->0@,
        ) && ends(path->Ok_0@, cwd@.skip(2)),
        !absolute(cwd@) && path is Ok && !absolute(cwd@.skip(2)) ==> begins(
            path->Ok_0@,
            home->0@,
        ),
        path matches Err(error) ==> (error@ is MessageInvalid <==> !begins(cwd@, "~/"@)),
        path matches Err(error) ==> (error@ is MessageUnavailable <==> begins(cwd@, "~/"@)),
        begins(cwd@, "~/"@) && home is Some && absolute(home->0@) ==> path is Ok,
{
    reveal_strlit("~/");
    reveal_strlit("/");
    match (path, home) {
        (Ok(found), Some(at)) => {
            if !absolute(cwd@) {
                let rest = cwd@.skip(2);
                assert(found@.skip(found@.len() - rest.len()) =~= rest);
                if !absolute(rest) {
                    assert(found@.take(at@.len() as int) =~= at@);
                }
            }
        },
        _ => {},
    }
    if begins(cwd@, "~/"@) {
        assert(cwd@.take(2)[0] == cwd@[0]);
    }
}

/// A message for a thread finds that thread's session, and one for a directory the session that
/// was used last there; without one there is no such thread.
pub proof fn recipients_are_found_by_their_last_session(
    recipient: Recipient,
    sessions: Vec<LocalSession>,
    home: Option<&str>,
    resolved: Result<(ThreadId, String), AppError>,
    cwd: &str,
    target: Result<String, AppError>,
    error: AppError,
    failed: Result<(ThreadId, String), AppError>,
)
    requires
        call_ensures(resolve_destination_sync, (&recipient, Ok(sessions), home), resolved),
        call_ensures(resolve_destination_sync, (&recipient, Err(error), home), failed),
        recipient matches Recipient::Cwd { cwd: named } ==> cwd@ == named@,
        call_ensures(expand_receiver_cwd, (cwd, home), target),
    ensures
        failed == Err::<(ThreadId, String), AppError>(error),
        recipient matches Recipient::Thread { thread } ==> {
            &&& resolved matches Ok((found, at)) ==> found == thread && last_used(
                sessions@,
                |session: LocalSession| session.thread == thread,
                found,
                at,
            )
            &&& resolved matches Err(told) ==> told@ == (ErrorView::AgentThreadNotFound {
                selector: hyphenated(thread.0),
            }) && forall|at: int|
                0 <= at < sessions@.len() ==> (#[trigger] sessions@[at]).thread != thread
        },
        recipient is Cwd && target is Err ==> (resolved matches Err(told) && told@
            == target->Err_0@),
        recipient is Cwd && target is Ok ==> {
            &&& resolved matches Ok((found, at)) ==> path_equal(at@, target->Ok_0@) && last_used(
                sessions@,
                |session: LocalSession| path_equal(session.cwd@, target->Ok_0@),
                found,
                at,
            )
            &&& resolved matches Err(told) ==> told@ is AgentThreadNotFound && forall|at: int|
                0 <= at < sessions@.len() ==> !path_equal(
                    (#[trigger] sessions@[at]).cwd@,
                    target->Ok_0@,
                )
        },
{
    match recipient {
        Recipient::Thread { thread } => {
            let reaches = |session: LocalSession| session.thread == thread;
            if resolved is Ok {
                let at = choose|at: int| #[trigger]
                    latest(sessions@, reaches, at) && resolved->Ok_0.0 == sessions@[at].thread
                        && resolved->Ok_0.1 == sessions@[at].cwd;
                assert(reaches(sessions@[at]));
                assert(last_used(sessions@, reaches, resolved->Ok_0.0, resolved->Ok_0.1));
            } else {
                assert forall|at: int| 0 <= at < sessions@.len() implies (
                #[trigger] sessions@[at]).thread != thread by {
                    assert(!reaches(sessions@[at]));
                }
            }
        },
        Recipient::Cwd { .. } => {
            if target is Ok {
                let reaches = |session: LocalSession| path_equal(session.cwd@, target->Ok_0@);
                if resolved is Ok {
                    let at = choose|at: int| #[trigger]
                        latest(sessions@, reaches, at) && resolved->Ok_0.0 == sessions@[at].thread
                            && resolved->Ok_0.1 == sessions@[at].cwd;
                    assert(reaches(sessions@[at]));
                    assert(last_used(sessions@, reaches, resolved->Ok_0.0, resolved->Ok_0.1));
                } else {
                    assert forall|at: int| 0 <= at < sessions@.len() implies !path_equal(
                        (#[trigger] sessions@[at]).cwd@,
                        target->Ok_0@,
                    ) by {
                        assert(!reaches(sessions@[at]));
                    }
                }
            }
        },
    }
}

/// The sessions of a directory are those that could be read, in their order, unless one of them
/// failed; a line that names no session is left out.
proof fn sessions_are_those_that_were_read(read: Seq<Option<Result<LocalSession, AppError>>>)
    ensures
        first_failure(read) is Some <==> exists|at: int|
            0 <= at < read.len() && #[trigger] read[at] is Some && read[at]->0 is Err,
        forall|at: int|
            0 <= at < read.len() && #[trigger] read[at] is Some && read[at]->0 is Ok
                ==> sessions_in(read).contains(read[at]->0->Ok_0),
        forall|at: int|
            0 <= at < sessions_in(read).len() ==> read.contains(
                Some(Ok::<LocalSession, AppError>(#[trigger] sessions_in(read)[at])),
            ),
    decreases read.len(),
{
    if read.len() > 0 {
        let rest = read.drop_first();
        sessions_are_those_that_were_read(rest);
        let later = sessions_in(rest);
        let all = sessions_in(read);
        assert(forall|at: int| 1 <= at < read.len() ==> #[trigger] read[at] == rest[at - 1]);
        assert(forall|at: int| 0 <= at < rest.len() ==> #[trigger] rest[at] == read[at + 1]);
        let shift = all.len() - later.len();
        assert(forall|at: int| 0 <= at < later.len() ==> #[trigger] later[at] == all[at + shift]);
        if first_failure(rest) is Some {
            let at = choose|at: int|
                0 <= at < rest.len() && #[trigger] rest[at] is Some && rest[at]->0 is Err;
            assert(read[at + 1] is Some && read[at + 1]->0 is Err);
        }
        assert forall|at: int|
            0 <= at < read.len() && #[trigger] read[at] is Some && read[at]->0
                is Ok implies all.contains(read[at]->0->Ok_0) by {
            if at == 0 {
                assert(all[0] == read[0]->0->Ok_0);
            } else {
                let session = rest[at - 1]->0->Ok_0;
                let place = choose|place: int|
                    0 <= place < later.len() && later[place] == session;
                assert(all[place + shift] == session);
            }
        }
        assert forall|at: int| 0 <= at < all.len() implies read.contains(
            Some(Ok::<LocalSession, AppError>(#[trigger] all[at])),
        ) by {
            if at < shift {
                assert(read[0] == Some(Ok::<LocalSession, AppError>(all[at])));
            } else {
                assert(later[at - shift] == all[at]);
                let kept = Some(Ok::<LocalSession, AppError>(later[at - shift]));
                let place = choose|place: int| 0 <= place < rest.len() && rest[place] == kept;
                assert(read[place + 1] == kept);
            }
        }
    }
}

/// All sessions that were read are there, and nothing else; one that could not be read fails the
/// search.
pub proof fn every_read_session_is_there(
    read: Vec<Option<Result<LocalSession, AppError>>>,
    sessions: Result<Vec<LocalSession>, AppError>,
)
    requires
        call_ensures(collect_sessions, (read,), sessions),
    ensures
        sessions is Err <==> exists|at: int|
            0 <= at < read@.len() && #[trigger] read@[at] is Some && read@[at]->0 is Err,
        sessions matches Ok(found) ==> {
            &&& forall|at: int|
                0 <= at < read@.len() && #[trigger] read@[at] is Some ==> found@.contains(
                    read@[at]->0->Ok_0,
                )
            &&& forall|at: int|
                0 <= at < found@.len() ==> read@.contains(
                    Some(Ok::<LocalSession, AppError>(#[trigger] found@[at])),
                )
        },
{
    sessions_are_those_that_were_read(read@);
}

/// A session's first line names it only within its bound, with its own kind, an absolute
/// directory and a real identity; a directory that is missing has no sessions, and one that
/// cannot be looked at is no empty one.
pub proof fn session_lines_must_name_a_session(
    bytes: usize,
    meta: Option<SessionMetaLine>,
    session: Option<(ThreadId, String)>,
    read: Result<Option<LocalSession>, AppError>,
    kept: Option<Result<LocalSession, AppError>>,
    root: SessionRoot,
    has: Result<bool, AppError>,
)
    requires
        call_ensures(session_meta, (bytes, meta), session),
        call_ensures(read_session_meta, (read,), kept),
        call_ensures(has_sessions, (root,), has),
    ensures
        session matches Some((thread, cwd)) ==> {
            &&& meta matches Some(line)
            &&& bytes <= 65_536
            &&& line.kind@ == "session_meta"@
            &&& absolute(cwd@)
            &&& cwd@ == line.payload.cwd@
            &&& thread.0 != 0
            &&& crate::ids::uuid_parsed(line.payload.id@) == Some(thread.0)
        },
        kept is None <==> read matches Ok(None),
        read matches Ok(Some(found)) ==> kept == Some(Ok::<LocalSession, AppError>(found)),
        read matches Err(error) ==> kept == Some(Err::<LocalSession, AppError>(error)),
        root is Directory ==> has == Ok::<bool, AppError>(true),
        root is Missing ==> has == Ok::<bool, AppError>(false),
        root is Other || root is Failed ==> has is Err,
{
}

/// A sender vouches for its own machine as the source, and the message keeps its identity, body
/// and conversation on its way.
pub proof fn senders_vouch_for_their_own_machine(
    selector: MessageSourceSelector,
    local: MachineId,
    source: MessageSource,
    request: MessageSendRequest,
    destination: MachineId,
    recipient: Recipient,
    protocol: u32,
    wire: MessageRequest,
)
    requires
        call_ensures(source_route, (selector, local), source),
        call_ensures(
            receiver_request,
            (&request, destination, source, &recipient, protocol),
            wire,
        ),
    ensures
        selector matches MessageSourceSelector::Thread { thread } ==> source == (
        MessageSource::Thread { machine: local, thread }),
        selector matches MessageSourceSelector::Task { task } ==> source == (MessageSource::Task {
            machine: local,
            task,
        }),
        wire.message_id == request.message_id,
        wire.body == request.body,
        wire.reply_to == request.reply_to,
        wire.conversation_id == request.conversation_id,
        wire.api_version == request.api_version,
        wire.protocol_version == protocol,
        wire.destination_machine == destination,
        wire.recipient == recipient,
        wire.source == source,
{
}

/// Whether a step hands a routed message over: to this machine's own receiver where it is the
/// destination, and otherwise over a connection to the destination.
pub open spec fn hands_over(step: SendStep, local: MachineId, routed: Routed) -> bool {
    &&& step is Receive <==> routed.destination == local
    &&& step is Connect <==> routed.destination != local
    &&& step matches SendStep::Receive { request, next } ==> {
        &&& carries_on(request, routed, local)
        &&& request.protocol_version == CLUSTER_PROTOCOL_VERSION
        &&& next.routed == routed
        &&& next.protocol_version == CLUSTER_PROTOCOL_VERSION
    }
    &&& step matches SendStep::Connect { machine, next } ==> machine == routed.destination
        && next.routed == routed && next.local == local
}

/// Whether a message on the wire is a routed one, vouched for by its sender.
pub open spec fn carries_on(wire: MessageRequest, routed: Routed, local: MachineId) -> bool {
    &&& wire.message_id == routed.request.message_id
    &&& wire.body == routed.request.body
    &&& wire.reply_to == routed.request.reply_to
    &&& wire.conversation_id == routed.request.conversation_id
    &&& wire.api_version == routed.request.api_version
    &&& wire.destination_machine == routed.destination
    &&& wire.recipient == routed.recipient
    &&& routed.request.source matches MessageSourceSelector::Thread { thread } ==> wire.source == (
    MessageSource::Thread { machine: local, thread })
    &&& routed.request.source matches MessageSourceSelector::Task { task } ==> wire.source == (
    MessageSource::Task { machine: local, task })
}

/// A message is saved before it is sent. One whose route is bound goes there again, whatever its
/// target resolves to now; an unbound one resolves its own target, and what is found is bound
/// first.
pub proof fn messages_keep_their_first_route(
    local: MachineId,
    request: MessageSendRequest,
    valid: Result<(), AppError>,
    first: SendStep,
    begun: AwaitBegun,
    binding: OutboundMessageBinding,
    step: SendStep,
    bound: AwaitRouteBound,
    after: SendStep,
)
    requires
        call_ensures(send, (local, request, valid), first),
        call_ensures(AwaitBegun::on_begun, (begun, Ok(binding)), step),
        call_ensures(AwaitRouteBound::on_bound, (bound, Ok(binding)), after),
    ensures
        first is AskBegin <==> valid is Ok,
        first matches SendStep::AskBegin { message, next } ==> message == (
        StoreMsg::BeginOutboundMessage { request }) && next.local == local,
        valid is Err ==> first matches SendStep::Done(Err(_)),
        binding matches OutboundMessageBinding::Bound {
            request,
            destination_machine,
            recipient,
        } ==> {
            let routed = Routed { request, destination: destination_machine, recipient };
            hands_over(step, begun.local, routed) && hands_over(after, bound.local, routed)
        },
        binding matches OutboundMessageBinding::Resolving { request } ==> {
            &&& after matches SendStep::Done(Err(error))
            &&& error@ is Internal
            &&& request.target matches MessageTarget::Machine { machine, recipient } ==> (
            step matches SendStep::ResolveMachine { selector, next } && selector == machine
                && next.request == request && next.recipient == recipient && next.local
                == begun.local)
            &&& request.target matches MessageTarget::Task { task } ==> (
            step matches SendStep::ResolveTask { task: named, next } && named == task
                && next.request == request && next.local == begun.local)
        },
{
}

/// A resolved target is bound for the machine that was found: with the recipient that the sender
/// named, or with the thread of the task's route.
pub proof fn resolved_targets_are_bound(
    machine_wait: AwaitMachine,
    machine: MachineId,
    first: SendStep,
    task_wait: AwaitTaskRoute,
    thread: ThreadId,
    second: SendStep,
    error: AppError,
    failures: (SendStep, SendStep),
)
    requires
        call_ensures(AwaitMachine::on_machine, (machine_wait, Ok(machine)), first),
        call_ensures(AwaitTaskRoute::on_route, (task_wait, Ok((machine, thread))), second),
        call_ensures(AwaitMachine::on_machine, (machine_wait, Err(error)), failures.0),
        call_ensures(AwaitTaskRoute::on_route, (task_wait, Err(error)), failures.1),
    ensures
        first matches SendStep::AskBind { message, next } && message == (
        StoreMsg::BindOutboundMessage {
            request: machine_wait.request,
            destination_machine: machine,
            recipient: machine_wait.recipient,
        }) && next.local == machine_wait.local,
        second matches SendStep::AskBind { message, next } && message == (
        StoreMsg::BindOutboundMessage {
            request: task_wait.request,
            destination_machine: machine,
            recipient: Recipient::Thread { thread },
        }) && next.local == task_wait.local,
        failures.0 matches SendStep::Done(Err(told)) && told == error,
        failures.1 matches SendStep::Done(Err(told)) && told == error,
{
}

/// A machine is selected by its identity, or else by its name: this machine by its answer or its
/// own name, a peer as the fleet knows it, and a name that nobody has is not found.
pub proof fn machines_are_selected_by_identity_or_name(
    selector: &str,
    local: MachineId,
    local_name: &str,
    name: Result<String, String>,
    fleet: Option<Result<NameTarget, AppError>>,
    identity: Option<MachineId>,
    machine: Result<MachineId, AppError>,
)
    requires
        call_ensures(selected_machine, (selector,), identity),
        call_ensures(resolve_machine, (selector, local, local_name, name, fleet), machine),
    ensures
        identity matches Some(found) ==> machine == Ok::<MachineId, AppError>(found),
        identity is None && name is Err ==> (machine matches Err(error) && error@ is Usage),
        identity is None && name is Ok ==> {
            &&& fleet matches Some(Ok(NameTarget::Local)) ==> machine == Ok::<MachineId, AppError>(
                local,
            )
            &&& fleet matches Some(Ok(NameTarget::Peer(peer))) ==> machine == Ok::<
                MachineId,
                AppError,
            >(peer)
            &&& fleet matches Some(Err(error)) ==> (machine matches Err(told) && told@ == error@)
            &&& fleet is None && name->Ok_0@ == local_name@ ==> machine == Ok::<
                MachineId,
                AppError,
            >(local)
            &&& fleet is None && name->Ok_0@ != local_name@ ==> (machine matches Err(error)
                && error@ == (ErrorView::MachineNotFound { machine: selector@ }))
        },
{
}

/// Whether a receipt is one for a message to a recipient: of the right versions and identity, for
/// a real thread in an absolute directory, and for the recipient that was named.
pub open spec fn receipts_message(
    receipt: MessageReceipt,
    id: MessageId,
    protocol: u32,
    recipient: Recipient,
) -> bool {
    &&& receipt.api_version == API_VERSION
    &&& receipt.protocol_version == protocol
    &&& receipt.message_id == id
    &&& receipt.destination_thread.0 != 0
    &&& absolute(receipt.destination_cwd@)
    &&& recipient matches Recipient::Thread { thread } ==> receipt.destination_thread == thread
    &&& recipient matches Recipient::Cwd { cwd } ==> (absolute(cwd@) ==> path_equal(
        receipt.destination_cwd@,
        cwd@,
    ))
}

/// A receipt counts exactly where it is one for the message and its recipient; a remote one must
/// come from the destination too. Otherwise the outcome is unknown, or another machine answered.
pub proof fn receipts_must_match_their_message(
    receipt: MessageReceipt,
    request: MessageSendRequest,
    destination: MachineId,
    protocol: u32,
    recipient: Recipient,
    result: Result<(), AppError>,
    parsed: Result<MessageResponse, String>,
    wire: MessageRequest,
    remote: Result<MessageReceipt, AppError>,
)
    requires
        call_ensures(
            validate_receipt,
            (&receipt, &request, destination, protocol, &recipient),
            result,
        ),
        call_ensures(decode_remote_receipt, (parsed, destination, &wire), remote),
    ensures
        result is Ok <==> receipts_message(receipt, request.message_id, protocol, recipient),
        result matches Err(error) ==> (error@ matches ErrorView::MessageOutcomeUnknown {
            id,
            machine,
            ..
        } && id == request.message_id && machine == destination),
        remote is Ok <==> (parsed matches Ok(response) && response.api_version == API_VERSION
            && response.protocol_version == wire.protocol_version && response.destination_machine
            == destination && receipts_message(
            response.receipt,
            wire.message_id,
            wire.protocol_version,
            wire.recipient,
        )),
        remote matches Ok(told) ==> told == parsed->Ok_0.receipt,
        remote matches Err(error) ==> error@ is MessageOutcomeUnknown || error@ == (
        ErrorView::MachineIdentityMismatch {
            expected: destination,
            found: Some(parsed->Ok_0.destination_machine),
        }),
{
}

/// A message that went to this machine's own receiver, or to another machine, is answered as
/// delivered exactly with a receipt for it.
pub proof fn deliveries_are_answered_by_their_receipt(
    local_wait: AwaitReceipt,
    receipt: MessageReceipt,
    first: SendStep,
    remote_wait: AwaitParsed,
    parsed: Result<MessageResponse, String>,
    decoded: Result<MessageReceipt, AppError>,
    second: SendStep,
    error: AppError,
    failed: SendStep,
)
    requires
        call_ensures(AwaitReceipt::on_receipt, (local_wait, Ok(receipt)), first),
        call_ensures(AwaitReceipt::on_receipt, (local_wait, Err(error)), failed),
        call_ensures(AwaitParsed::on_parsed, (remote_wait, parsed), second),
        call_ensures(
            decode_remote_receipt,
            (parsed, remote_wait.routed.destination, &remote_wait.wire),
            decoded,
        ),
    ensures
        failed matches SendStep::Done(Err(told)) && told == error,
        first matches SendStep::Done(Ok(_)) <==> receipts_message(
            receipt,
            local_wait.routed.request.message_id,
            local_wait.protocol_version,
            local_wait.routed.recipient,
        ),
        first is Done && second is Done,
        first matches SendStep::Done(Ok(told)) ==> told.receipt == receipt && told.message_id
            == local_wait.routed.request.message_id && told.destination_machine
            == local_wait.routed.destination && told.destination_thread
            == receipt.destination_thread && told.destination_cwd == receipt.destination_cwd,
        second matches SendStep::Done(Ok(told)) ==> decoded == Ok::<MessageReceipt, AppError>(
            told.receipt,
        ) && told.message_id == remote_wait.routed.request.message_id && told.destination_machine
            == remote_wait.routed.destination && told.destination_thread
            == told.receipt.destination_thread && receipts_message(
            told.receipt,
            remote_wait.routed.request.message_id,
            remote_wait.wire.protocol_version,
            remote_wait.routed.recipient,
        ),
        decoded matches Ok(found) && receipts_message(
            found,
            remote_wait.routed.request.message_id,
            remote_wait.wire.protocol_version,
            remote_wait.routed.recipient,
        ) ==> second matches SendStep::Done(Ok(_)),
{
}

/// A connected destination is sent the message itself under the connection's protocol; without
/// one the machine is not found. A lost answer leaves the outcome unknown, a refusal is handed on
/// as it came, and only a successful answer is read.
pub proof fn remote_messages_are_posted_as_they_are(
    wait: AwaitConnected,
    connected: Option<Result<u32, AppError>>,
    first: SendStep,
    answer_wait: AwaitAnswer,
    answer: Result<ClusterResponse, String>,
    step: SendStep,
)
    requires
        call_ensures(AwaitConnected::on_connected, (wait, connected), first),
        call_ensures(AwaitAnswer::on_answer, (answer_wait, answer), step),
    ensures
        first is Post <==> connected matches Some(Ok(_)),
        connected is None ==> (first matches SendStep::Done(Err(error)) && error@ == (
        ErrorView::MachineNotFound { machine: hyphenated(wait.routed.destination.0) })),
        connected matches Some(Err(error)) ==> (first matches SendStep::Done(Err(told)) && told
            == error),
        first matches SendStep::Post { request, next } ==> {
            &&& carries_on(request, wait.routed, wait.local)
            &&& connected matches Some(Ok(protocol))
            &&& request.protocol_version == protocol
            &&& next.routed == wait.routed
            &&& next.wire == request
        },
        answer matches Err(message) ==> (step matches SendStep::Done(Err(error)) && error == (
        AppError::MessageOutcomeUnknown {
            id: answer_wait.routed.request.message_id,
            machine: answer_wait.routed.destination,
            message,
        })),
        answer matches Ok(response) ==> {
            &&& step is Parse <==> 200 <= response.status.number() < 300
            &&& step is Refused <==> !(200 <= response.status.number() < 300)
            &&& step matches SendStep::Refused { response: told } ==> told == response
            &&& step matches SendStep::Parse { body, next } ==> body == response.body && next.routed
                == answer_wait.routed && next.wire == answer_wait.wire
        },
{
}

} // verus!
