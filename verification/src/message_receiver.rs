//! Durable delivery of direct messages and supervisor notices at their receiver.
//!
//! An attempt is bound to one thread before anything is queued, and its receipt is saved after
//! that. A retry of a receipted message is answered from the receipt, and a retry that waited
//! for another attempt never queues the message itself.

use vstd::prelude::*;
use vstd::string::StringExecFns;
use vstd::utf8::encode_utf8;

use crate::actors::store::StoreMsg;
use crate::error::{internal, AppError, ErrorView};
use crate::fleet::{check_destination, API_VERSION};
use crate::ids::{hyphenated, uuid_text, MachineId, MessageId, ThreadId};
use crate::json::{json_string, string_value};
use crate::message::{
    same_message, MessageAttempt, MessageDelivery, MessageReceipt, MessageRequest, MessageSource,
    Recipient, MESSAGE_BODY_MAX_BYTES,
};
use crate::resource::{SupervisorNoticeReceipt, SupervisorNoticeRequest};
use crate::text::{decimal, decimal_digits, join2};
use crate::time::Timestamp;

pub mod sessions;

verus! {

/// What [`delivery_failed`] gives.
pub open spec fn failed_delivery(id: MessageId) -> ErrorView {
    ErrorView::MessageDeliveryFailed {
        id,
        message: "Codex queue attempt failed; retry the same message UUID explicitly"@,
    }
}

/// A message could not be queued. The cause stays on this machine.
pub fn delivery_failed(message_id: MessageId) -> (error: AppError)
    ensures
        error@ == failed_delivery(message_id),
{
    AppError::MessageDeliveryFailed {
        id: message_id,
        message: "Codex queue attempt failed; retry the same message UUID explicitly".to_owned(),
    }
}

/// What [`attempt_wait_failed`] gives.
pub open spec fn failed_wait(id: MessageId) -> ErrorView {
    ErrorView::MessageDeliveryFailed {
        id,
        message: "another attempt completed without a receipt; retry the same UUID explicitly"@,
    }
}

/// The attempt that this one waited for left no receipt.
pub fn attempt_wait_failed(message_id: MessageId) -> (error: AppError)
    ensures
        error@ == failed_wait(message_id),
{
    AppError::MessageDeliveryFailed {
        id: message_id,
        message:
            "another attempt completed without a receipt; retry the same UUID explicitly".to_owned(),
    }
}

/// What [`notice_delivery_failed`] gives.
pub open spec fn failed_notice(id: MessageId) -> ErrorView {
    ErrorView::MessageDeliveryFailed {
        id,
        message: "Codex queue attempt failed; retry the same delivery attempt UUID explicitly"@,
    }
}

/// A notice could not be queued. The cause stays on this machine.
pub fn notice_delivery_failed(message_id: MessageId) -> (error: AppError)
    ensures
        error@ == failed_notice(message_id),
{
    AppError::MessageDeliveryFailed {
        id: message_id,
        message:
            "Codex queue attempt failed; retry the same delivery attempt UUID explicitly".to_owned(),
    }
}

/// The JSON of a message's sender.
pub open spec fn source_json(source: MessageSource) -> Seq<char> {
    match source {
        MessageSource::Thread { machine, thread } => "{\"kind\":\"thread\",\"machine\":"@
            + json_string(hyphenated(machine.0)) + ",\"thread\":"@ + json_string(
            hyphenated(thread.0),
        ) + "}"@,
        MessageSource::Task { machine, task } => "{\"kind\":\"task\",\"machine\":"@ + json_string(
            hyphenated(machine.0),
        ) + ",\"task\":"@ + json_string(hyphenated(task.0)) + "}"@,
        MessageSource::ResourceNotice { machine, notice_id } =>
            "{\"kind\":\"resource_notice\",\"machine\":"@ + json_string(hyphenated(machine.0))
            + ",\"notice_id\":"@ + json_string(hyphenated(notice_id.0)) + "}"@,
    }
}

fn uuid_json(id: u128) -> (json: String)
    ensures
        json@ == json_string(hyphenated(id)),
{
    let text = uuid_text(id);
    string_value(text.as_str())
}

/// The JSON of a message's sender.
pub fn source_value(source: MessageSource) -> (json: String)
    ensures
        json@ == source_json(source),
{
    let (head, machine, field, id) = match source {
        MessageSource::Thread { machine, thread } => (
            "{\"kind\":\"thread\",\"machine\":",
            machine,
            ",\"thread\":",
            thread.0,
        ),
        MessageSource::Task { machine, task } => (
            "{\"kind\":\"task\",\"machine\":",
            machine,
            ",\"task\":",
            task.0,
        ),
        MessageSource::ResourceNotice { machine, notice_id } => (
            "{\"kind\":\"resource_notice\",\"machine\":",
            machine,
            ",\"notice_id\":",
            notice_id.0,
        ),
    };
    let mut json = head.to_owned();
    json.append(uuid_json(machine.0).as_str());
    json.append(field);
    json.append(uuid_json(id).as_str());
    json.append("}");
    json
}

/// The line that queues a message: a fixed word, then what the thread is told as JSON.
pub open spec fn queued_text(attempt: MessageAttempt) -> Seq<char> {
    "HOMEBASED_MESSAGE "@ + "{\"message_id\":"@ + json_string(
        hyphenated(attempt.request.message_id.0),
    ) + ",\"source\":"@ + source_json(attempt.request.source) + ",\"destination_thread\":"@
        + json_string(hyphenated(attempt.destination_thread.0)) + ",\"body\":"@ + json_string(
        attempt.request.body@,
    ) + ",\"reply_to\":"@ + (match attempt.request.reply_to {
        Some(reply_to) => json_string(hyphenated(reply_to.0)),
        None => "null"@,
    }) + ",\"conversation_id\":"@ + json_string(hyphenated(attempt.request.conversation_id)) + "}"@
}

/// The line that queues a message.
pub fn queued_line(attempt: &MessageAttempt) -> (line: String)
    ensures
        line@ == queued_text(*attempt),
{
    let mut line = "HOMEBASED_MESSAGE ".to_owned();
    line.append("{\"message_id\":");
    line.append(uuid_json(attempt.request.message_id.0).as_str());
    line.append(",\"source\":");
    line.append(source_value(attempt.request.source).as_str());
    line.append(",\"destination_thread\":");
    line.append(uuid_json(attempt.destination_thread.0).as_str());
    line.append(",\"body\":");
    line.append(string_value(attempt.request.body.as_str()).as_str());
    line.append(",\"reply_to\":");
    let reply_to = match attempt.request.reply_to {
        Some(reply_to) => uuid_json(reply_to.0),
        None => "null".to_owned(),
    };
    line.append(reply_to.as_str());
    line.append(",\"conversation_id\":");
    line.append(uuid_json(attempt.request.conversation_id).as_str());
    line.append("}");
    line
}

/// Next part of receiving a message.
#[derive(Debug)]
pub enum MessageStep {
    /// Wait for the only delivery permit of this message.
    AcquirePermit { id: MessageId, next: AwaitPermit },
    AskDelivery { message: StoreMsg, next: AwaitDelivery },
    /// Find the thread and directory of the recipient.
    Resolve { recipient: Recipient, next: AwaitDestination },
    AskBind { message: StoreMsg, next: AwaitBound },
    /// Queue this line for the thread.
    Send { thread: ThreadId, cwd: String, line: String, next: AwaitSent },
    AskCommit { message: StoreMsg, next: AwaitCommitted },
    Done(Result<MessageReceipt, AppError>),
}

/// Waiting for the delivery permit.
#[derive(Debug)]
pub struct AwaitPermit {
    pub request: MessageRequest,
}

/// Waiting for the saved attempt and receipt.
#[derive(Debug)]
pub struct AwaitDelivery {
    pub request: MessageRequest,
    /// Whether another attempt held the permit first.
    pub contended: bool,
}

/// Waiting for the recipient's thread.
#[derive(Debug)]
pub struct AwaitDestination {
    pub request: MessageRequest,
}

/// Waiting for the bound attempt.
#[derive(Debug, Clone, Copy, PartialEq, Eq, Structural)]
pub struct AwaitBound;

/// Waiting for the queue.
#[derive(Debug)]
pub struct AwaitSent {
    pub attempt: MessageAttempt,
}

/// Waiting for the saved receipt.
#[derive(Debug, Clone, Copy, PartialEq, Eq, Structural)]
pub struct AwaitCommitted;

/// Resolve, persist and deliver one explicit message attempt. `valid` is what the request's
/// own validation said.
pub fn receive(request: MessageRequest, valid: Result<(), AppError>) -> (step: MessageStep)
    ensures
        step == (match valid {
            Err(error) => MessageStep::Done(Err(error)),
            Ok(_) => MessageStep::AcquirePermit {
                id: request.message_id,
                next: AwaitPermit { request },
            },
        }),
{
    match valid {
        Err(error) => MessageStep::Done(Err(error)),
        Ok(_) => MessageStep::AcquirePermit {
            id: request.message_id,
            next: AwaitPermit { request },
        },
    }
}

impl AwaitPermit {
    /// Look at what is saved, now that no other attempt runs.
    pub fn on_permit(self, contended: bool) -> (step: MessageStep)
        ensures
            step == (MessageStep::AskDelivery {
                message: StoreMsg::MessageDelivery { id: self.request.message_id },
                next: AwaitDelivery { request: self.request, contended },
            }),
    {
        MessageStep::AskDelivery {
            message: StoreMsg::MessageDelivery { id: self.request.message_id },
            next: AwaitDelivery { request: self.request, contended },
        }
    }
}

/// Whether a step is the right one for what is saved of a message.
pub open spec fn continues(
    request: MessageRequest,
    contended: bool,
    saved: MessageDelivery,
    step: MessageStep,
) -> bool {
    match (saved.attempt, saved.receipt) {
        (Some(attempt), receipt) => if !same_message(attempt.request, request) {
            step == MessageStep::Done(Err(AppError::MessageConflict { id: request.message_id }))
        } else if receipt is Some {
            step == MessageStep::Done(
                Ok(MessageReceipt { protocol_version: request.protocol_version, ..receipt->0 }),
            )
        } else if contended {
            step matches MessageStep::Done(Err(error)) && error@ == failed_wait(
                request.message_id,
            )
        } else {
            step == (MessageStep::AskBind {
                message: StoreMsg::BindMessageAttempt {
                    attempt: MessageAttempt {
                        request: MessageRequest {
                            protocol_version: request.protocol_version,
                            ..attempt.request
                        },
                        ..attempt
                    },
                },
                next: AwaitBound,
            })
        },
        (None, Some(_)) => step matches MessageStep::Done(Err(error)) && error@ == (
        ErrorView::Internal { message: "message receipt has no saved attempt"@ }),
        (None, None) => step == (MessageStep::Resolve {
            recipient: request.recipient,
            next: AwaitDestination { request },
        }),
    }
}

impl AwaitDelivery {
    /// A saved receipt answers; a saved attempt keeps its thread; only a new message is
    /// resolved.
    pub fn on_delivery(self, reply: Result<MessageDelivery, AppError>) -> (step: MessageStep)
        ensures
            match reply {
                Err(error) => step == MessageStep::Done(Err(error)),
                Ok(saved) => continues(self.request, self.contended, saved, step),
            },
    {
        let saved = match reply {
            Ok(saved) => saved,
            Err(error) => {
                return MessageStep::Done(Err(error));
            },
        };
        let request = self.request;
        match saved.attempt {
            Some(attempt) => {
                if !attempt.request.same_identity(&request) {
                    return MessageStep::Done(
                        Err(AppError::MessageConflict { id: request.message_id }),
                    );
                }
                if let Some(receipt) = saved.receipt {
                    return MessageStep::Done(
                        Ok(receipt.for_protocol_version(request.protocol_version)),
                    );
                }
                if self.contended {
                    return MessageStep::Done(Err(attempt_wait_failed(request.message_id)));
                }
                let mut attempt = attempt;
                attempt.request.protocol_version = request.protocol_version;
                MessageStep::AskBind {
                    message: StoreMsg::BindMessageAttempt { attempt },
                    next: AwaitBound,
                }
            },
            None => {
                if saved.receipt.is_some() {
                    return MessageStep::Done(
                        Err(internal("message receipt has no saved attempt")),
                    );
                }
                MessageStep::Resolve {
                    recipient: request.recipient.clone(),
                    next: AwaitDestination { request },
                }
            },
        }
    }
}

impl AwaitDestination {
    /// Bind a new message to its thread before anything is queued.
    pub fn on_destination(self, resolved: Result<(ThreadId, String), AppError>) -> (step:
        MessageStep)
        ensures
            step == (match resolved {
                Err(error) => MessageStep::Done(Err(error)),
                Ok((thread, cwd)) => MessageStep::AskBind {
                    message: StoreMsg::BindMessageAttempt {
                        attempt: MessageAttempt {
                            request: self.request,
                            destination_thread: thread,
                            destination_cwd: cwd,
                        },
                    },
                    next: AwaitBound,
                },
            }),
    {
        match resolved {
            Err(error) => MessageStep::Done(Err(error)),
            Ok((thread, cwd)) => MessageStep::AskBind {
                message: StoreMsg::BindMessageAttempt {
                    attempt: MessageAttempt {
                        request: self.request,
                        destination_thread: thread,
                        destination_cwd: cwd,
                    },
                },
                next: AwaitBound,
            },
        }
    }
}

impl AwaitBound {
    /// Queue the message for the thread that the saved attempt names.
    pub fn on_bound(self, reply: Result<MessageAttempt, AppError>) -> (step: MessageStep)
        ensures
            match reply {
                Err(error) => step == MessageStep::Done(Err(error)),
                Ok(attempt) => {
                    &&& step matches MessageStep::Send { thread, cwd, line, next }
                    &&& thread == attempt.destination_thread
                    &&& cwd == attempt.destination_cwd
                    &&& line@ == queued_text(attempt)
                    &&& next == (AwaitSent { attempt })
                },
            },
    {
        match reply {
            Err(error) => MessageStep::Done(Err(error)),
            Ok(attempt) => {
                let line = queued_line(&attempt);
                MessageStep::Send {
                    thread: attempt.destination_thread,
                    cwd: attempt.destination_cwd.clone(),
                    line,
                    next: AwaitSent { attempt },
                }
            },
        }
    }
}

impl AwaitSent {
    /// Save a receipt of what was queued; a failure is for the sender to retry.
    pub fn on_sent(self, sent: Result<(), String>, now: Timestamp) -> (step: MessageStep)
        ensures
            match sent {
                Err(_) => step matches MessageStep::Done(Err(error)) && error@ == failed_delivery(
                    self.attempt.request.message_id,
                ),
                Ok(_) => step == (MessageStep::AskCommit {
                    message: StoreMsg::CommitMessageReceipt {
                        receipt: MessageReceipt {
                            api_version: API_VERSION,
                            protocol_version: self.attempt.request.protocol_version,
                            message_id: self.attempt.request.message_id,
                            destination_thread: self.attempt.destination_thread,
                            destination_cwd: self.attempt.destination_cwd,
                            delivered_at: now,
                        },
                    },
                    next: AwaitCommitted,
                }),
            },
    {
        match sent {
            Err(_) => MessageStep::Done(Err(delivery_failed(self.attempt.request.message_id))),
            Ok(_) => MessageStep::AskCommit {
                message: StoreMsg::CommitMessageReceipt {
                    receipt: MessageReceipt {
                        api_version: API_VERSION,
                        protocol_version: self.attempt.request.protocol_version,
                        message_id: self.attempt.request.message_id,
                        destination_thread: self.attempt.destination_thread,
                        destination_cwd: self.attempt.destination_cwd,
                        delivered_at: now,
                    },
                },
                next: AwaitCommitted,
            },
        }
    }
}

impl AwaitCommitted {
    /// Answer with the saved receipt.
    pub fn on_committed(self, reply: Result<MessageReceipt, AppError>) -> (step: MessageStep)
        ensures
            step == MessageStep::Done(reply),
    {
        MessageStep::Done(reply)
    }
}

/// A message that has a receipt is never queued again, and an attempt that waited for another
/// one never queues a bound message itself: both are answered at once.
pub proof fn waiting_retries_queue_nothing(
    request: MessageRequest,
    contended: bool,
    saved: MessageDelivery,
    step: MessageStep,
)
    requires
        continues(request, contended, saved, step),
    ensures
        saved.receipt is Some ==> step is Done,
        contended && saved.attempt is Some ==> step is Done,
        saved.attempt matches Some(attempt) && !same_message(attempt.request, request) ==> step
            is Done,
{
}

/// A retry keeps the thread and directory that the first attempt was bound to.
pub proof fn retries_keep_their_thread(
    request: MessageRequest,
    contended: bool,
    saved: MessageDelivery,
    step: MessageStep,
)
    requires
        continues(request, contended, saved, step),
        saved.attempt is Some,
    ensures
        !(step is Resolve),
        step matches MessageStep::AskBind { message, .. } ==> {
            &&& message matches StoreMsg::BindMessageAttempt { attempt }
            &&& attempt.destination_thread == saved.attempt->0.destination_thread
            &&& attempt.destination_cwd == saved.attempt->0.destination_cwd
            &&& same_message(attempt.request, request)
        },
{
}

/// The JSON of a supervisor notice.
pub open spec fn notice_json(request: SupervisorNoticeRequest) -> Seq<char> {
    "{\"api_version\":"@ + decimal_digits(request.api_version as nat) + ",\"protocol_version\":"@
        + decimal_digits(request.protocol_version as nat) + ",\"source_machine\":"@ + json_string(
        hyphenated(request.source_machine.0),
    ) + ",\"destination\":{\"machine\":"@ + json_string(hyphenated(request.destination.machine.0))
        + ",\"thread\":"@ + json_string(hyphenated(request.destination.thread.0))
        + "},\"notice_id\":"@ + json_string(hyphenated(request.notice_id.0)) + ",\"loan_id\":"@
        + json_string(hyphenated(request.loan_id.0)) + ",\"action_id\":"@ + json_string(
        hyphenated(request.action_id.0),
    ) + ",\"state_revision\":"@ + decimal_digits(request.state_revision.0 as nat)
        + ",\"assignment_revision\":"@ + decimal_digits(request.assignment_revision.0 as nat)
        + ",\"attempt_id\":"@ + json_string(hyphenated(request.attempt_id.0)) + ",\"payload\":"@
        + request.payload@ + "}"@
}

/// The JSON of a supervisor notice.
pub fn notice_value(request: &SupervisorNoticeRequest) -> (json: String)
    ensures
        json@ == notice_json(*request),
{
    let mut json = "{\"api_version\":".to_owned();
    json.append(decimal(request.api_version as u64).as_str());
    json.append(",\"protocol_version\":");
    json.append(decimal(request.protocol_version as u64).as_str());
    json.append(",\"source_machine\":");
    json.append(uuid_json(request.source_machine.0).as_str());
    json.append(",\"destination\":{\"machine\":");
    json.append(uuid_json(request.destination.machine.0).as_str());
    json.append(",\"thread\":");
    json.append(uuid_json(request.destination.thread.0).as_str());
    json.append("},\"notice_id\":");
    json.append(uuid_json(request.notice_id.0).as_str());
    json.append(",\"loan_id\":");
    json.append(uuid_json(request.loan_id.0).as_str());
    json.append(",\"action_id\":");
    json.append(uuid_json(request.action_id.0).as_str());
    json.append(",\"state_revision\":");
    json.append(decimal(request.state_revision.0).as_str());
    json.append(",\"assignment_revision\":");
    json.append(decimal(request.assignment_revision.0).as_str());
    json.append(",\"attempt_id\":");
    json.append(uuid_json(request.attempt_id.0).as_str());
    json.append(",\"payload\":");
    json.append(request.payload.as_str());
    json.append("}");
    json
}

/// Whether a request is the durable one behind a supervisor notice: the exact notice is its
/// content, and the notice is its sender.
pub open spec fn backs(request: MessageRequest, notice: SupervisorNoticeRequest) -> bool {
    &&& request.api_version == notice.api_version
    &&& request.protocol_version == notice.protocol_version
    &&& request.message_id == MessageId(notice.attempt_id.0)
    &&& request.destination_machine == notice.destination.machine
    &&& request.source == (MessageSource::ResourceNotice {
        machine: notice.source_machine,
        notice_id: notice.notice_id,
    })
    &&& request.recipient == (Recipient::Thread { thread: notice.destination.thread })
    &&& request.body@ == notice_json(notice)
    &&& request.reply_to is None
    &&& request.conversation_id == notice.notice_id.0
}

/// Why a notice has no durable request, if it has none.
pub open spec fn backing_refused(notice: SupervisorNoticeRequest) -> Option<ErrorView> {
    if notice.attempt_id.0 == 0 {
        Some(ErrorView::MessageInvalid { message: "message identity must not be nil"@ })
    } else if encode_utf8(notice_json(notice)).len() > MESSAGE_BODY_MAX_BYTES {
        Some(
            ErrorView::MessageInvalid {
                message: "supervisor notice request exceeds "@ + decimal_digits(
                    MESSAGE_BODY_MAX_BYTES as nat,
                ) + " UTF-8 bytes"@,
            },
        )
    } else {
        None
    }
}

/// The durable request behind a supervisor notice.
pub fn notice_backing_request(request: &SupervisorNoticeRequest) -> (backing: Result<
    MessageRequest,
    AppError,
>)
    ensures
        match backing_refused(*request) {
            Some(error) => backing matches Err(found) && found@ == error,
            None => backing matches Ok(backing) && backs(backing, *request),
        },
{
    let message_id = match MessageId::from_uuid(request.attempt_id.0) {
        Ok(id) => id,
        Err(_) => {
            return Err(
                AppError::MessageInvalid {
                    message: "message identity must not be nil".to_owned(),
                },
            );
        },
    };
    let body = notice_value(request);
    if body.as_str().as_bytes().len() > MESSAGE_BODY_MAX_BYTES {
        let limit = decimal(MESSAGE_BODY_MAX_BYTES as u64);
        return Err(
            AppError::MessageInvalid {
                message: crate::text::join3(
                    "supervisor notice request exceeds ",
                    limit.as_str(),
                    " UTF-8 bytes",
                ),
            },
        );
    }
    Ok(
        MessageRequest {
            api_version: request.api_version,
            protocol_version: request.protocol_version,
            message_id,
            destination_machine: request.destination.machine,
            source: MessageSource::ResourceNotice {
                machine: request.source_machine,
                notice_id: request.notice_id,
            },
            recipient: Recipient::Thread { thread: request.destination.thread },
            body,
            reply_to: None,
            conversation_id: request.notice_id.0,
        },
    )
}

/// Whether a saved receipt is that of a notice's attempt.
pub open spec fn receipts(receipt: MessageReceipt, notice: SupervisorNoticeRequest) -> bool {
    &&& receipt.message_id.0 == notice.attempt_id.0
    &&& receipt.api_version == API_VERSION
    &&& receipt.protocol_version == notice.protocol_version
    &&& receipt.destination_thread == notice.destination.thread
}

/// Whether an answer is the one to a notice whose attempt has this receipt.
pub open spec fn notice_answered(
    notice: SupervisorNoticeRequest,
    receipt: MessageReceipt,
    answer: Result<SupervisorNoticeReceipt, AppError>,
) -> bool {
    if receipts(receipt, notice) {
        answer == Ok::<SupervisorNoticeReceipt, AppError>(
            SupervisorNoticeReceipt {
                api_version: receipt.api_version,
                protocol_version: receipt.protocol_version,
                notice_id: notice.notice_id,
                attempt_id: notice.attempt_id,
                destination_machine: notice.destination.machine,
                destination_thread: receipt.destination_thread,
                delivered_at: receipt.delivered_at,
            },
        )
    } else {
        answer matches Err(error) && error@ == (ErrorView::Internal {
            message: "saved supervisor notice receipt does not match its attempt"@,
        })
    }
}

/// The answer to a notice whose attempt has this receipt.
pub fn supervisor_notice_receipt(request: &SupervisorNoticeRequest, receipt: MessageReceipt) -> (answer:
    Result<SupervisorNoticeReceipt, AppError>)
    ensures
        notice_answered(*request, receipt, answer),
{
    if receipt.message_id.0 != request.attempt_id.0 || receipt.api_version != API_VERSION
        || receipt.protocol_version != request.protocol_version || receipt.destination_thread
        != request.destination.thread {
        return Err(internal("saved supervisor notice receipt does not match its attempt"));
    }
    Ok(
        SupervisorNoticeReceipt {
            api_version: receipt.api_version,
            protocol_version: receipt.protocol_version,
            notice_id: request.notice_id,
            attempt_id: request.attempt_id,
            destination_machine: request.destination.machine,
            destination_thread: receipt.destination_thread,
            delivered_at: receipt.delivered_at,
        },
    )
}

/// Next part of receiving a supervisor notice.
#[derive(Debug)]
pub enum NoticeStep {
    /// Wait for the only delivery permit of this attempt.
    AcquirePermit { id: MessageId, next: AwaitNoticePermit },
    AskDelivery { message: StoreMsg, next: AwaitNoticeDelivery },
    /// Find the thread and its directory.
    Resolve { recipient: Recipient, next: AwaitNoticeDestination },
    AskBind { message: StoreMsg, next: AwaitNoticeBound },
    /// Queue this line for the thread.
    Send { thread: ThreadId, cwd: String, line: String, next: AwaitNoticeSent },
    AskCommit { message: StoreMsg, next: AwaitNoticeCommitted },
    Done(Result<SupervisorNoticeReceipt, AppError>),
}

/// Waiting for the delivery permit.
#[derive(Debug)]
pub struct AwaitNoticePermit {
    pub notice: SupervisorNoticeRequest,
    pub backing: MessageRequest,
}

/// Waiting for the saved attempt and receipt.
#[derive(Debug)]
pub struct AwaitNoticeDelivery {
    pub notice: SupervisorNoticeRequest,
    pub backing: MessageRequest,
    /// Whether another attempt held the permit first.
    pub contended: bool,
}

/// Waiting for the thread's directory.
#[derive(Debug)]
pub struct AwaitNoticeDestination {
    pub notice: SupervisorNoticeRequest,
    pub backing: MessageRequest,
}

/// Waiting for the bound attempt.
#[derive(Debug)]
pub struct AwaitNoticeBound {
    pub notice: SupervisorNoticeRequest,
    pub message_id: MessageId,
}

/// Waiting for the queue.
#[derive(Debug)]
pub struct AwaitNoticeSent {
    pub notice: SupervisorNoticeRequest,
    pub message_id: MessageId,
    pub thread: ThreadId,
    pub cwd: String,
}

/// Waiting for the saved receipt.
#[derive(Debug)]
pub struct AwaitNoticeCommitted {
    pub notice: SupervisorNoticeRequest,
}

/// Resolve, persist and deliver one exact supervisor-notice attempt. `valid` is what the
/// notice's own validation said.
pub fn receive_supervisor_notice(
    local: MachineId,
    notice: SupervisorNoticeRequest,
    valid: Result<(), AppError>,
) -> (step: NoticeStep)
    ensures
        match valid {
            Err(error) => step == NoticeStep::Done(Err(error)),
            Ok(_) => if notice.destination.machine != local {
                step matches NoticeStep::Done(Err(error)) && error@ == (
                ErrorView::MachineIdentityMismatch {
                    expected: notice.destination.machine,
                    found: Some(local),
                })
            } else {
                match backing_refused(notice) {
                    Some(error) => step matches NoticeStep::Done(Err(found)) && found@ == error,
                    None => {
                        &&& step matches NoticeStep::AcquirePermit { id, next }
                        &&& id == MessageId(notice.attempt_id.0)
                        &&& next.notice == notice
                        &&& backs(next.backing, notice)
                    },
                }
            },
        },
{
    if let Err(error) = valid {
        return NoticeStep::Done(Err(error));
    }
    match check_destination(local, notice.destination.machine) {
        Err(error) => {
            return NoticeStep::Done(Err(error));
        },
        Ok(_) => {},
    }
    match notice_backing_request(&notice) {
        Err(error) => NoticeStep::Done(Err(error)),
        Ok(backing) => NoticeStep::AcquirePermit {
            id: backing.message_id,
            next: AwaitNoticePermit { notice, backing },
        },
    }
}

impl AwaitNoticePermit {
    /// Look at what is saved, now that no other attempt runs.
    pub fn on_permit(self, contended: bool) -> (step: NoticeStep)
        ensures
            step == (NoticeStep::AskDelivery {
                message: StoreMsg::MessageDelivery { id: self.backing.message_id },
                next: AwaitNoticeDelivery {
                    notice: self.notice,
                    backing: self.backing,
                    contended,
                },
            }),
    {
        NoticeStep::AskDelivery {
            message: StoreMsg::MessageDelivery { id: self.backing.message_id },
            next: AwaitNoticeDelivery { notice: self.notice, backing: self.backing, contended },
        }
    }
}

/// Whether a step is the right one for what is saved of a notice's attempt.
pub open spec fn notice_continues(
    notice: SupervisorNoticeRequest,
    backing: MessageRequest,
    contended: bool,
    saved: MessageDelivery,
    step: NoticeStep,
) -> bool {
    match (saved.attempt, saved.receipt) {
        (Some(attempt), receipt) => if !same_message(attempt.request, backing) {
            step == NoticeStep::Done(Err(AppError::MessageConflict { id: backing.message_id }))
        } else if attempt.destination_thread != notice.destination.thread {
            step matches NoticeStep::Done(Err(error)) && error@ == (ErrorView::Internal {
                message: "saved supervisor notice attempt has a different thread"@,
            })
        } else if receipt is Some {
            step matches NoticeStep::Done(answer) && notice_answered(
                notice,
                MessageReceipt { protocol_version: notice.protocol_version, ..receipt->0 },
                answer,
            )
        } else if contended {
            step matches NoticeStep::Done(Err(error)) && error@ == failed_wait(backing.message_id)
        } else {
            step == (NoticeStep::AskBind {
                message: StoreMsg::BindMessageAttempt {
                    attempt: MessageAttempt { request: backing, ..attempt },
                },
                next: AwaitNoticeBound { notice, message_id: backing.message_id },
            })
        },
        (None, Some(_)) => step matches NoticeStep::Done(Err(error)) && error@ == (
        ErrorView::Internal { message: "message receipt has no saved attempt"@ }),
        (None, None) => step == (NoticeStep::Resolve {
            recipient: Recipient::Thread { thread: notice.destination.thread },
            next: AwaitNoticeDestination { notice, backing },
        }),
    }
}

impl AwaitNoticeDelivery {
    /// A saved receipt answers; a saved attempt is taken up again; only a new one is resolved.
    pub fn on_delivery(self, reply: Result<MessageDelivery, AppError>) -> (step: NoticeStep)
        ensures
            match reply {
                Err(error) => step == NoticeStep::Done(Err(error)),
                Ok(saved) => notice_continues(
                    self.notice,
                    self.backing,
                    self.contended,
                    saved,
                    step,
                ),
            },
    {
        let saved = match reply {
            Ok(saved) => saved,
            Err(error) => {
                return NoticeStep::Done(Err(error));
            },
        };
        let message_id = self.backing.message_id;
        match saved.attempt {
            Some(attempt) => {
                if !attempt.request.same_identity(&self.backing) {
                    return NoticeStep::Done(Err(AppError::MessageConflict { id: message_id }));
                }
                if attempt.destination_thread != self.notice.destination.thread {
                    return NoticeStep::Done(
                        Err(internal("saved supervisor notice attempt has a different thread")),
                    );
                }
                if let Some(receipt) = saved.receipt {
                    let receipt = receipt.for_protocol_version(self.notice.protocol_version);
                    return NoticeStep::Done(supervisor_notice_receipt(&self.notice, receipt));
                }
                if self.contended {
                    return NoticeStep::Done(Err(attempt_wait_failed(message_id)));
                }
                let mut attempt = attempt;
                attempt.request = self.backing;
                NoticeStep::AskBind {
                    message: StoreMsg::BindMessageAttempt { attempt },
                    next: AwaitNoticeBound { notice: self.notice, message_id },
                }
            },
            None => {
                if saved.receipt.is_some() {
                    return NoticeStep::Done(
                        Err(internal("message receipt has no saved attempt")),
                    );
                }
                NoticeStep::Resolve {
                    recipient: Recipient::Thread { thread: self.notice.destination.thread },
                    next: AwaitNoticeDestination { notice: self.notice, backing: self.backing },
                }
            },
        }
    }
}

impl AwaitNoticeDestination {
    /// Bind a new attempt, but only to the thread that the notice names.
    pub fn on_destination(self, resolved: Result<(ThreadId, String), AppError>) -> (step:
        NoticeStep)
        ensures
            match resolved {
                Err(error) => step == NoticeStep::Done(Err(error)),
                Ok((thread, cwd)) => if thread != self.notice.destination.thread {
                    step matches NoticeStep::Done(Err(error)) && error@ == (ErrorView::Internal {
                        message: "supervisor notice resolved to a different thread"@,
                    })
                } else {
                    step == (NoticeStep::AskBind {
                        message: StoreMsg::BindMessageAttempt {
                            attempt: MessageAttempt {
                                request: self.backing,
                                destination_thread: thread,
                                destination_cwd: cwd,
                            },
                        },
                        next: AwaitNoticeBound {
                            notice: self.notice,
                            message_id: self.backing.message_id,
                        },
                    })
                },
            },
    {
        match resolved {
            Err(error) => NoticeStep::Done(Err(error)),
            Ok((thread, cwd)) => {
                if thread != self.notice.destination.thread {
                    return NoticeStep::Done(
                        Err(internal("supervisor notice resolved to a different thread")),
                    );
                }
                let message_id = self.backing.message_id;
                NoticeStep::AskBind {
                    message: StoreMsg::BindMessageAttempt {
                        attempt: MessageAttempt {
                            request: self.backing,
                            destination_thread: thread,
                            destination_cwd: cwd,
                        },
                    },
                    next: AwaitNoticeBound { notice: self.notice, message_id },
                }
            },
        }
    }
}

impl AwaitNoticeBound {
    /// Queue the notice for the thread that the saved attempt names.
    pub fn on_bound(self, reply: Result<MessageAttempt, AppError>) -> (step: NoticeStep)
        ensures
            match reply {
                Err(error) => step == NoticeStep::Done(Err(error)),
                Ok(attempt) => {
                    &&& step matches NoticeStep::Send { thread, cwd, line, next }
                    &&& thread == attempt.destination_thread
                    &&& cwd == attempt.destination_cwd
                    &&& line@ == "HOMEBASED_RESOURCE_NOTICE "@ + notice_json(self.notice)
                    &&& next == (AwaitNoticeSent {
                        notice: self.notice,
                        message_id: self.message_id,
                        thread: attempt.destination_thread,
                        cwd: attempt.destination_cwd,
                    })
                },
            },
    {
        match reply {
            Err(error) => NoticeStep::Done(Err(error)),
            Ok(attempt) => {
                let payload = notice_value(&self.notice);
                NoticeStep::Send {
                    thread: attempt.destination_thread,
                    cwd: attempt.destination_cwd.clone(),
                    line: join2("HOMEBASED_RESOURCE_NOTICE ", payload.as_str()),
                    next: AwaitNoticeSent {
                        notice: self.notice,
                        message_id: self.message_id,
                        thread: attempt.destination_thread,
                        cwd: attempt.destination_cwd,
                    },
                }
            },
        }
    }
}

impl AwaitNoticeSent {
    /// Save a receipt of what was queued; a failure is for the sender to retry.
    pub fn on_sent(self, sent: Result<(), String>, now: Timestamp) -> (step: NoticeStep)
        ensures
            match sent {
                Err(_) => step matches NoticeStep::Done(Err(error)) && error@ == failed_notice(
                    self.message_id,
                ),
                Ok(_) => step == (NoticeStep::AskCommit {
                    message: StoreMsg::CommitMessageReceipt {
                        receipt: MessageReceipt {
                            api_version: API_VERSION,
                            protocol_version: self.notice.protocol_version,
                            message_id: self.message_id,
                            destination_thread: self.thread,
                            destination_cwd: self.cwd,
                            delivered_at: now,
                        },
                    },
                    next: AwaitNoticeCommitted { notice: self.notice },
                }),
            },
    {
        match sent {
            Err(_) => NoticeStep::Done(Err(notice_delivery_failed(self.message_id))),
            Ok(_) => NoticeStep::AskCommit {
                message: StoreMsg::CommitMessageReceipt {
                    receipt: MessageReceipt {
                        api_version: API_VERSION,
                        protocol_version: self.notice.protocol_version,
                        message_id: self.message_id,
                        destination_thread: self.thread,
                        destination_cwd: self.cwd,
                        delivered_at: now,
                    },
                },
                next: AwaitNoticeCommitted { notice: self.notice },
            },
        }
    }
}

impl AwaitNoticeCommitted {
    /// Answer with the saved receipt, as one of the notice.
    pub fn on_committed(self, reply: Result<MessageReceipt, AppError>) -> (step: NoticeStep)
        ensures
            match reply {
                Err(error) => step == NoticeStep::Done(Err(error)),
                Ok(receipt) => step matches NoticeStep::Done(answer) && notice_answered(
                    self.notice,
                    receipt,
                    answer,
                ),
            },
    {
        match reply {
            Err(error) => NoticeStep::Done(Err(error)),
            Ok(receipt) => NoticeStep::Done(supervisor_notice_receipt(&self.notice, receipt)),
        }
    }
}

/// A notice that has a receipt is never queued again, an attempt that waited for another one
/// never queues a bound notice itself, and a notice never reaches another thread.
pub proof fn notices_reach_their_thread_once(
    notice: SupervisorNoticeRequest,
    backing: MessageRequest,
    contended: bool,
    saved: MessageDelivery,
    step: NoticeStep,
)
    requires
        notice_continues(notice, backing, contended, saved, step),
    ensures
        saved.receipt is Some ==> step is Done,
        contended && saved.attempt is Some ==> step is Done,
        step matches NoticeStep::AskBind { message, .. } ==> {
            &&& message matches StoreMsg::BindMessageAttempt { attempt }
            &&& attempt.destination_thread == notice.destination.thread
        },
        step matches NoticeStep::Done(Ok(receipt)) ==> receipt.destination_thread
            == notice.destination.thread && receipt.attempt_id == notice.attempt_id,
{
}

} // verus!
