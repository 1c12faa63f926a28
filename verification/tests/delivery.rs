//! Event delivery, cancellation delivery and keyed locks.

use homebased_daemon::cancel_delivery::{
    decode_acknowledgement, response, Retries, Retry as CancellationRetry,
};
use homebased_daemon::cancellation::{
    CancellationDelivery, CancellationReceipt, CancellationRequest, ExecutorCancelState,
};
use homebased_daemon::cluster::CancelBody;
use homebased_daemon::domain::ProcessStatus;
use homebased_daemon::error::AppError;
use homebased_daemon::event_sender::{
    backoff, event_cleanup_backoff, DeliveryResult, Outbox, Retry, MAX_BACKOFF_SECS,
};
use homebased_daemon::fleet::{ClusterResponse, HttpStatus, API_VERSION};
use homebased_daemon::ids::{CancellationId, MachineId, TaskId};
use homebased_daemon::keyed_locks::KeyedLocks;
use homebased_daemon::peer_read::{parsed_body, read_peer};
use homebased_daemon::time::{Span, Tick};

fn fresh() -> u128 {
    uuid::Uuid::now_v7().as_u128()
}

fn tick(secs: u64) -> Tick {
    Tick { nanos: Span::from_secs(secs).nanos }
}

#[test]
fn retry_delay_is_bounded() {
    assert_eq!(backoff(1), Span::from_secs(1));
    assert_eq!(backoff(4), Span::from_secs(8));
    assert_eq!(backoff(u32::MAX), Span::from_secs(MAX_BACKOFF_SECS));
    let now = tick(1_000);
    let first = Retry::after_failure(None, now);
    assert!(!first.ready(now));
    assert!(first.ready(tick(1_001)));
    let second = Retry::after_failure(Some(first), now);
    assert!(!second.ready(tick(1_001)));
    assert!(second.ready(tick(1_002)));
}

#[test]
fn pauses_never_shrink_as_failures_grow() {
    let mut last = Span::from_secs(0);
    for failures in 0..40 {
        let pause = backoff(failures);
        assert!(pause.nanos >= last.nanos);
        assert!(pause.nanos <= Span::from_secs(MAX_BACKOFF_SECS).nanos);
        last = pause;
    }
    assert!(event_cleanup_backoff(1).nanos <= event_cleanup_backoff(2).nanos);
}

#[test]
fn an_active_or_deferred_task_is_not_started_again() {
    let mut outbox = Outbox::new();
    let task = TaskId(fresh());
    let now = tick(10);
    assert_eq!(outbox.schedule(&vec![task], now), vec![task]);
    assert_eq!(outbox.schedule(&vec![task], now), Vec::<TaskId>::new());
    outbox.finished(task, &DeliveryResult::Retry("refused".to_string()), now);
    assert_eq!(outbox.schedule(&vec![task], now), Vec::<TaskId>::new());
    assert_eq!(outbox.schedule(&vec![task], tick(11)), vec![task]);
    outbox.finished(task, &DeliveryResult::Progress, tick(11));
    assert_eq!(outbox.schedule(&vec![task], tick(11)), vec![task]);
}

fn cancellation() -> CancellationRequest {
    CancellationRequest {
        requester_machine: MachineId(fresh()),
        cancellation: CancellationId(fresh()),
        task: TaskId(fresh()),
        origin_machine: MachineId(fresh()),
        execution_machine: MachineId(fresh()),
        delivery: CancellationDelivery::Pending,
    }
}

fn acknowledgement(request: &CancellationRequest, protocol: u32) -> (Vec<u8>, CancelBody) {
    let body = format!("{{\"api_version\":{API_VERSION},\"protocol_version\":{protocol}}}");
    (
        body.into_bytes(),
        CancelBody {
            api_version: API_VERSION,
            protocol_version: protocol,
            receipt: CancellationReceipt {
                request: request.identity(),
                state: ExecutorCancelState::PendingApplication,
            },
        },
    )
}

#[test]
fn cancellation_acknowledgement_uses_the_selected_protocol_version() {
    let request = cancellation();
    let selected = 2;

    let (body, parsed) = acknowledgement(&request, selected);
    assert_eq!(
        decode_acknowledgement(&body, Ok(parsed), &request, selected).unwrap().request,
        request.identity()
    );
    let (body, parsed) = acknowledgement(&request, 1);
    assert!(matches!(
        decode_acknowledgement(&body, Ok(parsed), &request, selected),
        Err(AppError::ClusterTaskConflict { task }) if task == request.task
    ));
}

#[test]
fn an_acknowledgement_of_another_api_version_is_no_receipt() {
    let request = cancellation();
    let (_, parsed) = acknowledgement(&request, 2);
    assert!(matches!(
        decode_acknowledgement(&b"{\"api_version\":2}".to_vec(), Ok(parsed), &request, 2),
        Err(AppError::MachineUnavailable { message, .. })
            if message == "cancellation acknowledgement uses an unsupported API version"
    ));
    assert!(matches!(
        decode_acknowledgement(&b"{".to_vec(), Ok(parsed), &request, 2),
        Err(AppError::MachineUnavailable { message, .. })
            if message.starts_with("invalid cancellation acknowledgement: EOF")
    ));
    assert!(matches!(
        decode_acknowledgement(
            &b"{\"api_version\":1}".to_vec(),
            Err("missing field".to_string()),
            &request,
            2,
        ),
        Err(AppError::MachineUnavailable { message, .. })
            if message == "invalid cancellation acknowledgement: missing field"
    ));
}

#[test]
fn successive_failures_wait_one_two_four_eight_sixteen_and_thirty_seconds() {
    let mut retry = CancellationRetry::fresh(tick(0));
    for (pause, next) in [(1, 2), (2, 4), (4, 8), (8, 16), (16, 30), (30, 30), (30, 30)] {
        retry.failed(tick(100));
        assert_eq!((retry.next, retry.delay), (tick(100 + pause), Span::from_secs(next)));
    }
    let mut short = CancellationRetry { next: tick(0), delay: Span { nanos: 7 } };
    short.failed(tick(1));
    assert_eq!(short.delay, Span { nanos: 14 });
}

#[test]
fn failed_cancellations_wait_twice_as_long_up_to_half_a_minute() {
    let mut retries = Retries::new();
    let id = CancellationId(fresh());
    assert!(retries.due(id, tick(0)));
    retries.failed(id, tick(0));
    assert!(!retries.due(id, tick(0)));
    assert!(retries.due(id, tick(1)));
    for _ in 0..10 {
        retries.failed(id, tick(100));
    }
    assert!(!retries.due(id, tick(129)));
    assert!(retries.due(id, tick(130)));
    retries.delivered(id);
    assert!(retries.due(id, tick(100)));
}

#[test]
fn a_delivered_cancellation_shows_its_result() {
    let mut request = cancellation();
    assert_eq!(response(&request).delivery, CancellationDelivery::Pending);
    let result = ExecutorCancelState::Applied { status: ProcessStatus::Cancelled };
    request.delivery = CancellationDelivery::Delivered { result };
    let view = response(&request);
    assert_eq!(view.delivery, CancellationDelivery::Delivered { result });
    assert_eq!(view.id, request.task);
    assert_eq!(view.execution_machine, request.execution_machine);
}

#[test]
fn released_keys_leave_no_entries() {
    let mut locks = KeyedLocks::new();
    assert!(locks.enter(1));
    assert!(locks.enter(2));
    assert_eq!(locks.len(), 2);
    assert!(locks.leave(2));
    assert_eq!(locks.len(), 1);
    // a waiter and a guard of one key each refer to it
    assert!(!locks.enter(1));
    assert!(!locks.leave(1));
    assert_eq!(locks.len(), 1);
    assert!(locks.leave(1));
    assert_eq!(locks.len(), 0);
}

fn answer(status: u16, body: &str) -> ClusterResponse {
    ClusterResponse { status: HttpStatus::new(status).unwrap(), body: body.as_bytes().to_vec() }
}

#[test]
fn a_peer_read_needs_success_and_this_api_version() {
    assert_eq!(read_peer(&answer(200, "{\"api_version\":1}")), Ok(()));
    assert_eq!(
        read_peer(&answer(503, "")),
        Err("peer returned HTTP 503 Service Unavailable".to_string())
    );
    assert_eq!(
        read_peer(&answer(200, "{\"api_version\":2}")),
        Err("peer response uses an unsupported API version".to_string())
    );
    assert_eq!(
        read_peer(&answer(200, "{\"api_version\":\"1\"}")),
        Err("peer response uses an unsupported API version".to_string())
    );
    assert!(read_peer(&answer(200, "nope")).unwrap_err().starts_with("invalid peer response: "));
    assert_eq!(parsed_body::<u8>(Ok(3)), Ok(3));
    assert_eq!(
        parsed_body::<u8>(Err("x".to_string())),
        Err("invalid peer response: x".to_string())
    );
    assert!(HttpStatus::new(99).is_none());
    assert!(HttpStatus::new(1000).is_none());
}
