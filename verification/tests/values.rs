//! Identities, paths, tables and content requests.

use homebased_daemon::content::{
    map_io, mirror_path, serve_regular_file, FileFailure, FileKind, PathToken, ServeStep,
};
use homebased_daemon::domain::ProcessStatus;
use homebased_daemon::error::AppError;
use homebased_daemon::ids::{
    ActionId, MachineId, MessageId, NilIdentity, RequestId, ResourceId, TaskId, ThreadId,
};
use homebased_daemon::path::{contains_segment, is_absolute, join};
use homebased_daemon::release_watcher_api::{
    poll_request, poll_response, ReleaseWatcherCommand, ReleaseWatcherPollOutcome,
    ReleaseWatcherPollRequest,
};
use homebased_daemon::resource::ResourceRevision;
use homebased_daemon::text::{decimal, same_text, strip_prefix};
use homebased_daemon::time::{Span, Tick, Timestamp};

#[test]
fn an_identity_reads_back_from_its_text() {
    let id = uuid::Uuid::now_v7();
    let text = id.to_string();
    assert_eq!(TaskId::parse(&text), Some(TaskId(id.as_u128())));
    assert_eq!(TaskId(id.as_u128()).text(), text);
    assert_eq!(MachineId::parse(&MachineId(id.as_u128()).text()), Some(MachineId(id.as_u128())));
    assert_eq!(ThreadId::parse(&ThreadId(id.as_u128()).text()), Some(ThreadId(id.as_u128())));
    assert_eq!(RequestId(u128::MAX).text(), "ffffffff-ffff-ffff-ffff-ffffffffffff");
    assert_eq!(
        TaskId(0x0123_4567_89ab_cdef_0fed_cba9_8765_4321).text(),
        "01234567-89ab-cdef-0fed-cba987654321"
    );
    assert_eq!(MachineId::parse("not an identity"), None);
    assert_eq!(ResourceId::from_uuid(0), Err(NilIdentity));
    assert_eq!(ResourceId::from_uuid(9), Ok(ResourceId(9)));
    assert_eq!(MessageId::from_uuid(0), Err(NilIdentity));
    assert!(ThreadId(0).is_nil());
}

#[test]
fn stored_names_read_back_as_their_state() {
    for status in [
        ProcessStatus::Queued,
        ProcessStatus::Running,
        ProcessStatus::Succeeded,
        ProcessStatus::Failed,
        ProcessStatus::Cancelled,
        ProcessStatus::Lost,
    ] {
        assert_eq!(ProcessStatus::from_storage(status.as_str()), Some(status));
    }
    assert_eq!(ProcessStatus::from_storage("Queued"), None);
    assert!(ProcessStatus::Lost.is_terminal() && !ProcessStatus::Running.is_terminal());
}

fn message<T>(result: Result<T, AppError>) -> String {
    match result {
        Err(AppError::Usage { message }) => message,
        _ => panic!("expected a usage error"),
    }
}

#[test]
fn a_mirrored_path_is_absolute_and_plain() {
    assert_eq!(mirror_path("home/u/a..b.txt").unwrap(), "/home/u/a..b.txt");
    assert_eq!(mirror_path("///home/u").unwrap(), "/home/u");
    let once = mirror_path("//srv/file").unwrap();
    assert_eq!(mirror_path(&once).unwrap(), once);
    assert_eq!(message(mirror_path("")), "path must be absolute");
    assert_eq!(message(mirror_path("//")), "path must be absolute");
    for refused in ["home/../etc", "..", "./a", "a/.", "a/..", "a/./b"] {
        assert_eq!(
            message(mirror_path(refused)),
            "path must not contain '.' or '..' segments"
        );
    }
    assert_eq!(message(PathToken::from_raw(String::new())), "missing path token");
    assert_eq!(PathToken::from_raw("abc".into()).unwrap().encoded, "abc");
}

#[test]
fn only_regular_files_are_served() {
    assert_eq!(serve_regular_file(FileKind::Regular, "/a").unwrap(), ServeStep::Stream);
    assert_eq!(serve_regular_file(FileKind::Link, "/a").unwrap(), ServeStep::Resolve);
    assert!(matches!(
        serve_regular_file(FileKind::Directory, "/a"),
        Err(AppError::UnsupportedFile { message }) if message == "/a is a directory"
    ));
    assert!(matches!(
        serve_regular_file(FileKind::Special, "/a"),
        Err(AppError::UnsupportedFile { message }) if message == "special files are not browsable"
    ));
    assert!(matches!(
        map_io("/a", FileFailure::NotFound),
        AppError::FileNotFound { message } if message == "/a not found"
    ));
    assert!(matches!(
        map_io("/a", FileFailure::PermissionDenied),
        AppError::Permission { message } if message == "permission denied: /a"
    ));
    assert!(matches!(
        map_io("/a", FileFailure::Other("broken".into())),
        AppError::Internal { message } if message == "/a: broken"
    ));
}

#[test]
fn paths_join_by_their_slashes() {
    assert_eq!(join("/home/u", "repo"), "/home/u/repo");
    assert_eq!(join("/home/u/", "repo"), "/home/u/repo");
    assert_eq!(join("/home/u", "/srv"), "/srv");
    assert_eq!(join("", "repo"), "repo");
    assert!(is_absolute("/") && !is_absolute("a/") && !is_absolute(""));
    assert!(contains_segment("a/../b", "..") && !contains_segment("a..b", ".."));
}

#[test]
fn texts_are_compared_and_numbered() {
    assert!(same_text("é", "é") && !same_text("a", "ab"));
    assert_eq!(strip_prefix("homebased.x", "homebased."), Some("x"));
    assert_eq!(strip_prefix("home", "homebased."), None);
    assert_eq!(decimal(0), "0");
    assert_eq!(decimal(u64::MAX), "18446744073709551615");
}

#[test]
fn clocks_never_run_backwards() {
    let at = |secs, nanos| Timestamp::new(secs, nanos).unwrap();
    assert!(Timestamp::new(0, 1_000_000_000).is_none());
    assert_eq!(at(2, 5).elapsed_since(at(1, 6)), Span { nanos: 999_999_999 });
    assert!(at(1, 0).elapsed_since(at(2, 0)).is_zero());
    assert!(at(-1, 0).after(at(-2, 999_999_999)));
    assert_eq!(Tick { nanos: u128::MAX }.checked_after(Span { nanos: 1 }), None);
}

fn poll(protocol_version: u32) -> ReleaseWatcherPollRequest {
    ReleaseWatcherPollRequest {
        protocol_version,
        watcher: ReleaseWatcherCommand {
            resource_id: ResourceId(1),
            action_id: ActionId(2),
            state_revision: ResourceRevision(3),
            trainer_task_id: TaskId(4),
            watcher_task_id: TaskId(5),
        },
    }
}

#[test]
fn a_poll_speaks_the_watcher_protocol() {
    assert_eq!(poll_request(Ok(poll(1))).unwrap().watcher.watcher_task_id, TaskId(5));
    assert_eq!(
        message(poll_request(Ok(poll(12)))),
        "unsupported release watcher protocol version 12"
    );
    assert_eq!(
        message(poll_request(Err("missing field".into()))),
        "invalid release watcher poll: missing field"
    );
    let answer = poll_response(Ok(Ok(ReleaseWatcherPollOutcome::TrainerCompleted))).unwrap();
    assert_eq!(answer.protocol_version, 1);
    assert!(matches!(
        poll_response(Ok(Err("busy".into()))),
        Err(AppError::Internal { message })
            if message == "release watcher poll storage: busy"
    ));
    let lost = AppError::Usage { message: "gone".into() };
    assert_eq!(message(poll_response(Err(lost))), "gone");
}
