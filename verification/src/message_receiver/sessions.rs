//! Agent sessions on this machine, and which of them a message reaches.

use vstd::prelude::*;
use vstd::string::StrSliceExecFns;

use crate::error::{AppError, ErrorView};
use crate::ids::{hyphenated, uuid_parsed, ThreadId};
use crate::message::Recipient;
use crate::path::{absolute, is_absolute, join, joined, path_equal, same_path};
use crate::text::{has_prefix, same_text, slice_text, strip_prefix};

verus! {

/// Longest first line of a session file that is looked at, in bytes.
pub const SESSION_META_MAX_BYTES: usize = 65_536;

/// One agent session and when its file changed last.
#[derive(Debug)]
pub struct LocalSession {
    pub thread: ThreadId,
    pub cwd: String,
    /// Nanoseconds since the epoch.
    pub modified: i128,
}

/// The first line of a session file.
#[derive(Debug)]
pub struct SessionMetaLine {
    pub kind: String,
    pub payload: SessionMetaPayload,
}

/// What the first line of a session file says of the session.
#[derive(Debug)]
pub struct SessionMetaPayload {
    pub id: String,
    pub cwd: String,
}

/// What [`session_unavailable`] gives.
pub open spec fn unavailable() -> ErrorView {
    ErrorView::MessageUnavailable { message: "cannot inspect local Codex session metadata"@ }
}

/// Sessions could not be looked at. The cause stays on this machine.
pub fn session_unavailable() -> (error: AppError)
    ensures
        error@ == unavailable(),
{
    AppError::MessageUnavailable {
        message: "cannot inspect local Codex session metadata".to_owned(),
    }
}

/// What [`expand_receiver_cwd`] makes of a directory.
pub open spec fn receiver_cwd(cwd: Seq<char>, home: Option<Seq<char>>) -> Result<
    Seq<char>,
    ErrorView,
> {
    if absolute(cwd) {
        Ok(cwd)
    } else if !has_prefix(cwd, "~/"@) {
        Err(
            ErrorView::MessageInvalid {
                message: "message cwd must be absolute or start with ~/"@,
            },
        )
    } else {
        match home {
            None => Err(
                ErrorView::MessageUnavailable { message: "receiver HOME is unavailable"@ },
            ),
            Some(home) => if !absolute(home) {
                Err(ErrorView::MessageUnavailable { message: "receiver HOME is not absolute"@ })
            } else {
                Ok(joined(home, cwd.skip("~/"@.len() as int)))
            },
        }
    }
}

/// A recipient's directory on this machine, where a leading `~/` is the home directory.
pub fn expand_receiver_cwd(cwd: &str, home: Option<&str>) -> (path: Result<String, AppError>)
    ensures
        match receiver_cwd(cwd@, slice_text(home)) {
            Ok(expanded) => path matches Ok(path) && path@ == expanded,
            Err(error) => path matches Err(found) && found@ == error,
        },
{
    if is_absolute(cwd) {
        return Ok(cwd.to_owned());
    }
    let relative = match strip_prefix(cwd, "~/") {
        Some(relative) => relative,
        None => {
            return Err(
                AppError::MessageInvalid {
                    message: "message cwd must be absolute or start with ~/".to_owned(),
                },
            );
        },
    };
    let home = match home {
        Some(home) => home,
        None => {
            return Err(
                AppError::MessageUnavailable {
                    message: "receiver HOME is unavailable".to_owned(),
                },
            );
        },
    };
    if !is_absolute(home) {
        return Err(
            AppError::MessageUnavailable { message: "receiver HOME is not absolute".to_owned() },
        );
    }
    Ok(join(home, relative))
}

/// What [`session_directory`] makes of the environment.
pub open spec fn sessions_at(codex_home: Option<Seq<char>>, home: Option<Seq<char>>) -> Option<
    Seq<char>,
> {
    let root = match codex_home {
        Some(path) => if path.len() == 0 {
            None
        } else {
            Some(path)
        },
        None => match home {
            Some(home) => Some(joined(home, ".codex"@)),
            None => None,
        },
    };
    match root {
        Some(root) => if absolute(root) {
            Some(joined(root, "sessions"@))
        } else {
            None
        },
        None => None,
    }
}

/// Directory of the session files, from the two environment variables that place it.
pub fn session_directory(codex_home: Option<&str>, home: Option<&str>) -> (directory: Result<
    String,
    AppError,
>)
    ensures
        match sessions_at(slice_text(codex_home), slice_text(home)) {
            Some(path) => directory matches Ok(directory) && directory@ == path,
            None => directory matches Err(error) && error@ == unavailable(),
        },
{
    let root = match codex_home {
        Some(path) => {
            if path.unicode_len() == 0 {
                return Err(session_unavailable());
            }
            path.to_owned()
        },
        None => match home {
            Some(home) => join(home, ".codex"),
            None => {
                return Err(session_unavailable());
            },
        },
    };
    if !is_absolute(root.as_str()) {
        return Err(session_unavailable());
    }
    Ok(join(root.as_str(), "sessions"))
}

/// Whether a text ends with another.
pub open spec fn has_suffix(text: Seq<char>, suffix: Seq<char>) -> bool {
    suffix.len() <= text.len() && text.skip(text.len() - suffix.len()) == suffix
}

/// Whether a file name is that of a session file.
pub fn is_rollout(name: &str) -> (is: bool)
    ensures
        is == (has_prefix(name@, "rollout-"@) && has_suffix(name@, ".jsonl"@)),
{
    let suffix = ".jsonl";
    let length: usize = suffix.unicode_len();
    let total: usize = name.unicode_len();
    if strip_prefix(name, "rollout-").is_none() || total < length {
        return false;
    }
    let end = name.substring_char(total - length, total);
    proof {
        assert(end@ =~= name@.skip(name@.len() - suffix@.len()));
    }
    same_text(end, suffix)
}

/// What stands where the session files should be.
#[derive(Debug, Clone, Copy, PartialEq, Eq, Structural)]
pub enum SessionRoot {
    Directory,
    /// Something that is no directory.
    Other,
    Missing,
    /// It could not be looked at.
    Failed,
}

/// Whether there are session files to look at.
pub fn has_sessions(root: SessionRoot) -> (has: Result<bool, AppError>)
    ensures
        match root {
            SessionRoot::Directory => has == Ok::<bool, AppError>(true),
            SessionRoot::Missing => has == Ok::<bool, AppError>(false),
            _ => has matches Err(error) && error@ == unavailable(),
        },
{
    match root {
        SessionRoot::Directory => Ok(true),
        SessionRoot::Missing => Ok(false),
        SessionRoot::Other => Err(session_unavailable()),
        SessionRoot::Failed => Err(session_unavailable()),
    }
}

/// The session that a file's first line names, if it names one.
pub open spec fn named_session(bytes: int, meta: Option<SessionMetaLine>) -> Option<
    (ThreadId, Seq<char>),
> {
    match meta {
        Some(meta) => match uuid_parsed(meta.payload.id@) {
            Some(uuid) => if bytes <= SESSION_META_MAX_BYTES && meta.kind@ == "session_meta"@
                && absolute(meta.payload.cwd@) && uuid != 0 {
                Some((ThreadId(uuid), meta.payload.cwd@))
            } else {
                None
            },
            None => None,
        },
        None => None,
    }
}

/// The session that a file's first line names, if it names one: a line that is too long, is
/// not of the right kind, or names no thread or no absolute directory, names none.
///
/// `bytes` is the line's length, and `meta` is what it holds.
pub fn session_meta(bytes: usize, meta: Option<SessionMetaLine>) -> (session: Option<
    (ThreadId, String),
>)
    ensures
        match (named_session(bytes as int, meta), session) {
            (Some(named), Some(session)) => named.0 == session.0 && named.1 == session.1@,
            (None, None) => true,
            _ => false,
        },
{
    if bytes > SESSION_META_MAX_BYTES {
        return None;
    }
    let meta = match meta {
        Some(meta) => meta,
        None => {
            return None;
        },
    };
    if !same_text(meta.kind.as_str(), "session_meta") || !is_absolute(meta.payload.cwd.as_str()) {
        return None;
    }
    match ThreadId::parse(meta.payload.id.as_str()) {
        Some(thread) => {
            if thread.is_nil() {
                None
            } else {
                Some((thread, meta.payload.cwd))
            }
        },
        None => None,
    }
}

/// A read session file as an item of a collection: one that vanished or names no session is
/// left out, and a failure stays.
pub fn read_session_meta(read: Result<Option<LocalSession>, AppError>) -> (session: Option<
    Result<LocalSession, AppError>,
>)
    ensures
        session == (match read {
            Ok(Some(session)) => Some(Ok(session)),
            Ok(None) => None,
            Err(error) => Some(Err(error)),
        }),
{
    match read {
        Ok(Some(session)) => Some(Ok(session)),
        Ok(None) => None,
        Err(error) => Some(Err(error)),
    }
}

/// The first failure among read session files.
pub open spec fn first_failure(read: Seq<Option<Result<LocalSession, AppError>>>) -> Option<AppError>
    decreases read.len(),
{
    if read.len() == 0 {
        None
    } else {
        match read[0] {
            Some(Err(error)) => Some(error),
            _ => first_failure(read.drop_first()),
        }
    }
}

/// The sessions of read session files, in order.
pub open spec fn sessions_in(read: Seq<Option<Result<LocalSession, AppError>>>) -> Seq<LocalSession>
    decreases read.len(),
{
    if read.len() == 0 {
        Seq::empty()
    } else {
        match read[0] {
            Some(Ok(session)) => seq![session] + sessions_in(read.drop_first()),
            _ => sessions_in(read.drop_first()),
        }
    }
}

/// All sessions of read session files, or the first failure.
pub fn collect_sessions(read: Vec<Option<Result<LocalSession, AppError>>>) -> (sessions: Result<
    Vec<LocalSession>,
    AppError,
>)
    ensures
        match first_failure(read@) {
            Some(error) => sessions == Err::<Vec<LocalSession>, AppError>(error),
            None => sessions matches Ok(sessions) && sessions@ == sessions_in(read@),
        },
{
    let mut left = read;
    let mut sessions: Vec<LocalSession> = Vec::new();
    while left.len() > 0
        invariant
            first_failure(read@) == first_failure(left@),
            sessions_in(read@) =~= sessions@ + sessions_in(left@),
        decreases left.len(),
    {
        let ghost before = left@;
        let ghost kept = sessions@;
        let next = left.remove(0);
        proof {
            assert(left@ =~= before.drop_first());
            assert(before[0] == next);
        }
        match next {
            Some(Ok(session)) => {
                let ghost added = session;
                sessions.push(session);
                proof {
                    assert(kept + (seq![added] + sessions_in(left@)) =~= sessions@ + sessions_in(
                        left@,
                    ));
                }
            },
            Some(Err(error)) => {
                return Err(error);
            },
            None => {},
        }
    }
    proof {
        assert(sessions@ + sessions_in(left@) =~= sessions@);
    }
    Ok(sessions)
}

/// Whether `at` is the last of the most recently changed sessions that a message reaches.
pub open spec fn latest(
    sessions: Seq<LocalSession>,
    reaches: spec_fn(LocalSession) -> bool,
    at: int,
) -> bool {
    &&& 0 <= at < sessions.len()
    &&& reaches(sessions[at])
    &&& forall|other: int|
        0 <= other < sessions.len() && reaches(#[trigger] sessions[other])
            ==> sessions[other].modified <= sessions[at].modified
    &&& forall|other: int|
        at < other < sessions.len() && reaches(#[trigger] sessions[other])
            ==> sessions[other].modified < sessions[at].modified
}

/// Whether a resolved thread is that of the most recently changed session that a message
/// reaches, or no session is reached.
pub open spec fn selects(
    sessions: Seq<LocalSession>,
    reaches: spec_fn(LocalSession) -> bool,
    selector: Seq<char>,
    resolved: Result<(ThreadId, String), AppError>,
) -> bool {
    match resolved {
        Ok((thread, cwd)) => exists|at: int|
            #[trigger] latest(sessions, reaches, at) && thread == sessions[at].thread && cwd
                == sessions[at].cwd,
        Err(error) => {
            &&& error@ == (ErrorView::AgentThreadNotFound { selector })
            &&& forall|at: int| 0 <= at < sessions.len() ==> !reaches(#[trigger] sessions[at])
        },
    }
}

/// Where a message reaches: the thread itself, or any session in the directory.
enum Reach<'a> {
    Thread(ThreadId),
    Cwd(&'a str),
}

impl<'a> Reach<'a> {
    spec fn covers(self, session: LocalSession) -> bool {
        match self {
            Reach::Thread(thread) => session.thread == thread,
            Reach::Cwd(cwd) => path_equal(session.cwd@, cwd@),
        }
    }

    fn reaches(&self, session: &LocalSession) -> (reaches: bool)
        ensures
            reaches == self.covers(*session),
    {
        match self {
            Reach::Thread(thread) => session.thread == *thread,
            Reach::Cwd(cwd) => same_path(session.cwd.as_str(), cwd),
        }
    }
}

fn latest_session<'a>(sessions: &'a Vec<LocalSession>, reach: &Reach) -> (found: Option<usize>)
    ensures
        match found {
            Some(at) => latest(sessions@, |session: LocalSession| reach.covers(session), at as int),
            None => forall|at: int|
                0 <= at < sessions@.len() ==> !reach.covers(#[trigger] sessions@[at]),
        },
{
    let mut found: Option<usize> = None;
    let mut index: usize = 0;
    while index < sessions.len()
        invariant
            index <= sessions.len(),
            match found {
                Some(at) => {
                    &&& at < index
                    &&& reach.covers(sessions@[at as int])
                    &&& forall|other: int|
                        0 <= other < index && reach.covers(#[trigger] sessions@[other])
                            ==> sessions@[other].modified <= sessions@[at as int].modified
                    &&& forall|other: int|
                        at < other < index && reach.covers(#[trigger] sessions@[other])
                            ==> sessions@[other].modified < sessions@[at as int].modified
                },
                None => forall|at: int|
                    0 <= at < index ==> !reach.covers(#[trigger] sessions@[at]),
            },
        decreases sessions.len() - index,
    {
        if reach.reaches(&sessions[index]) {
            let newer = match found {
                Some(at) => sessions[index].modified >= sessions[at].modified,
                None => true,
            };
            if newer {
                found = Some(index);
            }
        }
        index += 1;
    }
    found
}

/// Whether a resolved thread is the right one for a recipient among some sessions.
pub open spec fn resolves(
    recipient: Recipient,
    sessions: Seq<LocalSession>,
    home: Option<Seq<char>>,
    resolved: Result<(ThreadId, String), AppError>,
) -> bool {
    match recipient {
        Recipient::Thread { thread } => selects(
            sessions,
            |session: LocalSession| session.thread == thread,
            hyphenated(thread.0),
            resolved,
        ),
        Recipient::Cwd { cwd } => match receiver_cwd(cwd@, home) {
            Err(error) => resolved matches Err(found) && found@ == error,
            Ok(target) => selects(
                sessions,
                |session: LocalSession| path_equal(session.cwd@, target),
                target,
                resolved,
            ),
        },
    }
}

/// Resolve a recipient to the session that changed last: of the thread, or in the directory.
///
/// `sessions` are those of this machine, or why they could not be looked at.
pub fn resolve_destination_sync(
    recipient: &Recipient,
    sessions: Result<Vec<LocalSession>, AppError>,
    home: Option<&str>,
) -> (resolved: Result<(ThreadId, String), AppError>)
    ensures
        match sessions {
            Err(error) => resolved == Err::<(ThreadId, String), AppError>(error),
            Ok(sessions) => resolves(*recipient, sessions@, slice_text(home), resolved),
        },
{
    let sessions = match sessions {
        Ok(sessions) => sessions,
        Err(error) => {
            return Err(error);
        },
    };
    match recipient {
        Recipient::Thread { thread } => {
            let reach = Reach::Thread(*thread);
            let ghost covers = |session: LocalSession| session.thread == *thread;
            proof {
                assert(covers =~= |session: LocalSession| reach.covers(session));
            }
            match latest_session(&sessions, &reach) {
                Some(at) => {
                    proof {
                        assert(latest(sessions@, covers, at as int));
                    }
                    Ok((sessions[at].thread, sessions[at].cwd.clone()))
                },
                None => Err(AppError::AgentThreadNotFound { selector: thread.text() }),
            }
        },
        Recipient::Cwd { cwd } => {
            let target = match expand_receiver_cwd(cwd.as_str(), home) {
                Ok(target) => target,
                Err(error) => {
                    return Err(error);
                },
            };
            let reach = Reach::Cwd(target.as_str());
            let ghost covers = |session: LocalSession| path_equal(session.cwd@, target@);
            proof {
                assert(covers =~= |session: LocalSession| reach.covers(session));
            }
            match latest_session(&sessions, &reach) {
                Some(at) => {
                    proof {
                        assert(latest(sessions@, covers, at as int));
                    }
                    Ok((sessions[at].thread, sessions[at].cwd.clone()))
                },
                None => Err(AppError::AgentThreadNotFound { selector: target }),
            }
        },
    }
}

} // verus!
