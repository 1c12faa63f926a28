//! Raw file bytes on the separate content origin: which file a request names and whether it
//! is served.

use vstd::prelude::*;
use vstd::string::StrSliceExecFns;

use crate::error::{result_view, usage, AppError, ErrorView};
use crate::path::{contains_segment, has_segment};
use crate::text::join2;

verus! {

/// A text without its leading slashes.
pub open spec fn without_slashes(text: Seq<char>) -> Seq<char>
    decreases text.len(),
{
    if text.len() > 0 && text[0] == '/' {
        without_slashes(text.drop_first())
    } else {
        text
    }
}

fn trim_slashes(text: &str) -> (rest: &str)
    ensures
        rest@ == without_slashes(text@),
{
    let total: usize = text.unicode_len();
    let mut start: usize = 0;
    proof {
        assert(text@.skip(0) =~= text@);
    }
    while start < total && text.get_char(start) == '/'
        invariant
            start <= total,
            total == text@.len(),
            without_slashes(text@) == without_slashes(text@.skip(start as int)),
        decreases total - start,
    {
        proof {
            assert(text@.skip(start as int).drop_first() =~= text@.skip(start as int + 1));
        }
        start += 1;
    }
    let rest = text.substring_char(start, total);
    proof {
        assert(rest@ =~= text@.skip(start as int));
    }
    rest
}

/// What [`mirror_path`] makes of a captured path.
pub open spec fn mirrored(captured: Seq<char>) -> Result<Seq<char>, ErrorView> {
    let trimmed = without_slashes(captured);
    if trimmed.len() == 0 {
        Err(ErrorView::Usage { message: "path must be absolute"@ })
    } else if has_segment(trimmed, ".."@) || has_segment(trimmed, "."@) {
        Err(ErrorView::Usage { message: "path must not contain '.' or '..' segments"@ })
    } else {
        Ok("/"@ + trimmed)
    }
}

/// Turn a captured path into an absolute one.
///
/// The capture omits the leading slash, so it is restored. Dot segments are refused.
pub fn mirror_path(captured: &str) -> (path: Result<String, AppError>)
    ensures
        match mirrored(captured@) {
            Ok(text) => path matches Ok(path) && path@ == text,
            Err(error) => path matches Err(found) && found@ == error,
        },
{
    let trimmed = trim_slashes(captured);
    if trimmed.unicode_len() == 0 {
        return Err(usage("path must be absolute"));
    }
    if contains_segment(trimmed, "..") || contains_segment(trimmed, ".") {
        return Err(usage("path must not contain '.' or '..' segments"));
    }
    Ok(join2("/", trimmed))
}

/// A text without leading slashes keeps nothing to trim.
proof fn trimmed_has_no_slash(text: Seq<char>)
    ensures
        without_slashes(text).len() > 0 ==> without_slashes(text)[0] != '/',
    decreases text.len(),
{
    if text.len() > 0 && text[0] == '/' {
        trimmed_has_no_slash(text.drop_first());
    }
}

/// A served path stays below the root: it is absolute, has no dot segment, and asking for
/// it again names the same file.
pub proof fn mirrored_paths_are_plain(captured: Seq<char>)
    requires
        mirrored(captured) is Ok,
    ensures
        mirrored(captured)->Ok_0[0] == '/',
        !has_segment(mirrored(captured)->Ok_0.drop_first(), ".."@),
        !has_segment(mirrored(captured)->Ok_0.drop_first(), "."@),
        mirrored(mirrored(captured)->Ok_0) == mirrored(captured),
{
    let trimmed = without_slashes(captured);
    let path = mirrored(captured)->Ok_0;
    reveal_strlit("/");
    trimmed_has_no_slash(captured);
    assert(path.drop_first() =~= trimmed);
    assert(without_slashes(path) == without_slashes(trimmed));
    assert(without_slashes(trimmed) == trimmed);
}

/// Why the file system refused a file.
#[derive(Debug)]
pub enum FileFailure {
    NotFound,
    PermissionDenied,
    /// Any other failure, with its text.
    Other(String),
}

/// The error for a refused file; `display` is its path as people read it.
pub fn map_io(display: &str, failure: FileFailure) -> (error: AppError)
    ensures
        error@ == (match failure {
            FileFailure::NotFound => ErrorView::FileNotFound { message: display@ + " not found"@ },
            FileFailure::PermissionDenied => ErrorView::Permission {
                message: "permission denied: "@ + display@,
            },
            FileFailure::Other(text) => ErrorView::Internal {
                message: display@ + ": "@ + text@,
            },
        }),
{
    match failure {
        FileFailure::NotFound => AppError::FileNotFound { message: join2(display, " not found") },
        FileFailure::PermissionDenied => AppError::Permission {
            message: join2("permission denied: ", display),
        },
        FileFailure::Other(text) => {
            let head = join2(display, ": ");
            AppError::Internal { message: join2(head.as_str(), text.as_str()) }
        },
    }
}

/// What a path names, without following links.
#[derive(Debug, Clone, Copy, PartialEq, Eq, Structural)]
pub enum FileKind {
    Link,
    Regular,
    Directory,
    Special,
}

/// How a path is served.
#[derive(Debug, Clone, Copy, PartialEq, Eq, Structural)]
pub enum ServeStep {
    /// Resolve the link, and stream the regular file it leads to.
    Resolve,
    Stream,
}

/// Serve only regular files, through links or not.
pub fn serve_regular_file(kind: FileKind, display: &str) -> (step: Result<ServeStep, AppError>)
    ensures
        result_view(step) == (match kind {
            FileKind::Link => Ok(ServeStep::Resolve),
            FileKind::Regular => Ok(ServeStep::Stream),
            FileKind::Directory => Err(
                ErrorView::UnsupportedFile { message: display@ + " is a directory"@ },
            ),
            FileKind::Special => Err(
                ErrorView::UnsupportedFile { message: "special files are not browsable"@ },
            ),
        }),
{
    match kind {
        FileKind::Link => Ok(ServeStep::Resolve),
        FileKind::Regular => Ok(ServeStep::Stream),
        FileKind::Directory => Err(
            AppError::UnsupportedFile { message: join2(display, " is a directory") },
        ),
        FileKind::Special => Err(
            AppError::UnsupportedFile { message: "special files are not browsable".to_owned() },
        ),
    }
}

/// An encoded path.
#[derive(Debug)]
pub struct PathToken {
    pub encoded: String,
}

impl PathToken {
    /// Take a captured token, which must not be empty.
    pub fn from_raw(raw: String) -> (token: Result<PathToken, AppError>)
        ensures
            raw@.len() > 0 ==> token == Ok::<PathToken, AppError>(PathToken { encoded: raw }),
            raw@.len() == 0 ==> (token matches Err(error) && error@ == (ErrorView::Usage {
                message: "missing path token"@,
            })),
    {
        if raw.as_str().unicode_len() == 0 {
            return Err(usage("missing path token"));
        }
        Ok(PathToken { encoded: raw })
    }
}

} // verus!
