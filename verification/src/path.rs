//! Slash-separated paths as text.

use vstd::prelude::*;
use vstd::string::StrSliceExecFns;

use crate::text::{join2, join3, starts_with_char};

verus! {

/// Whether a path is absolute.
pub open spec fn absolute(path: Seq<char>) -> bool {
    path.len() > 0 && path[0] == '/'
}

/// Whether a path is absolute.
pub fn is_absolute(path: &str) -> (is: bool)
    ensures
        is == absolute(path@),
{
    starts_with_char(path, '/')
}

/// Whether `segment` stands between slashes or ends of `path` at `start`.
pub open spec fn segment_at(path: Seq<char>, segment: Seq<char>, start: int) -> bool {
    let end = start + segment.len();
    &&& 0 <= start
    &&& end <= path.len()
    &&& start == 0 || path[start - 1] == '/'
    &&& end == path.len() || path[end] == '/'
    &&& path.subrange(start, end) == segment
}

/// Whether a path holds `segment` between slashes or its ends.
pub open spec fn has_segment(path: Seq<char>, segment: Seq<char>) -> bool {
    exists|start: int| #[trigger] segment_at(path, segment, start)
}

fn holds_at(path: &str, segment: &str, start: usize) -> (holds: bool)
    requires
        start <= path@.len(),
    ensures
        holds == segment_at(path@, segment@, start as int),
{
    let total: usize = path.unicode_len();
    let length: usize = segment.unicode_len();
    if length > total - start {
        return false;
    }
    let end: usize = start + length;
    if start > 0 && path.get_char(start - 1) != '/' {
        return false;
    }
    if end < total && path.get_char(end) != '/' {
        return false;
    }
    let mut index: usize = 0;
    while index < length
        invariant
            index <= length,
            length == segment@.len(),
            end == start + length,
            end <= path@.len(),
            forall|at: int| 0 <= at < index ==> path@[start + at] == segment@[at],
        decreases length - index,
    {
        if path.get_char(start + index) != segment.get_char(index) {
            proof {
                assert(path@.subrange(start as int, end as int)[index as int] == path@[start
                    + index]);
            }
            return false;
        }
        index += 1;
    }
    proof {
        assert(path@.subrange(start as int, end as int) =~= segment@);
    }
    true
}

/// Whether a path holds `segment` between slashes or its ends.
pub fn contains_segment(path: &str, segment: &str) -> (contains: bool)
    ensures
        contains == has_segment(path@, segment@),
{
    let total: usize = path.unicode_len();
    let mut start: usize = 0;
    while start < total
        invariant
            start <= total,
            total == path@.len(),
            forall|at: int| 0 <= at < start ==> !segment_at(path@, segment@, at),
        decreases total - start,
    {
        if holds_at(path, segment, start) {
            return true;
        }
        start += 1;
    }
    holds_at(path, segment, total)
}

/// `base` and `relative` as one path: a slash stands between them, and an absolute
/// `relative` stands alone.
pub open spec fn joined(base: Seq<char>, relative: Seq<char>) -> Seq<char> {
    if absolute(relative) {
        relative
    } else if base.len() == 0 || base.last() == '/' {
        base + relative
    } else {
        base + "/"@ + relative
    }
}

/// `base` and `relative` as one path.
pub fn join(base: &str, relative: &str) -> (path: String)
    ensures
        path@ == joined(base@, relative@),
{
    if is_absolute(relative) {
        return relative.to_owned();
    }
    let length: usize = base.unicode_len();
    if length == 0 || base.get_char(length - 1) == '/' {
        join2(base, relative)
    } else {
        join3(base, "/", relative)
    }
}

/// Whether `std` takes two texts for the same path.
pub uninterp spec fn path_equal(left: Seq<char>, right: Seq<char>) -> bool;

/// Calls the `==` of `std::path::Path`, which compares the components of two paths.
///
/// Claimed: the outcome depends on the two texts alone, and a path equals itself.
#[verifier::external_body]
pub(crate) fn same_path(left: &str, right: &str) -> (same: bool)
    ensures
        same == path_equal(left@, right@),
        left@ == right@ ==> same,
{
    std::path::Path::new(left) == std::path::Path::new(right)
}

} // verus!
