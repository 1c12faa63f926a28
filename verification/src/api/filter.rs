//! Filters of task lists, as a query writes them.

use vstd::prelude::*;
use vstd::string::StrSliceExecFns;
use vstd::string::StringExecFns;

use crate::domain::{optional_text, ProcessStatus};
use crate::error::{AppError, ErrorView};
use crate::ids::{hyphenated, uuid_parsed, ThreadId};
use crate::text::{is_whitespace, join2, join3, whitespace};

verus! {

/// Query of a task list.
#[derive(Debug)]
pub struct ListQuery {
    /// Process states, separated by commas.
    pub status: Option<String>,
    /// Submitting thread.
    pub thread: Option<String>,
}

/// Which tasks a list holds.
#[derive(Debug)]
pub struct TaskFilter {
    /// Only these process states, or any when there is none.
    pub statuses: Vec<ProcessStatus>,
    /// Only tasks of this thread.
    pub thread: Option<ThreadId>,
}

/// A text without the white space at its start.
pub open spec fn trimmed_start(text: Seq<char>) -> Seq<char>
    decreases text.len(),
{
    if text.len() > 0 && is_whitespace(text[0]) {
        trimmed_start(text.drop_first())
    } else {
        text
    }
}

/// A text without the white space at its end.
pub open spec fn trimmed_end(text: Seq<char>) -> Seq<char>
    decreases text.len(),
{
    if text.len() > 0 && is_whitespace(text.last()) {
        trimmed_end(text.drop_last())
    } else {
        text
    }
}

/// A text without the white space at its ends.
pub open spec fn trimmed(text: Seq<char>) -> Seq<char> {
    trimmed_end(trimmed_start(text))
}

/// Where the first comma stands, or the text's length.
pub open spec fn first_comma(text: Seq<char>) -> int
    decreases text.len(),
{
    if text.len() == 0 || text[0] == ',' {
        0
    } else {
        1 + first_comma(text.drop_first())
    }
}

/// The state with this name.
pub open spec fn named_status(name: Seq<char>) -> Option<ProcessStatus> {
    if exists|status: ProcessStatus| #[trigger] status.name() == name {
        Some(choose|status: ProcessStatus| #[trigger] status.name() == name)
    } else {
        None
    }
}

/// The states of one part of a list: none for a part of white space, and the part itself
/// when it names none.
pub open spec fn part_status(part: Seq<char>) -> Result<Seq<ProcessStatus>, Seq<char>> {
    let name = trimmed(part);
    if name.len() == 0 {
        Ok(Seq::empty())
    } else {
        match named_status(name) {
            Some(status) => Ok(seq![status]),
            None => Err(name),
        }
    }
}

/// States followed by more of them, or the first part that names none.
pub open spec fn followed_by(
    first: Result<Seq<ProcessStatus>, Seq<char>>,
    rest: Result<Seq<ProcessStatus>, Seq<char>>,
) -> Result<Seq<ProcessStatus>, Seq<char>> {
    match (first, rest) {
        (Err(part), _) => Err(part),
        (Ok(_), Err(part)) => Err(part),
        (Ok(first), Ok(rest)) => Ok(first + rest),
    }
}

/// The states that a list of names separated by commas asks for, or the first part that
/// names none.
pub open spec fn listed_statuses(text: Seq<char>) -> Result<Seq<ProcessStatus>, Seq<char>>
    decreases text.len(),
{
    let end = first_comma(text);
    if end < text.len() {
        proof {
            comma_is_first(text);
        }
        followed_by(part_status(text.take(end)), listed_statuses(text.skip(end + 1)))
    } else {
        part_status(text)
    }
}

/// Nothing before the first comma is one.
pub proof fn comma_is_first(text: Seq<char>)
    ensures
        0 <= first_comma(text) <= text.len(),
        first_comma(text) < text.len() ==> text[first_comma(text)] == ',',
        forall|at: int| 0 <= at < first_comma(text) ==> text[at] != ',',
    decreases text.len(),
{
    if text.len() > 0 && text[0] != ',' {
        let rest = text.drop_first();
        comma_is_first(rest);
        assert forall|at: int| 0 <= at < first_comma(text) implies text[at] != ',' by {
            if at > 0 {
                assert(rest[at - 1] == text[at]);
            }
        }
    }
}

proof fn comma_found(text: Seq<char>, end: int)
    requires
        0 <= end <= text.len(),
        end < text.len() ==> text[end] == ',',
        forall|at: int| 0 <= at < end ==> text[at] != ',',
    ensures
        first_comma(text) == end,
{
    comma_is_first(text);
}

fn status_named(name: &str) -> (status: Option<ProcessStatus>)
    ensures
        status == named_status(name@),
{
    let status = ProcessStatus::from_storage(name);
    proof {
        if let Some(found) = status {
            let chosen = choose|other: ProcessStatus| #[trigger] other.name() == name@;
            assert(found.name() == name@);
            crate::domain::status_names_are_distinct(found, chosen);
        }
    }
    status
}

/// A text without the white space at its ends.
pub fn trim(text: &str) -> (rest: &str)
    ensures
        rest@ == trimmed(text@),
{
    let total: usize = text.unicode_len();
    let mut start: usize = 0;
    proof {
        assert(text@.skip(0) =~= text@);
    }
    while start < total && whitespace(text.get_char(start))
        invariant
            start <= total,
            total == text@.len(),
            trimmed_start(text@) == trimmed_start(text@.skip(start as int)),
        decreases total - start,
    {
        proof {
            assert(text@.skip(start as int)[0] == text@[start as int]);
            assert(text@.skip(start as int).drop_first() =~= text@.skip(start as int + 1));
        }
        start += 1;
    }
    proof {
        if start < total {
            assert(text@.skip(start as int)[0] == text@[start as int]);
        }
        assert(trimmed_start(text@) == text@.skip(start as int));
        assert(text@.subrange(start as int, total as int) =~= text@.skip(start as int));
    }
    let mut end: usize = total;
    while end > start && whitespace(text.get_char(end - 1))
        invariant
            start <= end <= total,
            total == text@.len(),
            trimmed(text@) == trimmed_end(text@.subrange(start as int, end as int)),
        decreases end,
    {
        proof {
            let part = text@.subrange(start as int, end as int);
            assert(part.last() == text@[end - 1]);
            assert(part.drop_last() =~= text@.subrange(start as int, end - 1));
        }
        end -= 1;
    }
    proof {
        if end > start {
            assert(text@.subrange(start as int, end as int).last() == text@[end - 1]);
        }
    }
    text.substring_char(start, end)
}

/// What [`TaskFilter::parse`] makes of a query.
pub open spec fn parsed_filter(status: Option<Seq<char>>, thread: Option<Seq<char>>) -> Result<
    (Seq<ProcessStatus>, Option<ThreadId>),
    ErrorView,
> {
    let statuses = match status {
        Some(text) => listed_statuses(text),
        None => Ok(Seq::empty()),
    };
    match statuses {
        Err(part) => Err(ErrorView::Usage { message: "invalid status "@ + part }),
        Ok(statuses) => match thread {
            None => Ok((statuses, None)),
            Some(text) => match uuid_parsed(text) {
                Some(uuid) => Ok((statuses, Some(ThreadId(uuid)))),
                None => Err(ErrorView::Usage { message: "invalid thread "@ + text }),
            },
        },
    }
}

fn parse_statuses(text: &str) -> (statuses: Result<Vec<ProcessStatus>, String>)
    ensures
        match listed_statuses(text@) {
            Ok(listed) => statuses matches Ok(statuses) && statuses@ == listed,
            Err(part) => statuses matches Err(found) && found@ == part,
        },
{
    let total: usize = text.unicode_len();
    let mut statuses: Vec<ProcessStatus> = Vec::new();
    let mut start: usize = 0;
    proof {
        assert(text@.skip(0) =~= text@);
        comma_is_first(text@);
        match listed_statuses(text@) {
            Ok(listed) => assert(Seq::<ProcessStatus>::empty() + listed =~= listed),
            Err(_) => {},
        }
    }
    loop
        invariant
            start <= total,
            total == text@.len(),
            listed_statuses(text@) == followed_by(
                Ok(statuses@),
                listed_statuses(text@.skip(start as int)),
            ),
        decreases total - start,
    {
        let ghost rest = text@.skip(start as int);
        let mut end: usize = start;
        while end < total && text.get_char(end) != ','
            invariant
                start <= end <= total,
                total == text@.len(),
                forall|at: int| start <= at < end ==> text@[at] != ',',
            decreases total - end,
        {
            end += 1;
        }
        let ghost before = statuses@;
        let part = text.substring_char(start, end);
        let name = trim(part);
        proof {
            comma_found(rest, end - start);
            assert(part@ =~= rest.take(end - start));
        }
        if name.unicode_len() > 0 {
            match status_named(name) {
                Some(status) => {
                    statuses.push(status);
                    proof {
                        assert(statuses@ =~= before + seq![status]);
                    }
                },
                None => {
                    return Err(name.to_owned());
                },
            }
        } else {
            proof {
                assert(before + Seq::<ProcessStatus>::empty() =~= before);
            }
        }
        proof {
            assert(part_status(part@) matches Ok(more) && statuses@ =~= before + more);
        }
        if end == total {
            proof {
                assert(rest.take(end - start) =~= rest);
            }
            return Ok(statuses);
        }
        proof {
            let more = part_status(part@)->Ok_0;
            let tail = text@.skip(end as int + 1);
            assert(rest.skip(end - start + 1) =~= tail);
            assert(listed_statuses(rest) == followed_by(Ok(more), listed_statuses(tail)));
            match listed_statuses(tail) {
                Ok(last) => assert(before + (more + last) =~= (before + more) + last),
                Err(_) => {},
            }
        }
        start = end + 1;
    }
}

/// The names of states, separated by commas.
pub open spec fn status_names(statuses: Seq<ProcessStatus>) -> Seq<char>
    decreases statuses.len(),
{
    if statuses.len() == 0 {
        Seq::empty()
    } else if statuses.len() == 1 {
        statuses[0].name()
    } else {
        status_names(statuses.drop_last()) + ","@ + statuses.last().name()
    }
}

impl TaskFilter {
    /// Read a filter from its query. Parts of white space ask for nothing.
    pub fn parse(query: ListQuery) -> (filter: Result<TaskFilter, AppError>)
        ensures
            match parsed_filter(optional_text(query.status), optional_text(query.thread)) {
                Ok((statuses, thread)) => filter matches Ok(filter) && filter.statuses@ == statuses
                    && filter.thread == thread,
                Err(error) => filter matches Err(found) && found@ == error,
            },
    {
        let statuses = match &query.status {
            Some(text) => match parse_statuses(text.as_str()) {
                Ok(statuses) => statuses,
                Err(part) => {
                    return Err(
                        AppError::Usage { message: join2("invalid status ", part.as_str()) },
                    );
                },
            },
            None => Vec::new(),
        };
        match &query.thread {
            None => Ok(TaskFilter { statuses, thread: None }),
            Some(text) => match ThreadId::parse(text.as_str()) {
                Some(thread) => Ok(TaskFilter { statuses, thread: Some(thread) }),
                None => Err(AppError::Usage { message: join2("invalid thread ", text.as_str()) }),
            },
        }
    }

    /// This filter as the start of a query, each part ended by an ampersand.
    pub fn query_prefix(&self) -> (prefix: String)
        ensures
            prefix@ == (if self.statuses@.len() > 0 {
                "status="@ + status_names(self.statuses@) + "&"@
            } else {
                ""@
            }) + (match self.thread {
                Some(thread) => "thread="@ + hyphenated(thread.0) + "&"@,
                None => ""@,
            }),
    {
        let status = if self.statuses.len() > 0 {
            let mut names = self.statuses[0].as_str().to_owned();
            let mut index: usize = 1;
            proof {
                assert(self.statuses@.take(1).len() == 1);
            }
            while index < self.statuses.len()
                invariant
                    1 <= index <= self.statuses.len(),
                    names@ == status_names(self.statuses@.take(index as int)),
                decreases self.statuses.len() - index,
            {
                names.append(",");
                names.append(self.statuses[index].as_str());
                proof {
                    let next = self.statuses@.take(index as int + 1);
                    assert(next.drop_last() =~= self.statuses@.take(index as int));
                    assert(next.last() == self.statuses@[index as int]);
                }
                index += 1;
            }
            proof {
                assert(self.statuses@.take(self.statuses.len() as int) =~= self.statuses@);
            }
            join3("status=", names.as_str(), "&")
        } else {
            "".to_owned()
        };
        let thread = match self.thread {
            Some(thread) => {
                let uuid = thread.text();
                join3("thread=", uuid.as_str(), "&")
            },
            None => "".to_owned(),
        };
        join2(status.as_str(), thread.as_str())
    }
}

} // verus!
