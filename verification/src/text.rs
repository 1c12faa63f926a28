//! Text helpers with exact contracts.

use vstd::prelude::*;
use vstd::string::StrSliceExecFns;
use vstd::string::StringExecFns;

verus! {

/// Calls `char::is_whitespace`, whose result depends on the character alone.
#[verifier::external_body]
pub(crate) fn whitespace(c: char) -> (is: bool)
    ensures
        is == is_whitespace(c),
{
    c.is_whitespace()
}

/// Whether `char::is_whitespace` holds of a character.
pub uninterp spec fn is_whitespace(c: char) -> bool;

/// `left` followed by `right`.
pub fn join2(left: &str, right: &str) -> (text: String)
    ensures
        text@ == left@ + right@,
{
    let mut text = left.to_owned();
    text.append(right);
    text
}

/// Three texts in order.
pub fn join3(first: &str, second: &str, third: &str) -> (text: String)
    ensures
        text@ == first@ + second@ + third@,
{
    let mut text = first.to_owned();
    text.append(second);
    text.append(third);
    text
}

/// An optional text as a character sequence.
pub open spec fn slice_text(text: Option<&str>) -> Option<Seq<char>> {
    match text {
        Some(text) => Some(text@),
        None => None,
    }
}

/// Whether two texts hold the same characters.
pub fn same_text(left: &str, right: &str) -> (same: bool)
    ensures
        same == (left@ == right@),
{
    let length: usize = left.unicode_len();
    if length != right.unicode_len() {
        return false;
    }
    let mut index: usize = 0;
    while index < length
        invariant
            index <= length,
            length == left@.len(),
            length == right@.len(),
            forall|at: int| 0 <= at < index ==> left@[at] == right@[at],
        decreases length - index,
    {
        if left.get_char(index) != right.get_char(index) {
            return false;
        }
        index += 1;
    }
    assert(left@ =~= right@);
    true
}

/// Whether a text begins with another.
pub open spec fn has_prefix(text: Seq<char>, prefix: Seq<char>) -> bool {
    prefix.len() <= text.len() && text.take(prefix.len() as int) == prefix
}

/// The rest of `text` after `prefix`, when it begins with it.
pub fn strip_prefix<'a>(text: &'a str, prefix: &str) -> (rest: Option<&'a str>)
    ensures
        rest is Some == has_prefix(text@, prefix@),
        rest matches Some(rest) ==> rest@ == text@.skip(prefix@.len() as int),
{
    let length: usize = prefix.unicode_len();
    let total: usize = text.unicode_len();
    if length > total {
        return None;
    }
    let mut index: usize = 0;
    while index < length
        invariant
            index <= length <= total,
            length == prefix@.len(),
            total == text@.len(),
            forall|at: int| 0 <= at < index ==> prefix@[at] == text@[at],
        decreases length - index,
    {
        if text.get_char(index) != prefix.get_char(index) {
            proof {
                assert(text@.take(length as int)[index as int] == text@[index as int]);
            }
            return None;
        }
        index += 1;
    }
    assert(text@.take(length as int) =~= prefix@);
    Some(text.substring_char(length, total))
}

/// Whether a text begins with `c`.
pub fn starts_with_char(text: &str, c: char) -> (starts: bool)
    ensures
        starts == (text@.len() > 0 && text@[0] == c),
{
    text.unicode_len() > 0 && text.get_char(0) == c
}

/// Decimal digits of a number, most significant first.
pub open spec fn decimal_digits(value: nat) -> Seq<char>
    decreases value,
{
    if value < 10 {
        seq![(48 + value) as char]
    } else {
        decimal_digits(value / 10).push((48 + value % 10) as char)
    }
}

fn digit_text(digit: u64) -> (text: &'static str)
    requires
        digit < 10,
    ensures
        text@ == seq![(48 + digit) as char],
{
    proof {
        reveal_strlit("0");
        reveal_strlit("1");
        reveal_strlit("2");
        reveal_strlit("3");
        reveal_strlit("4");
        reveal_strlit("5");
        reveal_strlit("6");
        reveal_strlit("7");
        reveal_strlit("8");
        reveal_strlit("9");
    }
    match digit {
        0 => "0",
        1 => "1",
        2 => "2",
        3 => "3",
        4 => "4",
        5 => "5",
        6 => "6",
        7 => "7",
        8 => "8",
        _ => "9",
    }
}

/// The decimal text of a number.
pub fn decimal(value: u64) -> (text: String)
    ensures
        text@ == decimal_digits(value as nat),
    decreases value,
{
    if value < 10 {
        digit_text(value).to_owned()
    } else {
        let mut text = decimal(value / 10);
        text.append(digit_text(value % 10));
        proof {
            assert(decimal_digits((value / 10) as nat).push((48 + value % 10) as char)
                =~= decimal_digits((value / 10) as nat) + seq![(48 + value % 10) as char]);
        }
        text
    }
}

} // verus!
