//! Stable identities and their text form.

use vstd::arithmetic::power::pow;
use vstd::prelude::*;

verus! {

/// One task across the fleet.
#[derive(Debug, Clone, Copy, PartialEq, Eq, Structural, Hash)]
pub struct TaskId(pub u128);

/// One installed daemon.
#[derive(Debug, Clone, Copy, PartialEq, Eq, Structural, Hash)]
pub struct MachineId(pub u128);

/// One caller retry identity.
#[derive(Debug, Clone, Copy, PartialEq, Eq, Structural, Hash)]
pub struct RequestId(pub u128);

/// One agent thread.
#[derive(Debug, Clone, Copy, PartialEq, Eq, Structural, Hash)]
pub struct ThreadId(pub u128);

/// One shared resource. Never the nil identity when built by [`ResourceId::from_uuid`].
#[derive(Debug, Clone, Copy, PartialEq, Eq, Structural, Hash)]
pub struct ResourceId(pub u128);

/// One loan of a resource.
#[derive(Debug, Clone, Copy, PartialEq, Eq, Structural, Hash)]
pub struct LoanId(pub u128);

/// One supervisor action on a loan.
#[derive(Debug, Clone, Copy, PartialEq, Eq, Structural, Hash)]
pub struct ActionId(pub u128);

/// One direct message. Never the nil identity when built by [`MessageId::from_uuid`].
#[derive(Debug, Clone, Copy, PartialEq, Eq, Structural, Hash)]
pub struct MessageId(pub u128);

/// One supervisor notice.
#[derive(Debug, Clone, Copy, PartialEq, Eq, Structural, Hash)]
pub struct NoticeId(pub u128);

/// One delivery attempt of a supervisor notice.
#[derive(Debug, Clone, Copy, PartialEq, Eq, Structural, Hash)]
pub struct DeliveryAttemptId(pub u128);

/// One cancellation request.
#[derive(Debug, Clone, Copy, PartialEq, Eq, Structural, Hash)]
pub struct CancellationId(pub u128);

/// The lower-case hexadecimal digit of a value below sixteen.
pub open spec fn hex_digit(value: int) -> char {
    if value < 10 {
        (48 + value) as char
    } else {
        (87 + value) as char
    }
}

/// The `index`-th of the thirty-two hexadecimal digits of `id`, most significant first.
pub open spec fn nibble(id: u128, index: int) -> int {
    (id as int / pow(16, (31 - index) as nat)) % 16
}

/// Hyphens that stand before position `index` of the hyphenated form.
pub open spec fn hyphens_before(index: int) -> int {
    (if index > 8 { 1int } else { 0 }) + (if index > 13 { 1int } else { 0 })
        + (if index > 18 { 1int } else { 0 }) + (if index > 23 { 1int } else { 0 })
}

/// The hyphenated text of an identity: groups of 8, 4, 4, 4 and 12 digits.
pub open spec fn hyphenated(id: u128) -> Seq<char> {
    Seq::new(
        36,
        |index: int|
            if index == 8 || index == 13 || index == 18 || index == 23 {
                '-'
            } else {
                hex_digit(nibble(id, index - hyphens_before(index)))
            },
    )
}

/// What `uuid::Uuid::parse_str` makes of a text: the identity, or nothing when it refuses it.
pub uninterp spec fn uuid_parsed(text: Seq<char>) -> Option<u128>;

/// Calls the `Display` of `uuid::Uuid`.
///
/// Claimed: the text is the lower-case hyphenated form, and `Uuid::parse_str`
/// reads that text back as the same identity.
#[verifier::external_body]
pub(crate) fn uuid_text(id: u128) -> (text: String)
    ensures
        text@ == hyphenated(id),
        uuid_parsed(text@) == Some(id),
{
    uuid::Uuid::from_u128(id).to_string()
}

/// Calls `uuid::Uuid::parse_str`, keeping only whether it accepted the text and as what.
#[verifier::external_body]
pub(crate) fn parse_uuid(text: &str) -> (id: Option<u128>)
    ensures
        id == uuid_parsed(text@),
{
    uuid::Uuid::parse_str(text).ok().map(|id| id.as_u128())
}

impl TaskId {
    /// The hyphenated text of this identity.
    pub fn text(self) -> (text: String)
        ensures
            text@ == hyphenated(self.0),
            uuid_parsed(text@) == Some(self.0),
    {
        uuid_text(self.0)
    }

    /// Read a task identity from its text.
    pub fn parse(text: &str) -> (id: Option<TaskId>)
        ensures
            id == (match uuid_parsed(text@) {
                Some(uuid) => Some(TaskId(uuid)),
                None => None,
            }),
    {
        match parse_uuid(text) {
            Some(uuid) => Some(TaskId(uuid)),
            None => None,
        }
    }
}

impl MachineId {
    /// The hyphenated text of this identity.
    pub fn text(self) -> (text: String)
        ensures
            text@ == hyphenated(self.0),
            uuid_parsed(text@) == Some(self.0),
    {
        uuid_text(self.0)
    }

    /// Read a machine identity from its text.
    pub fn parse(text: &str) -> (id: Option<MachineId>)
        ensures
            id == (match uuid_parsed(text@) {
                Some(uuid) => Some(MachineId(uuid)),
                None => None,
            }),
    {
        match parse_uuid(text) {
            Some(uuid) => Some(MachineId(uuid)),
            None => None,
        }
    }
}

impl RequestId {
    /// The hyphenated text of this identity.
    pub fn text(self) -> (text: String)
        ensures
            text@ == hyphenated(self.0),
            uuid_parsed(text@) == Some(self.0),
    {
        uuid_text(self.0)
    }
}

impl ThreadId {
    /// The hyphenated text of this identity.
    pub fn text(self) -> (text: String)
        ensures
            text@ == hyphenated(self.0),
            uuid_parsed(text@) == Some(self.0),
    {
        uuid_text(self.0)
    }

    /// Read a thread identity from its text.
    pub fn parse(text: &str) -> (id: Option<ThreadId>)
        ensures
            id == (match uuid_parsed(text@) {
                Some(uuid) => Some(ThreadId(uuid)),
                None => None,
            }),
    {
        match parse_uuid(text) {
            Some(uuid) => Some(ThreadId(uuid)),
            None => None,
        }
    }

    /// Whether this is the nil identity, which names no thread.
    pub fn is_nil(self) -> (nil: bool)
        ensures
            nil == (self.0 == 0),
    {
        self.0 == 0
    }
}

impl ResourceId {
    /// Accept every identity but the nil one.
    pub fn from_uuid(uuid: u128) -> (id: Result<ResourceId, NilIdentity>)
        ensures
            uuid != 0 ==> id == Ok::<ResourceId, NilIdentity>(ResourceId(uuid)),
            uuid == 0 ==> id == Err::<ResourceId, NilIdentity>(NilIdentity),
    {
        if uuid == 0 {
            Err(NilIdentity)
        } else {
            Ok(ResourceId(uuid))
        }
    }

    /// The hyphenated text of this identity.
    pub fn text(self) -> (text: String)
        ensures
            text@ == hyphenated(self.0),
            uuid_parsed(text@) == Some(self.0),
    {
        uuid_text(self.0)
    }
}

impl MessageId {
    /// Accept every identity but the nil one.
    pub fn from_uuid(uuid: u128) -> (id: Result<MessageId, NilIdentity>)
        ensures
            uuid != 0 ==> id == Ok::<MessageId, NilIdentity>(MessageId(uuid)),
            uuid == 0 ==> id == Err::<MessageId, NilIdentity>(NilIdentity),
    {
        if uuid == 0 {
            Err(NilIdentity)
        } else {
            Ok(MessageId(uuid))
        }
    }
}

/// The nil identity was given where a real one is needed.
#[derive(Debug, Clone, Copy, PartialEq, Eq, Structural)]
pub struct NilIdentity;

} // verus!
