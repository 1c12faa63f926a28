//! Points and spans of time as plain integers.

use vstd::prelude::*;

verus! {

pub const NANOS_PER_SEC: u128 = 1_000_000_000;

/// A span of time in nanoseconds.
#[derive(Debug, Clone, Copy, PartialEq, Eq, Structural)]
pub struct Span {
    pub nanos: u128,
}

impl Span {
    /// A span of whole seconds.
    pub fn from_secs(secs: u64) -> (span: Span)
        ensures
            span.nanos == secs * NANOS_PER_SEC,
    {
        assert(secs * 1_000_000_000 <= u64::MAX * 1_000_000_000) by (nonlinear_arith)
            requires
                secs <= u64::MAX,
        ;
        Span { nanos: secs as u128 * NANOS_PER_SEC }
    }

    /// A span of whole milliseconds.
    pub fn from_millis(millis: u64) -> (span: Span)
        ensures
            span.nanos == millis * 1_000_000,
    {
        assert(millis * 1_000_000 <= u64::MAX * 1_000_000) by (nonlinear_arith)
            requires
                millis <= u64::MAX,
        ;
        Span { nanos: millis as u128 * 1_000_000 }
    }

    /// Whether no time is left.
    pub fn is_zero(self) -> (zero: bool)
        ensures
            zero == (self.nanos == 0),
    {
        self.nanos == 0
    }

    /// The shorter of two spans.
    pub fn min(self, other: Span) -> (span: Span)
        ensures
            span.nanos == if self.nanos <= other.nanos {
                self.nanos
            } else {
                other.nanos
            },
    {
        if self.nanos <= other.nanos {
            self
        } else {
            other
        }
    }
}

/// A reading of the UTC clock: whole seconds and the nanoseconds within that second.
///
/// A reading inside a leap second has no value of this type.
#[derive(Debug, Clone, Copy, PartialEq, Eq, Structural)]
pub struct Timestamp {
    secs: i64,
    nanos: u32,
}

impl Timestamp {
    #[verifier::type_invariant]
    spec fn within_second(self) -> bool {
        self.nanos < 1_000_000_000
    }

    /// Nanoseconds since the epoch.
    pub closed spec fn total(self) -> int {
        self.secs * 1_000_000_000 + self.nanos
    }

    /// A reading from its parts, or nothing when `nanos` is not below one second.
    pub fn new(secs: i64, nanos: u32) -> (at: Option<Timestamp>)
        ensures
            at is Some == (nanos < 1_000_000_000),
            at matches Some(at) ==> at.total() == secs * 1_000_000_000 + nanos,
    {
        if nanos < 1_000_000_000 {
            Some(Timestamp { secs, nanos })
        } else {
            None
        }
    }

    /// Nanoseconds since the epoch.
    pub fn nanos_since_epoch(self) -> (nanos: i128)
        ensures
            nanos == self.total(),
            -0x1_0000_0000_0000_0000_0000_0000int < nanos < 0x1_0000_0000_0000_0000_0000_0000int,
    {
        assert(-0x8000_0000_0000_0000 * 1_000_000_000 <= self.secs * 1_000_000_000
            <= 0x7fff_ffff_ffff_ffff * 1_000_000_000);
        self.secs as i128 * 1_000_000_000 + self.nanos as i128
    }

    /// Whether this reading is later than `other`.
    pub fn after(self, other: Timestamp) -> (later: bool)
        ensures
            later == (self.total() > other.total()),
    {
        self.nanos_since_epoch() > other.nanos_since_epoch()
    }

    /// Time from `earlier` to this reading, zero when the clock moved backwards.
    pub fn elapsed_since(self, earlier: Timestamp) -> (span: Span)
        ensures
            span.nanos == if self.total() > earlier.total() {
                self.total() - earlier.total()
            } else {
                0
            },
    {
        let now: i128 = self.nanos_since_epoch();
        let then: i128 = earlier.nanos_since_epoch();
        if now > then {
            Span { nanos: (now - then) as u128 }
        } else {
            Span { nanos: 0 }
        }
    }
}

/// A reading of the monotonic clock in nanoseconds.
#[derive(Debug, Clone, Copy, PartialEq, Eq, Structural)]
pub struct Tick {
    pub nanos: u128,
}

impl Tick {
    /// The reading after `span`, or nothing past the end of the clock.
    pub fn checked_after(self, span: Span) -> (tick: Option<Tick>)
        ensures
            tick == if self.nanos + span.nanos <= u128::MAX {
                Some(Tick { nanos: (self.nanos + span.nanos) as u128 })
            } else {
                None
            },
    {
        match self.nanos.checked_add(span.nanos) {
            Some(nanos) => Some(Tick { nanos }),
            None => None,
        }
    }
}

} // verus!
