//! Lengths of time.

use vstd::prelude::*;

verus! {

/// Nanoseconds in one second.
pub const NANOS_PER_SEC: u32 = 1_000_000_000;

/// Nanoseconds in one millisecond.
pub const NANOS_PER_MILLI: u32 = 1_000_000;

/// A non-negative length of time: whole seconds and a sub-second part in
/// nanoseconds. Its view is the length in nanoseconds.
#[derive(Debug, Clone, Copy, PartialEq, Eq, Structural)]
pub struct Span {
    secs: u64,
    nanos: u32,
}

impl View for Span {
    type V = nat;

    closed spec fn view(&self) -> nat {
        self.secs as nat * 1_000_000_000 + self.nanos as nat
    }
}

impl Span {
    /// The sub-second part stays below one second.
    #[verifier::type_invariant]
    pub closed spec fn wf(self) -> bool {
        self.nanos < NANOS_PER_SEC
    }

    /// The span of `secs` seconds and `nanos` nanoseconds, where `nanos` is
    /// less than one second; `None` otherwise.
    pub fn new(secs: u64, nanos: u32) -> (r: Option<Span>)
        ensures
            r.is_some() <==> nanos < NANOS_PER_SEC,
            r matches Some(s) ==> s.wf() && s@ == secs as nat * 1_000_000_000 + nanos as nat,
    {
        if nanos < NANOS_PER_SEC {
            Some(Span { secs, nanos })
        } else {
            None
        }
    }

    /// The empty span.
    pub fn zero() -> (r: Span)
        ensures
            r.wf(),
            r@ == 0,
    {
        Span { secs: 0, nanos: 0 }
    }

    /// The span of `millis` milliseconds.
    pub fn from_millis(millis: u64) -> (r: Span)
        ensures
            r.wf(),
            r@ == millis as nat * 1_000_000,
    {
        let secs: u64 = millis / 1_000;
        let rest: u64 = millis % 1_000;
        let nanos: u32 = (rest as u32) * NANOS_PER_MILLI;
        Span { secs, nanos }
    }

    /// This span less `rhs`, or the empty span where `rhs` is the longer.
    pub fn saturating_sub(self, rhs: Span) -> (r: Span)
        ensures
            r.wf(),
            r@ == if self@ >= rhs@ { self@ - rhs@ } else { 0 },
    {
        proof {
            use_type_invariant(&self);
            use_type_invariant(&rhs);
        }
        if self.secs < rhs.secs || (self.secs == rhs.secs && self.nanos <= rhs.nanos) {
            Span { secs: 0, nanos: 0 }
        } else if self.nanos >= rhs.nanos {
            Span { secs: self.secs - rhs.secs, nanos: self.nanos - rhs.nanos }
        } else {
            Span { secs: self.secs - rhs.secs - 1, nanos: self.nanos + (NANOS_PER_SEC - rhs.nanos) }
        }
    }

    /// Whether the span is empty.
    pub fn is_zero(&self) -> (r: bool)
        ensures
            r <==> self@ == 0,
    {
        self.secs == 0 && self.nanos == 0
    }

    /// The whole seconds of the span.
    pub fn as_secs(&self) -> (r: u64)
        ensures
            r == self@ / 1_000_000_000,
    {
        proof {
            use_type_invariant(self);
        }
        self.secs
    }

    /// The part of the span beyond its whole seconds, in nanoseconds.
    pub fn subsec_nanos(&self) -> (r: u32)
        ensures
            r == self@ % 1_000_000_000,
            r < NANOS_PER_SEC,
    {
        proof {
            use_type_invariant(self);
        }
        self.nanos
    }

    /// The whole milliseconds of the span.
    pub fn as_millis(&self) -> (r: u128)
        ensures
            r == self@ / 1_000_000,
    {
        proof {
            use_type_invariant(self);
        }
        let whole: u128 = (self.secs as u128) * 1_000;
        let part: u32 = self.nanos / NANOS_PER_MILLI;
        whole + (part as u128)
    }
}

} // verus!
