//! Instants on the UTC time line.

use crate::span::{Span, NANOS_PER_SEC};
use vstd::prelude::*;

verus! {

/// An instant, held as whole seconds since 1970-01-01T00:00:00Z (negative
/// before it) and the nanoseconds past that second. Its view is the instant
/// in nanoseconds since that origin.
#[derive(Debug, Clone, Copy, PartialEq, Eq, Structural)]
pub struct Timestamp {
    secs: i64,
    nanos: u32,
}

impl View for Timestamp {
    type V = int;

    closed spec fn view(&self) -> int {
        self.secs as int * 1_000_000_000 + self.nanos as int
    }
}

/// `chrono::Utc::now`, read through `DateTime::timestamp` and
/// `DateTime::timestamp_subsec_nanos`: the present instant as seconds since
/// the Unix epoch and nanoseconds past that second. chrono builds the value
/// from a `std::time::Duration` since the epoch, whose sub-second part is
/// below one second; nothing else is claimed of the result. chrono panics
/// where the system clock stands before the epoch.
#[verifier::external_body]
fn utc_now_parts() -> (r: (i64, u32))
    ensures
        r.1 < NANOS_PER_SEC,
{
    let now = chrono::Utc::now();
    (now.timestamp(), now.timestamp_subsec_nanos())
}

impl Timestamp {
    /// The nanoseconds stay below one second.
    #[verifier::type_invariant]
    pub closed spec fn wf(self) -> bool {
        self.nanos < NANOS_PER_SEC
    }

    /// The instant `nanos` nanoseconds past second `secs`, where `nanos` is
    /// less than one second; `None` otherwise.
    pub fn new(secs: i64, nanos: u32) -> (r: Option<Timestamp>)
        ensures
            r.is_some() <==> nanos < NANOS_PER_SEC,
            r matches Some(t) ==> t.wf() && t@ == secs as int * 1_000_000_000 + nanos as int,
    {
        if nanos < NANOS_PER_SEC {
            Some(Timestamp { secs, nanos })
        } else {
            None
        }
    }

    /// The instant at the start of second `secs`, for `secs` that fits an
    /// `i64`.
    pub closed spec fn at_second(secs: int) -> Timestamp {
        Timestamp { secs: secs as i64, nanos: 0 }
    }

    /// `at_second` gives a valid instant, a whole number of seconds from the
    /// origin.
    pub proof fn lemma_at_second(secs: int)
        requires
            i64::MIN <= secs <= i64::MAX,
        ensures
            Timestamp::at_second(secs).wf(),
            Timestamp::at_second(secs)@ == secs * 1_000_000_000,
    {
    }

    /// The instant at the start of second `secs`.
    pub fn from_secs(secs: i64) -> (r: Timestamp)
        ensures
            r.wf(),
            r == Timestamp::at_second(secs as int),
            r@ == secs as int * 1_000_000_000,
    {
        Timestamp { secs, nanos: 0 }
    }

    /// The present instant, as the system clock gives it.
    pub fn now() -> (r: Timestamp)
        ensures
            r.wf(),
    {
        let parts: (i64, u32) = utc_now_parts();
        Timestamp { secs: parts.0, nanos: parts.1 }
    }

    /// The whole seconds since the origin, rounded towards the past.
    pub fn secs(&self) -> (r: i64)
        ensures
            r == self@ / 1_000_000_000,
    {
        proof {
            use_type_invariant(self);
        }
        self.secs
    }

    /// The nanoseconds past the whole second.
    pub fn subsec_nanos(&self) -> (r: u32)
        ensures
            r == self@ % 1_000_000_000,
            r < NANOS_PER_SEC,
    {
        proof {
            use_type_invariant(self);
        }
        self.nanos
    }

    /// The time from `earlier` to this instant; `None` where `earlier` is in
    /// fact the later of the two.
    pub fn duration_since(&self, earlier: Timestamp) -> (r: Option<Span>)
        ensures
            r.is_some() <==> self@ >= earlier@,
            r matches Some(d) ==> d.wf() && d@ == self@ - earlier@,
    {
        proof {
            use_type_invariant(self);
            use_type_invariant(&earlier);
        }
        let later_nanos: i128 = (self.secs as i128) * 1_000_000_000 + (self.nanos as i128);
        let earlier_nanos: i128 = (earlier.secs as i128) * 1_000_000_000 + (earlier.nanos as i128);
        if later_nanos < earlier_nanos {
            None
        } else {
            let between: u128 = (later_nanos - earlier_nanos) as u128;
            let secs: u128 = between / 1_000_000_000;
            let nanos: u128 = between % 1_000_000_000;
            Span::new(secs as u64, nanos as u32)
        }
    }
}

} // verus!
