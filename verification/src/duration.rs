//! A span of time, as a whole number of nanoseconds.

use vstd::prelude::*;

verus! {

/// Nanoseconds in one second.
pub const NANOS_PER_SEC: u32 = 1_000_000_000;

/// The longest span a [`Duration`] holds, in nanoseconds: `u64::MAX` seconds and one nanosecond
/// short of a further second.
pub open spec fn max_nanos() -> nat {
    (u64::MAX * NANOS_PER_SEC + NANOS_PER_SEC - 1) as nat
}

/// A span of time: whole seconds plus fewer than a second's worth of nanoseconds.
///
/// Its view is the span in nanoseconds.
#[derive(Clone, Copy, Debug, PartialEq, Eq, Structural)]
pub struct Duration {
    secs: u64,
    nanos: u32,
}

impl View for Duration {
    type V = nat;

    closed spec fn view(&self) -> nat {
        (self.secs * NANOS_PER_SEC + self.nanos) as nat
    }
}

impl Duration {
    /// The sub-second part is kept below one second.
    #[verifier::type_invariant]
    pub closed spec fn wf(self) -> bool {
        self.nanos < NANOS_PER_SEC
    }

    /// A duration never exceeds [`max_nanos`].
    pub proof fn lemma_bounded(self)
        requires
            self.wf(),
        ensures
            self@ <= max_nanos(),
            self@ <= u64::MAX * 1_000_000_000 + 999_999_999,
    {
    }

    /// The longest span is the greatest number of whole seconds and one nanosecond short of another.
    pub proof fn law_longest_span()
        ensures
            max_nanos() == u64::MAX * 1_000_000_000 + 999_999_999,
    {
    }

    /// A duration is determined by its length in nanoseconds.
    pub proof fn lemma_view_injective(self, other: Duration)
        requires
            self.wf(),
            other.wf(),
            self@ == other@,
        ensures
            self == other,
    {
    }

    /// The empty span.
    pub fn zero() -> (r: Duration)
        ensures
            r@ == 0,
    {
        Duration { secs: 0, nanos: 0 }
    }

    /// `secs` seconds and `nanos` nanoseconds; whole seconds among the nanoseconds carry over.
    pub fn new(secs: u64, nanos: u32) -> (r: Duration)
        requires
            secs + nanos / NANOS_PER_SEC <= u64::MAX,
        ensures
            r@ == secs * 1_000_000_000 + nanos,
    {
        let carry: u32 = nanos / NANOS_PER_SEC;
        Duration { secs: secs + carry as u64, nanos: nanos % NANOS_PER_SEC }
    }

    /// The whole seconds of the span.
    pub fn as_secs(&self) -> (r: u64)
        ensures
            r == self@ / 1_000_000_000,
    {
        proof {
            use_type_invariant(self);
        }
        self.secs
    }

    /// The nanoseconds of the span beyond its whole seconds.
    pub fn subsec_nanos(&self) -> (r: u32)
        ensures
            r == self@ % 1_000_000_000,
    {
        proof {
            use_type_invariant(self);
        }
        self.nanos
    }

    /// The sum of two spans, or `None` where it exceeds the longest span.
    pub fn checked_add(self, other: Duration) -> (r: Option<Duration>)
        ensures
            r is Some <==> self@ + other@ <= max_nanos(),
            r is Some <==> self@ + other@ <= u64::MAX * 1_000_000_000 + 999_999_999,
            r matches Some(sum) ==> sum@ == self@ + other@,
    {
        proof {
            use_type_invariant(&self);
            use_type_invariant(&other);
        }
        let mut nanos: u32 = self.nanos + other.nanos;
        let mut carry: u64 = 0;
        if nanos >= NANOS_PER_SEC {
            nanos = nanos - NANOS_PER_SEC;
            carry = 1;
        }
        if self.secs > u64::MAX - other.secs {
            return None;
        }
        let secs: u64 = self.secs + other.secs;
        if secs > u64::MAX - carry {
            return None;
        }
        Some(Duration { secs: secs + carry, nanos })
    }

    /// The sum of two spans.
    pub fn plus(self, other: Duration) -> (r: Duration)
        requires
            self@ + other@ <= max_nanos(),
        ensures
            r@ == self@ + other@,
    {
        self.checked_add(other).unwrap()
    }

    /// What is left of a span after `other` is taken off, and nothing where `other` is longer.
    pub fn saturating_sub(self, other: Duration) -> (r: Duration)
        ensures
            r@ == if self@ >= other@ { (self@ - other@) as nat } else { 0 },
    {
        proof {
            use_type_invariant(&self);
            use_type_invariant(&other);
        }
        if self.secs < other.secs || (self.secs == other.secs && self.nanos < other.nanos) {
            return Duration { secs: 0, nanos: 0 };
        }
        let secs: u64 = self.secs - other.secs;
        if self.nanos >= other.nanos {
            Duration { secs, nanos: self.nanos - other.nanos }
        } else {
            Duration { secs: secs - 1, nanos: self.nanos + NANOS_PER_SEC - other.nanos }
        }
    }
}

} // verus!
