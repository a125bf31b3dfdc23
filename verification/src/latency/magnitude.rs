//! The size of a latency fault.
use vstd::prelude::*;

verus! {

/// Nanoseconds in a second.
pub const NANOS_PER_SEC: u32 = 1_000_000_000;

/// Nanoseconds in a millisecond.
pub const NANOS_PER_MILLI: u32 = 1_000_000;

/// Milliseconds in a second.
pub const MILLIS_PER_SEC: u64 = 1_000;

/// A span of time that is never negative: whole seconds and the nanoseconds
/// of the second that has begun.
#[derive(Clone, Copy, Debug, PartialEq, Eq, Structural)]
pub struct Latency {
    secs: u64,
    nanos: u32,
}

impl Latency {
    /// The invariant of the type: the nanoseconds stay below one second.
    #[verifier::type_invariant]
    pub open spec fn wf(&self) -> bool {
        self.spec_subsec_nanos() < NANOS_PER_SEC
    }

    /// The whole seconds of the span.
    pub closed spec fn spec_secs(&self) -> u64 {
        self.secs
    }

    /// The nanoseconds beyond the whole seconds.
    pub closed spec fn spec_subsec_nanos(&self) -> u32 {
        self.nanos
    }

    /// The span in nanoseconds: what a latency stands for.
    pub open spec fn total_nanos(&self) -> nat {
        (self.spec_secs() * NANOS_PER_SEC + self.spec_subsec_nanos()) as nat
    }

    /// The span of `secs` seconds and `nanos` nanoseconds, which stay below
    /// one second.
    pub fn new(secs: u64, nanos: u32) -> (span: Latency)
        requires
            nanos < NANOS_PER_SEC,
        ensures
            span.wf(),
            span.spec_secs() == secs,
            span.spec_subsec_nanos() == nanos,
    {
        Latency { secs, nanos }
    }

    /// No time at all.
    pub fn zero() -> (span: Latency)
        ensures
            span.wf(),
            span.total_nanos() == 0,
    {
        Latency { secs: 0, nanos: 0 }
    }

    /// The span of `millis` milliseconds.
    pub fn from_millis(millis: u64) -> (span: Latency)
        ensures
            span.wf(),
            span.total_nanos() == millis * NANOS_PER_MILLI,
    {
        let secs: u64 = millis / MILLIS_PER_SEC;
        let rest: u64 = millis % MILLIS_PER_SEC;
        assert(rest * 1_000_000 < 1_000_000_000) by (nonlinear_arith)
            requires
                rest < 1_000,
        ;
        let nanos: u32 = (rest * 1_000_000) as u32;
        assert(secs * 1_000_000_000 + rest * 1_000_000 == millis * 1_000_000) by (nonlinear_arith)
            requires
                secs == millis / 1_000,
                rest == millis % 1_000,
        ;
        Latency { secs, nanos }
    }

    /// The whole seconds of the span.
    #[verifier::when_used_as_spec(spec_secs)]
    pub fn secs(&self) -> (secs: u64)
        ensures
            secs == self.spec_secs(),
    {
        self.secs
    }

    /// The nanoseconds beyond the whole seconds.
    #[verifier::when_used_as_spec(spec_subsec_nanos)]
    pub fn subsec_nanos(&self) -> (nanos: u32)
        ensures
            nanos == self.spec_subsec_nanos(),
    {
        self.nanos
    }

    /// The span in whole milliseconds, what is left of a millisecond
    /// dropped.
    pub fn as_millis(&self) -> (millis: u128)
        ensures
            millis == self.total_nanos() / (NANOS_PER_MILLI as nat),
    {
        proof {
            use_type_invariant(self);
        }
        let whole: u128 = self.secs as u128 * 1_000;
        let part: u32 = self.nanos / NANOS_PER_MILLI;
        assert((self.secs * 1_000_000_000 + self.nanos) / 1_000_000 == self.secs * 1_000
            + self.nanos / 1_000_000) by (nonlinear_arith);
        whole + part as u128
    }

    /// Whether the span is empty.
    pub fn is_zero(&self) -> (empty: bool)
        ensures
            empty == (self.total_nanos() == 0),
    {
        assert(self.secs * 1_000_000_000 + self.nanos == 0 <==> self.secs == 0 && self.nanos == 0)
            by (nonlinear_arith);
        self.secs == 0 && self.nanos == 0
    }

    /// Whether this span is shorter than `other`.
    pub fn shorter_than(&self, other: &Latency) -> (shorter: bool)
        ensures
            shorter == (self.total_nanos() < other.total_nanos()),
    {
        proof {
            use_type_invariant(self);
            use_type_invariant(other);
            lemma_order(*self, *other);
        }
        self.secs < other.secs || (self.secs == other.secs && self.nanos < other.nanos)
    }

    /// Whether this span is no longer than `other`.
    pub fn at_most(&self, other: &Latency) -> (within: bool)
        ensures
            within == (self.total_nanos() <= other.total_nanos()),
    {
        proof {
            use_type_invariant(self);
            use_type_invariant(other);
            lemma_order(*self, *other);
        }
        self.secs < other.secs || (self.secs == other.secs && self.nanos <= other.nanos)
    }
}

/// Two latencies compare by their nanoseconds as they do by seconds first
/// and the rest second.
pub proof fn lemma_order(a: Latency, b: Latency)
    requires
        a.wf(),
        b.wf(),
    ensures
        a.total_nanos() < b.total_nanos() <==> (a.spec_secs() < b.spec_secs() || (a.spec_secs()
            == b.spec_secs() && a.spec_subsec_nanos() < b.spec_subsec_nanos())),
        a.total_nanos() == b.total_nanos() <==> a == b,
{
    let (s, n, t, m) = (
        a.spec_secs() as int,
        a.spec_subsec_nanos() as int,
        b.spec_secs() as int,
        b.spec_subsec_nanos() as int,
    );
    assert(s < t ==> s * 1_000_000_000 + n < t * 1_000_000_000 + m) by (nonlinear_arith)
        requires
            0 <= n < 1_000_000_000,
            0 <= m < 1_000_000_000,
    ;
    assert(t < s ==> t * 1_000_000_000 + m < s * 1_000_000_000 + n) by (nonlinear_arith)
        requires
            0 <= n < 1_000_000_000,
            0 <= m < 1_000_000_000,
    ;
}

} // verus!
