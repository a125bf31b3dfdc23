//! Ranges from which the size of a latency fault is drawn.
use vstd::prelude::*;
use crate::decider::Error;
use crate::latency::magnitude::Latency;
use crate::latency::magnitude::NANOS_PER_MILLI;
use crate::random::Draw;
use crate::random::RandomStream;

verus! {

/// A set of latencies from which one is drawn at random. A range does not
/// ask whether a fault fires: it only says how large it is.
pub trait Range {
    /// Whether the range can yield `latency`: it can, unless the range says
    /// more.
    open spec fn contains(&self, latency: Latency) -> bool {
        true
    }

    /// A latency of the range, drawn with `rng`.
    fn get_latency(&self, rng: &mut RandomStream) -> (latency: Latency)
        ensures
            latency.wf(),
            self.contains(latency),
            final(rng).extends(old(rng)),
    ;
}

/// Whole milliseconds between two bounds. The lower bound belongs to the
/// range; the upper bound does where the range is closed.
#[derive(Clone, Copy, Debug, PartialEq, Eq, Structural)]
pub struct MillisRange {
    low: u64,
    high: u64,
    closed: bool,
}

impl MillisRange {
    /// The invariant of the type: the lower bound is not above the upper.
    #[verifier::type_invariant]
    pub open spec fn wf(&self) -> bool {
        self.spec_low() <= self.spec_high()
    }

    /// The lower bound, in milliseconds.
    pub closed spec fn spec_low(&self) -> u64 {
        self.low
    }

    /// The upper bound, in milliseconds.
    pub closed spec fn spec_high(&self) -> u64 {
        self.high
    }

    /// Whether the upper bound belongs to the range.
    pub closed spec fn spec_is_closed(&self) -> bool {
        self.closed
    }

    /// Whether no number of milliseconds lies in the range: it is half-open
    /// and its bounds are equal.
    pub open spec fn is_empty(&self) -> bool {
        !self.spec_is_closed() && self.spec_low() == self.spec_high()
    }

    /// What a random stream is asked for when a latency is drawn: a number
    /// between the bounds, or nothing where the range is empty.
    pub open spec fn draw(&self) -> Option<Draw> {
        if self.spec_is_closed() {
            Some(Draw::Through(self.spec_low(), self.spec_high()))
        } else if self.is_empty() {
            None
        } else {
            Some(Draw::Below(self.spec_low(), self.spec_high()))
        }
    }

    /// Whether `millis` lies between the bounds.
    pub open spec fn holds(&self, millis: int) -> bool {
        &&& self.spec_low() <= millis
        &&& if self.spec_is_closed() {
            millis <= self.spec_high()
        } else {
            millis < self.spec_high()
        }
    }

    /// The half-open range `low..high`, or `InvalidRange` where `low` lies
    /// above `high`.
    pub fn new(low: u64, high: u64) -> (made: Result<MillisRange, Error>)
        ensures
            low <= high ==> made is Ok,
            low > high ==> made == Err::<MillisRange, Error>(Error::InvalidRange),
            made is Ok ==> made->Ok_0.wf() && made->Ok_0.spec_low() == low
                && made->Ok_0.spec_high() == high && !made->Ok_0.spec_is_closed(),
    {
        if low > high {
            Err(Error::InvalidRange)
        } else {
            Ok(MillisRange { low, high, closed: false })
        }
    }

    /// The closed range `low..=high`, or `InvalidRange` where `low` lies
    /// above `high`.
    pub fn inclusive(low: u64, high: u64) -> (made: Result<MillisRange, Error>)
        ensures
            low <= high ==> made is Ok,
            low > high ==> made == Err::<MillisRange, Error>(Error::InvalidRange),
            made is Ok ==> made->Ok_0.wf() && made->Ok_0.spec_low() == low
                && made->Ok_0.spec_high() == high && made->Ok_0.spec_is_closed(),
    {
        if low > high {
            Err(Error::InvalidRange)
        } else {
            Ok(MillisRange { low, high, closed: true })
        }
    }

    /// The lower bound.
    #[verifier::when_used_as_spec(spec_low)]
    pub fn low(&self) -> (low: u64)
        ensures
            low == self.spec_low(),
    {
        self.low
    }

    /// The upper bound.
    #[verifier::when_used_as_spec(spec_high)]
    pub fn high(&self) -> (high: u64)
        ensures
            high == self.spec_high(),
    {
        self.high
    }

    /// Whether the upper bound belongs to the range.
    #[verifier::when_used_as_spec(spec_is_closed)]
    pub fn is_closed(&self) -> (closed: bool)
        ensures
            closed == self.spec_is_closed(),
    {
        self.closed
    }
}

impl Range for MillisRange {
    /// A latency of whole milliseconds between the bounds; of an empty
    /// range, the lower bound alone.
    open spec fn contains(&self, latency: Latency) -> bool {
        &&& latency.total_nanos() % (NANOS_PER_MILLI as nat) == 0
        &&& if self.is_empty() {
            latency.total_nanos() / (NANOS_PER_MILLI as nat) == self.spec_low()
        } else {
            self.holds((latency.total_nanos() / (NANOS_PER_MILLI as nat)) as int)
        }
    }

    fn get_latency(&self, rng: &mut RandomStream) -> (latency: Latency)
        ensures
            match self.draw() {
                Some(draw) => final(rng).after(old(rng), draw),
                None => *final(rng) == *old(rng),
            },
    {
        proof {
            use_type_invariant(self);
        }
        let millis: u64 = if self.closed {
            rng.through(self.low, self.high)
        } else if self.low < self.high {
            rng.below(self.low, self.high)
        } else {
            self.low
        };
        let latency = Latency::from_millis(millis);
        assert((millis * 1_000_000) % 1_000_000 == 0 && (millis * 1_000_000) / 1_000_000 == millis)
            by (nonlinear_arith);
        latency
    }
}

/// Spans of time between two bounds, to the nanosecond. The lower bound
/// belongs to the range; the upper bound does where the range is closed.
#[derive(Clone, Copy, Debug, PartialEq, Eq, Structural)]
pub struct SpanRange {
    low: Latency,
    high: Latency,
    closed: bool,
}

impl SpanRange {
    /// The invariant of the type: the lower bound is not the longer one.
    #[verifier::type_invariant]
    pub open spec fn wf(&self) -> bool {
        &&& self.spec_low().wf()
        &&& self.spec_high().wf()
        &&& self.spec_low().total_nanos() <= self.spec_high().total_nanos()
    }

    /// The lower bound.
    pub closed spec fn spec_low(&self) -> Latency {
        self.low
    }

    /// The upper bound.
    pub closed spec fn spec_high(&self) -> Latency {
        self.high
    }

    /// Whether the upper bound belongs to the range.
    pub closed spec fn spec_is_closed(&self) -> bool {
        self.closed
    }

    /// Whether no span lies in the range: it is half-open and its bounds
    /// are equal.
    pub open spec fn is_empty(&self) -> bool {
        !self.spec_is_closed() && self.spec_low() == self.spec_high()
    }

    /// What a random stream is asked for when a latency is drawn: a span
    /// between the bounds, or nothing where the range is empty.
    pub open spec fn draw(&self) -> Option<Draw> {
        if self.spec_is_closed() {
            Some(Draw::SpanThrough(self.spec_low(), self.spec_high()))
        } else if self.is_empty() {
            None
        } else {
            Some(Draw::SpanBelow(self.spec_low(), self.spec_high()))
        }
    }

    /// Whether a span of `nanos` nanoseconds lies between the bounds.
    pub open spec fn holds(&self, nanos: nat) -> bool {
        &&& self.spec_low().total_nanos() <= nanos
        &&& if self.spec_is_closed() {
            nanos <= self.spec_high().total_nanos()
        } else {
            nanos < self.spec_high().total_nanos()
        }
    }

    /// The half-open range from `low` to `high`, or `InvalidRange` where
    /// `low` is the longer of the two.
    pub fn new(low: Latency, high: Latency) -> (made: Result<SpanRange, Error>)
        ensures
            low.total_nanos() <= high.total_nanos() ==> made is Ok,
            low.total_nanos() > high.total_nanos() ==> made == Err::<SpanRange, Error>(
                Error::InvalidRange,
            ),
            made is Ok ==> made->Ok_0.wf() && made->Ok_0.spec_low() == low
                && made->Ok_0.spec_high() == high && !made->Ok_0.spec_is_closed(),
    {
        proof {
            use_type_invariant(&low);
            use_type_invariant(&high);
        }
        if high.shorter_than(&low) {
            Err(Error::InvalidRange)
        } else {
            Ok(SpanRange { low, high, closed: false })
        }
    }

    /// The closed range from `low` to `high`, or `InvalidRange` where `low`
    /// is the longer of the two.
    pub fn inclusive(low: Latency, high: Latency) -> (made: Result<SpanRange, Error>)
        ensures
            low.total_nanos() <= high.total_nanos() ==> made is Ok,
            low.total_nanos() > high.total_nanos() ==> made == Err::<SpanRange, Error>(
                Error::InvalidRange,
            ),
            made is Ok ==> made->Ok_0.wf() && made->Ok_0.spec_low() == low
                && made->Ok_0.spec_high() == high && made->Ok_0.spec_is_closed(),
    {
        proof {
            use_type_invariant(&low);
            use_type_invariant(&high);
        }
        if high.shorter_than(&low) {
            Err(Error::InvalidRange)
        } else {
            Ok(SpanRange { low, high, closed: true })
        }
    }

    /// The lower bound.
    #[verifier::when_used_as_spec(spec_low)]
    pub fn low(&self) -> (low: Latency)
        ensures
            low == self.spec_low(),
    {
        self.low
    }

    /// The upper bound.
    #[verifier::when_used_as_spec(spec_high)]
    pub fn high(&self) -> (high: Latency)
        ensures
            high == self.spec_high(),
    {
        self.high
    }

    /// Whether the upper bound belongs to the range.
    #[verifier::when_used_as_spec(spec_is_closed)]
    pub fn is_closed(&self) -> (closed: bool)
        ensures
            closed == self.spec_is_closed(),
    {
        self.closed
    }
}

impl Range for SpanRange {
    /// A latency between the bounds; of an empty range, the lower bound
    /// alone.
    open spec fn contains(&self, latency: Latency) -> bool {
        if self.is_empty() {
            latency == self.spec_low()
        } else {
            self.holds(latency.total_nanos())
        }
    }

    fn get_latency(&self, rng: &mut RandomStream) -> (latency: Latency)
        ensures
            match self.draw() {
                Some(draw) => final(rng).after(old(rng), draw),
                None => *final(rng) == *old(rng),
            },
    {
        proof {
            use_type_invariant(self);
            crate::latency::magnitude::lemma_order(self.low, self.high);
        }
        if self.closed {
            rng.span_through(self.low, self.high)
        } else if self.low.shorter_than(&self.high) {
            rng.span_below(self.low, self.high)
        } else {
            self.low
        }
    }
}

/// Every latency of a range of milliseconds lies between its bounds: it is
/// never shorter than the lower bound and, unless the range is empty,
/// never longer than the upper bound, which it reaches only where the range
/// is closed.
pub proof fn lemma_millis_within_bounds(range: MillisRange, latency: Latency)
    requires
        range.wf(),
        range.contains(latency),
    ensures
        range.spec_low() * NANOS_PER_MILLI <= latency.total_nanos(),
        !range.is_empty() ==> latency.total_nanos() <= range.spec_high() * NANOS_PER_MILLI,
        !range.is_empty() && !range.spec_is_closed() ==> latency.total_nanos() < range.spec_high()
            * NANOS_PER_MILLI,
        range.is_empty() ==> latency.total_nanos() == range.spec_low() * NANOS_PER_MILLI,
{
    let total = latency.total_nanos() as int;
    let millis = total / 1_000_000;
    let (low, high) = (range.spec_low() as int, range.spec_high() as int);
    assert(total == millis * 1_000_000) by (nonlinear_arith)
        requires
            total % 1_000_000 == 0,
            millis == total / 1_000_000,
    ;
    assert(low <= millis ==> low * 1_000_000 <= millis * 1_000_000) by (nonlinear_arith);
    assert(millis <= high ==> millis * 1_000_000 <= high * 1_000_000) by (nonlinear_arith);
    assert(millis < high ==> millis * 1_000_000 < high * 1_000_000) by (nonlinear_arith);
}

/// Every latency of a range of spans lies between its bounds: it is never
/// shorter than the lower bound and, unless the range is empty, never
/// longer than the upper bound, which it reaches only where the range is
/// closed.
pub proof fn lemma_span_within_bounds(range: SpanRange, latency: Latency)
    requires
        range.wf(),
        range.contains(latency),
    ensures
        range.spec_low().total_nanos() <= latency.total_nanos(),
        !range.is_empty() ==> latency.total_nanos() <= range.spec_high().total_nanos(),
        !range.is_empty() && !range.spec_is_closed() ==> latency.total_nanos()
            < range.spec_high().total_nanos(),
        range.is_empty() ==> latency == range.spec_low(),
{
}

} // verus!
