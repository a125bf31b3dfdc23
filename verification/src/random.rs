//! The pseudorandom stream that an interceptor owns.
use vstd::prelude::*;
use rand::rngs::OsRng;
use rand::rngs::StdRng;
use rand::Rng;
use rand::RngCore;
use rand::SeedableRng;
use std::time::Duration;
use crate::latency::magnitude::Latency;
use crate::latency::magnitude::NANOS_PER_SEC;

verus! {

/// The generator of `rand` behind a [`RandomStream`]. Nothing of its state
/// is visible to the verifier.
#[verifier::external_type_specification]
#[verifier::external_body]
pub struct ExStdRng(StdRng);

/// Calls `rand::SeedableRng::seed_from_u64` for `StdRng`. Nothing is
/// claimed of the generator that comes back.
#[verifier::external_body]
fn rng_from_seed(seed: u64) -> (rng: StdRng) {
    StdRng::seed_from_u64(seed)
}

/// Calls `rand::SeedableRng::from_rng` for `StdRng` on `rand::rngs::OsRng`,
/// which fails where the operating system has no entropy to give; the
/// failure comes back as `None`. Nothing is claimed of the generator that
/// comes back.
#[verifier::external_body]
fn rng_try_from_entropy() -> (rng: Option<StdRng>) {
    StdRng::from_rng(OsRng).ok()
}

/// Calls `rand::RngCore::next_u64`. Nothing is claimed of the number that
/// comes back.
#[verifier::external_body]
fn rng_next_u64(rng: &mut StdRng) -> (word: u64) {
    rng.next_u64()
}

/// Calls `rand::Rng::gen_ratio`, which documents that it panics where the
/// denominator is zero or below the numerator, that it returns `true`
/// where both are equal and `false` where the numerator is zero.
#[verifier::external_body]
fn rng_gen_ratio(rng: &mut StdRng, numerator: u32, denominator: u32) -> (hit: bool)
    requires
        numerator <= denominator,
        denominator != 0,
    ensures
        numerator == denominator ==> hit,
        numerator == 0 ==> !hit,
{
    rng.gen_ratio(numerator, denominator)
}

/// Calls `rand::Rng::gen_range` on a half-open range of `u64`, which panics
/// on an empty range and returns a member of the range otherwise.
#[verifier::external_body]
fn rng_gen_below(rng: &mut StdRng, low: u64, high: u64) -> (value: u64)
    requires
        low < high,
    ensures
        low <= value < high,
{
    rng.gen_range(low..high)
}

/// Calls `rand::Rng::gen_range` on a closed range of `u64`, which panics on
/// an empty range and returns a member of the range otherwise.
#[verifier::external_body]
fn rng_gen_through(rng: &mut StdRng, low: u64, high: u64) -> (value: u64)
    requires
        low <= high,
    ensures
        low <= value <= high,
{
    rng.gen_range(low..=high)
}

/// The nanoseconds in a time of `secs` seconds and `nanos` nanoseconds.
pub open spec fn nanos_of(secs: u64, nanos: u32) -> int {
    secs * NANOS_PER_SEC + nanos
}

/// Calls `rand::Rng::gen_range` on a half-open range of
/// `std::time::Duration`, which panics on an empty range and returns a
/// member of the range otherwise. The bounds go in as seconds and
/// nanoseconds (`Duration::new`, which carries whole seconds over and so
/// wants the nanoseconds below one second here), and the result comes out
/// so (`Duration::as_secs`, `Duration::subsec_nanos`).
#[verifier::external_body]
fn rng_gen_span_below(rng: &mut StdRng, low: (u64, u32), high: (u64, u32)) -> (span: (u64, u32))
    requires
        low.1 < NANOS_PER_SEC,
        high.1 < NANOS_PER_SEC,
        nanos_of(low.0, low.1) < nanos_of(high.0, high.1),
    ensures
        span.1 < NANOS_PER_SEC,
        nanos_of(low.0, low.1) <= nanos_of(span.0, span.1) < nanos_of(high.0, high.1),
{
    let drawn: Duration = rng.gen_range(Duration::new(low.0, low.1)..Duration::new(high.0, high.1));
    (drawn.as_secs(), drawn.subsec_nanos())
}

/// Calls `rand::Rng::gen_range` on a closed range of `std::time::Duration`,
/// which panics on an empty range and returns a member of the range
/// otherwise. The bounds go in as seconds and nanoseconds (`Duration::new`,
/// which carries whole seconds over and so wants the nanoseconds below one
/// second here), and the result comes out so (`Duration::as_secs`,
/// `Duration::subsec_nanos`).
#[verifier::external_body]
fn rng_gen_span_through(rng: &mut StdRng, low: (u64, u32), high: (u64, u32)) -> (span: (u64, u32))
    requires
        low.1 < NANOS_PER_SEC,
        high.1 < NANOS_PER_SEC,
        nanos_of(low.0, low.1) <= nanos_of(high.0, high.1),
    ensures
        span.1 < NANOS_PER_SEC,
        nanos_of(low.0, low.1) <= nanos_of(span.0, span.1) <= nanos_of(high.0, high.1),
{
    let drawn: Duration = rng.gen_range(Duration::new(low.0, low.1)..=Duration::new(high.0, high.1));
    (drawn.as_secs(), drawn.subsec_nanos())
}

/// How a stream was seeded.
#[derive(Clone, Copy, Debug, PartialEq, Eq, Structural)]
pub enum Origin {
    /// From the given seed: the stream yields the same numbers whenever it
    /// is made.
    Seed(u64),
    /// From the entropy of the operating system: no two streams are alike.
    Entropy,
}

/// What a stream was asked for.
#[derive(Clone, Copy, Debug, PartialEq, Eq, Structural)]
pub enum Draw {
    /// One trial with the probability of the numerator over the
    /// denominator.
    Ratio(u32, u32),
    /// A number that is at least the first and below the second.
    Below(u64, u64),
    /// A number that is at least the first and at most the second.
    Through(u64, u64),
    /// A span that is at least the first and shorter than the second.
    SpanBelow(Latency, Latency),
    /// A span that is at least the first and at most the second.
    SpanThrough(Latency, Latency),
    /// A number of 64 bits, whatever it is.
    Word,
}

/// A private source of pseudorandom numbers. Every interceptor holds one of
/// its own, so that the faults of two pipelines are not correlated. The
/// stream records how it was seeded and what it was asked for.
pub struct RandomStream {
    rng: StdRng,
    origin: Ghost<Origin>,
    asked: Ghost<Seq<Draw>>,
}

impl RandomStream {
    /// How the stream was seeded.
    pub closed spec fn origin(&self) -> Origin {
        self.origin@
    }

    /// What the stream was asked for since it was made, in order.
    pub closed spec fn asked(&self) -> Seq<Draw> {
        self.asked@
    }

    /// How many requests the stream has answered since it was made. This
    /// counts requests, not the bits that the generator behind the stream
    /// spent on them: a trial that is certain spends none, and a number of
    /// a range may take several attempts.
    pub open spec fn taken(&self) -> nat {
        self.asked().len()
    }

    /// The stream at a later time: seeded as before, and asked for what it
    /// was asked before and perhaps for more.
    pub open spec fn extends(&self, before: &Self) -> bool {
        &&& self.origin() == before.origin()
        &&& before.asked().is_prefix_of(self.asked())
    }

    /// The stream after one more request.
    pub open spec fn after(&self, before: &Self, draw: Draw) -> bool {
        &&& self.origin() == before.origin()
        &&& self.asked() == before.asked().push(draw)
    }

    /// A stream that is determined by `seed`: two streams made from one seed
    /// yield the same numbers.
    pub fn from_seed(seed: u64) -> (stream: Self)
        ensures
            stream.origin() == Origin::Seed(seed),
            stream.asked() == Seq::<Draw>::empty(),
    {
        RandomStream {
            rng: rng_from_seed(seed),
            origin: Ghost(Origin::Seed(seed)),
            asked: Ghost(Seq::empty()),
        }
    }

    /// A stream seeded from the entropy of the operating system, or `None`
    /// where the operating system has none to give.
    pub fn try_from_entropy() -> (stream: Option<Self>)
        ensures
            stream matches Some(made) ==> made.origin() == Origin::Entropy && made.asked()
                == Seq::<Draw>::empty(),
    {
        match rng_try_from_entropy() {
            Some(rng) => Some(
                RandomStream { rng, origin: Ghost(Origin::Entropy), asked: Ghost(Seq::empty()) },
            ),
            None => None,
        }
    }

    /// One Bernoulli trial that succeeds with probability
    /// `numerator / denominator`.
    pub fn ratio(&mut self, numerator: u32, denominator: u32) -> (hit: bool)
        requires
            numerator <= denominator,
            denominator != 0,
        ensures
            numerator == denominator ==> hit,
            numerator == 0 ==> !hit,
            final(self).after(old(self), Draw::Ratio(numerator, denominator)),
    {
        proof {
            self.asked@ = self.asked@.push(Draw::Ratio(numerator, denominator));
        }
        rng_gen_ratio(&mut self.rng, numerator, denominator)
    }

    /// A number drawn uniformly from `low..high`.
    pub fn below(&mut self, low: u64, high: u64) -> (value: u64)
        requires
            low < high,
        ensures
            low <= value < high,
            final(self).after(old(self), Draw::Below(low, high)),
    {
        proof {
            self.asked@ = self.asked@.push(Draw::Below(low, high));
        }
        rng_gen_below(&mut self.rng, low, high)
    }

    /// A number drawn uniformly from `low..=high`.
    pub fn through(&mut self, low: u64, high: u64) -> (value: u64)
        requires
            low <= high,
        ensures
            low <= value <= high,
            final(self).after(old(self), Draw::Through(low, high)),
    {
        proof {
            self.asked@ = self.asked@.push(Draw::Through(low, high));
        }
        rng_gen_through(&mut self.rng, low, high)
    }

    /// A span of time drawn uniformly from those that are at least `low` and
    /// shorter than `high`.
    pub fn span_below(&mut self, low: Latency, high: Latency) -> (span: Latency)
        requires
            low.total_nanos() < high.total_nanos(),
        ensures
            span.wf(),
            low.total_nanos() <= span.total_nanos() < high.total_nanos(),
            final(self).after(old(self), Draw::SpanBelow(low, high)),
    {
        proof {
            use_type_invariant(&low);
            use_type_invariant(&high);
            self.asked@ = self.asked@.push(Draw::SpanBelow(low, high));
        }
        let (secs, nanos) = rng_gen_span_below(
            &mut self.rng,
            (low.secs(), low.subsec_nanos()),
            (high.secs(), high.subsec_nanos()),
        );
        Latency::new(secs, nanos)
    }

    /// A span of time drawn uniformly from those that are at least `low` and
    /// at most `high`.
    pub fn span_through(&mut self, low: Latency, high: Latency) -> (span: Latency)
        requires
            low.total_nanos() <= high.total_nanos(),
        ensures
            span.wf(),
            low.total_nanos() <= span.total_nanos() <= high.total_nanos(),
            final(self).after(old(self), Draw::SpanThrough(low, high)),
    {
        proof {
            use_type_invariant(&low);
            use_type_invariant(&high);
            self.asked@ = self.asked@.push(Draw::SpanThrough(low, high));
        }
        let (secs, nanos) = rng_gen_span_through(
            &mut self.rng,
            (low.secs(), low.subsec_nanos()),
            (high.secs(), high.subsec_nanos()),
        );
        Latency::new(secs, nanos)
    }

    /// The next 64 bits of the stream, for a policy that makes its own
    /// numbers of them.
    pub fn next_u64(&mut self) -> (word: u64)
        ensures
            final(self).after(old(self), Draw::Word),
    {
        proof {
            self.asked@ = self.asked@.push(Draw::Word);
        }
        rng_next_u64(&mut self.rng)
    }
}

} // verus!
