//! Generators decide and measure in one step: they say whether a request
//! is held back and, if so, for how long.
use vstd::prelude::*;
use crate::decider::Error;
use crate::decider::Probability;
use crate::latency::magnitude::Latency;
use crate::latency::range::Range;
use crate::random::RandomStream;

verus! {

/// What answers, call by call, with the latency to inject or with `None`
/// where the request is not to be held back.
pub trait Generator {
    /// The answers that the generator can give: any, unless the generator
    /// says more.
    open spec fn may_give(&self, delay: Option<Latency>) -> bool {
        true
    }

    /// The latency to inject now, if any.
    fn get_latency(&mut self) -> (delay: Option<Latency>)
        ensures
            old(self).may_give(delay),
            delay matches Some(latency) ==> latency.wf(),
    ;
}

/// What makes generators. Every call of `init` returns a new one.
pub trait Builder<R> {
    /// The generators that the builder makes.
    type Generator: Generator;

    /// The generators that the builder can make of a random stream: any,
    /// unless the builder says more.
    open spec fn may_init(&self, rng: R, generator: Self::Generator) -> bool {
        true
    }

    /// A new generator that draws from `rng`.
    fn init(&self, rng: R) -> (generator: Self::Generator)
        ensures
            self.may_init(rng, generator),
    ;
}

/// A generator that holds a request back with a fixed probability, for a
/// time drawn from a range. Without a random stream (`R = ()`) it is the
/// builder of such generators.
#[derive(Clone, Debug)]
pub struct Bernoulli<R, LR> {
    rng: R,
    probability: Probability,
    range: LR,
}

impl<R, LR> Bernoulli<R, LR> {
    /// The random stream from which the generator draws.
    pub closed spec fn spec_rng(&self) -> R {
        self.rng
    }

    /// The probability with which a request is held back.
    pub closed spec fn spec_probability(&self) -> Probability {
        self.probability
    }

    /// The range from which the latency is drawn.
    pub closed spec fn spec_range(&self) -> LR {
        self.range
    }
}

impl<LR> Bernoulli<(), LR> {
    /// The builder of generators that hold a request back with probability
    /// `numerator / denominator` for a time drawn from `range`, or
    /// `InvalidProbability` where that ratio does not lie between zero and
    /// one.
    pub fn new(numerator: u32, denominator: u32, range: LR) -> (made: Result<Self, Error>)
        ensures
            Probability::valid_ratio(numerator, denominator) ==> made is Ok,
            !Probability::valid_ratio(numerator, denominator) ==> (made matches Err(e) && e
                == Error::InvalidProbability),
            made matches Ok(builder) ==> {
                &&& builder.spec_probability().wf()
                &&& builder.spec_probability().spec_numerator() == numerator
                &&& builder.spec_probability().spec_denominator() == denominator
                &&& builder.spec_range() == range
            },
    {
        match Probability::new(numerator, denominator) {
            Ok(probability) => {
                proof {
                    use_type_invariant(&probability);
                }
                Ok(Bernoulli { rng: (), probability, range })
            },
            Err(error) => Err(error),
        }
    }
}

impl<LR: Range + Clone> Builder<RandomStream> for Bernoulli<(), LR> {
    type Generator = Bernoulli<RandomStream, LR>;

    /// The generator has the probability of the builder, a clone of its
    /// range, and the given random stream.
    open spec fn may_init(&self, rng: RandomStream, generator: Self::Generator) -> bool {
        &&& generator.spec_probability() == self.spec_probability()
        &&& cloned(self.spec_range(), generator.spec_range())
        &&& generator.spec_rng() == rng
    }

    fn init(&self, rng: RandomStream) -> (generator: Self::Generator) {
        Bernoulli { rng, probability: self.probability, range: self.range.clone() }
    }
}

impl<LR: Range> Generator for Bernoulli<RandomStream, LR> {
    /// With probability one a latency of the range, with probability zero
    /// none, and between the two either.
    open spec fn may_give(&self, delay: Option<Latency>) -> bool {
        &&& self.spec_probability().is_always() ==> delay is Some
        &&& self.spec_probability().is_never() ==> delay is None
        &&& delay matches Some(latency) ==> self.spec_range().contains(latency)
    }

    fn get_latency(&mut self) -> (delay: Option<Latency>)
        ensures
            final(self).spec_probability() == old(self).spec_probability(),
            final(self).spec_range() == old(self).spec_range(),
            final(self).spec_rng().origin() == old(self).spec_rng().origin(),
            old(self).spec_rng().asked().push(old(self).spec_probability().trial()).is_prefix_of(
                final(self).spec_rng().asked(),
            ),
            delay is None ==> final(self).spec_rng().after(
                &old(self).spec_rng(),
                old(self).spec_probability().trial(),
            ),
    {
        proof {
            use_type_invariant(&self.probability);
        }
        if self.rng.ratio(self.probability.numerator(), self.probability.denominator()) {
            Some(self.range.get_latency(&mut self.rng))
        } else {
            None
        }
    }
}

} // verus!
