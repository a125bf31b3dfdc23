//! Deciders answer, request by request, whether a fault fires.
use vstd::prelude::*;
use rand::distributions::BernoulliError;
use crate::random::Draw;
use crate::random::RandomStream;

verus! {

/// Why a layer could not be configured.
#[derive(Clone, Copy, Debug, PartialEq, Eq, Structural)]
pub enum Error {
    /// The probability does not lie between zero and one.
    InvalidProbability,
    /// The lower bound of a range lies above its upper bound.
    InvalidRange,
}

/// The error with which `rand` refuses the parameter of a Bernoulli
/// distribution.
#[verifier::external_type_specification]
#[verifier::external_body]
pub struct ExBernoulliError(BernoulliError);

impl Error {
    /// What went wrong, in words.
    pub fn message(&self) -> (text: &'static str)
        ensures
            text == self.spec_message(),
    {
        match self {
            Error::InvalidProbability => "cannot create the layer: invalid probability",
            Error::InvalidRange => "cannot create the layer: invalid range",
        }
    }

    /// What went wrong, in words.
    pub open spec fn spec_message(&self) -> &'static str {
        match self {
            Error::InvalidProbability => "cannot create the layer: invalid probability",
            Error::InvalidRange => "cannot create the layer: invalid range",
        }
    }
}

/// A refusal by `rand` of the parameter of a Bernoulli distribution is an
/// invalid probability.
impl From<BernoulliError> for Error {
    fn from(err: BernoulliError) -> (error: Error) {
        Error::InvalidProbability
    }
}

impl vstd::std_specs::convert::FromSpecImpl<BernoulliError> for Error {
    open spec fn obeys_from_spec() -> bool {
        true
    }

    open spec fn from_spec(err: BernoulliError) -> Error {
        Error::InvalidProbability
    }
}

/// A probability, held as the ratio of two integers.
#[derive(Clone, Copy, Debug, PartialEq, Eq, Structural)]
pub struct Probability {
    numerator: u32,
    denominator: u32,
}

impl Probability {
    /// Whether `numerator / denominator` is a probability.
    pub open spec fn valid_ratio(numerator: u32, denominator: u32) -> bool {
        numerator <= denominator && denominator != 0
    }

    /// The invariant of the type: the ratio lies between zero and one.
    #[verifier::type_invariant]
    pub open spec fn wf(&self) -> bool {
        Self::valid_ratio(self.spec_numerator(), self.spec_denominator())
    }

    /// The numerator of the ratio.
    pub closed spec fn spec_numerator(&self) -> u32 {
        self.numerator
    }

    /// The denominator of the ratio.
    pub closed spec fn spec_denominator(&self) -> u32 {
        self.denominator
    }

    /// What a random stream is asked for when the probability decides: one
    /// trial with this ratio.
    pub open spec fn trial(&self) -> Draw {
        Draw::Ratio(self.spec_numerator(), self.spec_denominator())
    }

    /// The probability is zero: no trial succeeds.
    pub open spec fn is_never(&self) -> bool {
        self.spec_numerator() == 0
    }

    /// The probability is one: every trial succeeds.
    pub open spec fn is_always(&self) -> bool {
        self.spec_numerator() == self.spec_denominator()
    }

    /// The probability `numerator / denominator`, or `InvalidProbability`
    /// where that ratio does not lie between zero and one.
    pub fn new(numerator: u32, denominator: u32) -> (made: Result<Probability, Error>)
        ensures
            Self::valid_ratio(numerator, denominator) ==> made is Ok,
            !Self::valid_ratio(numerator, denominator) ==> made == Err::<Probability, Error>(
                Error::InvalidProbability,
            ),
            made is Ok ==> made->Ok_0.wf() && made->Ok_0.spec_numerator() == numerator
                && made->Ok_0.spec_denominator() == denominator,
    {
        if numerator <= denominator && denominator != 0 {
            Ok(Probability { numerator, denominator })
        } else {
            Err(Error::InvalidProbability)
        }
    }

    /// The numerator of the ratio.
    #[verifier::when_used_as_spec(spec_numerator)]
    pub fn numerator(&self) -> (n: u32)
        ensures
            n == self.spec_numerator(),
    {
        self.numerator
    }

    /// The denominator of the ratio.
    #[verifier::when_used_as_spec(spec_denominator)]
    pub fn denominator(&self) -> (d: u32)
        ensures
            d == self.spec_denominator(),
    {
        self.denominator
    }
}

/// What answers whether a fault fires for a request.
pub trait Decider<R> {
    /// The requests on which the decider can be asked: all of them, unless
    /// the decider says otherwise.
    open spec fn accepts(&self, req: &R) -> bool {
        true
    }

    /// The answers that the decider can give on a request: either, unless
    /// the decider says more.
    open spec fn may_answer(&self, req: &R, fire: bool) -> bool {
        true
    }

    /// Whether a fault fires for `req`. A decider that goes by chance asks
    /// `rng` once; the others leave it alone. What counts is the request to
    /// the stream, not the bits that the stream spends on it: a trial that
    /// is certain spends none.
    fn decide(&self, req: &R, rng: &mut RandomStream) -> (fire: bool)
        requires
            self.accepts(req),
        ensures
            self.may_answer(req, fire),
            final(rng).extends(old(rng)),
            final(rng).taken() <= old(rng).taken() + 1,
    ;
}

/// A plain answer: `true` fires on every request, `false` on none.
impl<R> Decider<R> for bool {
    open spec fn may_answer(&self, req: &R, fire: bool) -> bool {
        fire == *self
    }

    fn decide(&self, req: &R, rng: &mut RandomStream) -> (fire: bool)
        ensures
            *final(rng) == *old(rng),
    {
        *self
    }
}

/// One Bernoulli trial for every request.
impl<R> Decider<R> for Probability {
    /// With probability one the fault fires, with probability zero it does
    /// not, and between the two either can happen.
    open spec fn may_answer(&self, req: &R, fire: bool) -> bool {
        &&& self.is_always() ==> fire
        &&& self.is_never() ==> !fire
    }

    fn decide(&self, req: &R, rng: &mut RandomStream) -> (fire: bool)
        ensures
            final(rng).after(old(rng), self.trial()),
    {
        proof {
            use_type_invariant(self);
        }
        rng.ratio(self.numerator, self.denominator)
    }
}

/// A function of the request.
impl<R, F: Fn(&R) -> bool> Decider<R> for F {
    open spec fn accepts(&self, req: &R) -> bool {
        call_requires(*self, (req,))
    }

    open spec fn may_answer(&self, req: &R, fire: bool) -> bool {
        call_ensures(*self, (req,), fire)
    }

    fn decide(&self, req: &R, rng: &mut RandomStream) -> (fire: bool)
        ensures
            *final(rng) == *old(rng),
    {
        self(req)
    }
}

/// A function decides as its own contract says: it can be asked where it
/// can be called, and its answers are the results that it can return.
pub proof fn lemma_function_decides<R, F: Fn(&R) -> bool>(f: F, req: &R)
    ensures
        f.accepts(req) <==> call_requires(f, (req,)),
        forall|fire: bool| #[trigger] f.may_answer(req, fire) <==> call_ensures(f, (req,), fire),
{
}

} // verus!
