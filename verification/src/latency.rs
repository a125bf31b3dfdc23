//! Latency faults: a request is held back before the handler sees it.
use vstd::prelude::*;
use crate::decider::Decider;
use crate::decider::Probability;
use crate::error::ErrorService;
use crate::handler::Blocking;
use crate::handler::Handler;
use crate::handler::Step;
use crate::latency::call::Action;
use crate::latency::call::Event;
use crate::latency::call::Phase;
use crate::latency::magnitude::Latency;
use crate::latency::magnitude::NANOS_PER_MILLI;
use crate::latency::range::MillisRange;
use crate::random::Draw;
use crate::random::Origin;
use crate::random::RandomStream;

pub use crate::decider::Error;
pub use crate::latency::distribution::Distribution;

pub mod call;
pub mod distribution;
pub mod generator;
pub mod magnitude;
pub mod range;

verus! {

/// The configuration of latency faults: a decider, which says whether a
/// request is held back, and a distribution, which says for how long.
#[derive(Clone, Debug)]
pub struct LatencyLayer<De, Di> {
    decider: De,
    distribution: Di,
}

impl LatencyLayer<(), ()> {
    /// A layer in which neither the decider nor the distribution is set.
    pub fn builder() -> (layer: Self)
        ensures
            layer.spec_decider() == (),
            layer.spec_distribution() == (),
    {
        LatencyLayer { decider: (), distribution: () }
    }
}

impl<Di> LatencyLayer<Probability, Di> {
    /// A layer that holds a request back with probability
    /// `numerator / denominator`, or `InvalidProbability` where that ratio
    /// does not lie between zero and one.
    pub fn from_ratio(numerator: u32, denominator: u32, distribution: Di) -> (made: Result<
        Self,
        Error,
    >)
        ensures
            Probability::valid_ratio(numerator, denominator) ==> made is Ok,
            !Probability::valid_ratio(numerator, denominator) ==> (made matches Err(e) && e
                == Error::InvalidProbability),
            made matches Ok(layer) ==> {
                &&& layer.spec_decider().wf()
                &&& layer.spec_decider().spec_numerator() == numerator
                &&& layer.spec_decider().spec_denominator() == denominator
                &&& layer.spec_distribution() == distribution
            },
    {
        match Probability::new(numerator, denominator) {
            Ok(decider) => Ok(LatencyLayer { decider, distribution }),
            Err(error) => Err(error),
        }
    }
}

/// One request in ten is held back, for 100 to 200 milliseconds.
impl Default for LatencyLayer<Probability, MillisRange> {
    fn default() -> (layer: Self)
        ensures
            layer.spec_decider().wf(),
            layer.spec_decider().spec_numerator() == 1,
            layer.spec_decider().spec_denominator() == 10,
            layer.spec_distribution().wf(),
            layer.spec_distribution().spec_low() == 100,
            layer.spec_distribution().spec_high() == 200,
            !layer.spec_distribution().spec_is_closed(),
    {
        let decider = match Probability::new(1, 10) {
            Ok(probability) => probability,
            Err(_) => vstd::pervasive::unreached(),
        };
        let distribution = match MillisRange::new(100, 200) {
            Ok(range) => range,
            Err(_) => vstd::pervasive::unreached(),
        };
        LatencyLayer { decider, distribution }
    }
}

impl<De, Di> LatencyLayer<De, Di> {
    /// The decider of the layer.
    pub closed spec fn spec_decider(&self) -> De {
        self.decider
    }

    /// The distribution of the layer.
    pub closed spec fn spec_distribution(&self) -> Di {
        self.distribution
    }

    /// The layer with the given decider and distribution.
    pub fn new(decider: De, distribution: Di) -> (layer: Self)
        ensures
            layer.spec_decider() == decider,
            layer.spec_distribution() == distribution,
    {
        LatencyLayer { decider, distribution }
    }

    /// The same layer with another decider.
    pub fn with_decider<NDe>(self, decider: NDe) -> (layer: LatencyLayer<NDe, Di>)
        ensures
            layer.spec_decider() == decider,
            layer.spec_distribution() == self.spec_distribution(),
    {
        LatencyLayer { decider, distribution: self.distribution }
    }

    /// The same layer with another distribution.
    pub fn with_distribution<NDi>(self, distribution: NDi) -> (layer: LatencyLayer<De, NDi>)
        ensures
            layer.spec_decider() == self.spec_decider(),
            layer.spec_distribution() == distribution,
    {
        LatencyLayer { decider: self.decider, distribution }
    }

    /// Wraps `inner` with the decider and the distribution of the layer
    /// themselves and with the given random stream.
    pub fn wrap<S>(self, inner: S, rng: RandomStream) -> (service: LatencyService<De, Di, S>)
        ensures
            service.spec_decider() == self.spec_decider(),
            service.spec_distribution() == self.spec_distribution(),
            service.spec_inner() == inner,
            service.stream() == rng,
    {
        LatencyService { inner, decider: self.decider, distribution: self.distribution, rng }
    }

    /// The decider of the layer.
    pub fn decider(&self) -> (decider: &De)
        ensures
            *decider == self.spec_decider(),
    {
        &self.decider
    }

    /// The distribution of the layer.
    pub fn distribution(&self) -> (distribution: &Di)
        ensures
            *distribution == self.spec_distribution(),
    {
        &self.distribution
    }
}

impl<De: Clone, Di: Clone> LatencyLayer<De, Di> {
    /// Wraps `inner`. The service gets clones of the decider and of the
    /// distribution, and a random stream of its own, seeded from the entropy of
    /// the operating system. Where the operating system has no entropy to
    /// give there is no service, and `inner` is lost.
    pub fn layer<S>(&self, inner: S) -> (made: Option<LatencyService<De, Di, S>>)
        ensures
            made matches Some(service) ==> {
                &&& cloned(self.spec_decider(), service.spec_decider())
                &&& cloned(self.spec_distribution(), service.spec_distribution())
                &&& service.spec_inner() == inner
                &&& service.stream().origin() == Origin::Entropy
                &&& service.stream().asked() == Seq::<Draw>::empty()
            },
    {
        match RandomStream::try_from_entropy() {
            Some(rng) => Some(
                LatencyService {
                    inner,
                    decider: self.decider.clone(),
                    distribution: self.distribution.clone(),
                    rng,
                },
            ),
            None => None,
        }
    }
}

/// A handler wrapped by a [`LatencyLayer`]: some requests wait before the
/// handler sees them.
pub struct LatencyService<De, Di, S> {
    inner: S,
    decider: De,
    distribution: Di,
    rng: RandomStream,
}

impl<De, Di, S> LatencyService<De, Di, S> {
    /// The decider of the service.
    pub closed spec fn spec_decider(&self) -> De {
        self.decider
    }

    /// The distribution of the service.
    pub closed spec fn spec_distribution(&self) -> Di {
        self.distribution
    }

    /// The wrapped handler.
    pub closed spec fn spec_inner(&self) -> S {
        self.inner
    }

    /// The random stream of the service.
    pub closed spec fn stream(&self) -> RandomStream {
        self.rng
    }

    /// How many requests the service has made to its random stream.
    pub open spec fn taken(&self) -> nat {
        self.stream().taken()
    }

    /// Whether two services have the same decider, distribution and
    /// handler.
    pub open spec fn same_parts(&self, other: &Self) -> bool {
        &&& self.spec_decider() == other.spec_decider()
        &&& self.spec_distribution() == other.spec_distribution()
        &&& self.spec_inner() == other.spec_inner()
    }

    /// The delay that belongs to a decision: a sample of the distribution
    /// where the decider answered that the fault fires, none where it did
    /// not.
    pub open spec fn delay_of<R>(&self, fire: bool, req: &R, delay: Option<Latency>) -> bool where
        Di: Distribution<R>,
     {
        if fire {
            delay matches Some(latency) && latency.wf() && self.spec_distribution().may_yield(
                req,
                latency,
            )
        } else {
            delay is None
        }
    }

    /// The delays that a request can get: one where the decider can answer
    /// that the fault fires, and then a sample of the distribution; none
    /// where the decider can answer that it does not.
    pub open spec fn may_delay<R>(&self, req: &R, delay: Option<Latency>) -> bool where
        De: Decider<R>,
        Di: Distribution<R>,
     {
        &&& self.spec_decider().may_answer(req, delay is Some)
        &&& self.delay_of(delay is Some, req, delay)
    }

    /// The wrapped handler.
    pub fn get_ref(&self) -> (inner: &S)
        ensures
            *inner == self.spec_inner(),
    {
        &self.inner
    }

    /// Gives the wrapped handler back.
    pub fn into_inner(self) -> (inner: S)
        ensures
            inner == self.spec_inner(),
    {
        self.inner
    }

    /// The delay for a request once the decision is taken: with `fire` a
    /// sample of the distribution, which may be no time at all; without it
    /// none.
    pub fn delay_for<R>(&mut self, fire: bool, req: &R) -> (delay: Option<Latency>) where
        Di: Distribution<R>,

        requires
            fire ==> old(self).spec_distribution().accepts(req),
        ensures
            final(self).same_parts(old(self)),
            old(self).delay_of(fire, req, delay),
            final(self).stream().extends(&old(self).stream()),
            !fire ==> final(self).stream() == old(self).stream(),
    {
        if fire {
            Some(self.distribution.sample(req, &mut self.rng))
        } else {
            None
        }
    }

    /// Decides whether the request is held back and, if so, for how long.
    /// With `Some` the caller waits that long and then hands the request to
    /// the handler; with `None` the request goes to the handler at once.
    pub fn delay<R>(&mut self, req: &R) -> (delay: Option<Latency>) where
        De: Decider<R>,
        Di: Distribution<R>,

        requires
            old(self).spec_decider().accepts(req),
            old(self).spec_decider().may_answer(req, true) ==> old(
                self,
            ).spec_distribution().accepts(req),
        ensures
            final(self).same_parts(old(self)),
            old(self).may_delay(req, delay),
            final(self).stream().extends(&old(self).stream()),
            delay is None ==> final(self).taken() <= old(self).taken() + 1,
    {
        let fire = self.decider.decide(req, &mut self.rng);
        self.delay_for(fire, req)
    }

    /// Takes the decision for a request and makes the first step of its
    /// course: where the fault fires the request is suspended and the
    /// caller is to wait; where it does not, the handler is to get the
    /// request at once.
    pub fn begin<R>(&mut self, req: &R) -> (first: (Phase, Action)) where
        De: Decider<R>,
        Di: Distribution<R>,

        requires
            old(self).spec_decider().accepts(req),
            old(self).spec_decider().may_answer(req, true) ==> old(
                self,
            ).spec_distribution().accepts(req),
        ensures
            final(self).same_parts(old(self)),
            exists|delay: Option<Latency>|
                {
                    &&& #[trigger] old(self).may_delay(req, delay)
                    &&& first == crate::latency::call::spec_step(
                        Phase::Deciding,
                        Event::Decided(delay),
                    )
                },
            final(self).stream().extends(&old(self).stream()),
            first.1 is Delegate ==> final(self).taken() <= old(self).taken() + 1,
    {
        let delay = self.delay(req);
        crate::latency::call::step(Phase::Deciding, Event::Decided(delay))
    }

    /// What belongs to a delay: where there is one, the wait comes first and
    /// then whatever the handler makes of the request; where there is none,
    /// the latter alone.
    pub open spec fn course_of<R, T, E>(
        &self,
        delay: Option<Latency>,
        req: R,
        outcome: Result<T, E>,
        events: Seq<Step>,
    ) -> bool where S: Handler<R, T, E> {
        match delay {
            Some(latency) => {
                &&& events.len() > 0
                &&& events[0] == Step::Wait(latency)
                &&& self.spec_inner().may_handle(req, outcome, events.skip(1))
            },
            None => self.spec_inner().may_handle(req, outcome, events),
        }
    }

    /// Whether two services have the same decider and distribution, and
    /// handlers that behave alike.
    pub open spec fn same_policy<R, T, E>(&self, other: &Self) -> bool where S: Handler<R, T, E> {
        &&& self.spec_decider() == other.spec_decider()
        &&& self.spec_distribution() == other.spec_distribution()
        &&& self.spec_inner().alike(&other.spec_inner())
    }

    /// Handles a request on the calling thread: where the decider fires,
    /// the handler is made to wait for a sample of the distribution, and
    /// only then gets the request. Whatever is decided, the handler's
    /// result comes back unchanged.
    pub fn call<R, T, E>(&mut self, req: R) -> (outcome: Result<T, E>) where
        De: Decider<R>,
        Di: Distribution<R>,
        S: Handler<R, T, E>,

        requires
            old(self).accepts(req),
        ensures
            final(self).same_policy::<R, T, E>(old(self)),
            old(self).log().is_prefix_of(final(self).log()),
            old(self).may_handle(req, outcome, final(self).log().skip(old(self).log().len() as int)),
            final(self).stream().extends(&old(self).stream()),
    {
        let ghost before = *self;
        let delay = self.delay(&req);
        if let Some(latency) = delay {
            self.inner.hold(latency);
        } else {
            proof {
                self.inner.lemma_alike_reflexive();
            }
        }
        let ghost held = self.inner;
        proof {
            held.lemma_alike(&before.spec_inner());
        }
        let outcome = self.inner.handle(req);
        proof {
            let (start, middle, end) = (before.log(), held.log(), self.inner.log());
            let rest = end.skip(middle.len() as int);
            self.inner.lemma_alike_transitive(&held, &before.spec_inner());
            assert(held.may_handle(req, outcome, rest) == before.spec_inner().may_handle(
                req,
                outcome,
                rest,
            ));
            if delay is Some {
                assert(end.subrange(0, middle.len() as int) =~= middle);
                assert(end[start.len() as int] == middle[start.len() as int]);
                assert(end.skip(start.len() as int).skip(1) =~= rest);
            }
            assert(before.course_of(delay, req, outcome, end.skip(start.len() as int)));
        }
        outcome
    }
}

/// A latency interceptor is a handler: it can stand below another
/// interceptor.
impl<R, T, E, De: Decider<R>, Di: Distribution<R>, S: Handler<R, T, E>> Handler<
    R,
    T,
    E,
> for LatencyService<De, Di, S> {
    open spec fn log(&self) -> Seq<Step> {
        self.spec_inner().log()
    }

    /// The decider can be asked and the handler accepts the request; where
    /// the fault can fire, the distribution can be sampled, and the handler
    /// can wait for whatever the sample may be.
    open spec fn accepts(&self, req: R) -> bool {
        &&& self.spec_decider().accepts(&req)
        &&& self.spec_inner().accepts(req)
        &&& self.spec_decider().may_answer(&req, true) ==> {
            &&& self.spec_distribution().accepts(&req)
            &&& forall|latency: Latency|
                latency.wf() && #[trigger] self.spec_distribution().may_yield(&req, latency)
                    ==> self.spec_inner().can_hold(latency)
        }
    }

    open spec fn can_hold(&self, latency: Latency) -> bool {
        self.spec_inner().can_hold(latency)
    }

    /// The course belongs to a delay that the request can get.
    open spec fn may_handle(
        &self,
        req: R,
        outcome: Result<T, E>,
        events: Seq<Step>,
    ) -> bool {
        exists|delay: Option<Latency>|
            self.may_delay(&req, delay) && #[trigger] self.course_of(delay, req, outcome, events)
    }

    open spec fn alike(&self, other: &Self) -> bool {
        self.same_policy::<R, T, E>(other)
    }

    proof fn lemma_alike(&self, other: &Self) {
        self.spec_inner().lemma_alike(&other.spec_inner());
        assert forall|req: R, outcome: Result<T, E>, events: Seq<Step>|
            #[trigger] self.may_handle(req, outcome, events) == other.may_handle(
                req,
                outcome,
                events,
            ) by {
            assert forall|delay: Option<Latency>|
                self.course_of(delay, req, outcome, events) == other.course_of(
                    delay,
                    req,
                    outcome,
                    events,
                ) by {}
            assert forall|delay: Option<Latency>|
                self.may_delay(&req, delay) == other.may_delay(&req, delay) by {}
        }
    }

    proof fn lemma_alike_reflexive(&self) {
        self.spec_inner().lemma_alike_reflexive();
    }

    proof fn lemma_alike_transitive(&self, middle: &Self, other: &Self) {
        self.spec_inner().lemma_alike_transitive(&middle.spec_inner(), &other.spec_inner());
    }

    fn hold(&mut self, latency: Latency) {
        self.inner.hold(latency);
    }

    fn handle(&mut self, req: R) -> (outcome: Result<T, E>) {
        self.call(req)
    }
}

/// With probability zero no request is held back.
pub proof fn lemma_never_delays<Di, S, R>(
    service: LatencyService<Probability, Di, S>,
    req: &R,
    delay: Option<Latency>,
) where Di: Distribution<R>
    requires
        service.spec_decider().is_never(),
        service.may_delay(req, delay),
    ensures
        delay is None,
{
}

/// With probability one every request is held back, for a sample of the
/// distribution.
pub proof fn lemma_always_delays<Di, S, R>(
    service: LatencyService<Probability, Di, S>,
    req: &R,
    delay: Option<Latency>,
) where Di: Distribution<R>
    requires
        service.spec_decider().is_always(),
        service.may_delay(req, delay),
    ensures
        delay matches Some(latency) && latency.wf() && service.spec_distribution().may_yield(
            req,
            latency,
        ),
{
}

/// With probability one and a range of milliseconds every request is held
/// back for at least the lower bound of the range.
pub proof fn lemma_waits_at_least_minimum<S, R>(
    service: LatencyService<Probability, MillisRange, S>,
    req: &R,
    delay: Option<Latency>,
)
    requires
        service.spec_decider().is_always(),
        service.spec_distribution().wf(),
        service.may_delay(req, delay),
    ensures
        delay matches Some(latency) && latency.total_nanos() >= service.spec_distribution().spec_low()
            * NANOS_PER_MILLI,
{
    crate::latency::range::lemma_millis_within_bounds(service.spec_distribution(), delay->Some_0);
}

/// Directly above a blocking handler the wait, where there is one, comes
/// before the request reaches the function, and the request reaches it
/// exactly once: what happens is a wait for a sample of the distribution
/// and then the request, or the request alone. Either way the outcome is
/// what the function returns.
pub proof fn lemma_waits_before_handler<De, Di, H, W, R, T, E>(
    service: LatencyService<De, Di, Blocking<H, W>>,
    req: R,
    outcome: Result<T, E>,
    events: Seq<Step>,
) where De: Decider<R>, Di: Distribution<R>, H: Fn(R) -> Result<T, E>, W: Fn(Latency)
    requires
        service.may_handle(req, outcome, events),
    ensures
        call_ensures(service.spec_inner().spec_handler(), (req,), outcome),
        events.len() == 1 || events.len() == 2,
        events.last() == Step::Delegate,
        events.len() == 2 ==> (events[0] matches Step::Wait(latency) && latency.wf()
            && service.spec_distribution().may_yield(&req, latency)),
{
    let delay = choose|delay: Option<Latency>|
        service.may_delay(&req, delay) && #[trigger] service.course_of(
            delay,
            req,
            outcome,
            events,
        );
    assert(seq![Step::Delegate].len() == 1 && seq![Step::Delegate][0] == Step::Delegate);
    if delay is Some {
        assert(events.skip(1) == seq![Step::Delegate]);
        assert(events.len() == 2);
        assert(events[1] == events.skip(1)[0]);
    }
}

/// A latency interceptor above an error interceptor: the two decide
/// independently, so a request can wait and then fail by injection. What
/// happens at the bottom is a wait or none, and then the request or none;
/// the request never comes before the wait.
pub proof fn lemma_latency_above_error<De, Di, D, G, H, W, R, T, E>(
    service: LatencyService<De, Di, ErrorService<D, G, Blocking<H, W>>>,
    req: R,
    outcome: Result<T, E>,
    events: Seq<Step>,
) where
    De: Decider<R>,
    Di: Distribution<R>,
    D: Decider<R>,
    G: Fn(&R) -> E,
    H: Fn(R) -> Result<T, E>,
    W: Fn(Latency),

    requires
        service.may_handle(req, outcome, events),
    ensures
        events.len() <= 2,
        events.len() == 2 ==> events[0] is Wait && events[1] is Delegate,
        events.len() > 0 && events.last() is Delegate ==> call_ensures(
            service.spec_inner().spec_inner().spec_handler(),
            (req,),
            outcome,
        ),
        events.len() == 0 || events.last() is Wait ==> outcome is Err,
{
    let delay = choose|delay: Option<Latency>|
        service.may_delay(&req, delay) && #[trigger] service.course_of(
            delay,
            req,
            outcome,
            events,
        );
    let below = if delay is Some {
        events.skip(1)
    } else {
        events
    };
    crate::error::lemma_reaches_handler_at_most_once(service.spec_inner(), req, outcome, below);
    assert(seq![Step::Delegate].len() == 1 && seq![Step::Delegate][0] == Step::Delegate);
    if delay is Some {
        if below.len() > 0 {
            assert(events[1] == below[0]);
        }
    }
}

/// An error interceptor above a latency interceptor: where the error
/// fires, nothing happens below, not even a wait; where it does not, the
/// latency interceptor takes its own decision.
pub proof fn lemma_error_above_latency<D, G, De, Di, H, W, R, T, E>(
    service: ErrorService<D, G, LatencyService<De, Di, Blocking<H, W>>>,
    req: R,
    outcome: Result<T, E>,
    events: Seq<Step>,
) where
    D: Decider<R>,
    G: Fn(&R) -> E,
    De: Decider<R>,
    Di: Distribution<R>,
    H: Fn(R) -> Result<T, E>,
    W: Fn(Latency),

    requires
        service.may_handle(req, outcome, events),
    ensures
        events.len() == 0 ==> outcome is Err,
        events.len() > 0 ==> events.last() is Delegate && call_ensures(
            service.spec_inner().spec_inner().spec_handler(),
            (req,),
            outcome,
        ),
        events.len() <= 2,
        events.len() == 2 ==> events[0] is Wait,
{
    let fire = choose|fire: bool|
        service.spec_decider().may_answer(&req, fire) && #[trigger] service.outcome_of(
            fire,
            req,
            outcome,
            events,
        );
    if !fire {
        lemma_waits_before_handler(service.spec_inner(), req, outcome, events);
    }
}

/// What a latency interceptor is as a handler, spelled out.
pub proof fn lemma_latency_service_handles<De, Di, S, R, T, E>(
    service: LatencyService<De, Di, S>,
    req: R,
) where De: Decider<R>, Di: Distribution<R>, S: Handler<R, T, E>
    ensures
        service.log() == service.spec_inner().log(),
        service.accepts(req) <==> {
            &&& service.spec_decider().accepts(&req)
            &&& service.spec_inner().accepts(req)
            &&& service.spec_decider().may_answer(&req, true) ==> {
                &&& service.spec_distribution().accepts(&req)
                &&& forall|latency: Latency|
                    latency.wf() && #[trigger] service.spec_distribution().may_yield(&req, latency)
                        ==> service.spec_inner().can_hold(latency)
            }
        },
        forall|latency: Latency| #[trigger]
            service.can_hold(latency) <==> service.spec_inner().can_hold(latency),
        forall|outcome: Result<T, E>, events: Seq<Step>| #[trigger]
            service.may_handle(req, outcome, events) <==> exists|delay: Option<Latency>|
                service.may_delay(&req, delay) && #[trigger] service.course_of(
                    delay,
                    req,
                    outcome,
                    events,
                ),
{
}

} // verus!
