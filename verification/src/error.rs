//! Error faults: a request is answered with an error of the handler's own
//! error type, and the handler is not invoked.
use vstd::prelude::*;
use crate::decider::Decider;
use crate::decider::Error;
use crate::decider::Probability;
use crate::handler::Blocking;
use crate::handler::Handler;
use crate::handler::Step;
use crate::latency::magnitude::Latency;
use crate::random::Draw;
use crate::random::Origin;
use crate::random::RandomStream;

verus! {

/// The configuration of error faults: a decider, which says whether a
/// request fails, and a generator, which makes the error from the request.
#[derive(Clone, Debug)]
pub struct ErrorLayer<D, G> {
    decider: D,
    generator: G,
}

impl ErrorLayer<(), ()> {
    /// A layer in which neither the decider nor the generator is set.
    pub fn builder() -> (layer: Self)
        ensures
            layer.spec_decider() == (),
            layer.spec_generator() == (),
    {
        ErrorLayer { decider: (), generator: () }
    }
}

impl<G> ErrorLayer<Probability, G> {
    /// A layer that fails a request with probability
    /// `numerator / denominator`, or `InvalidProbability` where that ratio
    /// does not lie between zero and one.
    pub fn from_ratio(numerator: u32, denominator: u32, generator: G) -> (made: Result<Self, Error>)
        ensures
            Probability::valid_ratio(numerator, denominator) ==> made is Ok,
            !Probability::valid_ratio(numerator, denominator) ==> (made matches Err(e) && e
                == Error::InvalidProbability),
            made matches Ok(layer) ==> {
                &&& layer.spec_decider().wf()
                &&& layer.spec_decider().spec_numerator() == numerator
                &&& layer.spec_decider().spec_denominator() == denominator
                &&& layer.spec_generator() == generator
            },
    {
        match Probability::new(numerator, denominator) {
            Ok(decider) => Ok(ErrorLayer { decider, generator }),
            Err(error) => Err(error),
        }
    }
}

impl<D, G> ErrorLayer<D, G> {
    /// The decider of the layer.
    pub closed spec fn spec_decider(&self) -> D {
        self.decider
    }

    /// The generator of the layer.
    pub closed spec fn spec_generator(&self) -> G {
        self.generator
    }

    /// The layer with the given decider and generator.
    pub fn new(decider: D, generator: G) -> (layer: Self)
        ensures
            layer.spec_decider() == decider,
            layer.spec_generator() == generator,
    {
        ErrorLayer { decider, generator }
    }

    /// The same layer with another decider.
    pub fn with_decider<ND>(self, decider: ND) -> (layer: ErrorLayer<ND, G>)
        ensures
            layer.spec_decider() == decider,
            layer.spec_generator() == self.spec_generator(),
    {
        ErrorLayer { decider, generator: self.generator }
    }

    /// The same layer with another generator.
    pub fn with_generator<NG>(self, generator: NG) -> (layer: ErrorLayer<D, NG>)
        ensures
            layer.spec_decider() == self.spec_decider(),
            layer.spec_generator() == generator,
    {
        ErrorLayer { decider: self.decider, generator }
    }

    /// Wraps `inner` with the decider and the generator of the layer
    /// themselves and with the given random stream.
    pub fn wrap<S>(self, inner: S, rng: RandomStream) -> (service: ErrorService<D, G, S>)
        ensures
            service.spec_decider() == self.spec_decider(),
            service.spec_generator() == self.spec_generator(),
            service.spec_inner() == inner,
            service.stream() == rng,
    {
        ErrorService { inner, decider: self.decider, generator: self.generator, rng }
    }

    /// The decider of the layer.
    pub fn decider(&self) -> (decider: &D)
        ensures
            *decider == self.spec_decider(),
    {
        &self.decider
    }

    /// The generator of the layer.
    pub fn generator(&self) -> (generator: &G)
        ensures
            *generator == self.spec_generator(),
    {
        &self.generator
    }
}

impl<D: Clone, G: Clone> ErrorLayer<D, G> {
    /// Wraps `inner`. The service gets clones of the decider and of the
    /// generator, and a random stream of its own, seeded from the entropy of
    /// the operating system. Where the operating system has no entropy to
    /// give there is no service, and `inner` is lost.
    pub fn layer<S>(&self, inner: S) -> (made: Option<ErrorService<D, G, S>>)
        ensures
            made matches Some(service) ==> {
                &&& cloned(self.spec_decider(), service.spec_decider())
                &&& cloned(self.spec_generator(), service.spec_generator())
                &&& service.spec_inner() == inner
                &&& service.stream().origin() == Origin::Entropy
                &&& service.stream().asked() == Seq::<Draw>::empty()
            },
    {
        match RandomStream::try_from_entropy() {
            Some(rng) => Some(
                ErrorService {
                    inner,
                    decider: self.decider.clone(),
                    generator: self.generator.clone(),
                    rng,
                },
            ),
            None => None,
        }
    }
}

/// A handler wrapped by an [`ErrorLayer`]: it answers some requests with an
/// error in place of invoking the handler.
pub struct ErrorService<D, G, S> {
    inner: S,
    decider: D,
    generator: G,
    rng: RandomStream,
}

impl<D, G, S> ErrorService<D, G, S> {
    /// The decider of the service.
    pub closed spec fn spec_decider(&self) -> D {
        self.decider
    }

    /// The generator of the service.
    pub closed spec fn spec_generator(&self) -> G {
        self.generator
    }

    /// The wrapped handler.
    pub closed spec fn spec_inner(&self) -> S {
        self.inner
    }

    /// The random stream of the service.
    pub closed spec fn stream(&self) -> RandomStream {
        self.rng
    }

    /// How many requests the service has made to its random stream.
    pub open spec fn taken(&self) -> nat {
        self.stream().taken()
    }

    /// Whether two services have the same decider, generator and handler.
    pub open spec fn same_parts(&self, other: &Self) -> bool {
        &&& self.spec_decider() == other.spec_decider()
        &&& self.spec_generator() == other.spec_generator()
        &&& self.spec_inner() == other.spec_inner()
    }

    /// The fault that belongs to a decision: the generated error where the
    /// decider answered that the fault fires, nothing where it did not.
    pub open spec fn fault_of<R, E>(&self, fire: bool, req: &R, fault: Option<E>) -> bool where
        G: Fn(&R) -> E,
     {
        if fire {
            fault matches Some(error) && call_ensures(self.spec_generator(), (req,), error)
        } else {
            fault is None
        }
    }

    /// The outcome that belongs to a decision, with what happens at the
    /// bottom of the pile: where the decider answered that the fault fires,
    /// the generated error, and nothing happens below; where it did not,
    /// whatever the handler makes of the request.
    pub open spec fn outcome_of<R, T, E>(
        &self,
        fire: bool,
        req: R,
        outcome: Result<T, E>,
        events: Seq<Step>,
    ) -> bool where G: Fn(&R) -> E, S: Handler<R, T, E> {
        if fire {
            &&& outcome matches Err(error) && call_ensures(self.spec_generator(), (&req,), error)
            &&& events == Seq::<Step>::empty()
        } else {
            self.spec_inner().may_handle(req, outcome, events)
        }
    }

    /// Whether two services have the same decider and generator, and
    /// handlers that behave alike.
    pub open spec fn same_policy<R, T, E>(&self, other: &Self) -> bool where S: Handler<R, T, E> {
        &&& self.spec_decider() == other.spec_decider()
        &&& self.spec_generator() == other.spec_generator()
        &&& self.spec_inner().alike(&other.spec_inner())
    }

    /// The wrapped handler.
    pub fn get_ref(&self) -> (inner: &S)
        ensures
            *inner == self.spec_inner(),
    {
        &self.inner
    }

    /// Gives the wrapped handler back.
    pub fn into_inner(self) -> (inner: S)
        ensures
            inner == self.spec_inner(),
    {
        self.inner
    }

    /// The fault for a request once the decision is taken: with `fire` the
    /// error that the generator makes of the request, without it nothing.
    pub fn fault_for<R, E>(&self, fire: bool, req: &R) -> (fault: Option<E>) where G: Fn(&R) -> E
        requires
            fire ==> call_requires(self.spec_generator(), (req,)),
        ensures
            self.fault_of(fire, req, fault),
    {
        if fire {
            Some((self.generator)(req))
        } else {
            None
        }
    }

    /// Decides whether the request fails and, if so, with which error. With
    /// `Some` the handler must not be invoked; with `None` the request goes
    /// to the handler unchanged.
    pub fn fault<R, E>(&mut self, req: &R) -> (fault: Option<E>) where
        D: Decider<R>,
        G: Fn(&R) -> E,

        requires
            old(self).spec_decider().accepts(req),
            old(self).spec_decider().may_answer(req, true) ==> call_requires(
                old(self).spec_generator(),
                (req,),
            ),
        ensures
            final(self).same_parts(old(self)),
            old(self).spec_decider().may_answer(req, fault is Some),
            old(self).fault_of(fault is Some, req, fault),
            final(self).stream().extends(&old(self).stream()),
            final(self).taken() <= old(self).taken() + 1,
    {
        let fire = self.decider.decide(req, &mut self.rng);
        self.fault_for(fire, req)
    }

    /// The outcome for a request once the decision is taken: with `fire` the
    /// generated error, and the handler is not invoked; without it what
    /// the handler returns, unchanged.
    pub fn respond<R, T, E>(&mut self, fire: bool, req: R) -> (outcome: Result<T, E>) where
        G: Fn(&R) -> E,
        S: Handler<R, T, E>,

        requires
            fire ==> call_requires(old(self).spec_generator(), (&req,)),
            !fire ==> old(self).spec_inner().accepts(req),
        ensures
            final(self).same_policy::<R, T, E>(old(self)),
            final(self).stream() == old(self).stream(),
            old(self).spec_inner().log().is_prefix_of(final(self).spec_inner().log()),
            old(self).outcome_of(
                fire,
                req,
                outcome,
                final(self).spec_inner().log().skip(old(self).spec_inner().log().len() as int),
            ),
    {
        if fire {
            proof {
                self.inner.lemma_alike_reflexive();
                let log = self.inner.log();
                assert(log.skip(log.len() as int) =~= Seq::<Step>::empty());
            }
            Err((self.generator)(&req))
        } else {
            self.inner.handle(req)
        }
    }

    /// Handles a request: either the decider fires and the generated error
    /// comes back, while nothing reaches the handler; or the request goes
    /// to the handler and its result comes back unchanged.
    pub fn call<R, T, E>(&mut self, req: R) -> (outcome: Result<T, E>) where
        D: Decider<R>,
        G: Fn(&R) -> E,
        S: Handler<R, T, E>,

        requires
            old(self).accepts(req),
        ensures
            final(self).same_policy::<R, T, E>(old(self)),
            old(self).log().is_prefix_of(final(self).log()),
            old(self).may_handle(req, outcome, final(self).log().skip(old(self).log().len() as int)),
            final(self).stream().extends(&old(self).stream()),
            final(self).taken() <= old(self).taken() + 1,
    {
        let ghost before = *self;
        let fire = self.decider.decide(&req, &mut self.rng);
        let outcome = self.respond(fire, req);
        assert(before.outcome_of(
            fire,
            req,
            outcome,
            self.log().skip(before.log().len() as int),
        ));
        outcome
    }
}

/// An error interceptor is a handler: it can stand below another
/// interceptor.
impl<R, T, E, D: Decider<R>, G: Fn(&R) -> E, S: Handler<R, T, E>> Handler<R, T, E> for ErrorService<
    D,
    G,
    S,
> {
    open spec fn log(&self) -> Seq<Step> {
        self.spec_inner().log()
    }

    /// The decider can be asked, the generator can be called where the
    /// fault can fire, and the handler accepts the request where it can
    /// fail to fire.
    open spec fn accepts(&self, req: R) -> bool {
        &&& self.spec_decider().accepts(&req)
        &&& self.spec_decider().may_answer(&req, true) ==> call_requires(
            self.spec_generator(),
            (&req,),
        )
        &&& self.spec_decider().may_answer(&req, false) ==> self.spec_inner().accepts(req)
    }

    open spec fn can_hold(&self, latency: Latency) -> bool {
        self.spec_inner().can_hold(latency)
    }

    /// The outcome belongs to an answer that the decider can give.
    open spec fn may_handle(
        &self,
        req: R,
        outcome: Result<T, E>,
        events: Seq<Step>,
    ) -> bool {
        exists|fire: bool|
            self.spec_decider().may_answer(&req, fire) && #[trigger] self.outcome_of(
                fire,
                req,
                outcome,
                events,
            )
    }

    open spec fn alike(&self, other: &Self) -> bool {
        self.same_policy::<R, T, E>(other)
    }

    proof fn lemma_alike(&self, other: &Self) {
        self.spec_inner().lemma_alike(&other.spec_inner());
        assert forall|req: R, outcome: Result<T, E>, events: Seq<Step>|
            #[trigger] self.may_handle(req, outcome, events) == other.may_handle(
                req,
                outcome,
                events,
            ) by {
            assert forall|fire: bool|
                self.outcome_of(fire, req, outcome, events) == other.outcome_of(
                    fire,
                    req,
                    outcome,
                    events,
                ) by {}
        }
    }

    proof fn lemma_alike_reflexive(&self) {
        self.spec_inner().lemma_alike_reflexive();
    }

    proof fn lemma_alike_transitive(&self, middle: &Self, other: &Self) {
        self.spec_inner().lemma_alike_transitive(&middle.spec_inner(), &other.spec_inner());
    }

    fn hold(&mut self, latency: Latency) {
        self.inner.hold(latency);
    }

    fn handle(&mut self, req: R) -> (outcome: Result<T, E>) {
        self.call(req)
    }
}

/// With probability zero no request fails by injection: the outcome and
/// what happens below are what the handler makes of the request.
pub proof fn lemma_never_injects<G, S, R, T, E>(
    service: ErrorService<Probability, G, S>,
    req: R,
    outcome: Result<T, E>,
    events: Seq<Step>,
) where G: Fn(&R) -> E, S: Handler<R, T, E>
    requires
        service.spec_decider().is_never(),
        service.may_handle(req, outcome, events),
    ensures
        service.spec_inner().may_handle(req, outcome, events),
{
}

/// With probability one every request fails by injection: the outcome is
/// the error that the generator makes of the request, and nothing reaches
/// the handler.
pub proof fn lemma_always_injects<G, S, R, T, E>(
    service: ErrorService<Probability, G, S>,
    req: R,
    outcome: Result<T, E>,
    events: Seq<Step>,
) where G: Fn(&R) -> E, S: Handler<R, T, E>
    requires
        service.spec_decider().is_always(),
        service.may_handle(req, outcome, events),
    ensures
        outcome matches Err(error) && call_ensures(service.spec_generator(), (&req,), error),
        events == Seq::<Step>::empty(),
{
}

/// Where the decider answers that the fault does not fire, the outcome is
/// what the handler makes of the same request, be it a response or an
/// error; where it answers that the fault fires, the outcome is an error,
/// never a response, and nothing reaches the handler. One of the two
/// happens, never both.
pub proof fn lemma_pass_through<D, G, S, R, T, E>(
    service: ErrorService<D, G, S>,
    req: R,
    fire: bool,
    outcome: Result<T, E>,
    events: Seq<Step>,
) where G: Fn(&R) -> E, S: Handler<R, T, E>
    requires
        service.outcome_of(fire, req, outcome, events),
    ensures
        !fire ==> service.spec_inner().may_handle(req, outcome, events),
        fire ==> outcome is Err && events == Seq::<Step>::empty(),
{
}

/// Directly above a blocking handler the request reaches the function at
/// most once: not at all where the fault fires, and otherwise once, and
/// then the outcome is what the function returns.
pub proof fn lemma_reaches_handler_at_most_once<D, G, H, W, R, T, E>(
    service: ErrorService<D, G, Blocking<H, W>>,
    req: R,
    outcome: Result<T, E>,
    events: Seq<Step>,
) where D: Decider<R>, G: Fn(&R) -> E, H: Fn(R) -> Result<T, E>, W: Fn(Latency)
    requires
        service.may_handle(req, outcome, events),
    ensures
        events == Seq::<Step>::empty() || events == seq![Step::Delegate],
        events == seq![Step::Delegate] ==> call_ensures(
            service.spec_inner().spec_handler(),
            (req,),
            outcome,
        ),
        events == Seq::<Step>::empty() ==> outcome is Err,
{
    assert(seq![Step::Delegate].len() == 1);
}

/// What an error interceptor is as a handler, spelled out.
pub proof fn lemma_error_service_handles<D, G, S, R, T, E>(
    service: ErrorService<D, G, S>,
    req: R,
) where D: Decider<R>, G: Fn(&R) -> E, S: Handler<R, T, E>

    ensures
        service.log() == service.spec_inner().log(),
        service.accepts(req) <==> {
            &&& service.spec_decider().accepts(&req)
            &&& service.spec_decider().may_answer(&req, true) ==> call_requires(
                service.spec_generator(),
                (&req,),
            )
            &&& service.spec_decider().may_answer(&req, false) ==> service.spec_inner().accepts(
                req,
            )
        },
        forall|latency: Latency| #[trigger]
            service.can_hold(latency) <==> service.spec_inner().can_hold(latency),
        forall|outcome: Result<T, E>, events: Seq<Step>| #[trigger]
            service.may_handle(req, outcome, events) <==> exists|fire: bool|
                service.spec_decider().may_answer(&req, fire) && #[trigger] service.outcome_of(
                    fire,
                    req,
                    outcome,
                    events,
                ),
{
}

} // verus!
