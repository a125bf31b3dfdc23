//! Handlers: what an interceptor hands a request to.
//!
//! A handler answers requests and can be made to wait. Interceptors are
//! handlers themselves, so that one can wrap another. At the bottom of
//! such a pile stands a [`Blocking`] handler, which records every wait and
//! every request that reaches it, in their order.
use vstd::prelude::*;
use crate::latency::magnitude::Latency;

verus! {

/// What happened at the bottom of a pile of interceptors.
#[derive(Clone, Copy, Debug, PartialEq, Eq, Structural)]
pub enum Step {
    /// The caller waited for the given time.
    Wait(Latency),
    /// A request reached the handler.
    Delegate,
}

/// What answers requests of type `R` with a `T` or fails with an `E`, on
/// the calling thread.
pub trait Handler<R, T, E> {
    /// What has happened at the bottom of the pile since it was made, in
    /// order.
    spec fn log(&self) -> Seq<Step>;

    /// The requests that the handler can be given.
    spec fn accepts(&self, req: R) -> bool;

    /// The times for which the handler can be made to wait.
    spec fn can_hold(&self, latency: Latency) -> bool;

    /// The outcomes that a request can have, each with what happens at the
    /// bottom of the pile while the request is handled.
    spec fn may_handle(
        &self,
        req: R,
        outcome: Result<T, E>,
        events: Seq<Step>,
    ) -> bool;

    /// Whether two handlers behave alike: they differ at most in what has
    /// happened to them.
    spec fn alike(&self, other: &Self) -> bool;

    /// Handlers that are alike accept the same requests and waits, and
    /// handle them in the same ways.
    proof fn lemma_alike(&self, other: &Self)
        requires
            self.alike(other),
        ensures
            forall|req: R| #[trigger] self.accepts(req) == other.accepts(req),
            forall|latency: Latency| #[trigger] self.can_hold(latency) == other.can_hold(latency),
            forall|req: R, outcome: Result<T, E>, events: Seq<Step>|
                #[trigger] self.may_handle(req, outcome, events) == other.may_handle(
                    req,
                    outcome,
                    events,
                ),
    ;

    /// To be alike is an equivalence: every handler is like itself.
    proof fn lemma_alike_reflexive(&self)
        ensures
            self.alike(self),
    ;

    /// To be alike is an equivalence: what is like a handler that is like
    /// a third is like the third.
    proof fn lemma_alike_transitive(&self, middle: &Self, other: &Self)
        requires
            self.alike(middle),
            middle.alike(other),
        ensures
            self.alike(other),
    ;

    /// Waits for `latency` before anything else happens.
    fn hold(&mut self, latency: Latency)
        requires
            old(self).can_hold(latency),
        ensures
            final(self).alike(old(self)),
            final(self).log() == old(self).log().push(Step::Wait(latency)),
    ;

    /// Handles a request.
    fn handle(&mut self, req: R) -> (outcome: Result<T, E>)
        requires
            old(self).accepts(req),
        ensures
            final(self).alike(old(self)),
            old(self).log().is_prefix_of(final(self).log()),
            old(self).may_handle(
                req,
                outcome,
                final(self).log().skip(old(self).log().len() as int),
            ),
    ;
}

/// A handler at the bottom of a pile of interceptors: a function that
/// answers requests and a function that waits, both on the calling thread.
pub struct Blocking<H, W> {
    handler: H,
    wait: W,
    log: Ghost<Seq<Step>>,
}

impl<H, W> Blocking<H, W> {
    /// The function that answers requests.
    pub closed spec fn spec_handler(&self) -> H {
        self.handler
    }

    /// The function that waits.
    pub closed spec fn spec_wait(&self) -> W {
        self.wait
    }

    /// The waits and requests that reached this handler, in order.
    pub closed spec fn spec_log(&self) -> Seq<Step> {
        self.log@
    }

    /// The handler that answers with `handler` and waits with `wait`.
    /// Nothing has happened to it yet.
    pub fn new(handler: H, wait: W) -> (made: Self)
        ensures
            made.spec_handler() == handler,
            made.spec_wait() == wait,
            made.spec_log() == Seq::<Step>::empty(),
    {
        Blocking { handler, wait, log: Ghost(Seq::empty()) }
    }

    /// The function that answers requests.
    pub fn get_ref(&self) -> (handler: &H)
        ensures
            *handler == self.spec_handler(),
    {
        &self.handler
    }
}

impl<R, T, E, H: Fn(R) -> Result<T, E>, W: Fn(Latency)> Handler<R, T, E> for Blocking<H, W> {
    open spec fn log(&self) -> Seq<Step> {
        self.spec_log()
    }

    open spec fn accepts(&self, req: R) -> bool {
        call_requires(self.spec_handler(), (req,))
    }

    open spec fn can_hold(&self, latency: Latency) -> bool {
        call_requires(self.spec_wait(), (latency,))
    }

    /// The request reaches the function, and what the function returns is
    /// the outcome.
    open spec fn may_handle(&self, req: R, outcome: Result<T, E>, events: Seq<Step>) -> bool {
        &&& call_ensures(self.spec_handler(), (req,), outcome)
        &&& events == seq![Step::Delegate]
    }

    open spec fn alike(&self, other: &Self) -> bool {
        &&& self.spec_handler() == other.spec_handler()
        &&& self.spec_wait() == other.spec_wait()
    }

    proof fn lemma_alike(&self, other: &Self) {
    }

    proof fn lemma_alike_reflexive(&self) {
    }

    proof fn lemma_alike_transitive(&self, middle: &Self, other: &Self) {
    }

    fn hold(&mut self, latency: Latency)
        ensures
            call_ensures(old(self).spec_wait(), (latency,), ()),
    {
        (self.wait)(latency);
        proof {
            self.log@ = self.log@.push(Step::Wait(latency));
        }
    }

    fn handle(&mut self, req: R) -> (outcome: Result<T, E>) {
        let outcome = (self.handler)(req);
        proof {
            let before = self.log@;
            self.log@ = self.log@.push(Step::Delegate);
            assert(self.log@.skip(before.len() as int) =~= seq![Step::Delegate]);
        }
        outcome
    }
}

/// What a blocking handler is as a handler, spelled out: it accepts what
/// its functions accept, its log is what reached it, and a request reaches
/// the function once, which returns the outcome.
pub proof fn lemma_blocking_handles<R, T, E, H: Fn(R) -> Result<T, E>, W: Fn(Latency)>(
    handler: Blocking<H, W>,
    req: R,
)
    ensures
        Handler::<R, T, E>::log(&handler) == handler.spec_log(),
        handler.accepts(req) <==> call_requires(handler.spec_handler(), (req,)),
        forall|latency: Latency| #[trigger]
            Handler::<R, T, E>::can_hold(&handler, latency) <==> call_requires(
                handler.spec_wait(),
                (latency,),
            ),
        forall|outcome: Result<T, E>, events: Seq<Step>| #[trigger]
            handler.may_handle(req, outcome, events) <==> (call_ensures(
                handler.spec_handler(),
                (req,),
                outcome,
            ) && events == seq![Step::Delegate]),
{
}

} // verus!
