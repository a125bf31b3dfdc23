//! Distributions say how long a request is held back once a fault fires.
use vstd::prelude::*;
use crate::latency::magnitude::Latency;
use crate::latency::magnitude::NANOS_PER_MILLI;
use crate::latency::range::MillisRange;
use crate::latency::range::Range;
use crate::latency::range::SpanRange;
use crate::random::RandomStream;

verus! {

/// What yields the latency to inject for a request.
pub trait Distribution<R> {
    /// The requests on which the distribution can be sampled: all of them,
    /// unless the distribution says otherwise.
    open spec fn accepts(&self, req: &R) -> bool {
        true
    }

    /// The latencies that a sample for a request can be: any, unless the
    /// distribution says more.
    open spec fn may_yield(&self, req: &R, latency: Latency) -> bool {
        true
    }

    /// The latency to inject for `req`. A distribution that goes by chance
    /// draws from `rng`; the others leave it alone.
    fn sample(&self, req: &R, rng: &mut RandomStream) -> (latency: Latency)
        requires
            self.accepts(req),
        ensures
            latency.wf(),
            self.may_yield(req, latency),
            final(rng).extends(old(rng)),
    ;
}

/// A fixed latency: every sample is that latency.
impl<R> Distribution<R> for Latency {
    open spec fn may_yield(&self, req: &R, latency: Latency) -> bool {
        latency == *self
    }

    fn sample(&self, req: &R, rng: &mut RandomStream) -> (latency: Latency)
        ensures
            *final(rng) == *old(rng),
    {
        proof {
            use_type_invariant(self);
        }
        *self
    }
}

/// A fixed number of milliseconds.
impl<R> Distribution<R> for u64 {
    open spec fn may_yield(&self, req: &R, latency: Latency) -> bool {
        latency.total_nanos() == *self * NANOS_PER_MILLI
    }

    fn sample(&self, req: &R, rng: &mut RandomStream) -> (latency: Latency)
        ensures
            *final(rng) == *old(rng),
    {
        Latency::from_millis(*self)
    }
}

/// Whole milliseconds drawn uniformly between two bounds.
impl<R> Distribution<R> for MillisRange {
    open spec fn may_yield(&self, req: &R, latency: Latency) -> bool {
        self.contains(latency)
    }

    fn sample(&self, req: &R, rng: &mut RandomStream) -> (latency: Latency)
        ensures
            match self.draw() {
                Some(draw) => final(rng).after(old(rng), draw),
                None => *final(rng) == *old(rng),
            },
    {
        self.get_latency(rng)
    }
}

/// A span of time drawn uniformly between two bounds.
impl<R> Distribution<R> for SpanRange {
    open spec fn may_yield(&self, req: &R, latency: Latency) -> bool {
        self.contains(latency)
    }

    fn sample(&self, req: &R, rng: &mut RandomStream) -> (latency: Latency)
        ensures
            match self.draw() {
                Some(draw) => final(rng).after(old(rng), draw),
                None => *final(rng) == *old(rng),
            },
    {
        self.get_latency(rng)
    }
}

/// A function of the request.
impl<R, F: Fn(&R) -> Latency> Distribution<R> for F {
    open spec fn accepts(&self, req: &R) -> bool {
        call_requires(*self, (req,))
    }

    open spec fn may_yield(&self, req: &R, latency: Latency) -> bool {
        call_ensures(*self, (req,), latency)
    }

    fn sample(&self, req: &R, rng: &mut RandomStream) -> (latency: Latency)
        ensures
            *final(rng) == *old(rng),
    {
        let latency = self(req);
        proof {
            use_type_invariant(&latency);
        }
        latency
    }
}

/// A function yields as its own contract says: it can be sampled where it
/// can be called, and its samples are the results that it can return.
pub proof fn lemma_function_yields<R, F: Fn(&R) -> Latency>(f: F, req: &R)
    ensures
        f.accepts(req) <==> call_requires(f, (req,)),
        forall|latency: Latency| #[trigger]
            f.may_yield(req, latency) <==> call_ensures(f, (req,), latency),
{
}

} // verus!
