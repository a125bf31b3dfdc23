//! Fault injection for request pipelines.
//!
//! Two interceptors wrap a request handler. The latency interceptor may hold
//! a request back for a while before the handler sees it; the error
//! interceptor may answer with an error of the handler's own error type
//! without the handler being invoked at all. Whether a fault fires is the
//! business of a [`decider::Decider`]; how large it is, of a
//! [`latency::Distribution`] or of an error generator.
//!
//! An interceptor is itself a [`handler::Handler`], so interceptors pile up
//! in any order; each decides for itself. Where handling cannot happen on
//! the calling thread, [`error::ErrorService::fault`] and
//! [`latency::LatencyService::begin`] take the decisions alone and leave
//! the waiting and the delegation to the caller.
pub mod decider;
pub mod error;
pub mod handler;
pub mod latency;
pub mod random;
