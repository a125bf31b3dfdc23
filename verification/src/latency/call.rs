//! The course of one request through the latency interceptor.
//!
//! The interceptor decides, perhaps waits, and then hands the request to
//! the handler. Waiting and the handler's work happen outside this
//! library; [`step`] says what is to be done next when one of them ends or
//! the caller gives up.
use vstd::prelude::*;
use crate::latency::magnitude::Latency;

verus! {

/// Where a request stands.
#[derive(Clone, Copy, Debug, PartialEq, Eq, Structural)]
pub enum Phase {
    /// Nothing is decided yet.
    Deciding,
    /// The fault fired: the request waits for the given time.
    Suspended(Latency),
    /// The handler has the request.
    Delegating,
    /// The handler's result went back to the caller.
    Completed,
    /// The caller gave up before the request was completed.
    Cancelled,
}

/// What happened to a request.
#[derive(Clone, Copy, Debug, PartialEq, Eq, Structural)]
pub enum Event {
    /// The decision was taken: the time to wait where the fault fires.
    Decided(Option<Latency>),
    /// The wait is over.
    Elapsed,
    /// The handler returned.
    Returned,
    /// The caller gave up.
    Cancelled,
}

/// What is to be done for a request.
#[derive(Clone, Copy, Debug, PartialEq, Eq, Structural)]
pub enum Action {
    /// Wait for the given time without handing the request on.
    Wait(Latency),
    /// Hand the request to the handler.
    Delegate,
    /// Return the handler's result unchanged.
    Finish,
    /// Stop the wait or the handler's work that is under way.
    Abandon,
    /// Nothing: the event does not belong to the phase.
    Nothing,
}

/// The phase that follows `phase` on `event`, and what is to be done.
pub open spec fn spec_step(phase: Phase, event: Event) -> (Phase, Action) {
    match (phase, event) {
        (Phase::Deciding, Event::Decided(Some(latency))) => (
            Phase::Suspended(latency),
            Action::Wait(latency),
        ),
        (Phase::Deciding, Event::Decided(None)) => (Phase::Delegating, Action::Delegate),
        (Phase::Suspended(_), Event::Elapsed) => (Phase::Delegating, Action::Delegate),
        (Phase::Delegating, Event::Returned) => (Phase::Completed, Action::Finish),
        (Phase::Deciding, Event::Cancelled) => (Phase::Cancelled, Action::Nothing),
        (Phase::Suspended(_), Event::Cancelled) => (Phase::Cancelled, Action::Abandon),
        (Phase::Delegating, Event::Cancelled) => (Phase::Cancelled, Action::Abandon),
        _ => (phase, Action::Nothing),
    }
}

/// The phase that follows `phase` on `event`, and what is to be done. An
/// event that does not belong to the phase changes nothing.
pub fn step(phase: Phase, event: Event) -> (next: (Phase, Action))
    ensures
        next == spec_step(phase, event),
{
    match phase {
        Phase::Deciding => match event {
            Event::Decided(Some(latency)) => (Phase::Suspended(latency), Action::Wait(latency)),
            Event::Decided(None) => (Phase::Delegating, Action::Delegate),
            Event::Cancelled => (Phase::Cancelled, Action::Nothing),
            _ => (phase, Action::Nothing),
        },
        Phase::Suspended(_) => match event {
            Event::Elapsed => (Phase::Delegating, Action::Delegate),
            Event::Cancelled => (Phase::Cancelled, Action::Abandon),
            _ => (phase, Action::Nothing),
        },
        Phase::Delegating => match event {
            Event::Returned => (Phase::Completed, Action::Finish),
            Event::Cancelled => (Phase::Cancelled, Action::Abandon),
            _ => (phase, Action::Nothing),
        },
        _ => (phase, Action::Nothing),
    }
}

/// The phase reached from `phase` after `events`, in their order.
pub open spec fn run(phase: Phase, events: Seq<Event>) -> Phase
    decreases events.len(),
{
    if events.len() == 0 {
        phase
    } else {
        spec_step(run(phase, events.drop_last()), events.last()).0
    }
}

/// What is to be done on the last of `events`, which reach the request in
/// their order from `phase` on.
pub open spec fn action_at(phase: Phase, events: Seq<Event>) -> Action
    recommends
        events.len() > 0,
{
    spec_step(run(phase, events.drop_last()), events.last()).1
}

/// How far a request has come: a phase never follows one that is further.
pub open spec fn progress(phase: Phase) -> nat {
    match phase {
        Phase::Deciding => 0,
        Phase::Suspended(_) => 1,
        Phase::Delegating => 2,
        Phase::Completed => 3,
        Phase::Cancelled => 3,
    }
}

/// Whether a request is over: completed, or cancelled.
pub open spec fn is_over(phase: Phase) -> bool {
    phase is Completed || phase is Cancelled
}

/// A request never goes back: no event leads to an earlier phase, and the
/// handler gets the request only on the step that enters `Delegating`.
pub proof fn lemma_step_advances(phase: Phase, event: Event)
    ensures
        progress(phase) <= progress(spec_step(phase, event).0),
        spec_step(phase, event).1 is Delegate <==> (!(phase is Delegating) && spec_step(
            phase,
            event,
        ).0 is Delegating),
        spec_step(phase, event).1 is Delegate ==> progress(phase) < 2,
        is_over(phase) ==> spec_step(phase, event) == (phase, Action::Nothing),
{
}

/// Over any events a request only advances.
pub proof fn lemma_run_advances(phase: Phase, events: Seq<Event>, upto: int)
    requires
        0 <= upto <= events.len(),
    ensures
        progress(run(phase, events.take(upto))) <= progress(run(phase, events)),
        progress(phase) <= progress(run(phase, events)),
    decreases events.len() - upto,
{
    if upto == events.len() {
        assert(events.take(upto) =~= events);
        lemma_from_start(phase, events);
    } else {
        lemma_run_advances(phase, events, upto + 1);
        let longer = events.take(upto + 1);
        assert(longer.drop_last() =~= events.take(upto));
        lemma_step_advances(run(phase, events.take(upto)), longer.last());
    }
}

/// After any events a request has come at least as far as it had at the
/// start.
pub proof fn lemma_from_start(phase: Phase, events: Seq<Event>)
    ensures
        progress(phase) <= progress(run(phase, events)),
    decreases events.len(),
{
    if events.len() > 0 {
        lemma_from_start(phase, events.drop_last());
        lemma_step_advances(run(phase, events.drop_last()), events.last());
    }
}

/// The handler gets a request at most once: of two different moments in
/// the course of one request, at most one hands the request to the handler.
pub proof fn lemma_delegates_once(events: Seq<Event>, first: int, second: int)
    requires
        0 < first < second <= events.len(),
    ensures
        !(action_at(Phase::Deciding, events.take(first)) is Delegate && action_at(
            Phase::Deciding,
            events.take(second),
        ) is Delegate),
{
    let early = events.take(first);
    let late = events.take(second);
    let before_late = late.drop_last();
    lemma_step_advances(run(Phase::Deciding, early.drop_last()), early.last());
    lemma_step_advances(run(Phase::Deciding, before_late), late.last());
    assert(before_late.take(first) =~= early);
    lemma_run_advances(Phase::Deciding, before_late, first);
}

/// Once the caller has given up, the handler never gets the request, and
/// nothing more is done for it.
pub proof fn lemma_cancelled_stays(events: Seq<Event>, given_up: int, later: int)
    requires
        0 < given_up < later <= events.len(),
        events[given_up - 1] is Cancelled,
    ensures
        action_at(Phase::Deciding, events.take(later)) is Nothing,
        is_over(run(Phase::Deciding, events.take(later))),
{
    let early = events.take(given_up);
    let late = events.take(later);
    let before_late = late.drop_last();
    assert(early.last() is Cancelled);
    let reached = run(Phase::Deciding, early);
    assert(is_over(reached));
    assert(before_late.take(given_up) =~= early);
    lemma_run_advances(Phase::Deciding, before_late, given_up);
    lemma_step_advances(run(Phase::Deciding, before_late), late.last());
}

/// Where the fault fired, the handler gets the request only when the wait
/// is over: the step that delegates is the one on `Elapsed`.
pub proof fn lemma_waits_before_delegating(events: Seq<Event>, latency: Latency, at: int)
    requires
        0 < at <= events.len(),
        events[0] == Event::Decided(Some(latency)),
        action_at(Phase::Deciding, events.take(at)) is Delegate,
    ensures
        at > 1,
        events[at - 1] is Elapsed,
        run(Phase::Deciding, events.take(at - 1)) == Phase::Suspended(latency),
{
    let upto = events.take(at);
    let before = upto.drop_last();
    assert(before =~= events.take(at - 1));
    if at == 1 {
        assert(before.len() == 0);
        assert(run(Phase::Deciding, before) == Phase::Deciding);
    } else {
        lemma_suspended_until_elapsed(events, latency, at - 1);
    }
}

/// Where the fault fired, the request is suspended with the sampled
/// latency until the first event that ends the wait.
pub proof fn lemma_suspended_until_elapsed(events: Seq<Event>, latency: Latency, upto: int)
    requires
        0 < upto <= events.len(),
        events[0] == Event::Decided(Some(latency)),
    ensures
        ({
            let reached = run(Phase::Deciding, events.take(upto));
            reached == Phase::Suspended(latency) || progress(reached) >= 2
        }),
    decreases upto,
{
    let prefix = events.take(upto);
    assert(prefix.drop_last() =~= events.take(upto - 1));
    if upto == 1 {
        assert(run(Phase::Deciding, prefix.drop_last()) == Phase::Deciding);
    } else {
        lemma_suspended_until_elapsed(events, latency, upto - 1);
        lemma_step_advances(run(Phase::Deciding, events.take(upto - 1)), prefix.last());
    }
}

} // verus!
