use tower_fault::latency::call::{step, Action, Event, Phase};
use tower_fault::latency::magnitude::Latency;

fn course(events: &[Event]) -> (Phase, Vec<Action>) {
    let mut phase = Phase::Deciding;
    let mut actions = Vec::new();
    for event in events {
        let (next, action) = step(phase, *event);
        phase = next;
        actions.push(action);
    }
    (phase, actions)
}

#[test]
fn pass_through_course() {
    let (phase, actions) = course(&[Event::Decided(None), Event::Returned]);
    assert_eq!(phase, Phase::Completed);
    assert_eq!(actions, vec![Action::Delegate, Action::Finish]);
}

#[test]
fn delayed_course() {
    let wait = Latency::from_millis(40);
    let (phase, actions) = course(&[Event::Decided(Some(wait)), Event::Elapsed, Event::Returned]);
    assert_eq!(phase, Phase::Completed);
    assert_eq!(actions, vec![Action::Wait(wait), Action::Delegate, Action::Finish]);
}

#[test]
fn cancelled_while_waiting_never_delegates() {
    let wait = Latency::from_millis(40);
    let (phase, actions) = course(&[
        Event::Decided(Some(wait)),
        Event::Cancelled,
        Event::Elapsed,
        Event::Returned,
        Event::Decided(None),
    ]);
    assert_eq!(phase, Phase::Cancelled);
    assert_eq!(
        actions,
        vec![
            Action::Wait(wait),
            Action::Abandon,
            Action::Nothing,
            Action::Nothing,
            Action::Nothing
        ]
    );
}

#[test]
fn cancelled_while_delegating_abandons_the_handler() {
    let (phase, actions) = course(&[Event::Decided(None), Event::Cancelled, Event::Returned]);
    assert_eq!(phase, Phase::Cancelled);
    assert_eq!(actions, vec![Action::Delegate, Action::Abandon, Action::Nothing]);
}

#[test]
fn cancelled_before_the_decision() {
    assert_eq!(step(Phase::Deciding, Event::Cancelled), (Phase::Cancelled, Action::Nothing));
}

#[test]
fn events_out_of_place_change_nothing() {
    let wait = Latency::from_millis(40);
    assert_eq!(step(Phase::Deciding, Event::Elapsed), (Phase::Deciding, Action::Nothing));
    assert_eq!(step(Phase::Deciding, Event::Returned), (Phase::Deciding, Action::Nothing));
    assert_eq!(
        step(Phase::Suspended(wait), Event::Returned),
        (Phase::Suspended(wait), Action::Nothing)
    );
    assert_eq!(
        step(Phase::Suspended(wait), Event::Decided(None)),
        (Phase::Suspended(wait), Action::Nothing)
    );
    assert_eq!(step(Phase::Delegating, Event::Elapsed), (Phase::Delegating, Action::Nothing));
    assert_eq!(
        step(Phase::Delegating, Event::Decided(Some(wait))),
        (Phase::Delegating, Action::Nothing)
    );
    for event in [Event::Decided(None), Event::Elapsed, Event::Returned, Event::Cancelled] {
        assert_eq!(step(Phase::Completed, event), (Phase::Completed, Action::Nothing));
        assert_eq!(step(Phase::Cancelled, event), (Phase::Cancelled, Action::Nothing));
    }
}

#[test]
fn the_handler_gets_a_request_once() {
    let wait = Latency::from_millis(1);
    let (_, actions) = course(&[
        Event::Decided(Some(wait)),
        Event::Elapsed,
        Event::Elapsed,
        Event::Decided(None),
        Event::Returned,
        Event::Elapsed,
    ]);
    let delegated = actions.iter().filter(|action| **action == Action::Delegate).count();
    assert_eq!(delegated, 1);
}
