use std::cell::Cell;

use tower_fault::decider::{Error, Probability};
use tower_fault::error::ErrorLayer;
use tower_fault::handler::Blocking;
use tower_fault::latency::magnitude::Latency;
use tower_fault::random::RandomStream;

fn ok_handler(_req: ()) -> Result<String, String> {
    Ok(String::from("ok"))
}

fn no_wait(_latency: Latency) {}

#[test]
fn error_success() {
    let layer = ErrorLayer::from_ratio(0, 1, |_: &()| String::from("error")).unwrap();
    let mut service = layer.layer(Blocking::new(ok_handler, no_wait)).unwrap();

    for _ in 0..1000 {
        let res = service.call(());
        assert_eq!(res.unwrap(), String::from("ok"));
    }
}

#[test]
fn error_fail() {
    let layer = ErrorLayer::from_ratio(1, 1, |_: &()| String::from("error")).unwrap();
    let mut service = layer.layer(Blocking::new(ok_handler, no_wait)).unwrap();

    for _ in 0..1000 {
        let res = service.call(());
        assert_eq!(res.unwrap_err(), String::from("error"));
    }
}

#[test]
fn error_fail_never_invokes_the_handler() {
    let calls = Cell::new(0u32);
    let handler = |_: u64| -> Result<u64, String> {
        calls.set(calls.get() + 1);
        Ok(1)
    };
    let layer = ErrorLayer::from_ratio(7, 7, |_: &u64| String::from("injected")).unwrap();
    let mut service = layer.wrap(Blocking::new(&handler, no_wait), RandomStream::from_seed(11));
    for value in 0..1000u64 {
        assert_eq!(service.call(value), Err(String::from("injected")));
    }
    assert_eq!(calls.get(), 0);
}

#[test]
fn error_success_invokes_the_handler_every_time() {
    let calls = Cell::new(0u32);
    let handler = |value: u64| -> Result<u64, String> {
        calls.set(calls.get() + 1);
        Ok(value + 1)
    };
    let layer = ErrorLayer::from_ratio(0, 9, |_: &u64| String::from("injected")).unwrap();
    let mut service = layer.wrap(Blocking::new(&handler, no_wait), RandomStream::from_seed(11));
    for value in 0..1000u64 {
        assert_eq!(service.call(value), Ok(value + 1));
    }
    assert_eq!(calls.get(), 1000);
}

#[test]
fn error_for_even_requests() {
    let layer = ErrorLayer::new(
        |value: &u64| value % 2 == 0,
        |value: &u64| format!("error for {}", value),
    );
    let handler = |value: u64| -> Result<u64, String> { Ok(value * 10) };
    let mut service = layer.layer(Blocking::new(handler, no_wait)).unwrap();

    assert_eq!(service.call(4), Err(String::from("error for 4")));
    assert_eq!(service.call(6), Err(String::from("error for 6")));
    assert_eq!(service.call(3), Ok(30));
    assert_eq!(service.call(5), Ok(50));
}

#[test]
fn handler_errors_pass_through_verbatim() {
    let layer = ErrorLayer::new(false, |_: &u64| String::from("injected"));
    let handler = |value: u64| -> Result<u64, String> {
        if value > 2 {
            Err(format!("too large: {}", value))
        } else {
            Ok(value)
        }
    };
    let mut service = layer.layer(Blocking::new(handler, no_wait)).unwrap();
    assert_eq!(service.call(1), Ok(1));
    assert_eq!(service.call(3), Err(String::from("too large: 3")));
}

#[test]
fn respond_follows_the_decision() {
    let layer = ErrorLayer::new(false, |value: &u64| format!("no {}", value));
    let handler = |value: u64| -> Result<u64, String> { Ok(value + 1) };
    let mut service = layer.layer(Blocking::new(handler, no_wait)).unwrap();
    assert_eq!(service.respond(false, 8), Ok(9));
    assert_eq!(service.respond(true, 8), Err(String::from("no 8")));
    assert_eq!(service.fault_for(false, &8), None);
    assert_eq!(service.fault_for(true, &8), Some(String::from("no 8")));
}

#[test]
fn fault_says_whether_to_delegate() {
    let layer = ErrorLayer::new(|value: &u64| *value > 10, |value: &u64| *value as i64 - 10);
    let mut service = layer.layer(()).unwrap();
    assert_eq!(service.fault(&11), Some(1));
    assert_eq!(service.fault(&10), None);
    assert_eq!(service.fault(&0), None);
    assert_eq!(service.fault(&25), Some(15));
}

#[test]
fn invalid_probability_is_refused() {
    assert_eq!(Probability::new(3, 2), Err(Error::InvalidProbability));
    assert_eq!(Probability::new(0, 0), Err(Error::InvalidProbability));
    assert_eq!(Probability::new(1, 0), Err(Error::InvalidProbability));
    match ErrorLayer::from_ratio(15, 10, |_: &()| String::from("error")) {
        Err(error) => assert_eq!(error, Error::InvalidProbability),
        Ok(_) => panic!("a probability of 1.5 was accepted"),
    }
}

#[test]
fn valid_probabilities_are_kept() {
    let half = Probability::new(1, 2).unwrap();
    assert_eq!(half.numerator(), 1);
    assert_eq!(half.denominator(), 2);
    let layer = ErrorLayer::from_ratio(3, 4, |_: &()| 0u8).unwrap();
    assert_eq!(layer.decider().numerator(), 3);
    assert_eq!(layer.decider().denominator(), 4);
    assert!(Probability::new(0, 1).is_ok());
    assert!(Probability::new(5, 5).is_ok());
    assert!(Probability::new(u32::MAX, u32::MAX).is_ok());
}

#[test]
fn builder_sets_decider_and_generator() {
    let layer = ErrorLayer::builder()
        .with_decider(true)
        .with_generator(|value: &u64| *value + 1);
    assert_eq!(*layer.decider(), true);
    let mut service =
        layer.layer(Blocking::new(|_: u64| -> Result<(), u64> { Ok(()) }, no_wait)).unwrap();
    assert_eq!(service.call(41), Err(42));

    let layer = ErrorLayer::new(true, |_: &u64| 0u64).with_decider(false);
    let mut service =
        layer.layer(Blocking::new(|_: u64| -> Result<(), u64> { Ok(()) }, no_wait)).unwrap();
    assert_eq!(service.call(41), Ok(()));
}

#[test]
fn into_inner_gives_the_handler_back() {
    let layer = ErrorLayer::new(false, |_: &u64| 0u64);
    let service = layer.layer(String::from("handler")).unwrap();
    assert_eq!(service.get_ref(), "handler");
    assert_eq!(service.into_inner(), String::from("handler"));
}

#[test]
fn half_of_the_requests_fail_at_one_half() {
    let layer = ErrorLayer::from_ratio(1, 2, |_: &u64| String::from("injected")).unwrap();
    let mut service = layer.wrap(
        Blocking::new(|value: u64| -> Result<u64, String> { Ok(value) }, no_wait),
        RandomStream::from_seed(2024),
    );
    let mut failed = 0u32;
    for value in 0..1000u64 {
        match service.call(value) {
            Ok(got) => assert_eq!(got, value),
            Err(error) => {
                assert_eq!(error, "injected");
                failed += 1;
            }
        }
    }
    assert!(failed >= 400 && failed <= 600, "failed: {}", failed);
}

#[test]
fn error_messages() {
    assert_eq!(
        Error::InvalidProbability.message(),
        "cannot create the layer: invalid probability"
    );
    assert_eq!(Error::InvalidRange.message(), "cannot create the layer: invalid range");
}
