use std::cell::Cell;
use std::time::{Duration, Instant};

use tower_fault::decider::Error;
use tower_fault::handler::Blocking;
use tower_fault::latency::call::{Action, Phase};
use tower_fault::latency::magnitude::Latency;
use tower_fault::latency::range::{MillisRange, SpanRange};
use tower_fault::latency::LatencyLayer;
use tower_fault::random::RandomStream;

fn ok_handler(_req: ()) -> Result<String, String> {
    Ok(String::from("ok"))
}

fn sleep(latency: Latency) {
    let span = Duration::new(latency.secs(), latency.subsec_nanos());
    let start = Instant::now();
    while start.elapsed() < span {
        std::hint::spin_loop();
    }
}

#[test]
fn latency_none() {
    let latency = LatencyLayer::from_ratio(0, 1, MillisRange::new(10, 20).unwrap()).unwrap();
    let mut service = latency.layer(Blocking::new(ok_handler, sleep)).unwrap();

    for _ in 0..1000 {
        let now = Instant::now();
        let _res = service.call(());
        let elapsed = now.elapsed();

        assert!(elapsed < Duration::from_millis(5));
    }
}

#[test]
fn latency_all() {
    let latency = LatencyLayer::from_ratio(1, 1, MillisRange::new(10, 11).unwrap()).unwrap();
    let mut service = latency.layer(Blocking::new(ok_handler, sleep)).unwrap();

    for _ in 0..100 {
        let now = Instant::now();
        let _res = service.call(());
        let elapsed = now.elapsed();

        assert!(elapsed > Duration::from_millis(5));
    }
}

#[test]
fn latency_is_transparent_to_the_result() {
    let waited = Cell::new(0u128);
    let wait = |latency: Latency| waited.set(waited.get() + latency.as_millis());
    let layer = LatencyLayer::new(|value: &u64| value % 2 == 0, 30u64);
    let handler = |value: u64| -> Result<u64, String> {
        if value < 3 {
            Ok(value + 100)
        } else {
            Err(format!("refused {}", value))
        }
    };
    let mut service = layer.layer(Blocking::new(handler, &wait)).unwrap();
    assert_eq!(service.call(1), Ok(101));
    assert_eq!(waited.get(), 0);
    assert_eq!(service.call(2), Ok(102));
    assert_eq!(waited.get(), 30);
    assert_eq!(service.call(4), Err(String::from("refused 4")));
    assert_eq!(waited.get(), 60);
    assert_eq!(service.call(5), Err(String::from("refused 5")));
    assert_eq!(waited.get(), 60);
}

#[test]
fn delay_follows_decider_and_distribution() {
    let layer = LatencyLayer::new(|value: &u64| *value >= 10, |value: &u64| {
        Latency::from_millis(*value * 2)
    });
    let mut service = layer.layer(()).unwrap();
    assert_eq!(service.delay(&9), None);
    assert_eq!(service.delay(&10), Some(Latency::from_millis(20)));
    assert_eq!(service.delay(&250), Some(Latency::new(0, 500_000_000)));
    assert_eq!(service.delay_for(true, &1), Some(Latency::from_millis(2)));
    assert_eq!(service.delay_for(false, &100), None);
}

#[test]
fn zero_latency_is_a_fault_that_fires() {
    let layer = LatencyLayer::new(true, Latency::zero());
    let mut service = layer.layer(()).unwrap();
    let delay = service.delay(&()).unwrap();
    assert!(delay.is_zero());
    assert_eq!(service.begin(&()), (Phase::Suspended(delay), Action::Wait(delay)));
}

#[test]
fn begin_takes_the_first_step() {
    let layer = LatencyLayer::new(|fire: &bool| *fire, 7u64);
    let mut service = layer.layer(()).unwrap();
    let seven = Latency::from_millis(7);
    assert_eq!(service.begin(&true), (Phase::Suspended(seven), Action::Wait(seven)));
    assert_eq!(service.begin(&false), (Phase::Delegating, Action::Delegate));
}

#[test]
fn half_of_the_requests_wait_at_one_half() {
    let range = MillisRange::new(200, 500).unwrap();
    let layer = LatencyLayer::from_ratio(1, 2, range).unwrap();
    let waited = Cell::new(0u32);
    let wait = |latency: Latency| {
        assert!(latency.as_millis() >= 200);
        assert!(latency.as_millis() < 500);
        waited.set(waited.get() + 1);
    };
    let mut service = layer.wrap(
        Blocking::new(|value: u64| -> Result<u64, String> { Ok(value * 3) }, &wait),
        RandomStream::from_seed(31),
    );
    for value in 0..1000u64 {
        assert_eq!(service.call(value), Ok(value * 3));
    }
    assert!(waited.get() >= 450 && waited.get() <= 550, "waited: {}", waited.get());
}

#[test]
fn invalid_probability_makes_no_latency_layer() {
    match LatencyLayer::from_ratio(15, 10, 5u64) {
        Err(error) => assert_eq!(error, Error::InvalidProbability),
        Ok(_) => panic!("a probability of 1.5 was accepted"),
    }
    assert!(LatencyLayer::from_ratio(1, 0, 5u64).is_err());
    assert!(LatencyLayer::from_ratio(10, 10, 5u64).is_ok());
}

#[test]
fn default_layer_delays_one_in_ten() {
    let layer: LatencyLayer<_, MillisRange> = LatencyLayer::default();
    assert_eq!(layer.decider().numerator(), 1);
    assert_eq!(layer.decider().denominator(), 10);
    assert_eq!(layer.distribution().low(), 100);
    assert_eq!(layer.distribution().high(), 200);
    assert!(!layer.distribution().is_closed());
}

#[test]
fn latency_builder_sets_decider_and_distribution() {
    let layer = LatencyLayer::builder().with_decider(true).with_distribution(12u64);
    assert_eq!(*layer.decider(), true);
    assert_eq!(*layer.distribution(), 12);
    let mut service = layer.layer(()).unwrap();
    assert_eq!(service.delay(&()), Some(Latency::from_millis(12)));

    let layer = LatencyLayer::new(true, 12u64).with_decider(false);
    let mut service = layer.layer(String::from("inner")).unwrap();
    assert_eq!(service.delay(&()), None);
    assert_eq!(service.get_ref(), "inner");
    assert_eq!(service.into_inner(), "inner");
}

#[test]
fn span_distribution_in_a_layer() {
    let low = Latency::new(0, 1_500_000);
    let high = Latency::new(0, 2_500_000);
    let layer = LatencyLayer::new(true, SpanRange::inclusive(low, high).unwrap());
    let mut service = layer.wrap((), RandomStream::from_seed(8));
    for _ in 0..200 {
        let delay = service.delay(&()).unwrap();
        assert!(low.at_most(&delay) && delay.at_most(&high));
    }
}
