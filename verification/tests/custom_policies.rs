use std::cell::Cell;

use tower_fault::decider::Decider;
use tower_fault::error::ErrorLayer;
use tower_fault::handler::Blocking;
use tower_fault::latency::distribution::Distribution;
use tower_fault::latency::magnitude::Latency;
use tower_fault::latency::range::Range;
use tower_fault::latency::LatencyLayer;
use tower_fault::random::RandomStream;

struct EveryThird {
    seen: Cell<u32>,
}

impl<R> Decider<R> for EveryThird {
    fn decide(&self, _req: &R, _rng: &mut RandomStream) -> bool {
        self.seen.set(self.seen.get() + 1);
        self.seen.get() % 3 == 0
    }
}

struct Doubling;

impl Distribution<u64> for Doubling {
    fn sample(&self, req: &u64, _rng: &mut RandomStream) -> Latency {
        Latency::from_millis(*req * 2)
    }
}

struct Seconds {
    low: u64,
    high: u64,
}

impl Range for Seconds {
    fn get_latency(&self, rng: &mut RandomStream) -> Latency {
        Latency::new(rng.through(self.low, self.high), 0)
    }
}

#[test]
fn custom_decider_in_an_error_layer() {
    let layer = ErrorLayer::new(EveryThird { seen: Cell::new(0) }, |value: &u64| *value);
    let mut service = layer.wrap(
        Blocking::new(|value: u64| -> Result<u64, u64> { Ok(value + 1) }, |_: Latency| ()),
        RandomStream::from_seed(1),
    );
    assert_eq!(service.call(10), Ok(11));
    assert_eq!(service.call(20), Ok(21));
    assert_eq!(service.call(30), Err(30));
    assert_eq!(service.call(40), Ok(41));
}

#[test]
fn custom_distribution_in_a_latency_layer() {
    let layer = LatencyLayer::new(true, Doubling);
    let mut service = layer.wrap((), RandomStream::from_seed(1));
    assert_eq!(service.delay(&21), Some(Latency::from_millis(42)));
}

#[test]
fn custom_range() {
    let mut rng = RandomStream::from_seed(1);
    let range = Seconds { low: 2, high: 4 };
    for _ in 0..50 {
        let latency = range.get_latency(&mut rng);
        assert!(latency.secs() >= 2 && latency.secs() <= 4);
        assert_eq!(latency.subsec_nanos(), 0);
    }
}
