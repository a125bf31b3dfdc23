use tower_fault::decider::{Decider, Probability};
use tower_fault::random::RandomStream;

struct MyRequest {
    value: u64,
}

#[test]
fn bool_decider_answers_itself() {
    let mut rng = RandomStream::from_seed(7);
    let request = MyRequest { value: 6 };
    assert!(true.decide(&request, &mut rng));
    assert!(!false.decide(&request, &mut rng));
}

#[test]
fn closure_decider_reads_the_request() {
    let mut rng = RandomStream::from_seed(7);
    let even = |req: &MyRequest| req.value % 2 == 0;
    assert!(even.decide(&MyRequest { value: 6 }, &mut rng));
    assert!(!even.decide(&MyRequest { value: 7 }, &mut rng));
}

#[test]
fn probability_zero_never_fires() {
    let mut rng = RandomStream::try_from_entropy().unwrap();
    let never = Probability::new(0, 3).unwrap();
    for _ in 0..1000 {
        assert!(!never.decide(&(), &mut rng));
    }
}

#[test]
fn probability_one_always_fires() {
    let mut rng = RandomStream::try_from_entropy().unwrap();
    let always = Probability::new(3, 3).unwrap();
    for _ in 0..1000 {
        assert!(always.decide(&(), &mut rng));
    }
}

#[test]
fn probability_between_fires_sometimes() {
    let mut rng = RandomStream::from_seed(99);
    let third = Probability::new(3, 10).unwrap();
    let mut fired = 0u32;
    for _ in 0..10_000 {
        if third.decide(&(), &mut rng) {
            fired += 1;
        }
    }
    assert!(fired > 2_700 && fired < 3_300, "fired: {}", fired);
}

#[test]
fn equal_seeds_give_equal_decisions() {
    let half = Probability::new(1, 2).unwrap();
    let mut first = RandomStream::from_seed(5);
    let mut second = RandomStream::from_seed(5);
    let mut fired = 0u32;
    for _ in 0..200 {
        let a = half.decide(&(), &mut first);
        let b = half.decide(&(), &mut second);
        assert_eq!(a, b);
        if a {
            fired += 1;
        }
    }
    assert!(fired > 0 && fired < 200);
}

#[test]
fn entropy_makes_a_stream() {
    let mut first = RandomStream::try_from_entropy().expect("no entropy");
    let mut second = RandomStream::try_from_entropy().expect("no entropy");
    let mut same = 0u32;
    for _ in 0..64 {
        if first.next_u64() == second.next_u64() {
            same += 1;
        }
    }
    assert!(same < 64);
}

#[test]
fn equal_seeds_give_equal_words() {
    let mut first = RandomStream::from_seed(77);
    let mut second = RandomStream::from_seed(77);
    let mut other = RandomStream::from_seed(78);
    let mut differs = false;
    for _ in 0..64 {
        let word = first.next_u64();
        assert_eq!(word, second.next_u64());
        differs |= word != other.next_u64();
    }
    assert!(differs);
}

#[test]
fn stream_ratio_bounds() {
    let mut rng = RandomStream::from_seed(1);
    for _ in 0..100 {
        assert!(rng.ratio(4, 4));
        assert!(!rng.ratio(0, 4));
    }
}

#[test]
fn stream_numbers_stay_in_range() {
    let mut rng = RandomStream::from_seed(1);
    let mut seen_low = false;
    let mut seen_top = false;
    for _ in 0..2000 {
        let below = rng.below(10, 20);
        assert!((10..20).contains(&below));
        let through = rng.through(10, 20);
        assert!((10..=20).contains(&through));
        seen_low |= below == 10;
        seen_top |= through == 20;
    }
    assert!(seen_low && seen_top);
    assert_eq!(rng.through(7, 7), 7);
    assert_eq!(rng.below(7, 8), 7);
    assert_eq!(rng.through(u64::MAX, u64::MAX), u64::MAX);
}
