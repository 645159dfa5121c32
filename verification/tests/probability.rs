//! Probability knobs and the arithmetic behind them.

use rand::rngs::SmallRng;
use rand::{RngCore, SeedableRng};
use trixter::binary64::{clamp_to_unit_interval, is_in_unit_interval, threshold};
use trixter::probability::{
    trigger_on_draw, try_trigger, validate_probability_rate, DynamicProbability, ErrorKind,
    FixedProbability, Probability,
};

fn expected_threshold(probability: f64) -> u64 {
    ((probability.clamp(0.0, 1.0)) * u64::MAX as f64) as u64
}

fn fixed(probability: f64) -> FixedProbability {
    FixedProbability {
        bits: probability.to_bits(),
    }
}

#[test]
fn dynamic_probability_new_within_range_initializes_fields() {
    let knob = DynamicProbability::new(0.25f64.to_bits()).expect("0.25 should be accepted");

    assert_eq!(f64::from_bits(knob.probability()), 0.25);
    assert_eq!(knob.threshold(), expected_threshold(0.25));
}

#[test]
fn dynamic_probability_new_rejects_out_of_range() {
    let err = DynamicProbability::new(1.1f64.to_bits()).expect_err("1.1 should be rejected");

    assert_eq!(err.kind(), ErrorKind::InvalidInput);
}

#[test]
fn dynamic_probability_set_updates_shared_state() {
    let knob = DynamicProbability::new(0.1f64.to_bits()).expect("0.1 should be accepted");

    knob.set(0.9f64.to_bits()).expect("0.9 should be accepted");

    assert_eq!(f64::from_bits(knob.probability()), 0.9);
    assert_eq!(knob.threshold(), expected_threshold(0.9));
}

#[test]
fn validate_probability_rate_bounds_check() {
    assert!(validate_probability_rate(0.0f64.to_bits()).is_ok());
    assert!(validate_probability_rate(1.0f64.to_bits()).is_ok());

    let low_err = validate_probability_rate((-0.01f64).to_bits())
        .expect_err("negative values should error");
    assert_eq!(low_err.kind(), ErrorKind::InvalidInput);

    let high_err =
        validate_probability_rate(1.01f64.to_bits()).expect_err("values > 1.0 should error");
    assert_eq!(high_err.kind(), ErrorKind::InvalidInput);
}

#[test]
fn try_trigger_with_zero_threshold_never_sets_flag() {
    let mut triggered = false;
    let mut rng = SmallRng::from_seed([0u8; 32]);
    let mut prob = fixed(0.0);

    assert!(!try_trigger(&mut triggered, &mut rng, &mut prob));
    assert!(!triggered);
}

#[test]
fn try_trigger_sets_flag_and_short_circuits() {
    let mut triggered = false;
    let mut rng = SmallRng::from_seed([1u8; 32]);
    let mut prob = fixed(1.0);

    assert!(try_trigger(&mut triggered, &mut rng, &mut prob));
    assert!(triggered);

    assert!(try_trigger(&mut triggered, &mut rng, &mut prob));
}

#[test]
fn probability_for_f64_clamps_threshold_only() {
    let below = fixed(-5.0);
    assert_eq!(f64::from_bits(below.probability()), 0.0);
    assert_eq!(below.threshold(), 0);

    let above = fixed(2.0);
    assert_eq!(f64::from_bits(above.probability()), 1.0);
    assert_eq!(above.threshold(), u64::MAX);
}

#[test]
fn error_describes_the_range() {
    let err = validate_probability_rate(f64::NAN.to_bits()).expect_err("not a number");
    assert_eq!(err.message(), "probability rate must be 0.0–1.0");
}

#[test]
fn odd_numbers_are_clamped() {
    assert_eq!(fixed(f64::NAN).probability(), 0.0f64.to_bits());
    assert_eq!(fixed(-0.0).probability(), 0.0f64.to_bits());
    assert_eq!(fixed(f64::NEG_INFINITY).probability(), 0.0f64.to_bits());
    assert_eq!(fixed(f64::INFINITY).probability(), 1.0f64.to_bits());
    assert_eq!(fixed(0.3).probability(), 0.3f64.to_bits());
}

#[test]
fn refused_set_leaves_the_knob_alone() {
    let knob = DynamicProbability::new(0.5f64.to_bits()).unwrap();
    assert!(knob.set(f64::NAN.to_bits()).is_err());
    assert!(knob.set(1.5f64.to_bits()).is_err());
    assert_eq!(f64::from_bits(knob.probability()), 0.5);
    assert_eq!(knob.threshold(), 1 << 63);
}

#[test]
fn knob_keeps_the_bits_of_every_rate_in_range() {
    let knob = DynamicProbability::default();
    for rate in [-0.0, 0.0, 5e-324, 0.1, 1.0] {
        knob.set(f64::to_bits(rate)).unwrap();
        assert_eq!(knob.probability(), rate.to_bits());
        assert!(is_in_unit_interval(knob.probability()));
    }
}

#[test]
fn pair_is_a_rate_with_its_own_threshold() {
    let knob = DynamicProbability::new(0.25f64.to_bits()).unwrap();
    assert_eq!(knob.pair(), (0.25f64.to_bits(), 1 << 62));
    let handle = knob.clone();
    let turner = tokio::runtime::Builder::new_multi_thread()
        .worker_threads(1)
        .build()
        .unwrap();
    let done = turner.spawn(async move {
        for step in 0..20_000 {
            let rate: f64 = if step % 2 == 0 { 0.75 } else { 0.25 };
            handle.set(rate.to_bits()).unwrap();
        }
    });
    while !done.is_finished() {
        let (bits, belongs) = knob.pair();
        let rate = f64::from_bits(bits);
        assert!(rate == 0.25 || rate == 0.75);
        assert_eq!(belongs, expected_threshold(rate));
    }
}

#[test]
fn default_knob_is_off() {
    let knob = DynamicProbability::default();
    assert_eq!(knob.probability(), 0);
    assert_eq!(knob.threshold(), 0);
}

#[test]
fn bit_tests_agree_with_comparisons() {
    let numbers = [
        0.0,
        -0.0,
        f64::MIN_POSITIVE,
        f64::MIN_POSITIVE / 4.0,
        5e-324,
        1e-18,
        1e-10,
        0.1,
        0.25,
        0.3,
        0.5,
        0.75,
        0.9,
        1.0 - f64::EPSILON,
        1.0 - f64::EPSILON / 2.0,
        1.0,
        1.0 + f64::EPSILON,
        2.0,
        1e300,
        -1e-300,
        -1.0,
        f64::INFINITY,
        f64::NEG_INFINITY,
        f64::NAN,
    ];
    for number in numbers {
        let bits = number.to_bits();
        assert_eq!(
            is_in_unit_interval(bits),
            (0.0..=1.0).contains(&number),
            "{number}"
        );
        let clamped = f64::from_bits(clamp_to_unit_interval(bits));
        assert!((0.0..=1.0).contains(&clamped), "{number}");
        assert_eq!(
            threshold(clamp_to_unit_interval(bits)),
            expected_threshold(clamped),
            "{number}"
        );
    }
}

#[test]
fn larger_rates_have_larger_thresholds() {
    let mut last = 0u64;
    for step in 0u32..=1000 {
        let rate = f64::from(step) / 1000.0;
        let now = threshold(rate.to_bits());
        assert!(now >= last);
        assert_eq!(now, expected_threshold(rate));
        last = now;
    }
    assert_eq!(last, u64::MAX);
}

#[test]
fn draw_strikes_strictly_below_the_threshold() {
    let mut triggered = false;
    assert!(!trigger_on_draw(&mut triggered, 10, 10));
    assert!(!triggered);
    assert!(trigger_on_draw(&mut triggered, 10, 9));
    assert!(triggered);
    assert!(trigger_on_draw(&mut triggered, 0, u64::MAX));

    let mut at_the_end = false;
    assert!(!trigger_on_draw(&mut at_the_end, u64::MAX, u64::MAX));
}

#[test]
fn shared_knob_drives_the_injector() {
    let knob = DynamicProbability::new(0.0f64.to_bits()).unwrap();
    let mut handle = knob.clone();
    let mut triggered = false;
    let mut rng = SmallRng::from_seed([2u8; 32]);
    for _ in 0..100 {
        assert!(!try_trigger(&mut triggered, &mut rng, &mut handle));
    }
    knob.set(1.0f64.to_bits()).unwrap();
    assert!(try_trigger(&mut triggered, &mut rng, &mut handle));
    knob.set(0.0f64.to_bits()).unwrap();
    assert!(try_trigger(&mut triggered, &mut rng, &mut handle));
}

#[test]
fn injector_goes_by_the_next_number_of_the_generator() {
    let mut rng = SmallRng::from_seed([4u8; 32]);
    for step in 0u32..200 {
        let mut prob = fixed(f64::from(step) / 200.0);
        let mut expected = rng.clone();
        let strikes = prob.threshold() > 0 && expected.next_u64() < prob.threshold();
        let mut triggered = false;
        assert_eq!(try_trigger(&mut triggered, &mut rng, &mut prob), strikes);
        assert_eq!(triggered, strikes);
        assert_eq!(rng, expected, "one draw, and none for a threshold of 0");

        if triggered {
            assert!(try_trigger(&mut triggered, &mut rng, &mut prob));
            assert_eq!(rng, expected, "no draw once it has struck");
        }
    }
}

#[test]
fn half_rate_strikes_about_half_of_the_time() {
    let mut rng = SmallRng::from_seed([3u8; 32]);
    let mut prob = fixed(0.5);
    let mut strikes = 0;
    for _ in 0..1000 {
        let mut triggered = false;
        if try_trigger(&mut triggered, &mut rng, &mut prob) {
            strikes += 1;
        }
    }
    assert!((400..600).contains(&strikes), "{strikes}");
}
