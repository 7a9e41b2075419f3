//! Tests of the measurement pipeline: accumulator, smoother, payload text.
use telemetry_node::accumulator::AmplitudeAccumulator;
use telemetry_node::payload::render_micros;
use telemetry_node::smoother::Smoother;

#[test]
fn window_gating() {
    let mut acc = AmplitudeAccumulator::new(4);
    assert_eq!(acc.amplitude(), None);
    acc.feed(1_000_000);
    assert_eq!(acc.amplitude(), None);
    acc.feed(2_000_000);
    assert_eq!(acc.amplitude(), None);
    acc.feed(3_000_000);
    assert_eq!(acc.amplitude(), None);
    acc.feed(4_000_000);
    let ready = acc.amplitude();
    assert!(ready.is_some());
    // Non-destructive: querying again yields the same reading.
    assert_eq!(acc.amplitude(), ready);
}

#[test]
fn window_gating_is_value_independent() {
    // A window of zeros is ready all the same: absence of a reading never
    // stands for an amplitude of zero.
    let mut acc = AmplitudeAccumulator::new(3);
    acc.feed(0);
    acc.feed(0);
    assert_eq!(acc.amplitude(), None);
    acc.feed(0);
    assert_eq!(acc.amplitude(), Some(0));
}

#[test]
fn largest_samples() {
    let mut acc = AmplitudeAccumulator::new(2);
    acc.feed(u32::MAX);
    acc.feed(u32::MAX);
    assert_eq!(acc.amplitude(), Some(u32::MAX as u64));
}

#[test]
fn reset_idempotence() {
    let samples = [5_000_000u32, 7_000_000, 9_000_000, 11_000_000];
    let mut acc = AmplitudeAccumulator::new(4);
    for s in samples {
        acc.feed(s);
    }
    let first = acc.amplitude();
    acc.reset();
    assert_eq!(acc.amplitude(), None);
    for s in samples {
        acc.feed(s);
    }
    assert_eq!(acc.amplitude(), first);
    assert_eq!(first, Some(8_000_000));
}

#[test]
fn smoother_first_value() {
    let mut sm = Smoother::new(1, 20);
    sm.feed(3_141_590);
    assert_eq!(sm.value(), 3_141_590);
}

#[test]
fn smoother_convergence_from_below() {
    let mut sm = Smoother::new(1, 2);
    sm.feed(0);
    let target = 1_000_000u64;
    let mut prev = sm.value();
    for _ in 0..50 {
        sm.feed(target);
        let cur = sm.value();
        assert!(cur >= prev, "estimate moved away from the target");
        assert!(cur <= target, "estimate overshot the target");
        prev = cur;
    }
    assert_eq!(sm.value(), 999_999);
}

#[test]
fn smoother_convergence_from_above() {
    let mut sm = Smoother::new(1, 2);
    sm.feed(1_000_000);
    let target = 0u64;
    let mut prev = sm.value();
    for _ in 0..50 {
        sm.feed(target);
        let cur = sm.value();
        assert!(cur <= prev, "estimate moved away from the target");
        assert!(cur >= target, "estimate undershot the target");
        prev = cur;
    }
    // Truncation toward the old estimate leaves the last micro-unit standing.
    assert_eq!(sm.value(), 1);
}

#[test]
fn smoother_steps_are_exact() {
    // Factor one half: each estimate is the midpoint, rounded down.
    let mut sm = Smoother::new(1, 2);
    sm.feed(0);
    sm.feed(1_000_000);
    assert_eq!(sm.value(), 500_000);
    sm.feed(1_000_000);
    assert_eq!(sm.value(), 750_000);
    sm.feed(1_000_000);
    assert_eq!(sm.value(), 875_000);
}

#[test]
fn end_to_end_scenario() {
    // Window of four samples: the reading is the mean of exactly those four.
    let mut acc = AmplitudeAccumulator::new(4);
    for s in [1_000_000u32, 2_000_000, 3_000_000, 4_000_000] {
        acc.feed(s);
    }
    assert_eq!(acc.amplitude(), Some(2_500_000));
    acc.reset();
    for s in [10_000_000u32, 10_000_000, 10_000_000, 10_000_000] {
        acc.feed(s);
    }
    // The second window is unaffected by the first.
    assert_eq!(acc.amplitude(), Some(10_000_000));
}

#[test]
fn publish_payload_scenario() {
    let text = render_micros(3_141_590);
    assert_eq!(text, "3.14159");
    let parsed: f64 = text.parse().unwrap();
    assert_eq!(parsed, 3.14159f64);
    assert_eq!((parsed * 1_000_000.0).round() as u64, 3_141_590);
}

#[test]
fn payload_text_edges() {
    assert_eq!(render_micros(0), "0");
    assert_eq!(render_micros(1), "0.000001");
    assert_eq!(render_micros(1_000_000), "1");
    assert_eq!(render_micros(2_500_000), "2.5");
    assert_eq!(render_micros(10_000_000), "10");
    assert_eq!(render_micros(20), "0.00002");
    assert_eq!(render_micros(u64::MAX), "18446744073709.551615");
}
