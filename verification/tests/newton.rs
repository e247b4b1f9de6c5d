use riemannrho::newton::{Estimate, NEWTON_UPDATES};
use std::f64::consts::PI;

/// One Newton update on the zero-counting function N(t) = a ln a - a + 7/8,
/// a = t / 2π, towards N(t) = n.
fn newton_update(t: f64, n: f64) -> f64 {
    let a = t / (2.0 * PI);
    let log_a = a.ln();
    let nt = a * log_a - a + 7.0 / 8.0;
    t - (nt - n) * (2.0 * PI / log_a)
}

/// Runs a whole estimate, and counts its updates.
fn estimate(n: f64) -> (f64, u32) {
    let mut estimate = Estimate::start(n < 1.0, 0.0, 2.0 * PI * n * n.ln());
    let mut updates = 0;
    while !estimate.is_final() {
        estimate = estimate.update(newton_update(estimate.t, n));
        updates += 1;
    }
    (estimate.t, updates)
}

fn counting(t: f64) -> f64 {
    let a = t / (2.0 * PI);
    a * a.ln() - a + 7.0 / 8.0
}

#[test]
fn newton_updates_are_twenty() {
    assert_eq!(NEWTON_UPDATES, 20);
}

#[test]
fn start_on_a_degenerate_index_is_final_at_zero() {
    let estimate = Estimate::start(true, 0.0, 123.5);
    assert!(estimate.is_final());
    assert_eq!(estimate.t, 0.0);
    assert_eq!(estimate.updates_left, 0);
}

#[test]
fn start_on_a_proper_index_is_at_the_seed() {
    let estimate = Estimate::start(false, 0.0, 123.5);
    assert!(!estimate.is_final());
    assert_eq!(estimate.t, 123.5);
    assert_eq!(estimate.updates_left, 20);
}

#[test]
fn update_moves_to_the_new_value_and_counts_down() {
    let estimate = Estimate { t: 1.5, updates_left: 3 }.update(2.5);
    assert_eq!(estimate.t, 2.5);
    assert_eq!(estimate.updates_left, 2);
    let estimate = estimate.update(3.5).update(4.5);
    assert_eq!(estimate.t, 4.5);
    assert_eq!(estimate.updates_left, 0);
    assert!(estimate.is_final());
}

#[test]
fn update_on_a_final_estimate_changes_nothing() {
    let estimate = Estimate { t: 7u8, updates_left: 0 }.update(9u8);
    assert_eq!(estimate.t, 7);
    assert_eq!(estimate.updates_left, 0);
}

#[test]
fn a_proper_estimate_is_final_after_twenty_updates_and_not_before() {
    let mut estimate = Estimate::start(false, 0u32, 1000u32);
    for k in 1..=20u32 {
        assert!(!estimate.is_final());
        estimate = estimate.update(k);
        assert_eq!(estimate.t, k);
        assert_eq!(estimate.updates_left, 20 - k);
    }
    assert!(estimate.is_final());
}

#[test]
fn updates_after_the_twentieth_are_dropped() {
    let mut estimate = Estimate::start(false, 0u32, 1000u32);
    for k in 1..=25u32 {
        estimate = estimate.update(k);
    }
    assert!(estimate.is_final());
    assert_eq!(estimate.t, 20);
}

#[test]
fn a_degenerate_estimate_stays_at_zero() {
    let mut estimate = Estimate::start(true, 0u32, 1000u32);
    for k in 1..=3u32 {
        estimate = estimate.update(k);
    }
    assert!(estimate.is_final());
    assert_eq!(estimate.t, 0);
}

#[test]
fn estimate_of_index_zero_is_exactly_zero() {
    assert_eq!(estimate(0.0), (0.0, 0));
}

#[test]
fn estimate_of_a_negative_index_is_exactly_zero() {
    assert_eq!(estimate(-5.0), (0.0, 0));
    assert_eq!(estimate(0.999), (0.0, 0));
}

#[test]
fn estimate_of_index_two_solves_the_counting_formula() {
    let (t, updates) = estimate(2.0);
    assert_eq!(updates, 20);
    assert!((t - 23.171660819).abs() < 1e-6);
    assert!((counting(t) - 2.0).abs() < 1e-9);
}

#[test]
fn estimate_grows_with_the_index() {
    let t2 = estimate(2.0).0;
    let t3 = estimate(3.0).0;
    let t10 = estimate(10.0).0;
    let t100 = estimate(100.0).0;
    assert!(t2 < t3 && t3 < t10 && t10 < t100);
    assert!((t3 - 27.671198036).abs() < 1e-6);
    assert!((t10 - 51.734224849).abs() < 1e-6);
    assert!((t100 - 236.853260686).abs() < 1e-6);
}

#[test]
fn estimate_of_index_one_is_not_a_number() {
    // The seed 2π·1·ln 1 is zero, and the first update divides by ln 0.
    let (t, updates) = estimate(1.0);
    assert_eq!(updates, 20);
    assert!(t.is_nan());
}

#[test]
fn estimate_is_the_same_on_every_run() {
    for &n in &[-5.0, 0.0, 2.0, 3.0, 10.0, 100.0] {
        assert_eq!(estimate(n).0.to_bits(), estimate(n).0.to_bits());
    }
}
