use pong::clamp;
use pong::numeric::{advance, saturating_magnitude, saturating_sum, saturating_travel};

#[test]
fn clamp_keeps_value_inside_range() {
    assert_eq!(clamp(15_i64, 10, 20), 15);
    assert_eq!(clamp(10_i64, 10, 20), 10);
    assert_eq!(clamp(20_i64, 10, 20), 20);
}

#[test]
fn clamp_raises_value_below_range() {
    assert_eq!(clamp(-5_i64, 10, 20), 10);
}

#[test]
fn clamp_lowers_value_above_range() {
    assert_eq!(clamp(25_i64, 10, 20), 20);
}

#[test]
fn clamp_on_inverted_range_tests_lower_limit_first() {
    assert_eq!(clamp(5_i64, 30, 20), 30);
    assert_eq!(clamp(25_i64, 30, 20), 30);
    assert_eq!(clamp(30_i64, 30, 20), 20);
    assert_eq!(clamp(35_i64, 30, 20), 20);
}

#[test]
fn clamp_works_on_any_ordered_type() {
    assert_eq!(clamp(7_u8, 1, 5), 5);
    assert_eq!(clamp('a', 'c', 'x'), 'c');
    assert_eq!(clamp(1.5_f64, 0.0, 1.0), 1.0);
    let low: i64 = 3;
    let high: i64 = 9;
    let value: i64 = 12;
    assert_eq!(*clamp(&value, &low, &high), 9);
}

#[test]
fn saturating_sum_adds_and_saturates() {
    assert_eq!(saturating_sum(40, 2), 42);
    assert_eq!(saturating_sum(-40, 2), -38);
    assert_eq!(saturating_sum(i64::MAX, 1), i64::MAX);
    assert_eq!(saturating_sum(i64::MIN, -1), i64::MIN);
    assert_eq!(saturating_sum(i64::MIN, i64::MAX), -1);
}

#[test]
fn saturating_magnitude_drops_the_sign() {
    assert_eq!(saturating_magnitude(300_000), 300_000);
    assert_eq!(saturating_magnitude(-300_000), 300_000);
    assert_eq!(saturating_magnitude(0), 0);
    assert_eq!(saturating_magnitude(i64::MIN + 1), i64::MAX);
    assert_eq!(saturating_magnitude(i64::MIN), i64::MAX);
}

#[test]
fn travel_scales_speed_by_time_and_percent() {
    assert_eq!(saturating_travel(300_000, 100_000, 100), 30_000);
    assert_eq!(saturating_travel(300_000, 100_000, 105), 31_500);
    assert_eq!(saturating_travel(300_000, 1_000_000, 110), 330_000);
    assert_eq!(saturating_travel(500_000, 100_000, 100), 50_000);
    assert_eq!(saturating_travel(300_000, 0, 100), 0);
    assert_eq!(saturating_travel(0, 16_667, 100), 0);
    assert_eq!(saturating_travel(300_000, 16_667, 0), 0);
}

#[test]
fn travel_rounds_toward_zero_in_both_directions() {
    assert_eq!(saturating_travel(300_000, 16_667, 105), 5_250);
    assert_eq!(saturating_travel(-300_000, 16_667, 105), -5_250);
    assert_eq!(saturating_travel(1, 999_999, 100), 0);
    assert_eq!(saturating_travel(-1, 999_999, 100), 0);
    assert_eq!(saturating_travel(1, 1_000_000, 100), 1);
    assert_eq!(saturating_travel(-1, 1_000_000, 100), -1);
}

#[test]
fn travel_saturates_at_the_ends_of_the_range() {
    assert_eq!(saturating_travel(i64::MAX, u64::MAX, 100), i64::MAX);
    assert_eq!(saturating_travel(i64::MIN, u64::MAX, 100), i64::MIN);
    assert_eq!(saturating_travel(i64::MAX, u64::MAX, u64::MAX), i64::MAX);
    assert_eq!(saturating_travel(i64::MIN, u64::MAX, u64::MAX), i64::MIN);
    assert_eq!(saturating_travel(i64::MAX, 1_000_000, 100), i64::MAX);
    assert_eq!(saturating_travel(i64::MIN, 1_000_000, 100), i64::MIN);
    assert_eq!(saturating_travel(i64::MIN, 1_000_000, 50), i64::MIN / 2);
    assert_eq!(saturating_travel(i64::MAX, 1_000_000, 200), i64::MAX);
}

#[test]
fn advance_moves_a_coordinate() {
    assert_eq!(advance(300_000, -500_000, 100_000, 100), 250_000);
    assert_eq!(advance(300_000, 500_000, 100_000, 100), 350_000);
    assert_eq!(advance(i64::MAX - 10, 300_000, 100_000, 100), i64::MAX);
    assert_eq!(advance(i64::MIN + 10, -300_000, 100_000, 100), i64::MIN);
    assert_eq!(advance(i64::MIN, i64::MAX, u64::MAX, 100), -1);
}
