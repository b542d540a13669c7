use still_streamer::pacing::{
    frame_budget_ms, pacing_sleep_nanos, split_nanos, GUARD_MARGIN_NANOS, NANOS_PER_MS,
    RETRY_DELAY_NANOS,
};

#[test]
fn budget_is_a_thousand_over_fps() {
    assert_eq!(frame_budget_ms(1), 1000);
    assert_eq!(frame_budget_ms(2), 500);
    assert_eq!(frame_budget_ms(5), 200);
    assert_eq!(frame_budget_ms(30), 33);
}

#[test]
fn budget_rounds_down() {
    assert_eq!(frame_budget_ms(3), 333);
    assert_eq!(frame_budget_ms(7), 142);
    assert_eq!(frame_budget_ms(1000), 1);
    assert_eq!(frame_budget_ms(1001), 0);
    assert_eq!(frame_budget_ms(u16::MAX), 0);
}

#[test]
fn constants_are_in_nanoseconds() {
    assert_eq!(NANOS_PER_MS, 1_000_000);
    assert_eq!(GUARD_MARGIN_NANOS, 20 * NANOS_PER_MS);
    assert_eq!(RETRY_DELAY_NANOS, 1000 * NANOS_PER_MS);
}

#[test]
fn sleep_is_budget_less_elapsed_less_guard() {
    assert_eq!(pacing_sleep_nanos(500, 0), 480_000_000);
    assert_eq!(pacing_sleep_nanos(500, 1_000_000), 479_000_000);
    assert_eq!(pacing_sleep_nanos(500, 123_456_789), 356_543_211);
    assert_eq!(pacing_sleep_nanos(1000, 250_000_000), 730_000_000);
    assert_eq!(pacing_sleep_nanos(33, 3_000_000), 10_000_000);
}

#[test]
fn sleep_is_zero_once_the_budget_is_used_up() {
    assert_eq!(pacing_sleep_nanos(500, 479_999_999), 1);
    assert_eq!(pacing_sleep_nanos(500, 480_000_000), 0);
    assert_eq!(pacing_sleep_nanos(500, 480_000_001), 0);
    assert_eq!(pacing_sleep_nanos(500, 500_000_000), 0);
    assert_eq!(pacing_sleep_nanos(500, 5_000_000_000), 0);
    assert_eq!(pacing_sleep_nanos(500, u128::MAX), 0);
}

#[test]
fn sleep_is_zero_where_the_guard_exceeds_the_budget() {
    assert_eq!(pacing_sleep_nanos(20, 0), 0);
    assert_eq!(pacing_sleep_nanos(19, 0), 0);
    assert_eq!(pacing_sleep_nanos(0, 0), 0);
    assert_eq!(pacing_sleep_nanos(21, 0), 1_000_000);
}

#[test]
fn sleep_fits_the_widest_budget() {
    let widest = u64::MAX;
    assert_eq!(
        pacing_sleep_nanos(widest, 0),
        (widest as u128) * 1_000_000 - 20_000_000
    );
}

#[test]
fn nanoseconds_split_into_seconds_and_rest() {
    assert_eq!(split_nanos(0), (0, 0));
    assert_eq!(split_nanos(999_999_999), (0, 999_999_999));
    assert_eq!(split_nanos(1_000_000_000), (1, 0));
    assert_eq!(split_nanos(479_000_000), (0, 479_000_000));
    assert_eq!(split_nanos(12_345_678_901), (12, 345_678_901));
    let longest = (u64::MAX as u128) * 1_000_000_000 + 999_999_999;
    assert_eq!(split_nanos(longest), (u64::MAX, 999_999_999));
    assert_eq!(split_nanos(longest - 1), (u64::MAX, 999_999_998));
    assert_eq!(split_nanos(longest + 1), (u64::MAX, 999_999_999));
    assert_eq!(split_nanos(u128::MAX), (u64::MAX, 999_999_999));
}
