use flowsurface::exchange::limiter::{DynamicBucket, DynamicLimitReason, FixedWindowBucket};

#[test]
fn fixed_window_grants_until_empty() {
    let mut b = FixedWindowBucket::new(10, 60_000, 0);
    // wall clock 30 s into the minute: no refill by the wall clock
    assert_eq!(b.calculate_wait_time(4, 1_000, Some(30)), None);
    assert_eq!(b.calculate_wait_time(6, 2_000, Some(31)), None);
    // empty now: wait until the window started at 0 ends
    assert_eq!(b.calculate_wait_time(1, 3_000, Some(32)), Some(57_000));
}

#[test]
fn fixed_window_refills_after_a_window() {
    let mut b = FixedWindowBucket::new(5, 60_000, 0);
    assert_eq!(b.calculate_wait_time(5, 10, Some(10)), None);
    assert_eq!(b.calculate_wait_time(5, 60_000, Some(10)), None);
}

#[test]
fn fixed_window_refills_at_start_of_wall_clock_period() {
    let mut b = FixedWindowBucket::new(5, 60_000, 0);
    assert_eq!(b.calculate_wait_time(5, 100, Some(30)), None);
    // 120 s on the wall clock is the start of a minute
    assert_eq!(b.calculate_wait_time(5, 200, Some(120)), None);
}

#[test]
fn fixed_window_no_refill_without_wall_clock() {
    let mut b = FixedWindowBucket::new(2, 1_000, 0);
    assert_eq!(b.calculate_wait_time(2, 0, None), None);
    assert_eq!(b.calculate_wait_time(1, 5_000, None), Some(0));
}

#[test]
fn fixed_window_consume_saturates() {
    let mut b = FixedWindowBucket::new(3, 60_000, 0);
    b.consume_tokens(10, 1, Some(30));
    assert_eq!(b.calculate_wait_time(1, 2, Some(31)), Some(59_998));
}

#[test]
fn dynamic_bucket_uses_header_weight() {
    let mut b = DynamicBucket::new(100, 60_000, 0);
    b.update_weight(95, 1_000);
    assert_eq!(b.prepare_request(5, 2_000, Some(30)), (None, None));
    assert_eq!(
        b.prepare_request(6, 2_000, Some(30)),
        (Some(30_500), Some(DynamicLimitReason::HeaderRate))
    );
}

#[test]
fn dynamic_bucket_ignores_zero_weight_and_falls_back() {
    let mut b = DynamicBucket::new(3, 60_000, 0);
    b.update_weight(0, 1_000);
    assert_eq!(b.prepare_request(3, 1_000, Some(30)), (None, None));
    assert_eq!(
        b.prepare_request(1, 2_000, Some(31)),
        (Some(58_000), Some(DynamicLimitReason::FixedWindowRate))
    );
}

#[test]
fn dynamic_bucket_stale_report_falls_back() {
    let mut b = DynamicBucket::new(10, 60_000, 0);
    b.update_weight(10, 0);
    // the report is older than a window: the fixed window decides
    assert_eq!(b.prepare_request(1, 70_000, Some(45)), (None, None));
}
