use frame_pipeline::fps::{FpsCounter, NANOS_PER_SECOND};

#[test]
fn first_tick_opens_a_window_and_reports_nothing() {
    let mut fps = FpsCounter::new();
    assert_eq!(fps.tick(5, true), None);
    assert_eq!(fps.count(), 0);
}

#[test]
fn ticks_within_the_second_are_counted() {
    let mut fps = FpsCounter::new();
    assert_eq!(fps.tick(0, true), None);
    for i in 1..=59u64 {
        assert_eq!(fps.tick(i * 16_000_000, true), None);
        assert_eq!(fps.count(), i as u32);
    }
}

#[test]
fn tick_after_a_full_second_reports_and_resets() {
    let mut fps = FpsCounter::new();
    assert_eq!(fps.tick(100, true), None);
    assert_eq!(fps.tick(200, true), None);
    assert_eq!(fps.tick(300, true), None);
    assert_eq!(fps.tick(100 + NANOS_PER_SECOND - 1, true), None);
    assert_eq!(fps.count(), 3);
    assert_eq!(fps.tick(100 + NANOS_PER_SECOND, true), Some(3));
    assert_eq!(fps.count(), 0);
}

#[test]
fn no_second_report_within_the_same_second() {
    let mut fps = FpsCounter::new();
    fps.tick(0, true);
    fps.tick(1, true);
    assert_eq!(fps.tick(NANOS_PER_SECOND, true), Some(1));
    assert_eq!(fps.tick(NANOS_PER_SECOND, true), None);
    assert_eq!(fps.tick(NANOS_PER_SECOND + 1, true), None);
    assert_eq!(fps.tick(2 * NANOS_PER_SECOND - 1, true), None);
    assert_eq!(fps.tick(2 * NANOS_PER_SECOND, true), Some(3));
}

#[test]
fn window_opens_at_the_time_of_the_report() {
    let mut fps = FpsCounter::new();
    fps.tick(0, true);
    assert_eq!(fps.tick(1_700_000_000, true), Some(0));
    assert_eq!(fps.tick(2_000_000_000, true), None);
    assert_eq!(fps.tick(2_699_999_999, true), None);
    assert_eq!(fps.tick(2_700_000_000, true), Some(2));
}

#[test]
fn ticks_that_uploaded_nothing_are_not_counted() {
    let mut fps = FpsCounter::new();
    fps.tick(0, false);
    fps.tick(10, false);
    fps.tick(20, true);
    fps.tick(30, false);
    assert_eq!(fps.count(), 1);
    assert_eq!(fps.tick(NANOS_PER_SECOND, false), Some(1));
}

#[test]
fn clock_that_went_back_reports_nothing() {
    let mut fps = FpsCounter::new();
    fps.tick(5 * NANOS_PER_SECOND, true);
    assert_eq!(fps.tick(NANOS_PER_SECOND, true), None);
    assert_eq!(fps.count(), 1);
}

#[test]
fn default_counter_is_a_new_counter() {
    let mut fps = FpsCounter::default();
    assert_eq!(fps.count(), 0);
    assert_eq!(fps.tick(u64::MAX, true), None);
    assert_eq!(fps.tick(u64::MAX, true), None);
    assert_eq!(fps.count(), 1);
}
