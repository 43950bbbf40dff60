use std::time::Duration;

use task_retry::SleepDuration;
use task_retry::SleepTime;

#[test]
fn fixed_duration_resolves_to_itself() {
    let fixed = SleepDuration::from_duration(Duration::new(3, 17));
    for _ in 0..10 {
        assert_eq!(fixed.into_duration(), Duration::new(3, 17));
    }
    assert_eq!(
        SleepDuration::from_duration(Duration::ZERO).into_duration(),
        Duration::ZERO
    );
}

#[test]
fn millis_are_milliseconds() {
    assert_eq!(
        SleepDuration::from_millis(1_500),
        SleepDuration::Duration(Duration::new(1, 500_000_000))
    );
    assert_eq!(
        SleepDuration::from_millis(0),
        SleepDuration::Duration(Duration::ZERO)
    );
    assert_eq!(
        SleepDuration::from_millis(u64::MAX).into_duration(),
        Duration::from_millis(u64::MAX)
    );
    assert_eq!(
        SleepDuration::from_min_max_millis(250, 2_000),
        SleepDuration::MinMax(Duration::from_millis(250), Duration::from_secs(2))
    );
    assert_eq!(
        SleepDuration::from_min_max_durations(Duration::from_nanos(1), Duration::from_nanos(2)),
        SleepDuration::MinMax(Duration::from_nanos(1), Duration::from_nanos(2))
    );
}

#[test]
fn range_resolves_within_its_bounds_only() {
    let min = Duration::from_millis(10);
    let max = Duration::from_millis(13);
    let range = SleepDuration::from_min_max_durations(min, max);
    let mut differs = false;
    for _ in 0..2_000 {
        let drawn = range.into_duration();
        assert!(drawn >= min);
        assert!(drawn < max);
        if drawn != min {
            differs = true;
        }
    }
    assert!(differs);
}

#[test]
fn narrowest_range_resolves_to_its_lower_end() {
    let min = Duration::new(5, 999_999_999);
    let max = Duration::new(6, 0);
    let range = SleepDuration::from_min_max_durations(min, max);
    for _ in 0..50 {
        assert_eq!(range.into_duration(), min);
    }
}

#[test]
fn empty_range_resolves_to_its_lower_end() {
    let same = SleepDuration::from_min_max_millis(40, 40);
    assert_eq!(same.into_duration(), Duration::from_millis(40));

    let reversed = SleepDuration::from_min_max_millis(90, 40);
    assert_eq!(reversed.into_duration(), Duration::from_millis(90));
}

#[test]
fn conversions_build_the_matching_variant() {
    let a = Duration::from_millis(1);
    let b = Duration::from_millis(2);
    assert_eq!(SleepDuration::from(a), SleepDuration::Duration(a));
    assert_eq!(SleepDuration::from((a, b)), SleepDuration::MinMax(a, b));
    assert_eq!(SleepDuration::from(a..b), SleepDuration::MinMax(a, b));

    assert_eq!(SleepTime::from(a), SleepTime::Duration(a));
    assert_eq!(SleepTime::from((a, b)), SleepTime::MinMax(a, b));
    assert_eq!(SleepTime::from(a..b), SleepTime::MinMax(a, b));
}

#[test]
fn sleep_time_resolves_as_sleep_duration_does() {
    assert_eq!(
        SleepTime::from_millis(1_250),
        SleepTime::Duration(Duration::from_millis(1_250))
    );
    assert_eq!(
        SleepTime::from_millis(30).into_duration(),
        Duration::from_millis(30)
    );
    assert_eq!(
        SleepTime::MinMax(Duration::from_millis(2), Duration::from_millis(1)).to_sleep_duration(),
        SleepDuration::MinMax(Duration::from_millis(2), Duration::from_millis(1))
    );
    assert_eq!(
        SleepTime::MinMax(Duration::from_millis(2), Duration::from_millis(1)).into_duration(),
        Duration::from_millis(2)
    );

    let min = Duration::from_micros(100);
    let max = Duration::from_micros(104);
    for _ in 0..500 {
        let drawn = SleepTime::MinMax(min, max).into_duration();
        assert!(drawn >= min);
        assert!(drawn < max);
    }
}
