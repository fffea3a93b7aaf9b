use std::time::Duration;

use zeitstempel::{ExcludingSuspend, IncludingSuspend, Instant};

#[test]
fn timestamp_round_trip() {
    let a = Instant::<IncludingSuspend>::from_timestamp(1_234_567_890_123);
    assert_eq!(a.as_timestamp(), 1_234_567_890_123);
    let b = Instant::<IncludingSuspend>::from_timestamp(a.as_timestamp());
    assert_eq!(a, b);
    let zero = Instant::<ExcludingSuspend>::from_timestamp(0);
    assert_eq!(zero.as_timestamp(), 0);
    let max = Instant::<ExcludingSuspend>::from_timestamp(u64::MAX);
    assert_eq!(max.as_timestamp(), u64::MAX);
}

#[test]
fn duration_between_two_instants() {
    let earlier = Instant::<IncludingSuspend>::from_timestamp(1_000);
    let later = Instant::<IncludingSuspend>::from_timestamp(3_500_000_250);
    assert_eq!(later.duration_since(earlier), Duration::from_nanos(3_499_999_250));
    assert_eq!(later.duration_since(earlier).as_nanos(), 3_499_999_250);
    assert_eq!(later.duration_since(earlier).as_millis(), 3_499);
    assert_eq!(later.duration_since(later), Duration::from_nanos(0));
}

#[test]
fn duration_spans_the_whole_range() {
    let first = Instant::<ExcludingSuspend>::from_timestamp(0);
    let last = Instant::<ExcludingSuspend>::from_timestamp(u64::MAX);
    assert_eq!(last.duration_since(first).as_nanos(), u64::MAX as u128);
    assert_eq!(
        last.checked_duration_since(first),
        Some(Duration::from_nanos(u64::MAX))
    );
}

#[test]
fn checked_duration_in_order() {
    let a = Instant::<ExcludingSuspend>::from_timestamp(10);
    let b = Instant::<ExcludingSuspend>::from_timestamp(25);
    assert_eq!(b.checked_duration_since(a), Some(Duration::from_nanos(15)));
    assert_eq!(a.checked_duration_since(a), Some(Duration::from_nanos(0)));
}

#[test]
fn checked_duration_reversed_is_none() {
    let a = Instant::<IncludingSuspend>::from_timestamp(10);
    let b = Instant::<IncludingSuspend>::from_timestamp(25);
    assert_eq!(a.checked_duration_since(b), None);
    let first = Instant::<IncludingSuspend>::from_timestamp(0);
    let last = Instant::<IncludingSuspend>::from_timestamp(u64::MAX);
    assert_eq!(first.checked_duration_since(last), None);
    let just_before = Instant::<IncludingSuspend>::from_timestamp(24);
    assert_eq!(just_before.checked_duration_since(b), None);
}

#[test]
fn subtraction_is_duration_since() {
    let a = Instant::<IncludingSuspend>::from_timestamp(2_000_000);
    let b = Instant::<IncludingSuspend>::from_timestamp(5_000_000);
    assert_eq!(b - a, Duration::from_millis(3));
    assert_eq!(b - a, b.duration_since(a));
    assert_eq!(a - a, Duration::from_nanos(0));
}

#[test]
fn comparisons_follow_the_timestamps() {
    let ticks: [u64; 5] = [0, 1, 2, 1_000_000_007, u64::MAX];
    for &x in ticks.iter() {
        for &y in ticks.iter() {
            let a = Instant::<IncludingSuspend>::from_timestamp(x);
            let b = Instant::<IncludingSuspend>::from_timestamp(y);
            assert_eq!(a == b, x == y);
            assert_eq!(a != b, x != y);
            assert_eq!(a < b, x < y);
            assert_eq!(a <= b, x <= y);
            assert_eq!(a > b, x > y);
            assert_eq!(a >= b, x >= y);
            assert_eq!(a.partial_cmp(&b), x.partial_cmp(&y));
            assert_eq!(a.cmp(&b), x.cmp(&y));
            assert_eq!(
                a.as_timestamp().cmp(&b.as_timestamp()),
                a.cmp(&b)
            );
        }
    }
}

#[test]
fn instants_sort_by_timestamp() {
    let mut instants = vec![
        Instant::<ExcludingSuspend>::from_timestamp(30),
        Instant::<ExcludingSuspend>::from_timestamp(10),
        Instant::<ExcludingSuspend>::from_timestamp(20),
    ];
    instants.sort();
    let ticks: Vec<u64> = instants.iter().map(|i| i.as_timestamp()).collect();
    assert_eq!(ticks, vec![10, 20, 30]);
}

#[test]
fn instants_are_copied() {
    let a = Instant::<ExcludingSuspend>::from_timestamp(77);
    let b = a;
    let c = a.clone();
    assert_eq!(a, b);
    assert_eq!(a, c);
    assert_eq!(c.as_timestamp(), 77);
}

#[test]
fn markers_hold_no_data() {
    assert_eq!(std::mem::size_of::<IncludingSuspend>(), 0);
    assert_eq!(std::mem::size_of::<ExcludingSuspend>(), 0);
    assert_eq!(
        std::mem::size_of::<Instant<IncludingSuspend>>(),
        std::mem::size_of::<u64>()
    );
    assert_eq!(
        std::mem::size_of::<Instant<ExcludingSuspend>>(),
        std::mem::size_of::<u64>()
    );
}
