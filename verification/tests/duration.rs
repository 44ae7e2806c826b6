use rsvelte_profile::duration::{Duration, NANOS_PER_SEC};

#[test]
fn zero_is_empty() {
    let d = Duration::zero();
    assert_eq!((d.as_secs(), d.subsec_nanos()), (0, 0));
    assert_eq!(d, Duration::new(0, 0));
}

#[test]
fn new_carries_whole_seconds() {
    let d = Duration::new(1, 2_500_000_000);
    assert_eq!(d.as_secs(), 3);
    assert_eq!(d.subsec_nanos(), 500_000_000);
}

#[test]
fn agrees_with_the_standard_duration() {
    let pairs = [(0, 0), (0, 1), (1, 999_999_999), (2, 1), (7, 500_000_000)];
    for (s1, n1) in pairs {
        for (s2, n2) in pairs {
            let std1 = std::time::Duration::new(s1, n1);
            let std2 = std::time::Duration::new(s2, n2);
            let a = Duration::new(s1, n1);
            let b = Duration::new(s2, n2);
            let sum = a.plus(b);
            assert_eq!(sum.as_secs(), (std1 + std2).as_secs());
            assert_eq!(sum.subsec_nanos(), (std1 + std2).subsec_nanos());
            let left = a.saturating_sub(b);
            assert_eq!(left.as_secs(), std1.saturating_sub(std2).as_secs());
            assert_eq!(left.subsec_nanos(), std1.saturating_sub(std2).subsec_nanos());
        }
    }
}

#[test]
fn checked_add_stops_at_the_longest_span() {
    let longest = Duration::new(u64::MAX, NANOS_PER_SEC - 1);
    assert_eq!(longest.checked_add(Duration::zero()), Some(longest));
    assert_eq!(longest.checked_add(Duration::new(0, 1)), None);
    assert_eq!(longest.checked_add(Duration::new(1, 0)), None);
    let half = Duration::new(u64::MAX, 0);
    assert_eq!(half.checked_add(Duration::new(0, NANOS_PER_SEC - 1)), Some(longest));
}
