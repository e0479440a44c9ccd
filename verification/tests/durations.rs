use syncplay::clock::{unix_time, Clock, Instant, INSTANT_LIMIT};
use syncplay::duration::{Duration, SignedDuration, MAX_NANOS, MAX_SIGNED_NANOS, MIN_SIGNED_NANOS};

#[test]
fn carries_nanoseconds() {
    let d = Duration::new(1, 2_500_000_000).unwrap();
    assert_eq!(d.as_secs(), 3);
    assert_eq!(d.subsec_nanos(), 500_000_000);
    assert_eq!(d.as_nanos(), 3_500_000_000);
    assert_eq!(Duration::new(u64::MAX, 1_000_000_000), None);
    let longest = Duration::new(u64::MAX, 999_999_999).unwrap();
    assert_eq!(longest.as_nanos(), MAX_NANOS);
    assert_eq!(longest, Duration::from_nanos(MAX_NANOS).unwrap());
    assert_eq!(Duration::from_nanos(MAX_NANOS + 1), None);
}

#[test]
fn adds_and_subtracts() {
    let a = Duration::new(1, 700_000_000).unwrap();
    let b = Duration::new(2, 600_000_000).unwrap();
    assert_eq!(a.checked_add(b), Duration::new(4, 300_000_000));
    assert_eq!(b.checked_sub(a), Duration::new(0, 900_000_000));
    assert_eq!(a.checked_sub(b), None);
    assert_eq!(a.checked_sub(a), Some(Duration::zero()));
    assert_eq!(Duration::from_nanos(MAX_NANOS).unwrap().checked_add(Duration::new(0, 1).unwrap()), None);
}

#[test]
fn divides_like_the_standard_library() {
    for (secs, nanos, parts) in [(7u64, 3u32, 2u32), (10, 999_999_999, 3), (u64::MAX, 999_999_999, 7), (0, 1, 2)] {
        let ours = Duration::new(secs, nanos).unwrap().div(parts);
        let theirs = std::time::Duration::new(secs, nanos) / parts;
        assert_eq!((ours.as_secs(), ours.subsec_nanos()), (theirs.as_secs(), theirs.subsec_nanos()));
    }
}

#[test]
fn signed_parts_must_agree_in_sign() {
    assert!(SignedDuration::from_parts(1, -1).is_none());
    assert!(SignedDuration::from_parts(-1, 1).is_none());
    assert!(SignedDuration::from_parts(0, 1_000_000_000).is_none());
    let d = SignedDuration::from_parts(-1, -500_000_000).unwrap();
    assert_eq!(d.whole_seconds(), -1);
    assert_eq!(d.subsec_nanoseconds(), -500_000_000);
    assert_eq!(SignedDuration::from_nanos(-1_500_000_000), Some(d));
    let half = SignedDuration::from_nanos(-500_000_000).unwrap();
    assert_eq!((half.whole_seconds(), half.subsec_nanoseconds()), (0, -500_000_000));
}

#[test]
fn signed_range_is_that_of_the_time_crate() {
    let max = SignedDuration::from_nanos(MAX_SIGNED_NANOS).unwrap();
    let min = SignedDuration::from_nanos(MIN_SIGNED_NANOS).unwrap();
    assert_eq!(max.whole_seconds(), time::Duration::MAX.whole_seconds());
    assert_eq!(max.subsec_nanoseconds(), time::Duration::MAX.subsec_nanoseconds());
    assert_eq!(min.whole_seconds(), time::Duration::MIN.whole_seconds());
    assert_eq!(min.subsec_nanoseconds(), time::Duration::MIN.subsec_nanoseconds());
    assert_eq!(SignedDuration::from_nanos(MAX_SIGNED_NANOS + 1), None);
    assert_eq!(SignedDuration::from_nanos(MIN_SIGNED_NANOS - 1), None);
}

#[test]
fn signed_durations_compare() {
    let a = SignedDuration::from_nanos(-1).unwrap();
    let b = SignedDuration::zero();
    let c = SignedDuration::from_nanos(1_000_000_001).unwrap();
    assert!(b.exceeds(&a));
    assert!(!a.exceeds(&b));
    assert!(!a.exceeds(&a));
    assert!(c.exceeds(&b));
}

#[test]
fn instants_are_apart() {
    let early = Instant::from_nanos(-5).unwrap();
    let late = Instant::from_nanos(2_000_000_000).unwrap();
    assert_eq!(late.duration_since(early), Duration::new(2, 5));
    assert_eq!(early.duration_since(late), Some(Duration::zero()));
    assert_eq!(early.signed_since(late), SignedDuration::from_nanos(-2_000_000_005));
    assert_eq!(late.checked_sub(Duration::new(2, 5).unwrap()), Some(early));
    assert_eq!(late.checked_sub_signed(SignedDuration::from_nanos(2_000_000_005).unwrap()), Some(early));
    assert_eq!(early.checked_sub_signed(SignedDuration::from_nanos(-2_000_000_005).unwrap()), Some(late));
}

#[test]
fn instants_have_a_limit() {
    let first = Instant::from_nanos(-INSTANT_LIMIT).unwrap();
    let last = Instant::from_nanos(INSTANT_LIMIT).unwrap();
    assert_eq!(Instant::from_nanos(INSTANT_LIMIT + 1), None);
    assert_eq!(first.checked_sub(Duration::new(0, 1).unwrap()), None);
    assert_eq!(last.checked_sub_signed(SignedDuration::from_nanos(-1).unwrap()), None);
    assert_eq!(last.duration_since(first), None);
    assert_eq!(first.duration_since(last), Some(Duration::zero()));
}

#[test]
fn distances_have_limits() {
    let origin = Instant::from_nanos(0).unwrap();
    let longest = MAX_NANOS as i128;
    let before = Instant::from_nanos(-longest).unwrap();
    assert_eq!(origin.checked_sub(Duration::from_nanos(MAX_NANOS).unwrap()), Some(before));
    assert_eq!(origin.duration_since(before), Duration::from_nanos(MAX_NANOS));
    assert_eq!(Instant::from_nanos(1).unwrap().duration_since(before), None);
    let ahead = Instant::from_nanos(MAX_SIGNED_NANOS).unwrap();
    assert_eq!(ahead.signed_since(origin), SignedDuration::from_nanos(MAX_SIGNED_NANOS));
    assert_eq!(origin.signed_since(ahead), SignedDuration::from_nanos(-MAX_SIGNED_NANOS));
    let too_far = Instant::from_nanos(MAX_SIGNED_NANOS + 1).unwrap();
    assert_eq!(too_far.signed_since(origin), None);
    assert_eq!(origin.signed_since(too_far), None);
}

#[test]
fn clock_advances() {
    let clock = Clock::new();
    let early = clock.now();
    let mut late = clock.now();
    while late == early {
        late = clock.now();
    }
    assert!(late.duration_since(early).unwrap().as_nanos() > 0);
    assert!(clock.elapsed().as_nanos() > 0);
}

#[test]
fn unix_time_is_that_of_the_system() {
    let ours = unix_time().unwrap().as_nanos();
    let theirs = std::time::SystemTime::UNIX_EPOCH.elapsed().unwrap().as_nanos();
    assert!(ours > 1_600_000_000_000_000_000 && ours < theirs + 60_000_000_000);
}
