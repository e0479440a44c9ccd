use syncplay::clock::Clock;
use syncplay::duration::{Duration, MAX_NANOS};
use syncplay::syncer::{TimeSyncer, MAX_SAMPLES};

fn ns(nanos: u128) -> Duration {
    Duration::from_nanos(nanos).unwrap()
}

fn syncer(now: u128, unix: u128) -> TimeSyncer {
    TimeSyncer::new_at(Clock::new(), ns(now), Some(ns(unix)), ns(now)).unwrap()
}

#[test]
fn begins_with_the_unix_time() {
    let s = syncer(1_000, 500_000);
    assert_eq!(s.now_at(ns(1_000)), Some(ns(500_000)));
    assert_eq!(s.now_at(ns(1_250)), Some(ns(500_250)));
    // A reading from before the epoch counts as the epoch.
    let s = syncer(1_000, 100);
    assert_eq!(s.now_at(ns(1_000)), Some(ns(100)));
    assert_eq!(s.now_at(ns(899)), Some(ns(0)));
}

#[test]
fn there_must_be_a_unix_time() {
    assert!(TimeSyncer::new_at(Clock::new(), ns(5), None, ns(5)).is_none());
    let mut s = syncer(0, 10);
    assert!(!s.start_sync_at(ns(7), None));
    assert_eq!(s.now_at(ns(0)), Some(ns(10)));
    // The round trip still counts from 0.
    assert!(s.finish_sync_at(ns(100), ns(10)));
    assert_eq!(s.now_at(ns(0)), Some(ns(60)));
}

#[test]
fn every_reading_is_in_range() {
    // The epoch lies as far before the origin as it can.
    let s = syncer(0, MAX_NANOS);
    assert_eq!(s.now_at(ns(0)), None);
    assert_eq!(s.now_at(ns(MAX_NANOS)), None);
    // The epoch lies as far after the origin as it can.
    let mut s = syncer(MAX_NANOS, 0);
    assert_eq!(s.now_at(ns(0)), Some(ns(0)));
    assert_eq!(s.now_at(ns(MAX_NANOS)), Some(ns(0)));
    assert!(s.start_sync_at(ns(MAX_NANOS), Some(ns(3))));
    assert_eq!(s.now_at(ns(MAX_NANOS)), Some(ns(3)));
    assert_eq!(s.now_at(ns(MAX_NANOS - 4)), Some(ns(0)));
}

#[test]
fn time_follows_the_server() {
    let mut s = syncer(0, 1_000_000);
    // The system clock is set back by the time the round trip begins.
    assert!(s.start_sync_at(ns(100), Some(ns(400_000))));
    assert!(s.finish_sync_at(ns(300), ns(2_000_000)));
    // Half of the only round trip, which took 200.
    assert_eq!(s.now_at(ns(100)), Some(ns(2_000_100)));
    assert_eq!(s.now_at(ns(300)), Some(ns(2_000_300)));
    assert_eq!(s.now_at(ns(1_100)), Some(ns(2_001_100)));
}

#[test]
fn averages_round_trips() {
    let mut s = syncer(0, 0);
    assert!(s.start_sync_at(ns(0), Some(ns(0))));
    assert!(s.finish_sync_at(ns(100), ns(0)));
    assert_eq!(s.now_at(ns(0)), Some(ns(50)));
    assert!(s.finish_sync_at(ns(201), ns(0)));
    // (100 + 201) / 2 = 150, halved.
    assert_eq!(s.now_at(ns(0)), Some(ns(75)));
}

#[test]
fn forgets_old_round_trips() {
    let mut s = syncer(0, 0);
    assert!(s.finish_sync_at(ns(1_000_000), ns(0)));
    for _ in 0..MAX_SAMPLES {
        assert!(s.finish_sync_at(ns(100), ns(0)));
    }
    assert_eq!(s.now_at(ns(0)), Some(ns(50)));
    // Nine of 100 and one of 200: the mean is 110.
    assert!(s.finish_sync_at(ns(200), ns(0)));
    assert_eq!(s.now_at(ns(0)), Some(ns(55)));
}

#[test]
fn server_must_not_be_behind() {
    let mut s = syncer(0, 1_000);
    assert!(s.start_sync_at(ns(0), Some(ns(1_000))));
    assert!(!s.finish_sync_at(ns(10), ns(999)));
    assert_eq!(s.now_at(ns(0)), Some(ns(1_000)));
    assert!(s.finish_sync_at(ns(30), ns(1_000)));
    // The refused round trip of 10 counts: the mean with 30 is 20.
    assert_eq!(s.now_at(ns(0)), Some(ns(1_010)));
}

#[test]
fn offset_must_fit() {
    let mut s = syncer(0, 0);
    assert!(!s.finish_sync_at(ns(0), ns(MAX_NANOS)));
    assert_eq!(s.now_at(ns(7)), Some(ns(7)));
    // The longest offset leaves no room for more.
    let longest = ns(9_223_372_036_854_775_807_999_999_999);
    assert!(s.finish_sync_at(ns(0), longest));
    assert_eq!(s.now_at(ns(0)), Some(longest));
    assert_eq!(s.now_at(ns(1)), None);
    assert_eq!(s.since_at(ns(1), ns(0)), None);
}

#[test]
fn age_of_timestamps() {
    let s = syncer(0, 1_000);
    let stamp = s.now_at(ns(20)).unwrap();
    assert_eq!(s.since_at(ns(20), stamp), Some(ns(0)));
    assert_eq!(s.since_at(ns(95), stamp), Some(ns(75)));
    assert_eq!(s.since_at(ns(0), stamp), Some(ns(0)));
    assert_eq!(s.since_at(ns(0), ns(MAX_NANOS)), None);
}

#[test]
fn reads_the_clocks() {
    let mut s = TimeSyncer::new().unwrap();
    let unix = std::time::SystemTime::UNIX_EPOCH.elapsed().unwrap().as_nanos();
    let now = s.now().unwrap().as_nanos();
    // A minute is more than the two readings can be apart.
    assert!(now < unix + 60_000_000_000 && unix < now + 60_000_000_000);
    assert!(s.start_sync());
    let server = s.now().unwrap().checked_add(Duration::new(3_600, 0).unwrap()).unwrap();
    assert!(s.finish_sync(server));
    let ahead = s.now().unwrap().as_nanos() - now;
    assert!(ahead >= 3_600_000_000_000 && ahead < 3_660_000_000_000);
    let age = s.since(server).unwrap();
    assert!(age.as_nanos() < 60_000_000_000);
    assert_eq!(s.since(s.now().unwrap().checked_add(Duration::new(60, 0).unwrap()).unwrap()), Some(Duration::zero()));
}
