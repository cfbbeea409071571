use graph::stats::{Bin, MovingStats};

const MS: u128 = 1_000_000;
const SEC: u128 = 1_000_000_000;

fn stats() -> MovingStats {
    MovingStats::new(10 * SEC, SEC)
}

#[test]
fn new_stats_are_empty() {
    let s = stats();
    assert_eq!(s.average(), None);
    assert_eq!(s.duration(), 0);
    assert_eq!(s.window_size(), 10 * SEC);
    assert_eq!(s.bin_size(), SEC);
}

#[test]
fn measurements_in_one_bin_average() {
    let mut s = stats();
    s.add_at(0, 5 * MS);
    assert_eq!(s.duration(), 5 * MS);
    assert_eq!(s.average(), Some(5 * MS));
    s.add_at(500 * MS, 15 * MS);
    assert_eq!(s.duration(), 20 * MS);
    assert_eq!(s.average(), Some(10 * MS));
}

#[test]
fn new_bin_after_bin_size() {
    let mut s = stats();
    s.add_at(0, 5 * MS);
    s.add_at(500 * MS, 15 * MS);
    s.add_at(SEC, MS);
    assert_eq!(s.duration(), 21 * MS);
    assert_eq!(s.average(), Some(7 * MS));
}

#[test]
fn bins_older_than_window_expire() {
    let mut s = stats();
    s.add_at(0, 5 * MS);
    s.add_at(SEC, MS);
    s.add_at(10 * SEC + SEC / 2, 2 * MS);
    // the bin at 0 is 10.5s old and dropped, the bin at 1s is 9.5s old and kept
    assert_eq!(s.duration(), 3 * MS);
    s.add_at(11 * SEC, 3 * MS);
    // the bin at 1s is now exactly a window old and dropped
    assert_eq!(s.duration(), 5 * MS);
    assert_eq!(s.average(), Some(2 * MS + MS / 2));
}

#[test]
fn average_rounds_down() {
    let mut s = stats();
    s.add_at(0, 1);
    s.add_at(1, 2);
    assert_eq!(s.average(), Some(1));
}

#[test]
fn time_going_backwards_stays_in_latest_bin() {
    let mut s = stats();
    s.add_at(5 * SEC, MS);
    s.add_at(SEC, MS);
    assert_eq!(s.duration(), 2 * MS);
    assert_eq!(s.average(), Some(MS));
}

#[test]
fn stats_add_uses_the_clock() {
    let mut s = stats();
    assert!(s.can_add(7 * MS));
    s.add(7 * MS);
    s.add(3 * MS);
    assert_eq!(s.duration(), 10 * MS);
    assert_eq!(s.average(), Some(5 * MS));
}

#[test]
fn can_add_refuses_overflowing_duration() {
    let mut s = stats();
    s.add_at(0, 10);
    assert!(s.can_add(graph::clock::DURATION_MAX_NANOS - 10));
    assert!(!s.can_add(graph::clock::DURATION_MAX_NANOS - 9));
}

#[test]
fn bin_add_remove_average() {
    let mut b = Bin::new(3);
    assert_eq!(b.average(), None);
    b.add(10);
    b.add(20);
    assert_eq!((b.start, b.count, b.duration), (3, 2, 30));
    assert_eq!(b.average(), Some(15));
    let other = Bin { start: 0, count: 1, duration: 10 };
    b.remove(&other);
    assert_eq!((b.start, b.count, b.duration), (3, 1, 20));
}

#[test]
fn elapsed_saturates() {
    assert_eq!(graph::clock::elapsed(10, 4), 6);
    assert_eq!(graph::clock::elapsed(4, 10), 0);
}
