use graph::effort::QueryEffort;

const MS: u128 = 1_000_000;
const SEC: u128 = 1_000_000_000;

#[test]
fn no_measurement_reports_nothing() {
    let e = QueryEffort::new(10 * SEC, SEC);
    assert_eq!(e.current_effort(7), (None, 0));
}

#[test]
fn recorded_work_is_reported() {
    let mut e = QueryEffort::new(10 * SEC, SEC);
    assert_eq!(e.add_at(0, 7, 4 * MS), 4);
    assert_eq!(e.current_effort(7), (Some(4 * MS), 4 * MS));
    assert_eq!(e.current_effort(8), (None, 4 * MS));
    assert_eq!(e.add_at(100 * MS, 8, 2 * MS), 3);
    assert_eq!(e.current_effort(8), (Some(2 * MS), 6 * MS));
    assert_eq!(e.current_effort(7), (Some(4 * MS), 6 * MS));
}

#[test]
fn gauge_is_average_in_whole_millis() {
    let mut e = QueryEffort::new(10 * SEC, SEC);
    assert_eq!(e.add_at(0, 1, 1_500_000), 1);
    assert_eq!(e.add_at(0, 1, 999_999), 1);
    assert_eq!(e.add_at(0, 2, 1), 0);
}

#[test]
fn old_work_leaves_the_total_but_not_the_query() {
    let mut e = QueryEffort::new(10 * SEC, SEC);
    e.add_at(0, 1, 5 * MS);
    e.add_at(20 * SEC, 2, 3 * MS);
    // the total dropped the old bin; query 1 was not measured again
    assert_eq!(e.current_effort(1), (Some(5 * MS), 3 * MS));
    assert_eq!(e.current_effort(2), (Some(3 * MS), 3 * MS));
}

#[test]
fn effort_add_uses_the_clock() {
    let mut e = QueryEffort::new(10 * SEC, SEC);
    assert!(e.can_add(9, 2 * MS));
    assert_eq!(e.add(9, 2 * MS), 2);
    assert_eq!(e.current_effort(9), (Some(2 * MS), 2 * MS));
}
