use graph::load::{
    max_concurrent_queries, permits_for, Decision, KillState, KillStateLogEvent, LoadConfig, LoadManager,
    Pending, QueryExecutionError, Step,
};
use graph::clock::{Clock, CLOCK_HEADROOM};
use graph::stats::MovingStats;

const MS: u128 = 1_000_000;
const SEC: u128 = 1_000_000_000;

fn config() -> LoadConfig {
    LoadConfig { disabled: false, simulate: false, jail_queries: true, load_threshold: 100 * MS }
}

fn manager() -> LoadManager {
    LoadManager::new(&vec![1, 2], 10 * SEC, SEC)
}

fn store() -> MovingStats {
    MovingStats::new(10 * SEC, SEC)
}

fn overloaded_store() -> MovingStats {
    let mut s = store();
    s.add_at(0, 200 * MS);
    s
}

#[test]
fn decision_to_result() {
    assert_eq!(Decision::Proceed.to_result(), Ok(()));
    assert_eq!(Decision::TooExpensive.to_result(), Err(QueryExecutionError::TooExpensive));
    assert_eq!(Decision::Throttle.to_result(), Err(QueryExecutionError::Throttled));
}

#[test]
fn blocked_query_is_too_expensive() {
    let m = manager();
    let mut cfg = config();
    assert_eq!(m.decide(&store(), 1, &cfg, true), Step::Decided(Decision::TooExpensive));
    cfg.disabled = true;
    assert_eq!(m.decide(&store(), 2, &cfg, true), Step::Decided(Decision::TooExpensive));
    cfg.simulate = true;
    assert_eq!(m.decide(&store(), 2, &cfg, true), Step::Decided(Decision::TooExpensive));
}

#[test]
fn disabled_runs_everything_else() {
    let mut m = manager();
    let mut cfg = config();
    cfg.disabled = true;
    m.jail(3, false);
    assert_eq!(m.decide(&overloaded_store(), 3, &cfg, false), Step::Decided(Decision::Proceed));
}

#[test]
fn calm_service_runs_queries() {
    let m = manager();
    assert_eq!(m.decide(&store(), 3, &config(), true), Step::Decided(Decision::Proceed));
}

#[test]
fn overload_without_effort_runs_queries() {
    let m = manager();
    assert_eq!(m.decide(&overloaded_store(), 3, &config(), true), Step::Decided(Decision::Proceed));
}

#[test]
fn overload_with_effort_needs_jail_check_or_draw() {
    let mut m = manager();
    assert_eq!(m.record_work(3, 10 * MS, false), Some(10));
    let pending = Pending { query_effort_ms: 10, total_effort_ms: 10, overloaded: true, wait: 200 * MS };
    assert_eq!(m.decide(&overloaded_store(), 3, &config(), true), Step::CheckJail(pending));
    // a query never seen weighs as much as the total
    assert_eq!(m.decide(&overloaded_store(), 4, &config(), true), Step::Draw(pending));
    let mut cfg = config();
    cfg.jail_queries = false;
    assert_eq!(m.decide(&overloaded_store(), 3, &cfg, true), Step::Draw(pending));
}

#[test]
fn nonzero_kill_rate_draws_without_overload() {
    let mut m = manager();
    m.record_work(3, 10 * MS, false);
    m.record_work(5, 30 * MS, false);
    let pending = Pending { query_effort_ms: 10, total_effort_ms: 40, overloaded: false, wait: 0 };
    assert_eq!(m.decide(&store(), 3, &config(), false), Step::CheckJail(pending));
}

#[test]
fn jailed_query_stays_too_expensive() {
    let mut m = manager();
    assert_eq!(m.jail(3, false), Decision::TooExpensive);
    assert_eq!(m.decide(&store(), 3, &config(), true), Step::Decided(Decision::TooExpensive));
    let mut cfg = config();
    cfg.simulate = true;
    assert_eq!(m.decide(&store(), 3, &cfg, true), Step::Decided(Decision::Proceed));
    assert_eq!(m.jail(4, true), Decision::Proceed);
}

#[test]
fn settle_after_draw() {
    assert_eq!(LoadManager::settle(true, false), Decision::Throttle);
    assert_eq!(LoadManager::settle(true, true), Decision::Proceed);
    assert_eq!(LoadManager::settle(false, false), Decision::Proceed);
    assert_eq!(LoadManager::settle(false, true), Decision::Proceed);
}

#[test]
fn record_work_disabled_records_nothing() {
    let mut m = manager();
    assert_eq!(m.record_work(3, 10 * MS, true), None);
    assert_eq!(m.current_effort(3), (None, 0));
    assert!(m.can_record_work(3, 10 * MS));
}

#[test]
fn wait_times_count_toward_overload() {
    let mut m = manager();
    assert_eq!(m.overloaded(&store(), 100 * MS), (false, 0));
    assert!(m.can_add_wait_time(300 * MS));
    assert_eq!(m.add_wait_time(300 * MS), Some(300));
    assert_eq!(m.overloaded(&store(), 100 * MS), (true, 300 * MS));
    assert_eq!(m.overloaded(&overloaded_store(), 100 * MS), (true, 300 * MS));
    assert_eq!(m.overloaded(&overloaded_store(), 300 * MS), (false, 300 * MS));
}

#[test]
fn store_wait_alone_overloads() {
    let m = manager();
    assert_eq!(m.overloaded(&overloaded_store(), 100 * MS), (true, 200 * MS));
    assert_eq!(m.overloaded(&overloaded_store(), 200 * MS), (false, 200 * MS));
}

#[test]
fn new_kill_state_looks_back_a_minute() {
    assert_eq!(
        KillState::new_at(100 * SEC),
        KillState { last_update: 40 * SEC, overload_start: None, last_overload_log: 40 * SEC }
    );
    assert_eq!(
        KillState::new_at(30 * SEC),
        KillState { last_update: 30 * SEC, overload_start: None, last_overload_log: 30 * SEC }
    );
    let clock = Clock::start();
    let s = KillState::new(&clock);
    // the clock starts an hour into its count, so a minute back is representable
    assert!(s.last_update >= CLOCK_HEADROOM - 60 * SEC);
    assert!(s.last_update < CLOCK_HEADROOM);
    assert_eq!(s.overload_start, None);
    assert_eq!(s.last_overload_log, s.last_update);
}

#[test]
fn overload_episode_events() {
    let mut s = KillState::new_at(100 * SEC);
    assert_eq!(s.log_event_at(100 * SEC, 100 * SEC, false, false), KillStateLogEvent::Skip);
    assert_eq!(s.log_event_at(101 * SEC, 101 * SEC, false, true), KillStateLogEvent::Start);
    assert_eq!(s.overload_start, Some(101 * SEC));
    assert_eq!(s.last_overload_log, 101 * SEC);
    assert_eq!(s.log_event_at(110 * SEC, 110 * SEC, false, true), KillStateLogEvent::Skip);
    assert_eq!(s.log_event_at(132 * SEC, 133 * SEC, false, true), KillStateLogEvent::Ongoing(32 * SEC));
    assert_eq!(s.last_overload_log, 132 * SEC);
    assert_eq!(s.log_event_at(140 * SEC, 140 * SEC, false, false), KillStateLogEvent::Settling);
    assert_eq!(s.log_event_at(150 * SEC, 151 * SEC, true, false), KillStateLogEvent::Resolved(50 * SEC));
    assert_eq!(s.overload_start, None);
    assert_eq!(s.last_update, 40 * SEC);
}

#[test]
fn record_update_moves_last_update() {
    let mut s = KillState::new_at(100 * SEC);
    let clock = Clock::start();
    assert_eq!(s.record_update(&clock, 101 * SEC, false, true), KillStateLogEvent::Start);
    assert_eq!(s.last_update, 101 * SEC);
    assert_eq!(s.overload_start, Some(101 * SEC));
}

#[test]
fn kill_rate_update_interval() {
    assert!(KillState::update_due(SEC + 1, 0));
    assert!(!KillState::update_due(SEC, 0));
    assert!(!KillState::update_due(5, 10));
    let clock = Clock::start();
    assert!(KillState::update_time(&clock, 0).is_some());
    assert!(KillState::update_time(&clock, graph::clock::DURATION_MAX_NANOS).is_none());
    // a fresh kill state is due for an update right away, as a minute has passed
    let s = KillState::new(&clock);
    assert!(KillState::update_time(&clock, s.last_update).is_some());
}

#[test]
fn query_permits() {
    assert_eq!(permits_for(10, 4, 2), Some(16));
    assert_eq!(permits_for(usize::MAX, 1, 0), None);
    assert_eq!(permits_for(usize::MAX - 5, 4, 2), None);
    let n = max_concurrent_queries(10, 2).unwrap();
    assert!(n >= 13);
    assert_eq!(max_concurrent_queries(usize::MAX, 0), None);
}

#[test]
fn clock_readings_do_not_go_back() {
    let clock = Clock::start();
    let a = clock.now();
    let b = clock.now();
    assert!(a >= CLOCK_HEADROOM);
    assert!(b >= a);
}

#[test]
fn overload_events_alternate_with_log_event() {
    let clock = Clock::start();
    let mut s = KillState::new_at(100 * SEC);
    let mut events = vec![];
    for (now, overloaded, zero) in [
        (101, true, false),
        (102, true, false),
        (103, false, false),
        (104, false, true),
        (105, false, true),
        (106, true, false),
    ] {
        events.push(s.log_event(&clock, now * SEC, zero, overloaded));
    }
    let markers: Vec<&str> = events
        .iter()
        .filter_map(|e| match e {
            KillStateLogEvent::Start => Some("start"),
            KillStateLogEvent::Resolved(_) => Some("resolved"),
            _ => None,
        })
        .collect();
    assert_eq!(markers, vec!["start", "resolved", "start"]);
    assert_eq!(events[1], KillStateLogEvent::Skip);
    assert_eq!(events[2], KillStateLogEvent::Settling);
    assert_eq!(events[4], KillStateLogEvent::Skip);
    assert_eq!(s.overload_start, Some(106 * SEC));
}

#[test]
fn wait_gauge_is_set_after_a_wait() {
    let mut m = manager();
    assert!(m.add_wait_time(0).is_some());
}
