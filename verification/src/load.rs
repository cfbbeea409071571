//! The load manager's decisions: which queries to run, which to refuse as
//! too expensive and which to throttle, and the overload state that
//! decides what to log.
//!
//! The kill rate, a fraction between 0 and 1, and the random draw against
//! it are floating point and live with the caller; the decisions here take
//! what the caller learned from them as plain values.

use std::collections::HashSet;
use vstd::prelude::*;

use crate::clock::{elapsed, spec_elapsed, Clock, CLOCK_HEADROOM, DURATION_MAX_NANOS, NANOS_PER_MILLI};
use crate::effort::{EffortView, QueryEffort};
use crate::stats::{spec_average, MovingStats, StatsView};

verus! {

/// Throttle logging while overloaded to no more than once per 30 seconds.
pub const OVERLOAD_LOG_INTERVAL: u128 = 30_000_000_000;

/// The kill rate is adjusted at most once per second.
pub const KILL_RATE_UPDATE_INTERVAL: u128 = 1_000_000_000;

/// How far back a new `KillState` places its last update and log.
pub const KILL_STATE_LOOKBACK: u128 = 60_000_000_000;

/// What to log about the state we are currently in.
#[derive(Debug, Clone, Copy, PartialEq, Eq, Structural)]
pub enum KillStateLogEvent {
    /// Overload is starting right now
    Start,
    /// Overload has been going on for the duration (nanoseconds)
    Ongoing(u128),
    /// No longer overloaded, reducing the kill rate
    Settling,
    /// Overload was resolved after the duration (nanoseconds)
    Resolved(u128),
    /// Don't log anything right now
    Skip,
}

/// The timing part of the overload state: when the kill rate was last
/// adjusted, when the current overload started, and when it was last
/// logged (all points in time in nanoseconds).
#[derive(Debug, Clone, Copy, PartialEq, Eq, Structural)]
pub struct KillState {
    pub last_update: u128,
    pub overload_start: Option<u128>,
    pub last_overload_log: u128,
}

/// The state after `log_event_at` and the event it reports, where
/// `reading` is the clock reading that the durations are measured to.
pub open spec fn spec_log_event(
    s: KillState,
    now: u128,
    reading: u128,
    kill_rate_is_zero: bool,
    overloaded: bool,
) -> (KillState, KillStateLogEvent) {
    match s.overload_start {
        Some(start) => {
            if !overloaded {
                if kill_rate_is_zero {
                    (
                        KillState { overload_start: None, ..s },
                        KillStateLogEvent::Resolved(spec_elapsed(reading, start)),
                    )
                } else {
                    (s, KillStateLogEvent::Settling)
                }
            } else if spec_elapsed(now, s.last_overload_log) > OVERLOAD_LOG_INTERVAL {
                (
                    KillState { last_overload_log: now, ..s },
                    KillStateLogEvent::Ongoing(spec_elapsed(reading, start)),
                )
            } else {
                (s, KillStateLogEvent::Skip)
            }
        },
        None => {
            if overloaded {
                (
                    KillState { overload_start: Some(now), last_overload_log: now, ..s },
                    KillStateLogEvent::Start,
                )
            } else {
                (s, KillStateLogEvent::Skip)
            }
        },
    }
}

/// Two events of the same variant, whatever durations they carry.
pub open spec fn same_event(a: KillStateLogEvent, b: KillStateLogEvent) -> bool {
    match (a, b) {
        (KillStateLogEvent::Start, KillStateLogEvent::Start) => true,
        (KillStateLogEvent::Ongoing(_), KillStateLogEvent::Ongoing(_)) => true,
        (KillStateLogEvent::Settling, KillStateLogEvent::Settling) => true,
        (KillStateLogEvent::Resolved(_), KillStateLogEvent::Resolved(_)) => true,
        (KillStateLogEvent::Skip, KillStateLogEvent::Skip) => true,
        _ => false,
    }
}

/// A new kill state at `now`: last update and last log a minute back, or
/// at `now` when the clock is less than a minute past its origin.
pub open spec fn spec_new_kill_state(now: u128) -> KillState {
    let before = if now >= KILL_STATE_LOOKBACK {
        (now - KILL_STATE_LOOKBACK) as u128
    } else {
        now
    };
    KillState { last_update: before, overload_start: None, last_overload_log: before }
}

/// `s` with its last update moved to `now`.
pub open spec fn spec_updated(s: KillState, now: u128) -> KillState {
    KillState { last_update: now, ..s }
}

/// Whether the kill rate is due for an update at `now`: more than
/// `KILL_RATE_UPDATE_INTERVAL` passed since `last_update`.
pub open spec fn spec_update_due(now: u128, last_update: u128) -> bool {
    spec_elapsed(now, last_update) > KILL_RATE_UPDATE_INTERVAL
}

/// What `update_time` gives for the clock reading `reading`: the reading
/// when the kill rate is due for an update then, none otherwise.
pub open spec fn spec_update_time(reading: u128, last_update: u128) -> Option<u128> {
    if spec_update_due(reading, last_update) {
        Some(reading)
    } else {
        None
    }
}

impl KillState {
    /// A kill state whose last update and last log lie long enough ago
    /// that we neither log nor adjust the kill rate right away when the
    /// node is already under load; the time is read from `clock`.
    pub fn new(clock: &Clock) -> (s: KillState)
        ensures
            exists|t: u128|
                CLOCK_HEADROOM <= t <= DURATION_MAX_NANOS && s == #[trigger] spec_new_kill_state(t),
    {
        let t = clock.now();
        KillState::new_at(t)
    }

    /// A kill state created at `now`. A minute before `now` stands for
    /// "long ago"; when `now` is less than a minute past the clock's
    /// origin, `now` itself is used.
    pub fn new_at(now: u128) -> (s: KillState)
        ensures
            s == spec_new_kill_state(now),
    {
        let before = match now.checked_sub(KILL_STATE_LOOKBACK) {
            Some(before) => before,
            None => now,
        };
        KillState { last_update: before, overload_start: None, last_overload_log: before }
    }

    /// Advance the overload state for an observation at `now` and say what
    /// to log. The durations of `Ongoing` and `Resolved` reach from the
    /// start of the overload to `reading`, the clock when they are taken.
    pub fn log_event_at(
        &mut self,
        now: u128,
        reading: u128,
        kill_rate_is_zero: bool,
        overloaded: bool,
    ) -> (event: KillStateLogEvent)
        ensures
            (*final(self), event) == spec_log_event(
                *old(self),
                now,
                reading,
                kill_rate_is_zero,
                overloaded,
            ),
    {
        match self.overload_start {
            Some(overload_start) => {
                if !overloaded {
                    if kill_rate_is_zero {
                        self.overload_start = None;
                        KillStateLogEvent::Resolved(elapsed(reading, overload_start))
                    } else {
                        KillStateLogEvent::Settling
                    }
                } else if elapsed(now, self.last_overload_log) > OVERLOAD_LOG_INTERVAL {
                    self.last_overload_log = now;
                    KillStateLogEvent::Ongoing(elapsed(reading, overload_start))
                } else {
                    KillStateLogEvent::Skip
                }
            },
            None => {
                if overloaded {
                    self.overload_start = Some(now);
                    self.last_overload_log = now;
                    KillStateLogEvent::Start
                } else {
                    KillStateLogEvent::Skip
                }
            },
        }
    }

    /// Advance the overload state for an observation at `now` and say what
    /// to log; the durations of `Ongoing` and `Resolved` are measured to
    /// the current time on `clock`.
    pub fn log_event(&mut self, clock: &Clock, now: u128, kill_rate_is_zero: bool, overloaded: bool) -> (event:
        KillStateLogEvent)
        ensures
            exists|reading: u128|
                CLOCK_HEADROOM <= reading <= DURATION_MAX_NANOS && (*final(self), event) == spec_log_event(
                    *old(self),
                    now,
                    reading,
                    kill_rate_is_zero,
                    overloaded,
                ),
            same_event(event, spec_log_event(*old(self), now, 0, kill_rate_is_zero, overloaded).1),
            *final(self) == spec_log_event(*old(self), now, 0, kill_rate_is_zero, overloaded).0,
    {
        let reading = clock.now();
        self.log_event_at(now, reading, kill_rate_is_zero, overloaded)
    }

    /// Record that the kill rate was adjusted at `now` (to zero or not),
    /// and say what to log (durations measured on `clock`).
    pub fn record_update(&mut self, clock: &Clock, now: u128, kill_rate_is_zero: bool, overloaded: bool) -> (event:
        KillStateLogEvent)
        ensures
            exists|reading: u128|
                CLOCK_HEADROOM <= reading <= DURATION_MAX_NANOS && (*final(self), event) == #[trigger] spec_log_event(
                    spec_updated(*old(self), now),
                    now,
                    reading,
                    kill_rate_is_zero,
                    overloaded,
                ),
            final(self).last_update == now,
    {
        self.last_update = now;
        self.log_event(clock, now, kill_rate_is_zero, overloaded)
    }

    /// Whether the kill rate is due for an update at `now`.
    pub fn update_due(now: u128, last_update: u128) -> (due: bool)
        ensures
            due == spec_update_due(now, last_update),
    {
        elapsed(now, last_update) > KILL_RATE_UPDATE_INTERVAL
    }

    /// The current time on `clock` when the kill rate is due for an update
    /// after `last_update`, none otherwise.
    pub fn update_time(clock: &Clock, last_update: u128) -> (t: Option<u128>)
        ensures
            t matches Some(t) ==> spec_update_due(t, last_update) && CLOCK_HEADROOM <= t <= DURATION_MAX_NANOS,
            exists|reading: u128|
                CLOCK_HEADROOM <= reading <= DURATION_MAX_NANOS && t == #[trigger] spec_update_time(reading, last_update),
    {
        let t = clock.now();
        assert(spec_update_time(t, last_update) == spec_update_time(t, last_update));
        if KillState::update_due(t, last_update) {
            Some(t)
        } else {
            None
        }
    }
}

/// The errors that refusing a query gives.
#[derive(Debug, Clone, Copy, PartialEq, Eq, Structural)]
pub enum QueryExecutionError {
    /// The query is too expensive to run
    TooExpensive,
    /// The service is overloaded and the query was throttled
    Throttled,
}

/// Indicate what the load manager wants query execution to do with a query
#[derive(Debug, Clone, Copy, PartialEq, Eq, Structural)]
pub enum Decision {
    /// Proceed with executing the query
    Proceed,
    /// The query is too expensive and should not be executed
    TooExpensive,
    /// The service is overloaded, and we should not execute the query
    /// right now
    Throttle,
}

impl Decision {
    /// `Ok` to proceed, otherwise the error that refuses the query.
    pub fn to_result(self) -> (r: Result<(), QueryExecutionError>)
        ensures
            r == match self {
                Decision::Proceed => Ok(()),
                Decision::TooExpensive => Err(QueryExecutionError::TooExpensive),
                Decision::Throttle => Err(QueryExecutionError::Throttled),
            },
    {
        match self {
            Decision::Proceed => Ok(()),
            Decision::TooExpensive => Err(QueryExecutionError::TooExpensive),
            Decision::Throttle => Err(QueryExecutionError::Throttled),
        }
    }
}


/// The settings of the load manager that the environment configures.
#[derive(Debug, Clone, Copy)]
pub struct LoadConfig {
    /// Load management is disabled (its threshold is zero)
    pub disabled: bool,
    /// Only pretend to refuse queries: log what would happen, run them
    pub simulate: bool,
    /// Jail queries that cause too large a share of the effort
    pub jail_queries: bool,
    /// Wait times whose average exceeds this (nanoseconds) mean overload
    pub load_threshold: u128,
}

/// What the caller learned about a query that may still be refused.
#[derive(Debug, Clone, Copy, PartialEq, Eq, Structural)]
pub struct Pending {
    /// The query's effort in milliseconds; the total effort for a query
    /// never seen
    pub query_effort_ms: u128,
    /// The effort over all queries in whole milliseconds (the effort
    /// itself is never zero, but it may be below a millisecond)
    pub total_effort_ms: u128,
    /// Whether the service is overloaded
    pub overloaded: bool,
    /// The larger of the average store and query-permit waits (nanoseconds)
    pub wait: u128,
}

/// Where a decision stands.
#[derive(Debug, Clone, Copy, PartialEq, Eq, Structural)]
pub enum Step {
    /// The decision is made
    Decided(Decision),
    /// The query is known and jailing is on: compare its share of the
    /// effort with the jail threshold, then `jail` it or go on as for `Draw`
    CheckJail(Pending),
    /// Update the kill rate, draw against it weighted by the query's share
    /// of the effort, and `settle` with the outcome
    Draw(Pending),
}

/// What a `LoadManager` holds: the effort per query, the blocked and the
/// jailed query shapes, and the waits for a query permit.
pub struct LoadView {
    pub effort: EffortView,
    pub blocked: Set<u64>,
    pub jailed: Set<u64>,
    pub wait_stats: StatsView,
}

/// The larger of two optional averages; none is less than any average.
pub open spec fn spec_max_average(a: Option<u128>, b: Option<u128>) -> Option<u128> {
    match (a, b) {
        (Some(x), Some(y)) => Some(if x >= y { x } else { y }),
        (Some(x), None) => Some(x),
        (None, _) => b,
    }
}

/// Whether the service is overloaded, and the wait that says so: the
/// larger of the average store wait and the average permit wait is above
/// `threshold`. Without any measurement it is not, and the wait is zero.
pub open spec fn spec_overloaded(store: StatsView, permits: StatsView, threshold: u128) -> (
    bool,
    u128,
) {
    let max_avg = spec_max_average(
        spec_average(store.duration() as u128, store.count() as u32),
        spec_average(permits.duration() as u128, permits.count() as u32),
    );
    match max_avg {
        Some(avg) => (avg > threshold, avg),
        None => (false, 0),
    }
}

/// What `jail` answers: the query runs in simulation, else it is too
/// expensive.
pub open spec fn spec_jail_decision(simulate: bool) -> Decision {
    if simulate {
        Decision::Proceed
    } else {
        Decision::TooExpensive
    }
}

/// What `settle` answers: a declined query is throttled unless in
/// simulation; every other query runs.
pub open spec fn spec_settle(decline: bool, simulate: bool) -> Decision {
    if decline && !simulate {
        Decision::Throttle
    } else {
        Decision::Proceed
    }
}

/// Where `decide` leaves the query `shape_hash`.
pub open spec fn spec_decide(
    v: LoadView,
    store: StatsView,
    shape_hash: u64,
    config: LoadConfig,
    kill_rate_is_zero: bool,
) -> Step {
    if v.blocked.contains(shape_hash) {
        Step::Decided(Decision::TooExpensive)
    } else if config.disabled {
        Step::Decided(Decision::Proceed)
    } else if v.jailed.contains(shape_hash) {
        Step::Decided(spec_jail_decision(config.simulate))
    } else {
        let (overloaded, wait) = spec_overloaded(store, v.wait_stats, config.load_threshold);
        if !overloaded && kill_rate_is_zero {
            Step::Decided(Decision::Proceed)
        } else {
            let (query_effort, total_effort) = v.effort.current_effort(shape_hash);
            if total_effort == 0 {
                Step::Decided(Decision::Proceed)
            } else {
                let query = match query_effort {
                    Some(q) => q,
                    None => total_effort,
                };
                let pending = Pending {
                    query_effort_ms: (query / NANOS_PER_MILLI) as u128,
                    total_effort_ms: (total_effort / NANOS_PER_MILLI) as u128,
                    overloaded,
                    wait,
                };
                if query_effort is Some && config.jail_queries {
                    Step::CheckJail(pending)
                } else {
                    Step::Draw(pending)
                }
            }
        }
    }
}

/// The decisions of load management: which queries to run, and the
/// statistics that they rest on.
pub struct LoadManager {
    effort: QueryEffort,
    blocked_queries: HashSet<u64>,
    jailed_queries: HashSet<u64>,
    semaphore_wait_stats: MovingStats,
}

impl View for LoadManager {
    type V = LoadView;

    closed spec fn view(&self) -> LoadView {
        LoadView {
            effort: self.effort@,
            blocked: self.blocked_queries@,
            jailed: self.jailed_queries@,
            wait_stats: self.semaphore_wait_stats@,
        }
    }
}

impl LoadManager {
    /// The statistics are well formed.
    pub closed spec fn wf(&self) -> bool {
        &&& self.effort.wf()
        &&& self.semaphore_wait_stats.wf()
    }

    /// The latest time work was recorded at by `record_work`, or the time
    /// the effort statistics were made.
    pub closed spec fn effort_last_reading(&self) -> u128 {
        self.effort.last_reading()
    }

    /// The latest time a permit wait was recorded at by `add_wait_time`,
    /// or the time the wait statistics were made.
    pub closed spec fn wait_last_reading(&self) -> u128 {
        self.semaphore_wait_stats.last_reading()
    }

    /// A well-formed load manager has well-formed statistics.
    pub proof fn lemma_view_wf(&self)
        requires
            self.wf(),
        ensures
            self@.effort.wf(),
            self@.wait_stats.wf(),
    {
        self.effort.lemma_view_wf();
        self.semaphore_wait_stats.lemma_view_wf();
    }

    /// A load manager that refuses the query shapes `blocked_queries` as
    /// too expensive, and keeps its statistics over a window of
    /// `window_size` with bins of `bin_size`.
    pub fn new(blocked_queries: &Vec<u64>, window_size: u128, bin_size: u128) -> (m: LoadManager)
        requires
            StatsView::valid_sizes(window_size, bin_size),
        ensures
            m.wf(),
            m@.effort == EffortView::empty(window_size, bin_size),
            m@.blocked == blocked_queries@.to_set(),
            m@.jailed == Set::<u64>::empty(),
            m@.wait_stats == StatsView::empty(window_size, bin_size),
    {
        let mut blocked: HashSet<u64> = HashSet::new();
        let mut i: usize = 0;
        while i < blocked_queries.len()
            invariant
                i <= blocked_queries.len(),
                blocked@ == blocked_queries@.take(i as int).to_set(),
            decreases blocked_queries.len() - i,
        {
            blocked.insert(blocked_queries[i]);
            proof {
                assert(blocked_queries@.take(i + 1) =~= blocked_queries@.take(i as int).push(
                    blocked_queries@[i as int],
                ));
                blocked_queries@.take(i as int).lemma_push_to_set_commute(blocked_queries@[i as int]);
            }
            i = i + 1;
        }
        proof {
            assert(blocked_queries@.take(i as int) =~= blocked_queries@);
        }
        LoadManager {
            effort: QueryEffort::new(window_size, bin_size),
            blocked_queries: blocked,
            jailed_queries: HashSet::new(),
            semaphore_wait_stats: MovingStats::new(window_size, bin_size),
        }
    }

    /// The effort for `shape_hash` and the total effort, as
    /// `QueryEffort::current_effort` reports them.
    pub fn current_effort(&self, shape_hash: u64) -> (res: (Option<u128>, u128))
        requires
            self.wf(),
        ensures
            res == self@.effort.current_effort(shape_hash),
    {
        self.effort.current_effort(shape_hash)
    }

    /// Whether `record_work(shape_hash, duration, false)` fits whatever
    /// the time.
    pub fn can_record_work(&self, shape_hash: u64, duration: u128) -> (ok: bool)
        requires
            self.wf(),
        ensures
            ok == self@.effort.can_add(shape_hash, duration),
    {
        self.effort.can_add(shape_hash, duration)
    }

    /// Record that we spent `duration` of work on the query `shape_hash`.
    /// Unless load management is disabled, the work goes into the effort
    /// statistics and the new value of the effort gauge (milliseconds) is
    /// returned.
    pub fn record_work(&mut self, shape_hash: u64, duration: u128, disabled: bool) -> (gauge:
        Option<u128>)
        requires
            old(self).wf(),
            !disabled ==> old(self)@.effort.can_add(shape_hash, duration),
        ensures
            final(self).wf(),
            final(self)@.blocked == old(self)@.blocked,
            final(self)@.jailed == old(self)@.jailed,
            final(self)@.wait_stats == old(self)@.wait_stats,
            disabled ==> final(self)@.effort == old(self)@.effort && gauge is None,
            disabled ==> final(self).effort_last_reading() == old(self).effort_last_reading(),
            !disabled ==> {
                &&& exists|t: u128|
                    {
                        &&& CLOCK_HEADROOM <= t <= DURATION_MAX_NANOS
                        &&& old(self).effort_last_reading() <= t
                        &&& final(self).effort_last_reading() == t
                        &&& final(self)@.effort == #[trigger] old(self)@.effort.add_at(
                            t,
                            shape_hash,
                            duration,
                        )
                    }
                &&& gauge == Some(final(self)@.effort.average_millis())
            },
    {
        if !disabled {
            Some(self.effort.add(shape_hash, duration))
        } else {
            None
        }
    }

    /// Whether a permit wait of `duration` fits the wait statistics
    /// whatever the time.
    pub fn can_add_wait_time(&self, duration: u128) -> (ok: bool)
        requires
            self.wf(),
        ensures
            ok == self@.wait_stats.can_add(duration),
    {
        self.semaphore_wait_stats.can_add(duration)
    }

    /// Record that a query waited `duration` for its permit, and return the
    /// new average wait in milliseconds for the wait gauge, none when the
    /// window holds no wait.
    pub fn add_wait_time(&mut self, duration: u128) -> (gauge: Option<u128>)
        requires
            old(self).wf(),
            old(self)@.wait_stats.can_add(duration),
        ensures
            final(self).wf(),
            final(self)@.effort == old(self)@.effort,
            final(self)@.blocked == old(self)@.blocked,
            final(self)@.jailed == old(self)@.jailed,
            final(self).effort_last_reading() == old(self).effort_last_reading(),
            exists|t: u128|
                {
                    &&& CLOCK_HEADROOM <= t <= DURATION_MAX_NANOS
                    &&& old(self).wait_last_reading() <= t
                    &&& final(self).wait_last_reading() == t
                    &&& final(self)@.wait_stats == #[trigger] old(self)@.wait_stats.add_at(t, duration)
                },
            gauge == match spec_average(
                final(self)@.wait_stats.duration() as u128,
                final(self)@.wait_stats.count() as u32,
            ) {
                Some(avg) => Some((avg / NANOS_PER_MILLI) as u128),
                None => None,
            },
            gauge is Some,
    {
        let ghost before = self.semaphore_wait_stats@;
        proof {
            self.semaphore_wait_stats.lemma_view_wf();
        }
        self.semaphore_wait_stats.add(duration);
        proof {
            let t = choose|t: u128|
                t <= DURATION_MAX_NANOS && self.semaphore_wait_stats@ == before.add_at(t, duration);
            crate::stats::lemma_stats_can_add_any_time(before, t, duration);
            crate::stats::lemma_add_at_wf(before, t, duration);
        }
        match self.semaphore_wait_stats.average() {
            Some(avg) => Some(avg / NANOS_PER_MILLI),
            None => None,
        }
    }

    /// Whether the service is overloaded, judged by the average waits for
    /// a store connection (`wait_stats`) and for a query permit, and the
    /// larger of the two averages.
    pub fn overloaded(&self, wait_stats: &MovingStats, load_threshold: u128) -> (res: (bool, u128))
        requires
            self.wf(),
            wait_stats.wf(),
        ensures
            res == spec_overloaded(wait_stats@, self@.wait_stats, load_threshold),
    {
        let store_avg = wait_stats.average();
        let semaphore_avg = self.semaphore_wait_stats.average();
        let max_avg = match (store_avg, semaphore_avg) {
            (Some(x), Some(y)) => Some(if x >= y { x } else { y }),
            (Some(x), None) => Some(x),
            (None, b) => b,
        };
        match max_avg {
            Some(avg) => (avg > load_threshold, avg),
            None => (false, 0),
        }
    }

    /// Decide what to do with the query `shape_hash`, as far as it can be
    /// decided without the kill rate's arithmetic and the random draw.
    /// Blocked queries are too expensive; with load management disabled
    /// everything else runs; jailed queries are too expensive (they run in
    /// simulation); without overload and with a zero kill rate, or without
    /// any recorded effort, the query runs. Otherwise the caller checks
    /// the jail threshold or draws against the kill rate.
    pub fn decide(
        &self,
        wait_stats: &MovingStats,
        shape_hash: u64,
        config: &LoadConfig,
        kill_rate_is_zero: bool,
    ) -> (step: Step)
        requires
            self.wf(),
            wait_stats.wf(),
        ensures
            step == spec_decide(self@, wait_stats@, shape_hash, *config, kill_rate_is_zero),
            pending_weighs_share(self@, shape_hash, config.jail_queries, step),
    {
        proof {
            self.lemma_view_wf();
            law_pending_weighs_own_share(self@, wait_stats@, shape_hash, *config, kill_rate_is_zero);
        }
        if self.blocked_queries.contains(&shape_hash) {
            return Step::Decided(Decision::TooExpensive);
        }
        if config.disabled {
            return Step::Decided(Decision::Proceed);
        }
        if self.jailed_queries.contains(&shape_hash) {
            return Step::Decided(
                if config.simulate {
                    Decision::Proceed
                } else {
                    Decision::TooExpensive
                },
            );
        }
        let (overloaded, wait) = self.overloaded(wait_stats, config.load_threshold);
        if !overloaded && kill_rate_is_zero {
            return Step::Decided(Decision::Proceed);
        }
        let (query_effort, total_effort) = self.effort.current_effort(shape_hash);
        if total_effort == 0 {
            return Step::Decided(Decision::Proceed);
        }
        let known_query = query_effort.is_some();
        let query = match query_effort {
            Some(q) => q,
            None => total_effort,
        };
        let pending = Pending {
            query_effort_ms: query / NANOS_PER_MILLI,
            total_effort_ms: total_effort / NANOS_PER_MILLI,
            overloaded,
            wait,
        };
        if known_query && config.jail_queries {
            Step::CheckJail(pending)
        } else {
            Step::Draw(pending)
        }
    }

    /// Jail the query `shape_hash`, which caused at least the jail
    /// threshold's share of the effort during an overload: from now on it
    /// is too expensive (in simulation it still runs).
    pub fn jail(&mut self, shape_hash: u64, simulate: bool) -> (decision: Decision)
        requires
            old(self).wf(),
        ensures
            final(self).wf(),
            final(self)@.effort == old(self)@.effort,
            final(self)@.blocked == old(self)@.blocked,
            final(self)@.wait_stats == old(self)@.wait_stats,
            final(self)@.jailed == old(self)@.jailed.insert(shape_hash),
            decision == spec_jail_decision(simulate),
    {
        self.jailed_queries.insert(shape_hash);
        if simulate {
            Decision::Proceed
        } else {
            Decision::TooExpensive
        }
    }

    /// The decision after the draw against the kill rate: a declined query
    /// is throttled, unless in simulation; otherwise the query runs.
    pub fn settle(decline: bool, simulate: bool) -> (decision: Decision)
        ensures
            decision == spec_settle(decline, simulate),
    {
        if decline {
            if simulate {
                Decision::Proceed
            } else {
                Decision::Throttle
            }
        } else {
            Decision::Proceed
        }
    }
}

/// A blocked query is always too expensive, whatever the load and the
/// configuration.
pub proof fn law_blocked_is_too_expensive(
    v: LoadView,
    store: StatsView,
    shape_hash: u64,
    config: LoadConfig,
    kill_rate_is_zero: bool,
)
    requires
        v.blocked.contains(shape_hash),
    ensures
        spec_decide(v, store, shape_hash, config, kill_rate_is_zero) == Step::Decided(
            Decision::TooExpensive,
        ),
{
}

/// With load management disabled, every query that is not blocked runs.
pub proof fn law_disabled_runs_unblocked(
    v: LoadView,
    store: StatsView,
    shape_hash: u64,
    config: LoadConfig,
    kill_rate_is_zero: bool,
)
    requires
        config.disabled,
        !v.blocked.contains(shape_hash),
    ensures
        spec_decide(v, store, shape_hash, config, kill_rate_is_zero) == Step::Decided(Decision::Proceed),
{
}

/// Once a query is jailed it stays too expensive: `jail` adds it to the
/// jailed queries, and from then on `decide` refuses it (unless load
/// management is disabled or only simulated).
pub proof fn law_jailed_stays_refused(
    v: LoadView,
    store: StatsView,
    shape_hash: u64,
    config: LoadConfig,
    kill_rate_is_zero: bool,
)
    requires
        !config.disabled,
        !config.simulate,
    ensures
        spec_decide(
            LoadView { jailed: v.jailed.insert(shape_hash), ..v },
            store,
            shape_hash,
            config,
            kill_rate_is_zero,
        ) == Step::Decided(Decision::TooExpensive),
        spec_jail_decision(config.simulate) == Decision::TooExpensive,
{
}

/// In simulation, load management only ever refuses blocked queries:
/// `decide` never throttles and calls a query too expensive only when it
/// is blocked, and jailing and the draw let the query run.
pub proof fn law_simulation_refuses_only_blocked(
    v: LoadView,
    store: StatsView,
    shape_hash: u64,
    config: LoadConfig,
    kill_rate_is_zero: bool,
    decline: bool,
)
    requires
        config.simulate,
    ensures
        spec_decide(v, store, shape_hash, config, kill_rate_is_zero) != Step::Decided(
            Decision::Throttle,
        ),
        spec_decide(v, store, shape_hash, config, kill_rate_is_zero) == Step::Decided(
            Decision::TooExpensive,
        ) ==> v.blocked.contains(shape_hash),
        spec_jail_decision(config.simulate) == Decision::Proceed,
        spec_settle(decline, config.simulate) == Decision::Proceed,
{
}

/// Without overload and with a zero kill rate, every query that is neither
/// blocked nor jailed runs.
pub proof fn law_calm_service_runs_queries(
    v: LoadView,
    store: StatsView,
    shape_hash: u64,
    config: LoadConfig,
)
    requires
        !v.blocked.contains(shape_hash),
        !v.jailed.contains(shape_hash),
        !spec_overloaded(store, v.wait_stats, config.load_threshold).0,
    ensures
        spec_decide(v, store, shape_hash, config, true) == Step::Decided(Decision::Proceed),
{
}

/// When no work was recorded in the window, every query that is neither
/// blocked nor jailed runs: all are welcome.
pub proof fn law_no_effort_runs_queries(
    v: LoadView,
    store: StatsView,
    shape_hash: u64,
    config: LoadConfig,
    kill_rate_is_zero: bool,
)
    requires
        !v.blocked.contains(shape_hash),
        !v.jailed.contains(shape_hash),
        v.effort.total.duration() == 0,
    ensures
        spec_decide(v, store, shape_hash, config, kill_rate_is_zero) == Step::Decided(Decision::Proceed),
{
}

/// What the caller is handed for the jail check and the draw weighs the
/// query by its share of the effort: the total is the windowed effort over
/// all queries, the query's effort is its own windowed effort when it has
/// stats and the total otherwise (both in whole milliseconds), and the jail
/// check comes exactly for a query with stats while jailing is on.
pub open spec fn pending_weighs_share(v: LoadView, shape_hash: u64, jail_queries: bool, step: Step) -> bool {
    match step {
        Step::CheckJail(p) | Step::Draw(p) => {
            &&& p.total_effort_ms as int == v.effort.total.duration() as int / NANOS_PER_MILLI as int
            &&& p.query_effort_ms as int == (if v.effort.effort.contains_key(shape_hash) {
                v.effort.effort[shape_hash].duration() as int
            } else {
                v.effort.total.duration() as int
            }) / NANOS_PER_MILLI as int
            &&& (step is CheckJail <==> (v.effort.effort.contains_key(shape_hash) && jail_queries))
        },
        Step::Decided(_) => true,
    }
}

/// Whatever the configuration, a query that reaches the jail check or the
/// draw is weighed by its own share of the effort: a query with stats of
/// its own by its own windowed effort, out of the windowed total.
pub proof fn law_pending_weighs_own_share(
    v: LoadView,
    store: StatsView,
    shape_hash: u64,
    config: LoadConfig,
    kill_rate_is_zero: bool,
)
    requires
        v.effort.wf(),
    ensures
        pending_weighs_share(
            v,
            shape_hash,
            config.jail_queries,
            spec_decide(v, store, shape_hash, config, kill_rate_is_zero),
        ),
{
}

/// A query that was never measured counts, in an overload, with the
/// whole effort: its share is the total's.
pub proof fn law_unknown_query_weighs_total(
    v: LoadView,
    store: StatsView,
    shape_hash: u64,
    config: LoadConfig,
    kill_rate_is_zero: bool,
)
    requires
        !v.effort.effort.contains_key(shape_hash),
    ensures
        spec_decide(v, store, shape_hash, config, kill_rate_is_zero) matches Step::Draw(p) ==> p.query_effort_ms
            == p.total_effort_ms,
        !(spec_decide(v, store, shape_hash, config, kill_rate_is_zero) is CheckJail),
{
}

/// A query reaches the jail check or the draw only when the service is
/// overloaded or the kill rate is not zero, and only when some work was
/// recorded in the window; the draw then weighs the query with at most
/// the effort the window holds for it.
pub proof fn law_draw_only_under_load(
    v: LoadView,
    store: StatsView,
    shape_hash: u64,
    config: LoadConfig,
    kill_rate_is_zero: bool,
)
    ensures
        match spec_decide(v, store, shape_hash, config, kill_rate_is_zero) {
            Step::CheckJail(p) | Step::Draw(p) => {
                &&& p.overloaded || !kill_rate_is_zero
                &&& p.overloaded == spec_overloaded(store, v.wait_stats, config.load_threshold).0
                &&& v.effort.total.duration() > 0
                &&& !v.blocked.contains(shape_hash)
                &&& !v.jailed.contains(shape_hash)
                &&& !config.disabled
            },
            Step::Decided(_) => true,
        },
{
}

/// One observation of the overload state: at `now`, with durations read
/// at `reading`, whether the kill rate is zero, whether the service is
/// overloaded, and whether it comes with a kill-rate update
/// (`record_update`) or alone (`log_event`).
pub struct Observation {
    pub now: u128,
    pub reading: u128,
    pub kill_rate_is_zero: bool,
    pub overloaded: bool,
    pub update: bool,
}

/// The state and event after one observation.
pub open spec fn spec_observe(s: KillState, o: Observation) -> (KillState, KillStateLogEvent) {
    let s1 = if o.update {
        spec_updated(s, o.now)
    } else {
        s
    };
    spec_log_event(s1, o.now, o.reading, o.kill_rate_is_zero, o.overloaded)
}

/// The state after a sequence of observations, and the events reported
/// along the way.
pub open spec fn spec_run(s: KillState, obs: Seq<Observation>) -> (KillState, Seq<KillStateLogEvent>)
    decreases obs.len(),
{
    if obs.len() == 0 {
        (s, Seq::empty())
    } else {
        let (s1, events) = spec_run(s, obs.drop_last());
        let (s2, e) = spec_observe(s1, obs.last());
        (s2, events.push(e))
    }
}

/// Whether an overload is open after `events`: the last `Start` or
/// `Resolved` among them is a `Start`.
pub open spec fn overload_open(events: Seq<KillStateLogEvent>) -> bool
    decreases events.len(),
{
    if events.len() == 0 {
        false
    } else {
        match events.last() {
            KillStateLogEvent::Start => true,
            KillStateLogEvent::Resolved(_) => false,
            _ => overload_open(events.drop_last()),
        }
    }
}

/// Every `Start` comes while no overload is open, and every `Resolved`,
/// `Ongoing` and `Settling` while one is.
pub open spec fn events_alternate(events: Seq<KillStateLogEvent>) -> bool {
    forall|i: int|
        0 <= i < events.len() ==> {
            &&& (#[trigger] events[i]) is Start ==> !overload_open(events.take(i))
            &&& events[i] is Resolved ==> overload_open(events.take(i))
            &&& events[i] is Ongoing ==> overload_open(events.take(i))
            &&& events[i] is Settling ==> overload_open(events.take(i))
        }
}

/// Over any sequence of observations of a kill state without a running
/// overload (such as a new one), `Start` and `Resolved` alternate,
/// beginning with `Start`: a `Start` comes only while no overload is open
/// and a `Resolved` only while one is; `Ongoing` and `Settling` come only
/// while an overload is open; and an overload is running in the final
/// state exactly when the last of `Start` and `Resolved` was a `Start`;
/// and each event goes with the state before and after it as `transition`
/// says. A sequence of `log_event` and `record_update` calls is such a run:
/// each call's `ensures` is `spec_observe` of its observation.
pub proof fn law_overload_events_alternate(s: KillState, obs: Seq<Observation>)
    requires
        s.overload_start is None,
    ensures
        spec_run(s, obs).1.len() == obs.len(),
        spec_run(s, obs).0.overload_start is Some <==> overload_open(spec_run(s, obs).1),
        events_alternate(spec_run(s, obs).1),
        run_transitions(s, obs),
    decreases obs.len(),
{
    law_run_transitions(s, obs);
    if obs.len() > 0 {
        let prefix = obs.drop_last();
        law_overload_events_alternate(s, prefix);
        let (s1, before) = spec_run(s, prefix);
        let (s2, e) = spec_observe(s1, obs.last());
        let events = spec_run(s, obs).1;
        assert(events == before.push(e));
        assert(events.drop_last() =~= before);
        assert(events.take(before.len() as int) =~= before);
        assert forall|i: int| 0 <= i < obs.len() implies {
            &&& (#[trigger] events[i]) is Start ==> !overload_open(events.take(i))
            &&& events[i] is Resolved ==> overload_open(events.take(i))
            &&& events[i] is Ongoing ==> overload_open(events.take(i))
            &&& events[i] is Settling ==> overload_open(events.take(i))
        } by {
            if i < before.len() {
                assert(events.take(i) =~= before.take(i));
                assert(events[i] == before[i]);
            }
        }
    }
}

/// How an event goes with the overload state before and after it:
/// `Start` exactly when an overload begins (none running before, one
/// after), `Resolved` exactly when it ends (one running before, none
/// after), and `Ongoing` and `Settling` only while one runs throughout.
pub open spec fn transition(before: KillState, after: KillState, event: KillStateLogEvent) -> bool {
    &&& event is Start <==> (before.overload_start is None && after.overload_start is Some)
    &&& event is Resolved <==> (before.overload_start is Some && after.overload_start is None)
    &&& (event is Ongoing || event is Settling) ==> (before.overload_start is Some
        && after.overload_start is Some)
}

/// The events of a run agree with the state before and after each of them:
/// the state before event `i` is that after the first `i` observations.
pub open spec fn run_transitions(s: KillState, obs: Seq<Observation>) -> bool {
    forall|i: int|
        0 <= i < obs.len() ==> transition(
            spec_run(s, obs.take(i)).0,
            spec_run(s, obs.take(i + 1)).0,
            #[trigger] spec_run(s, obs).1[i],
        )
}

/// A run over the first `k` observations reports the first `k` events of
/// the whole run.
pub proof fn lemma_run_prefix(s: KillState, obs: Seq<Observation>, k: int)
    requires
        0 <= k <= obs.len(),
    ensures
        spec_run(s, obs).1.len() == obs.len(),
        spec_run(s, obs.take(k)).1 == spec_run(s, obs).1.take(k),
    decreases obs.len(),
{
    if obs.len() == 0 {
        assert(obs.take(k) =~= obs);
        assert(spec_run(s, obs).1.take(k) =~= spec_run(s, obs).1);
    } else if k == obs.len() {
        lemma_run_prefix(s, obs.drop_last(), 0);
        assert(obs.take(k) =~= obs);
        assert(spec_run(s, obs).1.take(k) =~= spec_run(s, obs).1);
    } else {
        lemma_run_prefix(s, obs.drop_last(), k);
        assert(obs.drop_last().take(k) =~= obs.take(k));
        assert(spec_run(s, obs).1.take(k) =~= spec_run(s, obs.drop_last()).1.take(k));
    }
}

/// Each observation of a run moves the overload state as `transition`
/// says: `Start` exactly when an overload begins, `Resolved` exactly when
/// it ends, `Ongoing` and `Settling` only while one runs.
pub proof fn law_run_transitions(s: KillState, obs: Seq<Observation>)
    ensures
        run_transitions(s, obs),
{
    assert forall|i: int| 0 <= i < obs.len() implies transition(
        spec_run(s, obs.take(i)).0,
        spec_run(s, obs.take(i + 1)).0,
        #[trigger] spec_run(s, obs).1[i],
    ) by {
        lemma_run_prefix(s, obs, i + 1);
        let p = obs.take(i + 1);
        assert(p.drop_last() =~= obs.take(i));
        assert(p.last() == obs[i]);
        let before = spec_run(s, obs.take(i)).0;
        let o = obs[i];
        let s1 = if o.update { spec_updated(before, o.now) } else { before };
        law_overload_episode(s1, o.now, o.reading, o.kill_rate_is_zero, o.overloaded);
        assert(spec_run(s, p).1.last() == spec_run(s, obs).1[i]);
    }
}

/// An overload episode: `Start` is reported only when no overload was
/// running and the service is overloaded, and opens the episode;
/// `Resolved` only when the service is no longer overloaded and the kill
/// rate is back at zero, and closes it; `Ongoing` at most once per
/// `OVERLOAD_LOG_INTERVAL`.
pub proof fn law_overload_episode(
    s: KillState,
    now: u128,
    reading: u128,
    kill_rate_is_zero: bool,
    overloaded: bool,
)
    ensures
        ({
            let (next, event) = spec_log_event(s, now, reading, kill_rate_is_zero, overloaded);
            &&& event is Start <==> (s.overload_start is None && overloaded)
            &&& event is Start ==> next.overload_start == Some(now)
            &&& event is Resolved <==> (s.overload_start is Some && !overloaded && kill_rate_is_zero)
            &&& next.overload_start is None <==> (s.overload_start is None && !overloaded) || event is Resolved
            &&& event is Ongoing ==> spec_elapsed(now, s.last_overload_log) > OVERLOAD_LOG_INTERVAL
                && next.last_overload_log == now
            &&& next.last_update == s.last_update
            &&& transition(s, next, event)
        }),
{
}

/// A new kill state has no overload running.
pub proof fn law_new_kill_state_is_calm(now: u128)
    ensures
        spec_new_kill_state(now).overload_start is None,
        spec_new_kill_state(now).last_update <= now,
{
}

/// Returns the number of logical CPUs through `num_cpus::get`, which its
/// documentation says is always at least 1.
#[verifier::external_body]
fn logical_cpus() -> (n: usize)
    ensures
        n >= 1,
{
    num_cpus::get()
}

/// The sum of the three, none when it does not fit a `usize`.
pub open spec fn spec_permits(store_conn_pool_size: usize, cpus: usize, extra: usize) -> Option<usize> {
    if store_conn_pool_size + cpus + extra <= usize::MAX {
        Some((store_conn_pool_size + cpus + extra) as usize)
    } else {
        None
    }
}

/// The number of queries that may run at once: a query always takes a CPU
/// core, or a store connection, or both, so beyond
/// `store_conn_pool_size + cpus` queries there is contention; `extra`
/// permits are added on top. None when the sum does not fit a `usize`.
pub fn permits_for(store_conn_pool_size: usize, cpus: usize, extra: usize) -> (n: Option<usize>)
    ensures
        n == spec_permits(store_conn_pool_size, cpus, extra),
{
    match store_conn_pool_size.checked_add(cpus) {
        Some(sum) => sum.checked_add(extra),
        None => None,
    }
}

/// The number of query permits on this machine: the store connections,
/// the logical CPUs and `extra` permits; none when the sum does not fit a
/// `usize`.
pub fn max_concurrent_queries(store_conn_pool_size: usize, extra: usize) -> (n: Option<usize>)
    ensures
        n matches Some(n) ==> n >= store_conn_pool_size + extra + 1,
        exists|cpus: usize| cpus >= 1 && n == #[trigger] spec_permits(store_conn_pool_size, cpus, extra),
{
    let cpus = logical_cpus();
    permits_for(store_conn_pool_size, cpus, extra)
}

} // verus!
