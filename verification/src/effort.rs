//! Moving statistics about the effort spent on queries, identified by the
//! hash of their shape.

use std::collections::HashMap;
use vstd::prelude::*;

use crate::clock::{Clock, CLOCK_HEADROOM, DURATION_MAX_NANOS, NANOS_PER_MILLI};
use crate::stats::{spec_average, MovingStats, StatsView};

verus! {

/// What a `QueryEffort` holds: the window and bin sizes, the stats per
/// query shape, and the stats over all queries.
pub struct EffortView {
    pub window_size: u128,
    pub bin_size: u128,
    pub effort: Map<u64, StatsView>,
    pub total: StatsView,
}

impl EffortView {
    /// No measurement at all, with the given sizes.
    pub open spec fn empty(window_size: u128, bin_size: u128) -> EffortView {
        EffortView {
            window_size,
            bin_size,
            effort: Map::empty(),
            total: StatsView::empty(window_size, bin_size),
        }
    }

    /// The stats of `shape_hash`, or empty stats when the query was never
    /// measured.
    pub open spec fn stats_of(self, shape_hash: u64) -> StatsView {
        if self.effort.contains_key(shape_hash) {
            self.effort[shape_hash]
        } else {
            StatsView::empty(self.window_size, self.bin_size)
        }
    }

    /// All stats are well formed and use the sizes of the whole.
    pub open spec fn wf(self) -> bool {
        &&& StatsView::valid_sizes(self.window_size, self.bin_size)
        &&& self.effort.dom().finite()
        &&& forall|h: u64| #[trigger]
            self.effort.contains_key(h) ==> {
                &&& self.effort[h].wf()
                &&& self.effort[h].window_size == self.window_size
                &&& self.effort[h].bin_size == self.bin_size
            }
        &&& self.total.wf()
        &&& self.total.window_size == self.window_size
        &&& self.total.bin_size == self.bin_size
    }

    /// Whether a measurement of `duration` for `shape_hash` at `now` fits
    /// both the query's stats and the total.
    pub open spec fn can_add_at(self, now: u128, shape_hash: u64, duration: u128) -> bool {
        &&& self.stats_of(shape_hash).can_add_at(now, duration)
        &&& self.total.can_add_at(now, duration)
    }

    /// Whether a measurement of `duration` for `shape_hash` fits whatever
    /// the time.
    pub open spec fn can_add(self, shape_hash: u64, duration: u128) -> bool {
        &&& self.stats_of(shape_hash).can_add(duration)
        &&& self.total.can_add(duration)
    }

    /// The effort after a measurement of `duration` for `shape_hash` at
    /// `now`: it is added to the query's stats, which are created when
    /// missing, and to the total.
    pub open spec fn add_at(self, now: u128, shape_hash: u64, duration: u128) -> EffortView {
        EffortView {
            effort: self.effort.insert(shape_hash, self.stats_of(shape_hash).add_at(now, duration)),
            total: self.total.add_at(now, duration),
            ..self
        }
    }

    /// What `current_effort` reports: the summed duration for
    /// `shape_hash`, none when the query has no stats, and the summed
    /// duration over all queries.
    pub open spec fn current_effort(self, shape_hash: u64) -> (Option<u128>, u128) {
        (
            if self.effort.contains_key(shape_hash) {
                Some(self.effort[shape_hash].duration() as u128)
            } else {
                None
            },
            self.total.duration() as u128,
        )
    }

    /// The average over all queries in whole milliseconds, zero when there
    /// is no measurement in the window.
    pub open spec fn average_millis(self) -> u128 {
        match spec_average(self.total.duration() as u128, self.total.count() as u32) {
            Some(avg) => (avg / NANOS_PER_MILLI) as u128,
            None => 0,
        }
    }
}

/// Track the effort for queries (identified by their shape hash) over a
/// time window.
pub struct QueryEffortInner {
    window_size: u128,
    bin_size: u128,
    effort: HashMap<u64, MovingStats>,
    total: MovingStats,
    /// The clock that `add` reads, for the query's stats and the total alike.
    clock: Clock,
    /// The latest time work was recorded at by `add` (at first, the time
    /// the statistics were made). The clock is monotonic, so its readings
    /// never fall below this; `add` holds to that, and so never records
    /// work at an earlier time than the work before.
    last_reading: u128,
}

impl View for QueryEffortInner {
    type V = EffortView;

    closed spec fn view(&self) -> EffortView {
        EffortView {
            window_size: self.window_size,
            bin_size: self.bin_size,
            effort: self.effort@.map_values(|s: MovingStats| s@),
            total: self.total@,
        }
    }
}

impl QueryEffortInner {
    /// The view is well formed and each stats keeps its running total.
    pub closed spec fn wf(&self) -> bool {
        &&& self@.wf()
        &&& forall|h: u64| #[trigger] self.effort@.contains_key(h) ==> self.effort@[h].wf()
        &&& self.total.wf()
        &&& CLOCK_HEADROOM <= self.last_reading <= DURATION_MAX_NANOS
    }

    /// The latest time work was recorded at by `add`, or the time the
    /// statistics were made.
    pub closed spec fn last_reading(&self) -> u128 {
        self.last_reading
    }

    /// Empty effort statistics over a window of `window_size` with bins of
    /// `bin_size`.
    pub fn new(window_size: u128, bin_size: u128) -> (inner: QueryEffortInner)
        requires
            StatsView::valid_sizes(window_size, bin_size),
        ensures
            inner.wf(),
            inner@ == EffortView::empty(window_size, bin_size),
    {
        let clock = Clock::start();
        let last_reading = clock.now();
        let inner = QueryEffortInner {
            window_size,
            bin_size,
            effort: HashMap::new(),
            total: MovingStats::new(window_size, bin_size),
            clock,
            last_reading,
        };
        proof {
            assert(inner@.effort =~= Map::<u64, StatsView>::empty());
        }
        inner
    }

    /// Record `duration` of work on the query `shape_hash` at `now`.
    pub fn add_at(&mut self, now: u128, shape_hash: u64, duration: u128)
        requires
            old(self).wf(),
            old(self)@.can_add_at(now, shape_hash, duration),
        ensures
            final(self).wf(),
            final(self)@ == old(self)@.add_at(now, shape_hash, duration),
            final(self).last_reading() == old(self).last_reading(),
    {
        let ghost v0 = self@;
        let window_size = self.window_size;
        let bin_size = self.bin_size;
        let mut stats = match self.effort.remove(&shape_hash) {
            Some(stats) => stats,
            None => MovingStats::new(window_size, bin_size),
        };
        assert(stats@ == v0.stats_of(shape_hash));
        stats.add_at(now, duration);
        self.effort.insert(shape_hash, stats);
        self.total.add_at(now, duration);
        proof {
            assert(self@.effort =~= v0.add_at(now, shape_hash, duration).effort);
            assert(self.effort@.dom() =~= old(self).effort@.dom().insert(shape_hash));
            assert(self@.effort.dom() =~= self.effort@.dom());
            assert(old(self)@.effort.dom() =~= old(self).effort@.dom());
            assert forall|h: u64| #[trigger] self.effort@.contains_key(h) implies self.effort@[h].wf() by {
                if h != shape_hash {
                    assert(old(self).effort@.contains_key(h));
                }
            }
            assert(self@.effort.dom().finite());
            assert forall|h: u64| #[trigger] self@.effort.contains_key(h) implies {
                &&& self@.effort[h].wf()
                &&& self@.effort[h].window_size == self@.window_size
                &&& self@.effort[h].bin_size == self@.bin_size
            } by {
                if h != shape_hash {
                    assert(old(self)@.effort.contains_key(h));
                } else {
                    self.effort@[h].lemma_view_wf();
                }
            }
            self.total.lemma_view_wf();
            assert(self@.wf());
        }
    }

    /// Record `duration` of work on the query `shape_hash` at the current
    /// time.
    pub fn add(&mut self, shape_hash: u64, duration: u128)
        requires
            old(self).wf(),
            old(self)@.can_add(shape_hash, duration),
        ensures
            final(self).wf(),
            exists|t: u128|
                {
                    &&& CLOCK_HEADROOM <= t <= DURATION_MAX_NANOS
                    &&& old(self).last_reading() <= t
                    &&& final(self).last_reading() == t
                    &&& final(self)@ == #[trigger] old(self)@.add_at(t, shape_hash, duration)
                },
    {
        let reading = self.clock.now();
        let t = if reading >= self.last_reading {
            reading
        } else {
            self.last_reading
        };
        proof {
            lemma_effort_can_add_any_time(self@, t, shape_hash, duration);
        }
        self.add_at(t, shape_hash, duration);
        self.last_reading = t;
    }
}

/// A measurement that fits whatever the time fits at `now`.
proof fn lemma_effort_can_add_any_time(v: EffortView, now: u128, shape_hash: u64, duration: u128)
    requires
        v.wf(),
        v.can_add(shape_hash, duration),
    ensures
        v.can_add_at(now, shape_hash, duration),
{
    crate::stats::lemma_stats_can_add_any_time(v.stats_of(shape_hash), now, duration);
    crate::stats::lemma_stats_can_add_any_time(v.total, now, duration);
}

/// Without any measurement, the total effort is zero and no query has an
/// effort of its own.
pub proof fn law_no_measurement_no_effort(window_size: u128, bin_size: u128, shape_hash: u64)
    ensures
        EffortView::empty(window_size, bin_size).current_effort(shape_hash) == (None::<u128>, 0u128),
{
}

/// After work on `shape_hash` is recorded, the query has an effort of its
/// own, and the efforts of all other queries are as they were.
pub proof fn law_recorded_query_is_known(v: EffortView, now: u128, shape_hash: u64, duration: u128, other: u64)
    requires
        v.wf(),
        v.can_add_at(now, shape_hash, duration),
        other != shape_hash,
    ensures
        v.add_at(now, shape_hash, duration).current_effort(shape_hash).0 is Some,
        v.add_at(now, shape_hash, duration).current_effort(other).0 == v.current_effort(other).0,
{
}

/// A measurement at a time when no bin of the total has expired raises
/// the total effort by its duration.
pub proof fn law_total_effort_grows(v: EffortView, now: u128, shape_hash: u64, duration: u128)
    requires
        v.wf(),
        v.can_add_at(now, shape_hash, duration),
        forall|i: int|
            0 <= i < v.total.bins.len() ==> crate::clock::spec_elapsed(now, #[trigger] v.total.bins[i].start)
                < v.window_size,
    ensures
        v.add_at(now, shape_hash, duration).current_effort(shape_hash).1 == v.current_effort(shape_hash).1
            + duration,
{
    crate::stats::law_add_counts_measurement(v.total, now, duration);
    crate::stats::lemma_add_at_wf(v.total, now, duration);
}

/// Work recorded at `t1`, when the total had no bin started later, leaves
/// the total effort once work is recorded a window or more later: every
/// bin of the total then started after `t1`.
pub proof fn law_old_work_leaves_total(
    v: EffortView,
    t1: u128,
    h1: u64,
    d1: u128,
    t2: u128,
    h2: u64,
    d2: u128,
)
    requires
        v.wf(),
        forall|i: int| 0 <= i < v.total.bins.len() ==> (#[trigger] v.total.bins[i]).start <= t1,
        v.can_add_at(t1, h1, d1),
        v.add_at(t1, h1, d1).can_add_at(t2, h2, d2),
        t2 >= t1 + v.window_size,
    ensures
        forall|i: int|
            0 <= i < v.add_at(t1, h1, d1).add_at(t2, h2, d2).total.bins.len() ==> (
            #[trigger] v.add_at(t1, h1, d1).add_at(t2, h2, d2).total.bins[i]).start > t1,
{
    crate::stats::law_measurements_leave_after_window(v.total, t1, d1, t2, d2);
}

/// Statistics about the effort spent on queries over a time window.
pub struct QueryEffort {
    inner: QueryEffortInner,
}

impl View for QueryEffort {
    type V = EffortView;

    closed spec fn view(&self) -> EffortView {
        self.inner@
    }
}

impl QueryEffort {
    /// The statistics are well formed.
    pub closed spec fn wf(&self) -> bool {
        self.inner.wf()
    }

    /// Well-formed statistics have a well-formed view.
    pub proof fn lemma_view_wf(&self)
        requires
            self.wf(),
        ensures
            self@.wf(),
    {
    }

    /// The latest time work was recorded at by `add`, or the time the
    /// statistics were made.
    pub closed spec fn last_reading(&self) -> u128 {
        self.inner.last_reading()
    }

    /// Empty effort statistics over a window of `window_size` with bins of
    /// `bin_size` (both in nanoseconds).
    pub fn new(window_size: u128, bin_size: u128) -> (effort: QueryEffort)
        requires
            StatsView::valid_sizes(window_size, bin_size),
        ensures
            effort.wf(),
            effort@ == EffortView::empty(window_size, bin_size),
    {
        QueryEffort { inner: QueryEffortInner::new(window_size, bin_size) }
    }

    /// Whether `add(shape_hash, duration)` fits whatever the time.
    pub fn can_add(&self, shape_hash: u64, duration: u128) -> (ok: bool)
        requires
            self.wf(),
        ensures
            ok == self@.can_add(shape_hash, duration),
    {
        let ok_query = match self.inner.effort.get(&shape_hash) {
            Some(stats) => stats.can_add(duration),
            None => duration <= DURATION_MAX_NANOS,
        };
        ok_query && self.inner.total.can_add(duration)
    }

    /// Record `duration` of work on the query `shape_hash` at the current
    /// time, and return the average over all queries in whole
    /// milliseconds (zero without measurements), the value for the effort
    /// gauge.
    pub fn add(&mut self, shape_hash: u64, duration: u128) -> (gauge: u128)
        requires
            old(self).wf(),
            old(self)@.can_add(shape_hash, duration),
        ensures
            final(self).wf(),
            exists|t: u128|
                {
                    &&& CLOCK_HEADROOM <= t <= DURATION_MAX_NANOS
                    &&& old(self).last_reading() <= t
                    &&& final(self).last_reading() == t
                    &&& final(self)@ == #[trigger] old(self)@.add_at(t, shape_hash, duration)
                },
            gauge == final(self)@.average_millis(),
    {
        self.inner.add(shape_hash, duration);
        self.average_millis()
    }

    /// Record `duration` of work on the query `shape_hash` at `now`, and
    /// return the value for the effort gauge as `add` does.
    pub fn add_at(&mut self, now: u128, shape_hash: u64, duration: u128) -> (gauge: u128)
        requires
            old(self).wf(),
            old(self)@.can_add_at(now, shape_hash, duration),
        ensures
            final(self).wf(),
            final(self)@ == old(self)@.add_at(now, shape_hash, duration),
            final(self).last_reading() == old(self).last_reading(),
            gauge == final(self)@.average_millis(),
    {
        self.inner.add_at(now, shape_hash, duration);
        self.average_millis()
    }

    /// The average over all queries in whole milliseconds, zero when there
    /// is no measurement in the window.
    fn average_millis(&self) -> (ms: u128)
        requires
            self.wf(),
        ensures
            ms == self@.average_millis(),
    {
        match self.inner.total.average() {
            Some(avg) => avg / NANOS_PER_MILLI,
            None => 0,
        }
    }

    /// Return what we know right now about the effort for the query
    /// `shape_hash`, and about the total effort. If we have no
    /// measurements at all, the total effort is zero. If we have no data
    /// for the particular query, the effort for the query is `None`.
    pub fn current_effort(&self, shape_hash: u64) -> (res: (Option<u128>, u128))
        requires
            self.wf(),
        ensures
            res == self@.current_effort(shape_hash),
    {
        let total_effort = self.inner.total.duration();
        let query_effort = match self.inner.effort.get(&shape_hash) {
            Some(stats) => Some(stats.duration()),
            None => None,
        };
        (query_effort, total_effort)
    }
}

} // verus!
