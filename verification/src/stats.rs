//! Moving statistics over a time window.
//!
//! Measurements are kept in bins of `bin_size` each; a bin is dropped once
//! it started `window_size` or more before the latest measurement. The
//! running total over the kept bins gives the average and the summed
//! duration over the window.

use std::collections::VecDeque;
use vstd::prelude::*;

use crate::clock::{elapsed, spec_elapsed, Clock, CLOCK_HEADROOM, DURATION_MAX_NANOS, NANOS_PER_MILLI};

verus! {

/// One bin of durations: it starts at `start`, and `count` measurements
/// whose durations add up to `duration` (nanoseconds) were put into it.
#[derive(Clone, Copy, Debug)]
pub struct Bin {
    pub start: u128,
    pub count: u32,
    pub duration: u128,
}

/// The number of measurements in `bins`.
pub open spec fn sum_count(bins: Seq<Bin>) -> nat
    decreases bins.len(),
{
    if bins.len() == 0 {
        0
    } else {
        sum_count(bins.drop_last()) + bins.last().count as nat
    }
}

/// The summed duration of the measurements in `bins`.
pub open spec fn sum_duration(bins: Seq<Bin>) -> nat
    decreases bins.len(),
{
    if bins.len() == 0 {
        0
    } else {
        sum_duration(bins.drop_last()) + bins.last().duration as nat
    }
}

/// The average of `duration` over `count` measurements, rounded down, as
/// `Duration::checked_div` gives it: none when there are no measurements.
pub open spec fn spec_average(duration: u128, count: u32) -> Option<u128> {
    if count == 0 {
        None
    } else {
        Some((duration / (count as u128)) as u128)
    }
}

impl Bin {
    /// An empty bin that starts at `start`.
    pub fn new(start: u128) -> (bin: Bin)
        ensures
            bin == (Bin { start, count: 0, duration: 0 }),
    {
        Bin { start, count: 0, duration: 0 }
    }

    /// Add one measurement of `duration` to the bin.
    pub fn add(&mut self, duration: u128)
        requires
            old(self).count < u32::MAX,
            old(self).duration + duration <= DURATION_MAX_NANOS,
        ensures
            *final(self) == (Bin {
                start: old(self).start,
                count: (old(self).count + 1) as u32,
                duration: (old(self).duration + duration) as u128,
            }),
    {
        self.count = self.count + 1;
        self.duration = self.duration + duration;
    }

    /// Take the measurements of `other` out of this bin.
    pub fn remove(&mut self, other: &Bin)
        requires
            other.count <= old(self).count,
            other.duration <= old(self).duration,
        ensures
            *final(self) == (Bin {
                start: old(self).start,
                count: (old(self).count - other.count) as u32,
                duration: (old(self).duration - other.duration) as u128,
            }),
    {
        self.count = self.count - other.count;
        self.duration = self.duration - other.duration;
    }

    /// The average of the measurements in the bin, none when it is empty.
    pub fn average(&self) -> (avg: Option<u128>)
        ensures
            avg == spec_average(self.duration, self.count),
    {
        if self.count == 0 {
            None
        } else {
            Some(self.duration / (self.count as u128))
        }
    }
}

/// What a `MovingStats` holds: its window and bin sizes and its bins, the
/// oldest first.
pub struct StatsView {
    pub window_size: u128,
    pub bin_size: u128,
    pub bins: Seq<Bin>,
}

impl StatsView {
    /// The number of measurements within the window.
    pub open spec fn count(self) -> nat {
        sum_count(self.bins)
    }

    /// The summed duration of the measurements within the window.
    pub open spec fn duration(self) -> nat {
        sum_duration(self.bins)
    }

    /// The sizes that `MovingStats::new` accepts: the bins are at least a
    /// millisecond and shorter than the window, and the bin size in
    /// milliseconds, cut to a `usize`, is not zero.
    pub open spec fn valid_sizes(window_size: u128, bin_size: u128) -> bool {
        &&& bin_size >= NANOS_PER_MILLI
        &&& window_size > bin_size
        &&& (bin_size / NANOS_PER_MILLI) as usize != 0
    }

    /// Sizes as `new` made them, bins that start in increasing order, and
    /// totals that fit their types.
    pub open spec fn wf(self) -> bool {
        &&& StatsView::valid_sizes(self.window_size, self.bin_size)
        &&& forall|i: int, j: int|
            0 <= i < j < self.bins.len() ==> (#[trigger] self.bins[i]).start < (#[trigger] self.bins[j]).start
        &&& self.count() <= u32::MAX
        &&& self.duration() <= DURATION_MAX_NANOS
    }

    /// The stats of `new(window_size, bin_size)`.
    pub open spec fn empty(window_size: u128, bin_size: u128) -> StatsView {
        StatsView { window_size, bin_size, bins: Seq::empty() }
    }

    /// Whether a measurement at `now` goes into a new bin: when there is no
    /// bin yet, or the latest bin started `bin_size` or more before `now`.
    pub open spec fn needs_new_bin(self, now: u128) -> bool {
        self.bins.len() == 0 || spec_elapsed(now, self.bins.last().start) >= self.bin_size
    }

    /// The bins, with an empty bin that starts at `now` added when needed.
    pub open spec fn bins_for(self, now: u128) -> Seq<Bin> {
        if self.needs_new_bin(now) {
            self.bins.push(Bin { start: now, count: 0, duration: 0 })
        } else {
            self.bins
        }
    }

    /// The bins that are left at `now` once those that started
    /// `window_size` or more before `now` are dropped from the front.
    pub open spec fn kept_bins(self, now: u128) -> Seq<Bin> {
        let bins = self.bins_for(now);
        bins.skip(expired_count(bins, now, self.window_size) as int)
    }

    /// Whether a measurement of `duration` at `now` fits: the count and the
    /// summed duration of the window it ends up in fit their types.
    pub open spec fn can_add_at(self, now: u128, duration: u128) -> bool {
        let kept = self.kept_bins(now);
        &&& sum_count(kept) < u32::MAX
        &&& sum_duration(kept) + duration <= DURATION_MAX_NANOS
    }

    /// Whether a measurement of `duration` fits whatever the time: the
    /// window as it stands has room for it.
    pub open spec fn can_add(self, duration: u128) -> bool {
        &&& self.count() < u32::MAX
        &&& self.duration() + duration <= DURATION_MAX_NANOS
    }

    /// The stats after a measurement of `duration` at `now`: it goes into
    /// the latest bin, after a new bin was started if needed and expired
    /// bins were dropped.
    pub open spec fn add_at(self, now: u128, duration: u128) -> StatsView {
        let kept = self.kept_bins(now);
        let last = kept.last();
        StatsView {
            window_size: self.window_size,
            bin_size: self.bin_size,
            bins: kept.update(
                kept.len() - 1,
                Bin {
                    start: last.start,
                    count: (last.count + 1) as u32,
                    duration: (last.duration + duration) as u128,
                },
            ),
        }
    }
}

/// How many bins at the front of `bins` started `window_size` or more
/// before `now`.
pub open spec fn expired_count(bins: Seq<Bin>, now: u128, window_size: u128) -> nat
    decreases bins.len(),
{
    if bins.len() > 0 && spec_elapsed(now, bins[0].start) >= window_size {
        1 + expired_count(bins.drop_first(), now, window_size)
    } else {
        0
    }
}

/// Collect statistics over a moving window of size `window_size`. To keep
/// the memory needed for the values inside the window bounded, values are
/// put into bins of size `bin_size`.
pub struct MovingStats {
    window_size: u128,
    bin_size: u128,
    /// The most recent measurements are at the back, the oldest at the front.
    bins: VecDeque<Bin>,
    /// The sum over the bins; its `start` is never read.
    total: Bin,
    /// The clock that `add` reads.
    clock: Clock,
    /// The latest time a measurement was taken at by `add` (at first, the
    /// time the stats were made). The clock is monotonic, so its readings
    /// never fall below this; `add` holds to that, and so never records a
    /// measurement at an earlier time than the one before.
    last_reading: u128,
}

impl View for MovingStats {
    type V = StatsView;

    closed spec fn view(&self) -> StatsView {
        StatsView { window_size: self.window_size, bin_size: self.bin_size, bins: self.bins@ }
    }
}

impl MovingStats {
    /// The stats are well formed, and the running total is the sum over
    /// the bins.
    pub closed spec fn wf(&self) -> bool {
        &&& self@.wf()
        &&& self.total.count == self@.count()
        &&& self.total.duration == self@.duration()
        &&& CLOCK_HEADROOM <= self.last_reading <= DURATION_MAX_NANOS
    }

    /// The latest time a measurement was taken at by `add`, or the time
    /// the stats were made.
    pub closed spec fn last_reading(&self) -> u128 {
        self.last_reading
    }

    /// Well-formed stats have a well-formed view.
    pub proof fn lemma_view_wf(&self)
        requires
            self.wf(),
        ensures
            self@.wf(),
    {
    }

    /// Track moving statistics over a window of `window_size` and keep the
    /// measurements in bins of `bin_size` each (both in nanoseconds).
    ///
    /// Both sizes must be at least a millisecond, with `bin_size` below
    /// `window_size`; the number of bins that the buffer is sized for is the
    /// window in milliseconds divided by the bin size in milliseconds.
    pub fn new(window_size: u128, bin_size: u128) -> (stats: MovingStats)
        requires
            StatsView::valid_sizes(window_size, bin_size),
        ensures
            stats.wf(),
            stats@ == StatsView::empty(window_size, bin_size),
            CLOCK_HEADROOM <= stats.last_reading() <= DURATION_MAX_NANOS,
    {
        let window_ms = window_size / NANOS_PER_MILLI;
        let bin_ms = bin_size / NANOS_PER_MILLI;
        let window_bins: usize = #[verifier::truncate] (window_ms as usize);
        let bin_count: usize = #[verifier::truncate] (bin_ms as usize);
        let capacity = window_bins / bin_count;
        let clock = Clock::start();
        let last_reading = clock.now();
        MovingStats {
            window_size,
            bin_size,
            bins: VecDeque::with_capacity(capacity),
            total: Bin::new(0),
            clock,
            last_reading,
        }
    }

    /// The window size, in nanoseconds.
    pub fn window_size(&self) -> (w: u128)
        ensures
            w == self@.window_size,
    {
        self.window_size
    }

    /// The bin size, in nanoseconds.
    pub fn bin_size(&self) -> (b: u128)
        ensures
            b == self@.bin_size,
    {
        self.bin_size
    }

    /// The average over the current window, none when it holds no
    /// measurement.
    pub fn average(&self) -> (avg: Option<u128>)
        requires
            self.wf(),
        ensures
            avg == spec_average(self@.duration() as u128, self@.count() as u32),
    {
        self.total.average()
    }

    /// The summed duration of the measurements in the current window.
    pub fn duration(&self) -> (d: u128)
        requires
            self.wf(),
        ensures
            d == self@.duration(),
    {
        self.total.duration
    }

    /// Whether `count() < u32::MAX` and `duration() + duration` fits in a
    /// `Duration`, so that `add` cannot overflow whatever the time.
    pub fn can_add(&self, duration: u128) -> (ok: bool)
        requires
            self.wf(),
        ensures
            ok == self@.can_add(duration),
    {
        self.total.count < u32::MAX && duration <= DURATION_MAX_NANOS - self.total.duration
    }

    /// Add a measurement of `duration` at the current time.
    pub fn add(&mut self, duration: u128)
        requires
            old(self).wf(),
            old(self)@.can_add(duration),
        ensures
            final(self).wf(),
            exists|t: u128|
                {
                    &&& CLOCK_HEADROOM <= t <= DURATION_MAX_NANOS
                    &&& old(self).last_reading() <= t
                    &&& final(self).last_reading() == t
                    &&& final(self)@ == #[trigger] old(self)@.add_at(t, duration)
                },
    {
        let reading = self.clock.now();
        let t = if reading >= self.last_reading {
            reading
        } else {
            self.last_reading
        };
        proof {
            lemma_stats_can_add_any_time(self@, t, duration);
        }
        self.add_at(t, duration);
        self.last_reading = t;
    }

    /// Add a measurement of `duration` taken at `now`. It goes into the
    /// latest bin, or into a new bin when the latest started `bin_size` or
    /// more before `now`; bins that started `window_size` or more before
    /// `now` are dropped.
    pub fn add_at(&mut self, now: u128, duration: u128)
        requires
            old(self).wf(),
            old(self)@.can_add_at(now, duration),
        ensures
            final(self).wf(),
            final(self)@ == old(self)@.add_at(now, duration),
            final(self).last_reading() == old(self).last_reading(),
    {
        let ghost s0 = self@;
        let len = self.bins.len();
        let need_new_bin = len == 0 || elapsed(now, self.bins[len - 1].start) >= self.bin_size;
        if need_new_bin {
            self.bins.push_back(Bin::new(now));
        }
        proof {
            assert(self.bins@ == s0.bins_for(now));
            lemma_bins_for_wf(s0, now);
        }
        self.expire_bins(now);
        proof {
            assert(self.bins@ == s0.kept_bins(now));
            lemma_kept_not_empty(s0, now);
        }
        let mut bin = self.bins.pop_back().unwrap();
        let ghost kept = s0.kept_bins(now);
        proof {
            assert(kept.drop_last() == self.bins@);
            assert(kept.last() == bin);
        }
        bin.add(duration);
        self.bins.push_back(bin);
        self.total.add(duration);
        proof {
            let after = s0.add_at(now, duration);
            assert(self.bins@ =~= after.bins);
            assert(after.bins.drop_last() =~= kept.drop_last());
            lemma_add_at_wf(s0, now, duration);
        }
    }

    /// Drop the bins at the front that started `window_size` or more
    /// before `now`, and take them out of the running total.
    fn expire_bins(&mut self, now: u128)
        requires
            old(self).total.count == old(self)@.count(),
            old(self).total.duration == old(self)@.duration(),
        ensures
            final(self)@ == (StatsView {
                bins: old(self)@.bins.skip(
                    expired_count(old(self)@.bins, now, old(self)@.window_size) as int,
                ),
                ..old(self)@
            }),
            final(self).total.count == final(self)@.count(),
            final(self).total.duration == final(self)@.duration(),
            final(self).last_reading == old(self).last_reading,
    {
        let ghost orig = self.bins@;
        let ghost window = self.window_size;
        proof {
            assert(orig.skip(0) =~= orig);
        }
        while self.bins.len() > 0 && elapsed(now, self.bins[0].start) >= self.window_size
            invariant
                self.window_size == window,
                self.bin_size == old(self).bin_size,
                self.last_reading == old(self).last_reading,
                exists|k: int|
                    0 <= k <= expired_count(orig, now, window) && #[trigger] orig.skip(k) == self.bins@,
                self.total.count == sum_count(self.bins@),
                self.total.duration == sum_duration(self.bins@),
            decreases self.bins@.len(),
        {
            let ghost before = self.bins@;
            let ghost k = choose|k: int|
                0 <= k <= expired_count(orig, now, window) && #[trigger] orig.skip(k) == before;
            proof {
                lemma_expired_skip(orig, now, window, k);
                lemma_expired_len(orig, now, window);
                lemma_sum_front(before);
            }
            let existing = self.bins.pop_front().unwrap();
            proof {
                assert(self.bins@ =~= before.drop_first());
                assert(orig.skip(k + 1) =~= before.drop_first());
            }
            self.total.remove(&existing);
        }
        proof {
            let k = choose|k: int|
                0 <= k <= expired_count(orig, now, window) && #[trigger] orig.skip(k) == self.bins@;
            lemma_expired_skip(orig, now, window, k);
        }
    }
}

/// Splitting off the first bin splits off its count and duration.
pub proof fn lemma_sum_front(bins: Seq<Bin>)
    requires
        bins.len() > 0,
    ensures
        sum_count(bins) == bins[0].count + sum_count(bins.drop_first()),
        sum_duration(bins) == bins[0].duration + sum_duration(bins.drop_first()),
    decreases bins.len(),
{
    if bins.len() > 1 {
        lemma_sum_front(bins.drop_last());
        assert(bins.drop_last().drop_first() =~= bins.drop_first().drop_last());
    } else {
        assert(bins.drop_first() =~= Seq::<Bin>::empty());
        assert(bins.drop_last() =~= Seq::<Bin>::empty());
    }
}

/// Dropping bins from the front does not raise the sums.
pub proof fn lemma_sum_skip(bins: Seq<Bin>, k: int)
    requires
        0 <= k <= bins.len(),
    ensures
        sum_count(bins.skip(k)) <= sum_count(bins),
        sum_duration(bins.skip(k)) <= sum_duration(bins),
    decreases k,
{
    if k == 0 {
        assert(bins.skip(0) =~= bins);
    } else {
        lemma_sum_front(bins);
        lemma_sum_skip(bins.drop_first(), k - 1);
        assert(bins.drop_first().skip(k - 1) =~= bins.skip(k));
    }
}

/// The expired bins at the front of `bins.skip(k)` are those of `bins` past
/// the first `k`, as long as those `k` were expired.
pub proof fn lemma_expired_skip(bins: Seq<Bin>, now: u128, window: u128, k: int)
    requires
        0 <= k <= expired_count(bins, now, window),
    ensures
        expired_count(bins.skip(k), now, window) == expired_count(bins, now, window) - k,
        k < expired_count(bins, now, window) ==> bins.skip(k).len() > 0
            && spec_elapsed(now, bins.skip(k)[0].start) >= window,
        k == expired_count(bins, now, window) ==> bins.skip(k).len() == 0
            || spec_elapsed(now, bins.skip(k)[0].start) < window,
    decreases k,
{
    lemma_expired_len(bins, now, window);
    if k == 0 {
        assert(bins.skip(0) =~= bins);
    } else {
        lemma_expired_skip(bins.drop_first(), now, window, k - 1);
        assert(bins.drop_first().skip(k - 1) =~= bins.skip(k));
    }
}

/// No more bins expire than there are.
pub proof fn lemma_expired_len(bins: Seq<Bin>, now: u128, window: u128)
    ensures
        expired_count(bins, now, window) <= bins.len(),
    decreases bins.len(),
{
    if bins.len() > 0 && spec_elapsed(now, bins[0].start) >= window {
        lemma_expired_len(bins.drop_first(), now, window);
    }
}

/// Every bin that `expired_count` counts lies before a bin that is not
/// expired.
proof fn lemma_expired_before(bins: Seq<Bin>, now: u128, window: u128, i: int)
    requires
        0 <= i < bins.len(),
        spec_elapsed(now, bins[i].start) < window,
    ensures
        expired_count(bins, now, window) <= i,
    decreases i,
{
    if i > 0 && spec_elapsed(now, bins[0].start) >= window {
        lemma_expired_before(bins.drop_first(), now, window, i - 1);
    }
}

/// After a measurement at `now`, the stats hold only bins that started
/// less than `window_size` before `now`: older measurements are forgotten.
pub proof fn law_window_keeps_only_recent(s: StatsView, now: u128, duration: u128)
    requires
        s.wf(),
        s.can_add_at(now, duration),
    ensures
        forall|i: int|
            0 <= i < s.add_at(now, duration).bins.len() ==> spec_elapsed(
                now,
                #[trigger] s.add_at(now, duration).bins[i].start,
            ) < s.window_size,
{
    let b = s.bins_for(now);
    let n = expired_count(b, now, s.window_size);
    let kept = s.kept_bins(now);
    let after = s.add_at(now, duration);
    lemma_bins_for_wf(s, now);
    lemma_kept_not_empty(s, now);
    lemma_expired_skip(b, now, s.window_size, n as int);
    assert forall|i: int| 0 <= i < after.bins.len() implies spec_elapsed(
        now,
        #[trigger] after.bins[i].start,
    ) < s.window_size by {
        assert(after.bins[i].start == kept[i].start);
        assert(kept[i] == b[i + n]);
        assert(kept[0] == b[n as int]);
        if i > 0 {
            assert(b[n as int].start < b[i + n].start);
        }
    }
}

/// A measurement taken at `t1`, when no bin started later, leaves the
/// stats once a measurement is taken a window or more later: it goes into
/// a bin that started at or before `t1`, and after the measurement at `t2`
/// every bin started after `t1`.
pub proof fn law_measurements_leave_after_window(
    s: StatsView,
    t1: u128,
    d1: u128,
    t2: u128,
    d2: u128,
)
    requires
        s.wf(),
        forall|i: int| 0 <= i < s.bins.len() ==> (#[trigger] s.bins[i]).start <= t1,
        s.can_add_at(t1, d1),
        s.add_at(t1, d1).can_add_at(t2, d2),
        t2 >= t1 + s.window_size,
    ensures
        s.add_at(t1, d1).bins.last().start <= t1,
        forall|i: int|
            0 <= i < s.add_at(t1, d1).add_at(t2, d2).bins.len() ==> (#[trigger] s.add_at(t1, d1).add_at(
                t2,
                d2,
            ).bins[i]).start > t1,
{
    let s1 = s.add_at(t1, d1);
    let b = s.bins_for(t1);
    let n = expired_count(b, t1, s.window_size);
    lemma_bins_for_wf(s, t1);
    lemma_kept_not_empty(s, t1);
    lemma_add_at_wf(s, t1, d1);
    assert(s1.bins.last().start == b.last().start);
    law_window_keeps_only_recent(s1, t2, d2);
}

/// When no bin has expired at `now`, a measurement of `duration` raises
/// the count by one and the summed duration by `duration`.
pub proof fn law_add_counts_measurement(s: StatsView, now: u128, duration: u128)
    requires
        s.wf(),
        s.can_add_at(now, duration),
        forall|i: int| 0 <= i < s.bins.len() ==> spec_elapsed(now, #[trigger] s.bins[i].start) < s.window_size,
    ensures
        s.add_at(now, duration).count() == s.count() + 1,
        s.add_at(now, duration).duration() == s.duration() + duration,
{
    let b = s.bins_for(now);
    lemma_bins_for_wf(s, now);
    lemma_add_at_wf(s, now, duration);
    if s.bins.len() > 0 {
        assert(b[0] == s.bins[0]);
    }
    assert(expired_count(b, now, s.window_size) == 0);
    assert(b.skip(0) =~= b);
}

/// A new bin keeps the starts increasing and adds nothing to the sums.
proof fn lemma_bins_for_wf(s: StatsView, now: u128)
    requires
        s.wf(),
    ensures
        forall|i: int, j: int|
            0 <= i < j < s.bins_for(now).len() ==> (#[trigger] s.bins_for(now)[i]).start
                < (#[trigger] s.bins_for(now)[j]).start,
        sum_count(s.bins_for(now)) == s.count(),
        sum_duration(s.bins_for(now)) == s.duration(),
        s.bins_for(now).len() > 0,
        spec_elapsed(now, s.bins_for(now).last().start) < s.window_size,
{
    let b = s.bins_for(now);
    if s.needs_new_bin(now) {
        assert(b.drop_last() =~= s.bins);
    }
}

/// The newest bin is never dropped.
proof fn lemma_kept_not_empty(s: StatsView, now: u128)
    requires
        s.wf(),
    ensures
        s.kept_bins(now).len() > 0,
        expired_count(s.bins_for(now), now, s.window_size) < s.bins_for(now).len(),
{
    let b = s.bins_for(now);
    lemma_bins_for_wf(s, now);
    lemma_expired_before(b, now, s.window_size, b.len() - 1);
}

/// A measurement that fits whatever the time fits at `now`.
pub proof fn lemma_stats_can_add_any_time(s: StatsView, now: u128, duration: u128)
    requires
        s.wf(),
        s.can_add(duration),
    ensures
        s.can_add_at(now, duration),
{
    let b = s.bins_for(now);
    lemma_bins_for_wf(s, now);
    lemma_kept_not_empty(s, now);
    lemma_sum_skip(b, expired_count(b, now, s.window_size) as int);
}

/// `add_at` keeps the stats well formed.
pub proof fn lemma_add_at_wf(s: StatsView, now: u128, duration: u128)
    requires
        s.wf(),
        s.can_add_at(now, duration),
    ensures
        s.add_at(now, duration).wf(),
        s.add_at(now, duration).count() == sum_count(s.kept_bins(now)) + 1,
        s.add_at(now, duration).duration() == sum_duration(s.kept_bins(now)) + duration,
{
    let b = s.bins_for(now);
    let n = expired_count(b, now, s.window_size);
    let kept = s.kept_bins(now);
    let after = s.add_at(now, duration);
    lemma_bins_for_wf(s, now);
    lemma_kept_not_empty(s, now);
    assert forall|i: int, j: int| 0 <= i < j < after.bins.len() implies (#[trigger] after.bins[i]).start
        < (#[trigger] after.bins[j]).start by {
        assert(after.bins[i].start == kept[i].start);
        assert(after.bins[j].start == kept[j].start);
        assert(kept[i] == b[i + n]);
        assert(kept[j] == b[j + n]);
    }
    assert(after.bins.drop_last() =~= kept.drop_last());
}

} // verus!
