//! Health diagnostics: circuit-breaker status rows and sliding-window latency averages.
use vstd::prelude::*;
use std::collections::VecDeque;
use std::time::Instant;
use crate::datasource::instant_now;

verus! {

broadcast use vstd::std_specs::vecdeque::group_vec_dequeue_axioms;

/// Status of one data source's circuit breaker.
#[derive(Debug)]
pub struct CircuitBreakerStatus {
    pub source_name: String,
    pub state: String,
    pub consecutive_failures: u32,
}

/// Number of samples a sliding window keeps.
pub const MAX_SAMPLES: usize = 100;

/// Sum of the samples.
pub open spec fn sum_of(s: Seq<u64>) -> int
    decreases s.len(),
{
    if s.len() == 0 {
        0
    } else {
        sum_of(s.drop_last()) + s.last()
    }
}

/// The window after recording `x`: appended, with the oldest sample dropped when the
/// window already holds `MAX_SAMPLES`.
pub open spec fn window_push(s: Seq<u64>, x: u64) -> Seq<u64> {
    if s.len() >= MAX_SAMPLES {
        s.drop_first().push(x)
    } else {
        s.push(x)
    }
}

/// The average of a window rounded down; 0 for an empty one.
pub open spec fn window_average(s: Seq<u64>) -> int {
    if s.len() == 0 {
        0
    } else {
        sum_of(s) / (s.len() as int)
    }
}

/// The last (at most) `MAX_SAMPLES` timings, oldest first.
pub struct SampleWindow {
    pub samples: VecDeque<u64>,
}

impl SampleWindow {
    /// At most `MAX_SAMPLES` samples are kept.
    pub open spec fn wf(&self) -> bool {
        self.samples@.len() <= MAX_SAMPLES
    }

    /// An empty window.
    pub fn new() -> (r: Self)
        ensures
            r.wf(),
            r.samples@.len() == 0,
    {
        SampleWindow { samples: VecDeque::with_capacity(MAX_SAMPLES) }
    }

    /// Adds a sample, dropping the oldest when the window is full.
    pub fn record(&mut self, elapsed_ms: u64)
        requires
            old(self).wf(),
        ensures
            final(self).wf(),
            final(self).samples@ == window_push(old(self).samples@, elapsed_ms),
    {
        if self.samples.len() >= MAX_SAMPLES {
            self.samples.pop_front();
        }
        self.samples.push_back(elapsed_ms);
    }

    /// The samples sum to at most `u64::MAX`.
    pub fn total_fits(&self) -> (r: bool)
        ensures
            r == (sum_of(self.samples@) <= u64::MAX),
    {
        let n = self.samples.len();
        let mut total: u64 = 0;
        let mut i: usize = 0;
        while i < n
            invariant
                n == self.samples@.len(),
                i <= n,
                total == sum_of(self.samples@.take(i as int)),
            decreases n - i,
        {
            proof {
                assert(self.samples@.take(i + 1).drop_last() =~= self.samples@.take(i as int));
            }
            match total.checked_add(self.samples[i]) {
                Some(t) => total = t,
                None => {
                    proof {
                        lemma_sum_prefix_bounded(self.samples@, i as int + 1);
                    }
                    return false;
                },
            }
            i += 1;
        }
        assert(self.samples@.take(n as int) =~= self.samples@);
        true
    }

    /// The average sample rounded down, 0 when the window is empty. The sum must fit in a
    /// `u64`.
    pub fn average(&self) -> (r: u64)
        requires
            sum_of(self.samples@) <= u64::MAX,
        ensures
            r == window_average(self.samples@),
    {
        let n = self.samples.len();
        if n == 0 {
            return 0;
        }
        let mut total: u64 = 0;
        let mut i: usize = 0;
        while i < n
            invariant
                n == self.samples@.len(),
                i <= n,
                total == sum_of(self.samples@.take(i as int)),
                sum_of(self.samples@) <= u64::MAX,
            decreases n - i,
        {
            proof {
                lemma_sum_prefix_bounded(self.samples@, i as int + 1);
                assert(self.samples@.take(i + 1).drop_last() =~= self.samples@.take(i as int));
            }
            total = total + self.samples[i];
            i += 1;
        }
        assert(self.samples@.take(n as int) =~= self.samples@);
        total / (n as u64)
    }
}

proof fn lemma_sum_prefix_bounded(s: Seq<u64>, k: int)
    requires
        0 <= k <= s.len(),
    ensures
        sum_of(s.take(k)) <= sum_of(s),
    decreases s.len() - k,
{
    if k < s.len() {
        lemma_sum_prefix_bounded(s, k + 1);
        assert(s.take(k + 1).drop_last() =~= s.take(k));
    } else {
        assert(s.take(k) =~= s);
    }
}

/// Collects refresh and event-push timings and the latest circuit-breaker statuses.
pub struct HealthCollector {
    /// When the collector (and the application) started.
    pub start_time: Instant,
    refresh_times: SampleWindow,
    last_refresh_ms: u64,
    emit_times: SampleWindow,
    cached_circuit_breakers: Vec<CircuitBreakerStatus>,
}

impl HealthCollector {
    /// The recent refresh timings, oldest first.
    pub closed spec fn refresh_samples(&self) -> Seq<u64> {
        self.refresh_times.samples@
    }

    /// The recent event-push timings, oldest first.
    pub closed spec fn emit_samples(&self) -> Seq<u64> {
        self.emit_times.samples@
    }

    /// The last refresh timing.
    pub closed spec fn last_refresh(&self) -> u64 {
        self.last_refresh_ms
    }

    /// The cached circuit-breaker statuses.
    pub closed spec fn breakers(&self) -> Seq<CircuitBreakerStatus> {
        self.cached_circuit_breakers@
    }

    /// Both windows hold at most `MAX_SAMPLES` timings.
    pub closed spec fn wf(&self) -> bool {
        self.refresh_times.wf() && self.emit_times.wf()
    }

    /// A collector started now, with no timings and no statuses.
    pub fn new() -> (r: Self)
        ensures
            r.wf(),
            r.refresh_samples().len() == 0,
            r.emit_samples().len() == 0,
            r.last_refresh() == 0,
            r.breakers().len() == 0,
    {
        HealthCollector {
            start_time: instant_now(),
            refresh_times: SampleWindow::new(),
            last_refresh_ms: 0,
            emit_times: SampleWindow::new(),
            cached_circuit_breakers: Vec::new(),
        }
    }

    /// Records a refresh timing.
    pub fn record_refresh(&mut self, elapsed_ms: u64)
        requires
            old(self).wf(),
        ensures
            final(self).wf(),
            final(self).last_refresh() == elapsed_ms,
            final(self).refresh_samples() == window_push(old(self).refresh_samples(), elapsed_ms),
            final(self).emit_samples() == old(self).emit_samples(),
            final(self).breakers() == old(self).breakers(),
    {
        self.last_refresh_ms = elapsed_ms;
        self.refresh_times.record(elapsed_ms);
    }

    /// Records an event-push timing.
    pub fn record_emit(&mut self, elapsed_ms: u64)
        requires
            old(self).wf(),
        ensures
            final(self).wf(),
            final(self).emit_samples() == window_push(old(self).emit_samples(), elapsed_ms),
            final(self).refresh_samples() == old(self).refresh_samples(),
            final(self).last_refresh() == old(self).last_refresh(),
            final(self).breakers() == old(self).breakers(),
    {
        self.emit_times.record(elapsed_ms);
    }

    /// Replaces the cached circuit-breaker statuses.
    pub fn update_circuit_breakers(&mut self, status: Vec<CircuitBreakerStatus>)
        requires
            old(self).wf(),
        ensures
            final(self).wf(),
            final(self).breakers() == status@,
            final(self).refresh_samples() == old(self).refresh_samples(),
            final(self).emit_samples() == old(self).emit_samples(),
            final(self).last_refresh() == old(self).last_refresh(),
    {
        self.cached_circuit_breakers = status;
    }

    /// The cached circuit-breaker statuses.
    pub fn circuit_breakers(&self) -> (r: &Vec<CircuitBreakerStatus>)
        ensures
            r@ == self.breakers(),
    {
        &self.cached_circuit_breakers
    }

    /// The last refresh timing.
    pub fn last_refresh_ms(&self) -> (r: u64)
        ensures
            r == self.last_refresh(),
    {
        self.last_refresh_ms
    }

    /// The recent refresh timings sum to at most `u64::MAX`, so they can be averaged.
    pub fn refresh_total_fits(&self) -> (r: bool)
        ensures
            r == (sum_of(self.refresh_samples()) <= u64::MAX),
    {
        self.refresh_times.total_fits()
    }

    /// The recent event-push timings sum to at most `u64::MAX`, so they can be averaged.
    pub fn emit_total_fits(&self) -> (r: bool)
        ensures
            r == (sum_of(self.emit_samples()) <= u64::MAX),
    {
        self.emit_times.total_fits()
    }

    /// The average recent refresh timing, rounded down (0 with none). The timings' sum must
    /// fit a `u64`.
    pub fn avg_refresh_ms(&self) -> (r: u64)
        requires
            sum_of(self.refresh_samples()) <= u64::MAX,
        ensures
            r == window_average(self.refresh_samples()),
    {
        self.refresh_times.average()
    }

    /// The average recent event-push timing, rounded down (0 with none). The timings' sum
    /// must fit a `u64`.
    pub fn avg_emit_ms(&self) -> (r: u64)
        requires
            sum_of(self.emit_samples()) <= u64::MAX,
        ensures
            r == window_average(self.emit_samples()),
    {
        self.emit_times.average()
    }
}

/// Recording keeps a window within `MAX_SAMPLES` and puts the new timing last.
pub proof fn lemma_window_push_bounded(s: Seq<u64>, x: u64)
    requires
        s.len() <= MAX_SAMPLES,
    ensures
        window_push(s, x).len() <= MAX_SAMPLES,
        window_push(s, x).last() == x,
        s.len() < MAX_SAMPLES ==> window_push(s, x).len() == s.len() + 1,
{
}

} // verus!
