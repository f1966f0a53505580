//! Circuit breaker protecting each market data source.
use vstd::prelude::*;
use std::time::{Duration, Instant};

verus! {

#[verifier::external_type_specification]
#[verifier::external_body]
pub struct ExInstant(Instant);

/// The current instant (`Instant::now`). Nothing is promised of the clock's value.
#[verifier::external_body]
pub(crate) fn instant_now() -> Instant {
    Instant::now()
}

/// The time passed since `t` (`Instant::elapsed`). It depends on the clock.
#[verifier::external_body]
fn instant_elapsed(t: &Instant) -> Duration {
    t.elapsed()
}

/// The total number of nanoseconds in a duration, as `Duration::as_nanos` returns it.
pub uninterp spec fn duration_nanos(d: Duration) -> u128;

/// `Duration::as_nanos`: the duration's total length in nanoseconds, a function of the
/// duration alone.
#[verifier::external_body]
fn duration_as_nanos(d: &Duration) -> (r: u128)
    ensures
        r == duration_nanos(*d),
{
    d.as_nanos()
}

/// State of a circuit breaker.
#[derive(Debug, Clone, Copy, PartialEq, Eq, Structural)]
pub enum CircuitState {
    Closed,
    Open,
    HalfOpen,
}

/// Circuit breaker: opens after `threshold` consecutive failures and lets a trial request
/// through (half-open) once `reset_timeout` has passed since the last failure.
pub struct CircuitBreaker {
    pub state: CircuitState,
    pub failure_count: u32,
    pub threshold: u32,
    pub reset_timeout_nanos: u128,
    pub last_failure: Option<Instant>,
}

impl CircuitBreaker {
    /// A closed breaker with no failures.
    pub fn new(threshold: u32, reset_timeout: Duration) -> (r: Self)
        ensures
            r.state == CircuitState::Closed,
            r.failure_count == 0,
            r.threshold == threshold,
            r.reset_timeout_nanos == duration_nanos(reset_timeout),
            r.last_failure is None,
    {
        CircuitBreaker {
            state: CircuitState::Closed,
            failure_count: 0,
            threshold,
            reset_timeout_nanos: duration_as_nanos(&reset_timeout),
            last_failure: None,
        }
    }

    /// Whether a request may go through, given the time passed since the last failure
    /// (`None` when none was measured): closed and half-open breakers let it through; an
    /// open breaker does so (and turns half-open) only when a failure was recorded and at
    /// least the reset timeout has passed since.
    pub fn is_available_after(&mut self, elapsed_nanos: Option<u128>) -> (r: bool)
        ensures
            final(self).failure_count == old(self).failure_count,
            final(self).threshold == old(self).threshold,
            final(self).reset_timeout_nanos == old(self).reset_timeout_nanos,
            final(self).last_failure == old(self).last_failure,
            old(self).state != CircuitState::Open ==> r && final(self).state == old(self).state,
            old(self).state == CircuitState::Open ==> {
                &&& r == (old(self).last_failure is Some && (match elapsed_nanos {
                    Some(e) => e >= old(self).reset_timeout_nanos,
                    None => false,
                }))
                &&& final(self).state == if r { CircuitState::HalfOpen } else { CircuitState::Open }
            },
    {
        match self.state {
            CircuitState::Closed => true,
            CircuitState::HalfOpen => true,
            CircuitState::Open => {
                let timed_out = match elapsed_nanos {
                    Some(e) => e >= self.reset_timeout_nanos,
                    None => false,
                };
                if self.last_failure.is_some() && timed_out {
                    self.state = CircuitState::HalfOpen;
                    true
                } else {
                    false
                }
            },
        }
    }

    /// Whether a request may go through now: the time since the last failure is read from
    /// the clock and judged by [`CircuitBreaker::is_available_after`].
    pub fn is_available(&mut self) -> (r: bool)
        ensures
            final(self).failure_count == old(self).failure_count,
            final(self).threshold == old(self).threshold,
            final(self).reset_timeout_nanos == old(self).reset_timeout_nanos,
            final(self).last_failure == old(self).last_failure,
            old(self).state != CircuitState::Open ==> r && final(self).state == old(self).state,
            old(self).state == CircuitState::Open ==> {
                &&& r ==> old(self).last_failure is Some
                &&& final(self).state == if r { CircuitState::HalfOpen } else { CircuitState::Open }
            },
    {
        let elapsed = match &self.last_failure {
            Some(t) => Some(duration_as_nanos(&instant_elapsed(t))),
            None => None,
        };
        self.is_available_after(elapsed)
    }

    /// A success closes the breaker and clears the failure count.
    pub fn record_success(&mut self)
        ensures
            final(self).state == CircuitState::Closed,
            final(self).failure_count == 0,
            final(self).threshold == old(self).threshold,
            final(self).reset_timeout_nanos == old(self).reset_timeout_nanos,
            final(self).last_failure == old(self).last_failure,
    {
        self.failure_count = 0;
        self.state = CircuitState::Closed;
    }

    /// A failure is counted; reaching the threshold opens the breaker and stamps the time.
    pub fn record_failure(&mut self)
        requires
            old(self).failure_count < u32::MAX,
        ensures
            final(self).failure_count == old(self).failure_count + 1,
            final(self).threshold == old(self).threshold,
            final(self).reset_timeout_nanos == old(self).reset_timeout_nanos,
            (final(self).state, final(self).failure_count as nat) == after_failure(
                old(self).state,
                old(self).failure_count as nat,
                old(self).threshold as nat,
            ),
            final(self).failure_count >= old(self).threshold ==> final(self).state == CircuitState::Open
                && final(self).last_failure is Some,
            final(self).failure_count < old(self).threshold ==> final(self).state == old(self).state
                && final(self).last_failure == old(self).last_failure,
    {
        self.failure_count = self.failure_count + 1;
        if self.failure_count >= self.threshold {
            self.state = CircuitState::Open;
            self.last_failure = Some(instant_now());
        }
    }

    /// The breaker's state.
    pub fn state(&self) -> (r: CircuitState)
        ensures
            r == self.state,
    {
        self.state
    }
}

/// A breaker's state and failure count after one more failure: the count goes up, and
/// reaching the threshold opens the breaker.
pub open spec fn after_failure(state: CircuitState, count: nat, threshold: nat) -> (CircuitState, nat) {
    if count + 1 >= threshold {
        (CircuitState::Open, count + 1)
    } else {
        (state, count + 1)
    }
}

/// A breaker's state and failure count after `k` failures in a row.
pub open spec fn after_failures(state: CircuitState, count: nat, threshold: nat, k: nat) -> (CircuitState, nat)
    decreases k,
{
    if k == 0 {
        (state, count)
    } else {
        let p = after_failures(state, count, threshold, (k - 1) as nat);
        after_failure(p.0, p.1, threshold)
    }
}

/// From a closed breaker with no failures (new, or just after a success), `k` failures in a
/// row leave it open exactly when there was at least one and `k` reached the threshold;
/// the count is `k`.
pub proof fn lemma_breaker_opens_at_threshold(threshold: nat, k: nat)
    ensures
        after_failures(CircuitState::Closed, 0, threshold, k) == (
            if k > 0 && k >= threshold { CircuitState::Open } else { CircuitState::Closed },
            k,
        ),
    decreases k,
{
    if k > 0 {
        lemma_breaker_opens_at_threshold(threshold, (k - 1) as nat);
    }
}

/// How the source under consideration responded.
#[derive(Debug, Clone, Copy, PartialEq, Eq, Structural)]
pub enum SourceOutcome {
    /// Its circuit breaker is open, or the rate limiter refused: it is skipped.
    Skipped,
    /// The request succeeded.
    Succeeded,
    /// The request failed.
    Failed,
}

/// What the data-source manager does next.
#[derive(Debug, Clone, Copy, PartialEq, Eq, Structural)]
pub enum FailoverAction {
    /// Consider source `i` (check its breaker and limiter, then request).
    Consider(usize),
    /// Return the result just obtained.
    Deliver,
    /// Every source was skipped or failed: report that none is available.
    GiveUp,
}

/// Walks the data sources in order until one answers.
#[derive(Debug)]
pub struct SourceFailover {
    pub sources: usize,
    pub current: usize,
    pub finished: bool,
}

impl SourceFailover {
    /// The position is within the sources, and past them only when finished.
    pub open spec fn wf(&self) -> bool {
        &&& self.current <= self.sources
        &&& !self.finished ==> self.current < self.sources
    }

    /// A walk over `sources` sources: the first is considered, or none is available.
    pub fn start(sources: usize) -> (r: (SourceFailover, FailoverAction))
        ensures
            r.0.wf(),
            r.0.sources == sources,
            r.0.current == 0,
            sources == 0 ==> r.0.finished && r.1 == FailoverAction::GiveUp,
            sources > 0 ==> !r.0.finished && r.1 == FailoverAction::Consider(0),
    {
        if sources == 0 {
            (SourceFailover { sources, current: 0, finished: true }, FailoverAction::GiveUp)
        } else {
            (SourceFailover { sources, current: 0, finished: false }, FailoverAction::Consider(0))
        }
    }

    /// The next step after the current source's outcome: a success is delivered; a skip or a
    /// failure moves to the next source, or gives up after the last one.
    pub fn on_outcome(&mut self, outcome: SourceOutcome) -> (a: FailoverAction)
        requires
            old(self).wf(),
            !old(self).finished,
        ensures
            final(self).wf(),
            final(self).sources == old(self).sources,
            failover_step(old(self).sources as int, old(self).current as int, outcome) == (
                final(self).current as int,
                final(self).finished,
                a,
            ),
            outcome == SourceOutcome::Succeeded ==> a == FailoverAction::Deliver && final(self).finished
                && final(self).current == old(self).current,
            outcome != SourceOutcome::Succeeded ==> final(self).current == old(self).current + 1,
            outcome != SourceOutcome::Succeeded && old(self).current + 1 < old(self).sources ==> a
                == FailoverAction::Consider((old(self).current + 1) as usize) && !final(self).finished,
            outcome != SourceOutcome::Succeeded && old(self).current + 1 == old(self).sources ==> a
                == FailoverAction::GiveUp && final(self).finished,
    {
        match outcome {
            SourceOutcome::Succeeded => {
                self.finished = true;
                FailoverAction::Deliver
            },
            _ => {
                self.current = self.current + 1;
                if self.current < self.sources {
                    FailoverAction::Consider(self.current)
                } else {
                    self.finished = true;
                    FailoverAction::GiveUp
                }
            },
        }
    }
}

/// One step of the walk over `n` sources from position `current`: a success delivers; a
/// skip or a failure moves on, giving up after the last source. Gives the new position,
/// whether the walk is finished, and the action.
pub open spec fn failover_step(n: int, current: int, outcome: SourceOutcome) -> (int, bool, FailoverAction) {
    if outcome == SourceOutcome::Succeeded {
        (current, true, FailoverAction::Deliver)
    } else if current + 1 < n {
        (current + 1, false, FailoverAction::Consider((current + 1) as usize))
    } else {
        (current + 1, true, FailoverAction::GiveUp)
    }
}

/// The walk over `n` sources after the outcomes `outs` (outcomes after it finished are
/// ignored): position, finished, last action.
pub open spec fn failover_walk(n: int, outs: Seq<SourceOutcome>) -> (int, bool, FailoverAction)
    decreases outs.len(),
{
    if outs.len() == 0 {
        if n <= 0 {
            (0, true, FailoverAction::GiveUp)
        } else {
            (0, false, FailoverAction::Consider(0))
        }
    } else {
        let prev = failover_walk(n, outs.drop_last());
        if prev.1 {
            prev
        } else {
            failover_step(n, prev.0, outs.last())
        }
    }
}

/// A walk gives up only when every source was skipped or failed, and delivers only after
/// some source succeeded; until it finishes it has considered exactly one source per outcome.
pub proof fn lemma_failover_gives_up_only_when_all_fail(n: int, outs: Seq<SourceOutcome>)
    ensures
        !failover_walk(n, outs).1 ==> failover_walk(n, outs).0 == outs.len() && outs.len() < n
            && forall|i: int| 0 <= i < outs.len() ==> outs[i] != SourceOutcome::Succeeded,
        failover_walk(n, outs).2 == FailoverAction::GiveUp ==> n <= 0 || (n <= outs.len() && forall|i: int|
            0 <= i < n ==> outs[i] != SourceOutcome::Succeeded),
        failover_walk(n, outs).2 == FailoverAction::Deliver ==> exists|i: int|
            0 <= i < outs.len() && i < n && outs[i] == SourceOutcome::Succeeded,
    decreases outs.len(),
{
    if outs.len() > 0 {
        let init = outs.drop_last();
        lemma_failover_gives_up_only_when_all_fail(n, init);
        let prev = failover_walk(n, init);
        if !prev.1 {
            assert forall|i: int| 0 <= i < init.len() implies init[i] == outs[i] by {}
        } else {
            assert forall|i: int| 0 <= i < init.len() implies init[i] == outs[i] by {}
            if prev.2 == FailoverAction::Deliver {
                let w = choose|i: int| 0 <= i < init.len() && i < n && init[i] == SourceOutcome::Succeeded;
                assert(outs[w] == SourceOutcome::Succeeded);
            }
        }
    }
}

} // verus!
