//! Progress reporting between a conversion job and its observer.
//!
//! A job's completion is a fraction in the closed interval [0, 1]. It is
//! held here as a whole number of units out of [`PROGRESS_SCALE`], so that
//! the fraction can be stored, compared and proved about exactly. The
//! running job is the sole writer of a [`ProgressState`]; an observer only
//! reads it, at whatever instants its polling schedule hits.

use vstd::prelude::*;
use vstd::arithmetic::div_mod::{lemma_div_is_ordered, lemma_div_multiples_vanish};
use vstd::arithmetic::mul::lemma_mul_inequality;

verus! {

/// Number of units that stand for the fraction 1.0 (a finished job).
pub const PROGRESS_SCALE: u32 = 1_000_000;

/// A fraction complete, scaled to whole units: `units / PROGRESS_SCALE`.
#[derive(Clone, Copy, PartialEq, Eq, Structural, Debug)]
pub struct ProgressFraction {
    pub units: u32,
}

impl ProgressFraction {
    /// The fraction lies in the closed interval [0, 1].
    pub open spec fn valid(self) -> bool {
        self.units <= PROGRESS_SCALE
    }

    /// The fraction that a freshly started job reports: 0.0.
    pub fn zero() -> (r: ProgressFraction)
        ensures
            r.units == 0,
            r.valid(),
    {
        ProgressFraction { units: 0 }
    }

    /// The fraction of a finished job: 1.0.
    pub fn complete() -> (r: ProgressFraction)
        ensures
            r.units == PROGRESS_SCALE,
            r.valid(),
    {
        ProgressFraction { units: PROGRESS_SCALE }
    }

    /// The fraction `done / total`, rounded down to whole units, for an
    /// engine that has finished `done` of `total` pieces of work.
    pub fn from_ratio(done: u64, total: u64) -> (r: ProgressFraction)
        requires
            0 < total,
            done <= total,
        ensures
            r.valid(),
            r.units == done as int * PROGRESS_SCALE as int / total as int,
    {
        proof {
            lemma_mul_inequality(done as int, total as int, PROGRESS_SCALE as int);
            lemma_div_is_ordered(
                done as int * PROGRESS_SCALE as int,
                total as int * PROGRESS_SCALE as int,
                total as int,
            );
            lemma_div_multiples_vanish(PROGRESS_SCALE as int, total as int);
        }
        let scaled: u128 = done as u128 * PROGRESS_SCALE as u128;
        let units: u128 = scaled / total as u128;
        ProgressFraction { units: units as u32 }
    }

    /// Whether this fraction means the job is finished.
    pub fn is_complete(&self) -> (r: bool)
        ensures
            r == (self.units >= PROGRESS_SCALE),
    {
        self.units >= PROGRESS_SCALE
    }
}

/// The shared fraction-complete value for the currently running job:
/// written by the job runner alone, read by any observer.
pub struct ProgressState {
    pub current: ProgressFraction,
}

impl ProgressState {
    /// The state is well formed when its fraction lies in [0, 1].
    pub open spec fn wf(self) -> bool {
        self.current.valid()
    }

    /// A fresh state, reporting no progress at all.
    pub fn new() -> (s: ProgressState)
        ensures
            s.current.units == 0,
            s.wf(),
    {
        ProgressState { current: ProgressFraction::zero() }
    }

    /// Forget the previous job's fraction: a newly started job must bring
    /// the state back to 0.0 before it produces any output, so that a late
    /// observer cannot mistake a stale 1.0 for the new job being done.
    pub fn reset(&mut self)
        ensures
            final(self).current.units == 0,
            final(self).wf(),
    {
        self.current = ProgressFraction::zero();
    }

    /// Record a fraction reported by the engine. Within one job the state
    /// only moves forward: a report below the current fraction is kept out,
    /// so observers see a monotone value whatever order reports arrive in.
    pub fn advance(&mut self, f: ProgressFraction)
        requires
            f.valid(),
            old(self).wf(),
        ensures
            final(self).wf(),
            final(self).current.units == if f.units >= old(self).current.units {
                f.units
            } else {
                old(self).current.units
            },
            old(self).current.units <= final(self).current.units,
    {
        if f.units >= self.current.units {
            self.current = f;
        }
    }

    /// Set the fraction to 1.0: the job has reached its end.
    pub fn finish(&mut self)
        ensures
            final(self).current.units == PROGRESS_SCALE,
            final(self).wf(),
    {
        self.current = ProgressFraction::complete();
    }

    /// The fraction as an observer sees it at this instant.
    pub fn read(&self) -> (f: ProgressFraction)
        ensures
            f == self.current,
    {
        self.current
    }
}

/// What a polling observer does after one read of the shared state.
#[derive(Clone, Copy, PartialEq, Eq, Structural, Debug)]
pub enum WatchStep {
    /// Publish this fraction to the observer's channel, then poll again
    /// after one interval.
    Publish(ProgressFraction),
    /// The job has reached 1.0: stop polling and return.
    Finished,
}

/// One poll of the watcher: read the shared state and decide whether to
/// publish the fraction and keep polling, or to stop. The watcher stops at
/// the first read that finds the fraction at 1.0, and not before.
pub fn observe_step(state: &ProgressState) -> (step: WatchStep)
    ensures
        (step is Finished) <==> state.current.units >= PROGRESS_SCALE,
        step matches WatchStep::Publish(f) ==> f == state.current,
{
    let f = state.read();
    if f.is_complete() {
        WatchStep::Finished
    } else {
        WatchStep::Publish(f)
    }
}

/// Termination of the watcher. Once the shared fraction has reached 1.0
/// it never drops below it within the job's lifetime, so the first poll
/// that happens at or after that instant observes a complete fraction and
/// [`observe_step`] stops the watcher there — and, by the same iff, at no
/// poll before it.
pub proof fn lemma_watcher_stops_after_completion(timeline: Seq<u32>, t: int, p: int)
    requires
        forall|i: int, j: int|
            0 <= i <= j < timeline.len() ==> timeline[i] <= timeline[j],
        0 <= t <= p < timeline.len(),
        timeline[t] >= PROGRESS_SCALE,
    ensures
        timeline[p] >= PROGRESS_SCALE,
{
    assert(timeline[t] <= timeline[p]);
}

/// Monotonicity of published progress. `timeline` holds the shared
/// fraction's units at each instant of one job's lifetime; the job runner
/// only ever moves it forward, so the timeline is non-decreasing. An
/// observer samples it at instants `polls`, in increasing time order.
/// Then the fractions it publishes are non-decreasing as well, whichever
/// instants its polls happen to hit.
pub proof fn lemma_published_fractions_monotone(timeline: Seq<u32>, polls: Seq<int>)
    requires
        forall|i: int, j: int|
            0 <= i <= j < timeline.len() ==> timeline[i] <= timeline[j],
        forall|k: int| 0 <= k < polls.len() ==> 0 <= #[trigger] polls[k] < timeline.len(),
        forall|k: int, l: int| 0 <= k <= l < polls.len() ==> polls[k] <= polls[l],
    ensures
        forall|k: int, l: int|
            0 <= k <= l < polls.len() ==> timeline[polls[k]] <= timeline[polls[l]],
{
    assert forall|k: int, l: int|
        0 <= k <= l < polls.len() implies timeline[polls[k]] <= timeline[polls[l]] by {
        assert(0 <= polls[k] < timeline.len());
        assert(0 <= polls[l] < timeline.len());
        assert(polls[k] <= polls[l]);
    }
}

} // verus!
