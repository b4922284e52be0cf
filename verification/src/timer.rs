//! A non-repeating countdown: elapsed time accumulates toward a fixed
//! duration, is clamped there, and completion is permanent.

use vstd::prelude::*;
use crate::config::MAX_TIME_MS;

verus! {

/// A countdown over a fixed duration. Both fields are in milliseconds.
#[derive(Clone, Copy, Debug)]
pub struct Timer {
    /// Total duration, fixed at creation; always positive.
    pub duration_ms: u64,
    /// Time accumulated so far; never exceeds `duration_ms`.
    pub elapsed_ms: u64,
}

impl Timer {
    /// A timer is well formed when its duration is positive, within the
    /// machine limit, and its elapsed time has not outrun it.
    pub open spec fn well_formed(self) -> bool {
        &&& 1 <= self.duration_ms <= MAX_TIME_MS
        &&& self.elapsed_ms <= self.duration_ms
    }

    /// The countdown is finished once elapsed time has reached the duration.
    pub open spec fn spec_finished(self) -> bool {
        self.elapsed_ms >= self.duration_ms
    }

    /// The timer after one advance by `delta_ms`: elapsed time grows by the
    /// delta, clamped at the duration.
    pub open spec fn spec_advanced(self, delta_ms: u64) -> Timer {
        Timer {
            duration_ms: self.duration_ms,
            elapsed_ms: if self.elapsed_ms + delta_ms >= self.duration_ms {
                self.duration_ms
            } else {
                (self.elapsed_ms + delta_ms) as u64
            },
        }
    }

    /// Normalized progress in thousandths: `elapsed / duration`, scaled by
    /// 1000 and rounded down.
    pub open spec fn spec_progress_milli(self) -> int {
        self.elapsed_ms * 1000 / self.duration_ms as int
    }

    /// Creates a countdown of `duration_ms` with no time elapsed. A
    /// non-positive duration is a configuration error and is excluded here.
    pub fn new(duration_ms: u64) -> (t: Timer)
        requires
            1 <= duration_ms <= MAX_TIME_MS,
        ensures
            t.well_formed(),
            t.duration_ms == duration_ms,
            t.elapsed_ms == 0,
            !t.spec_finished(),
    {
        Timer { duration_ms, elapsed_ms: 0 }
    }

    /// Advances the countdown by `delta_ms`, clamping at the duration: a
    /// no-op once finished, callable every tick without error. Elapsed time
    /// never decreases and never exceeds the duration, and a finished timer
    /// stays finished.
    pub fn advance(&mut self, delta_ms: u64)
        requires
            old(self).well_formed(),
        ensures
            *final(self) == old(self).spec_advanced(delta_ms),
            final(self).well_formed(),
            final(self).duration_ms == old(self).duration_ms,
            old(self).elapsed_ms <= final(self).elapsed_ms,
            old(self).spec_finished() ==> final(self).spec_finished(),
            final(self).spec_finished() <==> old(self).elapsed_ms + delta_ms >= old(self).duration_ms,
    {
        let remaining = self.duration_ms - self.elapsed_ms;
        if delta_ms >= remaining {
            self.elapsed_ms = self.duration_ms;
        } else {
            self.elapsed_ms = self.elapsed_ms + delta_ms;
        }
    }

    /// True exactly when the countdown has completed.
    pub fn is_finished(&self) -> (b: bool)
        ensures
            b == self.spec_finished(),
    {
        self.elapsed_ms >= self.duration_ms
    }

    /// Progress in thousandths: 0 at creation, 1000 exactly when finished,
    /// non-decreasing along any sequence of advances.
    pub fn progress_milli(&self) -> (p: u64)
        requires
            self.well_formed(),
        ensures
            p == self.spec_progress_milli(),
            0 <= p <= 1000,
            p == 1000 <==> self.spec_finished(),
    {
        proof {
            lemma_progress_milli_range(*self);
        }
        self.elapsed_ms * 1000 / self.duration_ms
    }
}

/// Progress never leaves `[0, 1000]`, and reaches 1000 exactly when the
/// timer is finished.
pub proof fn lemma_progress_milli_range(t: Timer)
    requires
        t.well_formed(),
    ensures
        0 <= t.spec_progress_milli() <= 1000,
        t.spec_progress_milli() == 1000 <==> t.spec_finished(),
{
    let e = t.elapsed_ms as int;
    let d = t.duration_ms as int;
    if e == d {
        assert(d * 1000 / d == 1000) by (nonlinear_arith)
            requires 1 <= d;
    } else {
        assert(e * 1000 / d < 1000 && e * 1000 / d >= 0) by (nonlinear_arith)
            requires 0 <= e < d;
    }
}

/// Progress is monotone in elapsed time: of two well-formed timers over the
/// same duration, the one further along reports at least as much progress.
/// Together with the guarantees of `Timer::advance`, any sequence of
/// advances yields non-decreasing elapsed time and non-decreasing progress.
pub proof fn lemma_progress_monotonic(a: Timer, b: Timer)
    requires
        a.well_formed(),
        b.well_formed(),
        a.duration_ms == b.duration_ms,
        a.elapsed_ms <= b.elapsed_ms,
    ensures
        a.spec_progress_milli() <= b.spec_progress_milli(),
{
    let d = a.duration_ms as int;
    assert(a.elapsed_ms * 1000 / d <= b.elapsed_ms * 1000 / d) by (nonlinear_arith)
        requires 1 <= d, a.elapsed_ms <= b.elapsed_ms;
}

} // verus!
