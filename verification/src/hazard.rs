//! A spawned, time-limited area threat: a fixed center and half-extent, a
//! damage amount, and a countdown to expiry.

use vstd::prelude::*;
use crate::config::{MAX_COORD_MILLI, MAX_DAMAGE_MILLI, MAX_TIME_MS};
use crate::geom::Vec2;
use crate::timer::Timer;

verus! {

/// An area hazard. `radius_milli` is the half-extent of an axis-aligned
/// square footprint centered at `center`; the same value also drives the
/// circular visual outline. Center, radius and damage are fixed at spawn;
/// only the timer changes over the hazard's life.
#[derive(Clone, Copy, Debug)]
pub struct Hazard {
    pub center: Vec2,
    pub radius_milli: i64,
    pub damage_milli: i64,
    pub timer: Timer,
}

impl Hazard {
    /// Center and radius respect the coordinate limit (so `center +/-
    /// radius` never overflows), damage is non-negative and bounded, and
    /// the timer is well formed.
    pub open spec fn well_formed(self) -> bool {
        &&& -MAX_COORD_MILLI <= self.center.x <= MAX_COORD_MILLI
        &&& -MAX_COORD_MILLI <= self.center.y <= MAX_COORD_MILLI
        &&& 0 < self.radius_milli <= MAX_COORD_MILLI
        &&& 0 <= self.damage_milli <= MAX_DAMAGE_MILLI
        &&& self.timer.well_formed()
    }

    /// The point `p` lies strictly inside the hazard's square footprint:
    /// strictly between `center - radius` and `center + radius` on both
    /// axes. A point exactly on the boundary does not overlap.
    pub open spec fn spec_overlaps(self, p: Vec2) -> bool {
        &&& self.center.x - self.radius_milli < p.x < self.center.x + self.radius_milli
        &&& self.center.y - self.radius_milli < p.y < self.center.y + self.radius_milli
    }

    /// The hazard's countdown completes within a further `delta_ms` of
    /// simulation time.
    pub open spec fn spec_expires(self, delta_ms: u64) -> bool {
        self.timer.elapsed_ms + delta_ms >= self.timer.duration_ms
    }

    /// The hazard after its timer is advanced by `delta_ms`; every other
    /// field is unchanged.
    pub open spec fn spec_advanced(self, delta_ms: u64) -> Hazard {
        Hazard { timer: self.timer.spec_advanced(delta_ms), ..self }
    }

    /// Builds a hazard with a fresh countdown of `duration_ms`.
    pub fn new(center: Vec2, radius_milli: i64, damage_milli: i64, duration_ms: u64) -> (h: Hazard)
        requires
            -MAX_COORD_MILLI <= center.x <= MAX_COORD_MILLI,
            -MAX_COORD_MILLI <= center.y <= MAX_COORD_MILLI,
            0 < radius_milli <= MAX_COORD_MILLI,
            0 <= damage_milli <= MAX_DAMAGE_MILLI,
            1 <= duration_ms <= MAX_TIME_MS,
        ensures
            h.center == center,
            h.radius_milli == radius_milli,
            h.damage_milli == damage_milli,
            h.timer.duration_ms == duration_ms,
            h.timer.elapsed_ms == 0,
            !h.timer.spec_finished(),
            h.well_formed(),
    {
        Hazard { center, radius_milli, damage_milli, timer: Timer::new(duration_ms) }
    }

    /// The strict axis-aligned overlap test between the actor's position
    /// and the hazard's square footprint.
    pub fn overlaps(&self, p: &Vec2) -> (b: bool)
        requires
            self.well_formed(),
        ensures
            b == self.spec_overlaps(*p),
    {
        p.x > self.center.x - self.radius_milli && p.x < self.center.x + self.radius_milli
            && p.y > self.center.y - self.radius_milli && p.y < self.center.y + self.radius_milli
    }

    /// The growth-animation scale of the hazard's fill, in thousandths:
    /// the timer's progress, to be consumed by the renderer.
    pub fn fill_scale_milli(&self) -> (s: u64)
        requires
            self.well_formed(),
        ensures
            s == self.timer.spec_progress_milli(),
            0 <= s <= 1000,
            s == 1000 <==> self.timer.spec_finished(),
    {
        self.timer.progress_milli()
    }
}

} // verus!
