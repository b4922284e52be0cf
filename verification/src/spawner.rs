//! The cadence-driven generator of new hazards: an accumulator timer fires
//! once per configured interval of simulation time, and each firing draws a
//! position, half-extent and countdown at random within the configured
//! ranges.

use vstd::prelude::*;
use rand::Rng;
use crate::config::{Config, MAX_COORD_MILLI, MAX_FRAME_MS, MAX_TIME_MS};
use crate::geom::Vec2;
use crate::hazard::Hazard;

verus! {

/// The visible playfield's half-extents around the origin, in milli-units.
/// Spawn positions are drawn from `[-half_width, half_width]` by
/// `[-half_height, half_height]`.
#[derive(Clone, Copy, Debug, PartialEq, Eq, Structural)]
pub struct Bounds {
    pub half_width_milli: i64,
    pub half_height_milli: i64,
}

impl Bounds {
    /// Half-extents are non-negative and within the coordinate limit.
    pub open spec fn valid(self) -> bool {
        &&& 0 <= self.half_width_milli <= MAX_COORD_MILLI
        &&& 0 <= self.half_height_milli <= MAX_COORD_MILLI
    }

    /// Builds the half-extent pair.
    pub fn new(half_width_milli: i64, half_height_milli: i64) -> (b: Bounds)
        ensures
            b.half_width_milli == half_width_milli,
            b.half_height_milli == half_height_milli,
    {
        Bounds { half_width_milli, half_height_milli }
    }
}

/// Relies on `rand::Rng::gen_range` on the thread-local generator: a
/// uniform draw from the inclusive range `lo..=hi`, which panics only on an
/// empty range. Nothing more than membership in the range can be promised
/// of a random draw.
#[verifier::external_body]
fn draw_i64(lo: i64, hi: i64) -> (r: i64)
    requires
        lo <= hi,
    ensures
        lo <= r <= hi,
{
    rand::thread_rng().gen_range(lo..=hi)
}

/// What every freshly spawned hazard satisfies: the center lies within the
/// playfield bounds, the half-extent and the countdown lie within their
/// configured ranges, the damage is the configured amount, and no time has
/// elapsed yet.
pub open spec fn freshly_spawned(h: Hazard, config: Config, bounds: Bounds) -> bool {
    &&& -bounds.half_width_milli <= h.center.x <= bounds.half_width_milli
    &&& -bounds.half_height_milli <= h.center.y <= bounds.half_height_milli
    &&& config.radius_min_milli <= h.radius_milli <= config.radius_max_milli
    &&& h.damage_milli == config.damage_milli
    &&& config.duration_min_s * 1000 <= h.timer.duration_ms <= config.duration_max_s * 1000
    &&& h.timer.duration_ms % 1000 == 0
    &&& h.timer.elapsed_ms == 0
    &&& !h.timer.spec_finished()
    &&& h.well_formed()
}

/// Draws one hazard: a position uniform over the playfield, a half-extent
/// uniform over the configured range, a countdown of a whole number of
/// seconds uniform over the configured range, and the configured damage.
pub fn spawn_hazard(config: &Config, bounds: &Bounds) -> (h: Hazard)
    requires
        config.valid(),
        bounds.valid(),
    ensures
        freshly_spawned(h, *config, *bounds),
{
    let x = draw_i64(-bounds.half_width_milli, bounds.half_width_milli);
    let y = draw_i64(-bounds.half_height_milli, bounds.half_height_milli);
    let radius = draw_i64(config.radius_min_milli, config.radius_max_milli);
    let seconds = draw_i64(config.duration_min_s as i64, config.duration_max_s as i64);
    let duration_ms = (seconds as u64) * 1000;
    Hazard::new(Vec2 { x, y }, radius, config.damage_milli, duration_ms)
}

/// The spawner: accumulates simulation time and fires once per configured
/// interval.
#[derive(Clone, Copy, Debug)]
pub struct Spawner {
    /// Simulation time accumulated toward the next firing; always less
    /// than the configured interval between steps.
    pub accum_ms: u64,
}

impl Spawner {
    /// The accumulator has not yet reached the firing threshold.
    pub open spec fn well_formed(self, config: Config) -> bool {
        self.accum_ms < config.spawn_interval_ms
    }

    /// A spawner with an empty accumulator: the first firing comes one full
    /// interval after startup.
    pub fn new() -> (s: Spawner)
        ensures
            s.accum_ms == 0,
    {
        Spawner { accum_ms: 0 }
    }

    /// Advances the cadence by `delta_ms` and appends one freshly drawn
    /// hazard per interval crossed, so the cadence stays correct however
    /// the frame rate fluctuates: exactly
    /// `(accum + delta) / interval` hazards are appended, the hazards
    /// already in `hazards` are untouched, and the accumulator is left with
    /// the remainder `(accum + delta) % interval`.
    pub fn step(
        &mut self,
        config: &Config,
        bounds: &Bounds,
        delta_ms: u64,
        hazards: &mut Vec<Hazard>,
    ) -> (spawned: u64)
        requires
            config.valid(),
            bounds.valid(),
            old(self).well_formed(*config),
            delta_ms <= MAX_FRAME_MS,
        ensures
            spawned == (old(self).accum_ms + delta_ms) / (config.spawn_interval_ms as int),
            final(self).accum_ms == (old(self).accum_ms + delta_ms)
                % (config.spawn_interval_ms as int),
            final(self).well_formed(*config),
            final(hazards)@.len() == old(hazards)@.len() + spawned,
            forall|i: int| 0 <= i < old(hazards)@.len() ==> final(hazards)@[i] == old(hazards)@[i],
            forall|i: int| old(hazards)@.len() <= i < final(hazards)@.len()
                ==> freshly_spawned(#[trigger] final(hazards)@[i], *config, *bounds),
    {
        let interval = config.spawn_interval_ms;
        let ghost total = old(self).accum_ms + delta_ms;
        let ghost entry_hazards = hazards@;
        let mut spawned: u64 = 0;

        self.accum_ms = self.accum_ms + delta_ms;
        while self.accum_ms >= interval
            invariant
                config.valid(),
                bounds.valid(),
                interval == config.spawn_interval_ms,
                self.accum_ms + spawned * interval == total,
                spawned <= total,
                total <= MAX_TIME_MS + MAX_FRAME_MS,
                hazards@.len() == entry_hazards.len() + spawned,
                forall|i: int| 0 <= i < entry_hazards.len() ==> hazards@[i] == entry_hazards[i],
                forall|i: int| entry_hazards.len() <= i < hazards@.len()
                    ==> freshly_spawned(#[trigger] hazards@[i], *config, *bounds),
            decreases self.accum_ms,
        {
            self.accum_ms = self.accum_ms - interval;
            let h = spawn_hazard(config, bounds);
            hazards.push(h);
            proof {
                assert((spawned + 1) * interval == spawned * interval + interval)
                    by (nonlinear_arith);
                assert(spawned + 1 <= (spawned + 1) * interval) by (nonlinear_arith)
                    requires 0 <= spawned, 1 <= interval;
            }
            spawned = spawned + 1;
        }

        proof {
            vstd::arithmetic::div_mod::lemma_fundamental_div_mod_converse(
                total as int,
                interval as int,
                spawned as int,
                self.accum_ms as int,
            );
        }
        spawned
    }
}

} // verus!
