//! Machine limits and the simulation's startup configuration.

use vstd::prelude::*;

verus! {

/// Longest countdown or cadence interval the simulation accepts, in
/// milliseconds. Small enough that `elapsed * 1000` stays far below
/// `u64::MAX` when computing timer progress.
pub const MAX_TIME_MS: u64 = 1_000_000_000_000;

/// Largest frame delta the per-tick functions accept, in milliseconds.
pub const MAX_FRAME_MS: u64 = 1_000_000;

/// Bound on hazard centers, playfield half-extents and hazard radii, in
/// milli-units, so that `center +/- radius` never overflows an `i64`.
pub const MAX_COORD_MILLI: i64 = 1_000_000_000_000;

/// Bound on actor positions, in milli-units, loose enough that one frame of
/// movement from a position within it never overflows an `i64`.
pub const MAX_POS_MILLI: i64 = 1_000_000_000_000_000;

/// Bound on the actor's speed, in milli-units per second.
pub const MAX_SPEED_MILLI: i64 = 1_000_000_000;

/// Bound on a single hazard's damage, in milli-units.
pub const MAX_DAMAGE_MILLI: i64 = 1_000_000_000;

/// Bound on the actor's maximum health, in milli-units.
pub const MAX_HEALTH_MILLI: i64 = 1_000_000_000;

/// The startup configuration: every tunable constant of the simulation.
///
/// Distances, damage, health and speed are in milli-units; times are in
/// milliseconds, except hazard countdown durations, which are drawn in whole
/// seconds.
#[derive(Clone, Copy, Debug)]
pub struct Config {
    /// Cadence of hazard spawning, in milliseconds of simulation time.
    pub spawn_interval_ms: u64,
    /// Smallest hazard half-extent, in milli-units.
    pub radius_min_milli: i64,
    /// Largest hazard half-extent, in milli-units.
    pub radius_max_milli: i64,
    /// Shortest hazard countdown, in whole seconds.
    pub duration_min_s: u64,
    /// Longest hazard countdown, in whole seconds.
    pub duration_max_s: u64,
    /// Damage dealt by one expiring hazard, in milli-units.
    pub damage_milli: i64,
    /// Actor movement speed, in milli-units per second.
    pub actor_speed_milli: i64,
    /// Actor maximum health, in milli-units.
    pub actor_max_health_milli: i64,
}

impl Config {
    /// A configuration is valid when every range is ordered and every value
    /// respects the machine limits; invalid configurations are a fatal
    /// startup error and must not reach the simulation.
    pub open spec fn valid(self) -> bool {
        &&& 1 <= self.spawn_interval_ms <= MAX_TIME_MS
        &&& 0 < self.radius_min_milli <= self.radius_max_milli <= MAX_COORD_MILLI
        &&& 1 <= self.duration_min_s <= self.duration_max_s
        &&& self.duration_max_s * 1000 <= MAX_TIME_MS
        &&& 0 <= self.damage_milli <= MAX_DAMAGE_MILLI
        &&& 0 <= self.actor_speed_milli <= MAX_SPEED_MILLI
        &&& 0 <= self.actor_max_health_milli <= MAX_HEALTH_MILLI
    }

    /// The stock startup values: spawn every second, half-extents of
    /// 50 to 150 units, countdowns of 2 to 5 seconds, 20 damage per hazard,
    /// actor speed 300 units per second, actor health 100.
    pub fn standard() -> (c: Config)
        ensures
            c.valid(),
            c.spawn_interval_ms == 1000,
            c.radius_min_milli == 50_000,
            c.radius_max_milli == 150_000,
            c.duration_min_s == 2,
            c.duration_max_s == 5,
            c.damage_milli == 20_000,
            c.actor_speed_milli == 300_000,
            c.actor_max_health_milli == 100_000,
    {
        Config {
            spawn_interval_ms: 1000,
            radius_min_milli: 50_000,
            radius_max_milli: 150_000,
            duration_min_s: 2,
            duration_max_s: 5,
            damage_milli: 20_000,
            actor_speed_milli: 300_000,
            actor_max_health_milli: 100_000,
        }
    }
}

} // verus!
