//! The per-frame simulation step over the whole live hazard set: every
//! hazard's countdown advances; a hazard whose countdown completes this
//! frame is removed, and damages the actor if the actor stands inside its
//! footprint. Hazards are mutually independent, so the processing order
//! cannot affect the outcome: the health lost in a tick is the sum of the
//! damages of the expiring, overlapping hazards.

use vstd::prelude::*;
use crate::actor::{Actor, Direction, InputState, spec_dir_x, spec_dir_y, spec_disp_x, spec_disp_y};
use crate::config::{Config, MAX_FRAME_MS};
use crate::geom::Vec2;
use crate::hazard::Hazard;
use crate::spawner::{Bounds, Spawner, freshly_spawned};

verus! {

/// The hazard both expires within `delta_ms` and overlaps the position
/// `pos`: exactly the hazards that deal their damage this tick.
pub open spec fn hit(h: Hazard, delta_ms: u64, pos: Vec2) -> bool {
    h.spec_expires(delta_ms) && h.spec_overlaps(pos)
}

/// Total damage dealt in one tick of `delta_ms` to an actor at `pos` by
/// the hazards `hs`: the sum of the damages of the hazards that hit.
pub open spec fn total_damage(hs: Seq<Hazard>, delta_ms: u64, pos: Vec2) -> int
    decreases hs.len(),
{
    if hs.len() == 0 {
        0
    } else {
        total_damage(hs.drop_last(), delta_ms, pos) + if hit(hs.last(), delta_ms, pos) {
            hs.last().damage_milli as int
        } else {
            0
        }
    }
}

/// The hazards of `hs` that survive a tick of `delta_ms`, in order, each
/// with its countdown advanced; the hazards that expire are dropped.
pub open spec fn survivors(hs: Seq<Hazard>, delta_ms: u64) -> Seq<Hazard>
    decreases hs.len(),
{
    if hs.len() == 0 {
        Seq::empty()
    } else {
        let rest = survivors(hs.drop_last(), delta_ms);
        if hs.last().spec_expires(delta_ms) {
            rest
        } else {
            rest.push(hs.last().spec_advanced(delta_ms))
        }
    }
}

/// How many hazards of `hs` expire within a tick of `delta_ms`.
pub open spec fn expired_count(hs: Seq<Hazard>, delta_ms: u64) -> int
    decreases hs.len(),
{
    if hs.len() == 0 {
        0
    } else {
        expired_count(hs.drop_last(), delta_ms) + if hs.last().spec_expires(delta_ms) {
            1int
        } else {
            0
        }
    }
}

/// Every hazard of `hs` is well formed.
pub open spec fn all_well_formed(hs: Seq<Hazard>) -> bool {
    forall|i: int| 0 <= i < hs.len() ==> (#[trigger] hs[i]).well_formed()
}

/// One more element of a prefix: the tick aggregates grow by exactly the
/// contribution of `hs[j]`.
proof fn lemma_prefix_step(hs: Seq<Hazard>, delta_ms: u64, pos: Vec2, j: int)
    requires
        0 <= j < hs.len(),
    ensures
        total_damage(hs.take(j + 1), delta_ms, pos) == total_damage(hs.take(j), delta_ms, pos)
            + if hit(hs[j], delta_ms, pos) { hs[j].damage_milli as int } else { 0 },
        survivors(hs.take(j + 1), delta_ms) == if hs[j].spec_expires(delta_ms) {
            survivors(hs.take(j), delta_ms)
        } else {
            survivors(hs.take(j), delta_ms).push(hs[j].spec_advanced(delta_ms))
        },
        expired_count(hs.take(j + 1), delta_ms) == expired_count(hs.take(j), delta_ms)
            + if hs[j].spec_expires(delta_ms) { 1int } else { 0 },
{
    assert(hs.take(j + 1).drop_last() =~= hs.take(j));
    assert(hs.take(j + 1).last() == hs[j]);
}

/// Total damage is non-negative when every hazard's damage is.
pub proof fn lemma_total_damage_nonneg(hs: Seq<Hazard>, delta_ms: u64, pos: Vec2)
    requires
        all_well_formed(hs),
    ensures
        total_damage(hs, delta_ms, pos) >= 0,
    decreases hs.len(),
{
    if hs.len() > 0 {
        assert(all_well_formed(hs.drop_last())) by {
            assert(forall|i: int| 0 <= i < hs.len() - 1 ==> hs.drop_last()[i] == hs[i]);
        }
        lemma_total_damage_nonneg(hs.drop_last(), delta_ms, pos);
        assert(hs.last() == hs[hs.len() - 1]);
    }
}

/// A prefix never deals more damage than the whole set.
proof fn lemma_prefix_damage_le(hs: Seq<Hazard>, delta_ms: u64, pos: Vec2, j: int)
    requires
        all_well_formed(hs),
        0 <= j <= hs.len(),
    ensures
        total_damage(hs.take(j), delta_ms, pos) <= total_damage(hs, delta_ms, pos),
    decreases hs.len() - j,
{
    if j == hs.len() {
        assert(hs.take(j) =~= hs);
    } else {
        lemma_prefix_step(hs, delta_ms, pos, j);
        lemma_prefix_damage_le(hs, delta_ms, pos, j + 1);
    }
}

/// Hazard count conservation within the tick over one hazard set: the
/// survivors are exactly the input minus the hazards that expired, so each
/// finished hazard is removed exactly once and never twice.
pub proof fn lemma_survivor_count(hs: Seq<Hazard>, delta_ms: u64)
    ensures
        survivors(hs, delta_ms).len() == hs.len() - expired_count(hs, delta_ms),
        0 <= expired_count(hs, delta_ms) <= hs.len(),
    decreases hs.len(),
{
    if hs.len() > 0 {
        lemma_survivor_count(hs.drop_last(), delta_ms);
    }
}

/// The damage of one tick splits over any division of the hazard set:
/// the hazards are mutually independent, so the total is the sum of the
/// parts however the set is cut up or reordered across the cut.
pub proof fn lemma_total_damage_concat(a: Seq<Hazard>, b: Seq<Hazard>, delta_ms: u64, pos: Vec2)
    ensures
        total_damage(a + b, delta_ms, pos) == total_damage(a, delta_ms, pos)
            + total_damage(b, delta_ms, pos),
    decreases b.len(),
{
    if b.len() == 0 {
        assert(a + b =~= a);
    } else {
        assert((a + b).drop_last() =~= a + b.drop_last());
        assert((a + b).last() == b.last());
        lemma_total_damage_concat(a, b.drop_last(), delta_ms, pos);
    }
}

/// Damage additivity: when two hazards with damages `d1` and `d2` both
/// expire in the same tick and both overlap the actor, the tick deals
/// exactly `d1 + d2`, in whichever order the two are processed.
pub proof fn lemma_damage_additive(h1: Hazard, h2: Hazard, delta_ms: u64, pos: Vec2)
    requires
        hit(h1, delta_ms, pos),
        hit(h2, delta_ms, pos),
    ensures
        total_damage(seq![h1, h2], delta_ms, pos) == h1.damage_milli + h2.damage_milli,
        total_damage(seq![h2, h1], delta_ms, pos) == total_damage(seq![h1, h2], delta_ms, pos),
{
    let empty = Seq::<Hazard>::empty();
    assert(total_damage(empty, delta_ms, pos) == 0);
    assert(seq![h1].drop_last() =~= empty);
    assert(seq![h1].last() == h1);
    assert(total_damage(seq![h1], delta_ms, pos) == h1.damage_milli);
    assert(seq![h2].drop_last() =~= empty);
    assert(seq![h2].last() == h2);
    assert(total_damage(seq![h2], delta_ms, pos) == h2.damage_milli);

    lemma_total_damage_concat(seq![h1], seq![h2], delta_ms, pos);
    lemma_total_damage_concat(seq![h2], seq![h1], delta_ms, pos);
    assert(seq![h1] + seq![h2] =~= seq![h1, h2]);
    assert(seq![h2] + seq![h1] =~= seq![h2, h1]);
}

/// One tick of the hazard subsystem. Advances every hazard's countdown by
/// `delta_ms`; a hazard whose countdown completes is removed, and if the
/// actor stands strictly inside its footprint its damage is subtracted
/// from the actor's current health. The surviving hazards keep their
/// order. The actor's position, speed, facing and maximum health are
/// untouched, and the health lost is exactly the sum of the damages of the
/// hazards that hit, whatever the processing order.
pub fn tick_hazards(hazards: &mut Vec<Hazard>, actor: &mut Actor, delta_ms: u64)
    requires
        delta_ms <= MAX_FRAME_MS,
        all_well_formed(old(hazards)@),
        old(actor).well_formed(),
        old(actor).health.current_milli
            - total_damage(old(hazards)@, delta_ms, old(actor).position) >= i64::MIN,
    ensures
        final(hazards)@ == survivors(old(hazards)@, delta_ms),
        final(hazards)@.len() == old(hazards)@.len()
            - expired_count(old(hazards)@, delta_ms),
        all_well_formed(final(hazards)@),
        forall|i: int| 0 <= i < final(hazards)@.len()
            ==> !(#[trigger] final(hazards)@[i]).timer.spec_finished(),
        final(actor).health.current_milli == old(actor).health.current_milli
            - total_damage(old(hazards)@, delta_ms, old(actor).position),
        final(actor).health.max_milli == old(actor).health.max_milli,
        final(actor).position == old(actor).position,
        final(actor).speed_milli == old(actor).speed_milli,
        final(actor).facing == old(actor).facing,
        final(actor).well_formed(),
{
    let ghost hs0 = hazards@;
    let ghost c0 = actor.health.current_milli as int;
    let ghost pos0 = actor.position;

    proof {
        lemma_total_damage_nonneg(hs0, delta_ms, pos0);
    }

    let mut kept: Vec<Hazard> = Vec::new();
    let mut idx: usize = 0;
    while idx < hazards.len()
        invariant
            idx <= hs0.len(),
            hazards@ == hs0,
            all_well_formed(hs0),
            delta_ms <= MAX_FRAME_MS,
            actor.position == pos0,
            actor.speed_milli == old(actor).speed_milli,
            actor.facing == old(actor).facing,
            actor.health.max_milli == old(actor).health.max_milli,
            old(actor).well_formed(),
            c0 == old(actor).health.current_milli,
            c0 - total_damage(hs0, delta_ms, pos0) >= i64::MIN,
            actor.health.current_milli == c0 - total_damage(hs0.take(idx as int), delta_ms, pos0),
            kept@ == survivors(hs0.take(idx as int), delta_ms),
            all_well_formed(kept@),
            forall|i: int| 0 <= i < kept@.len()
                ==> !(#[trigger] kept@[i]).timer.spec_finished(),
        decreases hs0.len() - idx,
    {
        proof {
            lemma_prefix_step(hs0, delta_ms, pos0, idx as int);
            lemma_prefix_damage_le(hs0, delta_ms, pos0, idx as int + 1);
            lemma_total_damage_nonneg(hs0.take(idx as int + 1), delta_ms, pos0);
        }
        let mut h = hazards[idx];
        h.timer.advance(delta_ms);
        if h.timer.is_finished() {
            if h.overlaps(&actor.position) {
                actor.health.current_milli = actor.health.current_milli - h.damage_milli;
            }
        } else {
            kept.push(h);
        }
        idx = idx + 1;
    }

    proof {
        assert(hs0.take(hs0.len() as int) =~= hs0);
        lemma_survivor_count(hs0, delta_ms);
    }
    *hazards = kept;
}

/// The growth-animation scales of a hazard set, in thousandths, one per
/// hazard in order: the rendering hint consumed by the drawing layer.
pub fn fill_scales(hazards: &Vec<Hazard>) -> (scales: Vec<u64>)
    requires
        all_well_formed(hazards@),
    ensures
        scales@.len() == hazards@.len(),
        forall|i: int| 0 <= i < scales@.len()
            ==> scales@[i] == (#[trigger] hazards@[i]).timer.spec_progress_milli(),
{
    let mut scales: Vec<u64> = Vec::new();
    let mut idx: usize = 0;
    while idx < hazards.len()
        invariant
            idx <= hazards@.len(),
            all_well_formed(hazards@),
            scales@.len() == idx,
            forall|i: int| 0 <= i < idx
                ==> scales@[i] == (#[trigger] hazards@[i]).timer.spec_progress_milli(),
        decreases hazards@.len() - idx,
    {
        let h = hazards[idx];
        scales.push(h.fill_scale_milli());
        idx = idx + 1;
    }
    scales
}

/// The full simulation state: the startup configuration, the single actor,
/// the live hazard set, and the spawn cadence.
pub struct World {
    pub config: Config,
    pub actor: Actor,
    pub hazards: Vec<Hazard>,
    pub spawner: Spawner,
}

/// The actor's position after one frame of movement under `input`.
pub open spec fn moved_position(a: Actor, input: InputState, delta_ms: u64) -> Vec2 {
    Vec2 {
        x: (a.position.x + spec_disp_x(input, a.speed_milli, delta_ms)) as i64,
        y: (a.position.y + spec_disp_y(input, a.speed_milli, delta_ms)) as i64,
    }
}

impl World {
    /// Valid configuration, well-formed actor and hazards, and a spawn
    /// accumulator still short of its firing threshold.
    pub open spec fn well_formed(self) -> bool {
        &&& self.config.valid()
        &&& self.actor.well_formed()
        &&& all_well_formed(self.hazards@)
        &&& self.spawner.well_formed(self.config)
    }

    /// A fresh run: the actor at `actor_position` with full health, no live
    /// hazards, and an empty spawn accumulator.
    pub fn new(config: Config, actor_position: Vec2) -> (w: World)
        requires
            config.valid(),
        ensures
            w.config == config,
            w.actor.position == actor_position,
            w.actor.speed_milli == config.actor_speed_milli,
            w.actor.health.current_milli == config.actor_max_health_milli,
            w.actor.health.max_milli == config.actor_max_health_milli,
            w.actor.facing == (Direction { x: 0, y: 0 }),
            w.hazards@.len() == 0,
            w.spawner.accum_ms == 0,
            w.well_formed(),
    {
        World {
            config,
            actor: Actor::new(&config, actor_position),
            hazards: Vec::new(),
            spawner: Spawner::new(),
        }
    }

    /// One whole frame: the actor moves under the held keys, every hazard's
    /// countdown advances with expiry damage and removal against the moved
    /// actor, and the spawn cadence then appends its freshly drawn hazards.
    /// The hazard count after the tick equals the count before, plus the
    /// spawns of this tick, minus the hazards whose countdown completed.
    pub fn tick(&mut self, input: InputState, bounds: &Bounds, delta_ms: u64) -> (spawned: u64)
        requires
            old(self).well_formed(),
            old(self).actor.position_in_range(),
            bounds.valid(),
            delta_ms <= MAX_FRAME_MS,
            old(self).actor.health.current_milli - total_damage(
                old(self).hazards@,
                delta_ms,
                moved_position(old(self).actor, input, delta_ms),
            ) >= i64::MIN,
        ensures
            final(self).config == old(self).config,
            final(self).actor.position == moved_position(old(self).actor, input, delta_ms),
            final(self).actor.speed_milli == old(self).actor.speed_milli,
            spec_dir_x(input) != 0 || spec_dir_y(input) != 0 ==> final(self).actor.facing
                == (Direction { x: spec_dir_x(input) as i64, y: spec_dir_y(input) as i64 }),
            spec_dir_x(input) == 0 && spec_dir_y(input) == 0 ==> final(self).actor.facing
                == old(self).actor.facing,
            final(self).actor.health.max_milli == old(self).actor.health.max_milli,
            final(self).actor.health.current_milli == old(self).actor.health.current_milli
                - total_damage(
                    old(self).hazards@,
                    delta_ms,
                    moved_position(old(self).actor, input, delta_ms),
                ),
            spawned == (old(self).spawner.accum_ms + delta_ms)
                / (old(self).config.spawn_interval_ms as int),
            final(self).spawner.accum_ms == (old(self).spawner.accum_ms + delta_ms)
                % (old(self).config.spawn_interval_ms as int),
            final(self).hazards@.len() == old(self).hazards@.len()
                - expired_count(old(self).hazards@, delta_ms) + spawned,
            final(self).hazards@.take(
                old(self).hazards@.len() - expired_count(old(self).hazards@, delta_ms),
            ) == survivors(old(self).hazards@, delta_ms),
            forall|i: int| old(self).hazards@.len()
                - expired_count(old(self).hazards@, delta_ms) <= i < final(self).hazards@.len()
                ==> freshly_spawned(#[trigger] final(self).hazards@[i], old(self).config, *bounds),
            final(self).well_formed(),
    {
        let config = self.config;
        self.actor.step_movement(input, delta_ms);
        tick_hazards(&mut self.hazards, &mut self.actor, delta_ms);
        let ghost after_expiry = self.hazards@;
        let spawned = self.spawner.step(&config, bounds, delta_ms, &mut self.hazards);
        proof {
            lemma_survivor_count(old(self).hazards@, delta_ms);
            assert(self.hazards@.take(after_expiry.len() as int) =~= after_expiry);
        }
        spawned
    }
}

} // verus!
