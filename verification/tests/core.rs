use arena_sim::actor::{Actor, Direction, Health, InputState};
use arena_sim::config::Config;
use arena_sim::geom::Vec2;
use arena_sim::hazard::Hazard;
use arena_sim::sim::{fill_scales, tick_hazards};
use arena_sim::timer::Timer;

fn standard_actor_at(x: i64, y: i64) -> Actor {
    Actor::new(&Config::standard(), Vec2::new(x, y))
}

#[test]
fn timer_monotonic_progress() {
    let mut t = Timer::new(4000);
    let mut last_elapsed = 0u64;
    let mut last_progress = 0u64;
    for delta in [0u64, 500, 0, 1500, 250, 3000, 10] {
        t.advance(delta);
        assert!(t.elapsed_ms >= last_elapsed);
        assert!(t.elapsed_ms <= t.duration_ms);
        let p = t.progress_milli();
        assert!(p >= last_progress);
        assert!(p <= 1000);
        assert_eq!(p == 1000, t.is_finished());
        last_elapsed = t.elapsed_ms;
        last_progress = p;
    }
    assert!(t.is_finished());
}

#[test]
fn timer_finished_stays_finished() {
    let mut t = Timer::new(1000);
    t.advance(1000);
    assert!(t.is_finished());
    t.advance(500);
    assert!(t.is_finished());
    assert_eq!(t.elapsed_ms, 1000);
    assert_eq!(t.progress_milli(), 1000);
}

#[test]
fn growth_animation_determinism() {
    // A countdown of 5.0 seconds.
    let mut t = Timer::new(5000);
    t.advance(2500);
    assert_eq!(t.progress_milli(), 500);
    assert!(!t.is_finished());
    t.advance(3000);
    // Total elapsed real time is 5.5 s, yet progress clamps at 1.0.
    assert_eq!(t.progress_milli(), 1000);
    assert!(t.is_finished());
    assert_eq!(t.elapsed_ms, 5000);
}

#[test]
fn overlap_boundary() {
    // Hazard centered at the origin with a half-extent of 100 units.
    let h = Hazard::new(Vec2::new(0, 0), 100_000, 20_000, 1000);
    // 99.9 units from the center: strictly inside.
    assert!(h.overlaps(&Vec2::new(99_900, 0)));
    // Exactly 100 units: on the boundary, outside by the strict test.
    assert!(!h.overlaps(&Vec2::new(100_000, 0)));
    assert!(h.overlaps(&Vec2::new(0, -99_900)));
    assert!(!h.overlaps(&Vec2::new(0, -100_000)));
}

#[test]
fn overlap_boundary_damage() {
    // The same boundary, observed through a full tick: the hazard expires
    // exactly as its countdown elapses.
    let mut hazards = vec![Hazard::new(Vec2::new(0, 0), 100_000, 20_000, 1000)];
    let mut actor = standard_actor_at(99_900, 0);
    tick_hazards(&mut hazards, &mut actor, 1000);
    assert_eq!(actor.health.current_milli, 80_000);
    assert_eq!(hazards.len(), 0);

    let mut hazards = vec![Hazard::new(Vec2::new(0, 0), 100_000, 20_000, 1000)];
    let mut actor = standard_actor_at(100_000, 0);
    tick_hazards(&mut hazards, &mut actor, 1000);
    assert_eq!(actor.health.current_milli, 100_000);
    assert_eq!(hazards.len(), 0);
}

#[test]
fn movement_determinism() {
    // Speed 300 units/s, holding only "right" for a 1.0 s frame.
    let mut actor = standard_actor_at(0, 0);
    actor.step_movement(InputState::new(false, true, false, false), 1000);
    assert_eq!(actor.position, Vec2::new(300_000, 0));
    assert_eq!(actor.facing, Direction { x: 1, y: 0 });

    // No key held: position unchanged, facing sticky.
    actor.step_movement(InputState::released(), 1000);
    assert_eq!(actor.position, Vec2::new(300_000, 0));
    assert_eq!(actor.facing, Direction { x: 1, y: 0 });
}

#[test]
fn movement_opposing_keys_priority() {
    // Left wins over right, up wins over down.
    let mut actor = standard_actor_at(0, 0);
    actor.step_movement(InputState::new(true, true, false, false), 1000);
    assert_eq!(actor.position, Vec2::new(-300_000, 0));
    let mut actor = standard_actor_at(0, 0);
    actor.step_movement(InputState::new(false, false, true, true), 1000);
    assert_eq!(actor.position, Vec2::new(0, 300_000));
}

#[test]
fn movement_diagonal_scaled() {
    // Both axes at once: each axis step is scaled by 707/1000.
    let mut actor = standard_actor_at(0, 0);
    actor.step_movement(InputState::new(false, true, true, false), 1000);
    let step = 300_000i64 * 1000 * 707 / 1_000_000;
    assert_eq!(step, 212_100);
    assert_eq!(actor.position, Vec2::new(step, step));
    assert_eq!(actor.facing, Direction { x: 1, y: 1 });
}

#[test]
fn movement_leaves_health_alone() {
    let mut actor = standard_actor_at(0, 0);
    actor.health.current_milli = 40_000;
    actor.step_movement(InputState::new(false, false, false, true), 16);
    assert_eq!(actor.health.current_milli, 40_000);
    assert_eq!(actor.health.max_milli, 100_000);
}

#[test]
fn damage_additivity_either_order() {
    // Two hazards with damages d1 and d2, both expiring this tick, both
    // overlapping the actor: health drops by d1 + d2 in either order.
    let h1 = Hazard::new(Vec2::new(0, 0), 100_000, 20_000, 1000);
    let h2 = Hazard::new(Vec2::new(10_000, 0), 50_000, 5_000, 800);

    let mut hazards = vec![h1, h2];
    let mut actor = standard_actor_at(0, 0);
    tick_hazards(&mut hazards, &mut actor, 1000);
    assert_eq!(actor.health.current_milli, 75_000);
    assert_eq!(hazards.len(), 0);

    let mut hazards = vec![h2, h1];
    let mut actor = standard_actor_at(0, 0);
    tick_hazards(&mut hazards, &mut actor, 1000);
    assert_eq!(actor.health.current_milli, 75_000);
    assert_eq!(hazards.len(), 0);
}

#[test]
fn expiry_removes_without_overlap_damage() {
    // The hazard expires and is removed even though the actor stands far
    // away; no damage applies.
    let mut hazards = vec![Hazard::new(Vec2::new(500_000, 0), 50_000, 20_000, 1000)];
    let mut actor = standard_actor_at(0, 0);
    tick_hazards(&mut hazards, &mut actor, 1500);
    assert_eq!(actor.health.current_milli, 100_000);
    assert_eq!(hazards.len(), 0);
}

#[test]
fn hazard_count_conservation() {
    // Three hazards; one expires this tick, two survive with advanced
    // countdowns.
    let mut hazards = vec![
        Hazard::new(Vec2::new(0, 0), 60_000, 20_000, 500),
        Hazard::new(Vec2::new(0, 0), 60_000, 20_000, 2000),
        Hazard::new(Vec2::new(300_000, 0), 60_000, 20_000, 4000),
    ];
    let mut actor = standard_actor_at(200_000, 0);
    tick_hazards(&mut hazards, &mut actor, 600);
    assert_eq!(hazards.len(), 2);
    assert_eq!(hazards[0].timer.elapsed_ms, 600);
    assert_eq!(hazards[1].timer.elapsed_ms, 600);
    assert_eq!(actor.health.current_milli, 100_000);

    // A second tick expires nothing.
    tick_hazards(&mut hazards, &mut actor, 100);
    assert_eq!(hazards.len(), 2);
}

#[test]
fn tick_on_empty_set_is_a_no_op() {
    let mut hazards: Vec<Hazard> = Vec::new();
    let mut actor = standard_actor_at(0, 0);
    tick_hazards(&mut hazards, &mut actor, 1000);
    assert_eq!(hazards.len(), 0);
    assert_eq!(actor.health.current_milli, 100_000);
}

#[test]
fn negative_health_accepted() {
    // Health goes negative with no clamp and no terminal state.
    let mut hazards = vec![
        Hazard::new(Vec2::new(0, 0), 100_000, 80_000, 1000),
        Hazard::new(Vec2::new(0, 0), 100_000, 80_000, 1000),
    ];
    let mut actor = standard_actor_at(0, 0);
    tick_hazards(&mut hazards, &mut actor, 1000);
    assert_eq!(actor.health.current_milli, -60_000);
}

#[test]
fn health_new_starts_full() {
    let h = Health::new(100_000);
    assert_eq!(h.current_milli, 100_000);
    assert_eq!(h.max_milli, 100_000);
}

#[test]
fn health_bar_scale() {
    let mut h = Health::new(100_000);
    h.current_milli = 50_000;
    assert_eq!(h.bar_scale_milli(), 500);
    h.current_milli = 100_000;
    assert_eq!(h.bar_scale_milli(), 1000);
    h.current_milli = -20_000;
    assert_eq!(h.bar_scale_milli(), -200);
    h.current_milli = 0;
    assert_eq!(h.bar_scale_milli(), 0);
}

#[test]
fn fill_scales_follow_progress() {
    let mut hazards = vec![
        Hazard::new(Vec2::new(0, 0), 60_000, 20_000, 2000),
        Hazard::new(Vec2::new(0, 0), 60_000, 20_000, 4000),
    ];
    let mut actor = standard_actor_at(300_000, 0);
    tick_hazards(&mut hazards, &mut actor, 1000);
    let scales = fill_scales(&hazards);
    assert_eq!(scales, vec![500, 250]);
}

#[test]
fn timer_progress_starts_at_zero() {
    let t = Timer::new(2000);
    assert_eq!(t.progress_milli(), 0);
    assert!(!t.is_finished());
}
