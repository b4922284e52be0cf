use arena_sim::actor::InputState;
use arena_sim::config::Config;
use arena_sim::geom::Vec2;
use arena_sim::hazard::Hazard;
use arena_sim::sim::World;
use arena_sim::spawner::{spawn_hazard, Bounds, Spawner};

#[test]
fn config_standard_values() {
    let c = Config::standard();
    assert_eq!(c.spawn_interval_ms, 1000);
    assert_eq!(c.radius_min_milli, 50_000);
    assert_eq!(c.radius_max_milli, 150_000);
    assert_eq!(c.duration_min_s, 2);
    assert_eq!(c.duration_max_s, 5);
    assert_eq!(c.damage_milli, 20_000);
    assert_eq!(c.actor_speed_milli, 300_000);
    assert_eq!(c.actor_max_health_milli, 100_000);
}

#[test]
fn spawn_bounds() {
    // 10,000 spawns with playfield half-extents (W, H): every center lies
    // in [-W, W] x [-H, H], and every drawn value in its configured range.
    let config = Config::standard();
    let w = 400_000i64;
    let h = 300_000i64;
    let bounds = Bounds::new(w, h);
    let mut seen_distinct_x = false;
    let mut first_x: Option<i64> = None;
    for _ in 0..10_000 {
        let hz = spawn_hazard(&config, &bounds);
        assert!(-w <= hz.center.x && hz.center.x <= w);
        assert!(-h <= hz.center.y && hz.center.y <= h);
        assert!(50_000 <= hz.radius_milli && hz.radius_milli <= 150_000);
        assert!(2000 <= hz.timer.duration_ms && hz.timer.duration_ms <= 5000);
        assert_eq!(hz.timer.duration_ms % 1000, 0);
        assert_eq!(hz.damage_milli, 20_000);
        assert_eq!(hz.timer.elapsed_ms, 0);
        match first_x {
            None => first_x = Some(hz.center.x),
            Some(x0) => {
                if hz.center.x != x0 {
                    seen_distinct_x = true;
                }
            }
        }
    }
    // A uniform draw over 800,001 positions repeats the same value 10,000
    // times with vanishing probability.
    assert!(seen_distinct_x);
}

#[test]
fn spawner_cadence() {
    let config = Config::standard();
    let bounds = Bounds::new(400_000, 300_000);
    let mut spawner = Spawner::new();
    let mut hazards: Vec<Hazard> = Vec::new();

    // 2.5 s against a 1 s interval: two firings, half a second left over.
    let n = spawner.step(&config, &bounds, 2500, &mut hazards);
    assert_eq!(n, 2);
    assert_eq!(spawner.accum_ms, 500);
    assert_eq!(hazards.len(), 2);

    // 499 ms more: still short of the threshold.
    let n = spawner.step(&config, &bounds, 499, &mut hazards);
    assert_eq!(n, 0);
    assert_eq!(spawner.accum_ms, 999);
    assert_eq!(hazards.len(), 2);

    // One final millisecond fires the third spawn exactly.
    let n = spawner.step(&config, &bounds, 1, &mut hazards);
    assert_eq!(n, 1);
    assert_eq!(spawner.accum_ms, 0);
    assert_eq!(hazards.len(), 3);
}

#[test]
fn spawner_keeps_existing_hazards() {
    let config = Config::standard();
    let bounds = Bounds::new(400_000, 300_000);
    let mut spawner = Spawner::new();
    let existing = Hazard::new(Vec2::new(7_000, -3_000), 60_000, 20_000, 4000);
    let mut hazards = vec![existing];
    spawner.step(&config, &bounds, 1000, &mut hazards);
    assert_eq!(hazards.len(), 2);
    assert_eq!(hazards[0].center, Vec2::new(7_000, -3_000));
    assert_eq!(hazards[0].timer.duration_ms, 4000);
}

#[test]
fn world_tick_conserves_counts() {
    // One frame of a full world: the actor moves, no hazard expires yet,
    // and the cadence fires exactly once.
    let config = Config::standard();
    let bounds = Bounds::new(400_000, 300_000);
    let mut world = World::new(config, Vec2::new(50_000, 0));

    let spawned = world.tick(InputState::new(false, true, false, false), &bounds, 1000);
    assert_eq!(spawned, 1);
    assert_eq!(world.hazards.len(), 1);
    assert_eq!(world.actor.position, Vec2::new(350_000, 0));
    assert_eq!(world.actor.health.current_milli, 100_000);
    assert_eq!(world.spawner.accum_ms, 0);

    // The freshly spawned hazard has not been advanced this frame.
    assert_eq!(world.hazards[0].timer.elapsed_ms, 0);

    // Enough further frames expire every hazard that was spawned: counts
    // stay equal to before + spawns - expiries at each step.
    let mut live = world.hazards.len();
    for _ in 0..20 {
        let before = live;
        let expired = world
            .hazards
            .iter()
            .filter(|h| h.timer.elapsed_ms + 400 >= h.timer.duration_ms)
            .count();
        let spawned = world.tick(InputState::released(), &bounds, 400) as usize;
        live = world.hazards.len();
        assert_eq!(live, before + spawned - expired);
    }
}
