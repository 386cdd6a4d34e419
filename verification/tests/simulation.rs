use towersim::motion::PathKind;
use towersim::sim::Player;
use towersim::sim::sub_clamp;
use towersim::target::TargetKind;

const ONE: i64 = 65536;

/// One sixteenth of a second, exact in fixed point.
const DT: i64 = 4096;

fn linear_player() -> Player {
    Player::new(1, PathKind::Linear, TargetKind::FirstByProgress)
}

#[test]
fn fresh_player_state() {
    let p = Player::new(1, PathKind::Linear, TargetKind::FirstByProgress);
    assert_eq!(p.health, 150);
    assert_eq!(p.money, 900);
    assert_eq!(p.difficulty, 1);
    assert!(!p.mouse_state);
    assert_eq!(p.enemies.len(), 0);
    assert_eq!(p.projectiles.len(), 0);
    assert_eq!(p.towers.len(), 0);
    assert_eq!(p.tick_timer, 0);
    assert_eq!(p.tick_interval, ONE);
}

#[test]
fn player_health_and_money_clamp_at_high_difficulty() {
    let p = Player::new(4, PathKind::Linear, TargetKind::FirstByProgress);
    assert_eq!(p.health, 1);
    assert_eq!(p.money, 600);
    let q = Player::new(50, PathKind::Linear, TargetKind::FirstByProgress);
    assert_eq!(q.health, 1);
    assert_eq!(q.money, 0);
}

#[test]
fn pointer_press_is_edge_triggered() {
    let mut p = linear_player();
    p.input(true, (10 * ONE, 20 * ONE));
    assert_eq!(p.towers.len(), 1);
    assert_eq!((p.towers[0].x, p.towers[0].y), (10 * ONE, 20 * ONE));
    assert_eq!(p.towers[0].range, 100 * ONE);
    assert_eq!(p.towers[0].radius, 15 * ONE);
    // Held down: no second tower.
    p.input(true, (30 * ONE, 20 * ONE));
    assert_eq!(p.towers.len(), 1);
    // Released, then pressed again: a second tower.
    p.input(false, (30 * ONE, 20 * ONE));
    p.input(true, (30 * ONE, 20 * ONE));
    assert_eq!(p.towers.len(), 2);
}

#[test]
fn saturating_subtraction_never_wraps() {
    assert_eq!(sub_clamp(3, 1), 2);
    assert_eq!(sub_clamp(1, 3), 0);
    assert_eq!(sub_clamp(0, 1), 0);
}

/// A tower with its cooldown at the reload duration holds fire until
/// the accumulated elapsed time passes it, then fires exactly one
/// projectile at the enemy; the projectile flies a straight line from
/// the tower toward the enemy's position at fire time and is removed
/// once its lifetime elapses.
#[test]
fn one_tower_one_enemy_one_shot() {
    let mut p = linear_player();
    p.input(true, (100 * ONE, 100 * ONE));
    p.new_enemy(1);
    // Reload is half a second: 8 sixteenths leave the cooldown at zero,
    // which is not yet ready.
    let mut k: i32 = 0;
    while k < 8 {
        p.update(DT);
        assert_eq!(p.projectiles.len(), 0, "fired early at step {k}");
        k += 1;
    }
    // The ninth step crosses below zero and fires at the enemy, which
    // sits at x = 56.25 units; the shot hits it at once (the hit radius
    // is 100 units), so the enemy dies and no further shot follows.
    p.update(DT);
    assert_eq!(p.projectiles.len(), 1);
    assert_eq!(p.enemies.len(), 0);
    assert_eq!(p.towers[0].cooldown, ONE / 2);
    // The projectile orbits nothing and homes on nothing: it moves in a
    // straight line from the tower toward (56.25, 100) at 250 units per
    // second, so along the negative x direction.
    let mut m: i64 = 1;
    while m < 7 {
        p.update(DT);
        assert_eq!(p.projectiles.len(), 1, "gone early at step {m}");
        let t = (m + 1) as f64 / 16.0;
        let x = p.projectiles[0].x as f64 / ONE as f64;
        let y = p.projectiles[0].y as f64 / ONE as f64;
        let want_x = 100.0 - 250.0 * t;
        assert!((x - want_x).abs() < 0.5, "step {m}: x {x}, want {want_x}");
        assert!((y - 100.0).abs() < 0.5, "step {m}: y {y}");
        m += 1;
    }
    // The eighth step after firing reaches the half-second lifetime.
    p.update(DT);
    assert_eq!(p.projectiles.len(), 0);
}

/// A projectile with pierce 1 is removed after exactly one qualifying
/// hit.
#[test]
fn pierce_one_is_spent_by_one_hit() {
    let mut p = linear_player();
    p.new_enemy(3);
    p.new_projectile((0, 100 * ONE), (100 * ONE, 100 * ONE), 250 * ONE, 1, 1, 5 * ONE);
    p.update(DT);
    assert_eq!(p.projectiles.len(), 0);
    assert_eq!(p.enemies.len(), 1);
    assert_eq!(p.enemies[0].health, 2);
}

/// A projectile with pierce 2 survives one hit and is removed after a
/// second, in a later tick.
#[test]
fn pierce_two_takes_two_hits() {
    let mut p = linear_player();
    p.new_enemy(3);
    p.new_projectile((0, 100 * ONE), (100 * ONE, 100 * ONE), 250 * ONE, 2, 1, 5 * ONE);
    p.update(DT);
    assert_eq!(p.projectiles.len(), 1);
    assert_eq!(p.projectiles[0].pierce, 1);
    assert_eq!(p.enemies[0].health, 2);
    p.update(DT);
    assert_eq!(p.projectiles.len(), 0);
    assert_eq!(p.enemies[0].health, 1);
}

/// An enemy with health 3 survives two damage-1 hits and is removed by
/// the third; health never wraps around.
#[test]
fn cumulative_damage_removes_the_enemy() {
    let mut p = linear_player();
    p.new_enemy(3);
    p.new_projectile((0, 100 * ONE), (100 * ONE, 100 * ONE), 250 * ONE, 10, 1, 5 * ONE);
    p.update(DT);
    assert_eq!(p.enemies[0].health, 2);
    p.update(DT);
    assert_eq!(p.enemies[0].health, 1);
    p.update(DT);
    assert_eq!(p.enemies.len(), 0);
    assert_eq!(p.projectiles[0].pierce, 7);
}

/// Damage at or above the remaining health removes the enemy without
/// wrapping to a large unsigned value.
#[test]
fn overkill_damage_clamps_to_zero() {
    let mut p = linear_player();
    p.new_enemy(2);
    p.new_projectile((0, 100 * ONE), (100 * ONE, 100 * ONE), 250 * ONE, 2, 5, 5 * ONE);
    p.update(DT);
    assert_eq!(p.enemies.len(), 0);
}

/// Two enemies within the fixed hit radius of one projectile with
/// damage 1 and pierce 2 in the same tick: both take the damage, and
/// the projectile's pierce is decremented once per qualifying pair, so
/// it is removed, pierce exhausted, in that same tick.
#[test]
fn two_enemies_hit_by_one_projectile_in_one_tick() {
    let mut p = linear_player();
    p.new_enemy(3);
    p.new_enemy(3);
    p.new_projectile((0, 100 * ONE), (100 * ONE, 100 * ONE), 250 * ONE, 2, 1, 5 * ONE);
    p.update(DT);
    assert_eq!(p.enemies.len(), 2);
    assert_eq!(p.enemies[0].health, 2);
    assert_eq!(p.enemies[1].health, 2);
    assert_eq!(p.projectiles.len(), 0);
}

/// Spawn scheduling: with the interval starting at one second and a
/// 0.95 decay, the count of spawns after 10 simulated seconds matches
/// the geometric closed form (the 13th spawn falls at about 9.74
/// seconds, the 14th at about 10.25).
#[test]
fn spawn_schedule_follows_the_geometric_series() {
    let mut p = linear_player();
    let mut k: i32 = 0;
    while k < 16 {
        p.update(DT);
        k += 1;
    }
    // One full second accumulated: the timer must strictly exceed the
    // interval, so nothing has spawned yet.
    assert_eq!(p.enemies.len(), 0);
    p.update(DT);
    assert_eq!(p.enemies.len(), 1);
    while k < 159 {
        p.update(DT);
        k += 1;
    }
    assert_eq!(p.enemies.len(), 13);
    // Every scheduled enemy spawns with health 1.
    let mut i: usize = 0;
    while i < p.enemies.len() {
        assert_eq!(p.enemies[i].health, 1);
        i += 1;
    }
}

#[test]
fn spawn_interval_decays_after_each_spawn() {
    let mut p = linear_player();
    let mut k: i32 = 0;
    while k < 17 {
        p.update(DT);
        k += 1;
    }
    // One decay step: 65536 * 95 / 100, floored.
    assert_eq!(p.tick_interval, 62259);
}

#[test]
fn on_tick_spawns_one_enemy() {
    let mut p = linear_player();
    p.on_tick();
    assert_eq!(p.enemies.len(), 1);
    assert_eq!(p.enemies[0].health, 1);
}

#[test]
fn removals_ignore_out_of_range_indices() {
    let mut p = linear_player();
    p.new_enemy(1);
    p.remove_enemy(5);
    assert_eq!(p.enemies.len(), 1);
    p.remove_enemy(0);
    assert_eq!(p.enemies.len(), 0);
    p.remove_projectile(0);
    assert_eq!(p.projectiles.len(), 0);
}

#[test]
fn collision_scan_records_snapshot_values() {
    let mut p = linear_player();
    p.new_enemy(3);
    p.new_projectile((0, 100 * ONE), (100 * ONE, 100 * ONE), 250 * ONE, 2, 1, 5 * ONE);
    // Move everything next to each other first.
    p.update(DT);
    let (eh, ph) = p.enemies_hit();
    assert_eq!(eh, vec![(0usize, 1u32)]);
    assert_eq!(ph, vec![(0usize, 0u32)]);
}

/// The scan walks enemies outermost and projectiles innermost, so the
/// records come out enemy-major. Health records carry the snapshot
/// health less the damage; pierce records descend by one per
/// qualifying pair of the same projectile, saturating at zero.
#[test]
fn collision_scan_is_enemy_major_and_pierce_descends() {
    let mut p = linear_player();
    p.new_enemy(3);
    p.new_enemy(3);
    // Both projectiles start one unit from the enemies, pierce 2.
    p.new_projectile((ONE, 0), (100 * ONE, 0), 250 * ONE, 2, 1, 5 * ONE);
    p.new_projectile((ONE, 0), (100 * ONE, 0), 250 * ONE, 2, 1, 5 * ONE);
    let (eh, ph) = p.enemies_hit();
    assert_eq!(eh, vec![(0usize, 2u32), (0, 2), (1, 2), (1, 2)]);
    assert_eq!(ph, vec![(0usize, 1u32), (1, 1), (0, 0), (1, 0)]);
}

/// Every projectile whose lifetime elapses in a tick is removed in that
/// tick, also when several expire at once.
#[test]
fn simultaneous_expiries_are_all_removed() {
    let mut p = linear_player();
    p.new_projectile((0, 0), (100 * ONE, 0), 250 * ONE, 2, 1, 5 * ONE);
    p.new_projectile((0, 0), (0, 100 * ONE), 250 * ONE, 2, 1, 5 * ONE);
    let mut k: i32 = 0;
    while k < 7 {
        p.update(DT);
        assert_eq!(p.projectiles.len(), 2, "gone early at step {k}");
        k += 1;
    }
    // The eighth sixteenth reaches the half-second lifetime of both.
    p.update(DT);
    assert_eq!(p.projectiles.len(), 0);
}

#[test]
fn update_on_an_empty_player_only_advances_the_timer() {
    let mut p = linear_player();
    p.update(DT);
    assert_eq!(p.enemies.len(), 0);
    assert_eq!(p.projectiles.len(), 0);
    assert_eq!(p.towers.len(), 0);
    assert_eq!(p.tick_timer, DT);
    assert_eq!(p.tick_interval, ONE);
}
