use towersim::entity::ColourKind;
use towersim::entity::Enemy;
use towersim::entity::Projectile;
use towersim::entity::Tower;
use towersim::entity::Tri;
use towersim::motion::PathKind;
use towersim::motion::ProjKind;
use towersim::motion::ProjectilePath;
use towersim::motion::speed_from_health;
use towersim::motion::track_pos;
use towersim::target::PlacementKind;
use towersim::target::place_any;
use towersim::target::target_first;
use towersim::target::TargetKind;

const ONE: i64 = 65536;

#[test]
fn speed_tiers_are_exact() {
    assert_eq!(speed_from_health(1), 100 * ONE);
    assert_eq!(speed_from_health(2), 200 * ONE);
    assert_eq!(speed_from_health(3), 300 * ONE);
    assert_eq!(speed_from_health(10), 300 * ONE);
    assert_eq!(speed_from_health(11), 400 * ONE);
    assert_eq!(speed_from_health(250), 400 * ONE);
    assert_eq!(speed_from_health(0), 0);
}

#[test]
fn triangle_centroid_sits_on_the_center_x() {
    let t = Tri::new(12 * ONE, 7 * ONE, ColourKind::Red);
    let c = t.get_centre();
    assert_eq!(c.0, 12 * ONE);
    // The y centroid is y - 10/3 units, floored.
    assert_eq!(c.1, (3 * 7 * ONE - 10 * ONE) / 3);
}

#[test]
fn triangle_move_by_shifts_the_centroid() {
    let mut t = Tri::new(0, 0, ColourKind::Blue);
    let c0 = t.get_centre();
    t.move_by(5 * ONE, 2 * ONE);
    let c1 = t.get_centre();
    assert_eq!(c1.0, c0.0 + 5 * ONE);
    // Recentering over the shifted centroid reproduces its y offset;
    // the centroid division rounds toward negative infinity.
    let want_y = {
        let cy = 2 * ONE + c0.1;
        let num = 3 * cy - 10 * ONE;
        (num as f64 / 3.0).floor() as i64
    };
    assert_eq!(c1.1, want_y);
}

#[test]
fn fresh_enemy_fields() {
    let e = Enemy::new(4);
    assert_eq!(e.health, 4);
    assert_eq!(e.reward, 1);
    assert_eq!(e.speed, 300 * ONE);
    assert_eq!(e.time, 0);
    assert_eq!((e.x, e.y), (0, 0));
    assert_eq!(e.radius, 10 * ONE + 4 * 2 * ONE);
}

#[test]
fn enemy_moves_along_the_linear_track() {
    let mut e = Enemy::new(1);
    // A quarter second at 100 units/second.
    e.update(ONE / 4, PathKind::Linear);
    assert_eq!((e.x, e.y), (25 * ONE, 100 * ONE));
    e.update(ONE / 4, PathKind::Linear);
    assert_eq!((e.x, e.y), (50 * ONE, 100 * ONE));
}

#[test]
fn circular_track_starts_on_the_right_of_the_circle() {
    let p = track_pos(PathKind::Circular, 100 * ONE, 0);
    let x = p.0 as f64 / ONE as f64;
    let y = p.1 as f64 / ONE as f64;
    assert!((x - 250.0).abs() < 0.1, "x {x}");
    assert!((y - 150.0).abs() < 0.1, "y {y}");
}

#[test]
fn fresh_projectile_fields() {
    let p = Projectile::new((ONE, 2 * ONE), (3 * ONE, 2 * ONE), 250 * ONE, 2, 1, 5 * ONE);
    assert_eq!((p.x, p.y), (ONE, 2 * ONE));
    assert_eq!(p.source, (ONE, 2 * ONE));
    assert_eq!(p.target, (3 * ONE, 2 * ONE));
    assert_eq!(p.lifetime, ONE / 2);
    assert_eq!(p.time, 0);
    assert_eq!(p.speed, 250 * ONE);
    assert_eq!(p.pierce, 2);
    assert_eq!(p.damage, 1);
    assert!(matches!(p.path.kind, ProjKind::Straight));
    // Aimed along the positive x axis.
    assert!(p.path.angle.abs() < 200, "angle {}", p.path.angle);
}

#[test]
fn projectile_flies_straight() {
    let mut p = Projectile::new((0, 0), (100 * ONE, 0), 250 * ONE, 2, 1, 5 * ONE);
    let expired = p.update(ONE / 10);
    assert!(!expired);
    let x = p.x as f64 / ONE as f64;
    let y = p.y as f64 / ONE as f64;
    assert!((x - 25.0).abs() < 0.5, "x {x}");
    assert!(y.abs() < 0.5, "y {y}");
}

#[test]
fn orbit_path_circles_the_captured_target() {
    let path = ProjectilePath::projectile_circle((0, 0), (100 * ONE, 0));
    assert!(matches!(path.kind, ProjKind::Orbit));
    // At time zero the projectile sits 35 units from the target along
    // the initial aim angle, which points along the positive x axis.
    let p0 = path.update(250 * ONE, 0);
    let x = p0.0 as f64 / ONE as f64;
    let y = p0.1 as f64 / ONE as f64;
    assert!((x - 135.0).abs() < 0.5, "x {x}");
    assert!(y.abs() < 0.5, "y {y}");
    // The target was captured at spawn: whatever the time, the
    // projectile stays on the circle of radius 35 around it.
    let mut t: i64 = 0;
    while t <= 5 * ONE {
        let p = path.update(250 * ONE, t);
        let dx = p.0 as f64 / ONE as f64 - 100.0;
        let dy = p.1 as f64 / ONE as f64;
        let r = (dx * dx + dy * dy).sqrt();
        assert!((r - 35.0).abs() < 0.5, "time {t}: radius {r}");
        t += ONE / 4;
    }
}

#[test]
fn projectile_expires_at_its_lifetime() {
    let mut p = Projectile::new((0, 0), (100 * ONE, 0), 250 * ONE, 2, 1, 5 * ONE);
    assert!(!p.update(ONE / 4));
    assert!(p.update(ONE / 4));
}

#[test]
fn projectile_equality_is_by_position_source_and_target() {
    let a = Projectile::new((0, 0), (100 * ONE, 0), 250 * ONE, 2, 1, 5 * ONE);
    let b = Projectile::new((0, 0), (100 * ONE, 0), 250 * ONE, 7, 9, 5 * ONE);
    let c = Projectile::new((ONE, 0), (100 * ONE, 0), 250 * ONE, 2, 1, 5 * ONE);
    assert!(a.equals(&b));
    assert!(!a.equals(&c));
}

#[test]
fn tower_reloads_before_it_may_shoot() {
    let mut t = Tower::new(
        0,
        0,
        TargetKind::FirstByProgress,
        PlacementKind::AlwaysValid,
        100 * ONE,
        15 * ONE,
    );
    assert_eq!(t.cooldown, ONE / 2);
    assert_eq!(t.max_cooldown, ONE / 2);
    // Counting down in quarter-second steps: ready strictly below zero.
    assert!(!t.can_shoot(ONE / 4));
    assert!(!t.can_shoot(ONE / 4));
    assert!(t.can_shoot(ONE / 4));
    t.reset_cooldown();
    assert_eq!(t.cooldown, ONE / 2);
    assert_eq!(t.get_pos(), (0, 0));
}

fn enemy_at(x: i64, y: i64, time: i64, speed: i64) -> Enemy {
    let mut e = Enemy::new(1);
    e.x = x;
    e.y = y;
    e.time = time;
    e.speed = speed;
    e
}

#[test]
fn targeting_prefers_the_furthest_along() {
    let enemies = vec![
        enemy_at(10 * ONE, 0, ONE, 100 * ONE),
        enemy_at(20 * ONE, 0, 2 * ONE, 100 * ONE),
    ];
    assert_eq!(target_first((0, 0), &enemies, 50 * ONE), Some(1));
}

#[test]
fn targeting_breaks_ties_by_first_encountered() {
    let enemies = vec![
        enemy_at(10 * ONE, 0, ONE, 100 * ONE),
        enemy_at(20 * ONE, 0, ONE, 100 * ONE),
    ];
    assert_eq!(target_first((0, 0), &enemies, 50 * ONE), Some(0));
}

#[test]
fn targeting_ignores_out_of_range_candidates() {
    let enemies = vec![
        enemy_at(10 * ONE, 0, ONE, 100 * ONE),
        enemy_at(90 * ONE, 0, 5 * ONE, 100 * ONE),
    ];
    assert_eq!(target_first((0, 0), &enemies, 50 * ONE), Some(0));
}

#[test]
fn targeting_returns_none_with_nothing_in_range() {
    let enemies = vec![enemy_at(90 * ONE, 0, ONE, 100 * ONE)];
    assert_eq!(target_first((0, 0), &enemies, 50 * ONE), None);
    let empty: Vec<Enemy> = vec![];
    assert_eq!(target_first((0, 0), &empty, 50 * ONE), None);
}

#[test]
fn placement_is_always_valid() {
    let towers: Vec<Tower> = vec![];
    assert!(place_any((0, 0), 15 * ONE, &towers));
}
