//! The entities of the simulation: the triangle shape that stands for an
//! entity on screen, and the Enemy, Projectile and Tower records.

use vstd::prelude::*;
use crate::fx::fx_add;
use crate::fx::fx_add_spec;
use crate::fx::fx_div;
use crate::fx::fx_div_spec;
use crate::fx::fx_sub;
use crate::fx::fx_sub_spec;
use crate::geom::Pos;
use crate::motion::PathKind;
use crate::motion::ProjectilePath;
use crate::motion::ProjKind;
use crate::motion::proj_x_spec;
use crate::motion::proj_y_spec;
use crate::motion::speed_from_health;
use crate::motion::speed_spec;
use crate::motion::track_pos;
use crate::motion::track_x_spec;
use crate::motion::track_y_spec;
use crate::geom::angle_between_spec;
use crate::target::PlacementKind;
use crate::target::TargetKind;

verus! {

/// Half the width of an entity triangle: 10 units.
pub const TRI_HALF: i64 = 655360;

/// Divisor for the centroid of three coordinates: 3 units.
pub const THREE_UNITS: i64 = 196608;

/// Collision radius base of an enemy: 10 units.
pub const ENEMY_RADIUS_BASE: i64 = 655360;

/// Collision radius gained per point of spawn health: 2 units.
pub const ENEMY_RADIUS_PER_HEALTH: i64 = 131072;

/// Lifetime of a projectile: half a second.
pub const PROJECTILE_LIFETIME: i64 = 32768;

/// Reload duration of a tower: half a second.
pub const TOWER_MAX_COOLDOWN: i64 = 32768;

/// A drawing colour, opaque to the simulation.
#[derive(Clone, Copy, PartialEq, Eq, Structural, Debug)]
pub enum ColourKind {
    Red,
    Yellow,
    Blue,
}

/// The triangle shape that stands for an entity on screen: three
/// vertices and a colour. The simulation only moves it; drawing it is
/// the host's concern.
#[derive(Clone, Copy, Debug)]
pub struct Tri {
    pub pos1: Pos,
    pub pos2: Pos,
    pub pos3: Pos,
    pub colour: ColourKind,
}

/// Whether a triangle stands centered over `(x, y)`: vertices at the
/// two upper corners and the lower middle point, `TRI_HALF` away.
pub open spec fn tri_is_at(t: Tri, x: int, y: int) -> bool {
    &&& t.pos1.0 == fx_sub_spec(x, TRI_HALF as int)
    &&& t.pos1.1 == fx_sub_spec(y, TRI_HALF as int)
    &&& t.pos2.0 == fx_add_spec(x, TRI_HALF as int)
    &&& t.pos2.1 == fx_sub_spec(y, TRI_HALF as int)
    &&& t.pos3.0 == x
    &&& t.pos3.1 == fx_add_spec(y, TRI_HALF as int)
}

/// The triangle record centered over `(x, y)` with the given colour.
pub open spec fn tri_at(x: int, y: int, colour: ColourKind) -> Tri {
    Tri {
        pos1: (fx_sub_spec(x, TRI_HALF as int) as i64, fx_sub_spec(y, TRI_HALF as int) as i64),
        pos2: (fx_add_spec(x, TRI_HALF as int) as i64, fx_sub_spec(y, TRI_HALF as int) as i64),
        pos3: (x as i64, fx_add_spec(y, TRI_HALF as int) as i64),
        colour,
    }
}

/// X coordinate of the centroid of a triangle.
pub open spec fn tri_centre_x(t: Tri) -> int {
    fx_div_spec(
        fx_add_spec(fx_add_spec(t.pos1.0 as int, t.pos2.0 as int), t.pos3.0 as int),
        THREE_UNITS as int,
    )
}

/// Y coordinate of the centroid of a triangle.
pub open spec fn tri_centre_y(t: Tri) -> int {
    fx_div_spec(
        fx_add_spec(fx_add_spec(t.pos1.1 as int, t.pos2.1 as int), t.pos3.1 as int),
        THREE_UNITS as int,
    )
}

impl Tri {
    /// A triangle centered over `(x, y)` with the given colour.
    pub fn new(x: i64, y: i64, colour: ColourKind) -> (t: Tri)
        ensures
            tri_is_at(t, x as int, y as int),
            t.colour == colour,
            t == tri_at(x as int, y as int, colour),
    {
        Tri {
            pos1: (fx_sub(x, TRI_HALF), fx_sub(y, TRI_HALF)),
            pos2: (fx_add(x, TRI_HALF), fx_sub(y, TRI_HALF)),
            pos3: (x, fx_add(y, TRI_HALF)),
            colour,
        }
    }

    /// The centroid of the triangle.
    pub fn get_centre(&self) -> (c: Pos)
        ensures
            c.0 == tri_centre_x(*self),
            c.1 == tri_centre_y(*self),
    {
        let cx: i64 = fx_div(fx_add(fx_add(self.pos1.0, self.pos2.0), self.pos3.0), THREE_UNITS);
        let cy: i64 = fx_div(fx_add(fx_add(self.pos1.1, self.pos2.1), self.pos3.1), THREE_UNITS);
        (cx, cy)
    }

    /// Recenter the triangle over `(x, y)`.
    pub fn move_to(&mut self, x: i64, y: i64)
        ensures
            tri_is_at(*final(self), x as int, y as int),
            final(self).colour == old(self).colour,
            *final(self) == tri_at(x as int, y as int, old(self).colour),
    {
        self.pos1 = (fx_sub(x, TRI_HALF), fx_sub(y, TRI_HALF));
        self.pos2 = (fx_add(x, TRI_HALF), fx_sub(y, TRI_HALF));
        self.pos3 = (x, fx_add(y, TRI_HALF));
    }

    /// Shift the triangle by `(x, y)` relative to its centroid.
    pub fn move_by(&mut self, x: i64, y: i64)
        ensures
            tri_is_at(
                *final(self),
                fx_add_spec(x as int, tri_centre_x(*old(self))),
                fx_add_spec(y as int, tri_centre_y(*old(self))),
            ),
            final(self).colour == old(self).colour,
    {
        let c: Pos = self.get_centre();
        self.move_to(fx_add(x, c.0), fx_add(y, c.1));
    }
}

/// An enemy: health, reward, a speed tier derived from spawn health,
/// time alive, position, collision radius, and its shape.
#[derive(Clone, Copy, Debug)]
pub struct Enemy {
    pub health: u32,
    pub reward: u32,
    pub speed: i64,
    pub time: i64,
    pub x: i64,
    pub y: i64,
    pub radius: i64,
    pub tri: Tri,
}

/// The enemy record that spawning with the given health yields.
pub open spec fn spawned_enemy(health: u32) -> Enemy {
    Enemy {
        health,
        reward: 1,
        speed: speed_spec(health as int) as i64,
        time: 0,
        x: 0,
        y: 0,
        radius: (ENEMY_RADIUS_BASE + health * ENEMY_RADIUS_PER_HEALTH) as i64,
        tri: tri_at(0, 0, ColourKind::Red),
    }
}

/// The enemy record after one update step: time alive advanced by `dt`
/// and the position moved along the path.
pub open spec fn enemy_after_update(e: Enemy, dt: int, kind: PathKind) -> Enemy {
    let t2 = fx_add_spec(e.time as int, dt);
    let x2 = track_x_spec(kind, e.speed as int, t2);
    let y2 = track_y_spec(kind, e.speed as int, t2);
    Enemy {
        health: e.health,
        reward: e.reward,
        speed: e.speed,
        time: t2 as i64,
        x: x2 as i64,
        y: y2 as i64,
        radius: e.radius,
        tri: tri_at(x2, y2, e.tri.colour),
    }
}

impl Enemy {
    /// A fresh enemy of the given spawn health, at the origin with no
    /// time alive, its speed derived from the health tier and its
    /// collision radius `10 + 2 * health` units.
    pub fn new(health: u32) -> (e: Enemy)
        ensures
            e.health == health,
            e.reward == 1,
            e.speed == speed_spec(health as int),
            e.time == 0,
            e.x == 0,
            e.y == 0,
            e.radius == ENEMY_RADIUS_BASE + health * ENEMY_RADIUS_PER_HEALTH,
            tri_is_at(e.tri, 0, 0),
            e.tri.colour == ColourKind::Red,
            e == spawned_enemy(health),
    {
        let speed: i64 = speed_from_health(health);
        let radius: i64 = ENEMY_RADIUS_BASE + (health as i64) * ENEMY_RADIUS_PER_HEALTH;
        Enemy {
            health,
            reward: 1,
            speed,
            time: 0,
            x: 0,
            y: 0,
            radius,
            tri: Tri::new(0, 0, ColourKind::Red),
        }
    }

    /// Reposition the enemy on its path at its current time alive.
    pub fn path(&mut self, kind: PathKind)
        ensures
            final(self).x == track_x_spec(kind, old(self).speed as int, old(self).time as int),
            final(self).y == track_y_spec(kind, old(self).speed as int, old(self).time as int),
            tri_is_at(final(self).tri, final(self).x as int, final(self).y as int),
            final(self).tri.colour == old(self).tri.colour,
            final(self).health == old(self).health,
            final(self).reward == old(self).reward,
            final(self).speed == old(self).speed,
            final(self).time == old(self).time,
            final(self).radius == old(self).radius,
    {
        let npos: Pos = track_pos(kind, self.speed, self.time);
        self.tri.move_to(npos.0, npos.1);
        self.x = npos.0;
        self.y = npos.1;
    }

    /// Advance the enemy by `dt`: add the elapsed time and move along
    /// its path.
    pub fn update(&mut self, dt: i64, kind: PathKind)
        ensures
            final(self).time == fx_add_spec(old(self).time as int, dt as int),
            final(self).x == track_x_spec(
                kind,
                old(self).speed as int,
                fx_add_spec(old(self).time as int, dt as int),
            ),
            final(self).y == track_y_spec(
                kind,
                old(self).speed as int,
                fx_add_spec(old(self).time as int, dt as int),
            ),
            tri_is_at(final(self).tri, final(self).x as int, final(self).y as int),
            final(self).tri.colour == old(self).tri.colour,
            final(self).health == old(self).health,
            final(self).reward == old(self).reward,
            final(self).speed == old(self).speed,
            final(self).radius == old(self).radius,
            *final(self) == enemy_after_update(*old(self), dt as int, kind),
    {
        self.time = fx_add(self.time, dt);
        self.path(kind);
    }
}

/// A projectile: position, the source and target captured at spawn
/// time, lifetime, time alive, speed, its path, remaining pierce,
/// damage, its shape, and a radius.
#[derive(Clone, Copy, Debug)]
pub struct Projectile {
    pub x: i64,
    pub y: i64,
    pub source: Pos,
    pub target: Pos,
    pub lifetime: i64,
    pub time: i64,
    pub speed: i64,
    pub path: ProjectilePath,
    pub pierce: u32,
    pub damage: u32,
    pub tri: Tri,
    pub radius: i64,
}

/// The projectile record that firing from `source` toward `target`
/// yields.
pub open spec fn projectile_made(
    source: Pos,
    target: Pos,
    speed: i64,
    pierce: u32,
    damage: u32,
    radius: i64,
) -> Projectile {
    Projectile {
        x: source.0,
        y: source.1,
        source,
        target,
        lifetime: PROJECTILE_LIFETIME,
        time: 0,
        speed,
        path: ProjectilePath {
            angle: angle_between_spec(
                source.0 as int,
                source.1 as int,
                target.0 as int,
                target.1 as int,
            ) as i64,
            source,
            target,
            kind: ProjKind::Straight,
        },
        pierce,
        damage,
        tri: tri_at(source.0 as int, source.1 as int, ColourKind::Yellow),
        radius,
    }
}

/// The projectile record after one update step: time alive advanced by
/// `dt` and the position moved along the path.
pub open spec fn proj_after_update(p: Projectile, dt: int) -> Projectile {
    let t2 = fx_add_spec(p.time as int, dt);
    let x2 = proj_x_spec(
        p.path.kind,
        p.path.angle as int,
        p.speed as int,
        t2,
        (p.path.source.0 as int, p.path.source.1 as int),
        (p.path.target.0 as int, p.path.target.1 as int),
    );
    let y2 = proj_y_spec(
        p.path.kind,
        p.path.angle as int,
        p.speed as int,
        t2,
        (p.path.source.0 as int, p.path.source.1 as int),
        (p.path.target.0 as int, p.path.target.1 as int),
    );
    Projectile {
        x: x2 as i64,
        y: y2 as i64,
        source: p.source,
        target: p.target,
        lifetime: p.lifetime,
        time: t2 as i64,
        speed: p.speed,
        path: p.path,
        pierce: p.pierce,
        damage: p.damage,
        tri: tri_at(x2, y2, p.tri.colour),
        radius: p.radius,
    }
}

impl Projectile {
    /// A fresh projectile at the source position, aimed at the target
    /// along a straight ballistic path, with a fixed half-second
    /// lifetime.
    pub fn new(source: Pos, target: Pos, speed: i64, pierce: u32, damage: u32, radius: i64) -> (p:
        Projectile)
        ensures
            p.x == source.0,
            p.y == source.1,
            p.source == source,
            p.target == target,
            p.lifetime == PROJECTILE_LIFETIME,
            p.time == 0,
            p.speed == speed,
            p.pierce == pierce,
            p.damage == damage,
            p.radius == radius,
            p.path.kind == ProjKind::Straight,
            p.path.source == source,
            p.path.target == target,
            p.path.angle == angle_between_spec(
                source.0 as int,
                source.1 as int,
                target.0 as int,
                target.1 as int,
            ),
            tri_is_at(p.tri, source.0 as int, source.1 as int),
            p.tri.colour == ColourKind::Yellow,
            p == projectile_made(source, target, speed, pierce, damage, radius),
    {
        let path: ProjectilePath = ProjectilePath::projectile_straight(source, target);
        let tri: Tri = Tri::new(source.0, source.1, ColourKind::Yellow);
        Projectile {
            x: source.0,
            y: source.1,
            source,
            target,
            lifetime: PROJECTILE_LIFETIME,
            time: 0,
            speed,
            path,
            pierce,
            damage,
            tri,
            radius,
        }
    }

    /// Whether two projectiles agree on position, source and target.
    pub fn equals(&self, other: &Projectile) -> (r: bool)
        ensures
            r == (self.x == other.x && self.y == other.y && self.target == other.target
                && self.source == other.source),
    {
        self.x == other.x && self.y == other.y && self.target.0 == other.target.0
            && self.target.1 == other.target.1 && self.source.0 == other.source.0
            && self.source.1 == other.source.1
    }

    /// Advance the projectile by `dt`: add the elapsed time, move along
    /// its path, and report whether its lifetime has elapsed.
    pub fn update(&mut self, dt: i64) -> (expired: bool)
        ensures
            final(self).time == fx_add_spec(old(self).time as int, dt as int),
            final(self).x == proj_x_spec(
                old(self).path.kind,
                old(self).path.angle as int,
                old(self).speed as int,
                fx_add_spec(old(self).time as int, dt as int),
                (old(self).path.source.0 as int, old(self).path.source.1 as int),
                (old(self).path.target.0 as int, old(self).path.target.1 as int),
            ),
            final(self).y == proj_y_spec(
                old(self).path.kind,
                old(self).path.angle as int,
                old(self).speed as int,
                fx_add_spec(old(self).time as int, dt as int),
                (old(self).path.source.0 as int, old(self).path.source.1 as int),
                (old(self).path.target.0 as int, old(self).path.target.1 as int),
            ),
            expired == (fx_add_spec(old(self).time as int, dt as int) >= old(self).lifetime),
            tri_is_at(final(self).tri, final(self).x as int, final(self).y as int),
            final(self).tri.colour == old(self).tri.colour,
            final(self).source == old(self).source,
            final(self).target == old(self).target,
            final(self).lifetime == old(self).lifetime,
            final(self).speed == old(self).speed,
            final(self).path == old(self).path,
            final(self).pierce == old(self).pierce,
            final(self).damage == old(self).damage,
            final(self).radius == old(self).radius,
            *final(self) == proj_after_update(*old(self), dt as int),
    {
        self.time = fx_add(self.time, dt);
        let npos: Pos = self.path.update(self.speed, self.time);
        self.tri.move_to(npos.0, npos.1);
        self.x = npos.0;
        self.y = npos.1;
        self.time >= self.lifetime
    }
}

/// A tower: a fixed position, its targeting strategy and placement
/// policy, its shape, a footprint radius, an engagement range, and the
/// cooldown state machine.
#[derive(Clone, Copy, Debug)]
pub struct Tower {
    pub x: i64,
    pub y: i64,
    pub target: TargetKind,
    pub placement: PlacementKind,
    pub tri: Tri,
    pub radius: i64,
    pub range: i64,
    pub max_cooldown: i64,
    pub cooldown: i64,
}

/// The tower record that placement at `(x, y)` yields.
pub open spec fn tower_made(
    x: i64,
    y: i64,
    target: TargetKind,
    placement: PlacementKind,
    range: i64,
    radius: i64,
) -> Tower {
    Tower {
        x,
        y,
        target,
        placement,
        tri: tri_at(x as int, y as int, ColourKind::Blue),
        radius,
        range,
        max_cooldown: TOWER_MAX_COOLDOWN,
        cooldown: TOWER_MAX_COOLDOWN,
    }
}

/// The same tower with its cooldown replaced.
pub open spec fn tower_with_cooldown(t: Tower, cooldown: int) -> Tower {
    Tower {
        x: t.x,
        y: t.y,
        target: t.target,
        placement: t.placement,
        tri: t.tri,
        radius: t.radius,
        range: t.range,
        max_cooldown: t.max_cooldown,
        cooldown: cooldown as i64,
    }
}

impl Tower {
    /// A fresh tower at `(x, y)`, reloading: its cooldown starts at the
    /// fixed half-second reload duration.
    pub fn new(
        x: i64,
        y: i64,
        target: TargetKind,
        placement: PlacementKind,
        range: i64,
        radius: i64,
    ) -> (t: Tower)
        ensures
            t.x == x,
            t.y == y,
            t.target == target,
            t.placement == placement,
            t.range == range,
            t.radius == radius,
            t.max_cooldown == TOWER_MAX_COOLDOWN,
            t.cooldown == TOWER_MAX_COOLDOWN,
            tri_is_at(t.tri, x as int, y as int),
            t.tri.colour == ColourKind::Blue,
            t == tower_made(x, y, target, placement, range, radius),
    {
        Tower {
            x,
            y,
            target,
            placement,
            tri: Tri::new(x, y, ColourKind::Blue),
            radius,
            range,
            max_cooldown: TOWER_MAX_COOLDOWN,
            cooldown: TOWER_MAX_COOLDOWN,
        }
    }

    /// Count the cooldown down by `dt` and report readiness: the tower
    /// may shoot exactly when the new cooldown is below zero.
    pub fn can_shoot(&mut self, dt: i64) -> (ready: bool)
        ensures
            final(self).cooldown == fx_sub_spec(old(self).cooldown as int, dt as int),
            ready == (fx_sub_spec(old(self).cooldown as int, dt as int) < 0),
            final(self).x == old(self).x,
            final(self).y == old(self).y,
            final(self).target == old(self).target,
            final(self).placement == old(self).placement,
            final(self).tri == old(self).tri,
            final(self).radius == old(self).radius,
            final(self).range == old(self).range,
            final(self).max_cooldown == old(self).max_cooldown,
            *final(self) == tower_with_cooldown(
                *old(self),
                fx_sub_spec(old(self).cooldown as int, dt as int),
            ),
    {
        self.cooldown = fx_sub(self.cooldown, dt);
        self.cooldown < 0
    }

    /// Reset the cooldown to the reload duration; done only on an
    /// actual shot.
    pub fn reset_cooldown(&mut self)
        ensures
            final(self).cooldown == old(self).max_cooldown,
            final(self).x == old(self).x,
            final(self).y == old(self).y,
            final(self).target == old(self).target,
            final(self).placement == old(self).placement,
            final(self).tri == old(self).tri,
            final(self).radius == old(self).radius,
            final(self).range == old(self).range,
            final(self).max_cooldown == old(self).max_cooldown,
            *final(self) == tower_with_cooldown(*old(self), old(self).max_cooldown as int),
    {
        self.cooldown = self.max_cooldown;
    }

    /// The position of the tower.
    pub fn get_pos(&self) -> (p: Pos)
        ensures
            p.0 == self.x,
            p.1 == self.y,
    {
        (self.x, self.y)
    }

    /// The targeting strategy of the tower.
    pub fn get_target(&self) -> (t: TargetKind)
        ensures
            t == self.target,
    {
        self.target
    }
}

} // verus!
