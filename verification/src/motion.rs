//! Motion models: the speed tier step function, the enemy path
//! functions (linear horizontal track and circular orbit track), and the
//! projectile path functions (straight ballistic and fixed-point orbit).
//! All positions and rates are Q48.16 bits.

use vstd::prelude::*;
use crate::fx::fx_add;
use crate::fx::fx_add_spec;
use crate::fx::fx_div;
use crate::fx::fx_div_spec;
use crate::fx::fx_mul;
use crate::fx::fx_mul_spec;
use crate::geom::angle_between;
use crate::geom::angle_between_spec;
use crate::geom::Pos;
use crate::trig::cos_angle;
use crate::trig::cos_bits;
use crate::trig::PI_BITS;
use crate::trig::reduced;
use crate::trig::sin_angle;
use crate::trig::sin_bits;
use crate::trig::unit_clamp;

verus! {

/// Height of the linear track: 100 units.
pub const TRACK_Y: i64 = 6553600;

/// Center coordinate of the circular track: 150 units.
pub const CIRCLE_CENTER: i64 = 9830400;

/// Radius of the circular track: 100 units.
pub const CIRCLE_RADIUS: i64 = 6553600;

/// Radius of the projectile orbit: 35 units.
pub const ORBIT_RADIUS: i64 = 2293760;

/// Divisor of the orbit angular rate: 120 units.
pub const ORBIT_RATE_DIV: i64 = 7864320;

/// Movement speed derived from spawn health: health 1 gives 100
/// units/second, 2 gives 200, 3 through 10 give 300, 11 and above give
/// 400, and health 0 gives 0.
pub open spec fn speed_spec(health: int) -> int {
    if health == 0 {
        0
    } else if health == 1 {
        6553600
    } else if health == 2 {
        13107200
    } else if health <= 10 {
        19660800
    } else {
        26214400
    }
}

/// Movement speed in Q48.16 bits derived from spawn health.
pub fn speed_from_health(health: u32) -> (s: i64)
    ensures
        s == speed_spec(health as int),
        s >= 0,
{
    if health == 0 {
        0
    } else if health == 1 {
        6553600
    } else if health == 2 {
        13107200
    } else if health <= 10 {
        19660800
    } else {
        26214400
    }
}

/// An enemy path function, selected at construction time.
#[derive(Clone, Copy, PartialEq, Eq, Structural, Debug)]
pub enum PathKind {
    /// Straight horizontal line at fixed height `TRACK_Y`.
    Linear,
    /// Circle of radius `CIRCLE_RADIUS` around
    /// `(CIRCLE_CENTER, CIRCLE_CENTER)`.
    Circular,
}

/// Phase angle of the circular track: `speed * time / radius`.
pub open spec fn circle_phase_spec(speed: int, time: int) -> int {
    fx_div_spec(fx_mul_spec(speed, time), CIRCLE_RADIUS as int)
}

/// X coordinate of an enemy path at the given speed and time alive.
pub open spec fn track_x_spec(kind: PathKind, speed: int, time: int) -> int {
    match kind {
        PathKind::Linear => fx_mul_spec(speed, time),
        PathKind::Circular => fx_add_spec(
            CIRCLE_CENTER as int,
            fx_mul_spec(
                CIRCLE_RADIUS as int,
                unit_clamp(cos_bits(reduced(circle_phase_spec(speed, time)))),
            ),
        ),
    }
}

/// Y coordinate of an enemy path at the given speed and time alive.
pub open spec fn track_y_spec(kind: PathKind, speed: int, time: int) -> int {
    match kind {
        PathKind::Linear => TRACK_Y as int,
        PathKind::Circular => fx_add_spec(
            CIRCLE_CENTER as int,
            fx_mul_spec(
                CIRCLE_RADIUS as int,
                unit_clamp(sin_bits(reduced(circle_phase_spec(speed, time)))),
            ),
        ),
    }
}

/// Position of an enemy path at the given speed and time alive.
pub fn track_pos(kind: PathKind, speed: i64, time: i64) -> (p: Pos)
    ensures
        p.0 == track_x_spec(kind, speed as int, time as int),
        p.1 == track_y_spec(kind, speed as int, time as int),
{
    match kind {
        PathKind::Linear => (fx_mul(speed, time), TRACK_Y),
        PathKind::Circular => {
            let phase: i64 = fx_div(fx_mul(speed, time), CIRCLE_RADIUS);
            let x: i64 = fx_add(CIRCLE_CENTER, fx_mul(CIRCLE_RADIUS, cos_angle(phase)));
            let y: i64 = fx_add(CIRCLE_CENTER, fx_mul(CIRCLE_RADIUS, sin_angle(phase)));
            (x, y)
        },
    }
}

/// A projectile path function, selected at spawn time.
#[derive(Clone, Copy, PartialEq, Eq, Structural, Debug)]
pub enum ProjKind {
    /// Straight shot from the source along the initial aim angle.
    Straight,
    /// Orbit of radius `ORBIT_RADIUS` around the target position that
    /// was captured at spawn time.
    Orbit,
}

/// Phase angle of the projectile orbit:
/// `angle + time * speed * pi / 120`.
pub open spec fn orbit_phase_spec(angle: int, speed: int, time: int) -> int {
    fx_add_spec(
        angle,
        fx_div_spec(fx_mul_spec(fx_mul_spec(time, speed), PI_BITS as int), ORBIT_RATE_DIV as int),
    )
}

/// X coordinate of a projectile path.
pub open spec fn proj_x_spec(
    kind: ProjKind,
    angle: int,
    speed: int,
    time: int,
    source: (int, int),
    target: (int, int),
) -> int {
    match kind {
        ProjKind::Straight => fx_add_spec(
            source.0,
            fx_mul_spec(fx_mul_spec(speed, time), unit_clamp(cos_bits(reduced(angle)))),
        ),
        ProjKind::Orbit => fx_add_spec(
            target.0,
            fx_mul_spec(
                ORBIT_RADIUS as int,
                unit_clamp(cos_bits(reduced(orbit_phase_spec(angle, speed, time)))),
            ),
        ),
    }
}

/// Y coordinate of a projectile path.
pub open spec fn proj_y_spec(
    kind: ProjKind,
    angle: int,
    speed: int,
    time: int,
    source: (int, int),
    target: (int, int),
) -> int {
    match kind {
        ProjKind::Straight => fx_add_spec(
            source.1,
            fx_mul_spec(fx_mul_spec(speed, time), unit_clamp(sin_bits(reduced(angle)))),
        ),
        ProjKind::Orbit => fx_add_spec(
            target.1,
            fx_mul_spec(
                ORBIT_RADIUS as int,
                unit_clamp(sin_bits(reduced(orbit_phase_spec(angle, speed, time)))),
            ),
        ),
    }
}

/// A projectile path: the initial aim angle, the source and target
/// positions captured at spawn time, and the selected path function.
#[derive(Clone, Copy, Debug)]
pub struct ProjectilePath {
    /// Initial aim angle in radian bits, from source toward target.
    pub angle: i64,
    /// Position the projectile was fired from.
    pub source: Pos,
    /// Position of the target at the instant of firing.
    pub target: Pos,
    /// Which path function moves the projectile.
    pub kind: ProjKind,
}

impl ProjectilePath {
    /// A straight ballistic path from `source`, aimed at `target` once
    /// at spawn time.
    pub fn projectile_straight(source: Pos, target: Pos) -> (p: ProjectilePath)
        ensures
            p.angle == angle_between_spec(
                source.0 as int,
                source.1 as int,
                target.0 as int,
                target.1 as int,
            ),
            p.source == source,
            p.target == target,
            p.kind == ProjKind::Straight,
    {
        let angle: i64 = angle_between(source, target);
        ProjectilePath { angle, source, target, kind: ProjKind::Straight }
    }

    /// An orbit around the target position captured at spawn time. The
    /// target is not re-acquired: if the enemy has moved since, the
    /// projectile circles empty space.
    pub fn projectile_circle(source: Pos, target: Pos) -> (p: ProjectilePath)
        ensures
            p.angle == angle_between_spec(
                source.0 as int,
                source.1 as int,
                target.0 as int,
                target.1 as int,
            ),
            p.source == source,
            p.target == target,
            p.kind == ProjKind::Orbit,
    {
        let angle: i64 = angle_between(source, target);
        ProjectilePath { angle, source, target, kind: ProjKind::Orbit }
    }

    /// Position of the projectile at the given speed and time alive.
    pub fn update(&self, speed: i64, time: i64) -> (p: Pos)
        ensures
            p.0 == proj_x_spec(
                self.kind,
                self.angle as int,
                speed as int,
                time as int,
                (self.source.0 as int, self.source.1 as int),
                (self.target.0 as int, self.target.1 as int),
            ),
            p.1 == proj_y_spec(
                self.kind,
                self.angle as int,
                speed as int,
                time as int,
                (self.source.0 as int, self.source.1 as int),
                (self.target.0 as int, self.target.1 as int),
            ),
    {
        match self.kind {
            ProjKind::Straight => {
                let dist: i64 = fx_mul(speed, time);
                let x: i64 = fx_add(self.source.0, fx_mul(dist, cos_angle(self.angle)));
                let y: i64 = fx_add(self.source.1, fx_mul(dist, sin_angle(self.angle)));
                (x, y)
            },
            ProjKind::Orbit => {
                let phase: i64 = fx_add(
                    self.angle,
                    fx_div(fx_mul(fx_mul(time, speed), PI_BITS), ORBIT_RATE_DIV),
                );
                let x: i64 = fx_add(self.target.0, fx_mul(ORBIT_RADIUS, cos_angle(phase)));
                let y: i64 = fx_add(self.target.1, fx_mul(ORBIT_RADIUS, sin_angle(phase)));
                (x, y)
            },
        }
    }
}

} // verus!
