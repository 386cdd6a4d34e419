//! Real-time combat-simulation core of a tower-defense game.
//!
//! The simulation advances enemy movement, tower targeting and firing,
//! projectile flight, collision detection, and damage/removal bookkeeping
//! once per tick. All continuous quantities (positions, times, speeds,
//! angles, cooldowns) are Q48.16 fixed-point numbers carried in `i64`
//! values: a quantity of `b` bits stands for the real number `b / 65536`.
//! Trigonometry is delegated to the `cordic` crate, which computes on the
//! same Q48.16 representation.

pub mod entity;
pub mod fx;
pub mod geom;
pub mod laws;
pub mod motion;
pub mod sim;
pub mod target;
pub mod trig;
