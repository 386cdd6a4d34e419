//! Targeting strategies and placement policies.
//!
//! A targeting strategy selects zero or one target from a candidate
//! snapshot, given the shooter position and an engagement range. A
//! placement policy validates whether a new tower may be placed.

use vstd::prelude::*;
use crate::entity::Enemy;
use crate::entity::Tower;
use crate::fx::fx_mul;
use crate::fx::fx_mul_spec;
use crate::geom::Pos;
use crate::geom::pythag;
use crate::geom::sq_dist_spec;

verus! {

/// A targeting strategy, selected at tower construction time.
#[derive(Clone, Copy, PartialEq, Eq, Structural, Debug)]
pub enum TargetKind {
    /// Among candidates within range, pick the one that has traveled
    /// furthest along its path; ties go to the first encountered.
    FirstByProgress,
}

/// A placement policy, selected at tower construction time.
#[derive(Clone, Copy, PartialEq, Eq, Structural, Debug)]
pub enum PlacementKind {
    /// Every placement is accepted.
    AlwaysValid,
}

/// Whether an enemy lies strictly within the engagement range of a
/// shooter at `(px, py)`: squared distance below the squared range.
pub open spec fn in_range_spec(px: int, py: int, e: Enemy, range: int) -> bool {
    sq_dist_spec(px, py, e.x as int, e.y as int) < fx_mul_spec(range, range)
}

/// How far an enemy has traveled along its path: time alive times
/// speed.
pub open spec fn progress_spec(e: Enemy) -> int {
    fx_mul_spec(e.time as int, e.speed as int)
}

/// What a first-by-progress selection must return: the first candidate
/// in range of greatest progress, or nothing when no candidate is in
/// range.
pub open spec fn target_sel_ok(
    px: int,
    py: int,
    enemies: Seq<Enemy>,
    range: int,
    r: Option<usize>,
) -> bool {
    match r {
        Option::Some(i) => i < enemies.len() && in_range_spec(px, py, enemies[i as int], range)
            && (forall|j: int|
                0 <= j < enemies.len() && #[trigger] in_range_spec(px, py, enemies[j], range)
                    ==> progress_spec(enemies[j]) <= progress_spec(enemies[i as int]))
            && (forall|j: int|
                0 <= j < i && #[trigger] in_range_spec(px, py, enemies[j], range)
                    ==> progress_spec(enemies[j]) < progress_spec(enemies[i as int])),
        Option::None => forall|j: int|
            0 <= j < enemies.len() ==> !(#[trigger] in_range_spec(px, py, enemies[j], range)),
    }
}

/// The index that first-by-progress targeting selects, as a function of
/// the candidate snapshot: scanning the candidates in order, the first
/// one in range is taken, and a later one in range replaces it only
/// with strictly greater progress.
pub open spec fn sel_spec(px: int, py: int, es: Seq<Enemy>, range: int) -> Option<int>
    decreases es.len(),
{
    if es.len() <= 0 {
        Option::None
    } else {
        let prev = sel_spec(px, py, es.drop_last(), range);
        let i = es.len() - 1;
        if in_range_spec(px, py, es[i], range) {
            match prev {
                Option::Some(k) => if progress_spec(es[i]) > progress_spec(es[k]) {
                    Option::Some(i)
                } else {
                    prev
                },
                Option::None => Option::Some(i),
            }
        } else {
            prev
        }
    }
}

/// First-in-range-by-progress targeting: filter the candidates whose
/// squared distance to the shooter is below the squared range, and
/// among them return the index of the one with the greatest progress,
/// the first encountered winning ties.
pub fn target_first(pos: Pos, enemies: &Vec<Enemy>, range: i64) -> (r: Option<usize>)
    ensures
        target_sel_ok(pos.0 as int, pos.1 as int, enemies@, range as int, r),
        match r {
            Option::Some(u) => sel_spec(pos.0 as int, pos.1 as int, enemies@, range as int)
                == Option::Some(u as int),
            Option::None => sel_spec(pos.0 as int, pos.1 as int, enemies@, range as int)
                is None,
        },
{
    let range_sq: i64 = fx_mul(range, range);
    let mut best: Option<usize> = None;
    let mut best_prog: i64 = 0;
    let mut i: usize = 0;
    while i < enemies.len()
        invariant
            i <= enemies.len(),
            match best {
                Option::Some(k) => k < i
                    && in_range_spec(pos.0 as int, pos.1 as int, enemies@[k as int], range as int)
                    && best_prog == progress_spec(enemies@[k as int])
                    && (forall|j: int|
                        0 <= j < i && #[trigger] in_range_spec(
                            pos.0 as int,
                            pos.1 as int,
                            enemies@[j],
                            range as int,
                        ) ==> progress_spec(enemies@[j]) <= progress_spec(enemies@[k as int]))
                    && (forall|j: int|
                        0 <= j < k && #[trigger] in_range_spec(
                            pos.0 as int,
                            pos.1 as int,
                            enemies@[j],
                            range as int,
                        ) ==> progress_spec(enemies@[j]) < progress_spec(enemies@[k as int])),
                Option::None => forall|j: int|
                    0 <= j < i ==> !(#[trigger] in_range_spec(
                        pos.0 as int,
                        pos.1 as int,
                        enemies@[j],
                        range as int,
                    )),
            },
            match best {
                Option::Some(k) => sel_spec(
                    pos.0 as int,
                    pos.1 as int,
                    enemies@.take(i as int),
                    range as int,
                ) == Option::Some(k as int),
                Option::None => sel_spec(
                    pos.0 as int,
                    pos.1 as int,
                    enemies@.take(i as int),
                    range as int,
                ) is None,
            },
            range_sq == fx_mul_spec(range as int, range as int),
        decreases enemies.len() - i,
    {
        let e = &enemies[i];
        let d: i64 = pythag(pos, (e.x, e.y));
        if d < range_sq {
            let prog: i64 = fx_mul(e.time, e.speed);
            match best {
                Option::Some(_) => {
                    if prog > best_prog {
                        best = Some(i);
                        best_prog = prog;
                    }
                },
                Option::None => {
                    best = Some(i);
                    best_prog = prog;
                },
            }
        }
        proof {
            assert(enemies@.take(i as int + 1).drop_last() =~= enemies@.take(i as int));
            assert(enemies@.take(i as int + 1)[i as int] == enemies@[i as int]);
        }
        i = i + 1;
    }
    proof {
        assert(enemies@.take(enemies@.len() as int) =~= enemies@);
    }
    best
}

/// The default placement policy: every placement is valid.
pub fn place_any(pos: Pos, radius: i64, towers: &Vec<Tower>) -> (b: bool)
    ensures
        b,
{
    let _ = pos;
    let _ = radius;
    let _ = towers;
    true
}

/// Run the given targeting strategy against a candidate snapshot.
pub fn select_target(kind: TargetKind, pos: Pos, enemies: &Vec<Enemy>, range: i64) -> (r: Option<
    usize,
>)
    ensures
        target_sel_ok(pos.0 as int, pos.1 as int, enemies@, range as int, r),
        match r {
            Option::Some(u) => sel_spec(pos.0 as int, pos.1 as int, enemies@, range as int)
                == Option::Some(u as int),
            Option::None => sel_spec(pos.0 as int, pos.1 as int, enemies@, range as int)
                is None,
        },
{
    match kind {
        TargetKind::FirstByProgress => target_first(pos, enemies, range),
    }
}

/// Run the given placement policy.
pub fn placement_valid(kind: PlacementKind, pos: Pos, radius: i64, towers: &Vec<Tower>) -> (b:
    bool)
    ensures
        b,
{
    match kind {
        PlacementKind::AlwaysValid => place_any(pos, radius, towers),
    }
}

} // verus!
