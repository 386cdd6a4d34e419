//! The simulation aggregate: the player state that owns every entity
//! collection and advances the whole game one tick at a time, in the
//! fixed phase order: move enemies, tower fire resolution, projectile
//! spawning, projectile movement, lifetime removal, collision and
//! damage resolution, damage and pierce application, and spawn
//! scheduling.

use vstd::prelude::*;
use crate::entity::Enemy;
use crate::entity::enemy_after_update;
use crate::entity::Projectile;
use crate::entity::proj_after_update;
use crate::entity::projectile_made;
use crate::entity::spawned_enemy;
use crate::entity::Tower;
use crate::entity::tower_made;
use crate::entity::tower_with_cooldown;
use crate::fx::fx_add;
use crate::fx::fx_add_spec;
use crate::fx::fx_div_spec;
use crate::fx::fx_mul_spec;
use crate::fx::fx_sub_spec;
use crate::geom::Pos;
use crate::geom::sq_dist_spec;
use crate::motion::PathKind;
use crate::target::PlacementKind;
use crate::target::sel_spec;
use crate::target::TargetKind;

verus! {

/// Speed of a fired projectile: 250 units/second.
pub const PROJ_SPEED: i64 = 16384000;

/// Pierce of a fired projectile.
pub const PROJ_PIERCE: u32 = 2;

/// Damage of a fired projectile.
pub const PROJ_DAMAGE: u32 = 1;

/// Radius of a fired projectile: 5 units.
pub const PROJ_RADIUS: i64 = 327680;

/// Collision threshold: the squared distance (in Q48.16 bits of square
/// units) below which a projectile hits an enemy; 10000 square units,
/// the square of the fixed 100-unit hit radius.
pub const HIT_THRESHOLD: i64 = 655360000;

/// Spawn health of a scheduled enemy.
pub const SPAWN_HEALTH: u32 = 1;

/// Engagement range of a tower placed by a pointer press: 100 units.
pub const PLACE_RANGE: i64 = 6553600;

/// Footprint radius of a tower placed by a pointer press: 15 units.
pub const PLACE_RADIUS: i64 = 983040;

/// Starting spawn interval: one second.
pub const START_INTERVAL: i64 = 65536;

/// Numerator of the spawn interval decay: 95 units.
pub const DECAY_NUM: i64 = 6225920;

/// Denominator of the spawn interval decay: 100 units.
pub const DECAY_DEN: i64 = 6553600;

/// The simulation aggregate: the player's health and money, the chosen
/// enemy path and default targeting strategy, the entity collections,
/// the difficulty, the previous-frame pointer state, and the
/// accelerating spawn timer.
pub struct Player {
    pub health: u32,
    pub money: u32,
    pub path: PathKind,
    pub def_target: TargetKind,
    pub enemies: Vec<Enemy>,
    pub projectiles: Vec<Projectile>,
    pub towers: Vec<Tower>,
    pub difficulty: u32,
    pub mouse_state: bool,
    pub tick_timer: i64,
    pub tick_interval: i64,
}

/// Whether two player states agree on everything a tick never touches:
/// health, money, path, targeting, difficulty and pointer state.
pub open spec fn same_meta(a: Player, b: Player) -> bool {
    &&& a.health == b.health
    &&& a.money == b.money
    &&& a.path == b.path
    &&& a.def_target == b.def_target
    &&& a.difficulty == b.difficulty
    &&& a.mouse_state == b.mouse_state
}

/// Starting player health for a difficulty: `200 - 50 * difficulty`,
/// at least 1.
pub open spec fn start_health_spec(difficulty: int) -> int {
    if difficulty <= 3 {
        200 - 50 * difficulty
    } else {
        1
    }
}

/// Starting money for a difficulty: `1000 - 100 * difficulty`, at
/// least 0.
pub open spec fn start_money_spec(difficulty: int) -> int {
    if difficulty <= 9 {
        1000 - 100 * difficulty
    } else {
        0
    }
}

/// A sequence with the element at `i` removed, unchanged when `i` is
/// out of range.
pub open spec fn remove_one_spec<T>(s: Seq<T>, i: int) -> Seq<T> {
    if 0 <= i < s.len() {
        s.remove(i)
    } else {
        s
    }
}

/// The spawn interval after one decay step: multiplied by 95 and
/// divided by 100, in fixed point.
pub open spec fn decayed_interval(interval: int) -> int {
    fx_div_spec(fx_mul_spec(interval, DECAY_NUM as int), DECAY_DEN as int)
}

/// Whether a projectile hits an enemy: squared distance strictly below
/// the fixed hit threshold.
pub open spec fn hit_spec(e: Enemy, p: Projectile) -> bool {
    sq_dist_spec(e.x as int, e.y as int, p.x as int, p.y as int) < HIT_THRESHOLD
}

/// Saturating unsigned subtraction: damage at or above the remaining
/// amount clamps to zero instead of wrapping.
pub open spec fn sat_sub_u32(a: u32, b: u32) -> u32 {
    if a >= b {
        (a - b) as u32
    } else {
        0u32
    }
}

/// Saturating unsigned subtraction.
pub fn sub_clamp(a: u32, b: u32) -> (r: u32)
    ensures
        r == sat_sub_u32(a, b),
{
    if a >= b {
        a - b
    } else {
        0
    }
}

/// The same enemy with its health replaced.
pub open spec fn enemy_with_health(e: Enemy, health: u32) -> Enemy {
    Enemy {
        health,
        reward: e.reward,
        speed: e.speed,
        time: e.time,
        x: e.x,
        y: e.y,
        radius: e.radius,
        tri: e.tri,
    }
}

/// The same projectile with its pierce replaced.
pub open spec fn proj_with_pierce(p: Projectile, pierce: u32) -> Projectile {
    Projectile {
        x: p.x,
        y: p.y,
        source: p.source,
        target: p.target,
        lifetime: p.lifetime,
        time: p.time,
        speed: p.speed,
        path: p.path,
        pierce,
        damage: p.damage,
        tri: p.tri,
        radius: p.radius,
    }
}

/// A pierce value less `k` decrements, clamped at zero.
pub open spec fn pierce_less(pierce: u32, k: int) -> u32 {
    if k >= pierce {
        0u32
    } else {
        (pierce - k) as u32
    }
}

/// How many of the first `n` enemies the projectile `p` qualifies
/// against.
pub open spec fn hit_count(es: Seq<Enemy>, n: int, p: Projectile) -> int
    decreases n,
{
    if n <= 0 {
        0
    } else {
        hit_count(es, n - 1, p) + if hit_spec(es[n - 1], p) {
            1int
        } else {
            0int
        }
    }
}

/// A hit count is never negative and never exceeds the number of
/// enemies scanned.
pub proof fn lemma_hit_count_range(es: Seq<Enemy>, n: int, p: Projectile)
    ensures
        0 <= hit_count(es, n, p),
        n >= 0 ==> hit_count(es, n, p) <= n,
    decreases n,
{
    if n > 0 {
        lemma_hit_count_range(es, n - 1, p);
    }
}

/// The damage records one enemy at index `ei` contributes, scanning the
/// projectiles in order: for each projectile that hits, the enemy index
/// and its health less that projectile's damage, clamped at zero.
pub open spec fn row_hits_e(e: Enemy, ei: usize, ps: Seq<Projectile>) -> Seq<(usize, u32)>
    decreases ps.len(),
{
    if ps.len() <= 0 {
        Seq::empty()
    } else {
        let prev = row_hits_e(e, ei, ps.drop_last());
        if hit_spec(e, ps.last()) {
            prev.push((ei, sat_sub_u32(e.health, ps.last().damage)))
        } else {
            prev
        }
    }
}

/// The pierce records the enemy at index `ei` contributes, scanning the
/// projectiles in order: for each projectile that hits, its index and
/// its pierce less one decrement per qualifying pair so far (this one
/// included), clamped at zero. Pierce reaching zero mid-scan does not
/// stop further pairs being recorded.
pub open spec fn row_hits_p(es: Seq<Enemy>, ei: int, ps: Seq<Projectile>) -> Seq<(usize, u32)>
    decreases ps.len(),
{
    if ps.len() <= 0 {
        Seq::empty()
    } else {
        let prev = row_hits_p(es, ei, ps.drop_last());
        if hit_spec(es[ei], ps.last()) {
            prev.push(
                (
                    ((ps.len() - 1) as usize),
                    pierce_less(ps.last().pierce, hit_count(es, ei, ps.last()) + 1),
                ),
            )
        } else {
            prev
        }
    }
}

/// The damage records of the all-pairs scan over the first `n`
/// enemies, enemies outermost.
pub open spec fn hits_e_upto(es: Seq<Enemy>, ps: Seq<Projectile>, n: int) -> Seq<(usize, u32)>
    decreases n,
{
    if n <= 0 {
        Seq::empty()
    } else {
        hits_e_upto(es, ps, n - 1) + row_hits_e(es[n - 1], (n - 1) as usize, ps)
    }
}

/// All damage records of the all-pairs scan, enemies outermost.
pub open spec fn hits_e_spec(es: Seq<Enemy>, ps: Seq<Projectile>) -> Seq<(usize, u32)> {
    hits_e_upto(es, ps, es.len() as int)
}

/// The pierce records of the all-pairs scan over the first `n`
/// enemies, enemies outermost.
pub open spec fn hits_p_upto(es: Seq<Enemy>, ps: Seq<Projectile>, n: int) -> Seq<(usize, u32)>
    decreases n,
{
    if n <= 0 {
        Seq::empty()
    } else {
        hits_p_upto(es, ps, n - 1) + row_hits_p(es, n - 1, ps)
    }
}

/// All pierce records of the all-pairs scan, enemies outermost: the
/// k-th record of one projectile carries its snapshot pierce less `k`,
/// saturating at zero, so a projectile qualifying against `k` enemies
/// ends the scan recorded at `max(pierce - k, 0)`.
pub open spec fn hits_p_spec(es: Seq<Enemy>, ps: Seq<Projectile>) -> Seq<(usize, u32)> {
    hits_p_upto(es, ps, es.len() as int)
}

/// Every enemy advanced by `dt` along the given path.
pub open spec fn move_enemies_spec(es: Seq<Enemy>, dt: int, kind: PathKind) -> Seq<Enemy> {
    es.map_values(|e: Enemy| enemy_after_update(e, dt, kind))
}

/// Tower fire resolution over a read-only enemy snapshot, towers in
/// order: each tower's cooldown counts down by `dt`; a tower whose new
/// cooldown is below zero runs its targeting strategy, and on a hit
/// records a (tower position, target position) pair and resets its
/// cooldown.
pub open spec fn tower_phase_spec(ts: Seq<Tower>, es: Seq<Enemy>, dt: int) -> (Seq<Tower>, Seq<
    (Pos, Pos),
>)
    decreases ts.len(),
{
    if ts.len() <= 0 {
        (Seq::<Tower>::empty(), Seq::<(Pos, Pos)>::empty())
    } else {
        let r = tower_phase_spec(ts.drop_last(), es, dt);
        let t = ts.last();
        let cd1 = fx_sub_spec(t.cooldown as int, dt);
        if cd1 < 0 {
            match sel_spec(t.x as int, t.y as int, es, t.range as int) {
                Option::Some(k) => (
                    r.0.push(tower_with_cooldown(t, t.max_cooldown as int)),
                    r.1.push(((t.x, t.y), (es[k].x, es[k].y))),
                ),
                Option::None => (r.0.push(tower_with_cooldown(t, cd1)), r.1),
            }
        } else {
            (r.0.push(tower_with_cooldown(t, cd1)), r.1)
        }
    }
}

/// The projectile that a recorded (tower position, target position)
/// pair spawns, with the fixed firing-policy parameters.
pub open spec fn fired_projectile(s: (Pos, Pos)) -> Projectile {
    projectile_made(s.0, s.1, PROJ_SPEED, PROJ_PIERCE, PROJ_DAMAGE, PROJ_RADIUS)
}

/// The projectiles that a sequence of recorded pairs spawns.
pub open spec fn fired_projectiles(shots: Seq<(Pos, Pos)>) -> Seq<Projectile> {
    shots.map_values(|s: (Pos, Pos)| fired_projectile(s))
}

/// Every projectile advanced by `dt` along its path.
pub open spec fn move_projs_spec(ps: Seq<Projectile>, dt: int) -> Seq<Projectile> {
    ps.map_values(|p: Projectile| proj_after_update(p, dt))
}

/// The projectiles whose lifetime has not yet elapsed, in order:
/// lifetime removal drops every projectile with `time >= lifetime`, so
/// none of them reaches the collision scan.
pub open spec fn live_projectiles(ps: Seq<Projectile>) -> Seq<Projectile>
    decreases ps.len(),
{
    if ps.len() <= 0 {
        Seq::empty()
    } else {
        let prev = live_projectiles(ps.drop_last());
        if ps.last().time < ps.last().lifetime {
            prev.push(ps.last())
        } else {
            prev
        }
    }
}

/// Apply the recorded damage in order: a record whose index is still
/// valid sets that enemy's health; an enemy set to zero health is
/// removed at once.
pub open spec fn apply_damage_spec(es: Seq<Enemy>, hits: Seq<(usize, u32)>) -> Seq<Enemy>
    decreases hits.len(),
{
    if hits.len() <= 0 {
        es
    } else {
        let prev = apply_damage_spec(es, hits.drop_last());
        let h = hits.last();
        if (h.0 as int) < prev.len() {
            if h.1 == 0 {
                prev.remove(h.0 as int)
            } else {
                prev.update(h.0 as int, enemy_with_health(prev[h.0 as int], h.1))
            }
        } else {
            prev
        }
    }
}

/// Apply the recorded pierce values in order: a record whose index is
/// still valid sets that projectile's pierce; a projectile set to zero
/// pierce is removed at once.
pub open spec fn apply_pierce_spec(ps: Seq<Projectile>, hits: Seq<(usize, u32)>) -> Seq<Projectile>
    decreases hits.len(),
{
    if hits.len() <= 0 {
        ps
    } else {
        let prev = apply_pierce_spec(ps, hits.drop_last());
        let h = hits.last();
        if (h.0 as int) < prev.len() {
            if h.1 == 0 {
                prev.remove(h.0 as int)
            } else {
                prev.update(h.0 as int, proj_with_pierce(prev[h.0 as int], h.1))
            }
        } else {
            prev
        }
    }
}

/// The enemies after the movement phase of a tick.
pub open spec fn enemies_moved_tick(p: Player, dt: int) -> Seq<Enemy> {
    move_enemies_spec(p.enemies@, dt, p.path)
}

/// The towers after a tick: cooldowns counted down against the moved
/// enemy snapshot, fired towers reset.
pub open spec fn towers_after_tick(p: Player, dt: int) -> Seq<Tower> {
    tower_phase_spec(p.towers@, enemies_moved_tick(p, dt), dt).0
}

/// The (tower position, target position) pairs recorded in a tick.
pub open spec fn shots_tick(p: Player, dt: int) -> Seq<(Pos, Pos)> {
    tower_phase_spec(p.towers@, enemies_moved_tick(p, dt), dt).1
}

/// The projectiles still flying after the movement phases of a tick:
/// the old ones plus those just fired, all advanced by `dt`, the
/// lifetime-expired ones removed.
pub open spec fn projs_flying_tick(p: Player, dt: int) -> Seq<Projectile> {
    let spawned = p.projectiles@ + fired_projectiles(shots_tick(p, dt));
    live_projectiles(move_projs_spec(spawned, dt))
}

/// The enemies after combat resolution in a tick.
pub open spec fn enemies_after_combat(p: Player, dt: int) -> Seq<Enemy> {
    apply_damage_spec(
        enemies_moved_tick(p, dt),
        hits_e_spec(enemies_moved_tick(p, dt), projs_flying_tick(p, dt)),
    )
}

/// The projectiles at the end of a tick: pierce applied and exhausted
/// projectiles removed.
pub open spec fn projectiles_after_tick(p: Player, dt: int) -> Seq<Projectile> {
    apply_pierce_spec(
        projs_flying_tick(p, dt),
        hits_p_spec(enemies_moved_tick(p, dt), projs_flying_tick(p, dt)),
    )
}

/// Whether the spawn timer fires in this tick: the accumulated time
/// exceeds the current interval.
pub open spec fn spawn_due(p: Player, dt: int) -> bool {
    fx_add_spec(p.tick_timer as int, dt) > p.tick_interval
}

/// The spawn timer after a tick: accumulated by `dt`, less one
/// interval if it fired.
pub open spec fn timer_after_tick(p: Player, dt: int) -> int {
    if spawn_due(p, dt) {
        fx_sub_spec(fx_add_spec(p.tick_timer as int, dt), p.tick_interval as int)
    } else {
        fx_add_spec(p.tick_timer as int, dt)
    }
}

/// The spawn interval after a tick: decayed if the timer fired.
pub open spec fn interval_after_tick(p: Player, dt: int) -> int {
    if spawn_due(p, dt) {
        decayed_interval(p.tick_interval as int)
    } else {
        p.tick_interval as int
    }
}

/// The enemies at the end of a tick: combat applied, plus one
/// scheduled spawn if the timer fired.
pub open spec fn enemies_after_tick(p: Player, dt: int) -> Seq<Enemy> {
    if spawn_due(p, dt) {
        enemies_after_combat(p, dt).push(spawned_enemy(SPAWN_HEALTH))
    } else {
        enemies_after_combat(p, dt)
    }
}

impl Player {
    /// A fresh player: health and money derived from the difficulty,
    /// empty entity collections, pointer not pressed, and the spawn
    /// timer at zero with a one-second interval.
    pub fn new(difficulty: u32, path: PathKind, def_target: TargetKind) -> (p: Player)
        ensures
            p.health == start_health_spec(difficulty as int),
            p.money == start_money_spec(difficulty as int),
            p.path == path,
            p.def_target == def_target,
            p.enemies@ == Seq::<Enemy>::empty(),
            p.projectiles@ == Seq::<Projectile>::empty(),
            p.towers@ == Seq::<Tower>::empty(),
            p.difficulty == difficulty,
            p.mouse_state == false,
            p.tick_timer == 0,
            p.tick_interval == START_INTERVAL,
    {
        let hd: u64 = difficulty as u64 * 50;
        let n_health: u32 = if hd >= 200 {
            1
        } else {
            (200 - hd) as u32
        };
        let md: u64 = difficulty as u64 * 100;
        let n_money: u32 = if md >= 1000 {
            0
        } else {
            (1000 - md) as u32
        };
        let enemies: Vec<Enemy> = Vec::new();
        let projectiles: Vec<Projectile> = Vec::new();
        let towers: Vec<Tower> = Vec::new();
        proof {
            assert(enemies@ =~= Seq::<Enemy>::empty());
            assert(projectiles@ =~= Seq::<Projectile>::empty());
            assert(towers@ =~= Seq::<Tower>::empty());
        }
        Player {
            health: n_health,
            money: n_money,
            path,
            def_target,
            enemies,
            projectiles,
            towers,
            difficulty,
            mouse_state: false,
            tick_timer: 0,
            tick_interval: START_INTERVAL,
        }
    }

    /// Append a fresh enemy of the given spawn health.
    pub fn new_enemy(&mut self, health: u32)
        ensures
            final(self).enemies@ == old(self).enemies@.push(spawned_enemy(health)),
            final(self).projectiles@ == old(self).projectiles@,
            final(self).towers@ == old(self).towers@,
            final(self).health == old(self).health,
            final(self).money == old(self).money,
            final(self).path == old(self).path,
            final(self).def_target == old(self).def_target,
            final(self).difficulty == old(self).difficulty,
            final(self).mouse_state == old(self).mouse_state,
            final(self).tick_timer == old(self).tick_timer,
            final(self).tick_interval == old(self).tick_interval,
    {
        let n_enemy = Enemy::new(health);
        self.enemies.push(n_enemy);
    }

    /// Place a fresh tower at `(x, y)`.
    pub fn new_tower(
        &mut self,
        x: i64,
        y: i64,
        target: TargetKind,
        placement: PlacementKind,
        range: i64,
        radius: i64,
    )
        ensures
            final(self).towers@ == old(self).towers@.push(
                tower_made(x, y, target, placement, range, radius),
            ),
            final(self).enemies@ == old(self).enemies@,
            final(self).projectiles@ == old(self).projectiles@,
            final(self).health == old(self).health,
            final(self).money == old(self).money,
            final(self).path == old(self).path,
            final(self).def_target == old(self).def_target,
            final(self).difficulty == old(self).difficulty,
            final(self).mouse_state == old(self).mouse_state,
            final(self).tick_timer == old(self).tick_timer,
            final(self).tick_interval == old(self).tick_interval,
    {
        let n_tower = Tower::new(x, y, target, placement, range, radius);
        self.towers.push(n_tower);
    }

    /// Spawn a fresh projectile from `source` aimed at `target`.
    pub fn new_projectile(
        &mut self,
        source: Pos,
        target: Pos,
        speed: i64,
        pierce: u32,
        damage: u32,
        radius: i64,
    )
        ensures
            final(self).projectiles@ == old(self).projectiles@.push(
                projectile_made(source, target, speed, pierce, damage, radius),
            ),
            final(self).enemies@ == old(self).enemies@,
            final(self).towers@ == old(self).towers@,
            final(self).health == old(self).health,
            final(self).money == old(self).money,
            final(self).path == old(self).path,
            final(self).def_target == old(self).def_target,
            final(self).difficulty == old(self).difficulty,
            final(self).mouse_state == old(self).mouse_state,
            final(self).tick_timer == old(self).tick_timer,
            final(self).tick_interval == old(self).tick_interval,
    {
        let n_projectile = Projectile::new(source, target, speed, pierce, damage, radius);
        self.projectiles.push(n_projectile);
    }

    /// Remove the projectile at `pos`; out-of-range positions are
    /// ignored, not an error.
    pub fn remove_projectile(&mut self, pos: usize)
        ensures
            final(self).projectiles@ == remove_one_spec(old(self).projectiles@, pos as int),
            final(self).enemies@ == old(self).enemies@,
            final(self).towers@ == old(self).towers@,
            final(self).health == old(self).health,
            final(self).money == old(self).money,
            final(self).path == old(self).path,
            final(self).def_target == old(self).def_target,
            final(self).difficulty == old(self).difficulty,
            final(self).mouse_state == old(self).mouse_state,
            final(self).tick_timer == old(self).tick_timer,
            final(self).tick_interval == old(self).tick_interval,
    {
        if pos >= self.projectiles.len() {
            return ;
        }
        self.projectiles.remove(pos);
    }

    /// Remove the enemy at `pos`; out-of-range positions are ignored,
    /// not an error.
    pub fn remove_enemy(&mut self, pos: usize)
        ensures
            final(self).enemies@ == remove_one_spec(old(self).enemies@, pos as int),
            final(self).projectiles@ == old(self).projectiles@,
            final(self).towers@ == old(self).towers@,
            final(self).health == old(self).health,
            final(self).money == old(self).money,
            final(self).path == old(self).path,
            final(self).def_target == old(self).def_target,
            final(self).difficulty == old(self).difficulty,
            final(self).mouse_state == old(self).mouse_state,
            final(self).tick_timer == old(self).tick_timer,
            final(self).tick_interval == old(self).tick_interval,
    {
        if pos >= self.enemies.len() {
            return ;
        }
        self.enemies.remove(pos);
    }

    /// The spawn-timer event: append one enemy of the fixed spawn
    /// health.
    pub fn on_tick(&mut self)
        ensures
            final(self).enemies@ == old(self).enemies@.push(spawned_enemy(SPAWN_HEALTH)),
            final(self).projectiles@ == old(self).projectiles@,
            final(self).towers@ == old(self).towers@,
            final(self).health == old(self).health,
            final(self).money == old(self).money,
            final(self).path == old(self).path,
            final(self).def_target == old(self).def_target,
            final(self).difficulty == old(self).difficulty,
            final(self).mouse_state == old(self).mouse_state,
            final(self).tick_timer == old(self).tick_timer,
            final(self).tick_interval == old(self).tick_interval,
    {
        self.new_enemy(SPAWN_HEALTH);
    }

    /// Consume one frame of pointer input: on the frame the pointer
    /// goes down (edge-triggered, debounced by the stored
    /// previous-frame state), place a tower at the pointer position,
    /// subject to the placement policy.
    pub fn input(&mut self, mouse_down: bool, mouse_pos: Pos)
        ensures
            final(self).mouse_state == mouse_down,
            mouse_down && !old(self).mouse_state ==> final(self).towers@ == old(self).towers@.push(
                tower_made(
                    mouse_pos.0,
                    mouse_pos.1,
                    TargetKind::FirstByProgress,
                    PlacementKind::AlwaysValid,
                    PLACE_RANGE,
                    PLACE_RADIUS,
                ),
            ),
            !(mouse_down && !old(self).mouse_state) ==> final(self).towers@ == old(self).towers@,
            final(self).enemies@ == old(self).enemies@,
            final(self).projectiles@ == old(self).projectiles@,
            final(self).health == old(self).health,
            final(self).money == old(self).money,
            final(self).path == old(self).path,
            final(self).def_target == old(self).def_target,
            final(self).difficulty == old(self).difficulty,
            final(self).tick_timer == old(self).tick_timer,
            final(self).tick_interval == old(self).tick_interval,
    {
        if mouse_down {
            if !self.mouse_state {
                let ok: bool = crate::target::placement_valid(
                    PlacementKind::AlwaysValid,
                    mouse_pos,
                    PLACE_RADIUS,
                    &self.towers,
                );
                if ok {
                    self.new_tower(
                        mouse_pos.0,
                        mouse_pos.1,
                        TargetKind::FirstByProgress,
                        PlacementKind::AlwaysValid,
                        PLACE_RANGE,
                        PLACE_RADIUS,
                    );
                }
            }
            self.mouse_state = true;
        } else {
            self.mouse_state = false;
        }
    }

    /// The all-pairs collision scan: for every enemy and projectile
    /// pair within the fixed hit threshold, record the enemy index with
    /// its snapshot health less the projectile's damage, and the
    /// projectile index with its snapshot pierce less one decrement per
    /// qualifying pair so far, both clamped at zero. Pierce reaching
    /// zero mid-scan does not stop further pairs being recorded.
    pub fn enemies_hit(&self) -> (out: (Vec<(usize, u32)>, Vec<(usize, u32)>))
        ensures
            out.0@ == hits_e_spec(self.enemies@, self.projectiles@),
            out.1@ == hits_p_spec(self.enemies@, self.projectiles@),
    {
        let ghost es = self.enemies@;
        let ghost ps = self.projectiles@;
        let mut out0: Vec<(usize, u32)> = Vec::new();
        let mut out1: Vec<(usize, u32)> = Vec::new();
        let mut remaining: Vec<u32> = Vec::new();
        let mut rj: usize = 0;
        while rj < self.projectiles.len()
            invariant
                rj <= self.projectiles.len(),
                ps == self.projectiles@,
                remaining@.len() == rj,
                forall|j: int| 0 <= j < rj ==> remaining@[j] == ps[j].pierce,
            decreases self.projectiles.len() - rj,
        {
            remaining.push(self.projectiles[rj].pierce);
            rj = rj + 1;
        }
        let mut ei: usize = 0;
        while ei < self.enemies.len()
            invariant
                ei <= self.enemies.len(),
                es == self.enemies@,
                ps == self.projectiles@,
                remaining@.len() == ps.len(),
                out0@ == hits_e_upto(es, ps, ei as int),
                out1@ == hits_p_upto(es, ps, ei as int),
                forall|j: int|
                    0 <= j < ps.len() ==> remaining@[j] == pierce_less(
                        ps[j].pierce,
                        hit_count(es, ei as int, ps[j]),
                    ),
            decreases self.enemies.len() - ei,
        {
            let e: Enemy = self.enemies[ei];
            let mut pj: usize = 0;
            proof {
                assert(ps.take(0) =~= Seq::<Projectile>::empty());
            }
            while pj < self.projectiles.len()
                invariant
                    pj <= self.projectiles.len(),
                    ei < self.enemies.len(),
                    es == self.enemies@,
                    ps == self.projectiles@,
                    e == es[ei as int],
                    remaining@.len() == ps.len(),
                    out0@ == hits_e_upto(es, ps, ei as int) + row_hits_e(
                        e,
                        ei,
                        ps.take(pj as int),
                    ),
                    out1@ == hits_p_upto(es, ps, ei as int) + row_hits_p(
                        es,
                        ei as int,
                        ps.take(pj as int),
                    ),
                    forall|j: int|
                        0 <= j < pj ==> remaining@[j] == pierce_less(
                            ps[j].pierce,
                            hit_count(es, ei as int, ps[j]) + if hit_spec(es[ei as int], ps[j]) {
                                1int
                            } else {
                                0int
                            },
                        ),
                    forall|j: int|
                        pj <= j < ps.len() ==> remaining@[j] == pierce_less(
                            ps[j].pierce,
                            hit_count(es, ei as int, ps[j]),
                        ),
                decreases self.projectiles.len() - pj,
            {
                let p: Projectile = self.projectiles[pj];
                let d: i64 = crate::geom::pythag((e.x, e.y), (p.x, p.y));
                if d < HIT_THRESHOLD {
                    let nh: u32 = sub_clamp(e.health, p.damage);
                    let np: u32 = sub_clamp(remaining[pj], 1);
                    proof {
                        lemma_hit_count_range(es, ei as int, ps[pj as int]);
                        assert(np == pierce_less(
                            ps[pj as int].pierce,
                            hit_count(es, ei as int, ps[pj as int]) + 1,
                        ));
                    }
                    remaining.set(pj, np);
                    out0.push((ei, nh));
                    out1.push((pj, np));
                }
                proof {
                    assert(ps.take(pj as int + 1).drop_last() =~= ps.take(pj as int));
                    assert(ps.take(pj as int + 1).last() == ps[pj as int]);
                }
                pj = pj + 1;
            }
            proof {
                assert(ps.take(ps.len() as int) =~= ps);
            }
            ei = ei + 1;
        }
        (out0, out1)
    }

    /// Tick phase: advance every enemy by `dt` along the player's path.
    fn phase_move_enemies(&mut self, dt: i64)
        ensures
            final(self).enemies@ == move_enemies_spec(
                old(self).enemies@,
                dt as int,
                old(self).path,
            ),
            final(self).projectiles@ == old(self).projectiles@,
            final(self).towers@ == old(self).towers@,
            same_meta(*final(self), *old(self)),
            final(self).tick_timer == old(self).tick_timer,
            final(self).tick_interval == old(self).tick_interval,
    {
        let ghost p0 = *self;
        let mut i: usize = 0;
        while i < self.enemies.len()
            invariant
                i <= self.enemies.len(),
                self.enemies@.len() == p0.enemies@.len(),
                self.path == p0.path,
                forall|j: int|
                    0 <= j < i ==> self.enemies@[j] == enemy_after_update(
                        p0.enemies@[j],
                        dt as int,
                        p0.path,
                    ),
                forall|j: int| i <= j < p0.enemies@.len() ==> self.enemies@[j] == p0.enemies@[j],
                self.projectiles@ == p0.projectiles@,
                self.towers@ == p0.towers@,
                same_meta(*self, p0),
                self.tick_timer == p0.tick_timer,
                self.tick_interval == p0.tick_interval,
            decreases self.enemies.len() - i,
        {
            let mut e: Enemy = self.enemies[i];
            e.update(dt, self.path);
            self.enemies.set(i, e);
            i = i + 1;
        }
        proof {
            assert(self.enemies@ =~= move_enemies_spec(p0.enemies@, dt as int, p0.path));
        }
    }

    /// Tick phase: tower fire resolution against the current enemy
    /// snapshot; returns the recorded (tower position, target position)
    /// pairs.
    fn phase_towers(&mut self, dt: i64) -> (shots: Vec<(Pos, Pos)>)
        ensures
            final(self).towers@ == tower_phase_spec(
                old(self).towers@,
                old(self).enemies@,
                dt as int,
            ).0,
            shots@ == tower_phase_spec(old(self).towers@, old(self).enemies@, dt as int).1,
            final(self).enemies@ == old(self).enemies@,
            final(self).projectiles@ == old(self).projectiles@,
            same_meta(*final(self), *old(self)),
            final(self).tick_timer == old(self).tick_timer,
            final(self).tick_interval == old(self).tick_interval,
    {
        let ghost p0 = *self;
        let mut shots: Vec<(Pos, Pos)> = Vec::new();
        let mut ti: usize = 0;
        proof {
            assert(p0.towers@.take(0) =~= Seq::<Tower>::empty());
            assert(shots@ =~= Seq::<(Pos, Pos)>::empty());
        }
        while ti < self.towers.len()
            invariant
                ti <= self.towers.len(),
                self.towers@.len() == p0.towers@.len(),
                self.enemies@ == p0.enemies@,
                forall|j: int| ti <= j < p0.towers@.len() ==> self.towers@[j] == p0.towers@[j],
                self.towers@.take(ti as int) == tower_phase_spec(
                    p0.towers@.take(ti as int),
                    p0.enemies@,
                    dt as int,
                ).0,
                shots@ == tower_phase_spec(p0.towers@.take(ti as int), p0.enemies@, dt as int).1,
                self.projectiles@ == p0.projectiles@,
                same_meta(*self, p0),
                self.tick_timer == p0.tick_timer,
                self.tick_interval == p0.tick_interval,
            decreases self.towers.len() - ti,
        {
            let mut t: Tower = self.towers[ti];
            let ready: bool = t.can_shoot(dt);
            if ready {
                let tower_pos: Pos = t.get_pos();
                let tk: TargetKind = t.get_target();
                let range: i64 = t.range;
                let sel: Option<usize> = crate::target::select_target(
                    tk,
                    tower_pos,
                    &self.enemies,
                    range,
                );
                match sel {
                    Option::Some(k) => {
                        let ex: i64 = self.enemies[k].x;
                        let ey: i64 = self.enemies[k].y;
                        shots.push((tower_pos, (ex, ey)));
                        t.reset_cooldown();
                    },
                    Option::None => {},
                }
            }
            self.towers.set(ti, t);
            proof {
                assert(p0.towers@.take(ti as int + 1).drop_last() =~= p0.towers@.take(ti as int));
                assert(p0.towers@.take(ti as int + 1).last() == p0.towers@[ti as int]);
                assert(self.towers@.take(ti as int + 1) =~= self.towers@.take(ti as int).push(
                    self.towers@[ti as int],
                ));
            }
            ti = ti + 1;
        }
        proof {
            assert(p0.towers@.take(p0.towers@.len() as int) =~= p0.towers@);
            assert(self.towers@.take(self.towers@.len() as int) =~= self.towers@);
        }
        shots
    }

    /// Tick phase: spawn one projectile for every recorded pair, with
    /// the fixed firing-policy parameters.
    fn phase_fire(&mut self, shots: &Vec<(Pos, Pos)>)
        ensures
            final(self).projectiles@ == old(self).projectiles@ + fired_projectiles(shots@),
            final(self).enemies@ == old(self).enemies@,
            final(self).towers@ == old(self).towers@,
            same_meta(*final(self), *old(self)),
            final(self).tick_timer == old(self).tick_timer,
            final(self).tick_interval == old(self).tick_interval,
    {
        let ghost p0 = *self;
        let mut k: usize = 0;
        proof {
            assert(p0.projectiles@ + fired_projectiles(shots@.take(0)) =~= p0.projectiles@);
        }
        while k < shots.len()
            invariant
                k <= shots.len(),
                self.projectiles@ == p0.projectiles@ + fired_projectiles(shots@.take(k as int)),
                self.enemies@ == p0.enemies@,
                self.towers@ == p0.towers@,
                same_meta(*self, p0),
                self.tick_timer == p0.tick_timer,
                self.tick_interval == p0.tick_interval,
            decreases shots.len() - k,
        {
            let s: (Pos, Pos) = shots[k];
            self.new_projectile(s.0, s.1, PROJ_SPEED, PROJ_PIERCE, PROJ_DAMAGE, PROJ_RADIUS);
            proof {
                assert(fired_projectiles(shots@.take(k as int + 1)) =~= fired_projectiles(
                    shots@.take(k as int),
                ).push(fired_projectile(shots@[k as int])));
                assert(p0.projectiles@ + fired_projectiles(shots@.take(k as int + 1))
                    =~= (p0.projectiles@ + fired_projectiles(shots@.take(k as int))).push(
                    fired_projectile(shots@[k as int]),
                ));
            }
            k = k + 1;
        }
        proof {
            assert(shots@.take(shots@.len() as int) =~= shots@);
        }
    }

    /// Tick phase: advance every projectile by `dt` along its path.
    fn phase_move_projectiles(&mut self, dt: i64)
        ensures
            final(self).projectiles@ == move_projs_spec(old(self).projectiles@, dt as int),
            final(self).enemies@ == old(self).enemies@,
            final(self).towers@ == old(self).towers@,
            same_meta(*final(self), *old(self)),
            final(self).tick_timer == old(self).tick_timer,
            final(self).tick_interval == old(self).tick_interval,
    {
        let ghost p0 = *self;
        let ghost moved = move_projs_spec(p0.projectiles@, dt as int);
        let mut pi: usize = 0;
        while pi < self.projectiles.len()
            invariant
                pi <= self.projectiles.len(),
                self.projectiles@.len() == p0.projectiles@.len(),
                moved == move_projs_spec(p0.projectiles@, dt as int),
                forall|j: int| 0 <= j < pi ==> self.projectiles@[j] == moved[j],
                forall|j: int|
                    pi <= j < p0.projectiles@.len() ==> self.projectiles@[j] == p0.projectiles@[j],
                self.enemies@ == p0.enemies@,
                self.towers@ == p0.towers@,
                same_meta(*self, p0),
                self.tick_timer == p0.tick_timer,
                self.tick_interval == p0.tick_interval,
            decreases self.projectiles.len() - pi,
        {
            let mut pr: Projectile = self.projectiles[pi];
            let _expired: bool = pr.update(dt);
            self.projectiles.set(pi, pr);
            proof {
                assert(moved[pi as int] == proj_after_update(p0.projectiles@[pi as int], dt as int));
            }
            pi = pi + 1;
        }
        proof {
            assert(self.projectiles@ =~= moved);
        }
    }

    /// Tick phase: remove every lifetime-expired projectile, keeping
    /// the survivors in order; no projectile with `time >= lifetime`
    /// survives this phase.
    fn phase_remove_expired(&mut self)
        ensures
            final(self).projectiles@ == live_projectiles(old(self).projectiles@),
            forall|j: int|
                0 <= j < final(self).projectiles@.len()
                    ==> (#[trigger] final(self).projectiles@[j]).time
                    < final(self).projectiles@[j].lifetime,
            final(self).enemies@ == old(self).enemies@,
            final(self).towers@ == old(self).towers@,
            same_meta(*final(self), *old(self)),
            final(self).tick_timer == old(self).tick_timer,
            final(self).tick_interval == old(self).tick_interval,
    {
        let ghost p0 = *self;
        let mut kept: Vec<Projectile> = Vec::new();
        let mut pi: usize = 0;
        proof {
            assert(p0.projectiles@.take(0) =~= Seq::<Projectile>::empty());
        }
        while pi < self.projectiles.len()
            invariant
                pi <= self.projectiles.len(),
                self.projectiles@ == p0.projectiles@,
                kept@ == live_projectiles(p0.projectiles@.take(pi as int)),
                forall|j: int|
                    0 <= j < kept@.len() ==> (#[trigger] kept@[j]).time < kept@[j].lifetime,
                self.enemies@ == p0.enemies@,
                self.towers@ == p0.towers@,
                same_meta(*self, p0),
                self.tick_timer == p0.tick_timer,
                self.tick_interval == p0.tick_interval,
            decreases self.projectiles.len() - pi,
        {
            let pr: Projectile = self.projectiles[pi];
            if pr.time < pr.lifetime {
                kept.push(pr);
            }
            proof {
                assert(p0.projectiles@.take(pi as int + 1).drop_last() =~= p0.projectiles@.take(
                    pi as int,
                ));
                assert(p0.projectiles@.take(pi as int + 1).last() == p0.projectiles@[pi as int]);
            }
            pi = pi + 1;
        }
        proof {
            assert(p0.projectiles@.take(p0.projectiles@.len() as int) =~= p0.projectiles@);
        }
        self.projectiles = kept;
    }

    /// Tick phase: apply the recorded damage; an enemy brought to zero
    /// health is removed at once.
    fn phase_apply_damage(&mut self, hits: &Vec<(usize, u32)>)
        ensures
            final(self).enemies@ == apply_damage_spec(old(self).enemies@, hits@),
            final(self).projectiles@ == old(self).projectiles@,
            final(self).towers@ == old(self).towers@,
            same_meta(*final(self), *old(self)),
            final(self).tick_timer == old(self).tick_timer,
            final(self).tick_interval == old(self).tick_interval,
    {
        let ghost p0 = *self;
        let mut k: usize = 0;
        proof {
            assert(hits@.take(0) =~= Seq::<(usize, u32)>::empty());
        }
        while k < hits.len()
            invariant
                k <= hits.len(),
                self.enemies@ == apply_damage_spec(p0.enemies@, hits@.take(k as int)),
                self.projectiles@ == p0.projectiles@,
                self.towers@ == p0.towers@,
                same_meta(*self, p0),
                self.tick_timer == p0.tick_timer,
                self.tick_interval == p0.tick_interval,
            decreases hits.len() - k,
        {
            let ghost prev = self.enemies@;
            let h: (usize, u32) = hits[k];
            if h.0 < self.enemies.len() {
                let mut e: Enemy = self.enemies[h.0];
                e.health = h.1;
                proof {
                    assert(e == enemy_with_health(prev[h.0 as int], h.1));
                }
                self.enemies.set(h.0, e);
                if h.1 == 0 {
                    self.remove_enemy(h.0);
                    proof {
                        assert(prev.update(h.0 as int, e).remove(h.0 as int) =~= prev.remove(
                            h.0 as int,
                        ));
                    }
                }
            }
            proof {
                assert(hits@.take(k as int + 1).drop_last() =~= hits@.take(k as int));
                assert(hits@.take(k as int + 1).last() == hits@[k as int]);
            }
            k = k + 1;
        }
        proof {
            assert(hits@.take(hits@.len() as int) =~= hits@);
        }
    }

    /// Tick phase: apply the recorded pierce values; a projectile
    /// brought to zero pierce is removed at once.
    fn phase_apply_pierce(&mut self, hits: &Vec<(usize, u32)>)
        ensures
            final(self).projectiles@ == apply_pierce_spec(old(self).projectiles@, hits@),
            final(self).enemies@ == old(self).enemies@,
            final(self).towers@ == old(self).towers@,
            same_meta(*final(self), *old(self)),
            final(self).tick_timer == old(self).tick_timer,
            final(self).tick_interval == old(self).tick_interval,
    {
        let ghost p0 = *self;
        let mut k: usize = 0;
        proof {
            assert(hits@.take(0) =~= Seq::<(usize, u32)>::empty());
        }
        while k < hits.len()
            invariant
                k <= hits.len(),
                self.projectiles@ == apply_pierce_spec(p0.projectiles@, hits@.take(k as int)),
                self.enemies@ == p0.enemies@,
                self.towers@ == p0.towers@,
                same_meta(*self, p0),
                self.tick_timer == p0.tick_timer,
                self.tick_interval == p0.tick_interval,
            decreases hits.len() - k,
        {
            let ghost prev = self.projectiles@;
            let h: (usize, u32) = hits[k];
            if h.0 < self.projectiles.len() {
                let mut pr: Projectile = self.projectiles[h.0];
                pr.pierce = h.1;
                proof {
                    assert(pr == proj_with_pierce(prev[h.0 as int], h.1));
                }
                self.projectiles.set(h.0, pr);
                if h.1 == 0 {
                    self.remove_projectile(h.0);
                    proof {
                        assert(prev.update(h.0 as int, pr).remove(h.0 as int) =~= prev.remove(
                            h.0 as int,
                        ));
                    }
                }
            }
            proof {
                assert(hits@.take(k as int + 1).drop_last() =~= hits@.take(k as int));
                assert(hits@.take(k as int + 1).last() == hits@[k as int]);
            }
            k = k + 1;
        }
        proof {
            assert(hits@.take(hits@.len() as int) =~= hits@);
        }
    }

    /// Tick phase: advance the spawn timer by `dt`; when it exceeds the
    /// interval, subtract the interval, decay it, and spawn one enemy.
    fn phase_spawn(&mut self, dt: i64)
        ensures
            final(self).tick_timer == timer_after_tick(*old(self), dt as int),
            final(self).tick_interval == interval_after_tick(*old(self), dt as int),
            spawn_due(*old(self), dt as int) ==> final(self).enemies@ == old(self).enemies@.push(
                spawned_enemy(SPAWN_HEALTH),
            ),
            !spawn_due(*old(self), dt as int) ==> final(self).enemies@ == old(self).enemies@,
            final(self).projectiles@ == old(self).projectiles@,
            final(self).towers@ == old(self).towers@,
            same_meta(*final(self), *old(self)),
    {
        self.tick_timer = fx_add(self.tick_timer, dt);
        if self.tick_timer > self.tick_interval {
            self.tick_timer = crate::fx::fx_sub(self.tick_timer, self.tick_interval);
            self.tick_interval = crate::fx::fx_div(
                crate::fx::fx_mul(self.tick_interval, DECAY_NUM),
                DECAY_DEN,
            );
            self.on_tick();
        }
    }

    /// Advance the whole simulation one tick: move enemies, resolve
    /// tower fire against the moved snapshot, spawn the recorded
    /// projectiles, move projectiles and drop the lifetime-expired
    /// ones, run the all-pairs collision scan, apply damage and pierce
    /// with immediate removal of dead enemies and spent projectiles,
    /// and finally advance the spawn timer.
    pub fn update(&mut self, dt: i64)
        ensures
            final(self).enemies@ == enemies_after_tick(*old(self), dt as int),
            final(self).projectiles@ == projectiles_after_tick(*old(self), dt as int),
            final(self).towers@ == towers_after_tick(*old(self), dt as int),
            final(self).tick_timer == timer_after_tick(*old(self), dt as int),
            final(self).tick_interval == interval_after_tick(*old(self), dt as int),
            same_meta(*final(self), *old(self)),
    {
        let ghost p0 = *self;
        self.phase_move_enemies(dt);
        let shots: Vec<(Pos, Pos)> = self.phase_towers(dt);
        self.phase_fire(&shots);
        self.phase_move_projectiles(dt);
        self.phase_remove_expired();
        let hits: (Vec<(usize, u32)>, Vec<(usize, u32)>) = self.enemies_hit();
        self.phase_apply_damage(&hits.0);
        self.phase_apply_pierce(&hits.1);
        self.phase_spawn(dt);
    }
}

} // verus!
