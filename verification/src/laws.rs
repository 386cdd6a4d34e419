//! Proved laws of the simulation: the cooldown state machine counts
//! down exactly; the spawn interval strictly shrinks at every spawn; a
//! projectile's pierce is spent one decrement per qualifying pair and
//! exhausting it removes the projectile; a qualifying hit leaves an
//! enemy at its health less the damage, removed exactly at zero; no
//! tick removes a tower; and a tick keeps every live enemy at positive
//! health and every live projectile at positive pierce and within its
//! lifetime.

use vstd::prelude::*;
use crate::entity::Enemy;
use crate::entity::Projectile;
use crate::entity::Tower;
use crate::fx::fx_sub_spec;
use crate::sim::apply_damage_spec;
use crate::sim::apply_pierce_spec;
use crate::sim::enemy_with_health;
use crate::sim::hit_count;
use crate::sim::hit_spec;
use crate::sim::hits_e_spec;
use crate::sim::hits_p_spec;
use crate::sim::hits_p_upto;
use crate::sim::lemma_hit_count_range;
use crate::sim::pierce_less;
use crate::sim::proj_with_pierce;
use crate::sim::row_hits_p;
use crate::sim::sat_sub_u32;
use crate::sim::enemies_after_tick;
use crate::sim::enemies_after_combat;
use crate::sim::enemies_moved_tick;
use crate::sim::fired_projectiles;
use crate::sim::move_projs_spec;
use crate::sim::projectiles_after_tick;
use crate::sim::projs_flying_tick;
use crate::sim::live_projectiles;
use crate::sim::Player;
use crate::sim::shots_tick;
use crate::sim::spawn_due;
use crate::sim::SPAWN_HEALTH;

verus! {

/// The sum of a sequence of elapsed-time steps.
pub open spec fn sum_dts(dts: Seq<int>) -> int
    decreases dts.len(),
{
    if dts.len() <= 0 {
        0
    } else {
        sum_dts(dts.drop_last()) + dts.last()
    }
}

/// A tower cooldown counted down by each elapsed-time step in turn,
/// exactly as `Tower::can_shoot` counts it.
pub open spec fn cooldown_after(cd0: int, dts: Seq<int>) -> int
    decreases dts.len(),
{
    if dts.len() <= 0 {
        cd0
    } else {
        fx_sub_spec(cooldown_after(cd0, dts.drop_last()), dts.last())
    }
}

/// The cooldown state machine counts down exactly: starting from a
/// nonnegative cooldown and counting down by nonnegative elapsed-time
/// steps whose sum stays in range, the remaining cooldown is the start
/// value minus the accumulated elapsed time. Readiness (`can_shoot`
/// reporting true) is the cooldown going below zero, so it is reached
/// exactly when the accumulated elapsed time exceeds the start value.
pub proof fn lemma_cooldown_countdown(cd0: int, dts: Seq<int>)
    requires
        0 <= cd0 <= i64::MAX,
        forall|i: int| 0 <= i < dts.len() ==> 0 <= #[trigger] dts[i],
        sum_dts(dts) <= i64::MAX,
    ensures
        cooldown_after(cd0, dts) == cd0 - sum_dts(dts),
    decreases dts.len(),
{
    if dts.len() > 0 {
        let pre = dts.drop_last();
        assert(forall|i: int| 0 <= i < pre.len() ==> 0 <= #[trigger] pre[i]);
        assert(0 <= dts.last());
        assert(sum_dts(pre) == sum_dts(dts) - dts.last());
        lemma_cooldown_countdown(cd0, pre);
    }
}

/// A tower whose cooldown starts at its reload duration does not
/// report ready while the accumulated elapsed time stays at or below
/// that duration.
pub proof fn lemma_tower_holds_fire(cd0: int, dts: Seq<int>)
    requires
        0 <= cd0 <= i64::MAX,
        forall|i: int| 0 <= i < dts.len() ==> 0 <= #[trigger] dts[i],
        sum_dts(dts) <= cd0,
    ensures
        cooldown_after(cd0, dts) >= 0,
{
    lemma_cooldown_countdown(cd0, dts);
}

/// The spawn interval strictly shrinks at every spawn and never goes
/// negative: decaying any positive interval (up to the range the
/// arithmetic keeps exact) multiplies it by 95/100 and rounds down,
/// which stays below the old value, so spawn pressure accelerates
/// forever, with no floor.
pub proof fn lemma_interval_decays(interval: int)
    requires
        1 <= interval <= 97088126703734482,
    ensures
        0 <= crate::sim::decayed_interval(interval) < interval,
{
    let scaled = interval * (crate::sim::DECAY_NUM as int);
    assert(scaled == (95 * interval) * 65536) by (nonlinear_arith)
        requires scaled == interval * 6225920;
    vstd::arithmetic::div_mod::lemma_fundamental_div_mod_converse(
        scaled,
        65536,
        95 * interval,
        0,
    );
    assert(95 * interval <= i64::MAX) by (nonlinear_arith)
        requires interval <= 97088126703734482;
    assert(crate::fx::fx_mul_spec(interval, crate::sim::DECAY_NUM as int) == 95 * interval);
    vstd::arithmetic::div_mod::lemma_fundamental_div_mod(95 * interval, 100);
    let q = (95 * interval) / 100;
    let r = (95 * interval) % 100;
    vstd::arithmetic::div_mod::lemma_div_pos_is_pos(95 * interval, 100);
    assert((95 * interval) * 65536 == q * (crate::sim::DECAY_DEN as int) + r * 65536)
        by (nonlinear_arith)
        requires 95 * interval == 100 * q + r;
    vstd::arithmetic::div_mod::lemma_fundamental_div_mod_converse(
        (95 * interval) * 65536,
        crate::sim::DECAY_DEN as int,
        q,
        r * 65536,
    );
    assert(q < interval) by (nonlinear_arith)
        requires 95 * interval == 100 * q + r, 0 <= r, interval >= 1;
}

/// Damage application keeps every remaining enemy at positive health:
/// an enemy set to zero health is removed in the same step, whatever
/// the recorded values are.
pub proof fn lemma_damage_keeps_alive(es: Seq<Enemy>, hits: Seq<(usize, u32)>)
    requires
        forall|i: int| 0 <= i < es.len() ==> (#[trigger] es[i]).health >= 1,
    ensures
        forall|i: int|
            0 <= i < apply_damage_spec(es, hits).len() ==> (#[trigger] apply_damage_spec(es, hits)[i]).health
                >= 1,
    decreases hits.len(),
{
    if hits.len() > 0 {
        lemma_damage_keeps_alive(es, hits.drop_last());
    }
}

/// Pierce application keeps every remaining projectile at positive
/// pierce and within its lifetime: a projectile set to zero pierce is
/// removed in the same step, whatever the recorded values are, and no
/// record touches a time or a lifetime.
pub proof fn lemma_pierce_keeps_flying(ps: Seq<Projectile>, hits: Seq<(usize, u32)>)
    requires
        forall|i: int| 0 <= i < ps.len() ==> (#[trigger] ps[i]).pierce >= 1,
        forall|i: int| 0 <= i < ps.len() ==> (#[trigger] ps[i]).time < ps[i].lifetime,
    ensures
        forall|i: int|
            0 <= i < apply_pierce_spec(ps, hits).len() ==> (#[trigger] apply_pierce_spec(ps, hits)[i]).pierce
                >= 1,
        forall|i: int|
            0 <= i < apply_pierce_spec(ps, hits).len() ==> (#[trigger] apply_pierce_spec(ps, hits)[i]).time
                < apply_pierce_spec(ps, hits)[i].lifetime,
    decreases hits.len(),
{
    if hits.len() > 0 {
        lemma_pierce_keeps_flying(ps, hits.drop_last());
    }
}

/// Scan-and-apply for a lone projectile against the first `n` enemies:
/// its pierce ends reduced by one per qualifying pair, and it is
/// removed exactly when the qualifying pairs reach its pierce.
proof fn lemma_one_projectile_scan(es: Seq<Enemy>, p: Projectile, n: int)
    requires
        0 <= n <= es.len(),
    ensures
        ({
            let hc = hit_count(es, n, p);
            let out = apply_pierce_spec(seq![p], hits_p_upto(es, seq![p], n));
            if hc == 0 {
                out == seq![p]
            } else if hc >= p.pierce {
                out == Seq::<Projectile>::empty()
            } else {
                out == seq![proj_with_pierce(p, (p.pierce - hc) as u32)]
            }
        }),
    decreases n,
{
    let ps = seq![p];
    if n <= 0 {
        assert(hits_p_upto(es, ps, n) == Seq::<(usize, u32)>::empty());
    } else {
        lemma_one_projectile_scan(es, p, n - 1);
        lemma_hit_count_range(es, n - 1, p);
        let hcp = hit_count(es, n - 1, p);
        let prevh = hits_p_upto(es, ps, n - 1);
        let row = row_hits_p(es, n - 1, ps);
        let prev_out = apply_pierce_spec(ps, prevh);
        assert(ps.drop_last() =~= Seq::<Projectile>::empty());
        assert(row_hits_p(es, n - 1, Seq::<Projectile>::empty()) == Seq::<(usize, u32)>::empty());
        if hit_spec(es[n - 1], p) {
            let r = (0usize, pierce_less(p.pierce, hcp + 1));
            assert(row =~= seq![r]);
            assert((prevh + row).drop_last() =~= prevh);
            assert((prevh + row).last() == r);
            let out = apply_pierce_spec(ps, prevh + row);
            if hcp == 0 {
                if p.pierce <= 1 {
                    assert(out =~= Seq::<Projectile>::empty());
                } else {
                    assert(out =~= seq![proj_with_pierce(p, (p.pierce - 1) as u32)]);
                }
            } else if hcp >= p.pierce {
                assert(prev_out.len() == 0);
                assert(out == prev_out);
            } else {
                let pp = proj_with_pierce(p, (p.pierce - hcp) as u32);
                assert(prev_out == seq![pp]);
                if hcp + 1 >= p.pierce {
                    assert(out =~= Seq::<Projectile>::empty());
                } else {
                    assert(proj_with_pierce(pp, pierce_less(p.pierce, hcp + 1))
                        == proj_with_pierce(p, (p.pierce - (hcp + 1)) as u32));
                    assert(out =~= seq![proj_with_pierce(p, (p.pierce - (hcp + 1)) as u32)]);
                }
            }
        } else {
            assert(row =~= Seq::<(usize, u32)>::empty());
            assert(prevh + row =~= prevh);
        }
    }
}

/// A projectile qualifying against `k` enemies in one collision scan
/// ends the resolution with its pierce reduced by `k`: untouched when
/// `k` is zero, removed exactly when `k` reaches its pierce (pierce 1
/// is spent by one qualifying hit, pierce 2 survives one hit and is
/// removed by a second), and left at `pierce - k` otherwise.
pub proof fn lemma_pierce_exhaustion(es: Seq<Enemy>, p: Projectile)
    ensures
        ({
            let hc = hit_count(es, es.len() as int, p);
            let out = apply_pierce_spec(seq![p], hits_p_spec(es, seq![p]));
            if hc == 0 {
                out == seq![p]
            } else if hc >= p.pierce {
                out == Seq::<Projectile>::empty()
            } else {
                out == seq![proj_with_pierce(p, (p.pierce - hc) as u32)]
            }
        }),
{
    lemma_one_projectile_scan(es, p, es.len() as int);
}

/// One enemy against one projectile: a qualifying hit leaves the enemy
/// at its health less the damage, and removes it exactly when the
/// damage reaches its health; the subtraction saturates, so health is
/// never a wrapped-around value. Without a qualifying hit nothing
/// changes.
pub proof fn lemma_damage_resolution(e: Enemy, p: Projectile)
    ensures
        ({
            let out = apply_damage_spec(seq![e], hits_e_spec(seq![e], seq![p]));
            if !hit_spec(e, p) {
                out == seq![e]
            } else if p.damage >= e.health {
                out == Seq::<Enemy>::empty()
            } else {
                out == seq![enemy_with_health(e, (e.health - p.damage) as u32)]
            }
        }),
{
    let es1 = seq![e];
    let ps1 = seq![p];
    let row = crate::sim::row_hits_e(e, 0, ps1);
    assert(ps1.drop_last() =~= Seq::<Projectile>::empty());
    assert(crate::sim::row_hits_e(e, 0, Seq::<Projectile>::empty()) == Seq::<(usize, u32)>::empty());
    assert(hits_e_spec(es1, ps1) == crate::sim::hits_e_upto(es1, ps1, 0) + row);
    if hit_spec(e, p) {
        let r = (0usize, sat_sub_u32(e.health, p.damage));
        assert(row =~= seq![r]);
        let recs = hits_e_spec(es1, ps1);
        assert(recs =~= seq![r]);
        assert(recs.drop_last() =~= Seq::<(usize, u32)>::empty());
        assert(recs.last() == r);
        assert(apply_damage_spec(es1, Seq::<(usize, u32)>::empty()) == es1);
        let out = apply_damage_spec(es1, recs);
        if p.damage >= e.health {
            assert(r.1 == 0);
            assert(out == es1.remove(0));
            assert(es1.remove(0) =~= Seq::<Enemy>::empty());
        } else {
            assert(out == es1.update(0, enemy_with_health(es1[0], r.1)));
            assert(es1.update(0, enemy_with_health(es1[0], r.1)) =~= seq![
                enemy_with_health(e, (e.health - p.damage) as u32),
            ]);
        }
    } else {
        assert(row =~= Seq::<(usize, u32)>::empty());
        assert(hits_e_spec(es1, ps1) =~= Seq::<(usize, u32)>::empty());
    }
}

/// Lifetime removal keeps only projectiles within their lifetime, and
/// keeps their pierce positive when it was.
proof fn lemma_live_projectiles_props(ps: Seq<Projectile>)
    requires
        forall|i: int| 0 <= i < ps.len() ==> (#[trigger] ps[i]).pierce >= 1,
    ensures
        forall|i: int|
            0 <= i < live_projectiles(ps).len() ==> (#[trigger] live_projectiles(ps)[i]).pierce
                >= 1,
        forall|i: int|
            0 <= i < live_projectiles(ps).len() ==> (#[trigger] live_projectiles(ps)[i]).time
                < live_projectiles(ps)[i].lifetime,
    decreases ps.len(),
{
    if ps.len() > 0 {
        let pre = ps.drop_last();
        assert(forall|i: int| 0 <= i < pre.len() ==> (#[trigger] pre[i]).pierce >= 1);
        lemma_live_projectiles_props(pre);
        assert(live_projectiles(ps) == if ps.last().time < ps.last().lifetime {
            live_projectiles(pre).push(ps.last())
        } else {
            live_projectiles(pre)
        });
    }
}

/// Tower fire resolution keeps every tower: it only counts cooldowns
/// down and resets those that fire.
pub proof fn lemma_tower_count_stable(ts: Seq<Tower>, es: Seq<Enemy>, dt: int)
    ensures
        crate::sim::tower_phase_spec(ts, es, dt).0.len() == ts.len(),
    decreases ts.len(),
{
    if ts.len() > 0 {
        lemma_tower_count_stable(ts.drop_last(), es, dt);
    }
}

/// No tick ever removes a tower: there is no sell or destroy
/// operation.
pub proof fn lemma_no_tower_is_removed(p: Player, dt: int)
    ensures
        crate::sim::towers_after_tick(p, dt).len() == p.towers@.len(),
{
    lemma_tower_count_stable(p.towers@, enemies_moved_tick(p, dt), dt);
}

/// The simulation invariant holds across a whole tick: when every live
/// enemy has positive health and every live projectile has positive
/// pierce before `Player::update`, then after it every live enemy has
/// positive health and every live projectile has positive pierce and a
/// time alive below its lifetime. Movement keeps health and pierce;
/// fired projectiles start with positive pierce; lifetime removal
/// drops everything at or past its lifetime; a spawned enemy starts
/// with positive health; and the application phases remove at once
/// whatever they bring to zero.
pub proof fn lemma_tick_preserves_liveness(p: Player, dt: int)
    requires
        forall|i: int| 0 <= i < p.enemies@.len() ==> (#[trigger] p.enemies@[i]).health >= 1,
        forall|i: int| 0 <= i < p.projectiles@.len() ==> (#[trigger] p.projectiles@[i]).pierce >= 1,
    ensures
        forall|i: int|
            0 <= i < enemies_after_tick(p, dt).len() ==> (#[trigger] enemies_after_tick(p, dt)[i]).health
                >= 1,
        forall|i: int|
            0 <= i < projectiles_after_tick(p, dt).len() ==> (#[trigger] projectiles_after_tick(
                p,
                dt,
            )[i]).pierce >= 1,
        forall|i: int|
            0 <= i < projectiles_after_tick(p, dt).len() ==> (#[trigger] projectiles_after_tick(
                p,
                dt,
            )[i]).time < projectiles_after_tick(p, dt)[i].lifetime,
{
    let moved_es = enemies_moved_tick(p, dt);
    assert(forall|i: int| 0 <= i < moved_es.len() ==> (#[trigger] moved_es[i]).health >= 1);
    let spawned = p.projectiles@ + fired_projectiles(shots_tick(p, dt));
    assert(forall|i: int| 0 <= i < spawned.len() ==> (#[trigger] spawned[i]).pierce >= 1);
    let moved_ps = move_projs_spec(spawned, dt);
    assert(forall|i: int| 0 <= i < moved_ps.len() ==> (#[trigger] moved_ps[i]).pierce >= 1);
    lemma_live_projectiles_props(moved_ps);
    let flying = projs_flying_tick(p, dt);
    assert(flying == live_projectiles(moved_ps));
    assert(forall|i: int| 0 <= i < flying.len() ==> (#[trigger] flying[i]).pierce >= 1);
    assert(forall|i: int| 0 <= i < flying.len() ==> (#[trigger] flying[i]).time < flying[i].lifetime);
    lemma_pierce_keeps_flying(flying, crate::sim::hits_p_spec(moved_es, flying));
    lemma_damage_keeps_alive(moved_es, crate::sim::hits_e_spec(moved_es, flying));
    let combat = enemies_after_combat(p, dt);
    assert(forall|i: int| 0 <= i < combat.len() ==> (#[trigger] combat[i]).health >= 1);
    if spawn_due(p, dt) {
        assert(crate::entity::spawned_enemy(SPAWN_HEALTH).health == 1);
        assert(enemies_after_tick(p, dt) == combat.push(crate::entity::spawned_enemy(
            SPAWN_HEALTH,
        )));
    }
}

} // verus!
