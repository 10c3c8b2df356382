//! Projectile-versus-enemy resolution and removal of spent entities.
use crate::enemy::Enemy;
use crate::geom::{collides, overlaps, sat, sat_add};
use crate::item::Item;
use crate::weapon::{Weapon, WEAPON_SIZE};
use vstd::prelude::*;

verus! {

/// Points scored for each projectile-enemy hit.
pub const HIT_POINTS: u64 = 5;

pub open spec fn weapon_hits(w: Weapon, e: Enemy) -> bool {
    overlaps(w.pos, WEAPON_SIZE as int, e.pos, e.size / 2)
}

/// How many of `es` the projectile `w` hits.
pub open spec fn hits_of(w: Weapon, es: Seq<Enemy>) -> nat
    decreases es.len(),
{
    if es.len() == 0 {
        0
    } else {
        hits_of(w, es.drop_last()) + if weapon_hits(w, es.last()) { 1nat } else { 0nat }
    }
}

/// How many of `ws` hit the enemy `e`.
pub open spec fn hits_on(ws: Seq<Weapon>, e: Enemy) -> nat
    decreases ws.len(),
{
    if ws.len() == 0 {
        0
    } else {
        hits_on(ws.drop_last(), e) + if weapon_hits(ws.last(), e) { 1nat } else { 0nat }
    }
}

/// The number of (projectile, enemy) pairs that overlap.
pub open spec fn total_hits(ws: Seq<Weapon>, es: Seq<Enemy>) -> nat
    decreases ws.len(),
{
    if ws.len() == 0 {
        0
    } else {
        total_hits(ws.drop_last(), es) + hits_of(ws.last(), es)
    }
}

/// A projectile that hit anything is spent.
pub open spec fn weapon_after_hits(w: Weapon, es: Seq<Enemy>) -> Weapon {
    if hits_of(w, es) > 0 {
        Weapon { ttl: 0, ..w }
    } else {
        w
    }
}

/// An enemy loses one health for each projectile that hits it.
pub open spec fn enemy_after_hits(e: Enemy, ws: Seq<Weapon>) -> Enemy {
    Enemy { health: sat(e.health - hits_on(ws, e)) as i64, ..e }
}

pub open spec fn weapons_after_hits(ws: Seq<Weapon>, es: Seq<Enemy>) -> Seq<Weapon> {
    Seq::new(ws.len(), |k: int| weapon_after_hits(ws[k], es))
}

pub open spec fn enemies_after_hits(es: Seq<Enemy>, ws: Seq<Weapon>) -> Seq<Enemy> {
    Seq::new(es.len(), |j: int| enemy_after_hits(es[j], ws))
}

/// `s` raised by `HIT_POINTS` for each of `hits`, saturating at `u64::MAX`.
pub open spec fn score_after(s: int, hits: int) -> int {
    if s + HIT_POINTS * hits > u64::MAX {
        u64::MAX as int
    } else {
        s + HIT_POINTS * hits
    }
}

pub open spec fn sizes_valid(es: Seq<Enemy>) -> bool {
    forall|j: int| 0 <= j < es.len() ==> 0 <= #[trigger] es[j].size
}

proof fn lemma_hits_of_push(w: Weapon, es: Seq<Enemy>, e: Enemy)
    ensures
        hits_of(w, es.push(e)) == hits_of(w, es) + if weapon_hits(w, e) { 1nat } else { 0nat },
{
    assert(es.push(e).drop_last() =~= es);
}

proof fn lemma_hits_on_push(ws: Seq<Weapon>, w: Weapon, e: Enemy)
    ensures
        hits_on(ws.push(w), e) == hits_on(ws, e) + if weapon_hits(w, e) { 1nat } else { 0nat },
{
    assert(ws.push(w).drop_last() =~= ws);
}

proof fn lemma_total_hits_push(ws: Seq<Weapon>, w: Weapon, es: Seq<Enemy>)
    ensures
        total_hits(ws.push(w), es) == total_hits(ws, es) + hits_of(w, es),
{
    assert(ws.push(w).drop_last() =~= ws);
}

/// Tests every projectile against every enemy: each hit spends the
/// projectile, costs the enemy one health and scores `HIT_POINTS`.
pub fn resolve_hits(weapons: &mut Vec<Weapon>, enemies: &mut Vec<Enemy>, score: &mut u64)
    requires
        sizes_valid(old(enemies)@),
    ensures
        final(weapons)@ == weapons_after_hits(old(weapons)@, old(enemies)@),
        final(enemies)@ == enemies_after_hits(old(enemies)@, old(weapons)@),
        *final(score) == score_after(*old(score) as int, total_hits(old(weapons)@, old(enemies)@) as int),
{
    let ghost ws0 = weapons@;
    let ghost es0 = enemies@;
    let ghost s0 = *score as int;
    let n = weapons.len();
    let m = enemies.len();
    let mut i: usize = 0;
    while i < n
        invariant
            0 <= i <= n,
            n == ws0.len(),
            m == es0.len(),
            sizes_valid(es0),
            weapons@.len() == n,
            enemies@.len() == m,
            forall|k: int| 0 <= k < i ==> #[trigger] weapons@[k] == weapon_after_hits(ws0[k], es0),
            forall|k: int| i <= k < n ==> #[trigger] weapons@[k] == ws0[k],
            forall|j: int|
                0 <= j < m ==> #[trigger] enemies@[j] == enemy_after_hits(es0[j], ws0.take(i as int)),
            *score == score_after(s0, total_hits(ws0.take(i as int), es0) as int),
        decreases n - i,
    {
        let mut w = weapons[i];
        let ghost w0 = w;
        let mut j: usize = 0;
        proof {
            assert(ws0.take(i as int + 1) =~= ws0.take(i as int).push(w0));
            lemma_total_hits_push(ws0.take(i as int), w0, es0);
        }
        while j < m
            invariant
                0 <= i < n,
                0 <= j <= m,
                n == ws0.len(),
                m == es0.len(),
                sizes_valid(es0),
                w0 == ws0[i as int],
                ws0.take(i as int + 1) == ws0.take(i as int).push(w0),
                total_hits(ws0.take(i as int + 1), es0) == total_hits(ws0.take(i as int), es0) + hits_of(w0, es0),
                enemies@.len() == m,
                w == weapon_after_hits(w0, es0.take(j as int)),
                forall|k: int|
                    0 <= k < j ==> #[trigger] enemies@[k] == enemy_after_hits(
                        es0[k],
                        ws0.take(i as int + 1),
                    ),
                forall|k: int|
                    j <= k < m ==> #[trigger] enemies@[k] == enemy_after_hits(es0[k], ws0.take(i as int)),
                *score == score_after(
                    s0,
                    (total_hits(ws0.take(i as int), es0) + hits_of(w0, es0.take(j as int))) as int,
                ),
            decreases m - j,
        {
            let e = enemies[j];
            proof {
                assert(es0.take(j as int + 1) =~= es0.take(j as int).push(es0[j as int]));
                lemma_hits_of_push(w0, es0.take(j as int), es0[j as int]);
                lemma_hits_on_push(ws0.take(i as int), w0, es0[j as int]);
                assert(0 <= es0[j as int].size);
            }
            let r = e.radius();
            if collides(&w.pos, w.hit_radius(), &e.pos, r) {
                w.ttl = 0;
                let h = sat_add(e.health, -1);
                enemies.set(j, Enemy { health: h, ..e });
                *score = score.saturating_add(HIT_POINTS);
            }
            j = j + 1;
        }
        proof {
            assert(es0.take(m as int) =~= es0);
        }
        weapons.set(i, w);
        i = i + 1;
    }
    proof {
        assert(ws0.take(n as int) =~= ws0);
        assert(weapons@ =~= weapons_after_hits(ws0, es0));
        assert(enemies@ =~= enemies_after_hits(es0, ws0));
    }
}


pub open spec fn live_weapons(s: Seq<Weapon>) -> Seq<Weapon> {
    s.filter(|w: Weapon| w.ttl > 0)
}

pub open spec fn live_enemies(s: Seq<Enemy>) -> Seq<Enemy> {
    s.filter(|e: Enemy| e.health > 0)
}

pub open spec fn live_items(s: Seq<Item>) -> Seq<Item> {
    s.filter(|t: Item| t.health > 0)
}

pub open spec fn item_sizes_valid(ts: Seq<Item>) -> bool {
    forall|j: int| 0 <= j < ts.len() ==> 0 <= #[trigger] ts[j].size
}

/// The projectiles whose lifetime has not run out, in their order.
pub fn retain_live_weapons(ws: &Vec<Weapon>) -> (r: Vec<Weapon>)
    ensures
        r@ == live_weapons(ws@),
{
    let mut out: Vec<Weapon> = Vec::new();
    let mut i: usize = 0;
    while i < ws.len()
        invariant
            0 <= i <= ws@.len(),
            out@ == live_weapons(ws@.take(i as int)),
        decreases ws@.len() - i,
    {
        proof {
            reveal(Seq::filter);
            assert(ws@.take(i as int + 1).drop_last() =~= ws@.take(i as int));
            assert(ws@.take(i as int + 1).last() == ws@[i as int]);
        }
        if ws[i].ttl > 0 {
            out.push(ws[i]);
        }
        i = i + 1;
    }
    proof {
        assert(ws@.take(i as int) =~= ws@);
    }
    out
}

/// The enemies with health left, in their order.
pub fn retain_live_enemies(es: &Vec<Enemy>) -> (r: Vec<Enemy>)
    ensures
        r@ == live_enemies(es@),
        sizes_valid(es@) ==> sizes_valid(r@),
{
    let mut out: Vec<Enemy> = Vec::new();
    let mut i: usize = 0;
    while i < es.len()
        invariant
            0 <= i <= es@.len(),
            out@ == live_enemies(es@.take(i as int)),
            sizes_valid(es@) ==> sizes_valid(out@),
        decreases es@.len() - i,
    {
        proof {
            reveal(Seq::filter);
            assert(es@.take(i as int + 1).drop_last() =~= es@.take(i as int));
            assert(es@.take(i as int + 1).last() == es@[i as int]);
        }
        if es[i].health > 0 {
            out.push(es[i]);
        }
        i = i + 1;
    }
    proof {
        assert(es@.take(i as int) =~= es@);
    }
    out
}

/// The items with health left, in their order.
pub fn retain_live_items(ts: &Vec<Item>) -> (r: Vec<Item>)
    ensures
        r@ == live_items(ts@),
        item_sizes_valid(ts@) ==> item_sizes_valid(r@),
{
    let mut out: Vec<Item> = Vec::new();
    let mut i: usize = 0;
    while i < ts.len()
        invariant
            0 <= i <= ts@.len(),
            out@ == live_items(ts@.take(i as int)),
            item_sizes_valid(ts@) ==> item_sizes_valid(out@),
        decreases ts@.len() - i,
    {
        proof {
            reveal(Seq::filter);
            assert(ts@.take(i as int + 1).drop_last() =~= ts@.take(i as int));
            assert(ts@.take(i as int + 1).last() == ts@[i as int]);
        }
        if ts[i].health > 0 {
            out.push(ts[i]);
        }
        i = i + 1;
    }
    proof {
        assert(ts@.take(i as int) =~= ts@);
    }
    out
}

} // verus!
