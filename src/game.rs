//! The game controller: owns every entity and advances the simulation.
use crate::combat::{
    enemies_after_hits, item_sizes_valid, live_enemies, live_items, live_weapons, resolve_hits,
    retain_live_enemies, retain_live_items, retain_live_weapons, score_after, sizes_valid,
    total_hits, weapons_after_hits,
};
use crate::enemy::{enemy_step, is_jitter, Enemy, ENEMY_RADIUS, MOVE_TTL};
use crate::geom::{collides, overlaps, sat, sat_add, Direction, Position};
use crate::item::{Item, ITEM_RADIUS};
use crate::player::{new_player, player_moved, with_held, Player};
use crate::weapon::{weapon_moved, Weapon, WEAPON_LIFETIME, WEAPON_SIZE};
use vstd::prelude::*;

verus! {

/// Microseconds between two accepted shots.
pub const FIRE_COOLDOWN: i64 = 100_000;

/// Score at which the game is won.
pub const WIN_SCORE: u64 = 100;

/// Offset, on both axes, of the second projectile of a shot.
pub const SHOT_OFFSET: i64 = 15_000;

/// Growth of the player's size floor for each item collected.
pub const ITEM_GROWTH: i64 = 5_000;

/// Number of enemies, or items, spawned when none is left.
pub const SPAWN_BATCH: usize = 10;

#[derive(Clone, Copy, Debug, PartialEq, Eq, Structural)]
pub enum GameStatus {
    Normal,
    Died,
    Won,
}

/// The keys the game reacts to.
#[derive(Clone, Copy, Debug, PartialEq, Eq, Structural)]
pub enum Key {
    Up,
    Down,
    Left,
    Right,
    Fire,
    Confirm,
    Other,
}

pub open spec fn key_direction(k: Key) -> Option<Direction> {
    match k {
        Key::Up => Some(Direction::North),
        Key::Down => Some(Direction::South),
        Key::Left => Some(Direction::West),
        Key::Right => Some(Direction::East),
        _ => None,
    }
}

pub struct App {
    /// Arena size, in thousandths of a pixel.
    pub width: i64,
    pub height: i64,
    pub player: Player,
    pub enemies: Vec<Enemy>,
    pub items: Vec<Item>,
    pub weapons: Vec<Weapon>,
    pub score: u64,
    /// Floor under the player's size, raised by collecting items.
    pub size_score: i64,
    pub status: GameStatus,
    /// A shot was accepted and waits for the next tick.
    pub fire_weapon: bool,
    /// Microseconds before another shot is accepted.
    pub fire_cooldown: i64,
}

/// The fire cooldown after a tick of `dt`: it only runs down while positive.
pub open spec fn cooldown_after(c: int, dt: int) -> int {
    if c > 0 {
        sat(c - dt)
    } else {
        c
    }
}

/// The fire cooldown after a run of ticks lasting `dts` each.
pub open spec fn cooldown_after_ticks(c: int, dts: Seq<u32>) -> int
    decreases dts.len(),
{
    if dts.len() == 0 {
        c
    } else {
        cooldown_after(cooldown_after_ticks(c, dts.drop_last()), dts.last() as int)
    }
}

/// How long a run of ticks lasts.
pub open spec fn elapsed(dts: Seq<u32>) -> int
    decreases dts.len(),
{
    if dts.len() == 0 {
        0
    } else {
        elapsed(dts.drop_last()) + dts.last()
    }
}

/// A shot arms the cooldown to `FIRE_COOLDOWN`; over any run of ticks that
/// lasts less than that, it only runs down by the time elapsed and stays
/// positive, so that every further press of fire in that time is refused and
/// at most one shot is fired.
pub proof fn lemma_cooldown_gate(dts: Seq<u32>)
    requires
        elapsed(dts) < FIRE_COOLDOWN,
    ensures
        cooldown_after_ticks(FIRE_COOLDOWN as int, dts) == FIRE_COOLDOWN - elapsed(dts),
        cooldown_after_ticks(FIRE_COOLDOWN as int, dts) > 0,
    decreases dts.len(),
{
    if dts.len() > 0 {
        lemma_cooldown_gate(dts.drop_last());
    }
}

pub open spec fn shot(x: int, y: int, d: Direction) -> Weapon {
    Weapon { pos: Position { x: x as i64, y: y as i64 }, dir: d, size: WEAPON_SIZE, ttl: WEAPON_LIFETIME }
}

/// The projectiles at the start of a tick, with the pair of a pending shot.
pub open spec fn fired_weapons(a: App) -> Seq<Weapon> {
    let p = a.player;
    if a.fire_weapon {
        a.weapons@.push(shot(p.pos.x as int, p.pos.y as int, p.dir)).push(
            shot(sat(p.pos.x - SHOT_OFFSET), sat(p.pos.y - SHOT_OFFSET), p.dir),
        )
    } else {
        a.weapons@
    }
}

pub open spec fn moved_all(ws: Seq<Weapon>, dt: int) -> Seq<Weapon> {
    Seq::new(ws.len(), |k: int| weapon_moved(ws[k], dt))
}

/// The projectiles of a tick once they have moved.
pub open spec fn flying(a: App, dt: int) -> Seq<Weapon> {
    moved_all(fired_weapons(a), dt)
}

/// The enemies left after the projectile pass of a tick.
pub open spec fn surviving_enemies(a: App, dt: int) -> Seq<Enemy> {
    live_enemies(enemies_after_hits(a.enemies@, flying(a, dt)))
}

pub open spec fn enemy_touches(e: Enemy, p: Player) -> bool {
    overlaps(e.pos, e.size / 2, p.pos, p.size / 2)
}

pub open spec fn item_touches(t: Item, p: Player) -> bool {
    overlaps(t.pos, t.size / 2, p.pos, p.size / 2)
}

pub open spec fn any_enemy_touches(es: Seq<Enemy>, p: Player) -> bool {
    exists|j: int| 0 <= j < es.len() && enemy_touches(#[trigger] es[j], p)
}

/// A freshly spawned enemy somewhere in the arena.
pub open spec fn fresh_enemy(e: Enemy, width: int, height: int) -> bool {
    &&& e.health == 1
    &&& 0 <= e.pos.x < width
    &&& 0 <= e.pos.y < height
    &&& e.size == 2 * ENEMY_RADIUS
    &&& e.move_ttl == MOVE_TTL
}

pub open spec fn fresh_item(t: Item, width: int, height: int) -> bool {
    &&& t.health == 1
    &&& 0 <= t.pos.x < width
    &&& 0 <= t.pos.y < height
    &&& t.size == 2 * ITEM_RADIUS
}

/// `e` is what `pre` becomes in a tick, for some jump it may draw.
pub open spec fn stepped_from(e: Enemy, pre: Enemy, dt: int, width: int, height: int) -> bool {
    exists|jx: int, jy: int|
        is_jitter(jx) && is_jitter(jy) && #[trigger] enemy_step(pre, dt, width, height, jx, jy) == e
}

/// `e` is a freshly spawned enemy after its first move.
pub open spec fn spawned_and_stepped(e: Enemy, dt: int, width: int, height: int) -> bool {
    exists|pre: Enemy| fresh_enemy(pre, width, height) && stepped_from(e, pre, dt, width, height)
}

/// `t` is a freshly spawned item after the player's touch.
pub open spec fn spawned_and_touched(t: Item, p: Player, width: int, height: int) -> bool {
    exists|pre: Item| fresh_item(pre, width, height) && t == item_after_touch(pre, p)
}

/// An item after the player's touch: one health less if touched.
pub open spec fn item_after_touch(t: Item, p: Player) -> Item {
    if item_touches(t, p) {
        Item { health: sat(t.health - 1) as i64, ..t }
    } else {
        t
    }
}

/// How many of `ts` the player touches.
pub open spec fn touched_items(ts: Seq<Item>, p: Player) -> nat
    decreases ts.len(),
{
    if ts.len() == 0 {
        0
    } else {
        touched_items(ts.drop_last(), p) + if item_touches(ts.last(), p) { 1nat } else { 0nat }
    }
}

/// `s` raised by `ITEM_GROWTH` `n` times, saturating.
pub open spec fn grown(s: int, n: int) -> int {
    sat(s + ITEM_GROWTH * n)
}

pub open spec fn max(a: int, b: int) -> int {
    if a < b { b } else { a }
}

/// Moves every projectile by one tick.
fn advance_weapons(ws: &mut Vec<Weapon>, dt: u32)
    ensures
        final(ws)@ == moved_all(old(ws)@, dt as int),
{
    let ghost w0 = ws@;
    let n = ws.len();
    let mut i: usize = 0;
    while i < n
        invariant
            0 <= i <= n,
            n == w0.len(),
            ws@.len() == n,
            forall|k: int| 0 <= k < i ==> #[trigger] ws@[k] == weapon_moved(w0[k], dt as int),
            forall|k: int| i <= k < n ==> #[trigger] ws@[k] == w0[k],
        decreases n - i,
    {
        let mut w = ws[i];
        w.update(dt);
        ws.set(i, w);
        i = i + 1;
    }
    assert(ws@ =~= moved_all(w0, dt as int));
}

/// Fills an empty collection with a batch of enemies spread over the arena.
fn spawn_enemies(es: &mut Vec<Enemy>, width: i64, height: i64)
    requires
        old(es)@.len() == 0,
        0 < width,
        0 < height,
    ensures
        final(es)@.len() == SPAWN_BATCH,
        forall|j: int|
            0 <= j < SPAWN_BATCH ==> fresh_enemy(#[trigger] final(es)@[j], width as int, height as int),
{
    let mut k: usize = 0;
    while k < SPAWN_BATCH
        invariant
            0 <= k <= SPAWN_BATCH,
            0 < width,
            0 < height,
            es@.len() == k,
            forall|j: int| 0 <= j < k ==> fresh_enemy(#[trigger] es@[j], width as int, height as int),
        decreases SPAWN_BATCH - k,
    {
        es.push(Enemy::new_rand(width, height));
        k = k + 1;
    }
}

/// Fills an empty collection with a batch of items spread over the arena.
fn spawn_items(ts: &mut Vec<Item>, width: i64, height: i64)
    requires
        old(ts)@.len() == 0,
        0 < width,
        0 < height,
    ensures
        final(ts)@.len() == SPAWN_BATCH,
        forall|j: int|
            0 <= j < SPAWN_BATCH ==> fresh_item(#[trigger] final(ts)@[j], width as int, height as int),
{
    let mut k: usize = 0;
    while k < SPAWN_BATCH
        invariant
            0 <= k <= SPAWN_BATCH,
            0 < width,
            0 < height,
            ts@.len() == k,
            forall|j: int| 0 <= j < k ==> fresh_item(#[trigger] ts@[j], width as int, height as int),
        decreases SPAWN_BATCH - k,
    {
        ts.push(Item::new_rand(width, height));
        k = k + 1;
    }
}

/// Moves every enemy by one tick; true when one of them then touches `p`.
fn step_enemies(es: &mut Vec<Enemy>, p: &Player, dt: u32, width: i64, height: i64) -> (died: bool)
    requires
        sizes_valid(old(es)@),
        0 <= p.size,
        0 <= width,
        0 <= height,
    ensures
        final(es)@.len() == old(es)@.len(),
        forall|j: int|
            0 <= j < old(es)@.len() ==> stepped_from(
                #[trigger] final(es)@[j],
                old(es)@[j],
                dt as int,
                width as int,
                height as int,
            ),
        sizes_valid(final(es)@),
        died == any_enemy_touches(final(es)@, *p),
{
    let ghost e0 = es@;
    let n = es.len();
    let mut died = false;
    let mut i: usize = 0;
    let pr = p.radius();
    while i < n
        invariant
            0 <= i <= n,
            n == e0.len(),
            es@.len() == n,
            0 <= width,
            0 <= height,
            0 <= p.size,
            pr == p.size / 2,
            sizes_valid(e0),
            forall|k: int|
                0 <= k < i ==> stepped_from(#[trigger] es@[k], e0[k], dt as int, width as int, height as int),
            forall|k: int| 0 <= k < i ==> (#[trigger] es@[k]).size == e0[k].size,
            forall|k: int| i <= k < n ==> #[trigger] es@[k] == e0[k],
            died == exists|k: int| 0 <= k < i && enemy_touches(#[trigger] es@[k], *p),
        decreases n - i,
    {
        let mut e = es[i];
        assert(0 <= e0[i as int].size);
        e.update(dt, width, height);
        let er = e.radius();
        let hit = collides(&e.pos, er, &p.pos, pr);
        if hit {
            died = true;
        }
        let ghost prev = es@;
        es.set(i, e);
        proof {
            assert(es@[i as int] == e);
            assert(hit == enemy_touches(e, *p));
            if died {
                if !hit {
                    let k = choose|k: int| 0 <= k < i && enemy_touches(#[trigger] prev[k], *p);
                    assert(es@[k] == prev[k]);
                }
            } else {
                assert forall|k: int| 0 <= k < i + 1 implies !enemy_touches(#[trigger] es@[k], *p) by {
                    if k < i {
                        assert(es@[k] == prev[k]);
                    }
                }
            }
        }
        i = i + 1;
    }
    died
}

proof fn lemma_touched_push(ts: Seq<Item>, t: Item, p: Player)
    ensures
        touched_items(ts.push(t), p) == touched_items(ts, p) + if item_touches(t, p) { 1nat } else { 0nat },
{
    assert(ts.push(t).drop_last() =~= ts);
}

/// Lets the player collect every item it touches: the item loses one health
/// and the size floor grows by `ITEM_GROWTH`.
fn collect_items(ts: &mut Vec<Item>, p: &Player, size_score: &mut i64)
    requires
        item_sizes_valid(old(ts)@),
        0 <= p.size,
        0 <= *old(size_score),
    ensures
        final(ts)@.len() == old(ts)@.len(),
        forall|j: int|
            0 <= j < old(ts)@.len() ==> #[trigger] final(ts)@[j] == item_after_touch(old(ts)@[j], *p),
        item_sizes_valid(final(ts)@),
        *final(size_score) == grown(*old(size_score) as int, touched_items(final(ts)@, *p) as int),
{
    let ghost t0 = ts@;
    let ghost s0 = *size_score as int;
    let n = ts.len();
    let pr = p.radius();
    let mut i: usize = 0;
    while i < n
        invariant
            0 <= i <= n,
            n == t0.len(),
            ts@.len() == n,
            0 <= p.size,
            pr == p.size / 2,
            0 <= s0,
            item_sizes_valid(t0),
            forall|k: int| 0 <= k < i ==> #[trigger] ts@[k] == item_after_touch(t0[k], *p),
            forall|k: int| i <= k < n ==> #[trigger] ts@[k] == t0[k],
            *size_score == grown(s0, touched_items(ts@.take(i as int), *p) as int),
        decreases n - i,
    {
        let t = ts[i];
        assert(0 <= t0[i as int].size);
        let tr = t.radius();
        let ghost prev = ts@;
        let ghost before = *size_score as int;
        if collides(&t.pos, tr, &p.pos, pr) {
            ts.set(i, Item { health: sat_add(t.health, -1), ..t });
            *size_score = sat_add(*size_score, ITEM_GROWTH);
        }
        proof {
            assert(ts@.take(i as int) =~= prev.take(i as int));
            assert(ts@.take(i as int + 1) =~= ts@.take(i as int).push(ts@[i as int]));
            lemma_touched_push(ts@.take(i as int), ts@[i as int], *p);
            assert(item_touches(ts@[i as int], *p) == item_touches(t, *p));
            let c = touched_items(ts@.take(i as int), *p) as int;
            assert(before == grown(s0, c));
            assert(ITEM_GROWTH * (c + 1) == ITEM_GROWTH * c + ITEM_GROWTH);
        }
        i = i + 1;
    }
    proof {
        assert(ts@.take(n as int) =~= ts@);
    }
}

impl App {
    pub open spec fn wf(&self) -> bool {
        &&& 0 < self.width
        &&& 0 < self.height
        &&& 0 <= self.player.size
        &&& 0 <= self.size_score
        &&& sizes_valid(self.enemies@)
        &&& item_sizes_valid(self.items@)
    }

    /// Every field of `self` equals that of `o`.
    pub open spec fn same(&self, o: App) -> bool {
        &&& self.width == o.width
        &&& self.height == o.height
        &&& self.player == o.player
        &&& self.enemies@ == o.enemies@
        &&& self.items@ == o.items@
        &&& self.weapons@ == o.weapons@
        &&& self.score == o.score
        &&& self.size_score == o.size_score
        &&& self.status == o.status
        &&& self.fire_weapon == o.fire_weapon
        &&& self.fire_cooldown == o.fire_cooldown
    }

    /// A new game on an arena of `width` by `height`, the player at its centre.
    pub fn new(width: i64, height: i64) -> (r: App)
        requires
            0 < width,
            0 < height,
        ensures
            r.wf(),
            r.width == width,
            r.height == height,
            r.player == new_player((width / 2) as i64, (height / 2) as i64),
            r.enemies@.len() == 0,
            r.items@.len() == 0,
            r.weapons@.len() == 0,
            r.score == 0,
            r.size_score == 0,
            r.status == GameStatus::Normal,
            !r.fire_weapon,
            r.fire_cooldown == 0,
    {
        App {
            width,
            height,
            player: Player::new(width / 2, height / 2),
            enemies: Vec::new(),
            items: Vec::new(),
            weapons: Vec::new(),
            score: 0,
            size_score: 0,
            status: GameStatus::Normal,
            fire_weapon: false,
            fire_cooldown: 0,
        }
    }

    /// Starts a new round: status, score and the spawned enemies and items
    /// go; the size floor becomes the player's current size. Projectiles in
    /// flight and the player stay as they are.
    pub fn reset(&mut self)
        requires
            old(self).wf(),
        ensures
            final(self).wf(),
            final(self).status == GameStatus::Normal,
            final(self).score == 0,
            final(self).size_score == old(self).player.size,
            final(self).enemies@.len() == 0,
            final(self).items@.len() == 0,
            final(self).weapons@ == old(self).weapons@,
            final(self).player == old(self).player,
            final(self).width == old(self).width,
            final(self).height == old(self).height,
            final(self).fire_weapon == old(self).fire_weapon,
            final(self).fire_cooldown == old(self).fire_cooldown,
    {
        self.status = GameStatus::Normal;
        self.score = 0;
        self.size_score = self.player.size;
        self.enemies.clear();
        self.items.clear();
    }

    /// Reacts to a key going down (`is_press`) or up. Movement keys hold or
    /// release a direction; a press of fire is accepted only when the
    /// cooldown has run out, and then arms it at once; a press of confirm
    /// resets a finished game. Anything else changes nothing.
    pub fn input(&mut self, key: Key, is_press: bool)
        requires
            old(self).wf(),
        ensures
            final(self).wf(),
            match key_direction(key) {
                Some(d) => final(self).same(
                    App {
                        player: if is_press {
                            Player { dir: d, ..with_held(old(self).player, d, true) }
                        } else {
                            with_held(old(self).player, d, false)
                        },
                        ..*old(self)
                    },
                ),
                None => if is_press && key == Key::Fire && old(self).fire_cooldown <= 0 {
                    final(self).same(
                        App { fire_cooldown: FIRE_COOLDOWN, fire_weapon: true, ..*old(self) },
                    )
                } else if is_press && key == Key::Confirm && old(self).status != GameStatus::Normal {
                    &&& final(self).status == GameStatus::Normal
                    &&& final(self).score == 0
                    &&& final(self).size_score == old(self).player.size
                    &&& final(self).enemies@.len() == 0
                    &&& final(self).items@.len() == 0
                    &&& final(self).same(
                        App {
                            status: final(self).status,
                            score: final(self).score,
                            size_score: final(self).size_score,
                            enemies: final(self).enemies,
                            items: final(self).items,
                            ..*old(self)
                        },
                    )
                } else {
                    final(self).same(*old(self))
                },
            },
    {
        if is_press {
            match key {
                Key::Up => self.player.start_move(Direction::North),
                Key::Down => self.player.start_move(Direction::South),
                Key::Left => self.player.start_move(Direction::West),
                Key::Right => self.player.start_move(Direction::East),
                Key::Fire => {
                    if self.fire_cooldown <= 0 {
                        self.fire_cooldown = FIRE_COOLDOWN;
                        self.fire_weapon = true;
                    }
                },
                Key::Confirm => {
                    if self.status != GameStatus::Normal {
                        self.reset();
                    }
                },
                Key::Other => {},
            }
        } else {
            match key {
                Key::Up => self.player.stop_move(Direction::North),
                Key::Down => self.player.stop_move(Direction::South),
                Key::Left => self.player.stop_move(Direction::West),
                Key::Right => self.player.stop_move(Direction::East),
                _ => {},
            }
        }
    }

    /// Advances the game by one tick of `dt` microseconds. A finished game
    /// is left as it is. Otherwise, in order: the fire cooldown runs down; a
    /// pending shot becomes two projectiles; projectiles move and hit
    /// enemies; spent projectiles, dead enemies and collected items go; the
    /// player moves; empty enemy and item collections are refilled; enemies
    /// move and the game is lost if one touches the player; the player grows
    /// back to its size floor; touched items are collected; and the game is
    /// won once the score reaches `WIN_SCORE`.
    pub fn update(&mut self, dt: u32)
        requires
            old(self).wf(),
        ensures
            final(self).wf(),
            final(self).width == old(self).width,
            final(self).height == old(self).height,
            final(self).score >= old(self).score,
            old(self).status != GameStatus::Normal ==> final(self).same(*old(self)),
            old(self).status == GameStatus::Normal ==> {
                let (w, h) = (old(self).width as int, old(self).height as int);
                let moved = flying(*old(self), dt as int);
                let pre_e = surviving_enemies(*old(self), dt as int);
                let pre_t = live_items(old(self).items@);
                let pm = player_moved(old(self).player, dt as int, w, h);
                let p = Player { size: max(pm.size as int, old(self).size_score as int) as i64, ..pm };
                &&& final(self).fire_cooldown == cooldown_after(old(self).fire_cooldown as int, dt as int)
                &&& !final(self).fire_weapon
                &&& final(self).weapons@ == live_weapons(weapons_after_hits(moved, old(self).enemies@))
                &&& final(self).score == score_after(
                    old(self).score as int,
                    total_hits(moved, old(self).enemies@) as int,
                )
                &&& final(self).player == p
                &&& final(self).enemies@.len() == if pre_e.len() == 0 {
                    SPAWN_BATCH as int
                } else {
                    pre_e.len() as int
                }
                &&& forall|j: int|
                    0 <= j < final(self).enemies@.len() ==> if pre_e.len() == 0 {
                        spawned_and_stepped(#[trigger] final(self).enemies@[j], dt as int, w, h)
                    } else {
                        stepped_from(final(self).enemies@[j], pre_e[j], dt as int, w, h)
                    }
                &&& final(self).items@.len() == if pre_t.len() == 0 {
                    SPAWN_BATCH as int
                } else {
                    pre_t.len() as int
                }
                &&& forall|j: int|
                    0 <= j < final(self).items@.len() ==> if pre_t.len() == 0 {
                        spawned_and_touched(#[trigger] final(self).items@[j], p, w, h)
                    } else {
                        final(self).items@[j] == item_after_touch(pre_t[j], p)
                    }
                &&& final(self).size_score == grown(
                    old(self).size_score as int,
                    touched_items(final(self).items@, p) as int,
                )
                &&& final(self).status == if final(self).score >= WIN_SCORE {
                    GameStatus::Won
                } else if any_enemy_touches(final(self).enemies@, pm) {
                    GameStatus::Died
                } else {
                    GameStatus::Normal
                }
            },
    {
        if self.status != GameStatus::Normal {
            return;
        }
        self.begin_tick(dt);
        self.end_tick(dt);
    }

    /// The part of a tick that draws nothing at random: shooting, hits,
    /// removal of spent entities, and the player's move.
    fn begin_tick(&mut self, dt: u32)
        requires
            old(self).wf(),
        ensures
            final(self).wf(),
            final(self).width == old(self).width,
            final(self).height == old(self).height,
            final(self).status == old(self).status,
            final(self).size_score == old(self).size_score,
            final(self).fire_cooldown == cooldown_after(old(self).fire_cooldown as int, dt as int),
            !final(self).fire_weapon,
            final(self).weapons@ == live_weapons(
                weapons_after_hits(flying(*old(self), dt as int), old(self).enemies@),
            ),
            final(self).score == score_after(
                old(self).score as int,
                total_hits(flying(*old(self), dt as int), old(self).enemies@) as int,
            ),
            final(self).enemies@ == surviving_enemies(*old(self), dt as int),
            final(self).items@ == live_items(old(self).items@),
            final(self).player == player_moved(
                old(self).player,
                dt as int,
                old(self).width as int,
                old(self).height as int,
            ),
    {
        let ghost a0 = *self;
        if self.fire_cooldown > 0 {
            self.fire_cooldown = sat_add(self.fire_cooldown, -(dt as i64));
        }
        if self.fire_weapon {
            self.fire_weapon = false;
            let p = self.player;
            self.weapons.push(Weapon::new(p.pos.x, p.pos.y, p.dir));
            self.weapons.push(
                Weapon::new(sat_add(p.pos.x, -SHOT_OFFSET), sat_add(p.pos.y, -SHOT_OFFSET), p.dir),
            );
        }
        assert(self.weapons@ =~= fired_weapons(a0));
        advance_weapons(&mut self.weapons, dt);
        resolve_hits(&mut self.weapons, &mut self.enemies, &mut self.score);
        assert(sizes_valid(self.enemies@));
        self.weapons = retain_live_weapons(&self.weapons);
        self.enemies = retain_live_enemies(&self.enemies);
        self.items = retain_live_items(&self.items);
        self.player.update(dt, self.width, self.height);
    }

    /// The rest of a tick: refilling, enemy moves, growth, collection, and
    /// the end of the game.
    fn end_tick(&mut self, dt: u32)
        requires
            old(self).wf(),
            old(self).status == GameStatus::Normal,
        ensures
            final(self).wf(),
            final(self).width == old(self).width,
            final(self).height == old(self).height,
            final(self).score == old(self).score,
            final(self).fire_cooldown == old(self).fire_cooldown,
            final(self).fire_weapon == old(self).fire_weapon,
            final(self).weapons@ == old(self).weapons@,
            ({
                let (w, h) = (old(self).width as int, old(self).height as int);
                let pre_e = old(self).enemies@;
                let pre_t = old(self).items@;
                let pm = old(self).player;
                let p = Player { size: max(pm.size as int, old(self).size_score as int) as i64, ..pm };
                &&& final(self).player == p
                &&& final(self).enemies@.len() == if pre_e.len() == 0 {
                    SPAWN_BATCH as int
                } else {
                    pre_e.len() as int
                }
                &&& forall|j: int|
                    0 <= j < final(self).enemies@.len() ==> if pre_e.len() == 0 {
                        spawned_and_stepped(#[trigger] final(self).enemies@[j], dt as int, w, h)
                    } else {
                        stepped_from(final(self).enemies@[j], pre_e[j], dt as int, w, h)
                    }
                &&& final(self).items@.len() == if pre_t.len() == 0 {
                    SPAWN_BATCH as int
                } else {
                    pre_t.len() as int
                }
                &&& forall|j: int|
                    0 <= j < final(self).items@.len() ==> if pre_t.len() == 0 {
                        spawned_and_touched(#[trigger] final(self).items@[j], p, w, h)
                    } else {
                        final(self).items@[j] == item_after_touch(pre_t[j], p)
                    }
                &&& final(self).size_score == grown(
                    old(self).size_score as int,
                    touched_items(final(self).items@, p) as int,
                )
                &&& final(self).status == if final(self).score >= WIN_SCORE {
                    GameStatus::Won
                } else if any_enemy_touches(final(self).enemies@, pm) {
                    GameStatus::Died
                } else {
                    GameStatus::Normal
                }
            }),
    {
        let ghost a0 = *self;
        if self.enemies.len() == 0 {
            spawn_enemies(&mut self.enemies, self.width, self.height);
        }
        if self.items.len() == 0 {
            spawn_items(&mut self.items, self.width, self.height);
        }
        let ghost spawned_e = self.enemies@;
        let ghost spawned_t = self.items@;
        let died = step_enemies(&mut self.enemies, &self.player, dt, self.width, self.height);
        if died {
            self.status = GameStatus::Died;
        }
        if self.player.size < self.size_score {
            self.player.size = self.size_score;
        }
        collect_items(&mut self.items, &self.player, &mut self.size_score);
        if self.score >= WIN_SCORE {
            self.status = GameStatus::Won;
        }
        proof {
            if a0.enemies@.len() == 0 {
                assert forall|j: int| 0 <= j < self.enemies@.len() implies spawned_and_stepped(
                    #[trigger] self.enemies@[j],
                    dt as int,
                    a0.width as int,
                    a0.height as int,
                ) by {
                    assert(fresh_enemy(spawned_e[j], a0.width as int, a0.height as int));
                }
            } else {
                assert(spawned_e == a0.enemies@);
            }
            if a0.items@.len() == 0 {
                assert forall|j: int| 0 <= j < self.items@.len() implies spawned_and_touched(
                    #[trigger] self.items@[j],
                    self.player,
                    a0.width as int,
                    a0.height as int,
                ) by {
                    assert(fresh_item(spawned_t[j], a0.width as int, a0.height as int));
                }
            } else {
                assert(spawned_t == a0.items@);
            }
        }
    }
}

} // verus!
