//! Enemies: stationary between twitches of random movement.
use crate::geom::{clamp_coord, clamp_to_bounds, sat, sat_add, Position};
use crate::rng::random_in;
use vstd::prelude::*;

verus! {

/// Largest distance an enemy jumps along each axis when it moves.
pub const MOVE_RADIUS: i64 = 5_000;

/// Microseconds an enemy waits between two moves.
pub const MOVE_TTL: i64 = 100_000;

pub const ENEMY_RADIUS: i64 = 10_000;

#[derive(Clone, Copy, Debug, PartialEq, Eq, Structural)]
pub struct Enemy {
    pub health: i64,
    pub pos: Position,
    pub size: i64,
    /// Microseconds left before the next move.
    pub move_ttl: i64,
}

/// A jump along one axis that an enemy may draw.
pub open spec fn is_jitter(j: int) -> bool {
    -MOVE_RADIUS <= j < MOVE_RADIUS
}

/// An enemy after a tick of `dt` microseconds in which, if its wait runs out,
/// it jumps by `(jx, jy)` and is held inside the arena.
pub open spec fn enemy_step(e: Enemy, dt: int, width: int, height: int, jx: int, jy: int) -> Enemy {
    let t = sat(e.move_ttl - dt);
    if t <= 0 {
        let r = e.size / 2;
        Enemy {
            pos: Position {
                x: clamp_coord(sat(e.pos.x + jx), r, width - r) as i64,
                y: clamp_coord(sat(e.pos.y + jy), r, height - r) as i64,
            },
            move_ttl: MOVE_TTL,
            ..e
        }
    } else {
        Enemy { move_ttl: t as i64, ..e }
    }
}

impl Enemy {
    pub fn new(x: i64, y: i64) -> (r: Enemy)
        ensures
            r.health == 1,
            r.pos == (Position { x, y }),
            r.size == 2 * ENEMY_RADIUS,
            r.move_ttl == MOVE_TTL,
    {
        Enemy { health: 1, move_ttl: MOVE_TTL, pos: Position::new(x, y), size: ENEMY_RADIUS * 2 }
    }

    /// An enemy at a random place of `[0, max_x) x [0, max_y)`.
    pub fn new_rand(max_x: i64, max_y: i64) -> (r: Enemy)
        requires
            0 < max_x,
            0 < max_y,
        ensures
            r.health == 1,
            0 <= r.pos.x < max_x,
            0 <= r.pos.y < max_y,
            r.size == 2 * ENEMY_RADIUS,
            r.move_ttl == MOVE_TTL,
    {
        let x = random_in(0, max_x);
        let y = random_in(0, max_y);
        Enemy::new(x, y)
    }

    pub fn position(&self) -> (r: Position)
        ensures
            r == self.pos,
    {
        self.pos
    }

    pub fn radius(&self) -> (r: i64)
        requires
            0 <= self.size,
        ensures
            r == self.size / 2,
    {
        self.size / 2
    }

    /// One tick with the jump `(jx, jy)` given: the wait shrinks by `dt`; once
    /// it has run out the enemy jumps, is clamped to the arena, and waits anew.
    pub fn step(&mut self, dt: u32, width: i64, height: i64, jx: i64, jy: i64)
        requires
            0 <= old(self).size,
            0 <= width,
            0 <= height,
        ensures
            *final(self) == enemy_step(*old(self), dt as int, width as int, height as int, jx as int, jy as int),
    {
        self.move_ttl = sat_add(self.move_ttl, -(dt as i64));
        if self.move_ttl <= 0 {
            let r = self.radius();
            self.pos.x = sat_add(self.pos.x, jx);
            self.pos.y = sat_add(self.pos.y, jy);
            clamp_to_bounds(&mut self.pos, r, width, height);
            self.move_ttl = MOVE_TTL;
        }
    }

    /// One tick, the jump drawn at random from `[-MOVE_RADIUS, MOVE_RADIUS)`
    /// on each axis.
    pub fn update(&mut self, dt: u32, width: i64, height: i64)
        requires
            0 <= old(self).size,
            0 <= width,
            0 <= height,
        ensures
            exists|jx: int, jy: int|
                is_jitter(jx) && is_jitter(jy) && #[trigger] enemy_step(
                    *old(self),
                    dt as int,
                    width as int,
                    height as int,
                    jx,
                    jy,
                ) == *final(self),
    {
        let due = sat_add(self.move_ttl, -(dt as i64)) <= 0;
        let mut jx: i64 = 0;
        let mut jy: i64 = 0;
        if due {
            jx = random_in(-MOVE_RADIUS, MOVE_RADIUS);
            jy = random_in(-MOVE_RADIUS, MOVE_RADIUS);
        }
        self.step(dt, width, height, jx, jy);
        assert(enemy_step(*old(self), dt as int, width as int, height as int, jx as int, jy as int) == *self);
    }
}

} // verus!
