//! Projectiles fired by the player.
use crate::geom::{sat, sat_add, unit_x, unit_y, Direction, Position};
use vstd::prelude::*;

verus! {

/// Distance a projectile travels on each tick.
pub const WEAPON_SPEED: i64 = 3_000;

/// Drawn edge of a projectile; also its hit-testing radius.
pub const WEAPON_SIZE: i64 = 10_000;

/// Microseconds a projectile lives unless it hits something first.
pub const WEAPON_LIFETIME: i64 = 300_000;

#[derive(Clone, Copy, Debug, PartialEq, Eq, Structural)]
pub struct Weapon {
    pub pos: Position,
    pub dir: Direction,
    pub size: i64,
    /// Remaining lifetime, in microseconds.
    pub ttl: i64,
}

/// A projectile after one tick of `dt` microseconds: older by `dt`, one step
/// further along its heading (coordinates saturate at the range of `i64`).
pub open spec fn weapon_moved(w: Weapon, dt: int) -> Weapon {
    Weapon {
        pos: Position {
            x: sat(w.pos.x + WEAPON_SPEED * unit_x(w.dir)) as i64,
            y: sat(w.pos.y + WEAPON_SPEED * unit_y(w.dir)) as i64,
        },
        ttl: sat(w.ttl - dt) as i64,
        ..w
    }
}

impl Weapon {
    pub fn new(x: i64, y: i64, dir: Direction) -> (r: Weapon)
        ensures
            r.pos == (Position { x, y }),
            r.dir == dir,
            r.size == WEAPON_SIZE,
            r.ttl == WEAPON_LIFETIME,
    {
        Weapon { dir, pos: Position::new(x, y), size: WEAPON_SIZE, ttl: WEAPON_LIFETIME }
    }

    pub fn position(&self) -> (r: Position)
        ensures
            r == self.pos,
    {
        self.pos
    }

    /// Half the drawn edge.
    pub fn radius(&self) -> (r: i64)
        requires
            0 <= self.size,
        ensures
            r == self.size / 2,
    {
        self.size / 2
    }

    /// The radius used when testing a projectile against an enemy.
    pub fn hit_radius(&self) -> (r: i64)
        ensures
            r == WEAPON_SIZE,
    {
        WEAPON_SIZE
    }

    /// Advances the projectile by one tick; it is never held inside the arena.
    pub fn update(&mut self, dt: u32)
        ensures
            *final(self) == weapon_moved(*old(self), dt as int),
    {
        self.ttl = sat_add(self.ttl, -(dt as i64));
        let (ux, uy) = self.dir.unit();
        self.pos.x = sat_add(self.pos.x, WEAPON_SPEED * ux);
        self.pos.y = sat_add(self.pos.y, WEAPON_SPEED * uy);
    }
}

} // verus!
