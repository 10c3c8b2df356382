//! The player's avatar.
use crate::geom::{clamp_coord, clamp_to_bounds, sat, sat_add, Direction, Position};
use vstd::prelude::*;

verus! {

pub const PLAYER_SIZE: i64 = 20_000;

/// Pixels per second, which is thousandths of a pixel per millisecond.
pub const PLAYER_SPEED: i64 = 200;

#[derive(Clone, Copy, Debug, PartialEq, Eq, Structural)]
pub struct Player {
    pub pos: Position,
    pub north: bool,
    pub south: bool,
    pub east: bool,
    pub west: bool,
    /// The direction pressed last; projectiles fly this way.
    pub dir: Direction,
    pub size: i64,
}

pub open spec fn held(p: Player, d: Direction) -> bool {
    match d {
        Direction::North => p.north,
        Direction::South => p.south,
        Direction::East => p.east,
        Direction::West => p.west,
    }
}

/// `p` with the flag of `d` set to `on`.
pub open spec fn with_held(p: Player, d: Direction, on: bool) -> Player {
    match d {
        Direction::North => Player { north: on, ..p },
        Direction::South => Player { south: on, ..p },
        Direction::East => Player { east: on, ..p },
        Direction::West => Player { west: on, ..p },
    }
}

pub open spec fn flag(b: bool) -> int {
    if b { 1 } else { 0 }
}

/// Sum of the unit vectors of the held directions.
pub open spec fn velocity_x(p: Player) -> int {
    flag(p.east) - flag(p.west)
}

pub open spec fn velocity_y(p: Player) -> int {
    flag(p.south) - flag(p.north)
}

/// Distance covered in `dt` microseconds along each held direction.
pub open spec fn travel(dt: int) -> int {
    PLAYER_SPEED * dt / 1000
}

/// The player after `dt` microseconds of moving, held inside the arena.
pub open spec fn player_moved(p: Player, dt: int, width: int, height: int) -> Player {
    let r = p.size / 2;
    Player {
        pos: Position {
            x: clamp_coord(sat(p.pos.x + velocity_x(p) * travel(dt)), r, width - r) as i64,
            y: clamp_coord(sat(p.pos.y + velocity_y(p) * travel(dt)), r, height - r) as i64,
        },
        ..p
    }
}

proof fn lemma_unit_times(v: int, s: int)
    requires
        -1 <= v <= 1,
    ensures
        v * s == if v == 0 { 0 } else if v == 1 { s } else { -s },
{
    if v == 0 {
        assert(v * s == 0);
    } else if v == 1 {
        assert(v * s == s);
    } else {
        assert(v == -1);
        assert(v * s == -s) by (nonlinear_arith)
            requires v == -1;
    }
}

/// A player standing still at `(x, y)`, facing north.
pub open spec fn new_player(x: i64, y: i64) -> Player {
    Player {
        pos: Position { x, y },
        north: false,
        south: false,
        east: false,
        west: false,
        dir: Direction::North,
        size: PLAYER_SIZE,
    }
}

impl Player {
    pub fn new(x: i64, y: i64) -> (r: Player)
        ensures
            r == new_player(x, y),
    {
        Player {
            pos: Position::new(x, y),
            north: false,
            south: false,
            east: false,
            west: false,
            dir: Direction::North,
            size: PLAYER_SIZE,
        }
    }

    pub fn position(&self) -> (r: Position)
        ensures
            r == self.pos,
    {
        self.pos
    }

    pub fn radius(&self) -> (r: i64)
        requires
            0 <= self.size,
        ensures
            r == self.size / 2,
    {
        self.size / 2
    }

    /// Starts moving towards `d`, which becomes the facing direction.
    pub fn start_move(&mut self, d: Direction)
        ensures
            *final(self) == (Player { dir: d, ..with_held(*old(self), d, true) }),
    {
        match d {
            Direction::North => self.north = true,
            Direction::South => self.south = true,
            Direction::East => self.east = true,
            Direction::West => self.west = true,
        }
        self.dir = d;
    }

    /// Stops moving towards `d`.
    pub fn stop_move(&mut self, d: Direction)
        ensures
            *final(self) == with_held(*old(self), d, false),
    {
        match d {
            Direction::North => self.north = false,
            Direction::South => self.south = false,
            Direction::East => self.east = false,
            Direction::West => self.west = false,
        }
    }

    /// Moves along every held direction for `dt` microseconds, then clamps
    /// to the arena.
    pub fn update(&mut self, dt: u32, width: i64, height: i64)
        requires
            0 <= old(self).size,
            0 <= width,
            0 <= height,
        ensures
            *final(self) == player_moved(*old(self), dt as int, width as int, height as int),
    {
        let step: i64 = PLAYER_SPEED * (dt as i64) / 1000;
        assert(step == travel(dt as int));
        let dx: i64 = if self.east == self.west {
            0
        } else if self.east {
            step
        } else {
            -step
        };
        let dy: i64 = if self.south == self.north {
            0
        } else if self.south {
            step
        } else {
            -step
        };
        proof {
            lemma_unit_times(velocity_x(*self), step as int);
            lemma_unit_times(velocity_y(*self), step as int);
        }
        let r = self.radius();
        self.pos.x = sat_add(self.pos.x, dx);
        self.pos.y = sat_add(self.pos.y, dy);
        clamp_to_bounds(&mut self.pos, r, width, height);
    }
}

} // verus!
