//! Collectable items that make the player grow.
use crate::geom::Position;
use crate::rng::random_in;
use vstd::prelude::*;

verus! {

pub const ITEM_RADIUS: i64 = 10_000;

#[derive(Clone, Copy, Debug, PartialEq, Eq, Structural)]
pub struct Item {
    pub health: i64,
    pub pos: Position,
    pub size: i64,
}

impl Item {
    pub fn new(x: i64, y: i64) -> (r: Item)
        ensures
            r.health == 1,
            r.pos == (Position { x, y }),
            r.size == 2 * ITEM_RADIUS,
    {
        Item { health: 1, pos: Position::new(x, y), size: ITEM_RADIUS * 2 }
    }

    /// An item at a random place of `[0, max_x) x [0, max_y)`.
    pub fn new_rand(max_x: i64, max_y: i64) -> (r: Item)
        requires
            0 < max_x,
            0 < max_y,
        ensures
            r.health == 1,
            0 <= r.pos.x < max_x,
            0 <= r.pos.y < max_y,
            r.size == 2 * ITEM_RADIUS,
    {
        let x = random_in(0, max_x);
        let y = random_in(0, max_y);
        Item::new(x, y)
    }

    pub fn position(&self) -> (r: Position)
        ensures
            r == self.pos,
    {
        self.pos
    }

    pub fn radius(&self) -> (r: i64)
        requires
            0 <= self.size,
        ensures
            r == self.size / 2,
    {
        self.size / 2
    }
}

} // verus!
