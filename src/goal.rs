use vstd::prelude::*;

use crate::common::POSITION_LIMIT;
use crate::rect::Rectangle;
use crate::sprite::{frame_at, SpriteFrame};
use crate::units::{Millis, GAME, HALF_TILE, TILE};

verus! {

/// A level exit marker.
#[derive(Clone, Copy, Debug, PartialEq, Eq, Structural)]
pub struct Goal {
    pub x: i64,
    pub y: i64,
}

impl Goal {
    pub fn new(x: i64, y: i64) -> (r: Goal)
        ensures
            r == (Goal { x, y }),
    {
        Goal { x, y }
    }

    /// The marker's sprite: one tile wide, two high.
    pub fn load_sprite(&self) -> (r: SpriteFrame)
        ensures
            r.sheet@ == "assets/base/Stage/PrtCent.bmp"@,
            r.tile_x == 0 && r.tile_y == 0 && r.tiles_wide == 1 && r.tiles_high == 2,
    {
        frame_at("assets/base/Stage/PrtCent.bmp", 0, 0, 1, 2, 1)
    }

    /// The small box at the marker's center that the player must reach.
    pub fn damage_rectangle(&self) -> (r: Rectangle)
        requires
            -POSITION_LIMIT <= self.x <= POSITION_LIMIT,
            -POSITION_LIMIT <= self.y <= POSITION_LIMIT,
        ensures
            r == (Rectangle {
                x: (self.x + HALF_TILE) as i64,
                y: (self.y + TILE) as i64,
                width: (5 * GAME) as i64,
                height: (5 * GAME) as i64,
            }),
    {
        Rectangle { x: self.x + HALF_TILE, y: self.y + TILE, width: 5 * GAME, height: 5 * GAME }
    }

    /// The marker does not move; a frame changes nothing.
    pub fn update(&mut self, elapsed_time: Millis)
        ensures
            *final(self) == *old(self),
    {
    }
}

} // verus!
