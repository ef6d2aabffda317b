//! Hazards that spring when a player or a zombie steps in them.
use vstd::prelude::*;

use crate::common::{countdown_step, Character, POSITION_LIMIT};
use crate::rect::Rectangle;
use crate::sprite::{frame_at, SpriteFrame};
use crate::units::Millis;

verus! {

pub const BEAR_TRAP_TYPE: i32 = 1;

/// Frames a sprung bear trap stays shut.
pub const BEAR_TRAP_TIMER: i32 = 1;

/// What the frame scheduler needs of a trap.
pub trait Trap: Sized {
    /// The trap's actor state.
    spec fn body(&self) -> Character;

    spec fn kind(&self) -> i32;

    /// Animation frames left once sprung.
    spec fn timer(&self) -> i32;

    /// The same trap with another animation timer.
    spec fn with_timer(&self, t: i32) -> Self;

    /// Traps lie still; a frame changes nothing.
    fn update(&mut self, elapsed_time: Millis)
        ensures
            *final(self) == *old(self),
    ;

    fn damage_rectangle(&self) -> (r: Rectangle)
        requires
            self.body().wf(),
        ensures
            r == self.body().damage_rect_spec(),
    ;

    fn get_type(&self) -> (r: i32)
        ensures
            r == self.kind(),
    ;

    /// One poll of the animation countdown: `true` once it has run out,
    /// otherwise one step down.
    fn is_finished(&mut self) -> (r: bool)
        ensures
            r == (old(self).timer() == 0),
            *final(self) == old(self).with_timer(countdown_step(old(self).timer() as int) as i32),
    ;

    /// Springs the trap.
    fn set_timer(&mut self)
        ensures
            *final(self) == old(self).with_timer(BEAR_TRAP_TIMER),
    ;

    /// Center, in map space.
    fn get_map_x(&self) -> (r: i64)
        requires
            self.body().wf(),
        ensures
            r == self.body().map_center_x_spec(),
    ;

    /// Center, in map space.
    fn get_map_y(&self) -> (r: i64)
        requires
            self.body().wf(),
        ensures
            r == self.body().map_center_y_spec(),
    ;
}

/// A bear trap.
#[derive(Clone, Copy, Debug, PartialEq, Eq, Structural)]
pub struct BearTrap {
    pub character: Character,
    pub animation_timer: i32,
}

impl BearTrap {
    /// An open trap at `(x, y)`.
    pub fn new(x: i64, y: i64) -> (r: BearTrap)
        requires
            -POSITION_LIMIT <= x <= POSITION_LIMIT,
            -POSITION_LIMIT <= y <= POSITION_LIMIT,
        ensures
            r == (BearTrap { character: Character::new_spec(x, y), animation_timer: 0 }),
            r.character.wf(),
    {
        BearTrap { character: Character::new(x, y), animation_timer: 0 }
    }

    /// The trap's sprite: shut while its animation plays, open otherwise.
    pub fn load_sprite(&self) -> (r: SpriteFrame)
        ensures
            r.sheet@ == "assets/base/traps.bmp"@,
            r.tile_x == (if self.animation_timer > 0 {
                1u32
            } else {
                0u32
            }),
            r.tile_y == 0 && r.frames == 1,
    {
        if self.animation_timer > 0 {
            frame_at("assets/base/traps.bmp", 1, 0, 1, 1, 1)
        } else {
            frame_at("assets/base/traps.bmp", 0, 0, 1, 1, 1)
        }
    }
}

impl Trap for BearTrap {
    open spec fn body(&self) -> Character {
        self.character
    }

    open spec fn kind(&self) -> i32 {
        BEAR_TRAP_TYPE
    }

    open spec fn timer(&self) -> i32 {
        self.animation_timer
    }

    open spec fn with_timer(&self, t: i32) -> Self {
        BearTrap { animation_timer: t, ..*self }
    }

    fn update(&mut self, elapsed_time: Millis) {
    }

    fn damage_rectangle(&self) -> (r: Rectangle) {
        self.character.damage_rectangle()
    }

    fn get_type(&self) -> (r: i32) {
        BEAR_TRAP_TYPE
    }

    fn is_finished(&mut self) -> (r: bool) {
        if self.animation_timer == 0 {
            true
        } else {
            if self.animation_timer > 0 {
                self.animation_timer = self.animation_timer - 1;
            }
            false
        }
    }

    fn set_timer(&mut self) {
        self.animation_timer = BEAR_TRAP_TIMER;
    }

    fn get_map_x(&self) -> (r: i64) {
        self.character.map_center_x()
    }

    fn get_map_y(&self) -> (r: i64) {
        self.character.map_center_y()
    }
}

} // verus!
