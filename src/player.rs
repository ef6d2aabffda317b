//! The player: an actor steered by input, with a few timed states.
use vstd::prelude::*;

use crate::common::{advance_spec, Character, POSITION_LIMIT};
use crate::map::TileMap;
use crate::sprite::{frame_at, Facing, Motion, SpriteFrame};
use crate::units::{Millis, MAX_FRAME_MILLIS};

verus! {

pub const WALKING_ACCEL: i64 = 830;
pub const MAX_VELOCITY: i64 = 178_594;

/// Health of a fresh player.
pub const STARTING_HEALTH: u32 = 3;

/// Frames the teleport animation plays.
pub const TELEPORT_FRAMES: i32 = 20;

/// Frames of immunity after a hit.
pub const IMMUNITY_FRAMES: i32 = 60;

/// Frames between refreshes of the point chasing zombies follow.
pub const FOLLOW_INTERVAL: i32 = 10;

#[derive(Clone, Copy, Debug, PartialEq, Eq, Structural)]
pub struct Player {
    pub character: Character,
    pub cricket_bat: bool,
    pub teleport_timer: i32,
    pub immunity_timer: i32,
    pub health: u32,
    pub follow_x: i64,
    pub follow_y: i64,
    pub update_count: i32,
}

/// A timer after one frame: down by one while it runs.
pub open spec fn tick_spec(t: i32) -> i32 {
    if t > 0 {
        (t - 1) as i32
    } else {
        t
    }
}

/// Sheet row of the player's plain sprites, facing west; east is the next.
pub const CHAR_OFFSET: u32 = 12;

/// Sheet row of the player's sprites with the bat, facing west.
pub const CRICKET_OFFSET: u32 = 10;

/// Teleport timer above which the arrival flash is shown.
pub const TELEPORT_FLASH_FRAMES: i32 = 15;

/// Which look the player has this frame.
pub enum Look {
    Bat,
    Flash,
    Teleport,
    Hit,
    Dying,
    Plain,
}

pub open spec fn look_of(p: Player) -> Look {
    if p.cricket_bat {
        Look::Bat
    } else if p.teleport_timer > TELEPORT_FLASH_FRAMES {
        Look::Flash
    } else if p.teleport_timer > 0 {
        Look::Teleport
    } else if p.immunity_timer > 0 {
        Look::Hit
    } else if p.character.killed >= 0 {
        Look::Dying
    } else {
        Look::Plain
    }
}

pub open spec fn facing_row(base: u32, f: Facing) -> u32 {
    if f == Facing::West {
        base
    } else {
        (base + 1) as u32
    }
}

impl Player {
    /// Everything the player's frame relies on: a well-formed actor, a
    /// follow point inside the position range, and a frame counter that
    /// has not run past its interval.
    pub open spec fn wf(&self) -> bool {
        &&& self.character.wf()
        &&& -POSITION_LIMIT <= self.follow_x <= POSITION_LIMIT + crate::units::HALF_TILE
        &&& -POSITION_LIMIT <= self.follow_y <= POSITION_LIMIT + crate::units::HALF_TILE
        &&& 0 <= self.update_count <= FOLLOW_INTERVAL
    }

    /// The player after one frame (see `update`).
    pub open spec fn updated(&self, elapsed_time: Millis, map: TileMap) -> Player {
        let refresh = self.update_count == FOLLOW_INTERVAL;
        Player {
            character: advance_spec(self.character, elapsed_time, map, WALKING_ACCEL as int, MAX_VELOCITY as int),
            teleport_timer: tick_spec(self.teleport_timer),
            immunity_timer: tick_spec(self.immunity_timer),
            follow_x: if refresh {
                self.character.map_center_x_spec() as i64
            } else {
                self.follow_x
            },
            follow_y: if refresh {
                self.character.map_center_y_spec() as i64
            } else {
                self.follow_y
            },
            update_count: if refresh {
                0
            } else {
                (self.update_count + 1) as i32
            },
            ..*self
        }
    }

    /// A player at rest at `(x, y)` with full health, no bat and no timer
    /// running.
    pub open spec fn new_spec(x: i64, y: i64) -> Player {
        Player {
            character: Character::new_spec(x, y),
            cricket_bat: false,
            teleport_timer: 0,
            immunity_timer: 0,
            health: STARTING_HEALTH,
            follow_x: 0,
            follow_y: 0,
            update_count: 0,
        }
    }

    /// A player at rest at `(x, y)` with full health.
    pub fn new(x: i64, y: i64) -> (r: Player)
        requires
            -POSITION_LIMIT <= x <= POSITION_LIMIT,
            -POSITION_LIMIT <= y <= POSITION_LIMIT,
        ensures
            r.wf(),
            r == Player::new_spec(x, y),
    {
        Player {
            character: Character::new(x, y),
            cricket_bat: false,
            teleport_timer: 0,
            immunity_timer: 0,
            health: STARTING_HEALTH,
            follow_x: 0,
            follow_y: 0,
            update_count: 0,
        }
    }

    /// One frame: run down the teleport and immunity timers, refresh the
    /// follow point every `FOLLOW_INTERVAL + 1` frames (from the position
    /// before this frame's move), then move.
    pub fn update(&mut self, elapsed_time: Millis, map: &TileMap)
        requires
            old(self).wf(),
            0 <= elapsed_time.0 <= MAX_FRAME_MILLIS,
        ensures
            final(self).wf(),
            *final(self) == old(self).updated(elapsed_time, *map),
    {
        if self.teleport_timer > 0 {
            self.teleport_timer = self.teleport_timer - 1;
        }
        if self.immunity_timer > 0 {
            self.immunity_timer = self.immunity_timer - 1;
        }
        if self.update_count == FOLLOW_INTERVAL {
            self.follow_x = self.character.map_center_x();
            self.follow_y = self.character.map_center_y();
            self.update_count = 0;
        } else {
            self.update_count = self.update_count + 1;
        }
        self.character.advance(elapsed_time, map, WALKING_ACCEL, MAX_VELOCITY);
    }

    /// The sprite the player shows this frame: with the bat; the arrival
    /// flash, then the teleport look, while teleporting; the hit look while
    /// immune; the death animation while dying; the plain look otherwise.
    /// Walking looks are animated.
    pub fn current_sprite(&self) -> (r: SpriteFrame)
        ensures
            ({
                let walking = self.character.motion == Motion::Walking;
                let f = self.character.facing;
                match look_of(*self) {
                    Look::Bat => r.sheet@ == "assets/MyChar.bmp"@ && r.tile_x == 0 && r.tile_y
                        == facing_row(CRICKET_OFFSET, f) && r.frames == (if walking {
                        3u32
                    } else {
                        1u32
                    }),
                    Look::Flash => r.sheet@ == "assets/base/teleport.bmp"@ && r.tile_x == 1 && r.tile_y
                        == 0 && r.frames == 1,
                    Look::Teleport => r.sheet@ == "assets/MyChar.bmp"@ && r.tile_x == 3 && r.tile_y
                        == facing_row(CRICKET_OFFSET, f) && r.frames == (if walking {
                        3u32
                    } else {
                        1u32
                    }),
                    Look::Hit => r.sheet@ == "assets/MyChar.bmp"@ && r.tile_x == 3 && r.tile_y
                        == facing_row(CHAR_OFFSET, f) && r.frames == (if walking {
                        4u32
                    } else {
                        2u32
                    }),
                    Look::Dying => r.sheet@ == "assets/base/killed.bmp"@ && r.tile_x == 0 && r.tile_y
                        == 0 && r.frames == 3,
                    Look::Plain => r.sheet@ == "assets/MyChar.bmp"@ && r.tile_x == 0 && r.tile_y
                        == facing_row(CHAR_OFFSET, f) && r.frames == (if walking {
                        3u32
                    } else {
                        1u32
                    }),
                }
            }),
            r.tiles_wide == 1 && r.tiles_high == 1,
    {
        let walking = match self.character.motion {
            Motion::Walking => true,
            Motion::Standing => false,
        };
        let east: u32 = match self.character.facing {
            Facing::West => 0,
            Facing::East => 1,
        };
        let still: u32 = if walking {
            3
        } else {
            1
        };
        if self.cricket_bat {
            frame_at("assets/MyChar.bmp", 0, CRICKET_OFFSET + east, 1, 1, still)
        } else if self.teleport_timer > TELEPORT_FLASH_FRAMES {
            frame_at("assets/base/teleport.bmp", 1, 0, 1, 1, 1)
        } else if self.teleport_timer > 0 {
            frame_at("assets/MyChar.bmp", 3, CRICKET_OFFSET + east, 1, 1, still)
        } else if self.immunity_timer > 0 {
            let frames: u32 = if walking {
                4
            } else {
                2
            };
            frame_at("assets/MyChar.bmp", 3, CHAR_OFFSET + east, 1, 1, frames)
        } else if self.character.killed >= 0 {
            frame_at("assets/base/killed.bmp", 0, 0, 1, 1, 3)
        } else {
            frame_at("assets/MyChar.bmp", 0, CHAR_OFFSET + east, 1, 1, still)
        }
    }

    /// Faces west and accelerates that way.
    pub fn start_moving_left(&mut self)
        ensures
            *final(self) == (Player {
                character: Character { facing: Facing::West, accel_x: -1i8, ..old(self).character },
                ..*old(self)
            }),
    {
        self.character.set_facing(Facing::West);
        self.character.accel_x = -1;
    }

    /// Faces east and accelerates that way.
    pub fn start_moving_right(&mut self)
        ensures
            *final(self) == (Player {
                character: Character { facing: Facing::East, accel_x: 1, ..old(self).character },
                ..*old(self)
            }),
    {
        self.character.set_facing(Facing::East);
        self.character.accel_x = 1;
    }

    pub fn start_moving_up(&mut self)
        ensures
            *final(self) == (Player {
                character: Character { accel_y: -1i8, ..old(self).character },
                ..*old(self)
            }),
    {
        self.character.accel_y = -1;
    }

    pub fn start_moving_down(&mut self)
        ensures
            *final(self) == (Player {
                character: Character { accel_y: 1, ..old(self).character },
                ..*old(self)
            }),
    {
        self.character.accel_y = 1;
    }

    /// Stops accelerating horizontally, keeping the facing; with
    /// `hard_stop` the horizontal speed drops to zero at once.
    pub fn stop_moving_horizontally(&mut self, hard_stop: bool)
        ensures
            *final(self) == (Player {
                character: Character {
                    accel_x: 0,
                    velocity_x: if hard_stop {
                        0
                    } else {
                        old(self).character.velocity_x
                    },
                    ..old(self).character
                },
                ..*old(self)
            }),
    {
        self.character.accel_x = 0;
        if hard_stop {
            self.character.velocity_x = 0;
        }
    }

    /// Stops accelerating vertically; with `hard_stop` the vertical speed
    /// drops to zero at once.
    pub fn stop_moving_vertically(&mut self, hard_stop: bool)
        ensures
            *final(self) == (Player {
                character: Character {
                    accel_y: 0,
                    velocity_y: if hard_stop {
                        0
                    } else {
                        old(self).character.velocity_y
                    },
                    ..old(self).character
                },
                ..*old(self)
            }),
    {
        self.character.accel_y = 0;
        if hard_stop {
            self.character.velocity_y = 0;
        }
    }

    pub fn give_bat(&mut self)
        ensures
            *final(self) == (Player { cricket_bat: true, ..*old(self) }),
    {
        self.cricket_bat = true;
    }

    pub fn take_bat(&mut self)
        ensures
            *final(self) == (Player { cricket_bat: false, ..*old(self) }),
    {
        self.cricket_bat = false;
    }

    pub fn has_bat(&self) -> (r: bool)
        ensures
            r == self.cricket_bat,
    {
        self.cricket_bat
    }

    pub fn start_teleport_timer(&mut self)
        ensures
            *final(self) == (Player { teleport_timer: TELEPORT_FRAMES, ..*old(self) }),
    {
        self.teleport_timer = TELEPORT_FRAMES;
    }

    pub fn is_teleporting(&self) -> (r: bool)
        ensures
            r == (self.teleport_timer > 0),
    {
        self.teleport_timer > 0
    }

    pub fn start_immunity(&mut self)
        ensures
            *final(self) == (Player { immunity_timer: IMMUNITY_FRAMES, ..*old(self) }),
    {
        self.immunity_timer = IMMUNITY_FRAMES;
    }

    pub fn is_immune(&self) -> (r: bool)
        ensures
            r == (self.immunity_timer > 0),
    {
        self.immunity_timer > 0
    }

    /// Takes one point of health.
    pub fn hit_player(&mut self)
        requires
            old(self).health > 0,
        ensures
            *final(self) == (Player { health: (old(self).health - 1) as u32, ..*old(self) }),
    {
        self.health = self.health - 1;
    }

    pub fn get_health(&self) -> (r: u32)
        ensures
            r == self.health,
    {
        self.health
    }

    /// The point chasing zombies head for: where the player was at the
    /// last refresh.
    pub fn get_follow_coords(&self) -> (r: (i64, i64))
        ensures
            r == (self.follow_x, self.follow_y),
    {
        (self.follow_x, self.follow_y)
    }
}

} // verus!
