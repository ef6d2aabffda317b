use vstd::prelude::*;

use crate::units::{Millis, MAX_FRAME_MILLIS};

verus! {

/// Whether an actor is moving.
#[derive(Clone, Copy, Debug, PartialEq, Eq, Structural)]
pub enum Motion {
    Walking,
    Standing,
}

/// Which way an actor looks.
#[derive(Clone, Copy, Debug, PartialEq, Eq, Structural)]
pub enum Facing {
    West,
    East,
}

/// Where a sprite's first frame sits on its sheet, in tiles, and how many
/// tiles it spans.
pub struct SpriteFrame {
    pub sheet: String,
    pub tile_x: u32,
    pub tile_y: u32,
    pub tiles_wide: u32,
    pub tiles_high: u32,
    /// Frames of animation laid out to the right of the first (1 for a
    /// still sprite).
    pub frames: u32,
}

/// A sprite frame from its parts.
pub fn frame_at(sheet: &str, tile_x: u32, tile_y: u32, tiles_wide: u32, tiles_high: u32, frames: u32) -> (r: SpriteFrame)
    ensures
        r.sheet@ == sheet@,
        r.tile_x == tile_x && r.tile_y == tile_y,
        r.tiles_wide == tiles_wide && r.tiles_high == tiles_high,
        r.frames == frames,
{
    SpriteFrame { sheet: String::from_str(sheet), tile_x, tile_y, tiles_wide, tiles_high, frames }
}

/// A sprite that steps through its frames at a fixed rate.
pub struct AnimatedSprite {
    pub frame: SpriteFrame,
    pub current_frame: u32,
    pub fps: u32,
    pub last_update: i64,
}

impl AnimatedSprite {
    /// Milliseconds each frame stays on screen.
    pub open spec fn frame_time(&self) -> int {
        1000int / (self.fps as int)
    }

    /// The rate is positive, the current frame is one of the sprite's, and
    /// the time since the last step is no more than a frame's time.
    pub open spec fn wf(&self) -> bool {
        &&& 0 < self.fps
        &&& 0 < self.frame.frames
        &&& self.current_frame < self.frame.frames
        &&& 0 <= self.last_update <= self.frame_time()
    }

    /// An animation of `frame` at `fps` frames per second, on its first
    /// frame.
    pub fn new(frame: SpriteFrame, fps: u32) -> (r: AnimatedSprite)
        requires
            0 < fps,
            0 < frame.frames,
        ensures
            r.wf(),
            r.current_frame == 0 && r.last_update == 0 && r.fps == fps,
            r.frame == frame,
    {
        AnimatedSprite { frame, current_frame: 0, fps, last_update: 0 }
    }

    /// Adds the elapsed time; once more than a frame's time has built up,
    /// moves to the next frame (wrapping to the first) and starts counting
    /// again.
    pub fn update(&mut self, elapsed_time: Millis)
        requires
            old(self).wf(),
            0 <= elapsed_time.0 <= MAX_FRAME_MILLIS,
        ensures
            final(self).wf(),
            final(self).frame == old(self).frame,
            final(self).fps == old(self).fps,
            ({
                let t = old(self).last_update + elapsed_time.0;
                if t > old(self).frame_time() {
                    &&& final(self).last_update == 0
                    &&& final(self).current_frame == (if old(self).current_frame + 1 < old(self).frame.frames {
                        old(self).current_frame + 1
                    } else {
                        0
                    })
                } else {
                    final(self).last_update == t && final(self).current_frame == old(self).current_frame
                }
            }),
    {
        let frame_time = (1000 / self.fps) as i64;
        self.last_update = self.last_update + elapsed_time.0;
        if self.last_update > frame_time {
            self.last_update = 0;
            if self.current_frame + 1 < self.frame.frames {
                self.current_frame = self.current_frame + 1;
            } else {
                self.current_frame = 0;
            }
        }
    }

    /// Column on the sheet of the frame being shown.
    pub fn source_tile_x(&self) -> (r: u64)
        ensures
            r == self.frame.tile_x + self.current_frame * self.frame.tiles_wide,
    {
        assert(self.current_frame * self.frame.tiles_wide <= 0xFFFF_FFFF * 0xFFFF_FFFF) by (nonlinear_arith)
            requires
                self.current_frame <= 0xFFFF_FFFF,
                self.frame.tiles_wide <= 0xFFFF_FFFF,
        ;
        self.frame.tile_x as u64 + self.current_frame as u64 * self.frame.tiles_wide as u64
    }
}

} // verus!
