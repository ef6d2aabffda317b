//! The state every mobile actor is built from, and its per-axis physics.
use vstd::prelude::*;

use crate::map::{first_wall_spec, rect_fits, TileMap};
use crate::random::random_in;
use crate::rect::Rectangle;
use crate::sprite::{frame_at, Facing, Motion, SpriteFrame};
use crate::units::{
    to_screen, wrap_spec, Millis, GAME, HALF_TILE, MAX_FRAME_MILLIS, PAGE_SIZE, TILE,
};

verus! {

/// Largest magnitude of a map-space position; positions saturate here.
pub const POSITION_LIMIT: i64 = 0x100_0000_0000;

/// Largest magnitude of a target coordinate.
pub const TARGET_LIMIT: i64 = 0x200_0000_0000;

/// Largest velocity cap an actor class may use (sub-units per ms).
pub const VELOCITY_LIMIT: i64 = 1_000_000_000;

/// Largest acceleration an actor class may use (sub-units per ms per ms).
pub const ACCEL_LIMIT: i64 = 1_000_000_000;

/// Horizontal hit box, relative to the actor's position.
pub const X_BOX_LEFT: i64 = 6 * GAME;
pub const X_BOX_TOP: i64 = 10 * GAME;
pub const X_BOX_WIDTH: i64 = 20 * GAME;
pub const X_BOX_HEIGHT: i64 = 12 * GAME;
pub const X_BOX_RIGHT: i64 = 26 * GAME;
pub const X_BOX_HALF: i64 = 10 * GAME;

/// Vertical hit box, relative to the actor's position.
pub const Y_BOX_LEFT: i64 = 10 * GAME;
pub const Y_BOX_TOP: i64 = 6 * GAME;
pub const Y_BOX_WIDTH: i64 = 12 * GAME;
pub const Y_BOX_HEIGHT: i64 = 30 * GAME;
pub const Y_BOX_BOTTOM: i64 = 36 * GAME;
pub const Y_BOX_HALF: i64 = 15 * GAME;

/// Number of `is_killed` polls a freshly killed actor answers, the last one
/// with `true`.
pub const DEATH_ANIMATION_LENGTH: i32 = 6;

/// Distance (in sub-units) under which an actor may pick a new target.
pub const RETARGET_RADIUS: i64 = 20 * GAME;

/// The base state of every mobile actor. Positions are in map space; the
/// screen position is derived from them.
#[derive(Clone, Copy, Debug, PartialEq, Eq, Structural)]
pub struct Character {
    pub map_x: i64,
    pub map_y: i64,
    pub motion: Motion,
    pub facing: Facing,
    pub elapsed_time: Millis,
    pub velocity_x: i64,
    pub velocity_y: i64,
    pub accel_x: i8,
    pub accel_y: i8,
    pub target_x: i64,
    pub target_y: i64,
    pub killed: i32,
}

pub open spec fn clamp_spec(v: int, lo: int, hi: int) -> int {
    if v < lo {
        lo
    } else if v > hi {
        hi
    } else {
        v
    }
}

/// The velocity after one frame of acceleration in the direction of the
/// ternary intent `accel`, capped at `max_velocity` either way.
pub open spec fn step_velocity(v: int, accel: i8, magnitude: int, max_velocity: int, t: int) -> int {
    let a = if accel < 0 {
        -magnitude
    } else if accel > 0 {
        magnitude
    } else {
        0
    };
    clamp_spec(v + a * t, -max_velocity, max_velocity)
}

/// Probe on the left half of the horizontal box, stretched by `delta <= 0`.
pub open spec fn left_probe(map_x: int, map_y: int, delta: int) -> Rectangle {
    Rectangle {
        x: (map_x + X_BOX_LEFT + delta) as i64,
        y: (map_y + X_BOX_TOP) as i64,
        width: (X_BOX_HALF - delta) as i64,
        height: X_BOX_HEIGHT,
    }
}

/// Probe on the right half of the horizontal box, stretched by `delta >= 0`.
pub open spec fn right_probe(map_x: int, map_y: int, delta: int) -> Rectangle {
    Rectangle {
        x: (map_x + X_BOX_LEFT + X_BOX_HALF) as i64,
        y: (map_y + X_BOX_TOP) as i64,
        width: (X_BOX_HALF + delta) as i64,
        height: X_BOX_HEIGHT,
    }
}

/// Probe on the top half of the vertical box, stretched by `delta <= 0`.
pub open spec fn top_probe(map_x: int, map_y: int, delta: int) -> Rectangle {
    Rectangle {
        x: (map_x + Y_BOX_LEFT) as i64,
        y: (map_y + Y_BOX_TOP + delta) as i64,
        width: Y_BOX_WIDTH,
        height: (Y_BOX_HALF - delta) as i64,
    }
}

/// Probe on the bottom half of the vertical box, stretched by `delta >= 0`.
pub open spec fn bottom_probe(map_x: int, map_y: int, delta: int) -> Rectangle {
    Rectangle {
        x: (map_x + Y_BOX_LEFT) as i64,
        y: (map_y + Y_BOX_TOP + Y_BOX_HALF) as i64,
        width: Y_BOX_WIDTH,
        height: (Y_BOX_HALF + delta) as i64,
    }
}

/// Position after the leading probe: snapped against the wall it meets, or
/// advanced by `delta`; and whether it met one.
pub open spec fn lead_x(map: TileMap, x: int, y: int, delta: int) -> (int, bool) {
    if delta > 0 {
        match first_wall_spec(map, right_probe(x, y, delta)) {
            Some((_, col)) => (col * TILE - X_BOX_RIGHT, true),
            None => (x + delta, false),
        }
    } else {
        match first_wall_spec(map, left_probe(x, y, delta)) {
            Some((_, col)) => (col * TILE + X_BOX_RIGHT, true),
            None => (x + delta, false),
        }
    }
}

/// Position after the trailing probe, which pushes the actor out of a wall
/// it already overlaps on the side it moves away from.
pub open spec fn trail_x(map: TileMap, x: int, y: int, delta: int) -> int {
    if delta > 0 {
        match first_wall_spec(map, left_probe(x, y, 0)) {
            Some((_, col)) => col * TILE + X_BOX_RIGHT,
            None => x,
        }
    } else {
        match first_wall_spec(map, right_probe(x, y, 0)) {
            Some((_, col)) => col * TILE - X_BOX_RIGHT,
            None => x,
        }
    }
}

pub open spec fn lead_y(map: TileMap, x: int, y: int, delta: int) -> (int, bool) {
    if delta > 0 {
        match first_wall_spec(map, bottom_probe(x, y, delta)) {
            Some((row, _)) => (row * TILE - Y_BOX_BOTTOM, true),
            None => (y + delta, false),
        }
    } else {
        match first_wall_spec(map, top_probe(x, y, delta)) {
            Some((row, _)) => ((row + 1) * TILE - Y_BOX_TOP, true),
            None => (y + delta, false),
        }
    }
}

pub open spec fn trail_y(map: TileMap, x: int, y: int, delta: int) -> int {
    if delta > 0 {
        match first_wall_spec(map, top_probe(x, y, 0)) {
            Some((row, _)) => (row + 1) * TILE - Y_BOX_TOP,
            None => y,
        }
    } else {
        match first_wall_spec(map, bottom_probe(x, y, 0)) {
            Some((row, _)) => row * TILE - Y_BOX_BOTTOM,
            None => y,
        }
    }
}

/// The horizontal state after one frame: `(map_x, velocity_x)`.
pub open spec fn x_step(c: Character, map: TileMap, magnitude: int, max_velocity: int) -> (int, int) {
    let t = c.elapsed_time.0 as int;
    let v = step_velocity(c.velocity_x as int, c.accel_x, magnitude, max_velocity, t);
    let delta = v * t;
    let (x1, hit) = lead_x(map, c.map_x as int, c.map_y as int, delta);
    let x2 = trail_x(map, x1, c.map_y as int, delta);
    (clamp_spec(x2, -POSITION_LIMIT, POSITION_LIMIT as int), if hit {
        0
    } else {
        v
    })
}

/// The vertical state after one frame: `(map_y, velocity_y)`.
pub open spec fn y_step(c: Character, map: TileMap, magnitude: int, max_velocity: int) -> (int, int) {
    let t = c.elapsed_time.0 as int;
    let v = step_velocity(c.velocity_y as int, c.accel_y, magnitude, max_velocity, t);
    let delta = v * t;
    let (y1, hit) = lead_y(map, c.map_x as int, c.map_y as int, delta);
    let y2 = trail_y(map, c.map_x as int, y1, delta);
    (clamp_spec(y2, -POSITION_LIMIT, POSITION_LIMIT as int), if hit {
        0
    } else {
        v
    })
}

/// Map-space coordinate of the corner of tile `t`.
pub open spec fn tile_corner(t: int) -> int {
    t * TILE
}

pub open spec fn sq(a: int) -> int {
    a * a
}

/// The target chosen near `center` for a nearby wander: `chance` tiles away,
/// towards the interior of the map.
pub open spec fn nearby_target(center: int, chance: int, plus_or_minus: int) -> int {
    if plus_or_minus == 1 {
        if TILE < center < 56 * TILE {
            center + chance * TILE
        } else {
            center - chance * TILE
        }
    } else {
        if 3 * TILE < center < 58 * TILE {
            center - chance * TILE
        } else {
            center + chance * TILE
        }
    }
}

/// Ternary steering toward `target` along one axis.
pub fn steer(center: i64, target: i64) -> (r: i8)
    ensures
        r == steer_spec(center as int, target as int),
{
    if center < target {
        1
    } else if center > target {
        -1
    } else {
        0
    }
}

fn nearby_coordinate(center: i64, chance: u32, plus_or_minus: u32) -> (r: i64)
    requires
        -POSITION_LIMIT - TILE <= center <= POSITION_LIMIT + TILE,
        1 <= chance <= 2,
    ensures
        r == nearby_target(center as int, chance as int, plus_or_minus as int),
{
    let step = chance as i64 * TILE;
    if plus_or_minus == 1 {
        if TILE < center && center < 56 * TILE {
            center + step
        } else {
            center - step
        }
    } else {
        if 3 * TILE < center && center < 58 * TILE {
            center - step
        } else {
            center + step
        }
    }
}

impl Character {
    /// An actor at rest at `(x, y)`: standing, facing east, aimed at its
    /// own position, not dying.
    pub open spec fn new_spec(x: i64, y: i64) -> Character {
        Character {
            map_x: x,
            map_y: y,
            motion: Motion::Standing,
            facing: Facing::East,
            elapsed_time: Millis(0),
            velocity_x: 0,
            velocity_y: 0,
            accel_x: 1,
            accel_y: 0,
            target_x: x,
            target_y: y,
            killed: -1i32,
        }
    }

    /// Positions, targets, velocities and the frame time are within the
    /// ranges the physics is defined on.
    pub open spec fn wf(&self) -> bool {
        &&& -POSITION_LIMIT <= self.map_x <= POSITION_LIMIT
        &&& -POSITION_LIMIT <= self.map_y <= POSITION_LIMIT
        &&& -TARGET_LIMIT <= self.target_x <= TARGET_LIMIT
        &&& -TARGET_LIMIT <= self.target_y <= TARGET_LIMIT
        &&& -VELOCITY_LIMIT <= self.velocity_x <= VELOCITY_LIMIT
        &&& -VELOCITY_LIMIT <= self.velocity_y <= VELOCITY_LIMIT
        &&& 0 <= self.elapsed_time.0 <= MAX_FRAME_MILLIS
    }

    /// Squared distance from the actor's map position to `(x, y)`.
    pub open spec fn dist_sq(&self, x: int, y: int) -> int {
        sq(x - self.map_x) + sq(y - self.map_y)
    }

    /// Whether `(x, y)` is closer than `radius` to the actor's map position.
    pub open spec fn within_spec(&self, x: int, y: int, radius: int) -> bool {
        self.dist_sq(x, y) < sq(radius)
    }

    pub open spec fn map_center_x_spec(&self) -> int {
        self.map_x + HALF_TILE
    }

    pub open spec fn map_center_y_spec(&self) -> int {
        self.map_y + HALF_TILE
    }

    pub open spec fn damage_rect_spec(&self) -> Rectangle {
        Rectangle {
            x: (self.map_x + X_BOX_LEFT) as i64,
            y: (self.map_y + Y_BOX_TOP) as i64,
            width: X_BOX_WIDTH,
            height: Y_BOX_HEIGHT,
        }
    }

    /// An actor at rest at `(x, y)`, standing and facing east, aimed at its
    /// own position, not dying.
    pub fn new(x: i64, y: i64) -> (r: Character)
        requires
            -POSITION_LIMIT <= x <= POSITION_LIMIT,
            -POSITION_LIMIT <= y <= POSITION_LIMIT,
        ensures
            r.wf(),
            r == Character::new_spec(x, y),
    {
        Character {
            map_x: x,
            map_y: y,
            motion: Motion::Standing,
            facing: Facing::East,
            elapsed_time: Millis(0),
            velocity_x: 0,
            velocity_y: 0,
            accel_x: 1,
            accel_y: 0,
            target_x: x,
            target_y: y,
            killed: -1,
        }
    }

    /// Walking while there is any acceleration intent, standing otherwise;
    /// the facing is kept.
    pub fn current_motion(&mut self)
        ensures
            *final(self) == (Character {
                motion: if old(self).accel_x == 0 && old(self).accel_y == 0 {
                    Motion::Standing
                } else {
                    Motion::Walking
                },
                ..*old(self)
            }),
    {
        self.motion = if self.accel_x == 0 && self.accel_y == 0 {
            Motion::Standing
        } else {
            Motion::Walking
        };
    }

    /// The death animation shared by every actor.
    pub fn load_killed_sprite(&self) -> (r: SpriteFrame)
        ensures
            r.sheet@ == "assets/base/killed.bmp"@,
            r.tile_x == 0 && r.tile_y == 0 && r.frames == 3,
    {
        frame_at("assets/base/killed.bmp", 0, 0, 1, 1, 3)
    }

    /// Starts the death animation.
    pub fn kill_character(&mut self)
        ensures
            *final(self) == (Character { killed: (DEATH_ANIMATION_LENGTH - 1) as i32, ..*old(self) }),
    {
        self.killed = DEATH_ANIMATION_LENGTH - 1;
    }

    /// Whether the death animation has started.
    pub fn is_killed(&self) -> (r: bool)
        ensures
            r == (self.killed >= 0),
    {
        self.killed >= 0
    }

    /// One poll of the death countdown: `true` once it has run out, else
    /// one step down. An actor that was never killed answers `false` and
    /// stays as it is.
    pub fn tick_killed(&mut self) -> (r: bool)
        ensures
            r == (old(self).killed == 0),
            *final(self) == (Character {
                killed: if old(self).killed > 0 {
                    (old(self).killed - 1) as i32
                } else {
                    old(self).killed
                },
                ..*old(self)
            }),
    {
        if self.killed == 0 {
            true
        } else {
            if self.killed > 0 {
                self.killed = self.killed - 1;
            }
            false
        }
    }

    pub fn set_facing(&mut self, direction: Facing)
        ensures
            *final(self) == (Character { facing: direction, ..*old(self) }),
    {
        self.facing = direction;
    }

    /// One frame of horizontal motion: accelerate along the intent, cap the
    /// speed, then move, stopping against walls (see `x_step`).
    #[verifier::rlimit(60)]
    pub fn update_x(&mut self, map: &TileMap, acceleration: i64, max_velocity: i64)
        requires
            old(self).wf(),
            0 <= acceleration <= ACCEL_LIMIT,
            0 <= max_velocity <= VELOCITY_LIMIT,
        ensures
            final(self).wf(),
            (final(self).map_x as int, final(self).velocity_x as int) == x_step(
                *old(self),
                *map,
                acceleration as int,
                max_velocity as int,
            ),
            *final(self) == (Character {
                map_x: final(self).map_x,
                velocity_x: final(self).velocity_x,
                ..*old(self)
            }),
            -max_velocity <= final(self).velocity_x <= max_velocity,
    {
        let t = self.elapsed_time.0;
        let a = if self.accel_x < 0 {
            -acceleration
        } else if self.accel_x > 0 {
            acceleration
        } else {
            0
        };
        assert(-80_000_000_000 <= a * t <= 80_000_000_000) by (nonlinear_arith)
            requires
                -ACCEL_LIMIT <= a <= ACCEL_LIMIT,
                0 <= t <= MAX_FRAME_MILLIS,
        ;
        let mut v = self.velocity_x + a * t;
        if v < -max_velocity {
            v = -max_velocity;
        } else if v > max_velocity {
            v = max_velocity;
        }
        assert(-80_000_000_000 <= v * t <= 80_000_000_000) by (nonlinear_arith)
            requires
                -VELOCITY_LIMIT <= v <= VELOCITY_LIMIT,
                0 <= t <= MAX_FRAME_MILLIS,
        ;
        let delta = v * t;
        let y = self.map_y;
        let x0 = self.map_x;
        let mut hit = false;
        if delta > 0 {
            let lead = self.right_collision(delta);
            match self.get_collision_info(&lead, map) {
                Some((_, col)) => {
                    self.map_x = col * TILE - X_BOX_RIGHT;
                    hit = true;
                },
                None => {
                    self.map_x = x0 + delta;
                },
            }
            let trail = self.left_collision(0);
            match self.get_collision_info(&trail, map) {
                Some((_, col)) => {
                    self.map_x = col * TILE + X_BOX_RIGHT;
                },
                None => {},
            }
        } else {
            let lead = self.left_collision(delta);
            match self.get_collision_info(&lead, map) {
                Some((_, col)) => {
                    self.map_x = col * TILE + X_BOX_RIGHT;
                    hit = true;
                },
                None => {
                    self.map_x = x0 + delta;
                },
            }
            let trail = self.right_collision(0);
            match self.get_collision_info(&trail, map) {
                Some((_, col)) => {
                    self.map_x = col * TILE - X_BOX_RIGHT;
                },
                None => {},
            }
        }
        if self.map_x < -POSITION_LIMIT {
            self.map_x = -POSITION_LIMIT;
        } else if self.map_x > POSITION_LIMIT {
            self.map_x = POSITION_LIMIT;
        }
        self.velocity_x = if hit {
            0
        } else {
            v
        };
    }

    /// One frame of vertical motion: accelerate along the intent, cap the
    /// speed, then move, stopping against walls (see `y_step`).
    #[verifier::rlimit(60)]
    pub fn update_y(&mut self, map: &TileMap, acceleration: i64, max_velocity: i64)
        requires
            old(self).wf(),
            0 <= acceleration <= ACCEL_LIMIT,
            0 <= max_velocity <= VELOCITY_LIMIT,
        ensures
            final(self).wf(),
            (final(self).map_y as int, final(self).velocity_y as int) == y_step(
                *old(self),
                *map,
                acceleration as int,
                max_velocity as int,
            ),
            *final(self) == (Character {
                map_y: final(self).map_y,
                velocity_y: final(self).velocity_y,
                ..*old(self)
            }),
            -max_velocity <= final(self).velocity_y <= max_velocity,
    {
        let t = self.elapsed_time.0;
        let a = if self.accel_y < 0 {
            -acceleration
        } else if self.accel_y > 0 {
            acceleration
        } else {
            0
        };
        assert(-80_000_000_000 <= a * t <= 80_000_000_000) by (nonlinear_arith)
            requires
                -ACCEL_LIMIT <= a <= ACCEL_LIMIT,
                0 <= t <= MAX_FRAME_MILLIS,
        ;
        let mut v = self.velocity_y + a * t;
        if v < -max_velocity {
            v = -max_velocity;
        } else if v > max_velocity {
            v = max_velocity;
        }
        assert(-80_000_000_000 <= v * t <= 80_000_000_000) by (nonlinear_arith)
            requires
                -VELOCITY_LIMIT <= v <= VELOCITY_LIMIT,
                0 <= t <= MAX_FRAME_MILLIS,
        ;
        let delta = v * t;
        let y0 = self.map_y;
        let mut hit = false;
        if delta > 0 {
            let lead = self.bottom_collision(delta);
            match self.get_collision_info(&lead, map) {
                Some((row, _)) => {
                    self.map_y = row * TILE - Y_BOX_BOTTOM;
                    hit = true;
                },
                None => {
                    self.map_y = y0 + delta;
                },
            }
            let trail = self.top_collision(0);
            match self.get_collision_info(&trail, map) {
                Some((row, _)) => {
                    self.map_y = row * TILE + (TILE - Y_BOX_TOP);
                },
                None => {},
            }
        } else {
            let lead = self.top_collision(delta);
            match self.get_collision_info(&lead, map) {
                Some((row, _)) => {
                    self.map_y = row * TILE + (TILE - Y_BOX_TOP);
                    hit = true;
                },
                None => {
                    self.map_y = y0 + delta;
                },
            }
            let trail = self.bottom_collision(0);
            match self.get_collision_info(&trail, map) {
                Some((row, _)) => {
                    self.map_y = row * TILE - Y_BOX_BOTTOM;
                },
                None => {},
            }
        }
        if self.map_y < -POSITION_LIMIT {
            self.map_y = -POSITION_LIMIT;
        } else if self.map_y > POSITION_LIMIT {
            self.map_y = POSITION_LIMIT;
        }
        self.velocity_y = if hit {
            0
        } else {
            v
        };
    }

    /// The box that hurts, or is hurt by, this actor.
    pub fn damage_rectangle(&self) -> (r: Rectangle)
        requires
            self.wf(),
        ensures
            r == self.damage_rect_spec(),
    {
        Rectangle {
            x: self.map_x + X_BOX_LEFT,
            y: self.map_y + Y_BOX_TOP,
            width: X_BOX_WIDTH,
            height: Y_BOX_HEIGHT,
        }
    }

    /// Horizontal position inside the page being shown.
    pub fn screen_x(&self) -> (r: i64)
        ensures
            r == wrap_spec(self.map_x as int, PAGE_SIZE as int),
    {
        to_screen(self.map_x)
    }

    /// Vertical position inside the page being shown.
    pub fn screen_y(&self) -> (r: i64)
        ensures
            r == wrap_spec(self.map_y as int, PAGE_SIZE as int),
    {
        to_screen(self.map_y)
    }

    /// Center of the actor's tile, in screen space.
    pub fn center_x(&self) -> (r: i64)
        ensures
            r == wrap_spec(self.map_x as int, PAGE_SIZE as int) + HALF_TILE,
    {
        to_screen(self.map_x) + HALF_TILE
    }

    /// Center of the actor's tile, in screen space.
    pub fn center_y(&self) -> (r: i64)
        ensures
            r == wrap_spec(self.map_y as int, PAGE_SIZE as int) + HALF_TILE,
    {
        to_screen(self.map_y) + HALF_TILE
    }

    /// Center of the actor's tile, in map space.
    pub fn map_center_x(&self) -> (r: i64)
        requires
            self.wf(),
        ensures
            r == self.map_center_x_spec(),
    {
        self.map_x + HALF_TILE
    }

    /// Center of the actor's tile, in map space.
    pub fn map_center_y(&self) -> (r: i64)
        requires
            self.wf(),
        ensures
            r == self.map_center_y_spec(),
    {
        self.map_y + HALF_TILE
    }

    /// Squared distance from the actor's map position to `(x, y)`.
    pub fn distance_squared(&self, x: i64, y: i64) -> (r: i128)
        requires
            self.wf(),
            -TARGET_LIMIT <= x <= TARGET_LIMIT,
            -TARGET_LIMIT <= y <= TARGET_LIMIT,
        ensures
            r == self.dist_sq(x as int, y as int),
    {
        let dx = x as i128 - self.map_x as i128;
        let dy = y as i128 - self.map_y as i128;
        assert(0 <= dx * dx <= 0x10_0000_0000_0000_0000_0000) by (nonlinear_arith)
            requires
                -0x400_0000_0000 <= dx <= 0x400_0000_0000,
        ;
        assert(0 <= dy * dy <= 0x10_0000_0000_0000_0000_0000) by (nonlinear_arith)
            requires
                -0x400_0000_0000 <= dy <= 0x400_0000_0000,
        ;
        dx * dx + dy * dy
    }

    /// Whether `(x, y)` is closer than `radius` to the actor's map position.
    pub fn within(&self, x: i64, y: i64, radius: i64) -> (r: bool)
        requires
            self.wf(),
            -TARGET_LIMIT <= x <= TARGET_LIMIT,
            -TARGET_LIMIT <= y <= TARGET_LIMIT,
            0 <= radius <= TARGET_LIMIT,
        ensures
            r == self.within_spec(x as int, y as int, radius as int),
    {
        assert(0 <= radius * radius <= 0x4_0000_0000_0000_0000_0000) by (nonlinear_arith)
            requires
                0 <= radius <= TARGET_LIMIT,
        ;
        let r2 = radius as i128 * radius as i128;
        self.distance_squared(x, y) < r2
    }

    /// Whether the actor is close enough to its target to pick a new one.
    pub open spec fn may_retarget(&self) -> bool {
        self.within_spec(self.target_x as int, self.target_y as int, RETARGET_RADIUS as int)
    }

    /// The wander step with its chances already drawn: when the target is
    /// within the re-acquisition radius, aim `chance_x` / `chance_y` tiles
    /// from the actor's center, towards the interior; otherwise keep it.
    pub fn retarget_nearby(&mut self, chance_x: u32, chance_y: u32, plus_or_minus: u32)
        requires
            old(self).wf(),
            1 <= chance_x <= 2,
            1 <= chance_y <= 2,
        ensures
            final(self).wf(),
            old(self).may_retarget() ==> *final(self) == (Character {
                target_x: nearby_target(
                    old(self).map_center_x_spec(),
                    chance_x as int,
                    plus_or_minus as int,
                ) as i64,
                target_y: nearby_target(
                    old(self).map_center_y_spec(),
                    chance_y as int,
                    plus_or_minus as int,
                ) as i64,
                ..*old(self)
            }),
            !old(self).may_retarget() ==> *final(self) == *old(self),
    {
        if self.within(self.target_x, self.target_y, RETARGET_RADIUS) {
            let cx = self.map_center_x();
            let cy = self.map_center_y();
            self.target_x = nearby_coordinate(cx, chance_x, plus_or_minus);
            self.target_y = nearby_coordinate(cy, chance_y, plus_or_minus);
        }
    }

    /// Picks a new wander target a tile or two away when the current one is
    /// within the re-acquisition radius; the target is kept otherwise.
    pub fn set_new_target(&mut self)
        requires
            old(self).wf(),
        ensures
            final(self).wf(),
            wandered(*old(self), *final(self)),
    {
        let chance_x = random_in(1, 3);
        let chance_y = random_in(1, 3);
        let plus_or_minus = random_in(1, 3);
        self.retarget_nearby(chance_x, chance_y, plus_or_minus);
        assert(old(self).may_retarget() ==> *self == (Character {
            target_x: nearby_target(old(self).map_center_x_spec(), chance_x as int, plus_or_minus as int)
                as i64,
            target_y: nearby_target(old(self).map_center_y_spec(), chance_y as int, plus_or_minus as int)
                as i64,
            ..*old(self)
        }));
    }

    /// The random roam step with its tiles already drawn: when the target
    /// is within the re-acquisition radius, aim at the corner of tile
    /// `(tile_x, tile_y)`; otherwise keep it.
    pub fn retarget_anywhere(&mut self, tile_x: u32, tile_y: u32)
        requires
            old(self).wf(),
            tile_x < 60,
            tile_y < 60,
        ensures
            final(self).wf(),
            old(self).may_retarget() ==> *final(self) == (Character {
                target_x: tile_corner(tile_x as int) as i64,
                target_y: tile_corner(tile_y as int) as i64,
                ..*old(self)
            }),
            !old(self).may_retarget() ==> *final(self) == *old(self),
    {
        if self.within(self.target_x, self.target_y, RETARGET_RADIUS) {
            self.target_x = tile_x as i64 * TILE;
            self.target_y = tile_y as i64 * TILE;
        }
    }

    /// Picks a new target at a random tile of the map's interior when the
    /// current one is within the re-acquisition radius; the target is kept
    /// otherwise.
    pub fn set_new_random_target(&mut self)
        requires
            old(self).wf(),
        ensures
            final(self).wf(),
            roamed(*old(self), *final(self)),
    {
        let tile_x = random_in(1, 58);
        let tile_y = random_in(1, 58);
        self.retarget_anywhere(tile_x, tile_y);
        assert(old(self).may_retarget() ==> *self == (Character {
            target_x: tile_corner(tile_x as int) as i64,
            target_y: tile_corner(tile_y as int) as i64,
            ..*old(self)
        }));
    }

    /// Takes the frame time, refreshes the motion (walking while there is
    /// any intent) and runs both physics axes.
    pub fn advance(&mut self, elapsed_time: Millis, map: &TileMap, acceleration: i64, max_velocity: i64)
        requires
            old(self).wf(),
            0 <= elapsed_time.0 <= MAX_FRAME_MILLIS,
            0 <= acceleration <= ACCEL_LIMIT,
            0 <= max_velocity <= VELOCITY_LIMIT,
        ensures
            final(self).wf(),
            *final(self) == advance_spec(*old(self), elapsed_time, *map, acceleration as int, max_velocity as int),
    {
        self.elapsed_time = elapsed_time;
        self.current_motion();
        self.update_x(map, acceleration, max_velocity);
        self.update_y(map, acceleration, max_velocity);
    }

    fn get_collision_info(&self, hitbox: &Rectangle, tile_map: &TileMap) -> (r: Option<(i64, i64)>)
        requires
            rect_fits(*hitbox),
        ensures
            match first_wall_spec(*tile_map, *hitbox) {
                Some((row, col)) => {
                    &&& r == Some((row as i64, col as i64))
                    &&& hitbox.top_spec() / (TILE as int) <= row <= hitbox.bottom_spec() / (TILE as int)
                    &&& hitbox.left_spec() / (TILE as int) <= col <= hitbox.right_spec() / (TILE as int)
                },
                None => r.is_none(),
            },
    {
        match tile_map.first_wall(hitbox) {
            Some(tile) => Some((tile.row, tile.col)),
            None => None,
        }
    }

    fn left_collision(&self, delta: i64) -> (r: Rectangle)
        requires
            -2 * POSITION_LIMIT <= self.map_x <= 2 * POSITION_LIMIT,
            -POSITION_LIMIT <= self.map_y <= POSITION_LIMIT,
            -100_000_000_000 <= delta <= 0,
        ensures
            r == left_probe(self.map_x as int, self.map_y as int, delta as int),
            rect_fits(r),
    {
        Rectangle {
            x: self.map_x + X_BOX_LEFT + delta,
            y: self.map_y + X_BOX_TOP,
            width: X_BOX_HALF - delta,
            height: X_BOX_HEIGHT,
        }
    }

    fn right_collision(&self, delta: i64) -> (r: Rectangle)
        requires
            -2 * POSITION_LIMIT <= self.map_x <= 2 * POSITION_LIMIT,
            -POSITION_LIMIT <= self.map_y <= POSITION_LIMIT,
            0 <= delta <= 100_000_000_000,
        ensures
            r == right_probe(self.map_x as int, self.map_y as int, delta as int),
            rect_fits(r),
    {
        Rectangle {
            x: self.map_x + X_BOX_LEFT + X_BOX_HALF,
            y: self.map_y + X_BOX_TOP,
            width: X_BOX_HALF + delta,
            height: X_BOX_HEIGHT,
        }
    }

    fn top_collision(&self, delta: i64) -> (r: Rectangle)
        requires
            -POSITION_LIMIT <= self.map_x <= POSITION_LIMIT,
            -2 * POSITION_LIMIT <= self.map_y <= 2 * POSITION_LIMIT,
            -100_000_000_000 <= delta <= 0,
        ensures
            r == top_probe(self.map_x as int, self.map_y as int, delta as int),
            rect_fits(r),
    {
        Rectangle {
            x: self.map_x + Y_BOX_LEFT,
            y: self.map_y + Y_BOX_TOP + delta,
            width: Y_BOX_WIDTH,
            height: Y_BOX_HALF - delta,
        }
    }

    fn bottom_collision(&self, delta: i64) -> (r: Rectangle)
        requires
            -POSITION_LIMIT <= self.map_x <= POSITION_LIMIT,
            -2 * POSITION_LIMIT <= self.map_y <= 2 * POSITION_LIMIT,
            0 <= delta <= 100_000_000_000,
        ensures
            r == bottom_probe(self.map_x as int, self.map_y as int, delta as int),
            rect_fits(r),
    {
        Rectangle {
            x: self.map_x + Y_BOX_LEFT,
            y: self.map_y + Y_BOX_TOP + Y_BOX_HALF,
            width: Y_BOX_WIDTH,
            height: Y_BOX_HALF + delta,
        }
    }
}

} // verus!

verus! {

/// An actor that has taken the frame time and refreshed its animation
/// state, before it moves.
pub open spec fn prepared(c: Character, elapsed_time: Millis) -> Character {
    Character {
        elapsed_time,
        motion: if c.accel_x == 0 && c.accel_y == 0 {
            Motion::Standing
        } else {
            Motion::Walking
        },
        ..c
    }
}

/// One frame of an actor: prepare, then the horizontal step, then the
/// vertical step from the new horizontal position.
pub open spec fn advance_spec(
    c: Character,
    elapsed_time: Millis,
    map: TileMap,
    magnitude: int,
    max_velocity: int,
) -> Character {
    let c1 = prepared(c, elapsed_time);
    let (x, vx) = x_step(c1, map, magnitude, max_velocity);
    let c2 = Character { map_x: x as i64, velocity_x: vx as i64, ..c1 };
    let (y, vy) = y_step(c2, map, magnitude, max_velocity);
    Character { map_y: y as i64, velocity_y: vy as i64, ..c2 }
}

/// `next` is `c` after a wander step: when `c` is within the
/// re-acquisition radius of its target, the target moves one or two tiles
/// from its center towards the interior; otherwise nothing changes.
pub open spec fn wandered(c: Character, next: Character) -> bool {
    &&& c.may_retarget() ==> exists|cx: int, cy: int, pm: int|
        #![trigger nearby_target(c.map_center_x_spec(), cx, pm), nearby_target(c.map_center_y_spec(), cy, pm)]
        1 <= cx <= 2 && 1 <= cy <= 2 && 1 <= pm <= 2 && next == (Character {
            target_x: nearby_target(c.map_center_x_spec(), cx, pm) as i64,
            target_y: nearby_target(c.map_center_y_spec(), cy, pm) as i64,
            ..c
        })
    &&& !c.may_retarget() ==> next == c
}

/// `next` is `c` after a roam step: when `c` is within the re-acquisition
/// radius of its target, the target moves to the corner of a tile of the
/// map's interior; otherwise nothing changes.
pub open spec fn roamed(c: Character, next: Character) -> bool {
    &&& c.may_retarget() ==> exists|tx: int, ty: int|
        #![trigger tile_corner(tx), tile_corner(ty)]
        1 <= tx < 58 && 1 <= ty < 58 && next == (Character {
            target_x: tile_corner(tx) as i64,
            target_y: tile_corner(ty) as i64,
            ..c
        })
    &&& !c.may_retarget() ==> next == c
}

/// Ternary steering toward `target` along one axis.
pub open spec fn steer_spec(center: int, target: int) -> i8 {
    if center < target {
        1i8
    } else if center > target {
        -1i8
    } else {
        0i8
    }
}

/// One step of a death countdown: down by one while time is left; a
/// countdown that ran out, or never started, stays.
pub open spec fn countdown_step(k: int) -> int {
    if k > 0 {
        k - 1
    } else {
        k
    }
}

/// The death countdown after `n` polls, starting from `k`.
pub open spec fn countdown_after(k: int, n: nat) -> int
    decreases n,
{
    if n == 0 {
        k
    } else {
        countdown_step(countdown_after(k, (n - 1) as nat))
    }
}

/// A freshly killed actor answers `DEATH_ANIMATION_LENGTH` polls of its
/// death countdown: every poll before the last finds time left, and the
/// last finds it run out.
pub proof fn lemma_kill_countdown(n: nat)
    requires
        n < DEATH_ANIMATION_LENGTH,
    ensures
        countdown_after((DEATH_ANIMATION_LENGTH - 1) as int, n) == DEATH_ANIMATION_LENGTH - 1 - n,
        (countdown_after((DEATH_ANIMATION_LENGTH - 1) as int, n) == 0) == (n
            == DEATH_ANIMATION_LENGTH - 1),
    decreases n,
{
    if n > 0 {
        lemma_kill_countdown((n - 1) as nat);
    }
}

/// Horizontal displacement an actor attempts this frame.
pub open spec fn delta_x(c: Character, magnitude: int, max_velocity: int) -> int {
    step_velocity(c.velocity_x as int, c.accel_x, magnitude, max_velocity, c.elapsed_time.0 as int)
        * c.elapsed_time.0
}

/// Vertical displacement an actor attempts this frame.
pub open spec fn delta_y(c: Character, magnitude: int, max_velocity: int) -> int {
    step_velocity(c.velocity_y as int, c.accel_y, magnitude, max_velocity, c.elapsed_time.0 as int)
        * c.elapsed_time.0
}

/// After a horizontal step the speed never exceeds the class's cap.
pub proof fn lemma_velocity_cap(c: Character, map: TileMap, magnitude: int, max_velocity: int)
    requires
        0 <= max_velocity,
    ensures
        -max_velocity <= x_step(c, map, magnitude, max_velocity).1 <= max_velocity,
        -max_velocity <= y_step(c, map, magnitude, max_velocity).1 <= max_velocity,
{
}

/// When the leading probe of a horizontal move meets a wall in column
/// `col`, the actor stops with its leading edge on that wall's face and no
/// horizontal speed, provided the trailing probe does not then push it out
/// of another wall and the face lies inside the position range.
pub proof fn lemma_wall_snap_x(c: Character, map: TileMap, magnitude: int, max_velocity: int, row: int, col: int)
    ensures
        ({
            let d = delta_x(c, magnitude, max_velocity);
            let y = c.map_y as int;
            d > 0 && first_wall_spec(map, right_probe(c.map_x as int, y, d)) == Some((row, col))
                ==> x_step(c, map, magnitude, max_velocity).1 == 0 && (first_wall_spec(
                map,
                left_probe(col * TILE - X_BOX_RIGHT, y, 0),
            ).is_none() && -POSITION_LIMIT <= col * TILE - X_BOX_RIGHT <= POSITION_LIMIT
                ==> x_step(c, map, magnitude, max_velocity).0 + X_BOX_RIGHT == col * TILE)
        }),
        ({
            let d = delta_x(c, magnitude, max_velocity);
            let y = c.map_y as int;
            d <= 0 && first_wall_spec(map, left_probe(c.map_x as int, y, d)) == Some((row, col))
                ==> x_step(c, map, magnitude, max_velocity).1 == 0 && (first_wall_spec(
                map,
                right_probe(col * TILE + X_BOX_RIGHT, y, 0),
            ).is_none() && -POSITION_LIMIT <= col * TILE + X_BOX_RIGHT <= POSITION_LIMIT
                ==> x_step(c, map, magnitude, max_velocity).0 + X_BOX_LEFT == (col + 1) * TILE)
        }),
{
}

/// When the leading probe of a vertical move meets a wall in row `row`,
/// the actor stops with no vertical speed and its leading edge on the
/// wall's face (the bottom edge on its top face moving down, the top edge
/// on its bottom face moving up), provided the trailing probe does not push
/// it out of another wall and the face lies inside the position range.
pub proof fn lemma_wall_snap_y(c: Character, map: TileMap, magnitude: int, max_velocity: int, row: int, col: int)
    ensures
        ({
            let d = delta_y(c, magnitude, max_velocity);
            let x = c.map_x as int;
            d > 0 && first_wall_spec(map, bottom_probe(x, c.map_y as int, d)) == Some((row, col))
                ==> y_step(c, map, magnitude, max_velocity).1 == 0 && (first_wall_spec(
                map,
                top_probe(x, row * TILE - Y_BOX_BOTTOM, 0),
            ).is_none() && -POSITION_LIMIT <= row * TILE - Y_BOX_BOTTOM <= POSITION_LIMIT
                ==> y_step(c, map, magnitude, max_velocity).0 + Y_BOX_BOTTOM == row * TILE)
        }),
        ({
            let d = delta_y(c, magnitude, max_velocity);
            let x = c.map_x as int;
            d <= 0 && first_wall_spec(map, top_probe(x, c.map_y as int, d)) == Some((row, col))
                ==> y_step(c, map, magnitude, max_velocity).1 == 0 && (first_wall_spec(
                map,
                bottom_probe(x, (row + 1) * TILE - Y_BOX_TOP, 0),
            ).is_none() && -POSITION_LIMIT <= (row + 1) * TILE - Y_BOX_TOP <= POSITION_LIMIT
                ==> y_step(c, map, magnitude, max_velocity).0 + Y_BOX_TOP == (row + 1) * TILE)
        }),
{
}

} // verus!
