//! The four zombie kinds and what they share.
use vstd::prelude::*;

use crate::common::{
    roamed, steer, steer_spec, wandered, Character, DEATH_ANIMATION_LENGTH, POSITION_LIMIT,
    TARGET_LIMIT, advance_spec, countdown_step,
};
use crate::map::TileMap;
use crate::rect::Rectangle;
use crate::sprite::{frame_at, Facing, Motion, SpriteFrame};
use crate::units::{wrap_spec, Millis, GAME, HALF_TILE, MAX_FRAME_MILLIS, PAGE_SIZE};

verus! {

pub const SLOW_WALKING_ACCEL: i64 = 30;
pub const SLOW_MAX_VELOCITY: i64 = 158_594;
pub const CRAZY_START_WALKING_ACCEL: i64 = 630;
pub const CRAZY_CHASING_WALKING_ACCEL: i64 = 1_830;
pub const CRAZY_MAX_VELOCITY: i64 = 158_594;
pub const RANDOM_WALKING_ACCEL: i64 = 1_830;
pub const RANDOM_MAX_VELOCITY: i64 = 208_594;
pub const CLOUD_WALKING_ACCEL: i64 = 830;
pub const CLOUD_MAX_VELOCITY: i64 = 58_594;

/// Distance under which a crazy zombie starts chasing the player.
pub const CRAZY_CHASE_RADIUS: i64 = 100 * GAME;

/// Distance under which a cloud zombie starts chasing the player.
pub const CLOUD_CHASE_RADIUS: i64 = 50 * GAME;

pub const SLOW_TYPE: i32 = 1;
pub const CRAZY_TYPE: i32 = 2;
pub const RANDOM_TYPE: i32 = 3;
pub const CLOUD_TYPE: i32 = 4;

/// `next` is `c` aimed at its target: the acceleration intent on each axis
/// points from its center toward the target.
pub open spec fn aimed(c: Character, next: Character) -> bool {
    next == (Character {
        accel_x: steer_spec(c.map_center_x_spec(), c.target_x as int),
        accel_y: steer_spec(c.map_center_y_spec(), c.target_y as int),
        ..c
    })
}

/// `c` facing the way it accelerates: west while accelerating west, east
/// otherwise.
pub open spec fn facing_intent(c: Character) -> Character {
    Character {
        facing: if c.accel_x < 0 {
            Facing::West
        } else {
            Facing::East
        },
        ..c
    }
}

/// `c` with its acceleration intent taken from `like`.
pub open spec fn with_accel_of(c: Character, like: Character) -> Character {
    Character { accel_x: like.accel_x, accel_y: like.accel_y, ..c }
}

/// The chase-or-wander steering shared by crazy and cloud zombies: chase
/// the player when closer than `radius`, otherwise wander; then aim.
pub open spec fn chase_or_wander(
    c: Character,
    player_x: int,
    player_y: int,
    radius: int,
    chasing: bool,
    next: Character,
) -> bool {
    let picked = with_accel_of(next, c);
    &&& chasing == c.within_spec(player_x, player_y, radius)
    &&& chasing ==> picked == (Character {
        target_x: player_x as i64,
        target_y: player_y as i64,
        ..c
    })
    &&& !chasing ==> wandered(c, picked)
    &&& aimed(picked, next)
}

fn aim(c: &mut Character)
    requires
        old(c).wf(),
    ensures
        aimed(*old(c), *final(c)),
        final(c).wf(),
{
    let cx = c.map_center_x();
    let cy = c.map_center_y();
    c.accel_x = steer(cx, c.target_x);
    c.accel_y = steer(cy, c.target_y);
}

fn zombie_frame(sheet: &str, tile_x: u32, facing: Facing) -> (r: SpriteFrame)
    ensures
        r.sheet@ == sheet@,
        r.tile_x == tile_x,
        r.tile_y == (if facing == Facing::West {
            2u32
        } else {
            3u32
        }),
        r.tiles_wide == 1 && r.tiles_high == 1,
{
    let tile_y: u32 = match facing {
        Facing::West => 2,
        Facing::East => 3,
    };
    frame_at(sheet, tile_x, tile_y, 1, 1, 1)
}

/// What every zombie offers the frame scheduler.
pub trait Zombie: Sized {
    /// The zombie's actor state.
    spec fn body(&self) -> Character;

    /// The same zombie with its actor state replaced.
    spec fn with_body(&self, c: Character) -> Self;

    /// The zombie after one frame of motion.
    spec fn advanced(&self, elapsed_time: Millis, map: TileMap) -> Self;

    /// Whether `next` is a state the zombie may take when it steers with
    /// the player at `(player_x, player_y)`.
    spec fn steered(&self, player_x: int, player_y: int, next: Self) -> bool;

    /// The kind tag.
    spec fn kind(&self) -> i32;

    /// Advances the zombie by one frame.
    fn update(&mut self, elapsed_time: Millis, map: &TileMap)
        requires
            old(self).body().wf(),
            0 <= elapsed_time.0 <= MAX_FRAME_MILLIS,
        ensures
            *final(self) == old(self).advanced(elapsed_time, *map),
            final(self).body().wf(),
    ;

    /// Recomputes the acceleration intent from the player's position.
    fn set_acceleration(&mut self, player_x: i64, player_y: i64)
        requires
            old(self).body().wf(),
            -TARGET_LIMIT <= player_x <= TARGET_LIMIT,
            -TARGET_LIMIT <= player_y <= TARGET_LIMIT,
        ensures
            old(self).steered(player_x as int, player_y as int, *final(self)),
            final(self).body().wf(),
    ;

    fn damage_rectangle(&self) -> (r: Rectangle)
        requires
            self.body().wf(),
        ensures
            r == self.body().damage_rect_spec(),
    ;

    fn zombie_type(&self) -> (r: i32)
        ensures
            r == self.kind(),
    ;

    fn get_target(&self) -> (r: (i64, i64))
        ensures
            r == (self.body().target_x, self.body().target_y),
    ;

    /// Center, in screen space.
    fn get_x(&self) -> (r: i64)
        ensures
            r == wrap_spec(self.body().map_x as int, PAGE_SIZE as int) + HALF_TILE,
    ;

    /// Center, in screen space.
    fn get_y(&self) -> (r: i64)
        ensures
            r == wrap_spec(self.body().map_y as int, PAGE_SIZE as int) + HALF_TILE,
    ;

    /// Center, in map space.
    fn get_map_x(&self) -> (r: i64)
        requires
            self.body().wf(),
        ensures
            r == self.body().map_center_x_spec(),
    ;

    /// Center, in map space.
    fn get_map_y(&self) -> (r: i64)
        requires
            self.body().wf(),
        ensures
            r == self.body().map_center_y_spec(),
    ;

    /// Starts the death animation.
    fn kill_zombie(&mut self)
        ensures
            *final(self) == old(self).with_body(
                Character { killed: (DEATH_ANIMATION_LENGTH - 1) as i32, ..old(self).body() },
            ),
    ;

    /// One poll of the death countdown: `true` once it has run out,
    /// otherwise one step down.
    fn is_killed(&mut self) -> (r: bool)
        ensures
            r == (old(self).body().killed == 0),
            *final(self) == old(self).with_body(
                Character { killed: countdown_step(old(self).body().killed as int) as i32, ..old(self).body() },
            ),
    ;
}

/// Shambles straight at the player, slowly.
#[derive(Clone, Copy, Debug, PartialEq, Eq, Structural)]
pub struct SlowZombie {
    pub character: Character,
}

/// Wanders until the player comes near, then chases hard.
#[derive(Clone, Copy, Debug, PartialEq, Eq, Structural)]
pub struct CrazyZombie {
    pub character: Character,
    pub chasing: bool,
}

/// Roams between random points, ignoring the player.
#[derive(Clone, Copy, Debug, PartialEq, Eq, Structural)]
pub struct RandomZombie {
    pub character: Character,
}

/// Drifts like a crazy zombie with a shorter fuse; the scheduler
/// breeds new ones where they wander.
#[derive(Clone, Copy, Debug, PartialEq, Eq, Structural)]
pub struct CloudZombie {
    pub character: Character,
    pub chasing: bool,
}

impl SlowZombie {
    /// A zombie at rest at `(x, y)`.
    pub fn new(x: i64, y: i64) -> (r: SlowZombie)
        requires
            -POSITION_LIMIT <= x <= POSITION_LIMIT,
            -POSITION_LIMIT <= y <= POSITION_LIMIT,
        ensures
            r.character.wf(),
            r.character == Character::new_spec(x, y),
    {
        SlowZombie { character: Character::new(x, y) }
    }

    /// The sprite for an animation state.
    pub fn load_sprite(&self, motion: Motion, facing: Facing) -> (r: SpriteFrame)
        ensures
            r.sheet@ == "assets/base/Npc/NpcWeed.bmp"@,
            r.tile_x == 4,
    {
        zombie_frame("assets/base/Npc/NpcWeed.bmp", 4, facing)
    }
}

impl Zombie for SlowZombie {
    open spec fn body(&self) -> Character {
        self.character
    }

    open spec fn with_body(&self, c: Character) -> Self {
        SlowZombie { character: c, ..*self }
    }

    open spec fn advanced(&self, elapsed_time: Millis, map: TileMap) -> Self {
        SlowZombie {
            character: advance_spec(facing_intent(self.character), elapsed_time, map, SLOW_WALKING_ACCEL as int, SLOW_MAX_VELOCITY as int),
            ..*self
        }
    }

    open spec fn steered(&self, player_x: int, player_y: int, next: Self) -> bool {
        next == (SlowZombie {
            character: Character {
                accel_x: steer_spec(self.character.map_center_x_spec(), player_x),
                accel_y: steer_spec(self.character.map_center_y_spec(), player_y),
                ..self.character
            },
        })
    }

    open spec fn kind(&self) -> i32 {
        SLOW_TYPE
    }

    fn update(&mut self, elapsed_time: Millis, map: &TileMap) {
        let acceleration = SLOW_WALKING_ACCEL;
        if self.character.accel_x < 0 {
            self.character.set_facing(Facing::West);
        } else {
            self.character.set_facing(Facing::East);
        }
        self.character.advance(elapsed_time, map, acceleration, SLOW_MAX_VELOCITY);
    }

    fn set_acceleration(&mut self, player_x: i64, player_y: i64) {
        let cx = self.character.map_center_x();
        let cy = self.character.map_center_y();
        self.character.accel_x = steer(cx, player_x);
        self.character.accel_y = steer(cy, player_y);
    }

    fn damage_rectangle(&self) -> (r: Rectangle) {
        self.character.damage_rectangle()
    }

    fn zombie_type(&self) -> (r: i32) {
        SLOW_TYPE
    }

    fn get_target(&self) -> (r: (i64, i64)) {
        (self.character.target_x, self.character.target_y)
    }

    fn get_x(&self) -> (r: i64) {
        self.character.center_x()
    }

    fn get_y(&self) -> (r: i64) {
        self.character.center_y()
    }

    fn get_map_x(&self) -> (r: i64) {
        self.character.map_center_x()
    }

    fn get_map_y(&self) -> (r: i64) {
        self.character.map_center_y()
    }

    fn kill_zombie(&mut self) {
        self.character.kill_character();
    }

    fn is_killed(&mut self) -> (r: bool) {
        self.character.tick_killed()
    }
}

impl CrazyZombie {
    /// A zombie at rest at `(x, y)`.
    pub fn new(x: i64, y: i64) -> (r: CrazyZombie)
        requires
            -POSITION_LIMIT <= x <= POSITION_LIMIT,
            -POSITION_LIMIT <= y <= POSITION_LIMIT,
        ensures
            r.character.wf(),
            r.character == Character::new_spec(x, y), r.chasing == false,
    {
        CrazyZombie { character: Character::new(x, y), chasing: false }
    }

    /// The sprite for an animation state.
    pub fn load_sprite(&self, motion: Motion, facing: Facing) -> (r: SpriteFrame)
        ensures
            r.sheet@ == "assets/base/Npc/NpcWeed.bmp"@,
            r.tile_x == 6,
    {
        zombie_frame("assets/base/Npc/NpcWeed.bmp", 6, facing)
    }
}

impl Zombie for CrazyZombie {
    open spec fn body(&self) -> Character {
        self.character
    }

    open spec fn with_body(&self, c: Character) -> Self {
        CrazyZombie { character: c, ..*self }
    }

    open spec fn advanced(&self, elapsed_time: Millis, map: TileMap) -> Self {
        CrazyZombie {
            character: advance_spec(facing_intent(self.character), elapsed_time, map, (if self.chasing { CRAZY_CHASING_WALKING_ACCEL } else { CRAZY_START_WALKING_ACCEL }) as int, CRAZY_MAX_VELOCITY as int),
            ..*self
        }
    }

    open spec fn steered(&self, player_x: int, player_y: int, next: Self) -> bool {
        chase_or_wander(
            self.character,
            player_x,
            player_y,
            CRAZY_CHASE_RADIUS as int,
            next.chasing,
            next.character,
        )
    }

    open spec fn kind(&self) -> i32 {
        CRAZY_TYPE
    }

    fn update(&mut self, elapsed_time: Millis, map: &TileMap) {
        let acceleration = if self.chasing {
            CRAZY_CHASING_WALKING_ACCEL
        } else {
            CRAZY_START_WALKING_ACCEL
        };
        if self.character.accel_x < 0 {
            self.character.set_facing(Facing::West);
        } else {
            self.character.set_facing(Facing::East);
        }
        self.character.advance(elapsed_time, map, acceleration, CRAZY_MAX_VELOCITY);
    }

    fn set_acceleration(&mut self, player_x: i64, player_y: i64) {
        self.chasing = self.character.within(player_x, player_y, CRAZY_CHASE_RADIUS);
        if !self.chasing {
            self.character.set_new_target();
        } else {
            self.character.target_x = player_x;
            self.character.target_y = player_y;
        }
        aim(&mut self.character);
    }

    fn damage_rectangle(&self) -> (r: Rectangle) {
        self.character.damage_rectangle()
    }

    fn zombie_type(&self) -> (r: i32) {
        CRAZY_TYPE
    }

    fn get_target(&self) -> (r: (i64, i64)) {
        (self.character.target_x, self.character.target_y)
    }

    fn get_x(&self) -> (r: i64) {
        self.character.center_x()
    }

    fn get_y(&self) -> (r: i64) {
        self.character.center_y()
    }

    fn get_map_x(&self) -> (r: i64) {
        self.character.map_center_x()
    }

    fn get_map_y(&self) -> (r: i64) {
        self.character.map_center_y()
    }

    fn kill_zombie(&mut self) {
        self.character.kill_character();
    }

    fn is_killed(&mut self) -> (r: bool) {
        self.character.tick_killed()
    }
}

impl RandomZombie {
    /// A zombie at rest at `(x, y)`.
    pub fn new(x: i64, y: i64) -> (r: RandomZombie)
        requires
            -POSITION_LIMIT <= x <= POSITION_LIMIT,
            -POSITION_LIMIT <= y <= POSITION_LIMIT,
        ensures
            r.character.wf(),
            r.character == Character::new_spec(x, y),
    {
        RandomZombie { character: Character::new(x, y) }
    }

    /// The sprite for an animation state.
    pub fn load_sprite(&self, motion: Motion, facing: Facing) -> (r: SpriteFrame)
        ensures
            r.sheet@ == "assets/base/Npc/NpcCemet.bmp"@,
            r.tile_x == 7,
    {
        zombie_frame("assets/base/Npc/NpcCemet.bmp", 7, facing)
    }
}

impl Zombie for RandomZombie {
    open spec fn body(&self) -> Character {
        self.character
    }

    open spec fn with_body(&self, c: Character) -> Self {
        RandomZombie { character: c, ..*self }
    }

    open spec fn advanced(&self, elapsed_time: Millis, map: TileMap) -> Self {
        RandomZombie {
            character: advance_spec(facing_intent(self.character), elapsed_time, map, RANDOM_WALKING_ACCEL as int, RANDOM_MAX_VELOCITY as int),
            ..*self
        }
    }

    open spec fn steered(&self, player_x: int, player_y: int, next: Self) -> bool {
        &&& roamed(self.character, with_accel_of(next.character, self.character))
        &&& aimed(with_accel_of(next.character, self.character), next.character)
    }

    open spec fn kind(&self) -> i32 {
        RANDOM_TYPE
    }

    fn update(&mut self, elapsed_time: Millis, map: &TileMap) {
        let acceleration = RANDOM_WALKING_ACCEL;
        if self.character.accel_x < 0 {
            self.character.set_facing(Facing::West);
        } else {
            self.character.set_facing(Facing::East);
        }
        self.character.advance(elapsed_time, map, acceleration, RANDOM_MAX_VELOCITY);
    }

    fn set_acceleration(&mut self, player_x: i64, player_y: i64) {
        self.character.set_new_random_target();
        aim(&mut self.character);
    }

    fn damage_rectangle(&self) -> (r: Rectangle) {
        self.character.damage_rectangle()
    }

    fn zombie_type(&self) -> (r: i32) {
        RANDOM_TYPE
    }

    fn get_target(&self) -> (r: (i64, i64)) {
        (self.character.target_x, self.character.target_y)
    }

    fn get_x(&self) -> (r: i64) {
        self.character.center_x()
    }

    fn get_y(&self) -> (r: i64) {
        self.character.center_y()
    }

    fn get_map_x(&self) -> (r: i64) {
        self.character.map_center_x()
    }

    fn get_map_y(&self) -> (r: i64) {
        self.character.map_center_y()
    }

    fn kill_zombie(&mut self) {
        self.character.kill_character();
    }

    fn is_killed(&mut self) -> (r: bool) {
        self.character.tick_killed()
    }
}

impl CloudZombie {
    /// A zombie at rest at `(x, y)`.
    pub fn new(x: i64, y: i64) -> (r: CloudZombie)
        requires
            -POSITION_LIMIT <= x <= POSITION_LIMIT,
            -POSITION_LIMIT <= y <= POSITION_LIMIT,
        ensures
            r.character.wf(),
            r.character == Character::new_spec(x, y), r.chasing == false,
    {
        CloudZombie { character: Character::new(x, y), chasing: false }
    }

    /// The sprite for an animation state.
    pub fn load_sprite(&self, motion: Motion, facing: Facing) -> (r: SpriteFrame)
        ensures
            r.sheet@ == "assets/base/Npc/NpcMaze.bmp"@,
            r.tile_x == 6,
    {
        zombie_frame("assets/base/Npc/NpcMaze.bmp", 6, facing)
    }
}

impl Zombie for CloudZombie {
    open spec fn body(&self) -> Character {
        self.character
    }

    open spec fn with_body(&self, c: Character) -> Self {
        CloudZombie { character: c, ..*self }
    }

    open spec fn advanced(&self, elapsed_time: Millis, map: TileMap) -> Self {
        CloudZombie {
            character: advance_spec(facing_intent(self.character), elapsed_time, map, CLOUD_WALKING_ACCEL as int, CLOUD_MAX_VELOCITY as int),
            ..*self
        }
    }

    open spec fn steered(&self, player_x: int, player_y: int, next: Self) -> bool {
        chase_or_wander(
            self.character,
            player_x,
            player_y,
            CLOUD_CHASE_RADIUS as int,
            next.chasing,
            next.character,
        )
    }

    open spec fn kind(&self) -> i32 {
        CLOUD_TYPE
    }

    fn update(&mut self, elapsed_time: Millis, map: &TileMap) {
        let acceleration = CLOUD_WALKING_ACCEL;
        if self.character.accel_x < 0 {
            self.character.set_facing(Facing::West);
        } else {
            self.character.set_facing(Facing::East);
        }
        self.character.advance(elapsed_time, map, acceleration, CLOUD_MAX_VELOCITY);
    }

    fn set_acceleration(&mut self, player_x: i64, player_y: i64) {
        self.chasing = self.character.within(player_x, player_y, CLOUD_CHASE_RADIUS);
        if !self.chasing {
            self.character.set_new_target();
        } else {
            self.character.target_x = player_x;
            self.character.target_y = player_y;
        }
        aim(&mut self.character);
    }

    fn damage_rectangle(&self) -> (r: Rectangle) {
        self.character.damage_rectangle()
    }

    fn zombie_type(&self) -> (r: i32) {
        CLOUD_TYPE
    }

    fn get_target(&self) -> (r: (i64, i64)) {
        (self.character.target_x, self.character.target_y)
    }

    fn get_x(&self) -> (r: i64) {
        self.character.center_x()
    }

    fn get_y(&self) -> (r: i64) {
        self.character.center_y()
    }

    fn get_map_x(&self) -> (r: i64) {
        self.character.map_center_x()
    }

    fn get_map_y(&self) -> (r: i64) {
        self.character.map_center_y()
    }

    fn kill_zombie(&mut self) {
        self.character.kill_character();
    }

    fn is_killed(&mut self) -> (r: bool) {
        self.character.tick_killed()
    }
}

/// Any zombie, as the frame scheduler keeps them.
#[derive(Clone, Copy, Debug, PartialEq, Eq, Structural)]
pub enum Enemy {
    Slow(SlowZombie),
    Crazy(CrazyZombie),
    Random(RandomZombie),
    Cloud(CloudZombie),
}

impl Zombie for Enemy {
    open spec fn body(&self) -> Character {
        match self {
            Enemy::Slow(z) => z.character,
            Enemy::Crazy(z) => z.character,
            Enemy::Random(z) => z.character,
            Enemy::Cloud(z) => z.character,
        }
    }

    open spec fn with_body(&self, c: Character) -> Self {
        match self {
            Enemy::Slow(z) => Enemy::Slow(z.with_body(c)),
            Enemy::Crazy(z) => Enemy::Crazy(z.with_body(c)),
            Enemy::Random(z) => Enemy::Random(z.with_body(c)),
            Enemy::Cloud(z) => Enemy::Cloud(z.with_body(c)),
        }
    }

    open spec fn advanced(&self, elapsed_time: Millis, map: TileMap) -> Self {
        match self {
            Enemy::Slow(z) => Enemy::Slow(z.advanced(elapsed_time, map)),
            Enemy::Crazy(z) => Enemy::Crazy(z.advanced(elapsed_time, map)),
            Enemy::Random(z) => Enemy::Random(z.advanced(elapsed_time, map)),
            Enemy::Cloud(z) => Enemy::Cloud(z.advanced(elapsed_time, map)),
        }
    }

    open spec fn steered(&self, player_x: int, player_y: int, next: Self) -> bool {
        match (self, next) {
            (Enemy::Slow(z), Enemy::Slow(n)) => z.steered(player_x, player_y, n),
            (Enemy::Crazy(z), Enemy::Crazy(n)) => z.steered(player_x, player_y, n),
            (Enemy::Random(z), Enemy::Random(n)) => z.steered(player_x, player_y, n),
            (Enemy::Cloud(z), Enemy::Cloud(n)) => z.steered(player_x, player_y, n),
            _ => false,
        }
    }

    open spec fn kind(&self) -> i32 {
        match self {
            Enemy::Slow(z) => z.kind(),
            Enemy::Crazy(z) => z.kind(),
            Enemy::Random(z) => z.kind(),
            Enemy::Cloud(z) => z.kind(),
        }
    }

    fn update(&mut self, elapsed_time: Millis, map: &TileMap) {
        match self {
            Enemy::Slow(z) => z.update(elapsed_time, map),
            Enemy::Crazy(z) => z.update(elapsed_time, map),
            Enemy::Random(z) => z.update(elapsed_time, map),
            Enemy::Cloud(z) => z.update(elapsed_time, map),
        }
    }

    fn set_acceleration(&mut self, player_x: i64, player_y: i64) {
        match self {
            Enemy::Slow(z) => z.set_acceleration(player_x, player_y),
            Enemy::Crazy(z) => z.set_acceleration(player_x, player_y),
            Enemy::Random(z) => z.set_acceleration(player_x, player_y),
            Enemy::Cloud(z) => z.set_acceleration(player_x, player_y),
        }
    }

    fn damage_rectangle(&self) -> (r: Rectangle) {
        match self {
            Enemy::Slow(z) => z.damage_rectangle(),
            Enemy::Crazy(z) => z.damage_rectangle(),
            Enemy::Random(z) => z.damage_rectangle(),
            Enemy::Cloud(z) => z.damage_rectangle(),
        }
    }

    fn zombie_type(&self) -> (r: i32) {
        match self {
            Enemy::Slow(z) => z.zombie_type(),
            Enemy::Crazy(z) => z.zombie_type(),
            Enemy::Random(z) => z.zombie_type(),
            Enemy::Cloud(z) => z.zombie_type(),
        }
    }

    fn get_target(&self) -> (r: (i64, i64)) {
        match self {
            Enemy::Slow(z) => z.get_target(),
            Enemy::Crazy(z) => z.get_target(),
            Enemy::Random(z) => z.get_target(),
            Enemy::Cloud(z) => z.get_target(),
        }
    }

    fn get_x(&self) -> (r: i64) {
        match self {
            Enemy::Slow(z) => z.get_x(),
            Enemy::Crazy(z) => z.get_x(),
            Enemy::Random(z) => z.get_x(),
            Enemy::Cloud(z) => z.get_x(),
        }
    }

    fn get_y(&self) -> (r: i64) {
        match self {
            Enemy::Slow(z) => z.get_y(),
            Enemy::Crazy(z) => z.get_y(),
            Enemy::Random(z) => z.get_y(),
            Enemy::Cloud(z) => z.get_y(),
        }
    }

    fn get_map_x(&self) -> (r: i64) {
        match self {
            Enemy::Slow(z) => z.get_map_x(),
            Enemy::Crazy(z) => z.get_map_x(),
            Enemy::Random(z) => z.get_map_x(),
            Enemy::Cloud(z) => z.get_map_x(),
        }
    }

    fn get_map_y(&self) -> (r: i64) {
        match self {
            Enemy::Slow(z) => z.get_map_y(),
            Enemy::Crazy(z) => z.get_map_y(),
            Enemy::Random(z) => z.get_map_y(),
            Enemy::Cloud(z) => z.get_map_y(),
        }
    }

    fn kill_zombie(&mut self) {
        match self {
            Enemy::Slow(z) => z.kill_zombie(),
            Enemy::Crazy(z) => z.kill_zombie(),
            Enemy::Random(z) => z.kill_zombie(),
            Enemy::Cloud(z) => z.kill_zombie(),
        }
    }

    fn is_killed(&mut self) -> (r: bool) {
        match self {
            Enemy::Slow(z) => z.is_killed(),
            Enemy::Crazy(z) => z.is_killed(),
            Enemy::Random(z) => z.is_killed(),
            Enemy::Cloud(z) => z.is_killed(),
        }
    }
}

/// A wander or roam step moves the target only when the actor was within
/// the re-acquisition radius of the old one.
pub proof fn lemma_target_reacquisition(c: Character, next: Character)
    ensures
        (wandered(c, next) || roamed(c, next)) && (next.target_x != c.target_x || next.target_y
            != c.target_y) ==> c.may_retarget(),
{
}

/// A random zombie farther than the re-acquisition radius from its target
/// keeps that target when it steers.
pub proof fn lemma_random_target_kept(z: RandomZombie, player_x: int, player_y: int, next: RandomZombie)
    requires
        z.steered(player_x, player_y, next),
        !z.character.may_retarget(),
    ensures
        next.character.target_x == z.character.target_x,
        next.character.target_y == z.character.target_y,
{
}

/// A crazy zombie that is not chasing and is farther than the
/// re-acquisition radius from its target keeps that target when it steers.
pub proof fn lemma_crazy_target_kept(z: CrazyZombie, player_x: int, player_y: int, next: CrazyZombie)
    requires
        z.steered(player_x, player_y, next),
        !z.character.within_spec(player_x, player_y, CRAZY_CHASE_RADIUS as int),
        !z.character.may_retarget(),
    ensures
        next.character.target_x == z.character.target_x,
        next.character.target_y == z.character.target_y,
{
}

/// A cloud zombie that is not chasing and is farther than the
/// re-acquisition radius from its target keeps that target when it steers.
pub proof fn lemma_cloud_target_kept(z: CloudZombie, player_x: int, player_y: int, next: CloudZombie)
    requires
        z.steered(player_x, player_y, next),
        !z.character.within_spec(player_x, player_y, CLOUD_CHASE_RADIUS as int),
        !z.character.may_retarget(),
    ensures
        next.character.target_x == z.character.target_x,
        next.character.target_y == z.character.target_y,
{
}

} // verus!
