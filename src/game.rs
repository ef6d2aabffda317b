//! The frame scheduler: owns every collection of actors and resolves, once
//! per frame, how they move and what happens when they meet.
use vstd::prelude::*;

use crate::common::{Character, POSITION_LIMIT, TARGET_LIMIT};
use crate::map::{first_wall_spec, fresh_map, TileMap};
use crate::parts::{AnyPart, Bar, Door, Engine, Part, Prop, Tire, Windshield};
use crate::player::Player;
use crate::powerups::{
    AnyPowerup, CricketBat, Freeze, KillZombie, Nuke, Powerup, Teleport, WipeOut,
};
use crate::random::random_in;
use crate::rect::Rectangle;
use crate::traps::{BearTrap, Trap};
use crate::units::{clamp_frame_time, clamped_frame_spec, Millis, GAME, MAX_FRAME_MILLIS, TILE};
use crate::vehicle::{AnyVehicle, Car, Helicopter, Vehicle};
use crate::zombie::{CloudZombie, CrazyZombie, Enemy, RandomZombie, SlowZombie, Zombie, CLOUD_TYPE};

verus! {

/// Tiles along each axis where actors may be spawned: `1 .. POSSIBLE_CHARACTER_TILES`.
pub const POSSIBLE_CHARACTER_TILES: u32 = 58;

/// Upper bound (exclusive) on the zombies spawned at the start of a level.
pub const MAX_ENEMIES: u32 = 30;

/// Lower bound on the zombies spawned at the start of a level.
pub const MIN_ENEMIES: u32 = 20;

/// Upper bound (exclusive) on the pickups spawned at the start of a level.
pub const MAX_POWERUPS: u32 = 20;

/// Tiles along each axis where parts may lie: `PART_RANGE_MIN .. PART_RANGE_MAX`
/// on an axis where the other coordinate is near the start corner.
pub const PART_RANGE_MIN: u32 = 20;
pub const PART_RANGE_MAX: u32 = 55;

/// Parts a vehicle needs.
pub const LEVEL_PARTS: u32 = 3;

pub const LEVEL_1_TIME: i32 = 5000;
pub const LEVEL_2_TIME: i32 = 2000;
pub const LEVEL_1_CINEMATIC_FRAMES: i32 = 300;

pub const PLAYER_STARTING_X: i64 = TILE;
pub const PLAYER_STARTING_Y: i64 = 4 * TILE;
pub const VEHICLE_STARTING_X: i64 = TILE;
pub const VEHICLE_STARTING_Y: i64 = TILE;

/// Where a spawn falls back to once its random attempts are used up: a
/// tile of the start corner, which no level fills with walls.
pub const SAFE_SPAWN_X: i64 = 5 * TILE;
pub const SAFE_SPAWN_Y: i64 = 5 * TILE;

/// Random placements tried before a spawn falls back to the safe tile.
pub const MAX_SPAWN_ATTEMPTS: u32 = 50;

/// Frames between flips of the pickups' debuff flags.
pub const DEBUFF_INTERVAL: i32 = 20;

/// Frames between cloud zombie breedings.
pub const CLOUD_SPAWN_INTERVAL: i32 = 300;

/// Frames the zombies stay frozen after a freeze pickup.
pub const FREEZE_FRAMES: i32 = 300;

/// Timer bonus for a single kill.
pub const KILL_BONUS: i64 = 100;

/// Timer bonus per killed zombie after a wipe out.
pub const WIPE_OUT_BONUS: i64 = 500;

/// Timer bonus per killed zombie after a nuke.
pub const NUKE_BONUS: i64 = 100;

/// Zombies closer than this to the player die in a wipe out.
pub const WIPE_OUT_RADIUS: i64 = 200 * GAME;

/// `WIPE_OUT_RADIUS` squared.
pub const WIPE_OUT_RADIUS_SQUARED: i128 = 40_000_000_000_000_000;

/// Sound effects the scheduler asks for.
pub const SOUND_KILL_ZOMBIE: u32 = 0;
pub const SOUND_WIPE_OUT: u32 = 1;
pub const SOUND_NUKE: u32 = 2;
pub const SOUND_POWERUP: u32 = 3;
pub const SOUND_DEBUFF: u32 = 4;
pub const SOUND_TRAP: u32 = 5;
pub const SOUND_HIT: u32 = 6;
pub const SOUND_PART: u32 = 7;

/// What a frame of the level-complete cinematic shows next.
#[derive(Clone, Copy, Debug, PartialEq, Eq, Structural)]
pub enum CinematicStep {
    /// The vehicle is leaving.
    Playing,
    /// The completion screen, waiting for the player.
    Completed,
    /// The player moved on; the next level has started.
    NextLevel,
}

/// The player's input for one frame, already debounced: which directions
/// are held, which were let go this frame, and which toggles were pressed.
#[derive(Clone, Copy, Debug, PartialEq, Eq, Structural)]
pub struct Intents {
    pub left: bool,
    pub right: bool,
    pub up: bool,
    pub down: bool,
    pub left_released: bool,
    pub right_released: bool,
    pub up_released: bool,
    pub down_released: bool,
    pub pause: bool,
    pub alt_control: bool,
}

/// The horizontal intent the held keys give: west or east when exactly one
/// of them is held, none otherwise.
pub open spec fn horizontal_intent(i: Intents) -> i8 {
    if i.left && !i.right {
        -1i8
    } else if i.right && !i.left {
        1i8
    } else {
        0i8
    }
}

/// The vertical intent the held keys give; with neither held the intent
/// is kept, unless a key was let go this frame.
pub open spec fn vertical_intent(i: Intents, before: i8) -> i8 {
    if i.up && !i.down {
        -1i8
    } else if i.down && !i.up {
        1i8
    } else if i.up && i.down || i.up_released || i.down_released {
        0i8
    } else {
        before
    }
}

/// Turns one frame's movement keys into the player's intents; letting go
/// with `hard` set stops the player dead on that axis.
pub fn steer_player(player: &mut Player, input: &Intents, hard: bool)
    requires
        old(player).wf(),
    ensures
        final(player).wf(),
        final(player).character.accel_x == horizontal_intent(*input),
        final(player).character.accel_y == vertical_intent(*input, old(player).character.accel_y),
        final(player).character.map_x == old(player).character.map_x,
        final(player).character.map_y == old(player).character.map_y,
        final(player).health == old(player).health,
{
    if input.left_released || input.right_released {
        player.stop_moving_horizontally(hard);
    }
    if input.left && input.right {
        player.stop_moving_horizontally(hard);
    } else if input.left {
        player.start_moving_left();
    } else if input.right {
        player.start_moving_right();
    } else {
        player.stop_moving_horizontally(hard);
    }
    if input.up_released || input.down_released {
        player.stop_moving_vertically(hard);
    }
    if input.up && input.down {
        player.stop_moving_vertically(hard);
    } else if input.up {
        player.start_moving_up();
    } else if input.down {
        player.start_moving_down();
    }
}

/// The whole simulated world and the scheduler's bookkeeping.
pub struct Game {
    pub player: Player,
    pub enemies: Vec<Enemy>,
    pub powerups: Vec<AnyPowerup>,
    pub traps: Vec<BearTrap>,
    pub killed: Vec<Enemy>,
    pub activated: Vec<AnyPowerup>,
    pub tripped: Vec<BearTrap>,
    pub parts: Vec<AnyPart>,
    pub coll_parts: Vec<AnyPart>,
    pub vehicle: AnyVehicle,
    pub map: TileMap,
    pub paused: bool,
    pub updates: i32,
    pub level: i32,
    pub highscore: i32,
    pub score: i32,
    pub timer: i32,
    pub completed_lvl: bool,
    pub freeze_counter: i32,
    pub alt_control: bool,
    /// Set when the run ended (health or time ran out) and the level was
    /// restarted; whoever shows the game-over screen clears it.
    pub game_over: bool,
    /// Sound effects asked for since they were last taken.
    pub sounds: Vec<u32>,
}

pub open spec fn clamp_i32(v: int) -> i32 {
    if v < i32::MIN {
        i32::MIN
    } else if v > i32::MAX {
        i32::MAX
    } else {
        v as i32
    }
}

/// `a + b`, saturating at the bounds of `i32`.
pub fn add_clamped(a: i32, b: i64) -> (r: i32)
    requires
        -0x1_0000_0000_0000 <= b <= 0x1_0000_0000_0000,
    ensures
        r == clamp_i32(a + b),
{
    let s = a as i64 + b;
    if s < i32::MIN as i64 {
        i32::MIN
    } else if s > i32::MAX as i64 {
        i32::MAX
    } else {
        s as i32
    }
}

/// All actors in `s` are well formed.
pub open spec fn enemies_wf(s: Seq<Enemy>) -> bool {
    forall|i: int| 0 <= i < s.len() ==> (#[trigger] s[i]).body().wf()
}

pub open spec fn powerups_wf(s: Seq<AnyPowerup>) -> bool {
    forall|i: int| 0 <= i < s.len() ==> (#[trigger] s[i]).body().wf()
}

pub open spec fn traps_wf(s: Seq<BearTrap>) -> bool {
    forall|i: int| 0 <= i < s.len() ==> (#[trigger] s[i]).body().wf()
}

pub open spec fn parts_wf(s: Seq<AnyPart>) -> bool {
    forall|i: int| 0 <= i < s.len() ==> (#[trigger] s[i]).body().wf()
}

/// The zombie kind a spawn request for `kind` yields: 1 slow, 2 crazy,
/// 3 random, anything else cloud.
pub open spec fn zombie_kind_for(kind: u32) -> i32 {
    if kind == 1 {
        1
    } else if kind == 2 {
        2
    } else if kind == 3 {
        3
    } else {
        4
    }
}

/// The pickup kind a spawn request for `kind` yields: 1 to 5 as given,
/// anything else a nuke.
pub open spec fn powerup_kind_for(kind: u32) -> i32 {
    if 1 <= kind <= 5 {
        kind as i32
    } else {
        6
    }
}

/// A fresh zombie of the kind requested, at rest at `(x, y)`.
pub fn make_zombie(kind: u32, x: i64, y: i64) -> (r: Enemy)
    requires
        -POSITION_LIMIT <= x <= POSITION_LIMIT,
        -POSITION_LIMIT <= y <= POSITION_LIMIT,
    ensures
        r.kind() == zombie_kind_for(kind),
        r.body() == Character::new_spec(x, y),
        r.body().wf(),
        r matches Enemy::Crazy(z) ==> !z.chasing,
        r matches Enemy::Cloud(z) ==> !z.chasing,
{
    if kind == 1 {
        Enemy::Slow(SlowZombie::new(x, y))
    } else if kind == 2 {
        Enemy::Crazy(CrazyZombie::new(x, y))
    } else if kind == 3 {
        Enemy::Random(RandomZombie::new(x, y))
    } else {
        Enemy::Cloud(CloudZombie::new(x, y))
    }
}

/// A fresh pickup of the kind requested, lying at `(x, y)`.
pub fn make_powerup(kind: u32, x: i64, y: i64) -> (r: AnyPowerup)
    requires
        -POSITION_LIMIT <= x <= POSITION_LIMIT,
        -POSITION_LIMIT <= y <= POSITION_LIMIT,
    ensures
        r.kind() == powerup_kind_for(kind),
        r.body() == Character::new_spec(x, y),
        r.body().wf(),
        !r.debuff(),
        r.timer() == 0,
{
    if kind == 1 {
        AnyPowerup::CricketBat(CricketBat::new(x, y))
    } else if kind == 2 {
        AnyPowerup::KillZombie(KillZombie::new(x, y))
    } else if kind == 3 {
        AnyPowerup::WipeOut(WipeOut::new(x, y))
    } else if kind == 4 {
        AnyPowerup::Freeze(Freeze::new(x, y))
    } else if kind == 5 {
        AnyPowerup::Teleport(Teleport::new(x, y))
    } else {
        AnyPowerup::Nuke(Nuke::new(x, y))
    }
}

/// A fresh part of kind `kind` (0, 1, or anything else for the third) for
/// the vehicle of type `vehicle_type` (1 a helicopter, anything else a car).
pub fn make_part(vehicle_type: i32, kind: u32, x: i64, y: i64) -> (r: AnyPart)
    requires
        -POSITION_LIMIT <= x <= POSITION_LIMIT,
        -POSITION_LIMIT <= y <= POSITION_LIMIT,
    ensures
        r.kind() == (if kind == 0 {
            1u32
        } else if kind == 1 {
            2u32
        } else {
            3u32
        }),
        vehicle_type == 1 ==> (r matches AnyPart::Prop(_) || r matches AnyPart::Windshield(_)
            || r matches AnyPart::Bar(_)),
        vehicle_type != 1 ==> (r matches AnyPart::Tire(_) || r matches AnyPart::Door(_)
            || r matches AnyPart::Engine(_)),
        r.body() == Character::new_spec(x, y),
        r.body().wf(),
{
    if vehicle_type == 1 {
        if kind == 0 {
            AnyPart::Prop(Prop::new(x, y))
        } else if kind == 1 {
            AnyPart::Windshield(Windshield::new(x, y))
        } else {
            AnyPart::Bar(Bar::new(x, y))
        }
    } else {
        if kind == 0 {
            AnyPart::Tire(Tire::new(x, y))
        } else if kind == 1 {
            AnyPart::Door(Door::new(x, y))
        } else {
            AnyPart::Engine(Engine::new(x, y))
        }
    }
}

/// The tile coordinates a part is placed at, from three draws: `x` and
/// `y` in `0 .. PART_RANGE_MAX`, and `redraw` in `PART_RANGE_MIN ..
/// PART_RANGE_MAX`, which replaces `y` when `x` lies near the start corner,
/// or else replaces `x` when `y` does.
pub open spec fn part_tiles(x: u32, y: u32, redraw: u32) -> (u32, u32) {
    if x < PART_RANGE_MIN {
        (x, redraw)
    } else if y < PART_RANGE_MIN {
        (redraw, y)
    } else {
        (x, y)
    }
}

pub fn place_part_tiles(x: u32, y: u32, redraw: u32) -> (r: (u32, u32))
    ensures
        r == part_tiles(x, y, redraw),
{
    if x < PART_RANGE_MIN {
        (x, redraw)
    } else if y < PART_RANGE_MIN {
        (redraw, y)
    } else {
        (x, y)
    }
}

fn clamp_position(v: i64) -> (r: i64)
    ensures
        r == clamp_spec_position(v as int),
        -POSITION_LIMIT <= r <= POSITION_LIMIT,
        -POSITION_LIMIT <= v <= POSITION_LIMIT ==> r == v,
{
    if v < -POSITION_LIMIT {
        -POSITION_LIMIT
    } else if v > POSITION_LIMIT {
        POSITION_LIMIT
    } else {
        v
    }
}

/// Whether no wall lies under `rect`.
pub fn spot_is_clear(map: &TileMap, rect: &Rectangle) -> (r: bool)
    requires
        crate::map::rect_fits(*rect),
    ensures
        r == first_wall_spec(*map, *rect).is_none(),
{
    map.first_wall(rect).is_none()
}


/// Whether `e` is a freshly spawned zombie of the requested kind, placed
/// clear of walls or at the safe tile.
pub open spec fn spawned_zombie(map: TileMap, kind: u32, e: Enemy) -> bool {
    &&& e.kind() == zombie_kind_for(kind)
    &&& e.body() == Character::new_spec(e.body().map_x, e.body().map_y)
    &&& e.body().wf()
    &&& first_wall_spec(map, e.body().damage_rect_spec()).is_none() || (e.body().map_x == SAFE_SPAWN_X
        && e.body().map_y == SAFE_SPAWN_Y)
}

/// Whether `e` is a freshly spawned zombie of one of the four kinds.
pub open spec fn spawned_any_zombie(map: TileMap, e: Enemy) -> bool {
    exists|k: u32| 1 <= k < 5 && #[trigger] spawned_zombie(map, k, e)
}

/// Whether `p` is a freshly spawned pickup of one of the six kinds.
pub open spec fn spawned_any_powerup(map: TileMap, p: AnyPowerup) -> bool {
    exists|k: u32| 1 <= k < 7 && #[trigger] spawned_powerup(map, k, p)
}

/// Whether `p` is a freshly spawned pickup of the requested kind, placed
/// clear of walls or at the safe tile.
pub open spec fn spawned_powerup(map: TileMap, kind: u32, p: AnyPowerup) -> bool {
    &&& p.kind() == powerup_kind_for(kind)
    &&& p.body() == Character::new_spec(p.body().map_x, p.body().map_y)
    &&& p.body().wf()
    &&& !p.debuff() && p.timer() == 0
    &&& first_wall_spec(map, p.body().damage_rect_spec()).is_none() || (p.body().map_x == SAFE_SPAWN_X
        && p.body().map_y == SAFE_SPAWN_Y)
}

/// Whether `p` is a freshly spawned part of kind `kind` for vehicle type
/// `vehicle_type`, placed clear of walls or at the safe tile.
pub open spec fn spawned_part(map: TileMap, vehicle_type: i32, kind: u32, p: AnyPart) -> bool {
    &&& p.kind() == (if kind == 0 {
        1u32
    } else if kind == 1 {
        2u32
    } else {
        3u32
    })
    &&& p.body() == Character::new_spec(p.body().map_x, p.body().map_y)
    &&& p.body().wf()
    &&& first_wall_spec(map, p.hit_box()).is_none() || (p.body().map_x == SAFE_SPAWN_X && p.body().map_y
        == SAFE_SPAWN_Y)
}

/// Index of the first zombie whose box overlaps `rect`, if any.
pub fn first_enemy_hit(list: &Vec<Enemy>, rect: &Rectangle) -> (r: Option<usize>)
    requires
        enemies_wf(list@),
    ensures
        match r {
            Some(i) => i < list@.len() && list@[i as int].body().damage_rect_spec().overlaps(*rect)
                && forall|j: int| 0 <= j < i ==> !(#[trigger] list@[j]).body().damage_rect_spec().overlaps(*rect),
            None => forall|j: int| 0 <= j < list@.len() ==> !(#[trigger] list@[j]).body().damage_rect_spec().overlaps(*rect),
        },
{
    let mut i: usize = 0;
    while i < list.len()
        invariant
            enemies_wf(list@),
            i <= list@.len(),
            forall|j: int| 0 <= j < i ==> !(#[trigger] list@[j]).body().damage_rect_spec().overlaps(*rect),
        decreases list.len() - i,
    {
        if list[i].damage_rectangle().collides_with(rect) {
            return Some(i);
        }
        i += 1;
    }
    None
}

/// Index of the first part whose box overlaps `rect`, if any.
pub fn first_part_hit(list: &Vec<AnyPart>, rect: &Rectangle) -> (r: Option<usize>)
    requires
        parts_wf(list@),
    ensures
        match r {
            Some(i) => i < list@.len() && list@[i as int].hit_box().overlaps(*rect)
                && forall|j: int| 0 <= j < i ==> !(#[trigger] list@[j]).hit_box().overlaps(*rect),
            None => forall|j: int| 0 <= j < list@.len() ==> !(#[trigger] list@[j]).hit_box().overlaps(*rect),
        },
{
    let mut i: usize = 0;
    while i < list.len()
        invariant
            parts_wf(list@),
            i <= list@.len(),
            forall|j: int| 0 <= j < i ==> !(#[trigger] list@[j]).hit_box().overlaps(*rect),
        decreases list.len() - i,
    {
        if list[i].damage_rectangle().collides_with(rect) {
            return Some(i);
        }
        i += 1;
    }
    None
}

/// Index of the first pickup whose box overlaps `rect`, if any.
pub fn first_powerup_hit(list: &Vec<AnyPowerup>, rect: &Rectangle) -> (r: Option<usize>)
    requires
        powerups_wf(list@),
    ensures
        match r {
            Some(i) => i < list@.len() && list@[i as int].body().damage_rect_spec().overlaps(*rect)
                && forall|j: int| 0 <= j < i ==> !(#[trigger] list@[j]).body().damage_rect_spec().overlaps(*rect),
            None => forall|j: int| 0 <= j < list@.len() ==> !(#[trigger] list@[j]).body().damage_rect_spec().overlaps(*rect),
        },
{
    let mut i: usize = 0;
    while i < list.len()
        invariant
            powerups_wf(list@),
            i <= list@.len(),
            forall|j: int| 0 <= j < i ==> !(#[trigger] list@[j]).body().damage_rect_spec().overlaps(*rect),
        decreases list.len() - i,
    {
        if list[i].damage_rectangle().collides_with(rect) {
            return Some(i);
        }
        i += 1;
    }
    None
}

/// Index of the first zombie whose box a trap's box overlaps, if any.
pub fn first_enemy_in_trap(list: &Vec<Enemy>, trap: &Rectangle) -> (r: Option<usize>)
    requires
        enemies_wf(list@),
    ensures
        match r {
            Some(i) => i < list@.len() && list@[i as int].body().damage_rect_spec().overlaps(*trap)
                && forall|j: int| 0 <= j < i ==> !(#[trigger] list@[j]).body().damage_rect_spec().overlaps(*trap),
            None => forall|j: int| 0 <= j < list@.len() ==> !(#[trigger] list@[j]).body().damage_rect_spec().overlaps(*trap),
        },
{
    first_enemy_hit(list, trap)
}

/// Moves the zombie at `index` from `live` to `dead`, starting its death
/// animation.
fn kill_enemy_at(live: &mut Vec<Enemy>, dead: &mut Vec<Enemy>, index: usize)
    requires
        index < old(live)@.len(),
        enemies_wf(old(live)@),
        enemies_wf(old(dead)@),
    ensures
        final(live)@ == old(live)@.remove(index as int),
        final(dead)@ == old(dead)@.push(old(live)@[index as int].with_body(
            Character { killed: (crate::common::DEATH_ANIMATION_LENGTH - 1) as i32, ..old(live)@[index as int].body() },
        )),
        enemies_wf(final(live)@),
        enemies_wf(final(dead)@),
{
    let mut enemy = live.remove(index);
    enemy.kill_zombie();
    proof {
        assert(enemy.body().wf());
    }
    dead.push(enemy);
    proof {
        assert forall|j: int| 0 <= j < live@.len() implies (#[trigger] live@[j]).body().wf() by {
            if j < index {
                assert(live@[j] == old(live)@[j]);
            } else {
                assert(live@[j] == old(live)@[j + 1]);
            }
        }
        assert forall|j: int| 0 <= j < dead@.len() implies (#[trigger] dead@[j]).body().wf() by {
            if j < old(dead)@.len() {
                assert(dead@[j] == old(dead)@[j]);
            }
        }
    }
}

/// Whether `after` is `before` once it has steered toward `(player_x,
/// player_y)` and moved one frame.
pub open spec fn chased_and_moved(
    before: Enemy,
    player_x: int,
    player_y: int,
    elapsed_time: Millis,
    map: TileMap,
    after: Enemy,
) -> bool {
    exists|next: Enemy|
        #[trigger] before.steered(player_x, player_y, next) && after == next.advanced(elapsed_time, map)
}

/// Steers every zombie toward `(player_x, player_y)` and moves it a frame.
pub fn advance_all(enemies: &mut Vec<Enemy>, player_x: i64, player_y: i64, elapsed_time: Millis, map: &TileMap)
    requires
        enemies_wf(old(enemies)@),
        -TARGET_LIMIT <= player_x <= TARGET_LIMIT,
        -TARGET_LIMIT <= player_y <= TARGET_LIMIT,
        0 <= elapsed_time.0 <= MAX_FRAME_MILLIS,
    ensures
        enemies_wf(final(enemies)@),
        final(enemies)@.len() == old(enemies)@.len(),
        forall|i: int|
            0 <= i < old(enemies)@.len() ==> #[trigger] chased_and_moved(
                old(enemies)@[i],
                player_x as int,
                player_y as int,
                elapsed_time,
                *map,
                final(enemies)@[i],
            ),
{
    let mut i: usize = 0;
    while i < enemies.len()
        invariant
            0 <= elapsed_time.0 <= MAX_FRAME_MILLIS,
            -TARGET_LIMIT <= player_x <= TARGET_LIMIT,
            -TARGET_LIMIT <= player_y <= TARGET_LIMIT,
            i <= enemies@.len(),
            enemies@.len() == old(enemies)@.len(),
            enemies_wf(enemies@),
            forall|j: int| i <= j < enemies@.len() ==> enemies@[j] == old(enemies)@[j],
            forall|j: int|
                0 <= j < i ==> #[trigger] chased_and_moved(
                    old(enemies)@[j],
                    player_x as int,
                    player_y as int,
                    elapsed_time,
                    *map,
                    enemies@[j],
                ),
        decreases enemies@.len() - i,
    {
        let mut enemy = enemies[i];
        enemy.set_acceleration(player_x, player_y);
        let ghost steered = enemy;
        enemy.update(elapsed_time, map);
        enemies.set(i, enemy);
        assert(old(enemies)@[i as int].steered(player_x as int, player_y as int, steered));
        assert(chased_and_moved(
            old(enemies)@[i as int],
            player_x as int,
            player_y as int,
            elapsed_time,
            *map,
            enemies@[i as int],
        ));
        i += 1;
    }
}

/// Moves every zombie a frame along its current intent, without steering.
pub fn move_all(enemies: &mut Vec<Enemy>, elapsed_time: Millis, map: &TileMap)
    requires
        enemies_wf(old(enemies)@),
        0 <= elapsed_time.0 <= MAX_FRAME_MILLIS,
    ensures
        enemies_wf(final(enemies)@),
        final(enemies)@.len() == old(enemies)@.len(),
        forall|i: int|
            0 <= i < old(enemies)@.len() ==> #[trigger] final(enemies)@[i] == old(enemies)@[i].advanced(
                elapsed_time,
                *map,
            ),
{
    let mut i: usize = 0;
    while i < enemies.len()
        invariant
            0 <= elapsed_time.0 <= MAX_FRAME_MILLIS,
            i <= enemies@.len(),
            enemies@.len() == old(enemies)@.len(),
            enemies_wf(enemies@),
            forall|j: int| i <= j < enemies@.len() ==> enemies@[j] == old(enemies)@[j],
            forall|j: int|
                0 <= j < i ==> #[trigger] enemies@[j] == old(enemies)@[j].advanced(elapsed_time, *map),
        decreases enemies@.len() - i,
    {
        let mut enemy = enemies[i];
        enemy.update(elapsed_time, map);
        enemies.set(i, enemy);
        i += 1;
    }
}

/// Flips the debuff flag of every pickup.
pub fn toggle_all(powerups: &mut Vec<AnyPowerup>)
    requires
        powerups_wf(old(powerups)@),
    ensures
        powerups_wf(final(powerups)@),
        final(powerups)@.len() == old(powerups)@.len(),
        forall|i: int|
            0 <= i < old(powerups)@.len() ==> #[trigger] final(powerups)@[i] == old(powerups)@[i].with_debuff(
                !old(powerups)@[i].debuff(),
            ),
{
    let mut i: usize = 0;
    while i < powerups.len()
        invariant
            i <= powerups@.len(),
            powerups@.len() == old(powerups)@.len(),
            powerups_wf(powerups@),
            forall|j: int| i <= j < powerups@.len() ==> powerups@[j] == old(powerups)@[j],
            forall|j: int|
                0 <= j < i ==> #[trigger] powerups@[j] == old(powerups)@[j].with_debuff(
                    !old(powerups)@[j].debuff(),
                ),
        decreases powerups@.len() - i,
    {
        let mut p = powerups[i];
        p.toggle_debuff();
        powerups.set(i, p);
        i += 1;
    }
}

/// Whether the debuff flags flip on the frame numbered `updates`.
pub open spec fn debuff_tick(updates: int) -> bool {
    updates % DEBUFF_INTERVAL as int == 0
}

/// A zombie after its death animation has started.
pub open spec fn struck(e: Enemy) -> Enemy {
    e.with_body(Character { killed: (crate::common::DEATH_ANIMATION_LENGTH - 1) as i32, ..e.body() })
}

/// Whether a zombie is close enough to `player` to die in a wipe out: its
/// center no farther than `WIPE_OUT_RADIUS` from the player's position.
pub open spec fn in_blast(player: Character, e: Enemy) -> bool {
    player.dist_sq(e.body().map_center_x_spec(), e.body().map_center_y_spec()) <= WIPE_OUT_RADIUS_SQUARED
}

/// Whether a zombie's center lies in the page `map` shows.
pub open spec fn in_view(map: TileMap, e: Enemy) -> bool {
    map.on_screen_spec(e.body().map_center_x_spec(), e.body().map_center_y_spec())
}

/// Kills every zombie that `doomed` selects: the others stay, in order,
/// and the doomed ones are appended to `dead`, in order, dying.
fn cull(live: &mut Vec<Enemy>, dead: &mut Vec<Enemy>, player: &Character, map: &TileMap, by_blast: bool)
    requires
        enemies_wf(old(live)@),
        enemies_wf(old(dead)@),
        player.wf(),
        map.page_x <= 2 && map.page_y <= 2,
    ensures
        enemies_wf(final(live)@),
        enemies_wf(final(dead)@),
        final(live)@ == old(live)@.filter(|e: Enemy| !doomed(*player, *map, by_blast, e)),
        final(dead)@ == old(dead)@ + old(live)@.filter(|e: Enemy| doomed(*player, *map, by_blast, e)).map_values(
            |e: Enemy| struck(e),
        ),
{
    let ghost keep = |e: Enemy| !doomed(*player, *map, by_blast, e);
    let ghost hit = |e: Enemy| doomed(*player, *map, by_blast, e);
    let ghost g = |e: Enemy| struck(e);
    let ghost dead0 = dead@;
    let mut kept: Vec<Enemy> = Vec::new();
    let mut i: usize = 0;
    while i < live.len()
        invariant
            i <= live@.len(),
            live@ == old(live)@,
            enemies_wf(live@),
            enemies_wf(kept@),
            enemies_wf(dead@),
            player.wf(),
            map.page_x <= 2 && map.page_y <= 2,
            dead0 == old(dead)@,
            keep == (|e: Enemy| !doomed(*player, *map, by_blast, e)),
            hit == (|e: Enemy| doomed(*player, *map, by_blast, e)),
            g == (|e: Enemy| struck(e)),
            kept@ == live@.take(i as int).filter(keep),
            dead@ == dead0 + live@.take(i as int).filter(hit).map_values(g),
        decreases live@.len() - i,
    {
        let e = live[i];
        let cx = e.get_map_x();
        let cy = e.get_map_y();
        let d = if by_blast {
            player.distance_squared(cx, cy) <= WIPE_OUT_RADIUS_SQUARED
        } else {
            map.on_screen(cx, cy)
        };
        let ghost prev_keep = live@.take(i as int).filter(keep);
        let ghost prev_hit = live@.take(i as int).filter(hit);
        let ghost dead_before = dead@;
        proof {
            reveal(Seq::filter);
            assert(live@.take(i as int + 1).drop_last() =~= live@.take(i as int));
            assert(live@.take(i as int + 1).last() == live@[i as int]);
            assert(d == doomed(*player, *map, by_blast, live@[i as int]));
            assert(keep(live@[i as int]) == !d);
            assert(hit(live@[i as int]) == d);
            assert(g(live@[i as int]) == struck(live@[i as int]));
        }
        if d {
            let mut z = e;
            z.kill_zombie();
            dead.push(z);
            proof {
                assert(prev_hit.push(live@[i as int]).map_values(g) =~= prev_hit.map_values(g).push(
                    struck(live@[i as int]),
                ));
                assert(dead@ =~= dead0 + live@.take(i as int + 1).filter(hit).map_values(g));
                assert(kept@ =~= live@.take(i as int + 1).filter(keep));
            }
        } else {
            kept.push(e);
            proof {
                assert(dead@ =~= dead0 + live@.take(i as int + 1).filter(hit).map_values(g));
                assert(kept@ =~= live@.take(i as int + 1).filter(keep));
            }
        }
        i += 1;
    }
    proof {
        assert(live@.take(live@.len() as int) == live@);
    }
    *live = kept;
}

/// Whether a zombie dies in a wipe out (`by_blast`) or a nuke.
pub open spec fn doomed(player: Character, map: TileMap, by_blast: bool, e: Enemy) -> bool {
    if by_blast {
        in_blast(player, e)
    } else {
        in_view(map, e)
    }
}

/// Whether a killed zombie's death animation still has time left.
pub open spec fn still_dying(e: Enemy) -> bool {
    e.body().killed != 0
}

/// A killed zombie after one poll of its death countdown.
pub open spec fn polled(e: Enemy) -> Enemy {
    e.with_body(
        Character { killed: crate::common::countdown_step(e.body().killed as int) as i32, ..e.body() },
    )
}

/// Polls the death countdown of every killed zombie once, keeping those
/// still playing their animation, in order.
pub fn retire_killed(list: &mut Vec<Enemy>)
    requires
        enemies_wf(old(list)@),
    ensures
        enemies_wf(final(list)@),
        final(list)@ == old(list)@.filter(|e: Enemy| still_dying(e)).map_values(|e: Enemy| polled(e)),
{
    let ghost f = |e: Enemy| still_dying(e);
    let ghost g = |e: Enemy| polled(e);
    let mut kept: Vec<Enemy> = Vec::new();
    let mut i: usize = 0;
    while i < list.len()
        invariant
            i <= list@.len(),
            list@ == old(list)@,
            enemies_wf(list@),
            enemies_wf(kept@),
            f == (|e: Enemy| still_dying(e)),
            g == (|e: Enemy| polled(e)),
            kept@ == list@.take(i as int).filter(f).map_values(g),
        decreases list@.len() - i,
    {
        let mut e = list[i];
        let done = e.is_killed();
        let ghost prev = list@.take(i as int).filter(f);
        proof {
            reveal(Seq::filter);
            assert(list@.take(i as int + 1).drop_last() =~= list@.take(i as int));
            assert(list@.take(i as int + 1).last() == list@[i as int]);
            assert(list@.take(i as int + 1).filter(f) == if f(list@[i as int]) {
                prev.push(list@[i as int])
            } else {
                prev
            });
            assert(e == polled(list@[i as int]));
            assert(done == !still_dying(list@[i as int]));
            assert(prev.push(list@[i as int]).map_values(g) =~= prev.map_values(g).push(
                g(list@[i as int]),
            ));
        }
        let ghost kept_before = kept@;
        if !done {
            kept.push(e);
        }
        proof {
            assert(f(list@[i as int]) == still_dying(list@[i as int]));
            assert(g(list@[i as int]) == polled(list@[i as int]));
            if still_dying(list@[i as int]) {
                assert(kept@ == kept_before.push(polled(list@[i as int])));
                assert(kept@ == prev.push(list@[i as int]).map_values(g));
            } else {
                assert(kept@ == prev.map_values(g));
            }
        }
        i += 1;
    }
    proof {
        assert(list@.take(list@.len() as int) == list@);
    }
    *list = kept;
}

/// Whether a triggered pickup's animation still has time left.
pub open spec fn still_running(e: AnyPowerup) -> bool {
    e.timer() != 0
}

/// A triggered pickup after one poll of its animation countdown.
pub open spec fn stepped(e: AnyPowerup) -> AnyPowerup {
    e.with_timer(crate::common::countdown_step(e.timer() as int) as i32)
}

/// Polls the animation countdown of every triggered pickup once, keeping
/// those still playing, in order.
pub fn retire_activated(list: &mut Vec<AnyPowerup>)
    requires
        powerups_wf(old(list)@),
    ensures
        powerups_wf(final(list)@),
        final(list)@ == old(list)@.filter(|e: AnyPowerup| still_running(e)).map_values(|e: AnyPowerup| stepped(e)),
{
    let ghost f = |e: AnyPowerup| still_running(e);
    let ghost g = |e: AnyPowerup| stepped(e);
    let mut kept: Vec<AnyPowerup> = Vec::new();
    let mut i: usize = 0;
    while i < list.len()
        invariant
            i <= list@.len(),
            list@ == old(list)@,
            powerups_wf(list@),
            powerups_wf(kept@),
            f == (|e: AnyPowerup| still_running(e)),
            g == (|e: AnyPowerup| stepped(e)),
            kept@ == list@.take(i as int).filter(f).map_values(g),
        decreases list@.len() - i,
    {
        let mut e = list[i];
        let done = e.is_finished();
        let ghost prev = list@.take(i as int).filter(f);
        proof {
            reveal(Seq::filter);
            assert(list@.take(i as int + 1).drop_last() =~= list@.take(i as int));
            assert(list@.take(i as int + 1).last() == list@[i as int]);
            assert(list@.take(i as int + 1).filter(f) == if f(list@[i as int]) {
                prev.push(list@[i as int])
            } else {
                prev
            });
            assert(e == stepped(list@[i as int]));
            assert(done == !still_running(list@[i as int]));
            assert(prev.push(list@[i as int]).map_values(g) =~= prev.map_values(g).push(
                g(list@[i as int]),
            ));
        }
        let ghost kept_before = kept@;
        if !done {
            kept.push(e);
        }
        proof {
            assert(f(list@[i as int]) == still_running(list@[i as int]));
            assert(g(list@[i as int]) == stepped(list@[i as int]));
            if still_running(list@[i as int]) {
                assert(kept@ == kept_before.push(stepped(list@[i as int])));
                assert(kept@ == prev.push(list@[i as int]).map_values(g));
            } else {
                assert(kept@ == prev.map_values(g));
            }
        }
        i += 1;
    }
    proof {
        assert(list@.take(list@.len() as int) == list@);
    }
    *list = kept;
}

/// Whether a sprung trap's animation still has time left.
pub open spec fn still_shut(e: BearTrap) -> bool {
    e.timer() != 0
}

/// A sprung trap after one poll of its animation countdown.
pub open spec fn trap_stepped(e: BearTrap) -> BearTrap {
    e.with_timer(crate::common::countdown_step(e.timer() as int) as i32)
}

/// Polls the animation countdown of every sprung trap once, keeping those
/// still playing, in order.
pub fn retire_tripped(list: &mut Vec<BearTrap>)
    requires
        traps_wf(old(list)@),
    ensures
        traps_wf(final(list)@),
        final(list)@ == old(list)@.filter(|e: BearTrap| still_shut(e)).map_values(|e: BearTrap| trap_stepped(e)),
{
    let ghost f = |e: BearTrap| still_shut(e);
    let ghost g = |e: BearTrap| trap_stepped(e);
    let mut kept: Vec<BearTrap> = Vec::new();
    let mut i: usize = 0;
    while i < list.len()
        invariant
            i <= list@.len(),
            list@ == old(list)@,
            traps_wf(list@),
            traps_wf(kept@),
            f == (|e: BearTrap| still_shut(e)),
            g == (|e: BearTrap| trap_stepped(e)),
            kept@ == list@.take(i as int).filter(f).map_values(g),
        decreases list@.len() - i,
    {
        let mut e = list[i];
        let done = e.is_finished();
        let ghost prev = list@.take(i as int).filter(f);
        proof {
            reveal(Seq::filter);
            assert(list@.take(i as int + 1).drop_last() =~= list@.take(i as int));
            assert(list@.take(i as int + 1).last() == list@[i as int]);
            assert(list@.take(i as int + 1).filter(f) == if f(list@[i as int]) {
                prev.push(list@[i as int])
            } else {
                prev
            });
            assert(e == trap_stepped(list@[i as int]));
            assert(done == !still_shut(list@[i as int]));
            assert(prev.push(list@[i as int]).map_values(g) =~= prev.map_values(g).push(
                g(list@[i as int]),
            ));
        }
        let ghost kept_before = kept@;
        if !done {
            kept.push(e);
        }
        proof {
            assert(f(list@[i as int]) == still_shut(list@[i as int]));
            assert(g(list@[i as int]) == trap_stepped(list@[i as int]));
            if still_shut(list@[i as int]) {
                assert(kept@ == kept_before.push(trap_stepped(list@[i as int])));
                assert(kept@ == prev.push(list@[i as int]).map_values(g));
            } else {
                assert(kept@ == prev.map_values(g));
            }
        }
        i += 1;
    }
    proof {
        assert(list@.take(list@.len() as int) == list@);
    }
    *list = kept;
}

/// Kill counts above this add no more to a timer bonus (the timer
/// saturates long before).
pub const BONUS_COUNT_CAP: usize = 0xFFFF_FFFF;

pub open spec fn bonus_count(n: int) -> int {
    if n > BONUS_COUNT_CAP {
        BONUS_COUNT_CAP as int
    } else {
        n
    }
}

fn capped_count(n: usize) -> (r: i64)
    ensures
        r == bonus_count(n as int),
        0 <= r <= BONUS_COUNT_CAP,
{
    if n > BONUS_COUNT_CAP {
        BONUS_COUNT_CAP as i64
    } else {
        n as i64
    }
}

/// A zombie a nuke's bad side drove crazy: a fresh crazy zombie where the
/// old one's center was.
pub open spec fn crazed(e: Enemy) -> Enemy {
    Enemy::Crazy(
        CrazyZombie {
            character: Character::new_spec(
                clamp_spec_position(e.body().map_center_x_spec()) as i64,
                clamp_spec_position(e.body().map_center_y_spec()) as i64,
            ),
            chasing: false,
        },
    )
}

pub open spec fn clamp_spec_position(v: int) -> int {
    if v < -POSITION_LIMIT {
        -POSITION_LIMIT as int
    } else if v > POSITION_LIMIT {
        POSITION_LIMIT as int
    } else {
        v
    }
}

/// Replaces each zombie whose roll is at least 3 (of `1 ..= 10`) by a crazy
/// one at its center.
pub fn crazify(enemies: &mut Vec<Enemy>, rolls: &Vec<u32>)
    requires
        enemies_wf(old(enemies)@),
        rolls@.len() == old(enemies)@.len(),
    ensures
        enemies_wf(final(enemies)@),
        final(enemies)@.len() == old(enemies)@.len(),
        forall|i: int|
            0 <= i < old(enemies)@.len() ==> #[trigger] final(enemies)@[i] == (if rolls@[i] >= 3 {
                crazed(old(enemies)@[i])
            } else {
                old(enemies)@[i]
            }),
{
    let mut i: usize = 0;
    while i < enemies.len()
        invariant
            i <= enemies@.len(),
            enemies@.len() == old(enemies)@.len(),
            rolls@.len() == old(enemies)@.len(),
            enemies_wf(enemies@),
            forall|j: int| i <= j < enemies@.len() ==> enemies@[j] == old(enemies)@[j],
            forall|j: int|
                0 <= j < i ==> #[trigger] enemies@[j] == (if rolls@[j] >= 3 {
                    crazed(old(enemies)@[j])
                } else {
                    old(enemies)@[j]
                }),
        decreases enemies@.len() - i,
    {
        if rolls[i] >= 3 {
            let x = clamp_position(enemies[i].get_map_x());
            let y = clamp_position(enemies[i].get_map_y());
            enemies.set(i, Enemy::Crazy(CrazyZombie::new(x, y)));
        }
        i += 1;
    }
}

/// What applying the pickup at `index` does, with the chances `victim`
/// and `rolls` already drawn (see `Game::apply_powerup_with`).
pub open spec fn applied_with(before: Game, index: usize, victim: usize, rolls: Seq<u32>, after: Game) -> bool {
    &&& after.wf()
    &&& after.powerups@ == before.powerups@.remove(index as int)
    &&& ({
        let p = before.powerups@[index as int];
        let started = p.with_timer(p.timer_length());
        let k = p.kind();
        &&& k == 1 ==> after.player == (Player { cricket_bat: true, ..before.player })
            && after.enemies@ == before.enemies@ && after.killed@ == before.killed@
            && after.activated@ == before.activated@ && after.timer
            == before.timer
        &&& k == 2 ==> after.player == before.player && after.timer == clamp_i32(
            before.timer + KILL_BONUS,
        ) && (before.enemies@.len() > 0 ==> after.enemies@ == before.enemies@.remove(
            victim as int,
        ) && after.killed@ == before.killed@.push(struck(before.enemies@[victim as int]))
            && after.activated@ == before.activated@.push(p)) && (before.enemies@.len()
            == 0 ==> after.enemies@ == before.enemies@ && after.killed@
            == before.killed@ && after.activated@ == before.activated@)
        &&& k == 3 ==> after.player == before.player && after.enemies@
            == before.enemies@.filter(
            |e: Enemy| !doomed(before.player.character, before.map, true, e),
        ) && after.killed@ == before.killed@ + before.enemies@.filter(
            |e: Enemy| doomed(before.player.character, before.map, true, e),
        ).map_values(|e: Enemy| struck(e)) && after.activated@ == before.activated@.push(
            started,
        ) && after.timer == clamp_i32(
            before.timer + bonus_count(after.killed@.len() as int) * WIPE_OUT_BONUS,
        )
        &&& k == 4 ==> after.player == before.player && after.freeze_counter
            == FREEZE_FRAMES && after.enemies@ == before.enemies@ && after.killed@
            == before.killed@ && after.activated@ == before.activated@
            && after.timer == before.timer
        &&& k == 5 ==> after.player == (Player {
            character: Character {
                map_x: before.vehicle.map_pos().0,
                map_y: clamp_spec_position(before.vehicle.map_pos().1 + 2 * TILE) as i64,
                ..before.player.character
            },
            teleport_timer: crate::player::TELEPORT_FRAMES,
            ..before.player
        }) && after.enemies@ == before.enemies@ && after.killed@
            == before.killed@ && after.activated@ == before.activated@.push(started)
            && after.timer == before.timer
        &&& k == 6 && p.debuff() ==> after.player == before.player
            && after.enemies@.len() == before.enemies@.len() && (forall|i: int|
            0 <= i < before.enemies@.len() ==> #[trigger] after.enemies@[i] == (if rolls[i]
                >= 3 {
                crazed(before.enemies@[i])
            } else {
                before.enemies@[i]
            })) && after.killed@ == before.killed@ && after.activated@
            == before.activated@ && after.timer == before.timer
        &&& k == 6 && !p.debuff() ==> after.player == before.player
            && after.enemies@ == before.enemies@.filter(
            |e: Enemy| !doomed(before.player.character, before.map, false, e),
        ) && after.killed@ == before.killed@ + before.enemies@.filter(
            |e: Enemy| doomed(before.player.character, before.map, false, e),
        ).map_values(|e: Enemy| struck(e)) && after.activated@ == before.activated@.push(
            started,
        ) && after.timer == clamp_i32(
            before.timer + bonus_count(after.killed@.len() as int) * NUKE_BONUS,
        )
    })
    &&& after.map == before.map
    &&& after.vehicle == before.vehicle
    &&& after.parts@ == before.parts@
    &&& after.coll_parts@ == before.coll_parts@
    &&& after.traps@ == before.traps@
    &&& after.updates == before.updates
    &&& after.traps@ == before.traps@
    &&& after.tripped@ == before.tripped@
    &&& after.parts@ == before.parts@
    &&& after.coll_parts@ == before.coll_parts@
    &&& after.vehicle == before.vehicle
    &&& after.map == before.map
    &&& after.paused == before.paused
    &&& after.updates == before.updates
    &&& after.level == before.level
    &&& after.highscore == before.highscore
    &&& after.score == before.score
    &&& after.completed_lvl == before.completed_lvl
    &&& after.alt_control == before.alt_control
    &&& after.game_over == before.game_over
}

/// Whether trap `t` springs: the player or some zombie touches it.
pub open spec fn trap_touched(g: Game, t: int) -> bool {
    let tr = g.traps@[t].body().damage_rect_spec();
    tr.overlaps(g.player_box()) || exists|i: int|
        0 <= i < g.enemies@.len() && (#[trigger] g.enemies@[i]).body().damage_rect_spec().overlaps(tr)
}

/// What meeting the zombies does (see `Game::resolve_zombie_contact`).
pub open spec fn zombie_contact_met(before: Game, after: Game, collided: bool) -> bool {
    &&& after.wf()
    &&& ({
        let pb = before.player_box();
        let armed = before.player.cricket_bat || before.player.teleport_timer > 0;
        &&& before.player.immunity_timer > 0 ==> !collided && after.enemies@
            == before.enemies@ && after.player == before.player
        &&& (before.player.immunity_timer <= 0 && forall|j: int|
            0 <= j < before.enemies@.len()
                ==> !(#[trigger] before.enemies@[j]).body().damage_rect_spec().overlaps(pb))
            ==> !collided && after.enemies@ == before.enemies@ && after.player
            == before.player
        &&& forall|i: int|
            #![trigger before.enemies@[i]]
            before.player.immunity_timer <= 0 && 0 <= i < before.enemies@.len()
                && before.enemies@[i].body().damage_rect_spec().overlaps(pb) && (forall|j: int|
                0 <= j < i ==> !(#[trigger] before.enemies@[j]).body().damage_rect_spec().overlaps(pb))
                ==> if armed {
                &&& !collided
                &&& after.enemies@ == before.enemies@.remove(i)
                &&& after.killed@ == before.killed@.push(struck(before.enemies@[i]))
                &&& after.player == (Player { cricket_bat: false, ..before.player })
                &&& after.timer == clamp_i32(before.timer + KILL_BONUS)
            } else {
                collided && after.enemies@ == before.enemies@ && after.player
                    == before.player
            }
    })
    &&& after.map == before.map
    &&& after.vehicle == before.vehicle
    &&& after.powerups@ == before.powerups@
    &&& after.parts@ == before.parts@
    &&& after.coll_parts@ == before.coll_parts@
    &&& after.traps@ == before.traps@
    &&& after.updates == before.updates
    &&& after.game_over == before.game_over
    &&& after.player.health == before.player.health
    &&& after.player.character.elapsed_time == before.player.character.elapsed_time
    &&& after.powerups@ == before.powerups@
    &&& after.traps@ == before.traps@
    &&& after.activated@ == before.activated@
    &&& after.tripped@ == before.tripped@
    &&& after.parts@ == before.parts@
    &&& after.coll_parts@ == before.coll_parts@
    &&& after.vehicle == before.vehicle
    &&& after.map == before.map
    &&& after.paused == before.paused
    &&& after.updates == before.updates
    &&& after.level == before.level
    &&& after.highscore == before.highscore
    &&& after.score == before.score
    &&& after.completed_lvl == before.completed_lvl
    &&& after.freeze_counter == before.freeze_counter
    &&& after.alt_control == before.alt_control
    &&& after.game_over == before.game_over
}

/// What picking up a part does (see `Game::collect_part`).
pub open spec fn part_collected(before: Game, after: Game) -> bool {
    &&& after.wf()
    &&& ({
        let pb = before.player_box();
        &&& (before.coll_parts@.len() > 0 || forall|j: int|
            0 <= j < before.parts@.len() ==> !(#[trigger] before.parts@[j]).hit_box().overlaps(pb))
            ==> after.parts@ == before.parts@ && after.coll_parts@
            == before.coll_parts@
        &&& forall|i: int|
            #![trigger before.parts@[i]]
            before.coll_parts@.len() == 0 && 0 <= i < before.parts@.len()
                && before.parts@[i].hit_box().overlaps(pb) && (forall|j: int|
                0 <= j < i ==> !(#[trigger] before.parts@[j]).hit_box().overlaps(pb))
                ==> after.parts@ == before.parts@.remove(i) && after.coll_parts@
                == before.coll_parts@.push(before.parts@[i])
    })
    &&& after.player == before.player
    &&& after.enemies@ == before.enemies@
    &&& after.killed@ == before.killed@
    &&& after.vehicle == before.vehicle
    &&& after.map == before.map
    &&& after.powerups@ == before.powerups@
    &&& after.traps@ == before.traps@
    &&& after.timer == before.timer
    &&& after.updates == before.updates
    &&& after.game_over == before.game_over
    &&& after.player == before.player
    &&& after.enemies@ == before.enemies@
    &&& after.powerups@ == before.powerups@
    &&& after.traps@ == before.traps@
    &&& after.killed@ == before.killed@
    &&& after.activated@ == before.activated@
    &&& after.tripped@ == before.tripped@
    &&& after.vehicle == before.vehicle
    &&& after.map == before.map
    &&& after.paused == before.paused
    &&& after.updates == before.updates
    &&& after.level == before.level
    &&& after.highscore == before.highscore
    &&& after.score == before.score
    &&& after.timer == before.timer
    &&& after.completed_lvl == before.completed_lvl
    &&& after.freeze_counter == before.freeze_counter
    &&& after.alt_control == before.alt_control
    &&& after.game_over == before.game_over
}

/// What installing a carried part does (see `Game::install_part`).
pub open spec fn part_installed(before: Game, after: Game) -> bool {
    &&& after.wf()
    &&& before.vehicle.hit_box().overlaps(before.player_box()) && before.coll_parts@.len() > 0
        ==> after.coll_parts@ == before.coll_parts@.drop_last() && after.vehicle
        == before.vehicle.with_part(before.coll_parts@.last().kind())
    &&& !(before.vehicle.hit_box().overlaps(before.player_box()) && before.coll_parts@.len()
        > 0) ==> after.coll_parts@ == before.coll_parts@ && after.vehicle
        == before.vehicle
    &&& after.player == before.player
    &&& after.enemies@ == before.enemies@
    &&& after.killed@ == before.killed@
    &&& after.map == before.map
    &&& after.parts@ == before.parts@
    &&& after.powerups@ == before.powerups@
    &&& after.traps@ == before.traps@
    &&& after.timer == before.timer
    &&& after.updates == before.updates
    &&& after.game_over == before.game_over
    &&& after.player == before.player
    &&& after.enemies@ == before.enemies@
    &&& after.powerups@ == before.powerups@
    &&& after.traps@ == before.traps@
    &&& after.killed@ == before.killed@
    &&& after.activated@ == before.activated@
    &&& after.tripped@ == before.tripped@
    &&& after.parts@ == before.parts@
    &&& after.map == before.map
    &&& after.paused == before.paused
    &&& after.updates == before.updates
    &&& after.level == before.level
    &&& after.highscore == before.highscore
    &&& after.score == before.score
    &&& after.timer == before.timer
    &&& after.completed_lvl == before.completed_lvl
    &&& after.freeze_counter == before.freeze_counter
    &&& after.alt_control == before.alt_control
    &&& after.game_over == before.game_over
}

/// What checking the traps does (see `Game::check_traps`).
pub open spec fn traps_checked(before: Game, after: Game, player_hit: bool) -> bool {
    &&& after.wf()
    &&& (forall|t: int| 0 <= t < before.traps@.len() ==> !#[trigger] trap_touched(before, t))
        ==> !player_hit && after.traps@ == before.traps@ && after.tripped@
        == before.tripped@ && after.enemies@ == before.enemies@ && after.killed@
        == before.killed@
    &&& forall|t: int|
        #![trigger before.traps@[t]]
        0 <= t < before.traps@.len() && trap_touched(before, t) && (forall|u: int|
            0 <= u < t ==> !#[trigger] trap_touched(before, u)) ==> {
            let tr = before.traps@[t].body().damage_rect_spec();
            &&& after.traps@ == before.traps@.remove(t)
            &&& after.tripped@ == before.tripped@.push(
                before.traps@[t].with_timer(crate::traps::BEAR_TRAP_TIMER),
            )
            &&& tr.overlaps(before.player_box()) ==> player_hit && after.enemies@
                == before.enemies@ && after.killed@ == before.killed@
            &&& !tr.overlaps(before.player_box()) ==> !player_hit && forall|i: int|
                #![trigger before.enemies@[i]]
                0 <= i < before.enemies@.len() && before.enemies@[i].body().damage_rect_spec().overlaps(tr)
                    && (forall|j: int|
                    0 <= j < i ==> !(#[trigger] before.enemies@[j]).body().damage_rect_spec().overlaps(tr))
                    ==> after.enemies@ == before.enemies@.remove(i) && after.killed@
                    == before.killed@.push(struck(before.enemies@[i]))
        }
    &&& after.player == before.player
    &&& after.powerups@ == before.powerups@
    &&& after.activated@ == before.activated@
    &&& after.parts@ == before.parts@
    &&& after.coll_parts@ == before.coll_parts@
    &&& after.vehicle == before.vehicle
    &&& after.map == before.map
    &&& after.paused == before.paused
    &&& after.updates == before.updates
    &&& after.level == before.level
    &&& after.highscore == before.highscore
    &&& after.score == before.score
    &&& after.timer == before.timer
    &&& after.completed_lvl == before.completed_lvl
    &&& after.freeze_counter == before.freeze_counter
    &&& after.alt_control == before.alt_control
    &&& after.game_over == before.game_over
    &&& after.player.character.elapsed_time == before.player.character.elapsed_time
}

/// What checking for a built vehicle does (see `Game::complete_level`).
pub open spec fn level_checked(before: Game, after: Game) -> bool {
    &&& after.wf()
    &&& before.vehicle.installed() == crate::vehicle::kinds_of(true, true, true) ==> after.completed_lvl
        && after.score == clamp_i32(
        before.score + before.level * 1000 + before.player.health * 1000 + before.timer,
    ) && after.timer == clamp_i32(before.timer + LEVEL_2_TIME)
    &&& before.vehicle.installed() != crate::vehicle::kinds_of(true, true, true) ==> after.completed_lvl
        == before.completed_lvl && after.score == before.score && after.timer
        == before.timer
    &&& after.player == before.player
    &&& after.enemies@ == before.enemies@
    &&& after.powerups@ == before.powerups@
    &&& after.traps@ == before.traps@
    &&& after.killed@ == before.killed@
    &&& after.activated@ == before.activated@
    &&& after.tripped@ == before.tripped@
    &&& after.parts@ == before.parts@
    &&& after.coll_parts@ == before.coll_parts@
    &&& after.vehicle == before.vehicle
    &&& after.map == before.map
    &&& after.paused == before.paused
    &&& after.updates == before.updates
    &&& after.level == before.level
    &&& after.highscore == before.highscore
    &&& after.freeze_counter == before.freeze_counter
    &&& after.alt_control == before.alt_control
    &&& after.game_over == before.game_over
}

/// What checking the timer does (see `Game::check_clock`).
pub open spec fn clock_checked(before: Game, after: Game) -> bool {
    &&& after.wf()
    &&& before.timer == 0 ==> after.game_over && after.level == 1 && after.paused
        && after.score == 0 && after.timer == LEVEL_1_TIME && after.updates == 0
        && after.player == Player::new_spec(PLAYER_STARTING_X, PLAYER_STARTING_Y)
        && after.killed@.len() == 0
    &&& before.timer != 0 ==> (after.player == before.player &&
after.enemies@ == before.enemies@ &&
after.powerups@ == before.powerups@ &&
after.traps@ == before.traps@ &&
after.killed@ == before.killed@ &&
after.activated@ == before.activated@ &&
after.tripped@ == before.tripped@ &&
after.parts@ == before.parts@ &&
after.coll_parts@ == before.coll_parts@ &&
after.vehicle == before.vehicle &&
after.map == before.map &&
after.paused == before.paused &&
after.updates == before.updates &&
after.level == before.level &&
after.highscore == before.highscore &&
after.score == before.score &&
after.timer == before.timer &&
after.completed_lvl == before.completed_lvl &&
after.freeze_counter == before.freeze_counter &&
after.alt_control == before.alt_control &&
after.game_over == before.game_over && after.completed_lvl == before.completed_lvl)
}

/// What a hit, or its absence, does (see `Game::apply_damage`).
pub open spec fn damage_applied(before: Game, after: Game, hit: bool) -> bool {
    &&& after.wf()
    &&& !hit ==> after.player == before.player && after.game_over
        == before.game_over && after.level == before.level
    &&& hit && before.player.health > 1 ==> after.player == (Player {
        health: (before.player.health - 1) as u32,
        immunity_timer: crate::player::IMMUNITY_FRAMES,
        ..before.player
    }) && after.level == before.level && after.game_over == before.game_over
    &&& hit && before.player.health <= 1 ==> after.game_over && after.level == 1
        && after.paused && after.player == Player::new_spec(
        PLAYER_STARTING_X,
        PLAYER_STARTING_Y,
    )
    &&& !after.game_over ==> after.player.character.elapsed_time == before.player.character.elapsed_time
    &&& !hit ==> (after.player == before.player &&
after.enemies@ == before.enemies@ &&
after.powerups@ == before.powerups@ &&
after.traps@ == before.traps@ &&
after.killed@ == before.killed@ &&
after.activated@ == before.activated@ &&
after.tripped@ == before.tripped@ &&
after.parts@ == before.parts@ &&
after.coll_parts@ == before.coll_parts@ &&
after.vehicle == before.vehicle &&
after.map == before.map &&
after.paused == before.paused &&
after.updates == before.updates &&
after.level == before.level &&
after.highscore == before.highscore &&
after.score == before.score &&
after.timer == before.timer &&
after.completed_lvl == before.completed_lvl &&
after.freeze_counter == before.freeze_counter &&
after.alt_control == before.alt_control &&
after.game_over == before.game_over)
    &&& hit && before.player.health > 1 ==> (after.enemies@ == before.enemies@ &&
after.powerups@ == before.powerups@ &&
after.traps@ == before.traps@ &&
after.killed@ == before.killed@ &&
after.activated@ == before.activated@ &&
after.tripped@ == before.tripped@ &&
after.parts@ == before.parts@ &&
after.coll_parts@ == before.coll_parts@ &&
after.vehicle == before.vehicle &&
after.map == before.map &&
after.paused == before.paused &&
after.updates == before.updates &&
after.level == before.level &&
after.highscore == before.highscore &&
after.score == before.score &&
after.timer == before.timer &&
after.completed_lvl == before.completed_lvl &&
after.freeze_counter == before.freeze_counter &&
after.alt_control == before.alt_control &&
after.game_over == before.game_over)
}

/// What cloud breeding does (see `Game::breed_clouds`).
pub open spec fn clouds_bred(before: Game, after: Game) -> bool {
    &&& after.wf()
    &&& !(before.updates != 0 && before.updates % CLOUD_SPAWN_INTERVAL == 0 && exists|i: int|
        0 <= i < before.enemies@.len() && (#[trigger] before.enemies@[i]).kind() == CLOUD_TYPE)
        ==> after.enemies@ == before.enemies@
    &&& before.updates != 0 && before.updates % CLOUD_SPAWN_INTERVAL == 0 && (exists|i: int|
        0 <= i < before.enemies@.len() && (#[trigger] before.enemies@[i]).kind() == CLOUD_TYPE)
        ==> after.enemies@.drop_last() == before.enemies@
        && after.enemies@.len() == before.enemies@.len() + 1
        && after.enemies@.last().kind() == CLOUD_TYPE
    &&& after.player == before.player
    &&& after.updates == before.updates
    &&& after.game_over == before.game_over
    &&& after.player == before.player
    &&& after.powerups@ == before.powerups@
    &&& after.traps@ == before.traps@
    &&& after.killed@ == before.killed@
    &&& after.activated@ == before.activated@
    &&& after.tripped@ == before.tripped@
    &&& after.parts@ == before.parts@
    &&& after.coll_parts@ == before.coll_parts@
    &&& after.vehicle == before.vehicle
    &&& after.map == before.map
    &&& after.paused == before.paused
    &&& after.updates == before.updates
    &&& after.level == before.level
    &&& after.highscore == before.highscore
    &&& after.score == before.score
    &&& after.timer == before.timer
    &&& after.completed_lvl == before.completed_lvl
    &&& after.freeze_counter == before.freeze_counter
    &&& after.alt_control == before.alt_control
    &&& after.game_over == before.game_over
    &&& (before.updates != 0 && before.updates % CLOUD_SPAWN_INTERVAL == 0 && exists|i: int|
        0 <= i < before.enemies@.len() && (#[trigger] before.enemies@[i]).kind() == CLOUD_TYPE)
        ==> spawned_zombie(after.map, 4, after.enemies@.last())
}

/// What the movement half of a frame does (see `Game::advance_world`).
pub open spec fn world_advanced(before: Game, after: Game, elapsed_time: Millis) -> bool {
    &&& after.wf()
    &&& after.player == before.player.updated(elapsed_time, before.map)
    &&& after.powerups@.len() == before.powerups@.len()
    &&& forall|i: int|
        0 <= i < before.powerups@.len() ==> #[trigger] after.powerups@[i] == (if debuff_tick(
            before.updates as int,
        ) {
            before.powerups@[i].with_debuff(!before.powerups@[i].debuff())
        } else {
            before.powerups@[i]
        })
    &&& after.enemies@.len() == before.enemies@.len()
    &&& after.killed@.len() == before.killed@.len()
    &&& after.updates == before.updates
    &&& after.timer == before.timer
    &&& after.vehicle == before.vehicle
    &&& after.parts@ == before.parts@
    &&& after.traps@ == before.traps@
    &&& after.game_over == before.game_over
    &&& before.freeze_counter > 0 ==> after.enemies@ == before.enemies@
    &&& before.freeze_counter == 0 ==> forall|k: int|
        0 <= k < before.enemies@.len() ==> #[trigger] chased_and_moved(
            before.enemies@[k],
            before.player.follow_x as int,
            before.player.follow_y as int,
            elapsed_time,
            before.map,
            after.enemies@[k],
        )
    &&& forall|k: int|
        0 <= k < before.killed@.len() ==> #[trigger] after.killed@[k] == before.killed@[k].advanced(
            elapsed_time,
            after.map,
        )
    &&& after.map.tiles == before.map.tiles
    &&& after.map.page_x == crate::map::page_of(after.player.character.map_center_x_spec())
    &&& after.map.page_y == crate::map::page_of(after.player.character.map_center_y_spec())
    &&& after.traps@ == before.traps@
    &&& after.activated@ == before.activated@
    &&& after.tripped@ == before.tripped@
    &&& after.parts@ == before.parts@
    &&& after.coll_parts@ == before.coll_parts@
    &&& after.vehicle == before.vehicle
    &&& after.paused == before.paused
    &&& after.updates == before.updates
    &&& after.level == before.level
    &&& after.highscore == before.highscore
    &&& after.score == before.score
    &&& after.timer == before.timer
    &&& after.completed_lvl == before.completed_lvl
    &&& after.alt_control == before.alt_control
    &&& after.game_over == before.game_over
}

/// What retiring finished animations does (see `Game::retire_finished`).
pub open spec fn animations_retired(before: Game, after: Game) -> bool {
    &&& after.wf()
    &&& after.killed@ == before.killed@.filter(|e: Enemy| still_dying(e)).map_values(
        |e: Enemy| polled(e),
    )
    &&& after.activated@ == before.activated@.filter(|e: AnyPowerup| still_running(e)).map_values(
        |e: AnyPowerup| stepped(e),
    )
    &&& after.tripped@ == before.tripped@.filter(|e: BearTrap| still_shut(e)).map_values(
        |e: BearTrap| trap_stepped(e),
    )
    &&& after.enemies@ == before.enemies@
    &&& after.player == before.player
    &&& after.powerups@ == before.powerups@
    &&& after.game_over == before.game_over
    &&& after.player == before.player
    &&& after.enemies@ == before.enemies@
    &&& after.powerups@ == before.powerups@
    &&& after.traps@ == before.traps@
    &&& after.parts@ == before.parts@
    &&& after.coll_parts@ == before.coll_parts@
    &&& after.vehicle == before.vehicle
    &&& after.map == before.map
    &&& after.paused == before.paused
    &&& after.updates == before.updates
    &&& after.level == before.level
    &&& after.highscore == before.highscore
    &&& after.score == before.score
    &&& after.timer == before.timer
    &&& after.completed_lvl == before.completed_lvl
    &&& after.freeze_counter == before.freeze_counter
    &&& after.alt_control == before.alt_control
    &&& after.game_over == before.game_over
}

/// The frame counter after one more frame (it stops at the largest `i32`).
pub open spec fn next_count(u: i32) -> i32 {
    if u < i32::MAX {
        (u + 1) as i32
    } else {
        u
    }
}

/// Every part of the world but the requested sound effects is as in `b`.
pub open spec fn same_state(a: Game, b: Game) -> bool {
    &&& a.player == b.player
    &&& a.enemies@ == b.enemies@
    &&& a.powerups@ == b.powerups@
    &&& a.traps@ == b.traps@
    &&& a.killed@ == b.killed@
    &&& a.activated@ == b.activated@
    &&& a.tripped@ == b.tripped@
    &&& a.parts@ == b.parts@
    &&& a.coll_parts@ == b.coll_parts@
    &&& a.vehicle == b.vehicle
    &&& a.map == b.map
    &&& a.paused == b.paused
    &&& a.updates == b.updates
    &&& a.level == b.level
    &&& a.highscore == b.highscore
    &&& a.score == b.score
    &&& a.timer == b.timer
    &&& a.completed_lvl == b.completed_lvl
    &&& a.freeze_counter == b.freeze_counter
    &&& a.alt_control == b.alt_control
    &&& a.game_over == b.game_over
}

/// What taking the first pickup the player touches does, if there is one
/// (see `Game::apply_powerup`).
pub open spec fn pickup_taken(before: Game, after: Game) -> bool {
    let pb = before.player_box();
    &&& after.wf()
    &&& (forall|j: int|
        0 <= j < before.powerups@.len() ==> !(#[trigger] before.powerups@[j]).body().damage_rect_spec().overlaps(pb))
        ==> same_state(after, before)
    &&& forall|i: int|
        #![trigger before.powerups@[i]]
        0 <= i < before.powerups@.len() && before.powerups@[i].body().damage_rect_spec().overlaps(pb) && (forall|j: int|
            0 <= j < i ==> !(#[trigger] before.powerups@[j]).body().damage_rect_spec().overlaps(pb)) ==> exists|
            victim: usize,
            rolls: Seq<u32>,
        |
            rolls.len() == before.enemies@.len() && (before.enemies@.len() > 0 ==> victim < before.enemies@.len())
                && (forall|k: int| 0 <= k < rolls.len() ==> 1 <= #[trigger] rolls[k] <= 10) && #[trigger] applied_with(
                before,
                i as usize,
                victim,
                rolls,
                after,
            )
}

/// What the contact pass does: zombies, then parts, the vehicle, pickups
/// and traps, in that order; `hit` reports an unarmed zombie contact or a
/// trap the player stepped in (see `Game::resolve_contacts`).
#[verifier::opaque]
pub open spec fn contacts_resolved(before: Game, after: Game, hit: bool) -> bool {
    exists|g1: Game, g2: Game, g3: Game, g4: Game, collided: bool, trapped: bool|
        #![trigger zombie_contact_met(before, g1, collided), part_collected(g1, g2), part_installed(g2, g3), pickup_taken(g3, g4), traps_checked(g4, after, trapped)]
        zombie_contact_met(before, g1, collided) && part_collected(g1, g2) && part_installed(g2, g3)
            && pickup_taken(g3, g4) && traps_checked(g4, after, trapped) && hit == (collided || trapped)
}

/// What the interaction half of a frame does: contacts, level completion,
/// the clock, damage, cloud breeding (see `Game::interact`).
#[verifier::opaque]
pub open spec fn interacted(before: Game, after: Game) -> bool {
    exists|g1: Game, g2: Game, g3: Game, g4: Game, hit: bool|
        #![trigger contacts_resolved(before, g1, hit), level_checked(g1, g2), clock_checked(g2, g3), damage_applied(g3, g4, hit), clouds_bred(g4, after)]
        contacts_resolved(before, g1, hit) && level_checked(g1, g2) && clock_checked(g2, g3) && damage_applied(
            g3,
            g4,
            hit,
        ) && clouds_bred(g4, after)
}

/// What one frame of the world does: movement, then interactions (see
/// `Game::update`).
#[verifier::opaque]
pub open spec fn frame_updated(before: Game, after: Game, elapsed_time: Millis) -> bool {
    exists|g: Game|
        #![trigger world_advanced(before, g, elapsed_time), interacted(g, after)]
        world_advanced(before, g, elapsed_time) && interacted(g, after)
}

/// What closing a frame does (see `Game::finish_frame`).
pub open spec fn frame_finished(before: Game, after: Game) -> bool {
    &&& after.wf()
    &&& before.updates != 0 ==> after.killed@ == before.killed@.filter(|e: Enemy| still_dying(e)).map_values(
        |e: Enemy| polled(e),
    ) && after.activated@ == before.activated@.filter(|e: AnyPowerup| still_running(e)).map_values(
        |e: AnyPowerup| stepped(e),
    ) && after.tripped@ == before.tripped@.filter(|e: BearTrap| still_shut(e)).map_values(
        |e: BearTrap| trap_stepped(e),
    )
    &&& before.updates == 0 ==> after.killed@ == before.killed@ && after.activated@
        == before.activated@ && after.tripped@ == before.tripped@
    &&& after.timer == clamp_i32(before.timer - 1)
    &&& after.updates == next_count(before.updates)
    &&& after.player == before.player
    &&& after.enemies@ == before.enemies@
    &&& after.powerups@ == before.powerups@
    &&& after.traps@ == before.traps@
    &&& after.parts@ == before.parts@
    &&& after.coll_parts@ == before.coll_parts@
    &&& after.vehicle == before.vehicle
    &&& after.map == before.map
    &&& after.paused == before.paused
    &&& after.level == before.level
    &&& after.highscore == before.highscore
    &&& after.score == before.score
    &&& after.completed_lvl == before.completed_lvl
    &&& after.freeze_counter == before.freeze_counter
    &&& after.alt_control == before.alt_control
    &&& after.game_over == before.game_over
}

impl Game {
    /// Every actor is well formed, the map is a full grid showing one of
    /// its pages, and the frame counter is not negative.
    pub open spec fn wf(&self) -> bool {
        &&& self.map.wf()
        &&& self.map.page_x <= 2 && self.map.page_y <= 2
        &&& self.player.wf()
        &&& enemies_wf(self.enemies@)
        &&& enemies_wf(self.killed@)
        &&& powerups_wf(self.powerups@)
        &&& powerups_wf(self.activated@)
        &&& traps_wf(self.traps@)
        &&& traps_wf(self.tripped@)
        &&& parts_wf(self.parts@)
        &&& parts_wf(self.coll_parts@)
        &&& self.vehicle.wf()
        &&& self.updates >= 0
        &&& self.freeze_counter >= 0
    }

    /// Everything but the zombies, pickups and parts lying in the world is
    /// as in `o`.
    pub open spec fn same_but_populations(&self, o: &Game) -> bool {
        &&& self.map == o.map
        &&& self.player == o.player
        &&& self.vehicle == o.vehicle
        &&& self.paused == o.paused
        &&& self.updates == o.updates
        &&& self.level == o.level
        &&& self.highscore == o.highscore
        &&& self.score == o.score
        &&& self.timer == o.timer
        &&& self.completed_lvl == o.completed_lvl
        &&& self.freeze_counter == o.freeze_counter
        &&& self.alt_control == o.alt_control
        &&& self.game_over == o.game_over
        &&& self.killed@ == o.killed@
        &&& self.activated@ == o.activated@
        &&& self.tripped@ == o.tripped@
        &&& self.coll_parts@ == o.coll_parts@
        &&& self.traps@ == o.traps@
        &&& self.sounds@ == o.sounds@
    }

    /// Adds a zombie of the requested kind. A cloud zombie asked for at a
    /// location starts there, shifting one game unit diagonally per failed
    /// attempt; every other zombie is tried at random tiles. A placement
    /// whose box touches a wall is rejected; after `MAX_SPAWN_ATTEMPTS`
    /// rejections the zombie goes to the safe tile.
    pub fn spawn_zombie(&mut self, kind: u32, location: Option<(i64, i64)>)
        requires
            old(self).wf(),
        ensures
            final(self).wf(),
            final(self).enemies@.len() == old(self).enemies@.len() + 1,
            final(self).enemies@.drop_last() == old(self).enemies@,
            spawned_zombie(final(self).map, kind, final(self).enemies@.last()),
            final(self).same_but_populations(old(self)),
            final(self).powerups@ == old(self).powerups@,
            final(self).parts@ == old(self).parts@,
            final(self).game_over == old(self).game_over,
    {
        let mut loc: Option<(i64, i64)> = match location {
            Some((x, y)) => Some((clamp_position(x), clamp_position(y))),
            None => None,
        };
        let mut attempt: u32 = 0;
        while attempt < MAX_SPAWN_ATTEMPTS
            invariant
                self.wf(),
                *self == *old(self),
                match loc {
                    Some((x, y)) => -POSITION_LIMIT <= x <= POSITION_LIMIT && -POSITION_LIMIT <= y
                        <= POSITION_LIMIT,
                    None => true,
                },
            decreases MAX_SPAWN_ATTEMPTS - attempt,
        {
            let (x, y) = match loc {
                Some((lx, ly)) if kind >= 4 => (lx, ly),
                _ => (
                    random_in(1, POSSIBLE_CHARACTER_TILES) as i64 * TILE,
                    random_in(1, POSSIBLE_CHARACTER_TILES) as i64 * TILE,
                ),
            };
            let zombie = make_zombie(kind, x, y);
            if spot_is_clear(&self.map, &zombie.damage_rectangle()) {
                self.enemies.push(zombie);
                return;
            }
            loc = match loc {
                Some((lx, ly)) => Some((clamp_position(lx + GAME), clamp_position(ly + GAME))),
                None => None,
            };
            attempt += 1;
        }
        self.enemies.push(make_zombie(kind, SAFE_SPAWN_X, SAFE_SPAWN_Y));
    }
    /// Adds a pickup of the requested kind at a random tile clear of walls,
    /// or at the safe tile after `MAX_SPAWN_ATTEMPTS` rejected tiles.
    pub fn spawn_powerup(&mut self, kind: u32)
        requires
            old(self).wf(),
        ensures
            final(self).wf(),
            final(self).powerups@.len() == old(self).powerups@.len() + 1,
            final(self).powerups@.drop_last() == old(self).powerups@,
            spawned_powerup(final(self).map, kind, final(self).powerups@.last()),
            final(self).same_but_populations(old(self)),
            final(self).enemies@ == old(self).enemies@,
            final(self).parts@ == old(self).parts@,
    {
        let mut attempt: u32 = 0;
        while attempt < MAX_SPAWN_ATTEMPTS
            invariant
                self.wf(),
                *self == *old(self),
            decreases MAX_SPAWN_ATTEMPTS - attempt,
        {
            let x = random_in(1, POSSIBLE_CHARACTER_TILES) as i64 * TILE;
            let y = random_in(1, POSSIBLE_CHARACTER_TILES) as i64 * TILE;
            let powerup = make_powerup(kind, x, y);
            if spot_is_clear(&self.map, &powerup.damage_rectangle()) {
                self.powerups.push(powerup);
                return;
            }
            attempt += 1;
        }
        self.powerups.push(make_powerup(kind, SAFE_SPAWN_X, SAFE_SPAWN_Y));
    }

    /// Adds the part of kind `kind` (0, 1 or 2) for the current vehicle,
    /// away from the start corner (see `part_tiles`), clear of walls; after
    /// `MAX_SPAWN_ATTEMPTS` rejected places it goes to the safe tile.
    pub fn spawn_part(&mut self, kind: u32)
        requires
            old(self).wf(),
        ensures
            final(self).wf(),
            final(self).parts@.len() == old(self).parts@.len() + 1,
            final(self).parts@.drop_last() == old(self).parts@,
            spawned_part(final(self).map, final(self).vehicle.kind(), kind, final(self).parts@.last()),
            final(self).same_but_populations(old(self)),
            final(self).enemies@ == old(self).enemies@,
            final(self).powerups@ == old(self).powerups@,
    {
        let vehicle_type = self.vehicle.get_type();
        let mut attempt: u32 = 0;
        while attempt < MAX_SPAWN_ATTEMPTS
            invariant
                self.wf(),
                *self == *old(self),
                vehicle_type == self.vehicle.kind(),
            decreases MAX_SPAWN_ATTEMPTS - attempt,
        {
            let x = random_in(0, PART_RANGE_MAX);
            let y = random_in(0, PART_RANGE_MAX);
            let redraw = random_in(PART_RANGE_MIN, PART_RANGE_MAX);
            let (tx, ty) = place_part_tiles(x, y, redraw);
            let part = make_part(vehicle_type, kind, tx as i64 * TILE, ty as i64 * TILE);
            if spot_is_clear(&self.map, &part.damage_rectangle()) {
                self.parts.push(part);
                return;
            }
            attempt += 1;
        }
        self.parts.push(make_part(vehicle_type, kind, SAFE_SPAWN_X, SAFE_SPAWN_Y));
    }

    /// Awards the level's points (a thousand per level number and per point
    /// of health, plus the time left) and extends the timer.
    pub fn set_score_and_timer(&mut self)
        requires
            old(self).wf(),
        ensures
            final(self).wf(),
            final(self).enemies@ == old(self).enemies@,
            final(self).score == clamp_i32(
                old(self).score + old(self).level * 1000 + old(self).player.health * 1000
                    + old(self).timer,
            ),
            final(self).timer == clamp_i32(old(self).timer + LEVEL_2_TIME),
            final(self).player == old(self).player,
            final(self).level == old(self).level,
            final(self).game_over == old(self).game_over,
            final(self).player == old(self).player,
            final(self).enemies@ == old(self).enemies@,
            final(self).powerups@ == old(self).powerups@,
            final(self).traps@ == old(self).traps@,
            final(self).killed@ == old(self).killed@,
            final(self).activated@ == old(self).activated@,
            final(self).tripped@ == old(self).tripped@,
            final(self).parts@ == old(self).parts@,
            final(self).coll_parts@ == old(self).coll_parts@,
            final(self).vehicle == old(self).vehicle,
            final(self).map == old(self).map,
            final(self).paused == old(self).paused,
            final(self).updates == old(self).updates,
            final(self).level == old(self).level,
            final(self).highscore == old(self).highscore,
            final(self).completed_lvl == old(self).completed_lvl,
            final(self).freeze_counter == old(self).freeze_counter,
            final(self).alt_control == old(self).alt_control,
            final(self).game_over == old(self).game_over,
    {
        let bonus = self.level as i64 * 1000 + self.player.get_health() as i64 * 1000
            + self.timer as i64;
        self.score = add_clamped(self.score, bonus);
        self.timer = add_clamped(self.timer, LEVEL_2_TIME as i64);
    }

    /// Fills a fresh level: between `MIN_ENEMIES` and `MAX_ENEMIES` zombies
    /// of random kinds, up to `MAX_POWERUPS` pickups, and the vehicle's
    /// parts.
    fn populate(&mut self)
        requires
            old(self).wf(),
        ensures
            final(self).wf(),
            MIN_ENEMIES + old(self).enemies@.len() <= final(self).enemies@.len() < MAX_ENEMIES
                + old(self).enemies@.len(),
            old(self).powerups@.len() <= final(self).powerups@.len() < MAX_POWERUPS
                + old(self).powerups@.len(),
            final(self).parts@.len() == LEVEL_PARTS + old(self).parts@.len(),
            final(self).same_but_populations(old(self)),
            forall|i: int|
                old(self).enemies@.len() <= i < final(self).enemies@.len() ==> spawned_any_zombie(
                    final(self).map,
                    #[trigger] final(self).enemies@[i],
                ),
            forall|i: int| 0 <= i < old(self).enemies@.len() ==> #[trigger] final(self).enemies@[i] == old(self).enemies@[i],
            forall|i: int|
                old(self).powerups@.len() <= i < final(self).powerups@.len() ==> spawned_any_powerup(
                    final(self).map,
                    #[trigger] final(self).powerups@[i],
                ),
            forall|i: int|
                0 <= i < LEVEL_PARTS ==> spawned_part(
                    final(self).map,
                    final(self).vehicle.kind(),
                    i as u32,
                    #[trigger] final(self).parts@[old(self).parts@.len() + i],
                ),
    {
        let number_of_zombies = random_in(MIN_ENEMIES, MAX_ENEMIES);
        let mut i: u32 = 0;
        while i < number_of_zombies
            invariant
                forall|k: int|
                    old(self).enemies@.len() <= k < self.enemies@.len() ==> spawned_any_zombie(
                        self.map,
                        #[trigger] self.enemies@[k],
                    ),
                forall|k: int| 0 <= k < old(self).enemies@.len() ==> #[trigger] self.enemies@[k] == old(self).enemies@[k],
                self.wf(),
                i <= number_of_zombies < MAX_ENEMIES,
                MIN_ENEMIES <= number_of_zombies,
                self.enemies@.len() == old(self).enemies@.len() + i,
                self.powerups@.len() == old(self).powerups@.len(),
                self.parts@.len() == old(self).parts@.len(),
                self.same_but_populations(old(self)),
            decreases number_of_zombies - i,
        {
            let kind = random_in(1, 5);
            let ghost before = self.enemies@;
            self.spawn_zombie(kind, None);
            proof {
                assert(spawned_zombie(self.map, kind, self.enemies@.last()));
                assert forall|k: int| 0 <= k < before.len() implies #[trigger] self.enemies@[k] == before[k] by {
                    assert(self.enemies@.drop_last()[k] == self.enemies@[k]);
                }
            }
            i += 1;
        }
        let number_of_powerups = random_in(0, MAX_POWERUPS);
        i = 0;
        while i < number_of_powerups
            invariant
                forall|k: int|
                    old(self).enemies@.len() <= k < self.enemies@.len() ==> spawned_any_zombie(
                        self.map,
                        #[trigger] self.enemies@[k],
                    ),
                forall|k: int| 0 <= k < old(self).enemies@.len() ==> #[trigger] self.enemies@[k] == old(self).enemies@[k],
                forall|k: int|
                    old(self).powerups@.len() <= k < self.powerups@.len() ==> spawned_any_powerup(
                        self.map,
                        #[trigger] self.powerups@[k],
                    ),
                self.wf(),
                i <= number_of_powerups < MAX_POWERUPS,
                MIN_ENEMIES + old(self).enemies@.len() <= self.enemies@.len() < MAX_ENEMIES
                    + old(self).enemies@.len(),
                self.powerups@.len() == old(self).powerups@.len() + i,
                self.parts@.len() == old(self).parts@.len(),
                self.same_but_populations(old(self)),
            decreases number_of_powerups - i,
        {
            let kind = random_in(1, 7);
            let ghost before = self.powerups@;
            self.spawn_powerup(kind);
            proof {
                assert(spawned_powerup(self.map, kind, self.powerups@.last()));
                assert forall|k: int| 0 <= k < before.len() implies #[trigger] self.powerups@[k] == before[k] by {
                    assert(self.powerups@.drop_last()[k] == self.powerups@[k]);
                }
            }
            i += 1;
        }
        i = 0;
        while i < LEVEL_PARTS
            invariant
                forall|k: int|
                    old(self).enemies@.len() <= k < self.enemies@.len() ==> spawned_any_zombie(
                        self.map,
                        #[trigger] self.enemies@[k],
                    ),
                forall|k: int| 0 <= k < old(self).enemies@.len() ==> #[trigger] self.enemies@[k] == old(self).enemies@[k],
                forall|k: int|
                    old(self).powerups@.len() <= k < self.powerups@.len() ==> spawned_any_powerup(
                        self.map,
                        #[trigger] self.powerups@[k],
                    ),
                forall|k: int|
                    0 <= k < i ==> spawned_part(
                        self.map,
                        self.vehicle.kind(),
                        k as u32,
                        #[trigger] self.parts@[old(self).parts@.len() + k],
                    ),
                self.wf(),
                i <= LEVEL_PARTS,
                MIN_ENEMIES + old(self).enemies@.len() <= self.enemies@.len() < MAX_ENEMIES
                    + old(self).enemies@.len(),
                old(self).powerups@.len() <= self.powerups@.len() < MAX_POWERUPS
                    + old(self).powerups@.len(),
                self.parts@.len() == old(self).parts@.len() + i,
                self.same_but_populations(old(self)),
            decreases LEVEL_PARTS - i,
        {
            let ghost before = self.parts@;
            self.spawn_part(i);
            proof {
                assert forall|k: int| 0 <= k < before.len() implies #[trigger] self.parts@[k] == before[k] by {
                    assert(self.parts@.drop_last()[k] == self.parts@[k]);
                }
                assert(self.parts@[old(self).parts@.len() + i] == self.parts@.last());
            }
            i += 1;
        }
    }

    /// A world at level 1, paused before its first frame, with a fresh
    /// player, a helicopter, and a populated map.
    pub fn new() -> (r: Game)
        ensures
            r.wf(),
            r.level == 1,
            r.paused,
            r.score == 0,
            r.timer == LEVEL_1_TIME,
            r.updates == 0,
            r.freeze_counter == 0,
            !r.completed_lvl,
            !r.game_over,
            r.player == Player::new_spec(PLAYER_STARTING_X, PLAYER_STARTING_Y),
            r.vehicle == AnyVehicle::Helicopter(Helicopter::new_spec(VEHICLE_STARTING_X, VEHICLE_STARTING_Y)),
            MIN_ENEMIES <= r.enemies@.len() < MAX_ENEMIES,
            r.powerups@.len() < MAX_POWERUPS,
            r.parts@.len() == LEVEL_PARTS,
            r.killed@.len() == 0 && r.activated@.len() == 0 && r.tripped@.len() == 0,
            r.traps@.len() == 0 && r.coll_parts@.len() == 0,
            forall|i: int| 0 <= i < r.enemies@.len() ==> spawned_any_zombie(r.map, #[trigger] r.enemies@[i]),
            forall|i: int| 0 <= i < r.powerups@.len() ==> spawned_any_powerup(r.map, #[trigger] r.powerups@[i]),
            forall|i: int|
                0 <= i < LEVEL_PARTS ==> spawned_part(r.map, r.vehicle.kind(), i as u32, #[trigger] r.parts@[i]),
            fresh_map(r.map, 1),
    {
        let mut game = Game {
            player: Player::new(PLAYER_STARTING_X, PLAYER_STARTING_Y),
            enemies: Vec::new(),
            powerups: Vec::new(),
            traps: Vec::new(),
            killed: Vec::new(),
            activated: Vec::new(),
            tripped: Vec::new(),
            parts: Vec::new(),
            coll_parts: Vec::new(),
            vehicle: AnyVehicle::Helicopter(Helicopter::new(VEHICLE_STARTING_X, VEHICLE_STARTING_Y)),
            map: TileMap::load_map(1),
            paused: true,
            updates: 0,
            level: 1,
            highscore: 0,
            score: 0,
            timer: LEVEL_1_TIME,
            completed_lvl: false,
            freeze_counter: 0,
            alt_control: false,
            game_over: false,
            sounds: Vec::new(),
        };
        let ghost before_parts = game.parts@.len();
        game.populate();
        proof {
            assert forall|i: int| 0 <= i < LEVEL_PARTS implies spawned_part(
                game.map,
                game.vehicle.kind(),
                i as u32,
                #[trigger] game.parts@[i],
            ) by {
                assert(spawned_part(game.map, game.vehicle.kind(), i as u32, game.parts@[before_parts + i]));
            }
        }
        game
    }

    /// Moves on to the next level: a fresh player, a random vehicle, a new
    /// map and new populations; the level starts unpaused.
    pub fn new_level(&mut self)
        requires
            old(self).wf(),
            old(self).level < i32::MAX,
        ensures
            final(self).wf(),
            final(self).level == old(self).level + 1,
            final(self).game_over == old(self).game_over,
            !final(self).paused,
            final(self).updates == 0,
            final(self).freeze_counter == 0,
            final(self).score == old(self).score,
            final(self).timer == old(self).timer,
            final(self).player == Player::new_spec(PLAYER_STARTING_X, PLAYER_STARTING_Y),
            final(self).vehicle.installed() == Set::<u32>::empty(),
            MIN_ENEMIES <= final(self).enemies@.len() < MAX_ENEMIES,
            final(self).powerups@.len() < MAX_POWERUPS,
            final(self).parts@.len() == LEVEL_PARTS,
            final(self).killed@.len() == 0 && final(self).activated@.len() == 0,
            final(self).tripped@.len() == 0 && final(self).traps@.len() == 0,
            final(self).coll_parts@.len() == 0,
            forall|i: int| 0 <= i < final(self).enemies@.len() ==> spawned_any_zombie(final(self).map, #[trigger] final(self).enemies@[i]),
            forall|i: int| 0 <= i < final(self).powerups@.len() ==> spawned_any_powerup(final(self).map, #[trigger] final(self).powerups@[i]),
            forall|i: int|
                0 <= i < LEVEL_PARTS ==> spawned_part(final(self).map, final(self).vehicle.kind(), i as u32, #[trigger] final(self).parts@[i]),
            fresh_map(final(self).map, final(self).level),
            final(self).completed_lvl == old(self).completed_lvl,
    {
        self.level = self.level + 1;
        self.player = Player::new(PLAYER_STARTING_X, PLAYER_STARTING_Y);
        let vehicle_num = random_in(0, 2);
        self.vehicle = if vehicle_num == 0 {
            AnyVehicle::Helicopter(Helicopter::new(VEHICLE_STARTING_X, VEHICLE_STARTING_Y))
        } else {
            AnyVehicle::Car(Car::new(VEHICLE_STARTING_X, VEHICLE_STARTING_Y))
        };
        self.enemies = Vec::new();
        self.powerups = Vec::new();
        self.traps = Vec::new();
        self.killed = Vec::new();
        self.activated = Vec::new();
        self.tripped = Vec::new();
        self.coll_parts = Vec::new();
        self.parts = Vec::new();
        self.map = TileMap::load_map(self.level);
        let ghost before_parts = self.parts@.len();
        self.populate();
        proof {
            assert forall|i: int| 0 <= i < LEVEL_PARTS implies spawned_part(
                self.map,
                self.vehicle.kind(),
                i as u32,
                #[trigger] self.parts@[i],
            ) by {
                assert(spawned_part(self.map, self.vehicle.kind(), i as u32, self.parts@[before_parts + i]));
            }
        }
        self.paused = false;
        self.updates = 0;
        self.freeze_counter = 0;
    }

    /// Starts the run over from level 1, paused, with no score and a full
    /// timer.
    pub fn restart(&mut self)
        requires
            old(self).wf(),
        ensures
            final(self).wf(),
            final(self).level == 1,
            final(self).paused,
            final(self).game_over == old(self).game_over,
            final(self).score == 0,
            final(self).timer == LEVEL_1_TIME,
            final(self).updates == 0,
            final(self).player == Player::new_spec(PLAYER_STARTING_X, PLAYER_STARTING_Y),
            final(self).killed@.len() == 0,
            forall|i: int| 0 <= i < final(self).enemies@.len() ==> spawned_any_zombie(final(self).map, #[trigger] final(self).enemies@[i]),
            forall|i: int| 0 <= i < final(self).powerups@.len() ==> spawned_any_powerup(final(self).map, #[trigger] final(self).powerups@[i]),
            forall|i: int|
                0 <= i < LEVEL_PARTS ==> spawned_part(final(self).map, final(self).vehicle.kind(), i as u32, #[trigger] final(self).parts@[i]),
            fresh_map(final(self).map, 1),
            final(self).completed_lvl == old(self).completed_lvl,
    {
        self.level = 0;
        self.new_level();
        self.paused = true;
        self.score = 0;
        self.timer = LEVEL_1_TIME;
    }
    /// The player's damage box.
    pub open spec fn player_box(&self) -> Rectangle {
        self.player.character.damage_rect_spec()
    }

    /// Unless frozen, every zombie steers toward the player's follow point
    /// and moves one frame; while frozen the zombies stand still and the
    /// freeze runs down one frame.
    pub fn advance_zombies(&mut self, elapsed_time: Millis)
        requires
            old(self).wf(),
            0 <= elapsed_time.0 <= MAX_FRAME_MILLIS,
        ensures
            final(self).wf(),
            final(self).enemies@.len() == old(self).enemies@.len(),
            old(self).freeze_counter > 0 ==> final(self).enemies@ == old(self).enemies@
                && final(self).freeze_counter == old(self).freeze_counter - 1,
            old(self).freeze_counter == 0 ==> final(self).freeze_counter == 0 && forall|i: int|
                0 <= i < old(self).enemies@.len() ==> #[trigger] chased_and_moved(
                    old(self).enemies@[i],
                    old(self).player.follow_x as int,
                    old(self).player.follow_y as int,
                    elapsed_time,
                    old(self).map,
                    final(self).enemies@[i],
                ),
            final(self).player == old(self).player,
            final(self).map == old(self).map,
            final(self).killed@ == old(self).killed@,
            final(self).powerups@ == old(self).powerups@,
            final(self).traps@ == old(self).traps@,
            final(self).parts@ == old(self).parts@,
            final(self).coll_parts@ == old(self).coll_parts@,
            final(self).timer == old(self).timer,
            final(self).updates == old(self).updates,
            final(self).vehicle == old(self).vehicle,
            final(self).game_over == old(self).game_over,
            final(self).player == old(self).player,
            final(self).powerups@ == old(self).powerups@,
            final(self).traps@ == old(self).traps@,
            final(self).killed@ == old(self).killed@,
            final(self).activated@ == old(self).activated@,
            final(self).tripped@ == old(self).tripped@,
            final(self).parts@ == old(self).parts@,
            final(self).coll_parts@ == old(self).coll_parts@,
            final(self).vehicle == old(self).vehicle,
            final(self).map == old(self).map,
            final(self).paused == old(self).paused,
            final(self).updates == old(self).updates,
            final(self).level == old(self).level,
            final(self).highscore == old(self).highscore,
            final(self).score == old(self).score,
            final(self).timer == old(self).timer,
            final(self).completed_lvl == old(self).completed_lvl,
            final(self).alt_control == old(self).alt_control,
            final(self).game_over == old(self).game_over,
    {
        if self.freeze_counter == 0 {
            let (player_x, player_y) = self.player.get_follow_coords();
            advance_all(&mut self.enemies, player_x, player_y, elapsed_time, &self.map);
        } else {
            self.freeze_counter = self.freeze_counter - 1;
        }
    }
    /// Meets the first zombie touching the player, unless the player is
    /// immune. Holding a bat or teleporting, the player kills it: it moves
    /// to the killed list, the bat is used up and the timer gains
    /// `KILL_BONUS`. Otherwise the contact is reported, so that damage can
    /// be applied, and nothing changes here.
    pub fn resolve_zombie_contact(&mut self) -> (collided: bool)
        requires
            old(self).wf(),
        ensures
            zombie_contact_met(*old(self), *final(self), collided),
    {
        if self.player.is_immune() {
            return false;
        }
        let pb = self.player.character.damage_rectangle();
        match first_enemy_hit(&self.enemies, &pb) {
            Some(i) => {
                if self.player.has_bat() || self.player.is_teleporting() {
                    kill_enemy_at(&mut self.enemies, &mut self.killed, i);
                    self.sounds.push(SOUND_HIT);
                    self.player.take_bat();
                    self.timer = add_clamped(self.timer, KILL_BONUS);
                    false
                } else {
                    true
                }
            },
            None => false,
        }
    }

    /// With empty hands, the player picks up the first part it touches.
    pub fn collect_part(&mut self)
        requires
            old(self).wf(),
        ensures
            part_collected(*old(self), *final(self)),
    {
        if self.coll_parts.len() == 0 {
            let pb = self.player.character.damage_rectangle();
            match first_part_hit(&self.parts, &pb) {
                Some(i) => {
                    let part = self.parts.remove(i);
                    self.sounds.push(SOUND_PART);
                    self.coll_parts.push(part);
                    proof {
                        assert forall|j: int| 0 <= j < self.parts@.len() implies (#[trigger] self.parts@[j]).body().wf() by {
                            if j >= i {
                                assert(self.parts@[j] == old(self).parts@[j + 1]);
                            }
                        }
                        assert forall|j: int| 0 <= j < self.coll_parts@.len() implies (#[trigger] self.coll_parts@[j]).body().wf() by {
                            if j < old(self).coll_parts@.len() {
                                assert(self.coll_parts@[j] == old(self).coll_parts@[j]);
                            }
                        }
                    }
                },
                None => {},
            }
        }
    }

    /// Touching the vehicle, the player installs the part it carries (the
    /// last one picked up).
    pub fn install_part(&mut self)
        requires
            old(self).wf(),
        ensures
            part_installed(*old(self), *final(self)),
    {
        let pb = self.player.character.damage_rectangle();
        if self.vehicle.damage_rectangle().collides_with(&pb) {
            match self.coll_parts.pop() {
                Some(part) => {
                    self.vehicle.add_part(part.part_type());
                    proof {
                        assert forall|j: int| 0 <= j < self.coll_parts@.len() implies (#[trigger] self.coll_parts@[j]).body().wf() by {
                            assert(self.coll_parts@[j] == old(self).coll_parts@[j]);
                        }
                    }
                },
                None => {},
            }
        }
    }
    /// Applies the pickup at `index` (removing it from the world) with the
    /// chances already drawn: `victim` is the zombie a kill-zombie pickup
    /// takes, and `rolls` holds one draw in `1 ..= 10` per zombie for a
    /// nuke's bad side.
    pub fn apply_powerup_with(&mut self, index: usize, victim: usize, rolls: &Vec<u32>)
        requires
            old(self).wf(),
            index < old(self).powerups@.len(),
            old(self).enemies@.len() > 0 ==> victim < old(self).enemies@.len(),
            rolls@.len() == old(self).enemies@.len(),
        ensures
            applied_with(*old(self), index, victim, rolls@, *final(self)),
            final(self).game_over == old(self).game_over,
            final(self).player.health == old(self).player.health,
            final(self).player.character.elapsed_time == old(self).player.character.elapsed_time,
    {
        let powerup = self.powerups.remove(index);
        proof {
            assert(powerup.body().wf());
            assert forall|j: int| 0 <= j < self.powerups@.len() implies (#[trigger] self.powerups@[j]).body().wf() by {
                if j >= index {
                    assert(self.powerups@[j] == old(self).powerups@[j + 1]);
                }
            }
        }
        let kind = powerup.get_type();
        if kind == 1 {
            self.sounds.push(SOUND_POWERUP);
            self.player.give_bat();
        } else if kind == 2 {
            if self.enemies.len() > 0 {
                self.sounds.push(SOUND_KILL_ZOMBIE);
                kill_enemy_at(&mut self.enemies, &mut self.killed, victim);
                self.activated.push(powerup);
            }
            self.timer = add_clamped(self.timer, KILL_BONUS);
        } else if kind == 3 {
            self.sounds.push(SOUND_WIPE_OUT);
            cull(&mut self.enemies, &mut self.killed, &self.player.character, &self.map, true);
            let bonus = capped_count(self.killed.len()) * WIPE_OUT_BONUS;
            self.timer = add_clamped(self.timer, bonus);
            let mut started = powerup;
            started.set_timer();
            self.activated.push(started);
        } else if kind == 4 {
            self.sounds.push(SOUND_POWERUP);
            self.freeze_counter = FREEZE_FRAMES;
        } else if kind == 5 {
            self.sounds.push(SOUND_POWERUP);
            self.player.character.map_x = self.vehicle.get_map_x();
            self.player.character.map_y = clamp_position(self.vehicle.get_map_y() + 2 * TILE);
            self.player.start_teleport_timer();
            let mut started = powerup;
            started.set_timer();
            self.activated.push(started);
        } else if powerup.is_debuff() {
            self.sounds.push(SOUND_DEBUFF);
            crazify(&mut self.enemies, rolls);
        } else {
            self.sounds.push(SOUND_NUKE);
            cull(&mut self.enemies, &mut self.killed, &self.player.character, &self.map, false);
            let mut started = powerup;
            started.set_timer();
            self.activated.push(started);
            let bonus = capped_count(self.killed.len()) * NUKE_BONUS;
            self.timer = add_clamped(self.timer, bonus);
        }
        proof {
            assert forall|j: int| 0 <= j < self.activated@.len() implies (#[trigger] self.activated@[j]).body().wf() by {
                if j < old(self).activated@.len() {
                    assert(self.activated@[j] == old(self).activated@[j]);
                }
            }
        }
    }

    /// Applies the pickup at `index`, drawing the chances it needs.
    pub fn apply_powerup(&mut self, index: usize)
        requires
            old(self).wf(),
            index < old(self).powerups@.len(),
        ensures
            final(self).wf(),
            final(self).powerups@ == old(self).powerups@.remove(index as int),
            exists|victim: usize, rolls: Seq<u32>|
                rolls.len() == old(self).enemies@.len() && (old(self).enemies@.len() > 0 ==> victim
                    < old(self).enemies@.len()) && (forall|i: int|
                    0 <= i < rolls.len() ==> 1 <= #[trigger] rolls[i] <= 10) && #[trigger] applied_with(
                    *old(self),
                    index,
                    victim,
                    rolls,
                    *final(self),
                ),
            final(self).game_over == old(self).game_over,
            final(self).player.health == old(self).player.health,
            final(self).player.character.elapsed_time == old(self).player.character.elapsed_time,
    {
        let n = self.enemies.len();
        let victim: usize = if n > 0 && n <= u32::MAX as usize {
            random_in(0, n as u32) as usize
        } else {
            0
        };
        let mut rolls: Vec<u32> = Vec::new();
        let mut i: usize = 0;
        while i < n
            invariant
                i <= n,
                rolls@.len() == i,
                forall|j: int| 0 <= j < i ==> 1 <= #[trigger] rolls@[j] <= 10,
            decreases n - i,
        {
            rolls.push(random_in(1, 11));
            i += 1;
        }
        self.apply_powerup_with(index, victim, &rolls);
    }
    /// Springs the trap at `index`: it leaves the world and joins the
    /// sprung traps with its animation started.
    pub fn activate_trap(&mut self, index: usize)
        requires
            old(self).wf(),
            index < old(self).traps@.len(),
        ensures
            final(self).wf(),
            final(self).traps@ == old(self).traps@.remove(index as int),
            final(self).tripped@ == old(self).tripped@.push(
                old(self).traps@[index as int].with_timer(crate::traps::BEAR_TRAP_TIMER),
            ),
            final(self).player == old(self).player,
            final(self).enemies@ == old(self).enemies@,
            final(self).killed@ == old(self).killed@,
            final(self).timer == old(self).timer,
            final(self).updates == old(self).updates,
            final(self).map == old(self).map,
            final(self).vehicle == old(self).vehicle,
            final(self).game_over == old(self).game_over,
            final(self).player == old(self).player,
            final(self).enemies@ == old(self).enemies@,
            final(self).powerups@ == old(self).powerups@,
            final(self).killed@ == old(self).killed@,
            final(self).activated@ == old(self).activated@,
            final(self).parts@ == old(self).parts@,
            final(self).coll_parts@ == old(self).coll_parts@,
            final(self).vehicle == old(self).vehicle,
            final(self).map == old(self).map,
            final(self).paused == old(self).paused,
            final(self).updates == old(self).updates,
            final(self).level == old(self).level,
            final(self).highscore == old(self).highscore,
            final(self).score == old(self).score,
            final(self).timer == old(self).timer,
            final(self).completed_lvl == old(self).completed_lvl,
            final(self).freeze_counter == old(self).freeze_counter,
            final(self).alt_control == old(self).alt_control,
            final(self).game_over == old(self).game_over,
    {
        let mut trap = self.traps.remove(index);
        self.sounds.push(SOUND_TRAP);
        trap.set_timer();
        self.tripped.push(trap);
        proof {
            assert forall|j: int| 0 <= j < self.traps@.len() implies (#[trigger] self.traps@[j]).body().wf() by {
                if j >= index {
                    assert(self.traps@[j] == old(self).traps@[j + 1]);
                }
            }
            assert forall|j: int| 0 <= j < self.tripped@.len() implies (#[trigger] self.tripped@[j]).body().wf() by {
                if j < old(self).tripped@.len() {
                    assert(self.tripped@[j] == old(self).tripped@[j]);
                }
            }
        }
    }

    /// Checks the traps in order: the first one the player touches, or
    /// the first one a zombie touches (that zombie dies), springs. Reports
    /// whether the player stepped in it.
    pub fn check_traps(&mut self) -> (player_hit: bool)
        requires
            old(self).wf(),
        ensures
            traps_checked(*old(self), *final(self), player_hit),
    {
        let pb = self.player.character.damage_rectangle();
        let mut t: usize = 0;
        while t < self.traps.len()
            invariant
                *self == *old(self),
                self.wf(),
                t <= self.traps@.len(),
                pb == self.player_box(),
                forall|u: int| 0 <= u < t ==> !#[trigger] trap_touched(*old(self), u),
            decreases self.traps@.len() - t,
        {
            let tr = self.traps[t].damage_rectangle();
            if tr.collides_with_player(&pb) {
                proof {
                    assert(trap_touched(*old(self), t as int));
                    assert forall|t2: int|
                        0 <= t2 < old(self).traps@.len() && trap_touched(*old(self), t2) && (forall|u: int|
                            0 <= u < t2 ==> !#[trigger] trap_touched(*old(self), u)) implies t2 == t as int by {
                        if t2 > t as int {
                            assert(!trap_touched(*old(self), t as int));
                        }
                    }
                }
                self.activate_trap(t);
                return true;
            }
            match first_enemy_in_trap(&self.enemies, &tr) {
                Some(i) => {
                    proof {
                        assert(old(self).enemies@[i as int].body().damage_rect_spec().overlaps(tr));
                    }
                    proof {
                        assert(trap_touched(*old(self), t as int));
                        assert forall|t2: int|
                            0 <= t2 < old(self).traps@.len() && trap_touched(*old(self), t2) && (forall|u: int|
                                0 <= u < t2 ==> !#[trigger] trap_touched(*old(self), u)) implies t2 == t as int by {
                            if t2 > t as int {
                                assert(!trap_touched(*old(self), t as int));
                            }
                        }
                    }
                    kill_enemy_at(&mut self.enemies, &mut self.killed, i);
                    self.activate_trap(t);
                    return false;
                },
                None => {},
            }
            proof {
                assert(!trap_touched(*old(self), t as int));
            }
            t += 1;
        }
        false
    }

    /// A hit from a zombie or a trap costs a point of health and starts the
    /// immunity window; the last point ends the run, which restarts.
    pub fn apply_damage(&mut self, hit: bool)
        requires
            old(self).wf(),
        ensures
            damage_applied(*old(self), *final(self), hit),
    {
        if hit {
            self.sounds.push(SOUND_HIT);
            if self.player.get_health() > 1 {
                self.player.hit_player();
                self.player.start_immunity();
            } else {
                self.player.character.kill_character();
                self.game_over = true;
                self.restart();
            }
        }
    }

    /// Every `CLOUD_SPAWN_INTERVAL` frames (never on the first), a new
    /// cloud zombie is spawned at the wander target of the first cloud
    /// zombie in the world, if there is one.
    pub fn breed_clouds(&mut self)
        requires
            old(self).wf(),
        ensures
            clouds_bred(*old(self), *final(self)),
    {
        if self.updates != 0 && self.updates % CLOUD_SPAWN_INTERVAL == 0 {
            let mut i: usize = 0;
            while i < self.enemies.len()
                invariant
                    *self == *old(self),
                    self.wf(),
                    self.updates != 0 && self.updates % CLOUD_SPAWN_INTERVAL == 0,
                    i <= self.enemies@.len(),
                    forall|j: int| 0 <= j < i ==> (#[trigger] self.enemies@[j]).kind() != CLOUD_TYPE,
                decreases self.enemies@.len() - i,
            {
                if self.enemies[i].zombie_type() == CLOUD_TYPE {
                    assert(old(self).enemies@[i as int].kind() == CLOUD_TYPE);
                    assert(old(self).updates != 0 && old(self).updates % CLOUD_SPAWN_INTERVAL == 0);
                    assert(exists|k: int|
                        0 <= k < old(self).enemies@.len() && (#[trigger] old(self).enemies@[k]).kind()
                            == CLOUD_TYPE);
                    let (x, y) = self.enemies[i].get_target();
                    self.spawn_zombie(4, Some((x, y)));
                    return;
                }
                i += 1;
            }
            assert(self.enemies@ == old(self).enemies@);
            assert(forall|j: int|
                0 <= j < old(self).enemies@.len() ==> (#[trigger] old(self).enemies@[j]).kind()
                    != CLOUD_TYPE);
        }
    }

    /// The movement half of a frame: zombies (unless frozen), the player
    /// and the page, the dying zombies, the pickups' debuff flags (every
    /// `DEBUFF_INTERVAL` frames) and the vehicle.
    pub fn advance_world(&mut self, elapsed_time: Millis)
        requires
            old(self).wf(),
            0 <= elapsed_time.0 <= MAX_FRAME_MILLIS,
        ensures
            world_advanced(*old(self), *final(self), elapsed_time),
    {
        self.map.update();
        self.advance_zombies(elapsed_time);
        self.player.update(elapsed_time, &self.map);
        let cx = self.player.character.map_center_x();
        let cy = self.player.character.map_center_y();
        self.map.set_page(cx, cy);
        move_all(&mut self.killed, elapsed_time, &self.map);
        if self.updates % DEBUFF_INTERVAL == 0 {
            toggle_all(&mut self.powerups);
        }
        self.vehicle.update(elapsed_time);
    }

    /// With every part installed, the level is complete: its points are
    /// awarded and the timer extended (see `set_score_and_timer`).
    pub fn complete_level(&mut self)
        requires
            old(self).wf(),
        ensures
            level_checked(*old(self), *final(self)),
    {
        if self.vehicle.is_built() {
            self.set_score_and_timer();
            self.completed_lvl = true;
        }
    }

    /// When the timer has run out, the run ends and starts over.
    pub fn check_clock(&mut self)
        requires
            old(self).wf(),
        ensures
            clock_checked(*old(self), *final(self)),
    {
        if self.timer == 0 {
            self.game_over = true;
            self.restart();
        }
    }

    /// The pairwise contacts of a frame: zombie contact, parts, the
    /// vehicle, pickups and traps. Reports whether the player was hit by an
    /// unarmed zombie contact or a trap.
    pub fn resolve_contacts(&mut self) -> (hit: bool)
        requires
            old(self).wf(),
        ensures
            final(self).wf(),
            contacts_resolved(*old(self), *final(self), hit),
    {
        let collided = self.resolve_zombie_contact();
        let ghost g1 = *self;
        self.collect_part();
        let ghost g2 = *self;
        self.install_part();
        let ghost g3 = *self;
        let pb = self.player.character.damage_rectangle();
        match first_powerup_hit(&self.powerups, &pb) {
            Some(i) => {
                self.apply_powerup(i);
                proof {
                    assert(g3.powerups@[i as int].body().damage_rect_spec().overlaps(pb));
                    assert forall|k: int|
                        0 <= k < g3.powerups@.len() && g3.powerups@[k].body().damage_rect_spec().overlaps(pb) && (forall|j: int|
                            0 <= j < k ==> !(#[trigger] g3.powerups@[j]).body().damage_rect_spec().overlaps(pb)) implies k
                        == i as int by {
                        if k > i as int {
                            assert(g3.powerups@[i as int].body().damage_rect_spec().overlaps(pb));
                        }
                    }
                    assert(pb == g3.player_box());
                    assert(exists|victim: usize, rolls: Seq<u32>|
                        rolls.len() == g3.enemies@.len() && (g3.enemies@.len() > 0 ==> victim < g3.enemies@.len())
                            && (forall|k: int| 0 <= k < rolls.len() ==> 1 <= #[trigger] rolls[k] <= 10)
                            && #[trigger] applied_with(g3, i, victim, rolls, *self));
                    assert forall|k: int|
                        #![trigger g3.powerups@[k]]
                        0 <= k < g3.powerups@.len() && g3.powerups@[k].body().damage_rect_spec().overlaps(pb) && (forall|j: int|
                            0 <= j < k ==> !(#[trigger] g3.powerups@[j]).body().damage_rect_spec().overlaps(pb)) implies exists|
                        victim: usize,
                        rolls: Seq<u32>,
                    |
                        rolls.len() == g3.enemies@.len() && (g3.enemies@.len() > 0 ==> victim < g3.enemies@.len())
                            && (forall|m: int| 0 <= m < rolls.len() ==> 1 <= #[trigger] rolls[m] <= 10)
                            && #[trigger] applied_with(g3, k as usize, victim, rolls, *self) by {
                        assert(k == i as int);
                        assert(k as usize == i);
                    }
                    assert(pickup_taken(g3, *self));
                }
            },
            None => {
                assert(same_state(*self, g3));
                assert(pickup_taken(g3, *self));
            },
        }
        let ghost g4 = *self;
        assert(pickup_taken(g3, g4));
        let trap_hit = self.check_traps();
        assert(zombie_contact_met(*old(self), g1, collided) && part_collected(g1, g2) && part_installed(g2, g3)
            && pickup_taken(g3, g4) && traps_checked(g4, *self, trap_hit));
        proof {
            reveal(contacts_resolved);
        }
        collided || trap_hit
    }

    /// The interaction half of a frame: contacts, level completion, the
    /// clock, damage, and cloud breeding.
    pub fn interact(&mut self)
        requires
            old(self).wf(),
        ensures
            final(self).wf(),
            interacted(*old(self), *final(self)),
    {
        let hit = self.resolve_contacts();
        let ghost g1 = *self;
        self.complete_level();
        let ghost g2 = *self;
        self.check_clock();
        let ghost g3 = *self;
        self.apply_damage(hit);
        let ghost g4 = *self;
        self.breed_clouds();
        assert(contacts_resolved(*old(self), g1, hit) && level_checked(g1, g2) && clock_checked(g2, g3)
            && damage_applied(g3, g4, hit) && clouds_bred(g4, *self));
        proof {
            reveal(interacted);
        }
    }

    /// One frame of the world: movement, then interactions.
    pub fn update(&mut self, elapsed_time: Millis)
        requires
            old(self).wf(),
            0 <= elapsed_time.0 <= MAX_FRAME_MILLIS,
        ensures
            final(self).wf(),
            frame_updated(*old(self), *final(self), elapsed_time),
    {
        self.advance_world(elapsed_time);
        let ghost g = *self;
        self.interact();
        assert(world_advanced(*old(self), g, elapsed_time) && interacted(g, *self));
        proof {
            reveal(frame_updated);
        }
    }

    /// Polls, once, the countdowns of the dying zombies, the triggered
    /// pickups and the sprung traps, dropping those that ran out.
    pub fn retire_finished(&mut self)
        requires
            old(self).wf(),
        ensures
            animations_retired(*old(self), *final(self)),
    {
        retire_killed(&mut self.killed);
        retire_activated(&mut self.activated);
        retire_tripped(&mut self.tripped);
    }

    /// The bookkeeping that closes a frame: from the second frame on, the
    /// finished animations are retired; the timer runs down and the frame
    /// counter advances.
    pub fn finish_frame(&mut self)
        requires
            old(self).wf(),
        ensures
            frame_finished(*old(self), *final(self)),
    {
        if self.updates != 0 {
            self.retire_finished();
        }
        self.timer = add_clamped(self.timer, -1);
        if self.updates < i32::MAX {
            self.updates = self.updates + 1;
        }
    }

    /// One tick of the frame loop with the measured frame time: unless
    /// paused, the world advances by the measured time clamped to
    /// `0 ..= MAX_FRAME_MILLIS` and the frame is closed (see
    /// `finish_frame`); while paused only the frame counter advances.
    pub fn step_frame(&mut self, measured: Millis)
        requires
            old(self).wf(),
        ensures
            final(self).wf(),
            old(self).paused ==> (final(self).player == old(self).player &&
final(self).enemies@ == old(self).enemies@ &&
final(self).powerups@ == old(self).powerups@ &&
final(self).traps@ == old(self).traps@ &&
final(self).killed@ == old(self).killed@ &&
final(self).activated@ == old(self).activated@ &&
final(self).tripped@ == old(self).tripped@ &&
final(self).parts@ == old(self).parts@ &&
final(self).coll_parts@ == old(self).coll_parts@ &&
final(self).vehicle == old(self).vehicle &&
final(self).map == old(self).map &&
final(self).paused == old(self).paused &&
final(self).level == old(self).level &&
final(self).highscore == old(self).highscore &&
final(self).score == old(self).score &&
final(self).timer == old(self).timer &&
final(self).completed_lvl == old(self).completed_lvl &&
final(self).freeze_counter == old(self).freeze_counter &&
final(self).alt_control == old(self).alt_control &&
final(self).game_over == old(self).game_over),
            old(self).paused ==> final(self).updates == next_count(old(self).updates),
            !old(self).paused ==> exists|g: Game|
                #![trigger frame_updated(*old(self), g, Millis(clamped_frame_spec(measured.0 as int) as i64))]
                frame_updated(*old(self), g, Millis(clamped_frame_spec(measured.0 as int) as i64))
                    && frame_finished(g, *final(self)),
    {
        let elapsed = clamp_frame_time(measured);
        if !self.paused {
            self.update(elapsed);
            let ghost g = *self;
            self.finish_frame();
            assert(elapsed == Millis(clamped_frame_spec(measured.0 as int) as i64));
            assert(frame_updated(*old(self), g, elapsed) && frame_finished(g, *self));
        } else if self.updates < i32::MAX {
            self.updates = self.updates + 1;
        }
    }

    /// Applies one frame of input: the pause and control-scheme toggles,
    /// then the movement intents (letting go with the alternative scheme
    /// stops the player dead).
    pub fn apply_input(&mut self, input: &Intents)
        requires
            old(self).wf(),
        ensures
            final(self).wf(),
            final(self).paused == (old(self).paused != input.pause),
            final(self).alt_control == (old(self).alt_control != input.alt_control),
            final(self).player.character.accel_x == horizontal_intent(*input),
            final(self).player.character.accel_y == vertical_intent(
                *input,
                old(self).player.character.accel_y,
            ),
            final(self).player.character.map_x == old(self).player.character.map_x,
            final(self).player.character.map_y == old(self).player.character.map_y,
            final(self).player.health == old(self).player.health,
            final(self).enemies@ == old(self).enemies@,
    {
        if input.pause {
            self.paused = !self.paused;
        }
        if input.alt_control {
            self.alt_control = !self.alt_control;
        }
        let hard = self.alt_control;
        steer_player(&mut self.player, input, hard);
    }

    /// One frame of the level-complete cinematic: zombies keep moving
    /// (frozen or not) and the vehicle animates.
    pub fn update_cinematic(&mut self, elapsed_time: Millis)
        requires
            old(self).wf(),
            0 <= elapsed_time.0 <= MAX_FRAME_MILLIS,
        ensures
            final(self).wf(),
            final(self).enemies@.len() == old(self).enemies@.len(),
            forall|i: int|
                0 <= i < old(self).enemies@.len() ==> #[trigger] chased_and_moved(
                    old(self).enemies@[i],
                    old(self).player.follow_x as int,
                    old(self).player.follow_y as int,
                    elapsed_time,
                    old(self).map,
                    final(self).enemies@[i],
                ),
            final(self).player == old(self).player,
            final(self).vehicle == old(self).vehicle,
            final(self).level == old(self).level,
            final(self).completed_lvl == old(self).completed_lvl,
    {
        self.map.update();
        let (player_x, player_y) = self.player.get_follow_coords();
        advance_all(&mut self.enemies, player_x, player_y, elapsed_time, &self.map);
        self.vehicle.update(elapsed_time);
    }
    /// One frame of the level-complete cinematic, `counter` frames before
    /// its end (negative once it has ended). Once it has ended and the
    /// player asks to go on, the next level starts (the run starts over if
    /// no level number is left). Otherwise the zombies move, the vehicle
    /// leaves while frames remain, and the completion screen shows after.
    /// Returns what to show and the counter for the next frame.
    pub fn cinematic_frame(&mut self, counter: i32, proceed: bool, measured: Millis) -> (r: (
        CinematicStep,
        i32,
    ))
        requires
            old(self).wf(),
        ensures
            final(self).wf(),
            proceed && counter < 0 ==> r.0 == CinematicStep::NextLevel && !final(self).completed_lvl && (
            old(self).level < i32::MAX ==> final(self).level == old(self).level + 1 && !final(self).paused) && (
            old(self).level == i32::MAX ==> final(self).level == 1),
            !(proceed && counter < 0) ==> {
                &&& final(self).enemies@.len() == old(self).enemies@.len()
                &&& forall|i: int|
                    0 <= i < old(self).enemies@.len() ==> #[trigger] chased_and_moved(
                        old(self).enemies@[i],
                        old(self).player.follow_x as int,
                        old(self).player.follow_y as int,
                        Millis(clamped_frame_spec(measured.0 as int) as i64),
                        old(self).map,
                        final(self).enemies@[i],
                    )
                &&& final(self).player == old(self).player
                &&& final(self).level == old(self).level
                &&& final(self).completed_lvl == old(self).completed_lvl
                &&& counter > 0 ==> r.0 == CinematicStep::Playing && final(self).vehicle.installed()
                    == old(self).vehicle.installed() && final(self).vehicle.map_pos() == old(self).vehicle.map_pos()
                &&& counter <= 0 ==> r.0 == CinematicStep::Completed && final(self).vehicle == old(self).vehicle
                &&& r.1 == (if counter > i32::MIN {
                    counter - 1
                } else {
                    counter as int
                })
            },
    {
        if proceed && counter < 0 {
            self.completed_lvl = false;
            if self.level < i32::MAX {
                self.new_level();
            } else {
                self.restart();
            }
            return (CinematicStep::NextLevel, counter);
        }
        let elapsed = clamp_frame_time(measured);
        self.update_cinematic(elapsed);
        let next = if counter > i32::MIN {
            counter - 1
        } else {
            counter
        };
        if counter > 0 {
            self.vehicle.update_for_cinematic();
            (CinematicStep::Playing, next)
        } else {
            (CinematicStep::Completed, next)
        }
    }
}

} // verus!
