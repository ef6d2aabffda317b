//! Pickups that, once touched, apply an effect and may play an animation
//! before they are removed.
use vstd::prelude::*;

use crate::common::{countdown_step, Character, POSITION_LIMIT};
use crate::rect::Rectangle;
use crate::sprite::{frame_at, SpriteFrame};
use crate::units::Millis;

verus! {

pub const CRICKET_BAT_TYPE: i32 = 1;
pub const KILL_ZOMBIE_TYPE: i32 = 2;
pub const WIPE_OUT_TYPE: i32 = 3;
pub const FREEZE_TYPE: i32 = 4;
pub const TELEPORT_TYPE: i32 = 5;
pub const NUKE_TYPE: i32 = 6;

/// What the frame scheduler needs of a pickup.
pub trait Powerup: Sized {
    /// The pickup's actor state.
    spec fn body(&self) -> Character;

    spec fn kind(&self) -> i32;

    /// Whether the pickup currently shows its bad side.
    spec fn debuff(&self) -> bool;

    /// Animation frames left once triggered.
    spec fn timer(&self) -> i32;

    /// Animation frames the pickup plays once triggered.
    spec fn timer_length(&self) -> i32;

    /// The same pickup with another debuff flag.
    spec fn with_debuff(&self, d: bool) -> Self;

    /// The same pickup with another animation timer.
    spec fn with_timer(&self, t: i32) -> Self;

    /// Pickups lie still; a frame changes nothing.
    fn update(&mut self, elapsed_time: Millis)
        ensures
            *final(self) == *old(self),
    ;

    fn damage_rectangle(&self) -> (r: Rectangle)
        requires
            self.body().wf(),
        ensures
            r == self.body().damage_rect_spec(),
    ;

    fn get_type(&self) -> (r: i32)
        ensures
            r == self.kind(),
    ;

    /// Flips between the good and the bad side.
    fn toggle_debuff(&mut self)
        ensures
            *final(self) == old(self).with_debuff(!old(self).debuff()),
            final(self).debuff() == !old(self).debuff(),
    ;

    fn is_debuff(&self) -> (r: bool)
        ensures
            r == self.debuff(),
    ;

    /// One poll of the animation countdown: `true` once it has run out,
    /// otherwise one step down.
    fn is_finished(&mut self) -> (r: bool)
        ensures
            r == (old(self).timer() == 0),
            *final(self) == old(self).with_timer(countdown_step(old(self).timer() as int) as i32),
    ;

    /// Starts the animation that plays once the pickup is triggered.
    fn set_timer(&mut self)
        ensures
            *final(self) == old(self).with_timer(old(self).timer_length()),
    ;

    /// Center, in map space.
    fn get_map_x(&self) -> (r: i64)
        requires
            self.body().wf(),
        ensures
            r == self.body().map_center_x_spec(),
    ;

    /// Center, in map space.
    fn get_map_y(&self) -> (r: i64)
        requires
            self.body().wf(),
        ensures
            r == self.body().map_center_y_spec(),
    ;
}

/// Lets the player kill the next zombie it touches.
#[derive(Clone, Copy, Debug, PartialEq, Eq, Structural)]
pub struct CricketBat {
    pub character: Character,
    pub animation_timer: i32,
    pub is_debuff: bool,
}

impl CricketBat {
    /// A pickup lying at `(x, y)`, on its good side.
    pub fn new(x: i64, y: i64) -> (r: CricketBat)
        requires
            -POSITION_LIMIT <= x <= POSITION_LIMIT,
            -POSITION_LIMIT <= y <= POSITION_LIMIT,
        ensures
            r == (CricketBat { character: Character::new_spec(x, y), animation_timer: 0, is_debuff: false }),
            r.character.wf(),
    {
        CricketBat { character: Character::new(x, y), animation_timer: 0, is_debuff: false }
    }

    /// The pickup's sprite on the pickups sheet.
    pub fn load_sprite(&self) -> (r: SpriteFrame)
        ensures
            r.sheet@ == "assets/base/powerups.bmp"@,
            r.tile_x == 4 && r.tile_y == 0 && r.frames == 1,
    {
        frame_at("assets/base/powerups.bmp", 4, 0, 1, 1, 1)
    }
}

impl Powerup for CricketBat {
    open spec fn body(&self) -> Character {
        self.character
    }

    open spec fn kind(&self) -> i32 {
        CRICKET_BAT_TYPE
    }

    open spec fn debuff(&self) -> bool {
        self.is_debuff
    }

    open spec fn timer(&self) -> i32 {
        self.animation_timer
    }

    open spec fn timer_length(&self) -> i32 {
        0
    }

    open spec fn with_debuff(&self, d: bool) -> Self {
        CricketBat { is_debuff: d, ..*self }
    }

    open spec fn with_timer(&self, t: i32) -> Self {
        CricketBat { animation_timer: t, ..*self }
    }

    fn update(&mut self, elapsed_time: Millis) {
    }

    fn damage_rectangle(&self) -> (r: Rectangle) {
        self.character.damage_rectangle()
    }

    fn get_type(&self) -> (r: i32) {
        CRICKET_BAT_TYPE
    }

    fn toggle_debuff(&mut self) {
        self.is_debuff = !self.is_debuff;
    }

    fn is_debuff(&self) -> (r: bool) {
        self.is_debuff
    }

    fn is_finished(&mut self) -> (r: bool) {
        if self.animation_timer == 0 {
            true
        } else {
            if self.animation_timer > 0 {
                self.animation_timer = self.animation_timer - 1;
            }
            false
        }
    }

    fn set_timer(&mut self) {
        self.animation_timer = 0;
    }

    fn get_map_x(&self) -> (r: i64) {
        self.character.map_center_x()
    }

    fn get_map_y(&self) -> (r: i64) {
        self.character.map_center_y()
    }
}

/// Kills one zombie picked at random.
#[derive(Clone, Copy, Debug, PartialEq, Eq, Structural)]
pub struct KillZombie {
    pub character: Character,
    pub animation_timer: i32,
    pub is_debuff: bool,
}

impl KillZombie {
    /// A pickup lying at `(x, y)`, on its good side.
    pub fn new(x: i64, y: i64) -> (r: KillZombie)
        requires
            -POSITION_LIMIT <= x <= POSITION_LIMIT,
            -POSITION_LIMIT <= y <= POSITION_LIMIT,
        ensures
            r == (KillZombie { character: Character::new_spec(x, y), animation_timer: 0, is_debuff: false }),
            r.character.wf(),
    {
        KillZombie { character: Character::new(x, y), animation_timer: 0, is_debuff: false }
    }

    /// The pickup's sprite on the pickups sheet.
    pub fn load_sprite(&self) -> (r: SpriteFrame)
        ensures
            r.sheet@ == "assets/base/powerups.bmp"@,
            r.tile_x == 0 && r.tile_y == 0 && r.frames == 1,
    {
        frame_at("assets/base/powerups.bmp", 0, 0, 1, 1, 1)
    }
}

impl Powerup for KillZombie {
    open spec fn body(&self) -> Character {
        self.character
    }

    open spec fn kind(&self) -> i32 {
        KILL_ZOMBIE_TYPE
    }

    open spec fn debuff(&self) -> bool {
        self.is_debuff
    }

    open spec fn timer(&self) -> i32 {
        self.animation_timer
    }

    open spec fn timer_length(&self) -> i32 {
        1
    }

    open spec fn with_debuff(&self, d: bool) -> Self {
        KillZombie { is_debuff: d, ..*self }
    }

    open spec fn with_timer(&self, t: i32) -> Self {
        KillZombie { animation_timer: t, ..*self }
    }

    fn update(&mut self, elapsed_time: Millis) {
    }

    fn damage_rectangle(&self) -> (r: Rectangle) {
        self.character.damage_rectangle()
    }

    fn get_type(&self) -> (r: i32) {
        KILL_ZOMBIE_TYPE
    }

    fn toggle_debuff(&mut self) {
        self.is_debuff = !self.is_debuff;
    }

    fn is_debuff(&self) -> (r: bool) {
        self.is_debuff
    }

    fn is_finished(&mut self) -> (r: bool) {
        if self.animation_timer == 0 {
            true
        } else {
            if self.animation_timer > 0 {
                self.animation_timer = self.animation_timer - 1;
            }
            false
        }
    }

    fn set_timer(&mut self) {
        self.animation_timer = 1;
    }

    fn get_map_x(&self) -> (r: i64) {
        self.character.map_center_x()
    }

    fn get_map_y(&self) -> (r: i64) {
        self.character.map_center_y()
    }
}

/// Kills every zombie near the player.
#[derive(Clone, Copy, Debug, PartialEq, Eq, Structural)]
pub struct WipeOut {
    pub character: Character,
    pub animation_timer: i32,
    pub is_debuff: bool,
}

impl WipeOut {
    /// A pickup lying at `(x, y)`, on its good side.
    pub fn new(x: i64, y: i64) -> (r: WipeOut)
        requires
            -POSITION_LIMIT <= x <= POSITION_LIMIT,
            -POSITION_LIMIT <= y <= POSITION_LIMIT,
        ensures
            r == (WipeOut { character: Character::new_spec(x, y), animation_timer: 0, is_debuff: false }),
            r.character.wf(),
    {
        WipeOut { character: Character::new(x, y), animation_timer: 0, is_debuff: false }
    }

    /// The pickup's sprite; once triggered, the explosion.
    pub fn load_sprite(&self) -> (r: SpriteFrame)
        ensures
            self.animation_timer > 0 ==> r.sheet@ == "assets/base/explosion.bmp"@ && r.tile_x == 1
                && r.tile_y == 0 && r.frames == 3,
            self.animation_timer <= 0 ==> r.sheet@ == "assets/base/powerups.bmp"@ && r.tile_x == 1
                && r.tile_y == 0 && r.frames == 1,
    {
        if self.animation_timer > 0 {
            frame_at("assets/base/explosion.bmp", 1, 0, 1, 1, 3)
        } else {
            frame_at("assets/base/powerups.bmp", 1, 0, 1, 1, 1)
        }
    }
}

impl Powerup for WipeOut {
    open spec fn body(&self) -> Character {
        self.character
    }

    open spec fn kind(&self) -> i32 {
        WIPE_OUT_TYPE
    }

    open spec fn debuff(&self) -> bool {
        self.is_debuff
    }

    open spec fn timer(&self) -> i32 {
        self.animation_timer
    }

    open spec fn timer_length(&self) -> i32 {
        5
    }

    open spec fn with_debuff(&self, d: bool) -> Self {
        WipeOut { is_debuff: d, ..*self }
    }

    open spec fn with_timer(&self, t: i32) -> Self {
        WipeOut { animation_timer: t, ..*self }
    }

    fn update(&mut self, elapsed_time: Millis) {
    }

    fn damage_rectangle(&self) -> (r: Rectangle) {
        self.character.damage_rectangle()
    }

    fn get_type(&self) -> (r: i32) {
        WIPE_OUT_TYPE
    }

    fn toggle_debuff(&mut self) {
        self.is_debuff = !self.is_debuff;
    }

    fn is_debuff(&self) -> (r: bool) {
        self.is_debuff
    }

    fn is_finished(&mut self) -> (r: bool) {
        if self.animation_timer == 0 {
            true
        } else {
            if self.animation_timer > 0 {
                self.animation_timer = self.animation_timer - 1;
            }
            false
        }
    }

    fn set_timer(&mut self) {
        self.animation_timer = 5;
    }

    fn get_map_x(&self) -> (r: i64) {
        self.character.map_center_x()
    }

    fn get_map_y(&self) -> (r: i64) {
        self.character.map_center_y()
    }
}

/// Stops every zombie for a while.
#[derive(Clone, Copy, Debug, PartialEq, Eq, Structural)]
pub struct Freeze {
    pub character: Character,
    pub animation_timer: i32,
    pub is_debuff: bool,
}

impl Freeze {
    /// A pickup lying at `(x, y)`, on its good side.
    pub fn new(x: i64, y: i64) -> (r: Freeze)
        requires
            -POSITION_LIMIT <= x <= POSITION_LIMIT,
            -POSITION_LIMIT <= y <= POSITION_LIMIT,
        ensures
            r == (Freeze { character: Character::new_spec(x, y), animation_timer: 0, is_debuff: false }),
            r.character.wf(),
    {
        Freeze { character: Character::new(x, y), animation_timer: 0, is_debuff: false }
    }

    /// The pickup's sprite on the pickups sheet.
    pub fn load_sprite(&self) -> (r: SpriteFrame)
        ensures
            r.sheet@ == "assets/base/powerups.bmp"@,
            r.tile_x == 3 && r.tile_y == 0 && r.frames == 1,
    {
        frame_at("assets/base/powerups.bmp", 3, 0, 1, 1, 1)
    }
}

impl Powerup for Freeze {
    open spec fn body(&self) -> Character {
        self.character
    }

    open spec fn kind(&self) -> i32 {
        FREEZE_TYPE
    }

    open spec fn debuff(&self) -> bool {
        self.is_debuff
    }

    open spec fn timer(&self) -> i32 {
        self.animation_timer
    }

    open spec fn timer_length(&self) -> i32 {
        0
    }

    open spec fn with_debuff(&self, d: bool) -> Self {
        Freeze { is_debuff: d, ..*self }
    }

    open spec fn with_timer(&self, t: i32) -> Self {
        Freeze { animation_timer: t, ..*self }
    }

    fn update(&mut self, elapsed_time: Millis) {
    }

    fn damage_rectangle(&self) -> (r: Rectangle) {
        self.character.damage_rectangle()
    }

    fn get_type(&self) -> (r: i32) {
        FREEZE_TYPE
    }

    fn toggle_debuff(&mut self) {
        self.is_debuff = !self.is_debuff;
    }

    fn is_debuff(&self) -> (r: bool) {
        self.is_debuff
    }

    fn is_finished(&mut self) -> (r: bool) {
        if self.animation_timer == 0 {
            true
        } else {
            if self.animation_timer > 0 {
                self.animation_timer = self.animation_timer - 1;
            }
            false
        }
    }

    fn set_timer(&mut self) {
        self.animation_timer = 0;
    }

    fn get_map_x(&self) -> (r: i64) {
        self.character.map_center_x()
    }

    fn get_map_y(&self) -> (r: i64) {
        self.character.map_center_y()
    }
}

/// Carries the player to the vehicle.
#[derive(Clone, Copy, Debug, PartialEq, Eq, Structural)]
pub struct Teleport {
    pub character: Character,
    pub animation_timer: i32,
    pub is_debuff: bool,
}

impl Teleport {
    /// A pickup lying at `(x, y)`, on its good side.
    pub fn new(x: i64, y: i64) -> (r: Teleport)
        requires
            -POSITION_LIMIT <= x <= POSITION_LIMIT,
            -POSITION_LIMIT <= y <= POSITION_LIMIT,
        ensures
            r == (Teleport { character: Character::new_spec(x, y), animation_timer: 0, is_debuff: false }),
            r.character.wf(),
    {
        Teleport { character: Character::new(x, y), animation_timer: 0, is_debuff: false }
    }

    /// The pickup's sprite; once triggered, the teleport flash.
    pub fn load_sprite(&self) -> (r: SpriteFrame)
        ensures
            self.animation_timer > 0 ==> r.sheet@ == "assets/base/teleport.bmp"@ && r.tile_x == 0
                && r.tile_y == 0 && r.frames == 1,
            self.animation_timer <= 0 ==> r.sheet@ == "assets/base/powerups.bmp"@ && r.tile_x == 6
                && r.tile_y == 0 && r.frames == 1,
    {
        if self.animation_timer > 0 {
            frame_at("assets/base/teleport.bmp", 0, 0, 1, 1, 1)
        } else {
            frame_at("assets/base/powerups.bmp", 6, 0, 1, 1, 1)
        }
    }
}

impl Powerup for Teleport {
    open spec fn body(&self) -> Character {
        self.character
    }

    open spec fn kind(&self) -> i32 {
        TELEPORT_TYPE
    }

    open spec fn debuff(&self) -> bool {
        self.is_debuff
    }

    open spec fn timer(&self) -> i32 {
        self.animation_timer
    }

    open spec fn timer_length(&self) -> i32 {
        4
    }

    open spec fn with_debuff(&self, d: bool) -> Self {
        Teleport { is_debuff: d, ..*self }
    }

    open spec fn with_timer(&self, t: i32) -> Self {
        Teleport { animation_timer: t, ..*self }
    }

    fn update(&mut self, elapsed_time: Millis) {
    }

    fn damage_rectangle(&self) -> (r: Rectangle) {
        self.character.damage_rectangle()
    }

    fn get_type(&self) -> (r: i32) {
        TELEPORT_TYPE
    }

    fn toggle_debuff(&mut self) {
        self.is_debuff = !self.is_debuff;
    }

    fn is_debuff(&self) -> (r: bool) {
        self.is_debuff
    }

    fn is_finished(&mut self) -> (r: bool) {
        if self.animation_timer == 0 {
            true
        } else {
            if self.animation_timer > 0 {
                self.animation_timer = self.animation_timer - 1;
            }
            false
        }
    }

    fn set_timer(&mut self) {
        self.animation_timer = 4;
    }

    fn get_map_x(&self) -> (r: i64) {
        self.character.map_center_x()
    }

    fn get_map_y(&self) -> (r: i64) {
        self.character.map_center_y()
    }
}

/// Kills every zombie on screen; on its bad side it drives most zombies crazy
/// instead.
#[derive(Clone, Copy, Debug, PartialEq, Eq, Structural)]
pub struct Nuke {
    pub character: Character,
    pub animation_timer: i32,
    pub is_debuff: bool,
}

impl Nuke {
    /// A pickup lying at `(x, y)`, on its good side.
    pub fn new(x: i64, y: i64) -> (r: Nuke)
        requires
            -POSITION_LIMIT <= x <= POSITION_LIMIT,
            -POSITION_LIMIT <= y <= POSITION_LIMIT,
        ensures
            r == (Nuke { character: Character::new_spec(x, y), animation_timer: 0, is_debuff: false }),
            r.character.wf(),
    {
        Nuke { character: Character::new(x, y), animation_timer: 0, is_debuff: false }
    }

    /// The pickup's sprite: the blast once triggered, the bad side's
    /// mark while it shows its bad side, its own mark otherwise.
    pub fn load_sprite(&self) -> (r: SpriteFrame)
        ensures
            self.animation_timer > 0 ==> r.sheet@ == "assets/base/nuke.bmp"@ && r.tile_x == 0
                && r.tile_y == 0 && r.frames == 3,
            self.animation_timer <= 0 && self.is_debuff ==> r.sheet@ == "assets/base/powerups.bmp"@
                && r.tile_x == 5 && r.tile_y == 0 && r.frames == 1,
            self.animation_timer <= 0 && !self.is_debuff ==> r.sheet@ == "assets/base/powerups.bmp"@
                && r.tile_x == 2 && r.tile_y == 0 && r.frames == 1,
    {
        if self.animation_timer > 0 {
            frame_at("assets/base/nuke.bmp", 0, 0, 1, 1, 3)
        } else if self.is_debuff {
            frame_at("assets/base/powerups.bmp", 5, 0, 1, 1, 1)
        } else {
            frame_at("assets/base/powerups.bmp", 2, 0, 1, 1, 1)
        }
    }
}

impl Powerup for Nuke {
    open spec fn body(&self) -> Character {
        self.character
    }

    open spec fn kind(&self) -> i32 {
        NUKE_TYPE
    }

    open spec fn debuff(&self) -> bool {
        self.is_debuff
    }

    open spec fn timer(&self) -> i32 {
        self.animation_timer
    }

    open spec fn timer_length(&self) -> i32 {
        5
    }

    open spec fn with_debuff(&self, d: bool) -> Self {
        Nuke { is_debuff: d, ..*self }
    }

    open spec fn with_timer(&self, t: i32) -> Self {
        Nuke { animation_timer: t, ..*self }
    }

    fn update(&mut self, elapsed_time: Millis) {
    }

    fn damage_rectangle(&self) -> (r: Rectangle) {
        self.character.damage_rectangle()
    }

    fn get_type(&self) -> (r: i32) {
        NUKE_TYPE
    }

    fn toggle_debuff(&mut self) {
        self.is_debuff = !self.is_debuff;
    }

    fn is_debuff(&self) -> (r: bool) {
        self.is_debuff
    }

    fn is_finished(&mut self) -> (r: bool) {
        if self.animation_timer == 0 {
            true
        } else {
            if self.animation_timer > 0 {
                self.animation_timer = self.animation_timer - 1;
            }
            false
        }
    }

    fn set_timer(&mut self) {
        self.animation_timer = 5;
    }

    fn get_map_x(&self) -> (r: i64) {
        self.character.map_center_x()
    }

    fn get_map_y(&self) -> (r: i64) {
        self.character.map_center_y()
    }
}

/// Any pickup, as the frame scheduler keeps them.
#[derive(Clone, Copy, Debug, PartialEq, Eq, Structural)]
pub enum AnyPowerup {
    CricketBat(CricketBat),
    KillZombie(KillZombie),
    WipeOut(WipeOut),
    Freeze(Freeze),
    Teleport(Teleport),
    Nuke(Nuke),
}

impl Powerup for AnyPowerup {
    open spec fn body(&self) -> Character {
        match self {
            AnyPowerup::CricketBat(p) => p.character,
            AnyPowerup::KillZombie(p) => p.character,
            AnyPowerup::WipeOut(p) => p.character,
            AnyPowerup::Freeze(p) => p.character,
            AnyPowerup::Teleport(p) => p.character,
            AnyPowerup::Nuke(p) => p.character,
        }
    }

    open spec fn kind(&self) -> i32 {
        match self {
            AnyPowerup::CricketBat(p) => p.kind(),
            AnyPowerup::KillZombie(p) => p.kind(),
            AnyPowerup::WipeOut(p) => p.kind(),
            AnyPowerup::Freeze(p) => p.kind(),
            AnyPowerup::Teleport(p) => p.kind(),
            AnyPowerup::Nuke(p) => p.kind(),
        }
    }

    open spec fn debuff(&self) -> bool {
        match self {
            AnyPowerup::CricketBat(p) => p.debuff(),
            AnyPowerup::KillZombie(p) => p.debuff(),
            AnyPowerup::WipeOut(p) => p.debuff(),
            AnyPowerup::Freeze(p) => p.debuff(),
            AnyPowerup::Teleport(p) => p.debuff(),
            AnyPowerup::Nuke(p) => p.debuff(),
        }
    }

    open spec fn timer(&self) -> i32 {
        match self {
            AnyPowerup::CricketBat(p) => p.timer(),
            AnyPowerup::KillZombie(p) => p.timer(),
            AnyPowerup::WipeOut(p) => p.timer(),
            AnyPowerup::Freeze(p) => p.timer(),
            AnyPowerup::Teleport(p) => p.timer(),
            AnyPowerup::Nuke(p) => p.timer(),
        }
    }

    open spec fn timer_length(&self) -> i32 {
        match self {
            AnyPowerup::CricketBat(p) => p.timer_length(),
            AnyPowerup::KillZombie(p) => p.timer_length(),
            AnyPowerup::WipeOut(p) => p.timer_length(),
            AnyPowerup::Freeze(p) => p.timer_length(),
            AnyPowerup::Teleport(p) => p.timer_length(),
            AnyPowerup::Nuke(p) => p.timer_length(),
        }
    }

    open spec fn with_debuff(&self, d: bool) -> Self {
        match self {
            AnyPowerup::CricketBat(p) => AnyPowerup::CricketBat(p.with_debuff(d)),
            AnyPowerup::KillZombie(p) => AnyPowerup::KillZombie(p.with_debuff(d)),
            AnyPowerup::WipeOut(p) => AnyPowerup::WipeOut(p.with_debuff(d)),
            AnyPowerup::Freeze(p) => AnyPowerup::Freeze(p.with_debuff(d)),
            AnyPowerup::Teleport(p) => AnyPowerup::Teleport(p.with_debuff(d)),
            AnyPowerup::Nuke(p) => AnyPowerup::Nuke(p.with_debuff(d)),
        }
    }

    open spec fn with_timer(&self, t: i32) -> Self {
        match self {
            AnyPowerup::CricketBat(p) => AnyPowerup::CricketBat(p.with_timer(t)),
            AnyPowerup::KillZombie(p) => AnyPowerup::KillZombie(p.with_timer(t)),
            AnyPowerup::WipeOut(p) => AnyPowerup::WipeOut(p.with_timer(t)),
            AnyPowerup::Freeze(p) => AnyPowerup::Freeze(p.with_timer(t)),
            AnyPowerup::Teleport(p) => AnyPowerup::Teleport(p.with_timer(t)),
            AnyPowerup::Nuke(p) => AnyPowerup::Nuke(p.with_timer(t)),
        }
    }

    fn update(&mut self, elapsed_time: Millis) {
        match self {
            AnyPowerup::CricketBat(p) => p.update(elapsed_time),
            AnyPowerup::KillZombie(p) => p.update(elapsed_time),
            AnyPowerup::WipeOut(p) => p.update(elapsed_time),
            AnyPowerup::Freeze(p) => p.update(elapsed_time),
            AnyPowerup::Teleport(p) => p.update(elapsed_time),
            AnyPowerup::Nuke(p) => p.update(elapsed_time),
        }
    }

    fn damage_rectangle(&self) -> (r: Rectangle) {
        match self {
            AnyPowerup::CricketBat(p) => p.damage_rectangle(),
            AnyPowerup::KillZombie(p) => p.damage_rectangle(),
            AnyPowerup::WipeOut(p) => p.damage_rectangle(),
            AnyPowerup::Freeze(p) => p.damage_rectangle(),
            AnyPowerup::Teleport(p) => p.damage_rectangle(),
            AnyPowerup::Nuke(p) => p.damage_rectangle(),
        }
    }

    fn get_type(&self) -> (r: i32) {
        match self {
            AnyPowerup::CricketBat(p) => p.get_type(),
            AnyPowerup::KillZombie(p) => p.get_type(),
            AnyPowerup::WipeOut(p) => p.get_type(),
            AnyPowerup::Freeze(p) => p.get_type(),
            AnyPowerup::Teleport(p) => p.get_type(),
            AnyPowerup::Nuke(p) => p.get_type(),
        }
    }

    fn toggle_debuff(&mut self) {
        match self {
            AnyPowerup::CricketBat(p) => p.toggle_debuff(),
            AnyPowerup::KillZombie(p) => p.toggle_debuff(),
            AnyPowerup::WipeOut(p) => p.toggle_debuff(),
            AnyPowerup::Freeze(p) => p.toggle_debuff(),
            AnyPowerup::Teleport(p) => p.toggle_debuff(),
            AnyPowerup::Nuke(p) => p.toggle_debuff(),
        }
    }

    fn is_debuff(&self) -> (r: bool) {
        match self {
            AnyPowerup::CricketBat(p) => p.is_debuff(),
            AnyPowerup::KillZombie(p) => p.is_debuff(),
            AnyPowerup::WipeOut(p) => p.is_debuff(),
            AnyPowerup::Freeze(p) => p.is_debuff(),
            AnyPowerup::Teleport(p) => p.is_debuff(),
            AnyPowerup::Nuke(p) => p.is_debuff(),
        }
    }

    fn is_finished(&mut self) -> (r: bool) {
        match self {
            AnyPowerup::CricketBat(p) => p.is_finished(),
            AnyPowerup::KillZombie(p) => p.is_finished(),
            AnyPowerup::WipeOut(p) => p.is_finished(),
            AnyPowerup::Freeze(p) => p.is_finished(),
            AnyPowerup::Teleport(p) => p.is_finished(),
            AnyPowerup::Nuke(p) => p.is_finished(),
        }
    }

    fn set_timer(&mut self) {
        match self {
            AnyPowerup::CricketBat(p) => p.set_timer(),
            AnyPowerup::KillZombie(p) => p.set_timer(),
            AnyPowerup::WipeOut(p) => p.set_timer(),
            AnyPowerup::Freeze(p) => p.set_timer(),
            AnyPowerup::Teleport(p) => p.set_timer(),
            AnyPowerup::Nuke(p) => p.set_timer(),
        }
    }

    fn get_map_x(&self) -> (r: i64) {
        match self {
            AnyPowerup::CricketBat(p) => p.get_map_x(),
            AnyPowerup::KillZombie(p) => p.get_map_x(),
            AnyPowerup::WipeOut(p) => p.get_map_x(),
            AnyPowerup::Freeze(p) => p.get_map_x(),
            AnyPowerup::Teleport(p) => p.get_map_x(),
            AnyPowerup::Nuke(p) => p.get_map_x(),
        }
    }

    fn get_map_y(&self) -> (r: i64) {
        match self {
            AnyPowerup::CricketBat(p) => p.get_map_y(),
            AnyPowerup::KillZombie(p) => p.get_map_y(),
            AnyPowerup::WipeOut(p) => p.get_map_y(),
            AnyPowerup::Freeze(p) => p.get_map_y(),
            AnyPowerup::Teleport(p) => p.get_map_y(),
            AnyPowerup::Nuke(p) => p.get_map_y(),
        }
    }
}

} // verus!
