//! Vehicle parts lying on the map, waiting to be picked up.
use vstd::prelude::*;

use crate::common::{Character, POSITION_LIMIT};
use crate::rect::Rectangle;
use crate::sprite::{frame_at, SpriteFrame};
use crate::units::{wrap_spec, GAME, HALF_TILE, PAGE_SIZE, TILE};

verus! {

/// What the frame scheduler needs of a part.
pub trait Part: Sized {
    /// The part's actor state.
    spec fn body(&self) -> Character;

    /// Which of its vehicle's three kinds it is.
    spec fn kind(&self) -> u32;

    /// The box the player must touch to pick it up.
    spec fn hit_box(&self) -> Rectangle;

    fn damage_rectangle(&self) -> (r: Rectangle)
        requires
            self.body().wf(),
        ensures
            r == self.hit_box(),
    ;

    fn part_type(&self) -> (r: u32)
        ensures
            r == self.kind(),
            1 <= r <= 3,
    ;

    /// Center, in screen space.
    fn get_x(&self) -> (r: i64)
        ensures
            r == wrap_spec(self.body().map_x as int, PAGE_SIZE as int) + HALF_TILE,
    ;

    /// Center, in screen space.
    fn get_y(&self) -> (r: i64)
        ensures
            r == wrap_spec(self.body().map_y as int, PAGE_SIZE as int) + HALF_TILE,
    ;

    /// Center, in map space.
    fn get_map_x(&self) -> (r: i64)
        requires
            self.body().wf(),
        ensures
            r == self.body().map_center_x_spec(),
    ;

    /// Center, in map space.
    fn get_map_y(&self) -> (r: i64)
        requires
            self.body().wf(),
        ensures
            r == self.body().map_center_y_spec(),
    ;
}

/// A helicopter's rotor.
#[derive(Clone, Copy, Debug, PartialEq, Eq, Structural)]
pub struct Prop {
    pub character: Character,
}

impl Prop {
    pub fn new(x: i64, y: i64) -> (r: Prop)
        requires
            -POSITION_LIMIT <= x <= POSITION_LIMIT,
            -POSITION_LIMIT <= y <= POSITION_LIMIT,
        ensures
            r.character == Character::new_spec(x, y),
            r.character.wf(),
    {
        Prop { character: Character::new(x, y) }
    }

    /// The part's sprite on its vehicle's sheet.
    pub fn load_sprite(&self) -> (r: SpriteFrame)
        ensures
            r.sheet@ == "assets/base/heli.bmp"@,
            r.tile_x == 19 && r.tile_y == 3,
            r.tiles_wide == 3 && r.tiles_high == 1,
            r.frames == 1,
    {
        frame_at("assets/base/heli.bmp", 19, 3, 3, 1, 1)
    }
}

impl Part for Prop {
    open spec fn body(&self) -> Character {
        self.character
    }

    open spec fn kind(&self) -> u32 {
        1
    }

    open spec fn hit_box(&self) -> Rectangle {
        Rectangle {
            x: (self.character.map_x + TILE + HALF_TILE) as i64,
            y: (self.character.map_y + HALF_TILE) as i64,
            width: (64 * GAME) as i64,
            height: (16 * GAME) as i64,
        }
    }

    fn damage_rectangle(&self) -> (r: Rectangle) {
        Rectangle {
            x: self.character.map_x + TILE + HALF_TILE,
            y: self.character.map_y + HALF_TILE,
            width: 64 * GAME,
            height: 16 * GAME,
        }
    }

    fn part_type(&self) -> (r: u32) {
        1
    }

    fn get_x(&self) -> (r: i64) {
        self.character.center_x()
    }

    fn get_y(&self) -> (r: i64) {
        self.character.center_y()
    }

    fn get_map_x(&self) -> (r: i64) {
        self.character.map_center_x()
    }

    fn get_map_y(&self) -> (r: i64) {
        self.character.map_center_y()
    }
}

/// A helicopter's windshield.
#[derive(Clone, Copy, Debug, PartialEq, Eq, Structural)]
pub struct Windshield {
    pub character: Character,
}

impl Windshield {
    pub fn new(x: i64, y: i64) -> (r: Windshield)
        requires
            -POSITION_LIMIT <= x <= POSITION_LIMIT,
            -POSITION_LIMIT <= y <= POSITION_LIMIT,
        ensures
            r.character == Character::new_spec(x, y),
            r.character.wf(),
    {
        Windshield { character: Character::new(x, y) }
    }

    /// The part's sprite on its vehicle's sheet.
    pub fn load_sprite(&self) -> (r: SpriteFrame)
        ensures
            r.sheet@ == "assets/base/heli.bmp"@,
            r.tile_x == 24 && r.tile_y == 3,
            r.tiles_wide == 1 && r.tiles_high == 1,
            r.frames == 1,
    {
        frame_at("assets/base/heli.bmp", 24, 3, 1, 1, 1)
    }
}

impl Part for Windshield {
    open spec fn body(&self) -> Character {
        self.character
    }

    open spec fn kind(&self) -> u32 {
        2
    }

    open spec fn hit_box(&self) -> Rectangle {
        Rectangle {
            x: (self.character.map_x + HALF_TILE) as i64,
            y: (self.character.map_y + HALF_TILE) as i64,
            width: (16 * GAME) as i64,
            height: (16 * GAME) as i64,
        }
    }

    fn damage_rectangle(&self) -> (r: Rectangle) {
        Rectangle {
            x: self.character.map_x + HALF_TILE,
            y: self.character.map_y + HALF_TILE,
            width: 16 * GAME,
            height: 16 * GAME,
        }
    }

    fn part_type(&self) -> (r: u32) {
        2
    }

    fn get_x(&self) -> (r: i64) {
        self.character.center_x()
    }

    fn get_y(&self) -> (r: i64) {
        self.character.center_y()
    }

    fn get_map_x(&self) -> (r: i64) {
        self.character.map_center_x()
    }

    fn get_map_y(&self) -> (r: i64) {
        self.character.map_center_y()
    }
}

/// A helicopter's landing bar.
#[derive(Clone, Copy, Debug, PartialEq, Eq, Structural)]
pub struct Bar {
    pub character: Character,
}

impl Bar {
    pub fn new(x: i64, y: i64) -> (r: Bar)
        requires
            -POSITION_LIMIT <= x <= POSITION_LIMIT,
            -POSITION_LIMIT <= y <= POSITION_LIMIT,
        ensures
            r.character == Character::new_spec(x, y),
            r.character.wf(),
    {
        Bar { character: Character::new(x, y) }
    }

    /// The part's sprite on its vehicle's sheet.
    pub fn load_sprite(&self) -> (r: SpriteFrame)
        ensures
            r.sheet@ == "assets/base/heli.bmp"@,
            r.tile_x == 26 && r.tile_y == 3,
            r.tiles_wide == 2 && r.tiles_high == 1,
            r.frames == 1,
    {
        frame_at("assets/base/heli.bmp", 26, 3, 2, 1, 1)
    }
}

impl Part for Bar {
    open spec fn body(&self) -> Character {
        self.character
    }

    open spec fn kind(&self) -> u32 {
        3
    }

    open spec fn hit_box(&self) -> Rectangle {
        Rectangle {
            x: (self.character.map_x + TILE) as i64,
            y: (self.character.map_y + HALF_TILE) as i64,
            width: (32 * GAME) as i64,
            height: (16 * GAME) as i64,
        }
    }

    fn damage_rectangle(&self) -> (r: Rectangle) {
        Rectangle {
            x: self.character.map_x + TILE,
            y: self.character.map_y + HALF_TILE,
            width: 32 * GAME,
            height: 16 * GAME,
        }
    }

    fn part_type(&self) -> (r: u32) {
        3
    }

    fn get_x(&self) -> (r: i64) {
        self.character.center_x()
    }

    fn get_y(&self) -> (r: i64) {
        self.character.center_y()
    }

    fn get_map_x(&self) -> (r: i64) {
        self.character.map_center_x()
    }

    fn get_map_y(&self) -> (r: i64) {
        self.character.map_center_y()
    }
}

/// A car's tire.
#[derive(Clone, Copy, Debug, PartialEq, Eq, Structural)]
pub struct Tire {
    pub character: Character,
}

impl Tire {
    pub fn new(x: i64, y: i64) -> (r: Tire)
        requires
            -POSITION_LIMIT <= x <= POSITION_LIMIT,
            -POSITION_LIMIT <= y <= POSITION_LIMIT,
        ensures
            r.character == Character::new_spec(x, y),
            r.character.wf(),
    {
        Tire { character: Character::new(x, y) }
    }

    /// The part's sprite on its vehicle's sheet.
    pub fn load_sprite(&self) -> (r: SpriteFrame)
        ensures
            r.sheet@ == "assets/base/racer.bmp"@,
            r.tile_x == 2 && r.tile_y == 4,
            r.tiles_wide == 2 && r.tiles_high == 1,
            r.frames == 1,
    {
        frame_at("assets/base/racer.bmp", 2, 4, 2, 1, 1)
    }
}

impl Part for Tire {
    open spec fn body(&self) -> Character {
        self.character
    }

    open spec fn kind(&self) -> u32 {
        1
    }

    open spec fn hit_box(&self) -> Rectangle {
        Rectangle {
            x: (self.character.map_x + TILE) as i64,
            y: (self.character.map_y + HALF_TILE) as i64,
            width: (32 * GAME) as i64,
            height: (16 * GAME) as i64,
        }
    }

    fn damage_rectangle(&self) -> (r: Rectangle) {
        Rectangle {
            x: self.character.map_x + TILE,
            y: self.character.map_y + HALF_TILE,
            width: 32 * GAME,
            height: 16 * GAME,
        }
    }

    fn part_type(&self) -> (r: u32) {
        1
    }

    fn get_x(&self) -> (r: i64) {
        self.character.center_x()
    }

    fn get_y(&self) -> (r: i64) {
        self.character.center_y()
    }

    fn get_map_x(&self) -> (r: i64) {
        self.character.map_center_x()
    }

    fn get_map_y(&self) -> (r: i64) {
        self.character.map_center_y()
    }
}

/// A car's door.
#[derive(Clone, Copy, Debug, PartialEq, Eq, Structural)]
pub struct Door {
    pub character: Character,
}

impl Door {
    pub fn new(x: i64, y: i64) -> (r: Door)
        requires
            -POSITION_LIMIT <= x <= POSITION_LIMIT,
            -POSITION_LIMIT <= y <= POSITION_LIMIT,
        ensures
            r.character == Character::new_spec(x, y),
            r.character.wf(),
    {
        Door { character: Character::new(x, y) }
    }

    /// The part's sprite on its vehicle's sheet.
    pub fn load_sprite(&self) -> (r: SpriteFrame)
        ensures
            r.sheet@ == "assets/base/racer.bmp"@,
            r.tile_x == 0 && r.tile_y == 4,
            r.tiles_wide == 2 && r.tiles_high == 2,
            r.frames == 1,
    {
        frame_at("assets/base/racer.bmp", 0, 4, 2, 2, 1)
    }
}

impl Part for Door {
    open spec fn body(&self) -> Character {
        self.character
    }

    open spec fn kind(&self) -> u32 {
        2
    }

    open spec fn hit_box(&self) -> Rectangle {
        Rectangle {
            x: (self.character.map_x + HALF_TILE) as i64,
            y: (self.character.map_y + HALF_TILE) as i64,
            width: (16 * GAME) as i64,
            height: (16 * GAME) as i64,
        }
    }

    fn damage_rectangle(&self) -> (r: Rectangle) {
        Rectangle {
            x: self.character.map_x + HALF_TILE,
            y: self.character.map_y + HALF_TILE,
            width: 16 * GAME,
            height: 16 * GAME,
        }
    }

    fn part_type(&self) -> (r: u32) {
        2
    }

    fn get_x(&self) -> (r: i64) {
        self.character.center_x()
    }

    fn get_y(&self) -> (r: i64) {
        self.character.center_y()
    }

    fn get_map_x(&self) -> (r: i64) {
        self.character.map_center_x()
    }

    fn get_map_y(&self) -> (r: i64) {
        self.character.map_center_y()
    }
}

/// A car's engine.
#[derive(Clone, Copy, Debug, PartialEq, Eq, Structural)]
pub struct Engine {
    pub character: Character,
}

impl Engine {
    pub fn new(x: i64, y: i64) -> (r: Engine)
        requires
            -POSITION_LIMIT <= x <= POSITION_LIMIT,
            -POSITION_LIMIT <= y <= POSITION_LIMIT,
        ensures
            r.character == Character::new_spec(x, y),
            r.character.wf(),
    {
        Engine { character: Character::new(x, y) }
    }

    /// The part's sprite on its vehicle's sheet.
    pub fn load_sprite(&self) -> (r: SpriteFrame)
        ensures
            r.sheet@ == "assets/base/racer.bmp"@,
            r.tile_x == 4 && r.tile_y == 4,
            r.tiles_wide == 1 && r.tiles_high == 1,
            r.frames == 1,
    {
        frame_at("assets/base/racer.bmp", 4, 4, 1, 1, 1)
    }
}

impl Part for Engine {
    open spec fn body(&self) -> Character {
        self.character
    }

    open spec fn kind(&self) -> u32 {
        3
    }

    open spec fn hit_box(&self) -> Rectangle {
        Rectangle {
            x: (self.character.map_x + TILE) as i64,
            y: (self.character.map_y + TILE) as i64,
            width: (32 * GAME) as i64,
            height: (16 * GAME) as i64,
        }
    }

    fn damage_rectangle(&self) -> (r: Rectangle) {
        Rectangle {
            x: self.character.map_x + TILE,
            y: self.character.map_y + TILE,
            width: 32 * GAME,
            height: 16 * GAME,
        }
    }

    fn part_type(&self) -> (r: u32) {
        3
    }

    fn get_x(&self) -> (r: i64) {
        self.character.center_x()
    }

    fn get_y(&self) -> (r: i64) {
        self.character.center_y()
    }

    fn get_map_x(&self) -> (r: i64) {
        self.character.map_center_x()
    }

    fn get_map_y(&self) -> (r: i64) {
        self.character.map_center_y()
    }
}

/// Any part, as the frame scheduler keeps them.
#[derive(Clone, Copy, Debug, PartialEq, Eq, Structural)]
pub enum AnyPart {
    Prop(Prop),
    Windshield(Windshield),
    Bar(Bar),
    Tire(Tire),
    Door(Door),
    Engine(Engine),
}

impl Part for AnyPart {
    open spec fn body(&self) -> Character {
        match self {
            AnyPart::Prop(p) => p.character,
            AnyPart::Windshield(p) => p.character,
            AnyPart::Bar(p) => p.character,
            AnyPart::Tire(p) => p.character,
            AnyPart::Door(p) => p.character,
            AnyPart::Engine(p) => p.character,
        }
    }

    open spec fn kind(&self) -> u32 {
        match self {
            AnyPart::Prop(p) => p.kind(),
            AnyPart::Windshield(p) => p.kind(),
            AnyPart::Bar(p) => p.kind(),
            AnyPart::Tire(p) => p.kind(),
            AnyPart::Door(p) => p.kind(),
            AnyPart::Engine(p) => p.kind(),
        }
    }

    open spec fn hit_box(&self) -> Rectangle {
        match self {
            AnyPart::Prop(p) => p.hit_box(),
            AnyPart::Windshield(p) => p.hit_box(),
            AnyPart::Bar(p) => p.hit_box(),
            AnyPart::Tire(p) => p.hit_box(),
            AnyPart::Door(p) => p.hit_box(),
            AnyPart::Engine(p) => p.hit_box(),
        }
    }

    fn damage_rectangle(&self) -> (r: Rectangle) {
        match self {
            AnyPart::Prop(p) => p.damage_rectangle(),
            AnyPart::Windshield(p) => p.damage_rectangle(),
            AnyPart::Bar(p) => p.damage_rectangle(),
            AnyPart::Tire(p) => p.damage_rectangle(),
            AnyPart::Door(p) => p.damage_rectangle(),
            AnyPart::Engine(p) => p.damage_rectangle(),
        }
    }

    fn part_type(&self) -> (r: u32) {
        match self {
            AnyPart::Prop(p) => p.part_type(),
            AnyPart::Windshield(p) => p.part_type(),
            AnyPart::Bar(p) => p.part_type(),
            AnyPart::Tire(p) => p.part_type(),
            AnyPart::Door(p) => p.part_type(),
            AnyPart::Engine(p) => p.part_type(),
        }
    }

    fn get_x(&self) -> (r: i64) {
        match self {
            AnyPart::Prop(p) => p.get_x(),
            AnyPart::Windshield(p) => p.get_x(),
            AnyPart::Bar(p) => p.get_x(),
            AnyPart::Tire(p) => p.get_x(),
            AnyPart::Door(p) => p.get_x(),
            AnyPart::Engine(p) => p.get_x(),
        }
    }

    fn get_y(&self) -> (r: i64) {
        match self {
            AnyPart::Prop(p) => p.get_y(),
            AnyPart::Windshield(p) => p.get_y(),
            AnyPart::Bar(p) => p.get_y(),
            AnyPart::Tire(p) => p.get_y(),
            AnyPart::Door(p) => p.get_y(),
            AnyPart::Engine(p) => p.get_y(),
        }
    }

    fn get_map_x(&self) -> (r: i64) {
        match self {
            AnyPart::Prop(p) => p.get_map_x(),
            AnyPart::Windshield(p) => p.get_map_x(),
            AnyPart::Bar(p) => p.get_map_x(),
            AnyPart::Tire(p) => p.get_map_x(),
            AnyPart::Door(p) => p.get_map_x(),
            AnyPart::Engine(p) => p.get_map_x(),
        }
    }

    fn get_map_y(&self) -> (r: i64) {
        match self {
            AnyPart::Prop(p) => p.get_map_y(),
            AnyPart::Windshield(p) => p.get_map_y(),
            AnyPart::Bar(p) => p.get_map_y(),
            AnyPart::Tire(p) => p.get_map_y(),
            AnyPart::Door(p) => p.get_map_y(),
            AnyPart::Engine(p) => p.get_map_y(),
        }
    }
}

} // verus!
