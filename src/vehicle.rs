//! Vehicles the player assembles from parts found on the map.
use vstd::prelude::*;

use crate::common::{Character, POSITION_LIMIT};
use crate::rect::Rectangle;
use crate::sprite::{frame_at, SpriteFrame};
use crate::units::{wrap_spec, Millis, GAME, HALF_TILE, PAGE_SIZE, TILE};

verus! {

/// Part kinds a vehicle is built from.
pub const NUM_PARTS: u32 = 3;

/// Configuration shown while no part is installed.
pub const SCRAPPED_CONFIG: u32 = 0;

/// Configuration shown once every part is installed.
pub const COMPLETE_CONFIG: u32 = 7;

pub const HELICOPTER_TYPE: i32 = 1;
pub const CAR_TYPE: i32 = 2;

/// Configuration index of a helicopter with the given parts installed.
pub open spec fn heli_config(p1: bool, p2: bool, p3: bool) -> u32 {
    if p1 && p2 && p3 {
        7
    } else if p1 && p3 {
        1
    } else if p2 && p3 {
        2
    } else if p1 && p2 {
        6
    } else if p3 {
        3
    } else if p2 {
        4
    } else if p1 {
        5
    } else {
        0
    }
}

/// Configuration index of a car with the given parts installed.
pub open spec fn car_config(p1: bool, p2: bool, p3: bool) -> u32 {
    if p1 && p2 && p3 {
        7
    } else if p1 && p3 {
        2
    } else if p2 && p3 {
        4
    } else if p1 && p2 {
        6
    } else if p3 {
        5
    } else if p2 {
        3
    } else if p1 {
        1
    } else {
        0
    }
}

/// The set of installed kinds described by three flags.
pub open spec fn kinds_of(p1: bool, p2: bool, p3: bool) -> Set<u32> {
    Set::new(|k: u32| (k == 1 && p1) || (k == 2 && p2) || (k == 3 && p3))
}

/// Where on the helicopter sheet each configuration's sprite starts.
pub open spec fn heli_sprite_tile(config: u32) -> (u32, u32) {
    if config == 0 {
        (29, 2)
    } else if config == 1 {
        (0, 5)
    } else if config == 2 {
        (4, 5)
    } else if config == 3 {
        (9, 5)
    } else if config == 4 {
        (14, 5)
    } else if config == 5 {
        (19, 5)
    } else if config == 6 {
        (24, 5)
    } else {
        (0, 2)
    }
}

/// Where on the car sheet each configuration's sprite starts.
pub open spec fn car_sprite_tile(config: u32) -> (u32, u32) {
    if config == 0 {
        (0, 2)
    } else if config == 1 {
        (0, 0)
    } else if config == 2 {
        (6, 0)
    } else if config == 3 {
        (12, 2)
    } else if config == 4 {
        (6, 2)
    } else if config == 5 {
        (0, 0)
    } else if config == 6 {
        (6, 2)
    } else {
        (0, 0)
    }
}

/// What the frame scheduler needs of a vehicle.
pub trait Vehicle: Sized {
    /// Part kinds installed so far.
    spec fn installed(&self) -> Set<u32>;

    /// The vehicle after installing part kind `k`.
    spec fn with_part(&self, k: u32) -> Self;

    /// The configuration index its installed parts select.
    spec fn config_spec(&self) -> u32;

    /// Where it stands on the map.
    spec fn map_pos(&self) -> (i64, i64);

    /// Where it is drawn; apart from the cinematic, where it stands.
    spec fn draw_pos(&self) -> (i64, i64);

    /// The box the player must touch to install a part.
    spec fn hit_box(&self) -> Rectangle;

    spec fn kind(&self) -> i32;

    /// Position bounds.
    spec fn wf(&self) -> bool;

    fn damage_rectangle(&self) -> (r: Rectangle)
        requires
            self.wf(),
        ensures
            r == self.hit_box(),
    ;

    /// Advances the vehicle's animation; its state is unchanged.
    fn update(&mut self, elapsed_time: Millis)
        ensures
            *final(self) == *old(self),
    ;

    /// Moves the vehicle one step of the level-complete cinematic.
    fn update_for_cinematic(&mut self)
        requires
            old(self).wf(),
        ensures
            final(self).wf(),
            final(self).installed() == old(self).installed(),
            final(self).map_pos() == old(self).map_pos(),
    ;

    /// Installs part kind `part_num`; kinds outside `1 ..= NUM_PARTS` are
    /// ignored, and installing a kind twice changes nothing.
    fn add_part(&mut self, part_num: u32)
        ensures
            *final(self) == old(self).with_part(part_num),
            final(self).installed() == (if 1 <= part_num <= NUM_PARTS {
                old(self).installed().insert(part_num)
            } else {
                old(self).installed()
            }),
    ;

    /// Whether every part kind is installed.
    fn is_built(&self) -> (r: bool)
        ensures
            r == (self.installed() == kinds_of(true, true, true)),
    ;

    /// The configuration index its installed parts select.
    fn configuration(&self) -> (r: u32)
        ensures
            r == self.config_spec(),
    ;

    fn get_x(&self) -> (r: i64)
        ensures
            r == self.draw_pos().0,
    ;

    fn get_y(&self) -> (r: i64)
        ensures
            r == self.draw_pos().1,
    ;

    fn get_map_x(&self) -> (r: i64)
        ensures
            r == self.map_pos().0,
    ;

    fn get_map_y(&self) -> (r: i64)
        ensures
            r == self.map_pos().1,
    ;

    fn get_type(&self) -> (r: i32)
        ensures
            r == self.kind(),
    ;
}

fn heli_config_index(p1: bool, p2: bool, p3: bool) -> (r: u32)
    ensures
        r == heli_config(p1, p2, p3),
{
        if p1 && p2 && p3 {
            7
        } else if p1 && p3 {
            1
        } else if p2 && p3 {
            2
        } else if p1 && p2 {
            6
        } else if p3 {
            3
        } else if p2 {
            4
        } else if p1 {
            5
        } else {
            0
        }
}

fn car_config_index(p1: bool, p2: bool, p3: bool) -> (r: u32)
    ensures
        r == car_config(p1, p2, p3),
{
        if p1 && p2 && p3 {
            7
        } else if p1 && p3 {
            2
        } else if p2 && p3 {
            4
        } else if p1 && p2 {
            6
        } else if p3 {
            5
        } else if p2 {
            3
        } else if p1 {
            1
        } else {
            0
        }
}

/// A helicopter built from a prop, a windshield and a landing bar.
#[derive(Clone, Copy, Debug, PartialEq, Eq, Structural)]
pub struct Helicopter {
    pub x: i64,
    pub y: i64,
    pub map_x: i64,
    pub map_y: i64,
    pub part_1: bool,
    pub part_2: bool,
    pub part_3: bool,
}

impl Helicopter {
    /// A vehicle with no parts at `(x, y)`.
    pub open spec fn new_spec(x: i64, y: i64) -> Helicopter {
        Helicopter { x, y, map_x: x, map_y: y, part_1: false, part_2: false, part_3: false }
    }

    /// A vehicle with no parts at `(x, y)`.
    pub fn new(x: i64, y: i64) -> (r: Helicopter)
        requires
            -POSITION_LIMIT <= x <= POSITION_LIMIT,
            -POSITION_LIMIT <= y <= POSITION_LIMIT,
        ensures
            r.wf(),
            r.installed() == Set::<u32>::empty(),
            r.config_spec() == SCRAPPED_CONFIG,
            r.map_pos() == (x, y),
            r.x == x && r.y == y,
            r == Helicopter::new_spec(x, y),
    {
        let r = Helicopter { x, y, map_x: x, map_y: y, part_1: false, part_2: false, part_3: false };
        assert(r.installed() =~= Set::<u32>::empty());
        r
    }

    /// The sprite that shows the vehicle's current configuration; the
    /// complete vehicle is animated over four frames.
    pub fn sprite_frame(&self) -> (r: SpriteFrame)
        ensures
            r.sheet@ == "assets/base/heli.bmp"@,
            (r.tile_x, r.tile_y) == heli_sprite_tile(self.config_spec()),
            r.tiles_wide == 4 && r.tiles_high == 3,
            r.frames == (if self.config_spec() == COMPLETE_CONFIG {
                4u32
            } else {
                1u32
            }),
    {
        let config = self.configuration();
        let (tile_x, tile_y): (u32, u32) = if config == 0 {
            (29, 2)
        } else if config == 1 {
            (0, 5)
        } else if config == 2 {
            (4, 5)
        } else if config == 3 {
            (9, 5)
        } else if config == 4 {
            (14, 5)
        } else if config == 5 {
            (19, 5)
        } else if config == 6 {
            (24, 5)
        } else {
            (0, 2)
        };
        let frames: u32 = if config == COMPLETE_CONFIG {
            4
        } else {
            1
        };
        frame_at("assets/base/heli.bmp", tile_x, tile_y, 4, 3, frames)
    }
}

impl Vehicle for Helicopter {
    open spec fn installed(&self) -> Set<u32> {
        kinds_of(self.part_1, self.part_2, self.part_3)
    }

    open spec fn with_part(&self, k: u32) -> Self {
        Helicopter {
            part_1: self.part_1 || k == 1,
            part_2: self.part_2 || k == 2,
            part_3: self.part_3 || k == 3,
            ..*self
        }
    }

    open spec fn config_spec(&self) -> u32 {
        heli_config(self.part_1, self.part_2, self.part_3)
    }

    open spec fn map_pos(&self) -> (i64, i64) {
        (self.map_x, self.map_y)
    }

    open spec fn draw_pos(&self) -> (i64, i64) {
        (self.x, self.y)
    }

    open spec fn hit_box(&self) -> Rectangle {
        Rectangle {
            x: (self.map_x + 2 * TILE) as i64,
            y: (self.map_y + TILE + HALF_TILE) as i64,
            width: (32 * GAME) as i64,
            height: (16 * GAME) as i64,
        }
    }

    open spec fn kind(&self) -> i32 {
        HELICOPTER_TYPE
    }

    open spec fn wf(&self) -> bool {
        &&& -POSITION_LIMIT <= self.x <= POSITION_LIMIT
        &&& -POSITION_LIMIT <= self.y <= POSITION_LIMIT
        &&& -POSITION_LIMIT <= self.map_x <= POSITION_LIMIT
        &&& -POSITION_LIMIT <= self.map_y <= POSITION_LIMIT
    }

    fn damage_rectangle(&self) -> (r: Rectangle) {
        Rectangle { x: self.map_x + 2 * TILE, y: self.map_y + TILE + HALF_TILE, width: 32 * GAME, height: 16 * GAME }
    }

    fn update(&mut self, elapsed_time: Millis) {
    }

    /// Lifts off: rises one game unit, as long as it stays in range.
    fn update_for_cinematic(&mut self) {
        if self.y - GAME >= -POSITION_LIMIT {
            self.y = self.y - GAME;
        }
    }

    fn add_part(&mut self, part_num: u32) {
        if part_num == 1 {
            self.part_1 = true;
        } else if part_num == 2 {
            self.part_2 = true;
        } else if part_num == 3 {
            self.part_3 = true;
        }
        assert(self.installed() =~= (if 1 <= part_num <= NUM_PARTS {
            old(self).installed().insert(part_num)
        } else {
            old(self).installed()
        }));
    }

    fn is_built(&self) -> (r: bool) {
        let r = self.part_1 && self.part_2 && self.part_3;
        proof {
            if !r {
                if !self.part_1 {
                    assert(kinds_of(true, true, true).contains(1u32));
                } else if !self.part_2 {
                    assert(kinds_of(true, true, true).contains(2u32));
                } else {
                    assert(kinds_of(true, true, true).contains(3u32));
                }
            } else {
                assert(self.installed() =~= kinds_of(true, true, true));
            }
        }
        r
    }

    fn configuration(&self) -> (r: u32) {
        let (p1, p2, p3) = (self.part_1, self.part_2, self.part_3);
        heli_config_index(p1, p2, p3)
    }

    fn get_x(&self) -> (r: i64) {
        self.x
    }

    fn get_y(&self) -> (r: i64) {
        self.y
    }

    fn get_map_x(&self) -> (r: i64) {
        self.map_x
    }

    fn get_map_y(&self) -> (r: i64) {
        self.map_y
    }

    fn get_type(&self) -> (r: i32) {
        HELICOPTER_TYPE
    }
}

/// A car built from a tire, a door and an engine.
#[derive(Clone, Copy, Debug, PartialEq, Eq, Structural)]
pub struct Car {
    pub x: i64,
    pub y: i64,
    pub map_x: i64,
    pub map_y: i64,
    pub part_1: bool,
    pub part_2: bool,
    pub part_3: bool,
}

impl Car {
    /// A vehicle with no parts at `(x, y)`.
    pub open spec fn new_spec(x: i64, y: i64) -> Car {
        Car { x, y, map_x: x, map_y: y, part_1: false, part_2: false, part_3: false }
    }

    /// A vehicle with no parts at `(x, y)`.
    pub fn new(x: i64, y: i64) -> (r: Car)
        requires
            -POSITION_LIMIT <= x <= POSITION_LIMIT,
            -POSITION_LIMIT <= y <= POSITION_LIMIT,
        ensures
            r.wf(),
            r.installed() == Set::<u32>::empty(),
            r.config_spec() == SCRAPPED_CONFIG,
            r.map_pos() == (x, y),
            r.x == x && r.y == y,
            r == Car::new_spec(x, y),
    {
        let r = Car { x, y, map_x: x, map_y: y, part_1: false, part_2: false, part_3: false };
        assert(r.installed() =~= Set::<u32>::empty());
        r
    }

    /// The sprite that shows the vehicle's current configuration; the
    /// complete vehicle is animated over four frames.
    pub fn sprite_frame(&self) -> (r: SpriteFrame)
        ensures
            r.sheet@ == "assets/base/racer.bmp"@,
            (r.tile_x, r.tile_y) == car_sprite_tile(self.config_spec()),
            r.tiles_wide == 6 && r.tiles_high == 2,
            r.frames == (if self.config_spec() == COMPLETE_CONFIG {
                4u32
            } else {
                1u32
            }),
    {
        let config = self.configuration();
        let (tile_x, tile_y): (u32, u32) = if config == 0 {
            (0, 2)
        } else if config == 1 {
            (0, 0)
        } else if config == 2 {
            (6, 0)
        } else if config == 3 {
            (12, 2)
        } else if config == 4 {
            (6, 2)
        } else if config == 5 {
            (0, 0)
        } else if config == 6 {
            (6, 2)
        } else {
            (0, 0)
        };
        let frames: u32 = if config == COMPLETE_CONFIG {
            4
        } else {
            1
        };
        frame_at("assets/base/racer.bmp", tile_x, tile_y, 6, 2, frames)
    }
}

impl Vehicle for Car {
    open spec fn installed(&self) -> Set<u32> {
        kinds_of(self.part_1, self.part_2, self.part_3)
    }

    open spec fn with_part(&self, k: u32) -> Self {
        Car {
            part_1: self.part_1 || k == 1,
            part_2: self.part_2 || k == 2,
            part_3: self.part_3 || k == 3,
            ..*self
        }
    }

    open spec fn config_spec(&self) -> u32 {
        car_config(self.part_1, self.part_2, self.part_3)
    }

    open spec fn map_pos(&self) -> (i64, i64) {
        (self.map_x, self.map_y)
    }

    open spec fn draw_pos(&self) -> (i64, i64) {
        (self.x, self.y)
    }

    open spec fn hit_box(&self) -> Rectangle {
        Rectangle {
            x: (self.map_x + 3 * TILE) as i64,
            y: (self.map_y + TILE) as i64,
            width: (64 * GAME) as i64,
            height: (16 * GAME) as i64,
        }
    }

    open spec fn kind(&self) -> i32 {
        CAR_TYPE
    }

    open spec fn wf(&self) -> bool {
        &&& -POSITION_LIMIT <= self.x <= POSITION_LIMIT
        &&& -POSITION_LIMIT <= self.y <= POSITION_LIMIT
        &&& -POSITION_LIMIT <= self.map_x <= POSITION_LIMIT
        &&& -POSITION_LIMIT <= self.map_y <= POSITION_LIMIT
    }

    fn damage_rectangle(&self) -> (r: Rectangle) {
        Rectangle { x: self.map_x + 3 * TILE, y: self.map_y + TILE, width: 64 * GAME, height: 16 * GAME }
    }

    fn update(&mut self, elapsed_time: Millis) {
    }

    /// Drives off: moves four game units east, as long as it stays in range.
    fn update_for_cinematic(&mut self) {
        if self.x + 4 * GAME <= POSITION_LIMIT {
            self.x = self.x + 4 * GAME;
        }
    }

    fn add_part(&mut self, part_num: u32) {
        if part_num == 1 {
            self.part_1 = true;
        } else if part_num == 2 {
            self.part_2 = true;
        } else if part_num == 3 {
            self.part_3 = true;
        }
        assert(self.installed() =~= (if 1 <= part_num <= NUM_PARTS {
            old(self).installed().insert(part_num)
        } else {
            old(self).installed()
        }));
    }

    fn is_built(&self) -> (r: bool) {
        let r = self.part_1 && self.part_2 && self.part_3;
        proof {
            if !r {
                if !self.part_1 {
                    assert(kinds_of(true, true, true).contains(1u32));
                } else if !self.part_2 {
                    assert(kinds_of(true, true, true).contains(2u32));
                } else {
                    assert(kinds_of(true, true, true).contains(3u32));
                }
            } else {
                assert(self.installed() =~= kinds_of(true, true, true));
            }
        }
        r
    }

    fn configuration(&self) -> (r: u32) {
        let (p1, p2, p3) = (self.part_1, self.part_2, self.part_3);
        car_config_index(p1, p2, p3)
    }

    fn get_x(&self) -> (r: i64) {
        self.x
    }

    fn get_y(&self) -> (r: i64) {
        self.y
    }

    fn get_map_x(&self) -> (r: i64) {
        self.map_x
    }

    fn get_map_y(&self) -> (r: i64) {
        self.map_y
    }

    fn get_type(&self) -> (r: i32) {
        CAR_TYPE
    }
}

/// Either vehicle, as the frame scheduler keeps it.
#[derive(Clone, Copy, Debug, PartialEq, Eq, Structural)]
pub enum AnyVehicle {
    Helicopter(Helicopter),
    Car(Car),
}

impl AnyVehicle {
    /// The sprite that shows the vehicle's current configuration.
    pub fn sprite_frame(&self) -> (r: SpriteFrame)
        ensures
            r.tiles_wide >= 4,
            self matches AnyVehicle::Helicopter(h) ==> (r.tile_x, r.tile_y) == heli_sprite_tile(h.config_spec()),
            self matches AnyVehicle::Car(c) ==> (r.tile_x, r.tile_y) == car_sprite_tile(c.config_spec()),
    {
        match self {
            AnyVehicle::Helicopter(h) => h.sprite_frame(),
            AnyVehicle::Car(c) => c.sprite_frame(),
        }
    }
}

impl Vehicle for AnyVehicle {
    open spec fn installed(&self) -> Set<u32> {
        match self {
            AnyVehicle::Helicopter(v) => v.installed(),
            AnyVehicle::Car(v) => v.installed(),
        }
    }

    open spec fn config_spec(&self) -> u32 {
        match self {
            AnyVehicle::Helicopter(v) => v.config_spec(),
            AnyVehicle::Car(v) => v.config_spec(),
        }
    }

    open spec fn map_pos(&self) -> (i64, i64) {
        match self {
            AnyVehicle::Helicopter(v) => v.map_pos(),
            AnyVehicle::Car(v) => v.map_pos(),
        }
    }

    open spec fn draw_pos(&self) -> (i64, i64) {
        match self {
            AnyVehicle::Helicopter(v) => v.draw_pos(),
            AnyVehicle::Car(v) => v.draw_pos(),
        }
    }

    open spec fn hit_box(&self) -> Rectangle {
        match self {
            AnyVehicle::Helicopter(v) => v.hit_box(),
            AnyVehicle::Car(v) => v.hit_box(),
        }
    }

    open spec fn kind(&self) -> i32 {
        match self {
            AnyVehicle::Helicopter(v) => v.kind(),
            AnyVehicle::Car(v) => v.kind(),
        }
    }

    open spec fn wf(&self) -> bool {
        match self {
            AnyVehicle::Helicopter(v) => v.wf(),
            AnyVehicle::Car(v) => v.wf(),
        }
    }

    open spec fn with_part(&self, k: u32) -> Self {
        match self {
            AnyVehicle::Helicopter(v) => AnyVehicle::Helicopter(v.with_part(k)),
            AnyVehicle::Car(v) => AnyVehicle::Car(v.with_part(k)),
        }
    }

    fn damage_rectangle(&self) -> (r: Rectangle) {
        match self {
            AnyVehicle::Helicopter(v) => v.damage_rectangle(),
            AnyVehicle::Car(v) => v.damage_rectangle(),
        }
    }

    fn update(&mut self, elapsed_time: Millis) {
        match self {
            AnyVehicle::Helicopter(v) => v.update(elapsed_time),
            AnyVehicle::Car(v) => v.update(elapsed_time),
        }
    }

    fn update_for_cinematic(&mut self) {
        match self {
            AnyVehicle::Helicopter(v) => v.update_for_cinematic(),
            AnyVehicle::Car(v) => v.update_for_cinematic(),
        }
    }

    fn add_part(&mut self, part_num: u32) {
        match self {
            AnyVehicle::Helicopter(v) => v.add_part(part_num),
            AnyVehicle::Car(v) => v.add_part(part_num),
        }
    }

    fn is_built(&self) -> (r: bool) {
        match self {
            AnyVehicle::Helicopter(v) => v.is_built(),
            AnyVehicle::Car(v) => v.is_built(),
        }
    }

    fn configuration(&self) -> (r: u32) {
        match self {
            AnyVehicle::Helicopter(v) => v.configuration(),
            AnyVehicle::Car(v) => v.configuration(),
        }
    }

    fn get_x(&self) -> (r: i64) {
        match self {
            AnyVehicle::Helicopter(v) => v.get_x(),
            AnyVehicle::Car(v) => v.get_x(),
        }
    }

    fn get_y(&self) -> (r: i64) {
        match self {
            AnyVehicle::Helicopter(v) => v.get_y(),
            AnyVehicle::Car(v) => v.get_y(),
        }
    }

    fn get_map_x(&self) -> (r: i64) {
        match self {
            AnyVehicle::Helicopter(v) => v.get_map_x(),
            AnyVehicle::Car(v) => v.get_map_x(),
        }
    }

    fn get_map_y(&self) -> (r: i64) {
        match self {
            AnyVehicle::Helicopter(v) => v.get_map_y(),
            AnyVehicle::Car(v) => v.get_map_y(),
        }
    }

    fn get_type(&self) -> (r: i32) {
        match self {
            AnyVehicle::Helicopter(v) => v.get_type(),
            AnyVehicle::Car(v) => v.get_type(),
        }
    }
}

/// Installing two parts in either order gives the same vehicle, hence the
/// same configuration; with every kind installed it shows the complete
/// configuration and with none the scrapped one, and no other set of parts
/// shows either.
pub proof fn lemma_heli_config_by_set(h: Helicopter, a: u32, b: u32)
    ensures
        h.with_part(a).with_part(b) == h.with_part(b).with_part(a),
        h.with_part(a).with_part(b).config_spec() == h.with_part(b).with_part(a).config_spec(),
        (h.config_spec() == COMPLETE_CONFIG) == (h.part_1 && h.part_2 && h.part_3),
        (h.config_spec() == SCRAPPED_CONFIG) == (!h.part_1 && !h.part_2 && !h.part_3),
{
}

/// The same laws for the car.
pub proof fn lemma_car_config_by_set(c: Car, a: u32, b: u32)
    ensures
        c.with_part(a).with_part(b) == c.with_part(b).with_part(a),
        c.with_part(a).with_part(b).config_spec() == c.with_part(b).with_part(a).config_spec(),
        (c.config_spec() == COMPLETE_CONFIG) == (c.part_1 && c.part_2 && c.part_3),
        (c.config_spec() == SCRAPPED_CONFIG) == (!c.part_1 && !c.part_2 && !c.part_3),
{
}

/// The configuration is a function of the set of installed kinds alone.
pub proof fn lemma_config_determined_by_set(h1: Helicopter, h2: Helicopter, c1: Car, c2: Car)
    ensures
        h1.installed() == h2.installed() ==> h1.config_spec() == h2.config_spec(),
        c1.installed() == c2.installed() ==> c1.config_spec() == c2.config_spec(),
{
    if h1.installed() == h2.installed() {
        assert(h1.part_1 == h1.installed().contains(1u32));
        assert(h1.part_2 == h1.installed().contains(2u32));
        assert(h1.part_3 == h1.installed().contains(3u32));
    }
    if c1.installed() == c2.installed() {
        assert(c1.part_1 == c1.installed().contains(1u32));
        assert(c1.part_2 == c1.installed().contains(2u32));
        assert(c1.part_3 == c1.installed().contains(3u32));
    }
}

} // verus!
