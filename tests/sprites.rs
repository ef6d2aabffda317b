use just_run::common::Character;
use just_run::goal::Goal;
use just_run::parts::{Door, Prop};
use just_run::player::Player;
use just_run::powerups::{KillZombie, Nuke, Powerup, WipeOut};
use just_run::sprite::{frame_at, AnimatedSprite, Facing, Motion};
use just_run::traps::{BearTrap, Trap};
use just_run::units::{Millis, TILE};
use just_run::vehicle::{Car, Helicopter, Vehicle};

#[test]
fn animation_steps_after_a_frame_time() {
    let mut a = AnimatedSprite::new(frame_at("sheet.bmp", 2, 0, 1, 1, 3), 20);
    a.update(Millis(50));
    assert_eq!(a.current_frame, 0);
    assert_eq!(a.last_update, 50);
    a.update(Millis(1));
    assert_eq!(a.current_frame, 1);
    assert_eq!(a.last_update, 0);
    assert_eq!(a.source_tile_x(), 3);
    a.update(Millis(60));
    a.update(Millis(60));
    assert_eq!(a.current_frame, 0);
}

#[test]
fn player_looks() {
    let mut p = Player::new(TILE, TILE);
    let plain = p.current_sprite();
    assert_eq!((plain.sheet.as_str(), plain.tile_x, plain.tile_y, plain.frames), ("assets/MyChar.bmp", 0, 13, 1));
    p.start_moving_left();
    p.character.current_motion();
    let walking = p.current_sprite();
    assert_eq!((walking.tile_y, walking.frames), (12, 3));
    p.start_immunity();
    let hit = p.current_sprite();
    assert_eq!((hit.tile_x, hit.tile_y, hit.frames), (3, 12, 4));
    p.start_teleport_timer();
    assert_eq!(p.current_sprite().sheet, "assets/base/teleport.bmp");
    p.give_bat();
    let bat = p.current_sprite();
    assert_eq!((bat.tile_x, bat.tile_y), (0, 10));
    let c = Character::new(0, 0);
    assert_eq!(c.load_killed_sprite().sheet, "assets/base/killed.bmp");
    assert_eq!(c.facing, Facing::East);
    assert_eq!(c.motion, Motion::Standing);
}

#[test]
fn vehicle_sprites_follow_configuration() {
    let mut h = Helicopter::new(0, 0);
    assert_eq!((h.sprite_frame().tile_x, h.sprite_frame().tile_y), (29, 2));
    h.add_part(3);
    assert_eq!((h.sprite_frame().tile_x, h.sprite_frame().tile_y), (9, 5));
    h.add_part(1);
    h.add_part(2);
    let done = h.sprite_frame();
    assert_eq!((done.tile_x, done.tile_y, done.frames), (0, 2, 4));
    let mut c = Car::new(0, 0);
    c.add_part(2);
    c.add_part(3);
    assert_eq!(c.configuration(), 4);
    let f = c.sprite_frame();
    assert_eq!((f.sheet.as_str(), f.tile_x, f.tile_y, f.tiles_wide), ("assets/base/racer.bmp", 6, 2, 6));
}

#[test]
fn pickup_and_trap_sprites() {
    assert_eq!(KillZombie::new(0, 0).load_sprite().tile_x, 0);
    let mut w = WipeOut::new(0, 0);
    assert_eq!(w.load_sprite().tile_x, 1);
    w.set_timer();
    assert_eq!(w.load_sprite().sheet, "assets/base/explosion.bmp");
    let mut n = Nuke::new(0, 0);
    n.toggle_debuff();
    assert_eq!(n.load_sprite().tile_x, 5);
    let mut t = BearTrap::new(0, 0);
    assert_eq!(t.load_sprite().tile_x, 0);
    t.set_timer();
    assert_eq!(t.load_sprite().tile_x, 1);
    assert_eq!(Prop::new(0, 0).load_sprite().tiles_wide, 3);
    assert_eq!(Door::new(0, 0).load_sprite().tiles_high, 2);
    assert_eq!(Goal::new(0, 0).load_sprite().tiles_high, 2);
}
