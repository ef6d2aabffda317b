use just_run::common::{Character, DEATH_ANIMATION_LENGTH, RETARGET_RADIUS};
use just_run::parts::{Bar, Part, Prop, Windshield};
use just_run::powerups::{CricketBat, Nuke, Powerup, WipeOut};
use just_run::sprite::{Facing, Motion};
use just_run::traps::{BearTrap, Trap};
use just_run::units::{Millis, GAME, TILE};
use just_run::vehicle::{Car, Helicopter, Vehicle, COMPLETE_CONFIG, SCRAPPED_CONFIG};
use just_run::zombie::{CloudZombie, CrazyZombie, RandomZombie, SlowZombie, Zombie};
use just_run::goal::Goal;
use just_run::map::TileMap;

#[test]
fn kill_countdown_answers_on_last_poll() {
    let mut z = SlowZombie::new(10 * TILE, 10 * TILE);
    z.kill_zombie();
    let n = DEATH_ANIMATION_LENGTH;
    for _ in 0..n - 1 {
        assert!(!z.is_killed());
    }
    assert!(z.is_killed());
}

#[test]
fn slow_zombie_steers_at_player() {
    let mut z = SlowZombie::new(10 * TILE, 10 * TILE);
    z.set_acceleration(20 * TILE, 5 * TILE);
    assert_eq!(z.character.accel_x, 1);
    assert_eq!(z.character.accel_y, -1);
    z.set_acceleration(z.get_map_x(), z.get_map_y());
    assert_eq!((z.character.accel_x, z.character.accel_y), (0, 0));
    assert_eq!(z.zombie_type(), 1);
}

#[test]
fn crazy_zombie_chases_near_player() {
    let mut z = CrazyZombie::new(10 * TILE, 10 * TILE);
    z.set_acceleration(10 * TILE + 50 * GAME, 10 * TILE);
    assert!(z.chasing);
    assert_eq!(z.get_target(), (10 * TILE + 50 * GAME, 10 * TILE));
    assert_eq!(z.character.accel_x, 1);
    let mut far = CrazyZombie::new(10 * TILE, 10 * TILE);
    far.set_acceleration(40 * TILE, 40 * TILE);
    assert!(!far.chasing);
    assert_eq!(far.zombie_type(), 2);
}

#[test]
fn cloud_zombie_has_shorter_fuse() {
    let mut z = CloudZombie::new(10 * TILE, 10 * TILE);
    z.set_acceleration(10 * TILE + 70 * GAME, 10 * TILE);
    assert!(!z.chasing);
    z.set_acceleration(10 * TILE + 40 * GAME, 10 * TILE);
    assert!(z.chasing);
    assert_eq!(z.zombie_type(), 4);
}

#[test]
fn target_kept_while_far() {
    let mut z = RandomZombie::new(10 * TILE, 10 * TILE);
    z.character.target_x = 30 * TILE;
    z.character.target_y = 30 * TILE;
    let map = TileMap::from_layout(1, &vec![], &vec![]);
    for _ in 0..2 {
        z.set_acceleration(0, 0);
        z.update(Millis(16), &map);
        assert_eq!(z.get_target(), (30 * TILE, 30 * TILE));
    }
}

#[test]
fn target_reacquired_when_close() {
    let mut z = RandomZombie::new(10 * TILE, 10 * TILE);
    assert!(z.character.within(z.character.target_x, z.character.target_y, RETARGET_RADIUS));
    z.set_acceleration(0, 0);
    let (tx, ty) = z.get_target();
    assert!(tx % TILE == 0 && ty % TILE == 0);
    assert!((TILE..58 * TILE).contains(&tx));
    assert!((TILE..58 * TILE).contains(&ty));
}

#[test]
fn wander_step_moves_a_tile_or_two() {
    let mut c = Character::new(30 * TILE, 30 * TILE);
    c.retarget_nearby(2, 1, 1);
    assert_eq!(c.target_x, 30 * TILE + TILE / 2 + 2 * TILE);
    assert_eq!(c.target_y, 30 * TILE + TILE / 2 + TILE);
    let before = c;
    c.retarget_nearby(1, 1, 2);
    assert_eq!(c, before);
    let mut edge = Character::new(57 * TILE, 2 * TILE);
    edge.retarget_nearby(1, 2, 2);
    assert_eq!(edge.target_x, 57 * TILE + TILE / 2 - TILE);
    assert_eq!(edge.target_y, 2 * TILE + TILE / 2 + 2 * TILE);
    let mut random = Character::new(30 * TILE, 30 * TILE);
    random.set_new_target();
    let dx = (random.target_x - random.map_center_x()).abs();
    assert!(dx == TILE || dx == 2 * TILE);
}

#[test]
fn zombie_update_faces_and_moves() {
    let map = TileMap::from_layout(1, &vec![], &vec![]);
    let mut z = SlowZombie::new(20 * TILE, 20 * TILE);
    z.set_acceleration(0, 20 * TILE + TILE / 2);
    z.update(Millis(16), &map);
    assert_eq!(z.character.facing, Facing::West);
    assert_eq!(z.character.motion, Motion::Walking);
    assert_eq!(z.character.velocity_x, -30 * 16);
    assert!(z.get_map_x() < 20 * TILE + TILE / 2);
    assert_eq!(z.load_sprite(Motion::Walking, Facing::East).tile_y, 3);
}

#[test]
fn vehicle_configuration_is_set_determined() {
    let mut ab = Helicopter::new(TILE, TILE);
    ab.add_part(1);
    ab.add_part(2);
    let mut ba = Helicopter::new(TILE, TILE);
    ba.add_part(2);
    ba.add_part(1);
    assert_eq!(ab.configuration(), ba.configuration());
    assert_eq!(ab.configuration(), 6);
    assert_eq!(Helicopter::new(TILE, TILE).configuration(), SCRAPPED_CONFIG);
    ab.add_part(3);
    assert_eq!(ab.configuration(), COMPLETE_CONFIG);
    assert!(ab.is_built());
    assert!(!ba.is_built());
}

#[test]
fn heli_and_car_tables() {
    let expected_heli = [(1, 5), (2, 4), (3, 3)];
    let expected_car = [(1, 1), (2, 3), (3, 5)];
    for (k, cfg) in expected_heli {
        let mut h = Helicopter::new(0, 0);
        h.add_part(k);
        assert_eq!(h.configuration(), cfg);
    }
    for (k, cfg) in expected_car {
        let mut c = Car::new(0, 0);
        c.add_part(k);
        assert_eq!(c.configuration(), cfg);
    }
    let mut c = Car::new(0, 0);
    c.add_part(1);
    c.add_part(3);
    assert_eq!(c.configuration(), 2);
    c.add_part(1);
    c.add_part(9);
    assert_eq!(c.configuration(), 2);
    assert_eq!(c.get_type(), 2);
}

#[test]
fn cinematic_moves_vehicles() {
    let mut h = Helicopter::new(TILE, TILE);
    h.update_for_cinematic();
    assert_eq!(h.get_y(), TILE - GAME);
    assert_eq!(h.get_map_y(), TILE);
    let mut c = Car::new(TILE, TILE);
    c.update_for_cinematic();
    assert_eq!(c.get_x(), TILE + 4 * GAME);
}

#[test]
fn parts_report_kind_and_box() {
    assert_eq!(Prop::new(0, 0).part_type(), 1);
    assert_eq!(Windshield::new(0, 0).part_type(), 2);
    let bar = Bar::new(2 * TILE, 3 * TILE);
    assert_eq!(bar.part_type(), 3);
    let r = bar.damage_rectangle();
    assert_eq!((r.x, r.y, r.width, r.height), (3 * TILE, 3 * TILE + TILE / 2, 32 * GAME, 16 * GAME));
}

#[test]
fn powerup_timers_count_down() {
    let mut w = WipeOut::new(0, 0);
    assert!(w.is_finished());
    w.set_timer();
    for _ in 0..5 {
        assert!(!w.is_finished());
    }
    assert!(w.is_finished());
    let mut bat = CricketBat::new(0, 0);
    bat.set_timer();
    assert!(bat.is_finished());
    let mut n = Nuke::new(0, 0);
    assert!(!n.is_debuff());
    n.toggle_debuff();
    assert!(n.is_debuff());
    assert_eq!(n.get_type(), 6);
}

#[test]
fn trap_springs_for_one_frame() {
    let mut t = BearTrap::new(0, 0);
    t.set_timer();
    assert!(!t.is_finished());
    assert!(t.is_finished());
    assert_eq!(t.get_type(), 1);
}

#[test]
fn goal_box() {
    let g = Goal::new(TILE, TILE);
    let r = g.damage_rectangle();
    assert_eq!((r.x, r.y, r.width, r.height), (TILE + TILE / 2, 2 * TILE, 5 * GAME, 5 * GAME));
}
