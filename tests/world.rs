use just_run::game::{
    add_clamped, CinematicStep, Game, Intents, FREEZE_FRAMES, LEVEL_1_TIME, PLAYER_STARTING_X, PLAYER_STARTING_Y,
    VEHICLE_STARTING_X, VEHICLE_STARTING_Y,
};
use just_run::map::TileMap;
use just_run::parts::{AnyPart, Prop};
use just_run::player::{Player, STARTING_HEALTH};
use just_run::powerups::{AnyPowerup, CricketBat, Freeze, Nuke, Powerup, Teleport, WipeOut};
use just_run::traps::BearTrap;
use just_run::units::{Millis, TILE};
use just_run::vehicle::{AnyVehicle, Helicopter, Vehicle};
use just_run::zombie::{Enemy, SlowZombie, Zombie};

fn quiet_game() -> Game {
    Game {
        player: Player::new(PLAYER_STARTING_X, PLAYER_STARTING_Y),
        enemies: Vec::new(),
        powerups: Vec::new(),
        traps: Vec::new(),
        killed: Vec::new(),
        activated: Vec::new(),
        tripped: Vec::new(),
        parts: Vec::new(),
        coll_parts: Vec::new(),
        vehicle: AnyVehicle::Helicopter(Helicopter::new(VEHICLE_STARTING_X, VEHICLE_STARTING_Y)),
        map: TileMap::from_layout(1, &vec![], &vec![]),
        paused: false,
        updates: 0,
        level: 1,
        highscore: 0,
        score: 0,
        timer: LEVEL_1_TIME,
        completed_lvl: false,
        freeze_counter: 0,
        alt_control: false,
        game_over: false,
        sounds: Vec::new(),
    }
}

fn zombie_on_player(game: &Game) -> Enemy {
    Enemy::Slow(SlowZombie::new(game.player.character.map_x, game.player.character.map_y))
}

#[test]
fn bat_protected_kill() {
    let mut game = quiet_game();
    game.player.give_bat();
    let z = zombie_on_player(&game);
    game.enemies.push(z);
    let collided = game.resolve_zombie_contact();
    assert!(!collided);
    assert!(game.enemies.is_empty());
    assert_eq!(game.killed.len(), 1);
    assert!(!game.player.has_bat());
    assert_eq!(game.player.get_health(), STARTING_HEALTH);
    assert_eq!(game.timer, LEVEL_1_TIME + 100);
}

#[test]
fn bat_protected_kill_through_a_frame() {
    let mut game = quiet_game();
    game.player.give_bat();
    let z = zombie_on_player(&game);
    game.enemies.push(z);
    game.freeze_counter = 5;
    game.update(Millis(16));
    assert!(game.enemies.is_empty());
    assert_eq!(game.killed.len(), 1);
    assert!(!game.player.has_bat());
    assert_eq!(game.player.get_health(), STARTING_HEALTH);
}

#[test]
fn unarmed_contact_costs_health_and_grants_immunity() {
    let mut game = quiet_game();
    let z = zombie_on_player(&game);
    game.enemies.push(z);
    game.freeze_counter = 5;
    game.update(Millis(16));
    assert_eq!(game.player.get_health(), STARTING_HEALTH - 1);
    assert!(game.player.is_immune());
    assert_eq!(game.enemies.len(), 1);
    game.update(Millis(16));
    assert_eq!(game.player.get_health(), STARTING_HEALTH - 1);
}

#[test]
fn last_hit_ends_the_run() {
    let mut game = quiet_game();
    game.player.health = 1;
    game.level = 3;
    game.apply_damage(true);
    assert!(game.game_over);
    assert_eq!(game.level, 1);
    assert!(game.paused);
    assert_eq!(game.player.get_health(), STARTING_HEALTH);
}

#[test]
fn debuff_flips_every_twenty_frames() {
    let mut game = quiet_game();
    game.powerups.push(AnyPowerup::Freeze(Freeze::new(40 * TILE, 40 * TILE)));
    let mut flips = 0;
    let mut last = game.powerups[0].is_debuff();
    for _ in 0..40 {
        game.step_frame(Millis(16));
        let now = game.powerups[0].is_debuff();
        if now != last {
            flips += 1;
        }
        last = now;
    }
    assert_eq!(flips, 2);
    assert_eq!(game.updates, 40);
}

#[test]
fn frame_time_clamp_scenario() {
    let mut game = quiet_game();
    game.step_frame(Millis(160));
    assert_eq!(game.player.character.elapsed_time, Millis(80));
    game.step_frame(Millis(16));
    assert_eq!(game.player.character.elapsed_time, Millis(16));
}

#[test]
fn paused_frames_only_count() {
    let mut game = quiet_game();
    game.paused = true;
    let before = game.player;
    game.step_frame(Millis(16));
    assert_eq!(game.player, before);
    assert_eq!(game.timer, LEVEL_1_TIME);
    assert_eq!(game.updates, 1);
}

#[test]
fn timer_runs_down_each_frame() {
    let mut game = quiet_game();
    game.step_frame(Millis(16));
    assert_eq!(game.timer, LEVEL_1_TIME - 1);
}

#[test]
fn freeze_pickup_holds_zombies() {
    let mut game = quiet_game();
    let p = game.player.character;
    game.powerups.push(AnyPowerup::Freeze(Freeze::new(p.map_x, p.map_y)));
    game.enemies.push(Enemy::Slow(SlowZombie::new(30 * TILE, 30 * TILE)));
    game.update(Millis(16));
    assert!(game.powerups.is_empty());
    assert_eq!(game.freeze_counter, FREEZE_FRAMES);
    let before = game.enemies[0];
    game.update(Millis(16));
    assert_eq!(game.enemies[0], before);
    assert_eq!(game.freeze_counter, FREEZE_FRAMES - 1);
}

#[test]
fn bat_pickup_grants_bat() {
    let mut game = quiet_game();
    let p = game.player.character;
    game.powerups.push(AnyPowerup::CricketBat(CricketBat::new(p.map_x, p.map_y)));
    game.apply_powerup(0);
    assert!(game.player.has_bat());
    assert!(game.activated.is_empty());
}

#[test]
fn wipe_out_kills_nearby_only() {
    let mut game = quiet_game();
    let p = game.player.character;
    game.powerups.push(AnyPowerup::WipeOut(WipeOut::new(p.map_x, p.map_y)));
    game.enemies.push(Enemy::Slow(SlowZombie::new(p.map_x + 2 * TILE, p.map_y)));
    game.enemies.push(Enemy::Slow(SlowZombie::new(40 * TILE, 40 * TILE)));
    game.apply_powerup(0);
    assert_eq!(game.enemies.len(), 1);
    assert_eq!(game.enemies[0].get_map_x(), 40 * TILE + TILE / 2);
    assert_eq!(game.killed.len(), 1);
    assert_eq!(game.timer, LEVEL_1_TIME + 500);
    assert_eq!(game.activated.len(), 1);
}

#[test]
fn nuke_kills_on_screen_zombies() {
    let mut game = quiet_game();
    let p = game.player.character;
    game.powerups.push(AnyPowerup::Nuke(Nuke::new(p.map_x, p.map_y)));
    game.enemies.push(Enemy::Slow(SlowZombie::new(10 * TILE, 10 * TILE)));
    game.enemies.push(Enemy::Slow(SlowZombie::new(45 * TILE, 45 * TILE)));
    game.apply_powerup_with(0, 0, &vec![1, 1]);
    assert_eq!(game.enemies.len(), 1);
    assert_eq!(game.killed.len(), 1);
    assert_eq!(game.timer, LEVEL_1_TIME + 100);
}

#[test]
fn nuke_bad_side_drives_zombies_crazy() {
    let mut game = quiet_game();
    let p = game.player.character;
    let mut nuke = Nuke::new(p.map_x, p.map_y);
    nuke.toggle_debuff();
    game.powerups.push(AnyPowerup::Nuke(nuke));
    game.enemies.push(Enemy::Slow(SlowZombie::new(10 * TILE, 10 * TILE)));
    game.enemies.push(Enemy::Slow(SlowZombie::new(45 * TILE, 45 * TILE)));
    game.apply_powerup_with(0, 0, &vec![3, 2]);
    assert_eq!(game.enemies.len(), 2);
    assert_eq!(game.enemies[0].zombie_type(), 2);
    assert_eq!(game.enemies[1].zombie_type(), 1);
    assert!(game.killed.is_empty());
}

#[test]
fn kill_zombie_pickup_takes_the_victim() {
    let mut game = quiet_game();
    let p = game.player.character;
    game.powerups.push(AnyPowerup::KillZombie(just_run::powerups::KillZombie::new(p.map_x, p.map_y)));
    game.enemies.push(Enemy::Slow(SlowZombie::new(10 * TILE, 10 * TILE)));
    game.enemies.push(Enemy::Slow(SlowZombie::new(20 * TILE, 20 * TILE)));
    game.apply_powerup_with(0, 1, &vec![1, 1]);
    assert_eq!(game.enemies.len(), 1);
    assert_eq!(game.enemies[0].get_map_x(), 10 * TILE + TILE / 2);
    assert_eq!(game.killed.len(), 1);
    assert_eq!(game.activated.len(), 1);
}

#[test]
fn teleport_carries_player_to_vehicle() {
    let mut game = quiet_game();
    let p = game.player.character;
    game.powerups.push(AnyPowerup::Teleport(Teleport::new(p.map_x, p.map_y)));
    game.apply_powerup(0);
    assert_eq!(game.player.character.map_x, VEHICLE_STARTING_X);
    assert_eq!(game.player.character.map_y, VEHICLE_STARTING_Y + 2 * TILE);
    assert!(game.player.is_teleporting());
}

#[test]
fn part_collected_and_installed() {
    let mut game = quiet_game();
    let p = game.player.character;
    game.parts.push(AnyPart::Prop(Prop::new(p.map_x - TILE, p.map_y - TILE / 2)));
    game.collect_part();
    assert!(game.parts.is_empty());
    assert_eq!(game.coll_parts.len(), 1);
    game.player.character.map_x = VEHICLE_STARTING_X + 2 * TILE;
    game.player.character.map_y = VEHICLE_STARTING_Y + TILE;
    game.install_part();
    assert!(game.coll_parts.is_empty());
    assert_eq!(game.vehicle.configuration(), 5);
}

#[test]
fn zombie_steps_in_trap() {
    let mut game = quiet_game();
    game.traps.push(BearTrap::new(30 * TILE, 30 * TILE));
    game.enemies.push(Enemy::Slow(SlowZombie::new(30 * TILE, 30 * TILE)));
    let player_hit = game.check_traps();
    assert!(!player_hit);
    assert!(game.traps.is_empty());
    assert_eq!(game.tripped.len(), 1);
    assert!(game.enemies.is_empty());
    assert_eq!(game.killed.len(), 1);
}

#[test]
fn player_steps_in_trap() {
    let mut game = quiet_game();
    let p = game.player.character;
    game.traps.push(BearTrap::new(p.map_x, p.map_y));
    assert!(game.check_traps());
    assert_eq!(game.tripped.len(), 1);
}

#[test]
fn killed_zombies_retire_after_animation() {
    let mut game = quiet_game();
    let mut z = Enemy::Slow(SlowZombie::new(30 * TILE, 30 * TILE));
    z.kill_zombie();
    game.killed.push(z);
    for _ in 0..5 {
        game.retire_finished();
        assert_eq!(game.killed.len(), 1);
    }
    game.retire_finished();
    assert!(game.killed.is_empty());
}

#[test]
fn input_sets_intents() {
    let mut game = quiet_game();
    let mut input = Intents {
        left: true,
        right: false,
        up: false,
        down: true,
        left_released: false,
        right_released: false,
        up_released: false,
        down_released: false,
        pause: true,
        alt_control: false,
    };
    game.apply_input(&input);
    assert!(game.paused);
    assert_eq!(game.player.character.accel_x, -1);
    assert_eq!(game.player.character.accel_y, 1);
    input.left = false;
    input.down = false;
    input.pause = false;
    game.apply_input(&input);
    assert_eq!(game.player.character.accel_x, 0);
    assert_eq!(game.player.character.accel_y, 1);
    input.down_released = true;
    game.apply_input(&input);
    assert_eq!(game.player.character.accel_y, 0);
}

#[test]
fn score_and_timer_award() {
    let mut game = quiet_game();
    game.level = 2;
    game.timer = 1234;
    game.set_score_and_timer();
    assert_eq!(game.score, 2000 + 3000 + 1234);
    assert_eq!(game.timer, 1234 + 2000);
    assert_eq!(add_clamped(i32::MAX - 1, 10), i32::MAX);
}

#[test]
fn new_world_is_populated() {
    let game = Game::new();
    assert!(game.enemies.len() >= 20 && game.enemies.len() < 30);
    assert!(game.powerups.len() < 20);
    assert_eq!(game.parts.len(), 3);
    assert!(game.paused);
    assert_eq!(game.level, 1);
}

#[test]
fn next_level_resets_world() {
    let mut game = quiet_game();
    game.new_level();
    assert_eq!(game.level, 2);
    assert!(!game.paused);
    assert_eq!(game.parts.len(), 3);
    assert!(game.killed.is_empty());
    game.restart();
    assert_eq!(game.level, 1);
    assert_eq!(game.score, 0);
}

#[test]
fn clouds_breed_on_cadence() {
    let mut game = quiet_game();
    game.enemies.push(Enemy::Cloud(just_run::zombie::CloudZombie::new(30 * TILE, 30 * TILE)));
    game.updates = 300;
    game.breed_clouds();
    assert_eq!(game.enemies.len(), 2);
    assert_eq!(game.enemies[1].zombie_type(), 4);
    game.updates = 301;
    game.breed_clouds();
    assert_eq!(game.enemies.len(), 2);
}

#[test]
fn cinematic_counts_down_then_moves_on() {
    let mut game = quiet_game();
    game.completed_lvl = true;
    let (step, next) = game.cinematic_frame(2, true, Millis(16));
    assert_eq!((step, next), (CinematicStep::Playing, 1));
    assert_eq!(game.vehicle.get_y(), VEHICLE_STARTING_Y - just_run::units::GAME);
    let (step, next) = game.cinematic_frame(0, false, Millis(16));
    assert_eq!((step, next), (CinematicStep::Completed, -1));
    let (step, _) = game.cinematic_frame(-1, true, Millis(16));
    assert_eq!(step, CinematicStep::NextLevel);
    assert!(!game.completed_lvl);
    assert_eq!(game.level, 2);
}

#[test]
fn first_touched_trap_springs_only() {
    let mut game = quiet_game();
    game.traps.push(BearTrap::new(40 * TILE, 40 * TILE));
    game.traps.push(BearTrap::new(30 * TILE, 30 * TILE));
    game.enemies.push(Enemy::Slow(SlowZombie::new(30 * TILE, 30 * TILE)));
    game.enemies.push(Enemy::Slow(SlowZombie::new(30 * TILE, 30 * TILE + 1)));
    assert!(!game.check_traps());
    assert_eq!(game.traps.len(), 1);
    assert_eq!(game.enemies.len(), 1);
    assert_eq!(game.enemies[0].get_map_y(), 30 * TILE + 1 + TILE / 2);
    assert_eq!(game.tripped[0].animation_timer, 1);
}
