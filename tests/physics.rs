use just_run::common::{Character, POSITION_LIMIT, VELOCITY_LIMIT, X_BOX_RIGHT, Y_BOX_BOTTOM, Y_BOX_TOP};
use just_run::map::{CollisionTile, Tile, TileMap, TileType, LEVEL_TILES};
use just_run::rect::Rectangle;
use just_run::units::{clamp_frame_time, tile_index, to_screen, Millis, GAME, PAGE_SIZE, TILE};
use just_run::zombie::{SLOW_MAX_VELOCITY, SLOW_WALKING_ACCEL};

fn open_map() -> TileMap {
    TileMap::from_layout(1, &vec![], &vec![])
}

fn map_with_wall_column(col: usize) -> TileMap {
    let mut map = open_map();
    for row in 1..LEVEL_TILES - 1 {
        map.tiles[row][col] = Tile { tile_type: TileType::Wall };
    }
    map
}

#[test]
fn velocity_never_exceeds_cap() {
    let map = open_map();
    let mut c = Character::new(20 * TILE, 20 * TILE);
    c.elapsed_time = Millis(80);
    c.accel_x = 1;
    c.accel_y = -1;
    for _ in 0..50 {
        c.update_x(&map, 1_000_000, SLOW_MAX_VELOCITY);
        c.update_y(&map, 1_000_000, SLOW_MAX_VELOCITY);
        assert!(c.velocity_x.abs() <= SLOW_MAX_VELOCITY);
        assert!(c.velocity_y.abs() <= SLOW_MAX_VELOCITY);
    }
}

#[test]
fn coasting_velocity_decays_to_cap() {
    let map = open_map();
    let mut c = Character::new(20 * TILE, 20 * TILE);
    c.elapsed_time = Millis(16);
    c.accel_x = 0;
    c.velocity_x = 10 * SLOW_MAX_VELOCITY;
    c.update_x(&map, SLOW_WALKING_ACCEL, SLOW_MAX_VELOCITY);
    assert_eq!(c.velocity_x, SLOW_MAX_VELOCITY);
}

#[test]
fn wall_stop_scenario() {
    let map = map_with_wall_column(12);
    let mut c = Character::new(10 * TILE, 10 * TILE);
    c.velocity_x = 5 * GAME;
    c.accel_x = 0;
    c.elapsed_time = Millis(80);
    c.update_x(&map, 0, VELOCITY_LIMIT);
    assert_eq!(c.map_x + X_BOX_RIGHT, 12 * TILE);
    assert_eq!(c.velocity_x, 0);
}

#[test]
fn wall_stop_moving_left() {
    let map = map_with_wall_column(12);
    let mut c = Character::new(14 * TILE, 10 * TILE);
    c.velocity_x = -5 * GAME;
    c.accel_x = 0;
    c.elapsed_time = Millis(80);
    c.update_x(&map, 0, VELOCITY_LIMIT);
    assert_eq!(c.map_x + 6 * GAME, 13 * TILE);
    assert_eq!(c.velocity_x, 0);
}

#[test]
fn falling_stops_on_floor() {
    let map = open_map();
    let mut c = Character::new(10 * TILE, 57 * TILE);
    c.velocity_y = 5 * GAME;
    c.accel_y = 0;
    c.elapsed_time = Millis(80);
    c.update_y(&map, 0, VELOCITY_LIMIT);
    assert_eq!(c.map_y + Y_BOX_BOTTOM, 59 * TILE);
    assert_eq!(c.velocity_y, 0);
}

#[test]
fn rising_stops_under_ceiling() {
    let map = open_map();
    let mut c = Character::new(10 * TILE, 30 * GAME);
    c.velocity_y = -GAME / 8;
    c.accel_y = 0;
    c.elapsed_time = Millis(80);
    c.update_y(&map, 0, VELOCITY_LIMIT);
    assert_eq!(c.map_y + Y_BOX_TOP, TILE);
    assert_eq!(c.velocity_y, 0);
}

#[test]
fn page_window_is_half_open() {
    let map = open_map();
    assert!(map.on_screen(0, 0));
    assert!(!map.on_screen(20 * TILE, 5 * TILE));
    assert!(map.on_screen(20 * TILE - 1, 20 * TILE - 1));
}

#[test]
fn free_move_advances_by_delta() {
    let map = open_map();
    let mut c = Character::new(20 * TILE, 20 * TILE);
    c.velocity_x = 1000;
    c.accel_x = 0;
    c.elapsed_time = Millis(10);
    c.update_x(&map, 0, 1000);
    assert_eq!(c.map_x, 20 * TILE + 10_000);
    assert_eq!(c.velocity_x, 1000);
}

#[test]
fn acceleration_integrates_exactly() {
    let map = open_map();
    let mut c = Character::new(20 * TILE, 20 * TILE);
    c.accel_x = -1;
    c.elapsed_time = Millis(10);
    c.update_x(&map, 30, 1_000_000);
    assert_eq!(c.velocity_x, -300);
    assert_eq!(c.map_x, 20 * TILE - 3000);
}

#[test]
fn frame_time_is_clamped() {
    assert_eq!(clamp_frame_time(Millis(160)), Millis(80));
    assert_eq!(clamp_frame_time(Millis(16)), Millis(16));
    assert_eq!(clamp_frame_time(Millis(-3)), Millis(0));
}

#[test]
fn tile_index_floors() {
    assert_eq!(tile_index(0), 0);
    assert_eq!(tile_index(TILE - 1), 0);
    assert_eq!(tile_index(TILE), 1);
    assert_eq!(tile_index(-1), -1);
    assert_eq!(tile_index(-TILE), -1);
    assert_eq!(tile_index(-TILE - 1), -2);
}

#[test]
fn screen_projection_wraps() {
    assert_eq!(to_screen(PAGE_SIZE + 5), 5);
    assert_eq!(to_screen(-1), PAGE_SIZE - 1);
    let c = Character::new(PAGE_SIZE + 3 * TILE, 2 * TILE);
    assert_eq!(c.screen_x(), 3 * TILE);
    assert_eq!(c.map_center_x(), PAGE_SIZE + 3 * TILE + TILE / 2);
}

#[test]
fn rectangles_overlap_at_edges() {
    let a = Rectangle { x: 0, y: 0, width: 10, height: 10 };
    let b = Rectangle { x: 10, y: 10, width: 5, height: 5 };
    let c = Rectangle { x: 11, y: 0, width: 5, height: 5 };
    assert!(a.collides_with(&b));
    assert!(b.collides_with_player(&a));
    assert!(!a.collides_with(&c));
    assert_eq!(a.right(), 10);
    assert_eq!(b.bottom(), 15);
}

#[test]
fn colliding_tiles_row_major() {
    let map = map_with_wall_column(3);
    let rect = Rectangle { x: 2 * TILE + 5, y: TILE, width: TILE, height: TILE };
    let tiles = map.get_colliding_tiles(&rect);
    assert_eq!(tiles.len(), 4);
    assert_eq!(tiles[0], CollisionTile::new(1, 2, TileType::Air));
    assert_eq!(tiles[1], CollisionTile::new(1, 3, TileType::Wall));
    assert_eq!(tiles[2], CollisionTile::new(2, 2, TileType::Air));
    assert_eq!(tiles[3], CollisionTile::new(2, 3, TileType::Wall));
    let wall = map.first_wall(&rect).unwrap();
    assert_eq!((wall.row, wall.col), (1, 3));
}

#[test]
fn first_wall_outside_grid_is_wall() {
    let map = open_map();
    let rect = Rectangle { x: -TILE, y: 5 * TILE, width: 1, height: 1 };
    let wall = map.first_wall(&rect).unwrap();
    assert_eq!((wall.row, wall.col), (5, -1));
}

#[test]
fn pages_follow_the_player() {
    let mut map = open_map();
    map.set_page(5 * TILE, 25 * TILE);
    assert_eq!((map.get_page_x(), map.get_page_y()), (0, 1));
    map.set_page(20 * TILE, 45 * TILE);
    assert_eq!((map.get_page_x(), map.get_page_y()), (1, 2));
    assert!(map.on_screen(25 * TILE, 40 * TILE));
    assert!(!map.on_screen(5 * TILE, 45 * TILE));
}

#[test]
fn level_layouts() {
    let map = open_map();
    assert_eq!(map.tile_type_at(0, 5), TileType::Wall);
    assert_eq!(map.tile_type_at(59, 59), TileType::Wall);
    assert_eq!(map.tile_type_at(30, 30), TileType::Air);
    let later = TileMap::from_layout(2, &vec![3, 30], &vec![4, 40]);
    assert_eq!(later.tile_type_at(30, 40), TileType::Wall);
    assert_eq!(later.tile_type_at(3, 4), TileType::Air);
    assert_eq!(later.tile_type_at(30, 41), TileType::Air);
    assert_eq!(later.background.surface_id, "assets/base/bkRed.bmp");
    let random = TileMap::load_map(3);
    assert_eq!(random.get_tiles().len(), LEVEL_TILES);
}

#[test]
fn positions_saturate() {
    let map = open_map();
    let mut c = Character::new(POSITION_LIMIT - 10, 10 * TILE);
    c.velocity_x = 1000;
    c.accel_x = 0;
    c.elapsed_time = Millis(10);
    c.update_x(&map, 0, 1000);
    assert_eq!(c.map_x, POSITION_LIMIT);
}
