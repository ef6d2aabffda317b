use vstd::prelude::*;

use crate::backdrop::FixedBackdrop;
use crate::random::random_in;
use crate::rect::Rectangle;
use crate::units::{tile_index, PAGE_TILES, TILE};

verus! {

/// Rows (and columns) of tiles in a level.
pub const LEVEL_TILES: usize = 60;

/// Tiles at or after this index along an axis fall in the second page.
pub const SECOND_PAGE_TILE: i64 = 20;

/// Tiles at or after this index along an axis fall in the third page.
pub const THIRD_PAGE_TILE: i64 = 40;

/// What occupies one cell of the grid.
#[derive(Clone, Copy, Debug, PartialEq, Eq, Structural)]
pub enum TileType {
    Air,
    Wall,
}

/// One cell of the grid.
#[derive(Clone, Copy, Debug, PartialEq, Eq, Structural)]
pub struct Tile {
    pub tile_type: TileType,
}

/// A tile reported by a collision query, with its grid position.
#[derive(Clone, Copy, Debug, PartialEq, Eq, Structural)]
pub struct CollisionTile {
    pub tile_type: TileType,
    pub row: i64,
    pub col: i64,
}

impl CollisionTile {
    pub fn new(row: i64, col: i64, tile_type: TileType) -> (r: CollisionTile)
        ensures
            r == (CollisionTile { tile_type, row, col }),
    {
        CollisionTile { tile_type, row, col }
    }
}

/// The level's tile grid, its backdrop, and the page currently shown.
pub struct TileMap {
    pub background: FixedBackdrop,
    pub tiles: Vec<Vec<Tile>>,
    pub page_x: u32,
    pub page_y: u32,
}

/// Whether `(i, j)` lies on the outer ring of the grid.
pub open spec fn on_border(i: int, j: int) -> bool {
    i == 0 || j == 0 || i == LEVEL_TILES - 1 || j == LEVEL_TILES - 1
}

/// Whether `(i, j)` lies in the corner where the player and vehicle start,
/// which is kept free of scattered walls.
pub open spec fn in_start_area(i: int, j: int) -> bool {
    0 < i < 9 && 0 < j < 9
}

/// The layout of a level: the first level is an open field inside a border;
/// later levels add a wall wherever a chosen row meets a chosen column,
/// except in the start area.
pub open spec fn layout_spec(level: i32, rows: Seq<i32>, cols: Seq<i32>, i: int, j: int) -> TileType {
    if on_border(i, j) {
        TileType::Wall
    } else if level != 1 && rows.contains(i as i32) && cols.contains(j as i32) && !in_start_area(i, j) {
        TileType::Wall
    } else {
        TileType::Air
    }
}

/// Page index along one axis for a map-space coordinate.
pub open spec fn page_of(p: int) -> u32 {
    if p < SECOND_PAGE_TILE * TILE {
        0
    } else if p < THIRD_PAGE_TILE * TILE {
        1
    } else {
        2
    }
}

/// Column of the first wall in `row` from `col` through `last_col`.
pub open spec fn first_wall_in_row(map: TileMap, row: int, col: int, last_col: int) -> Option<int>
    decreases last_col + 1 - col,
{
    if col > last_col {
        None
    } else if map.kind_at(row, col) == TileType::Wall {
        Some(col)
    } else {
        first_wall_in_row(map, row, col + 1, last_col)
    }
}

/// First wall, in row-major order, of the rows `row ..= last_row` and the
/// columns `first_col ..= last_col`.
pub open spec fn first_wall_from(
    map: TileMap,
    row: int,
    last_row: int,
    first_col: int,
    last_col: int,
) -> Option<(int, int)>
    decreases last_row + 1 - row,
{
    if row > last_row {
        None
    } else {
        match first_wall_in_row(map, row, first_col, last_col) {
            Some(c) => Some((row, c)),
            None => first_wall_from(map, row + 1, last_row, first_col, last_col),
        }
    }
}

/// First wall, in row-major order, among the tiles that `rect` touches.
pub open spec fn first_wall_spec(map: TileMap, rect: Rectangle) -> Option<(int, int)> {
    first_wall_from(
        map,
        rect.top_spec() / (TILE as int),
        rect.bottom_spec() / (TILE as int),
        rect.left_spec() / (TILE as int),
        rect.right_spec() / (TILE as int),
    )
}

/// Whether a rectangle's edges are representable.
pub open spec fn rect_fits(rect: Rectangle) -> bool {
    &&& i64::MIN <= rect.right_spec() <= i64::MAX
    &&& i64::MIN <= rect.bottom_spec() <= i64::MAX
}

/// What every freshly loaded map of `level` satisfies (see `TileMap::load_map`).
pub open spec fn fresh_map(m: TileMap, level: i32) -> bool {
    &&& m.wf()
    &&& m.page_x == 0 && m.page_y == 0
    &&& level == 1 ==> forall|i: int, j: int|
        0 <= i < LEVEL_TILES && 0 <= j < LEVEL_TILES ==> #[trigger] m.kind_at(i, j)
            == (if on_border(i, j) {
            TileType::Wall
        } else {
            TileType::Air
        })
    &&& forall|i: int, j: int|
        0 <= i < LEVEL_TILES && 0 <= j < LEVEL_TILES && (on_border(i, j) || in_start_area(i, j))
            ==> #[trigger] m.kind_at(i, j) == (if on_border(i, j) {
            TileType::Wall
        } else {
            TileType::Air
        })
}

fn contains_i32(v: &Vec<i32>, x: i32) -> (r: bool)
    ensures
        r == v@.contains(x),
{
    let mut k: usize = 0;
    while k < v.len()
        invariant
            k <= v.len(),
            forall|m: int| 0 <= m < k ==> v@[m] != x,
        decreases v.len() - k,
    {
        if v[k] == x {
            return true;
        }
        k += 1;
    }
    false
}

fn page_index(p: i64) -> (r: u32)
    ensures
        r == page_of(p as int),
{
    if p < SECOND_PAGE_TILE * TILE {
        0
    } else if p < THIRD_PAGE_TILE * TILE {
        1
    } else {
        2
    }
}

impl TileMap {
    /// A square grid of `LEVEL_TILES` rows of `LEVEL_TILES` tiles.
    pub open spec fn wf(&self) -> bool {
        &&& self.tiles@.len() == LEVEL_TILES
        &&& forall|i: int| 0 <= i < LEVEL_TILES ==> #[trigger] self.tiles@[i]@.len() == LEVEL_TILES
    }

    /// What occupies `(row, col)`; everything outside the grid is wall.
    pub open spec fn kind_at(&self, row: int, col: int) -> TileType {
        if 0 <= row < self.tiles@.len() && 0 <= col < self.tiles@[row]@.len() {
            self.tiles@[row]@[col].tile_type
        } else {
            TileType::Wall
        }
    }

    /// Whether every tile that `rect` touches lies inside the grid.
    pub open spec fn holds_rect(&self, rect: Rectangle) -> bool {
        &&& 0 <= rect.top_spec() / (TILE as int)
        &&& rect.bottom_spec() / (TILE as int) < LEVEL_TILES
        &&& 0 <= rect.left_spec() / (TILE as int)
        &&& rect.right_spec() / (TILE as int) < LEVEL_TILES
    }

    /// Builds the grid of a level from the rows and columns that carry
    /// scattered walls.
    pub fn from_layout(level: i32, rows: &Vec<i32>, cols: &Vec<i32>) -> (r: TileMap)
        ensures
            r.wf(),
            r.page_x == 0 && r.page_y == 0,
            forall|i: int, j: int|
                0 <= i < LEVEL_TILES && 0 <= j < LEVEL_TILES ==> #[trigger] r.kind_at(i, j)
                    == layout_spec(level, rows@, cols@, i, j),
            level == 1 ==> r.background.surface_id@ == "assets/base/bkBlue.bmp"@,
            level != 1 ==> r.background.surface_id@ == "assets/base/bkRed.bmp"@,
    {
        let mut tiles: Vec<Vec<Tile>> = Vec::new();
        let mut i: usize = 0;
        while i < LEVEL_TILES
            invariant
                i <= LEVEL_TILES,
                tiles@.len() == i,
                forall|a: int| 0 <= a < i ==> #[trigger] tiles@[a]@.len() == LEVEL_TILES,
                forall|a: int, b: int|
                    0 <= a < i && 0 <= b < LEVEL_TILES ==> #[trigger] tiles@[a]@[b].tile_type
                        == layout_spec(level, rows@, cols@, a, b),
            decreases LEVEL_TILES - i,
        {
            let mut row: Vec<Tile> = Vec::new();
            let mut j: usize = 0;
            while j < LEVEL_TILES
                invariant
                    i < LEVEL_TILES,
                    j <= LEVEL_TILES,
                    row@.len() == j,
                    forall|b: int|
                        0 <= b < j ==> #[trigger] row@[b].tile_type == layout_spec(
                            level,
                            rows@,
                            cols@,
                            i as int,
                            b,
                        ),
                decreases LEVEL_TILES - j,
            {
                let border = i == 0 || j == 0 || i == LEVEL_TILES - 1 || j == LEVEL_TILES - 1;
                let kind = if border {
                    TileType::Wall
                } else if level != 1 && contains_i32(rows, i as i32) && contains_i32(cols, j as i32)
                    && !(0 < i && i < 9 && 0 < j && j < 9) {
                    TileType::Wall
                } else {
                    TileType::Air
                };
                row.push(Tile { tile_type: kind });
                j += 1;
            }
            tiles.push(row);
            i += 1;
        }
        let path = if level == 1 {
            String::from_str("assets/base/bkBlue.bmp")
        } else {
            String::from_str("assets/base/bkRed.bmp")
        };
        TileMap { background: FixedBackdrop::new(path), tiles, page_x: 0, page_y: 0 }
    }

    /// Loads the map of `level`: the first level is fixed; later ones scatter
    /// walls over randomly chosen rows and columns.
    pub fn load_map(level: i32) -> (r: TileMap)
        ensures
            fresh_map(r, level),
    {
        let mut rows: Vec<i32> = Vec::new();
        let mut cols: Vec<i32> = Vec::new();
        if level != 1 {
            let num_cols = random_in(1, 30);
            let num_rows = random_in(1, 30);
            let mut k: u32 = 0;
            while k < num_cols
                decreases num_cols - k,
            {
                cols.push(random_in(1, 60) as i32);
                k += 1;
            }
            k = 0;
            while k < num_rows
                decreases num_rows - k,
            {
                rows.push(random_in(1, 60) as i32);
                k += 1;
            }
        }
        TileMap::from_layout(level, &rows, &cols)
    }

    /// Selects the page that holds the point `(player_x, player_y)`.
    pub fn set_page(&mut self, player_x: i64, player_y: i64)
        ensures
            final(self).page_x == page_of(player_x as int),
            final(self).page_y == page_of(player_y as int),
            final(self).tiles == old(self).tiles,
            final(self).background == old(self).background,
    {
        self.page_x = page_index(player_x);
        self.page_y = page_index(player_y);
    }

    pub fn get_page_x(&self) -> (r: u32)
        ensures
            r == self.page_x,
    {
        self.page_x
    }

    pub fn get_page_y(&self) -> (r: u32)
        ensures
            r == self.page_y,
    {
        self.page_y
    }

    /// Hands over the grid.
    pub fn get_tiles(self) -> (r: Vec<Vec<Tile>>)
        ensures
            r@ == self.tiles@,
    {
        self.tiles
    }

    /// What occupies `(row, col)`; everything outside the grid is wall.
    pub fn tile_type_at(&self, row: i64, col: i64) -> (r: TileType)
        ensures
            r == self.kind_at(row as int, col as int),
    {
        if 0 <= row && (row as u64) < (self.tiles.len() as u64) && 0 <= col && (col as u64)
            < (self.tiles[row as usize].len() as u64) {
            self.tiles[row as usize][col as usize].tile_type
        } else {
            TileType::Wall
        }
    }

    /// Whether a map-space point lies inside the page being shown: from
    /// the page's lower edge (included) to its upper edge (excluded).
    pub open spec fn on_screen_spec(&self, map_x: int, map_y: int) -> bool {
        let lx = self.page_x * PAGE_TILES * TILE;
        let ly = self.page_y * PAGE_TILES * TILE;
        lx <= map_x < lx + PAGE_TILES * TILE && ly <= map_y < ly + PAGE_TILES * TILE
    }

    pub fn on_screen(&self, map_x: i64, map_y: i64) -> (r: bool)
        requires
            self.page_x <= 2 && self.page_y <= 2,
        ensures
            r == self.on_screen_spec(map_x as int, map_y as int),
    {
        let lower_x = self.page_x as i64 * PAGE_TILES * TILE;
        let upper_x = lower_x + PAGE_TILES * TILE;
        let lower_y = self.page_y as i64 * PAGE_TILES * TILE;
        let upper_y = lower_y + PAGE_TILES * TILE;
        map_x < upper_x && map_x >= lower_x && map_y < upper_y && map_y >= lower_y
    }

    /// Tiles are static: advancing the map changes nothing.
    pub fn update(&mut self)
        ensures
            *final(self) == *old(self),
    {
    }

    /// Every tile that `rect` touches, row by row, each row left to right.
    /// The rectangle must lie inside the grid.
    pub fn get_colliding_tiles(&self, rect: &Rectangle) -> (r: Vec<CollisionTile>)
        requires
            self.wf(),
            rect_fits(*rect),
            rect.width >= 0 && rect.height >= 0,
            self.holds_rect(*rect),
        ensures
            ({
                let r0 = rect.top_spec() / (TILE as int);
                let c0 = rect.left_spec() / (TILE as int);
                let w = rect.right_spec() / (TILE as int) - c0 + 1;
                let h = rect.bottom_spec() / (TILE as int) - r0 + 1;
                &&& r@.len() == w * h
                &&& forall|k: int|
                    0 <= k < r@.len() ==> #[trigger] r@[k] == (CollisionTile {
                        row: (r0 + k / w) as i64,
                        col: (c0 + k % w) as i64,
                        tile_type: self.kind_at(r0 + k / w, c0 + k % w),
                    })
            }),
    {
        let first_row = tile_index(rect.top());
        let last_row = tile_index(rect.bottom());
        let first_col = tile_index(rect.left());
        let last_col = tile_index(rect.right());
        let ghost w = last_col - first_col + 1;
        let mut out: Vec<CollisionTile> = Vec::new();
        let mut row = first_row;
        while row <= last_row
            invariant
                self.wf(),
                0 <= first_row <= row <= last_row + 1,
                last_row < LEVEL_TILES,
                0 <= first_col <= last_col < LEVEL_TILES,
                w == last_col - first_col + 1,
                out@.len() == (row - first_row) * w,
                forall|k: int|
                    0 <= k < out@.len() ==> #[trigger] out@[k] == (CollisionTile {
                        row: (first_row + k / w) as i64,
                        col: (first_col + k % w) as i64,
                        tile_type: self.kind_at(first_row + k / w, first_col + k % w),
                    }),
            decreases last_row + 1 - row,
        {
            let mut col = first_col;
            while col <= last_col
                invariant
                    self.wf(),
                    0 <= first_row <= row <= last_row,
                    last_row < LEVEL_TILES,
                    0 <= first_col <= col <= last_col + 1,
                    last_col < LEVEL_TILES,
                    w == last_col - first_col + 1,
                    out@.len() == (row - first_row) * w + (col - first_col),
                    forall|k: int|
                        0 <= k < out@.len() ==> #[trigger] out@[k] == (CollisionTile {
                            row: (first_row + k / w) as i64,
                            col: (first_col + k % w) as i64,
                            tile_type: self.kind_at(first_row + k / w, first_col + k % w),
                        }),
                decreases last_col + 1 - col,
            {
                let kind = self.tiles[row as usize][col as usize].tile_type;
                proof {
                    let k = out@.len() as int;
                    vstd::arithmetic::div_mod::lemma_fundamental_div_mod_converse(
                        k,
                        w,
                        row - first_row,
                        col - first_col,
                    );
                }
                out.push(CollisionTile::new(row, col, kind));
                col += 1;
            }
            proof {
                vstd::arithmetic::mul::lemma_mul_is_distributive_add_other_way(w, row - first_row, 1);
            }
            row += 1;
        }
        proof {
            vstd::arithmetic::mul::lemma_mul_is_commutative(w, last_row - first_row + 1);
        }
        out
    }

    /// The first wall, in row-major order, among the tiles that `rect`
    /// touches; tiles outside the grid count as wall.
    pub fn first_wall(&self, rect: &Rectangle) -> (r: Option<CollisionTile>)
        requires
            rect_fits(*rect),
        ensures
            match first_wall_spec(*self, *rect) {
                Some((row, col)) => {
                    &&& r == Some(
                        CollisionTile { tile_type: TileType::Wall, row: row as i64, col: col as i64 },
                    )
                    &&& rect.top_spec() / (TILE as int) <= row <= rect.bottom_spec() / (TILE as int)
                    &&& rect.left_spec() / (TILE as int) <= col <= rect.right_spec() / (TILE as int)
                },
                None => r.is_none(),
            },
    {
        let first_row = tile_index(rect.top());
        let last_row = tile_index(rect.bottom());
        let first_col = tile_index(rect.left());
        let last_col = tile_index(rect.right());
        let mut row = first_row;
        while row <= last_row
            invariant
                first_row <= row,
                -0x100_0000_0000 <= first_col <= 0x100_0000_0000,
                -0x100_0000_0000 <= last_col <= 0x100_0000_0000,
                -0x100_0000_0000 <= last_row <= 0x100_0000_0000,
                first_wall_spec(*self, *rect) == first_wall_from(
                    *self,
                    row as int,
                    last_row as int,
                    first_col as int,
                    last_col as int,
                ),
                first_row == rect.top_spec() / (TILE as int),
                last_row == rect.bottom_spec() / (TILE as int),
                first_col == rect.left_spec() / (TILE as int),
                last_col == rect.right_spec() / (TILE as int),
            decreases last_row + 1 - row,
        {
            let mut col = first_col;
            while col <= last_col
                invariant
                    first_row <= row <= last_row,
                    first_row == rect.top_spec() / (TILE as int),
                    last_row == rect.bottom_spec() / (TILE as int),
                    first_col == rect.left_spec() / (TILE as int),
                    last_col == rect.right_spec() / (TILE as int),
                    first_col <= col,
                    col <= last_col + 1 || col == first_col,
                    -0x100_0000_0000 <= last_col <= 0x100_0000_0000,
                    first_wall_spec(*self, *rect) == first_wall_from(
                        *self,
                        row as int,
                        last_row as int,
                        first_col as int,
                        last_col as int,
                    ),
                    first_wall_in_row(*self, row as int, first_col as int, last_col as int)
                        == first_wall_in_row(*self, row as int, col as int, last_col as int),
                decreases last_col + 1 - col,
            {
                if self.tile_type_at(row, col) == TileType::Wall {
                    assert(first_wall_in_row(*self, row as int, col as int, last_col as int) == Some(
                        col as int,
                    ));
                    assert(first_wall_from(
                        *self,
                        row as int,
                        last_row as int,
                        first_col as int,
                        last_col as int,
                    ) == Some((row as int, col as int)));
                    return Some(CollisionTile::new(row, col, TileType::Wall));
                }
                col += 1;
            }
            row += 1;
        }
        None
    }
}

} // verus!
