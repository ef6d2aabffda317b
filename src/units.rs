//! Fixed-point units shared by the simulation.
//!
//! A position is measured in sub-units: one game unit (one pixel of the
//! art at scale 1) is `GAME` sub-units, and a tile is 32 game units.
//! Velocities are sub-units per millisecond, accelerations sub-units per
//! millisecond per millisecond.
use vstd::prelude::*;

verus! {

/// Sub-units in one game unit.
pub const GAME: i64 = 1_000_000;

/// Side of one map tile, in sub-units.
pub const TILE: i64 = 32_000_000;

/// Half of a tile, in sub-units.
pub const HALF_TILE: i64 = 16_000_000;

/// Tiles on each side of a page (the visible window of the map).
pub const PAGE_TILES: i64 = 20;

/// Side of a page, in sub-units.
pub const PAGE_SIZE: i64 = 640_000_000;

/// Target number of frames per second.
pub const TARGET_FRAMERATE: i64 = 60;

/// Nominal length of one frame in milliseconds.
pub const FRAME_MILLIS: i64 = 16;

/// Longest frame step fed to the physics: five nominal frames.
pub const MAX_FRAME_MILLIS: i64 = 80;

/// A span of time in whole milliseconds.
#[derive(Clone, Copy, Debug, PartialEq, Eq, Structural)]
pub struct Millis(pub i64);

/// The time step the physics uses for a measured frame time: the measured
/// value clamped into `0 ..= MAX_FRAME_MILLIS`.
pub open spec fn clamped_frame_spec(t: int) -> int {
    if t < 0 {
        0
    } else if t > MAX_FRAME_MILLIS {
        MAX_FRAME_MILLIS as int
    } else {
        t
    }
}

/// Clamps a measured frame time so that one slow frame cannot produce a
/// large integration step.
pub fn clamp_frame_time(elapsed: Millis) -> (r: Millis)
    ensures
        r.0 == clamped_frame_spec(elapsed.0 as int),
        0 <= r.0 <= MAX_FRAME_MILLIS,
{
    if elapsed.0 < 0 {
        Millis(0)
    } else if elapsed.0 > MAX_FRAME_MILLIS {
        Millis(MAX_FRAME_MILLIS)
    } else {
        elapsed
    }
}

/// Euclidean remainder of `a` by a positive modulus, as a spec value.
pub open spec fn wrap_spec(a: int, m: int) -> int {
    a % m
}

/// Projects a map-space coordinate into the visible page: the coordinate
/// modulo the page size, always in `0 .. PAGE_SIZE`.
pub fn to_screen(a: i64) -> (r: i64)
    ensures
        r == wrap_spec(a as int, PAGE_SIZE as int),
        0 <= r < PAGE_SIZE,
{
    let m = a % PAGE_SIZE;
    if m < 0 {
        m + PAGE_SIZE
    } else {
        m
    }
}

/// Floor of `a / TILE`: the index of the tile that holds coordinate `a`.
pub fn tile_index(a: i64) -> (r: i64)
    ensures
        r == (a as int) / (TILE as int),
        -0x100_0000_0000 <= r <= 0x100_0000_0000,
{
    if a >= 0 {
        a / TILE
    } else {
        let q = (-(a + 1)) / TILE;
        -q - 1
    }
}

} // verus!
