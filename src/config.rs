use vstd::prelude::*;

verus! {

/// Player speed in pixels per second.
pub const PLAYER_SPEED: u32 = 500;

/// Side of the player's sprite in pixels.
pub const PLAYER_SIZE: u32 = 64;

/// Side of an enemy's sprite in pixels.
pub const ENEMY_SIZE: u32 = 64;

/// How many enemies the spawner creates.
pub const NUMBER_OF_ENEMIES: usize = 5;

/// Enemy speed in pixels per second.
pub const ENEMY_SPEED: u32 = 100;

/// Length units in one pixel: positions are held in micro-pixels.
pub const UNITS_PER_PIXEL: i64 = 1_000_000;

/// Length units in half a pixel.
pub const HALF_PIXEL_UNITS: i64 = 500_000;

/// A heading component of full length: headings are held in thousandths.
pub const DIRECTION_SCALE: i64 = 1000;

/// Each component of a diagonal unit heading, in thousandths (1000 / sqrt 2, rounded down).
pub const DIAGONAL: i64 = 707;

/// The tunable constants of the game, passed explicitly to every step.
#[derive(Clone, Copy, Debug, PartialEq, Eq)]
pub struct Config {
    /// Pixels per second.
    pub player_speed: u32,
    /// Pixels.
    pub player_size: u32,
    /// Pixels.
    pub enemy_size: u32,
    pub number_of_enemies: usize,
    /// Pixels per second.
    pub enemy_speed: u32,
}

impl Default for Config {
    fn default() -> (c: Config)
        ensures
            c.player_speed == PLAYER_SPEED,
            c.player_size == PLAYER_SIZE,
            c.enemy_size == ENEMY_SIZE,
            c.number_of_enemies == NUMBER_OF_ENEMIES,
            c.enemy_speed == ENEMY_SPEED,
    {
        Config {
            player_speed: PLAYER_SPEED,
            player_size: PLAYER_SIZE,
            enemy_size: ENEMY_SIZE,
            number_of_enemies: NUMBER_OF_ENEMIES,
            enemy_speed: ENEMY_SPEED,
        }
    }
}

/// The window's size in pixels, as the host reports it each frame.
#[derive(Clone, Copy, Debug, PartialEq, Eq)]
pub struct Window {
    pub width: u32,
    pub height: u32,
}

/// A length of `px` pixels, in micro-pixels.
pub open spec fn units(px: int) -> int {
    px * UNITS_PER_PIXEL
}

/// Half of a sprite of side `size` pixels, in micro-pixels.
pub open spec fn half_extent(size: u32) -> int {
    size as int * HALF_PIXEL_UNITS
}

/// Lowest coordinate that keeps a sprite of side `size` inside the window.
pub open spec fn low_bound(size: u32) -> int {
    half_extent(size)
}

/// Highest coordinate that keeps a sprite of side `size` inside a window
/// dimension of `dim` pixels.
pub open spec fn high_bound(dim: u32, size: u32) -> int {
    units(dim as int) - half_extent(size)
}

/// `half_extent` computed.
pub(crate) fn half_extent_units(size: u32) -> (r: i64)
    ensures
        r == half_extent(size),
        0 <= r <= 2_147_483_648 * 1_000_000,
{
    size as i64 * HALF_PIXEL_UNITS
}

/// `high_bound` computed.
pub(crate) fn high_bound_units(dim: u32, size: u32) -> (r: i64)
    ensures
        r == high_bound(dim, size),
{
    dim as i64 * UNITS_PER_PIXEL - half_extent_units(size)
}

} // verus!
