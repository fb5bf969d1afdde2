use vstd::prelude::*;
use vstd::arithmetic::div_mod::{lemma_div_by_multiple, lemma_div_is_ordered};
use rand::Rng;
use crate::config::{
    half_extent, half_extent_units, high_bound, low_bound, units, Config, Window,
    HALF_PIXEL_UNITS, UNITS_PER_PIXEL,
};
use crate::entities::{Direction, Enemy, Player, Position};

verus! {

/// Largest value that a heading draw can take; draws run from 1 up to it.
pub const HEADING_DRAWS: u64 = 1000;

/// `r` is the square root of `n`, rounded down.
pub open spec fn is_floor_sqrt(n: int, r: int) -> bool {
    0 <= r && r * r <= n < (r + 1) * (r + 1)
}

/// The square root of `n`, rounded down.
pub open spec fn floor_sqrt(n: int) -> int {
    choose|r: int| is_floor_sqrt(n, r)
}

/// The unit heading, in thousandths, that points along the vector `(a, b)`:
/// each component divided by the vector's length, itself taken in thousandths.
pub open spec fn heading_from(a: int, b: int) -> Direction {
    let len = floor_sqrt(1_000_000 * (a * a + b * b));
    Direction { x: (a * 1_000_000 / len) as i64, y: (b * 1_000_000 / len) as i64 }
}

/// How many micro-pixels of a window dimension of `dim` pixels an enemy's
/// spawn coordinate may range over.
pub open spec fn spawn_span(dim: u32, size: u32) -> int {
    units(dim as int) - 2 * half_extent(size)
}

/// A spawned sprite of side `size` stands at least half its side from each
/// edge at the low end and more than that at the high end.
pub open spec fn spawned_inside(p: Position, window: Window, size: u32) -> bool {
    low_bound(size) <= p.x < high_bound(window.width, size) && low_bound(size) <= p.y
        < high_bound(window.height, size)
}

/// A heading that the spawner can give: the unit heading along some vector
/// whose components are whole draws.
pub open spec fn spawn_heading(d: Direction) -> bool {
    exists|a: int, b: int|
        1 <= a <= HEADING_DRAWS && 1 <= b <= HEADING_DRAWS && d == #[trigger] heading_from(a, b)
}

/// The centre of the window.
pub open spec fn window_centre(window: Window) -> Position {
    Position { x: (units(window.width as int) / 2) as i64, y: (units(window.height as int) / 2) as i64 }
}

/// Relies on rand's `Rng::gen_range` over `thread_rng()`: on the range
/// `0..bound`, which must not be empty, it returns a value of that range.
#[verifier::external_body]
fn draw_below(bound: u64) -> (r: u64)
    requires
        bound > 0,
    ensures
        r < bound,
{
    rand::thread_rng().gen_range(0..bound)
}

proof fn lemma_floor_sqrt_unique(n: int, r: int, s: int)
    requires
        is_floor_sqrt(n, r),
        is_floor_sqrt(n, s),
    ensures
        r == s,
{
    if r < s {
        assert((r + 1) * (r + 1) <= s * s) by (nonlinear_arith)
            requires
                0 <= r + 1 <= s,
        ;
    } else if s < r {
        assert((s + 1) * (s + 1) <= r * r) by (nonlinear_arith)
            requires
                0 <= s + 1 <= r,
        ;
    }
}

/// The square root of `n`, rounded down, by bisection.
pub(crate) fn integer_sqrt(n: u64) -> (r: u64)
    requires
        n <= 4_000_000_000_000,
    ensures
        is_floor_sqrt(n as int, r as int),
        r == floor_sqrt(n as int),
{
    let mut lo: u64 = 0;
    let mut hi: u64 = 2_000_001;
    assert(2_000_001 * 2_000_001 > 4_000_000_000_000) by (nonlinear_arith);
    while lo + 1 < hi
        invariant
            lo < hi <= 2_000_001,
            n <= 4_000_000_000_000,
            lo * lo <= n < hi * hi,
        decreases hi - lo,
    {
        let mid = lo + (hi - lo) / 2;
        assert(mid * mid <= 2_000_001 * 2_000_001) by (nonlinear_arith)
            requires
                mid <= 2_000_001,
        ;
        if mid * mid <= n {
            lo = mid;
        } else {
            hi = mid;
        }
    }
    proof {
        assert(is_floor_sqrt(n as int, lo as int));
        lemma_floor_sqrt_unique(n as int, lo as int, floor_sqrt(n as int));
    }
    lo
}

/// The unit heading along `(a, b)`, with each component in thousandths.
fn heading_of_draws(a: u64, b: u64) -> (d: Direction)
    requires
        1 <= a <= HEADING_DRAWS,
        1 <= b <= HEADING_DRAWS,
    ensures
        d == heading_from(a as int, b as int),
        d.wf(),
        0 <= d.x && 0 <= d.y,
{
    assert(1_000_000 * (a * a + b * b) <= 2_000_000_000_000) by (nonlinear_arith)
        requires
            1 <= a <= 1000,
            1 <= b <= 1000,
    ;
    let len = integer_sqrt(1_000_000 * (a * a + b * b));
    proof {
        let n = 1_000_000 * (a * a + b * b);
        assert(1000 * a <= len && 1000 * b <= len) by (nonlinear_arith)
            requires
                n < (len + 1) * (len + 1),
                n == 1_000_000 * (a * a + b * b),
                a >= 1,
                b >= 1,
                len >= 0,
        ;
        assert(a * 1_000_000 <= len * 1000 && b * 1_000_000 <= len * 1000) by (nonlinear_arith)
            requires
                1000 * a <= len,
                1000 * b <= len,
        ;
        lemma_div_is_ordered(a * 1_000_000, len * 1000, len as int);
        lemma_div_is_ordered(b * 1_000_000, len * 1000, len as int);
        lemma_div_by_multiple(1000, len as int);
        assert(1000 * len == len * 1000) by (nonlinear_arith);
    }
    Direction { x: (a * 1_000_000 / len) as i64, y: (b * 1_000_000 / len) as i64 }
}

/// An enemy made from the spawner's draws: `rx` and `ry` micro-pixels past the
/// lowest spawn coordinate on each axis, heading along `(a, b)`.
pub fn enemy_from_draws(config: &Config, window: &Window, rx: u64, ry: u64, a: u64, b: u64) -> (e:
    Enemy)
    requires
        config.enemy_size < window.width,
        config.enemy_size < window.height,
        rx < spawn_span(window.width, config.enemy_size),
        ry < spawn_span(window.height, config.enemy_size),
        1 <= a <= HEADING_DRAWS,
        1 <= b <= HEADING_DRAWS,
    ensures
        e.position.x == low_bound(config.enemy_size) + rx,
        e.position.y == low_bound(config.enemy_size) + ry,
        e.direction == heading_from(a as int, b as int),
        e.wf(),
        spawned_inside(e.position, *window, config.enemy_size),
        spawn_heading(e.direction),
{
    let half = half_extent_units(config.enemy_size);
    let direction = heading_of_draws(a, b);
    Enemy { position: Position { x: half + rx as i64, y: half + ry as i64 }, direction }
}

/// The micro-pixels that a spawn coordinate ranges over along a dimension of
/// `dim` pixels.
fn spawn_span_units(dim: u32, size: u32) -> (r: u64)
    requires
        size < dim,
    ensures
        r == spawn_span(dim, size),
        r > 0,
{
    let gap: u64 = (dim - size) as u64;
    assert(gap * 1_000_000 <= 0xffff_ffff * 1_000_000) by (nonlinear_arith)
        requires
            gap <= 0xffff_ffff,
    ;
    gap * (UNITS_PER_PIXEL as u64)
}

/// Creates the configured number of enemies at random places inside the
/// window, each heading along a random vector of the upper right quadrant.
pub fn spawn_enemies(config: &Config, window: &Window) -> (enemies: Vec<Enemy>)
    requires
        config.enemy_size < window.width,
        config.enemy_size < window.height,
    ensures
        enemies@.len() == config.number_of_enemies,
        forall|i: int|
            0 <= i < enemies@.len() ==> (#[trigger] enemies@[i]).wf() && spawned_inside(
                enemies@[i].position,
                *window,
                config.enemy_size,
            ) && spawn_heading(enemies@[i].direction),
{
    let span_x = spawn_span_units(window.width, config.enemy_size);
    let span_y = spawn_span_units(window.height, config.enemy_size);
    let mut enemies: Vec<Enemy> = Vec::new();
    let mut k: usize = 0;
    while k < config.number_of_enemies
        invariant
            k <= config.number_of_enemies,
            enemies@.len() == k,
            config.enemy_size < window.width,
            config.enemy_size < window.height,
            span_x == spawn_span(window.width, config.enemy_size),
            span_y == spawn_span(window.height, config.enemy_size),
            span_x > 0,
            span_y > 0,
            forall|i: int|
                0 <= i < enemies@.len() ==> (#[trigger] enemies@[i]).wf() && spawned_inside(
                    enemies@[i].position,
                    *window,
                    config.enemy_size,
                ) && spawn_heading(enemies@[i].direction),
        decreases config.number_of_enemies - k,
    {
        let rx = draw_below(span_x);
        let ry = draw_below(span_y);
        let a = draw_below(HEADING_DRAWS) + 1;
        let b = draw_below(HEADING_DRAWS) + 1;
        let e = enemy_from_draws(config, window, rx, ry, a, b);
        enemies.push(e);
        k = k + 1;
    }
    enemies
}

/// Creates the player at the centre of the window.
pub fn spawn_player(window: &Window) -> (p: Player)
    ensures
        p.position == window_centre(*window),
{
    Player { position: spawn_camera(window) }
}

/// Where the camera stands: the centre of the window.
pub fn spawn_camera(window: &Window) -> (c: Position)
    ensures
        c == window_centre(*window),
{
    Position {
        x: window.width as i64 * HALF_PIXEL_UNITS,
        y: window.height as i64 * HALF_PIXEL_UNITS,
    }
}

} // verus!
