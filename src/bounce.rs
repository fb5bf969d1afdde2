use vstd::prelude::*;
use crate::config::{
    half_extent, half_extent_units, high_bound, high_bound_units, low_bound, Config, Window,
};
use crate::entities::{Direction, Enemy, Player, Position, World};

verus! {

pub open spec fn abs(v: int) -> int {
    if v < 0 {
        -v
    } else {
        v
    }
}

/// A heading component `c` of a sprite at coordinate `p`: turned towards
/// increasing coordinates below `lo`, towards decreasing ones above `hi`.
pub open spec fn bounced_component(c: int, p: int, lo: int, hi: int) -> int {
    let raised = if p < lo { abs(c) } else { c };
    if p > hi { -abs(raised) } else { raised }
}

/// The heading of enemy `e` of side `size` after it meets the window's edges.
pub open spec fn bounced(e: Enemy, window: Window, size: u32) -> Direction {
    Direction {
        x: bounced_component(
            e.direction.x as int,
            e.position.x as int,
            low_bound(size),
            high_bound(window.width, size),
        ) as i64,
        y: bounced_component(
            e.direction.y as int,
            e.position.y as int,
            low_bound(size),
            high_bound(window.height, size),
        ) as i64,
    }
}

/// The centres of two sprites of side `size` are closer than one side.
pub open spec fn near(a: Position, b: Position, size: u32) -> bool {
    let dx = a.x - b.x;
    let dy = a.y - b.y;
    dx * dx + dy * dy < (2 * half_extent(size)) * (2 * half_extent(size))
}

/// A sprite of side `size` at `p` has crossed one of the window's edges.
pub open spec fn out_of_bounds(p: Position, window: Window, size: u32) -> bool {
    p.x < low_bound(size) || p.x > high_bound(window.width, size) || p.y < low_bound(size) || p.y
        > high_bound(window.height, size)
}

/// An enemy triggers the sound cue this frame: it touches the player, if there
/// is one, or it has crossed an edge.
pub open spec fn cue(player: Option<Player>, e: Enemy, window: Window, size: u32) -> bool {
    (match player {
        Some(p) => near(p.position, e.position, size),
        None => false,
    }) || out_of_bounds(e.position, window, size)
}

/// An enemy below the window's lower edge leaves the bounce step heading
/// upwards, and one above the upper edge leaves it heading downwards, whatever
/// its (well-formed) heading was, provided the sprite fits in the window.
pub proof fn lemma_bounce_turns_back(e: Enemy, window: Window, size: u32)
    requires
        e.wf(),
        size <= window.height,
    ensures
        e.position.y < low_bound(size) ==> bounced(e, window, size).y >= 0,
        e.position.y > high_bound(window.height, size) ==> bounced(e, window, size).y <= 0,
        e.position.x < low_bound(size) && size <= window.width ==> bounced(e, window, size).x >= 0,
        e.position.x > high_bound(window.width, size) ==> bounced(e, window, size).x <= 0,
{
    assert(size as int * 1_000_000 <= window.height as int * 1_000_000) by (nonlinear_arith)
        requires
            size <= window.height,
    ;
    assert(size <= window.width ==> size as int * 1_000_000 <= window.width as int * 1_000_000)
        by (nonlinear_arith);
}

fn bounce_component(c: i64, p: i64, lo: i64, hi: i64) -> (r: i64)
    requires
        -1000 <= c <= 1000,
    ensures
        r == bounced_component(c as int, p as int, lo as int, hi as int),
        -1000 <= r <= 1000,
{
    let mut r = c;
    if p < lo {
        r = if r < 0 {
            -r
        } else {
            r
        };
    }
    if p > hi {
        r = if r < 0 {
            r
        } else {
            -r
        };
    }
    r
}

proof fn lemma_square_below(d: int, reach: int)
    requires
        abs(d) < reach <= 0xffff_ffff * 1_000_000,
    ensures
        0 <= d * d < 18446744065119617025000000000000,
        reach * reach <= 18446744065119617025000000000000,
{
    assert(0 <= d * d) by (nonlinear_arith);
    assert(d * d < reach * reach) by (nonlinear_arith)
        requires
            abs(d) < reach,
    ;
    assert(reach * reach <= 18446744065119617025000000000000) by (nonlinear_arith)
        requires
            0 <= reach <= 0xffff_ffff * 1_000_000,
    ;
}

fn is_near(a: Position, b: Position, size: u32) -> (r: bool)
    ensures
        r == near(a, b, size),
{
    let reach: i128 = size as i128 * 1_000_000;
    let dx: i128 = a.x as i128 - b.x as i128;
    let dy: i128 = a.y as i128 - b.y as i128;
    let ax: i128 = if dx < 0 {
        -dx
    } else {
        dx
    };
    let ay: i128 = if dy < 0 {
        -dy
    } else {
        dy
    };
    assert(2 * half_extent(size) == reach);
    if ax >= reach || ay >= reach {
        assert(dx * dx + dy * dy >= reach * reach) by (nonlinear_arith)
            requires
                ax == abs(dx as int),
                ay == abs(dy as int),
                ax >= reach || ay >= reach,
                reach >= 0,
        ;
        false
    } else {
        proof {
            lemma_square_below(dx as int, reach as int);
            lemma_square_below(dy as int, reach as int);
        }
        let sx: i128 = dx * dx;
        let sy: i128 = dy * dy;
        sx + sy < reach * reach
    }
}

/// Turns each enemy that has crossed an edge back into the window, axis by
/// axis, and reports for each enemy whether it triggers the sound cue. An
/// enemy that touches the player triggers the cue but keeps its heading.
pub fn update_enemy_direction(world: &mut World, config: &Config, window: &Window) -> (cues: Vec<
    bool,
>)
    requires
        old(world).wf(),
    ensures
        final(world).wf(),
        final(world).player == old(world).player,
        final(world).enemies@.len() == old(world).enemies@.len(),
        cues@.len() == old(world).enemies@.len(),
        forall|i: int|
            0 <= i < old(world).enemies@.len() ==> #[trigger] final(world).enemies@[i] == (Enemy {
                position: old(world).enemies@[i].position,
                direction: bounced(old(world).enemies@[i], *window, config.enemy_size),
            }),
        forall|i: int|
            0 <= i < old(world).enemies@.len() ==> #[trigger] cues@[i] == cue(
                old(world).player,
                old(world).enemies@[i],
                *window,
                config.enemy_size,
            ),
{
    let size = config.enemy_size;
    let lo = half_extent_units(size);
    let x_hi = high_bound_units(window.width, size);
    let y_hi = high_bound_units(window.height, size);
    let n = world.enemies.len();
    let mut cues: Vec<bool> = Vec::new();
    let mut i: usize = 0;
    while i < n
        invariant
            0 <= i <= n,
            n == old(world).enemies@.len(),
            old(world).wf(),
            lo == low_bound(size),
            x_hi == high_bound(window.width, size),
            y_hi == high_bound(window.height, size),
            size == config.enemy_size,
            world.player == old(world).player,
            world.enemies@.len() == n,
            cues@.len() == i,
            forall|j: int|
                0 <= j < i ==> #[trigger] world.enemies@[j] == (Enemy {
                    position: old(world).enemies@[j].position,
                    direction: bounced(old(world).enemies@[j], *window, size),
                }),
            forall|j: int|
                0 <= j < i ==> #[trigger] cues@[j] == cue(
                    old(world).player,
                    old(world).enemies@[j],
                    *window,
                    size,
                ),
            forall|j: int| 0 <= j < i ==> (#[trigger] world.enemies@[j]).wf(),
            forall|j: int| i <= j < n ==> #[trigger] world.enemies@[j] == old(world).enemies@[j],
        decreases n - i,
    {
        let e = world.enemies[i];
        assert(old(world).enemies@[i as int].wf());
        let touching = match world.player {
            Some(p) => is_near(p.position, e.position, size),
            None => false,
        };
        let crossed = e.position.x < lo || e.position.x > x_hi || e.position.y < lo
            || e.position.y > y_hi;
        let turned = Enemy {
            position: e.position,
            direction: Direction {
                x: bounce_component(e.direction.x, e.position.x, lo, x_hi),
                y: bounce_component(e.direction.y, e.position.y, lo, y_hi),
            },
        };
        world.enemies.set(i, turned);
        cues.push(touching || crossed);
        i = i + 1;
    }
    cues
}

} // verus!
