use vstd::prelude::*;
use crate::config::{half_extent, half_extent_units, high_bound, high_bound_units, low_bound, Config, Window};
use crate::entities::{Enemy, Player, Position, World};

verus! {

/// Brings `v` up to `lo`, then down to `hi`, in that order.
pub open spec fn clamp_axis(v: int, lo: int, hi: int) -> int {
    let raised = if v < lo { lo } else { v };
    if raised > hi { hi } else { raised }
}

/// Where a sprite of side `size` at `p` stands once held inside the window.
pub open spec fn confined(p: Position, window: Window, size: u32) -> Position {
    Position {
        x: clamp_axis(p.x as int, low_bound(size), high_bound(window.width, size)) as i64,
        y: clamp_axis(p.y as int, low_bound(size), high_bound(window.height, size)) as i64,
    }
}

/// `p` lies inside the window by at least half a sprite of side `size` on each axis.
pub open spec fn inside(p: Position, window: Window, size: u32) -> bool {
    low_bound(size) <= p.x <= high_bound(window.width, size) && low_bound(size) <= p.y
        <= high_bound(window.height, size)
}

fn clamp_coordinate(v: i64, lo: i64, hi: i64) -> (r: i64)
    ensures
        r == clamp_axis(v as int, lo as int, hi as int),
{
    let mut r = v;
    if r < lo {
        r = lo;
    }
    if r > hi {
        r = hi;
    }
    r
}

fn confine_position(p: Position, window: Window, size: u32) -> (r: Position)
    ensures
        r == confined(p, window, size),
        size <= window.width && size <= window.height ==> inside(r, window, size),
{
    let half = half_extent_units(size);
    proof {
        assert(half_extent(size) == size as int * 500_000);
        assert(size <= window.width ==> size as int * 1_000_000 <= window.width as int * 1_000_000)
            by (nonlinear_arith);
        assert(size <= window.height ==> size as int * 1_000_000 <= window.height as int
            * 1_000_000) by (nonlinear_arith);
    }
    Position {
        x: clamp_coordinate(p.x, half, high_bound_units(window.width, size)),
        y: clamp_coordinate(p.y, half, high_bound_units(window.height, size)),
    }
}

/// Holds the player, if there is one, inside the window, one axis at a time.
pub fn confine_player_movement(world: &mut World, config: &Config, window: &Window)
    ensures
        final(world).enemies@ == old(world).enemies@,
        final(world).player == match old(world).player {
            Some(p) => Some(Player { position: confined(p.position, *window, config.player_size) }),
            None => None,
        },
        config.player_size <= window.width && config.player_size <= window.height
            ==> match final(world).player {
            Some(p) => inside(p.position, *window, config.player_size),
            None => true,
        },
{
    if let Some(p) = world.player {
        world.player = Some(
            Player { position: confine_position(p.position, *window, config.player_size) },
        );
    }
}

/// Holds every enemy inside the window, one axis at a time; headings are kept.
pub fn confine_enemy_movement(world: &mut World, config: &Config, window: &Window)
    ensures
        final(world).player == old(world).player,
        final(world).enemies@.len() == old(world).enemies@.len(),
        forall|i: int|
            0 <= i < old(world).enemies@.len() ==> #[trigger] final(world).enemies@[i] == (Enemy {
                position: confined(old(world).enemies@[i].position, *window, config.enemy_size),
                direction: old(world).enemies@[i].direction,
            }),
        config.enemy_size <= window.width && config.enemy_size <= window.height ==> forall|i: int|
            0 <= i < final(world).enemies@.len() ==> inside(
                #[trigger] final(world).enemies@[i].position,
                *window,
                config.enemy_size,
            ),
{
    let n = world.enemies.len();
    let mut i: usize = 0;
    while i < n
        invariant
            0 <= i <= n,
            n == old(world).enemies@.len(),
            world.player == old(world).player,
            world.enemies@.len() == n,
            forall|j: int|
                0 <= j < i ==> #[trigger] world.enemies@[j] == (Enemy {
                    position: confined(old(world).enemies@[j].position, *window, config.enemy_size),
                    direction: old(world).enemies@[j].direction,
                }),
            forall|j: int| i <= j < n ==> #[trigger] world.enemies@[j] == old(world).enemies@[j],
            config.enemy_size <= window.width && config.enemy_size <= window.height ==> forall|
                j: int,
            |
                0 <= j < i ==> inside(
                    #[trigger] world.enemies@[j].position,
                    *window,
                    config.enemy_size,
                ),
        decreases n - i,
    {
        let e = world.enemies[i];
        let moved = Enemy {
            position: confine_position(e.position, *window, config.enemy_size),
            direction: e.direction,
        };
        world.enemies.set(i, moved);
        i = i + 1;
    }
}

} // verus!
