use vstd::prelude::*;
use crate::config::{Config, DIAGONAL, DIRECTION_SCALE};
use crate::entities::{Direction, Enemy, Keys, Player, Position, World};

verus! {

/// +1, 0 or -1 along an axis, from the keys for its two senses.
pub open spec fn axis(forward: bool, backward: bool) -> int {
    (if forward { 1int } else { 0int }) - (if backward { 1int } else { 0int })
}

/// The player's heading for the held keys: the sum of one unit per held arrow,
/// scaled to unit length when it is not zero.
pub open spec fn player_heading(keys: Keys) -> Direction {
    let sx = axis(keys.right, keys.left);
    let sy = axis(keys.up, keys.down);
    let len = if sx != 0 && sy != 0 { DIAGONAL as int } else { DIRECTION_SCALE as int };
    Direction { x: (sx * len) as i64, y: (sy * len) as i64 }
}

/// `v` held inside the range of `i64`.
pub open spec fn saturate(v: int) -> int {
    if v < i64::MIN {
        i64::MIN as int
    } else if v > i64::MAX {
        i64::MAX as int
    } else {
        v
    }
}

/// A coordinate `p` after `elapsed_ms` milliseconds at `speed` pixels per second
/// along a heading component `d`: thousandths times pixels per second times
/// milliseconds is exactly micro-pixels.
pub open spec fn advance(p: int, d: int, speed: u32, elapsed_ms: u32) -> int {
    saturate(p + d * speed * elapsed_ms)
}

/// A position after `elapsed_ms` milliseconds along `d` at `speed`.
pub open spec fn moved(p: Position, d: Direction, speed: u32, elapsed_ms: u32) -> Position {
    Position {
        x: advance(p.x as int, d.x as int, speed, elapsed_ms) as i64,
        y: advance(p.y as int, d.y as int, speed, elapsed_ms) as i64,
    }
}

/// No time passing moves nothing.
pub proof fn lemma_advance_zero_elapsed(p: i64, d: int, speed: u32)
    ensures
        advance(p as int, d, speed, 0) == p,
{
    assert(d * speed * 0 == 0) by (nonlinear_arith);
}

fn axis_of(forward: bool, backward: bool) -> (r: i64)
    ensures
        r == axis(forward, backward),
{
    let mut r: i64 = 0;
    if forward {
        r = r + 1;
    }
    if backward {
        r = r - 1;
    }
    r
}

fn heading_of(keys: Keys) -> (d: Direction)
    ensures
        d == player_heading(keys),
        d.wf(),
{
    let sx = axis_of(keys.right, keys.left);
    let sy = axis_of(keys.up, keys.down);
    let len: i64 = if sx != 0 && sy != 0 {
        DIAGONAL
    } else {
        DIRECTION_SCALE
    };
    Direction { x: sx * len, y: sy * len }
}

fn advance_coordinate(p: i64, d: i64, speed: u32, elapsed_ms: u32) -> (r: i64)
    requires
        -DIRECTION_SCALE <= d <= DIRECTION_SCALE,
    ensures
        r == advance(p as int, d as int, speed, elapsed_ms),
{
    proof {
        assert(-1000 * speed <= d * speed <= 1000 * speed) by (nonlinear_arith)
            requires
                -1000 <= d <= 1000,
        ;
    }
    let rate: i128 = d as i128 * speed as i128;
    proof {
        let s = speed as int;
        let t = elapsed_ms as int;
        assert(-1000 * (s * t) <= rate * t <= 1000 * (s * t)) by (nonlinear_arith)
            requires
                -1000 * s <= rate <= 1000 * s,
                0 <= t,
        ;
        assert(s * t <= 0xffff_ffff * 0xffff_ffff) by (nonlinear_arith)
            requires
                0 <= s <= 0xffff_ffff,
                0 <= t <= 0xffff_ffff,
        ;
    }
    let delta: i128 = rate * elapsed_ms as i128;
    let sum: i128 = p as i128 + delta;
    if sum < i64::MIN as i128 {
        i64::MIN
    } else if sum > i64::MAX as i128 {
        i64::MAX
    } else {
        sum as i64
    }
}

fn move_position(p: Position, d: Direction, speed: u32, elapsed_ms: u32) -> (r: Position)
    requires
        d.wf(),
    ensures
        r == moved(p, d, speed, elapsed_ms),
{
    Position {
        x: advance_coordinate(p.x, d.x, speed, elapsed_ms),
        y: advance_coordinate(p.y, d.y, speed, elapsed_ms),
    }
}

/// Moves the player, if there is one, along the heading of the held keys at the
/// player's speed for `elapsed_ms` milliseconds.
pub fn player_movement(world: &mut World, config: &Config, keys: Keys, elapsed_ms: u32)
    ensures
        final(world).enemies@ == old(world).enemies@,
        final(world).player == match old(world).player {
            Some(p) => Some(
                Player {
                    position: moved(p.position, player_heading(keys), config.player_speed, elapsed_ms),
                },
            ),
            None => None,
        },
        elapsed_ms == 0 ==> final(world).player == old(world).player,
{
    if let Some(p) = world.player {
        let heading = heading_of(keys);
        world.player = Some(
            Player { position: move_position(p.position, heading, config.player_speed, elapsed_ms) },
        );
        proof {
            lemma_advance_zero_elapsed(p.position.x, heading.x as int, config.player_speed);
            lemma_advance_zero_elapsed(p.position.y, heading.y as int, config.player_speed);
        }
    }
}

/// Moves every enemy along its own heading at the enemies' speed for
/// `elapsed_ms` milliseconds.
pub fn enemy_movement(world: &mut World, config: &Config, elapsed_ms: u32)
    requires
        old(world).wf(),
    ensures
        final(world).wf(),
        final(world).player == old(world).player,
        final(world).enemies@.len() == old(world).enemies@.len(),
        forall|i: int|
            0 <= i < old(world).enemies@.len() ==> #[trigger] final(world).enemies@[i] == (Enemy {
                position: moved(
                    old(world).enemies@[i].position,
                    old(world).enemies@[i].direction,
                    config.enemy_speed,
                    elapsed_ms,
                ),
                direction: old(world).enemies@[i].direction,
            }),
        elapsed_ms == 0 ==> final(world).enemies@ == old(world).enemies@,
{
    let n = world.enemies.len();
    let mut i: usize = 0;
    while i < n
        invariant
            0 <= i <= n,
            n == old(world).enemies@.len(),
            old(world).wf(),
            world.player == old(world).player,
            world.enemies@.len() == n,
            forall|j: int|
                0 <= j < i ==> #[trigger] world.enemies@[j] == (Enemy {
                    position: moved(
                        old(world).enemies@[j].position,
                        old(world).enemies@[j].direction,
                        config.enemy_speed,
                        elapsed_ms,
                    ),
                    direction: old(world).enemies@[j].direction,
                }),
            forall|j: int| i <= j < n ==> #[trigger] world.enemies@[j] == old(world).enemies@[j],
        decreases n - i,
    {
        let e = world.enemies[i];
        assert(old(world).enemies@[i as int].wf());
        let next = Enemy {
            position: move_position(e.position, e.direction, config.enemy_speed, elapsed_ms),
            direction: e.direction,
        };
        world.enemies.set(i, next);
        i = i + 1;
    }
    proof {
        assert forall|j: int| 0 <= j < n implies #[trigger] world.enemies@[j].wf() by {
            assert(old(world).enemies@[j].wf());
        }
        if elapsed_ms == 0 {
            assert forall|j: int| 0 <= j < n implies #[trigger] world.enemies@[j] == old(
                world,
            ).enemies@[j] by {
                let e = old(world).enemies@[j];
                lemma_advance_zero_elapsed(e.position.x, e.direction.x as int, config.enemy_speed);
                lemma_advance_zero_elapsed(e.position.y, e.direction.y as int, config.enemy_speed);
            }
            assert(world.enemies@ =~= old(world).enemies@);
        }
    }
}

} // verus!
