//! The two vertically sliding paddles and their per-tick motion.
//!
//! Each paddle belongs to one player and moves by the player's keys:
//! up on the first key, down on the second, with the down key winning
//! when both are held. The new height is clamped so the whole paddle
//! stays inside the arena.

use vstd::prelude::*;
use crate::input::InputState;
use crate::units::{
    HALF_PADDLE_HEIGHT, MAX_DIM, MAX_DT_MICROS, PADDLE_HEIGHT, PADDLE_SPEED, POS_LIMIT,
    scale_velocity, spec_scaled,
};

verus! {

/// Which control scheme and score counter a paddle is bound to.
#[derive(Clone, Copy, PartialEq, Eq, Structural, Debug)]
pub enum Player {
    One,
    Two,
}

/// A paddle: its owner, a fixed horizontal position, and a height that
/// moves each tick. Extents come from `PADDLE_WIDTH` and `PADDLE_HEIGHT`.
#[derive(Clone, Copy, PartialEq, Eq, Structural, Debug)]
pub struct Paddle {
    pub player: Player,
    pub x: i64,
    pub y: i64,
}

/// The movement direction a player's keys ask for: `1` up, `-1` down,
/// `0` for both or neither. The down key is checked last, so it wins
/// when both keys are held.
pub open spec fn spec_direction(player: Player, input: InputState) -> int {
    match player {
        Player::One => if input.key_s {
            -1
        } else if input.key_w {
            1
        } else {
            0
        },
        Player::Two => if input.arrow_down {
            -1
        } else if input.arrow_up {
            1
        } else {
            0
        },
    }
}

/// `v` brought into `[lo, hi]` the way the motion pass does it: first
/// capped at `hi`, then raised to `lo` (so `lo` wins if `lo > hi`).
pub open spec fn spec_clamp(v: int, lo: int, hi: int) -> int {
    let capped = if v < hi {
        v
    } else {
        hi
    };
    if capped > lo {
        capped
    } else {
        lo
    }
}

/// The paddle height after one tick of motion: the keyed direction
/// times the paddle speed over `dt`, clamped to keep the paddle inside
/// an arena of height `h`. The owner and horizontal position never move.
pub open spec fn spec_moved_y(p: Paddle, input: InputState, h: int, dt: int) -> int {
    let ny = p.y + spec_scaled(spec_direction(p.player, input) * PADDLE_SPEED, dt);
    let hi = h / 2 - HALF_PADDLE_HEIGHT;
    let lo = -(h / 2) + HALF_PADDLE_HEIGHT;
    spec_clamp(ny, lo, hi)
}

/// Holding both of a player's keys resolves to moving down: the later
/// check wins, for either player.
pub proof fn lemma_tie_break(input: InputState)
    ensures
        input.key_w && input.key_s ==> spec_direction(Player::One, input) == -1,
        input.arrow_up && input.arrow_down ==> spec_direction(Player::Two, input) == -1,
{
}

/// After any single tick of motion, under any input, a paddle that fits
/// in the arena sits wholly inside it: its center stays within half the
/// arena height minus half the paddle height.
pub proof fn lemma_paddle_clamp(p: Paddle, input: InputState, h: int, dt: int)
    requires
        PADDLE_HEIGHT <= h,
    ensures
        -(h / 2) + HALF_PADDLE_HEIGHT <= spec_moved_y(p, input, h, dt),
        spec_moved_y(p, input, h, dt) <= h / 2 - HALF_PADDLE_HEIGHT,
{
}

/// Computes `spec_direction` for one paddle's owner.
pub fn paddle_direction(player: Player, input: &InputState) -> (d: i64)
    ensures
        d == spec_direction(player, *input),
        -1 <= d <= 1,
{
    match player {
        Player::One => {
            if input.key_s {
                -1
            } else if input.key_w {
                1
            } else {
                0
            }
        },
        Player::Two => {
            if input.arrow_down {
                -1
            } else if input.arrow_up {
                1
            } else {
                0
            }
        },
    }
}

/// One tick of paddle motion in place: the height becomes exactly
/// `spec_moved_y`, inside the arena's vertical bounds whenever the
/// paddle fits.
pub fn move_paddle(paddle: &mut Paddle, input: &InputState, h: u64, dt: u64)
    requires
        -POS_LIMIT <= old(paddle).y <= POS_LIMIT,
        h <= MAX_DIM,
        dt <= MAX_DT_MICROS,
    ensures
        final(paddle).y == spec_moved_y(*old(paddle), *input, h as int, dt as int),
        final(paddle).player == old(paddle).player,
        final(paddle).x == old(paddle).x,
        PADDLE_HEIGHT <= h ==> -((h as int) / 2) + HALF_PADDLE_HEIGHT <= final(paddle).y
            <= (h as int) / 2 - HALF_PADDLE_HEIGHT,
        -POS_LIMIT <= final(paddle).y <= POS_LIMIT,
{
    let d = paddle_direction(paddle.player, input);
    let step = scale_velocity(d * PADDLE_SPEED, dt);
    let ny = paddle.y + step;
    let half = (h / 2) as i64;
    let hi = half - HALF_PADDLE_HEIGHT;
    let lo = -half + HALF_PADDLE_HEIGHT;
    let capped = if ny < hi {
        ny
    } else {
        hi
    };
    let clamped = if capped > lo {
        capped
    } else {
        lo
    };
    paddle.y = clamped;
    proof {
        if PADDLE_HEIGHT <= h {
            lemma_paddle_clamp(*old(paddle), *input, h as int, dt as int);
        }
    }
}

} // verus!
