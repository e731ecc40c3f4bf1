//! The ball: per-tick integration, vertical bounce, scoring resets,
//! and paddle collision.
//!
//! Each tick the ball first moves by its velocity over the tick
//! duration. If the new height leaves the arena vertically, the
//! vertical velocity flips sign (the position is not pulled back in).
//! If the new position has left the arena to the right, player one
//! scores, the ball returns to the center and takes a fresh direction
//! of fixed speed; leaving to the left scores for player two the same
//! way. Collision with a paddle flips the horizontal velocity, once
//! per overlapping paddle.

use vstd::prelude::*;
use crate::paddle::Paddle;
use crate::score::Score;
use crate::units::{
    BALL_SPEED, HALF_PADDLE_HEIGHT, HALF_PADDLE_WIDTH, MAX_DIM, MAX_DT_MICROS, MAX_STEP,
    POS_LIMIT, SPEED_SQ, Vec2, scale_velocity, spec_scaled,
};

verus! {

/// The one moving point of the game: a position and a velocity, both
/// in milliunits.
#[derive(Clone, Copy, PartialEq, Eq, Structural, Debug)]
pub struct Ball {
    pub pos: Vec2,
    pub vel: Vec2,
}

/// The squared norm of a velocity given by its components.
pub open spec fn speed_sq_int(vx: int, vy: int) -> int {
    vx * vx + vy * vy
}

/// The squared norm of a velocity vector.
pub open spec fn speed_sq(v: Vec2) -> int {
    speed_sq_int(v.x as int, v.y as int)
}

/// Both velocity components within the fixed ball speed.
pub open spec fn vel_bounded(v: Vec2) -> bool {
    &&& -BALL_SPEED <= v.x <= BALL_SPEED
    &&& -BALL_SPEED <= v.y <= BALL_SPEED
}

/// The sixteen reset directions, indexed by `i % 16`: the axis-scaled
/// right triangles with legs 3-4-5 and 7-24-25 brought to the fixed
/// ball speed, under all sign and axis choices. Every entry has
/// squared norm exactly `SPEED_SQ`.
pub open spec fn dir_table(i: int) -> Vec2 {
    let k = i % 16;
    if k == 0 {
        Vec2 { x: 120000i64, y: 160000i64 }
    } else if k == 1 {
        Vec2 { x: 120000i64, y: -160000i64 }
    } else if k == 2 {
        Vec2 { x: -120000i64, y: 160000i64 }
    } else if k == 3 {
        Vec2 { x: -120000i64, y: -160000i64 }
    } else if k == 4 {
        Vec2 { x: 160000i64, y: 120000i64 }
    } else if k == 5 {
        Vec2 { x: 160000i64, y: -120000i64 }
    } else if k == 6 {
        Vec2 { x: -160000i64, y: 120000i64 }
    } else if k == 7 {
        Vec2 { x: -160000i64, y: -120000i64 }
    } else if k == 8 {
        Vec2 { x: 56000i64, y: 192000i64 }
    } else if k == 9 {
        Vec2 { x: 56000i64, y: -192000i64 }
    } else if k == 10 {
        Vec2 { x: -56000i64, y: 192000i64 }
    } else if k == 11 {
        Vec2 { x: -56000i64, y: -192000i64 }
    } else if k == 12 {
        Vec2 { x: 192000i64, y: 56000i64 }
    } else if k == 13 {
        Vec2 { x: 192000i64, y: -56000i64 }
    } else if k == 14 {
        Vec2 { x: -192000i64, y: 56000i64 }
    } else {
        Vec2 { x: -192000i64, y: -56000i64 }
    }
}

/// Every reset direction has squared norm exactly `SPEED_SQ` and
/// components within the ball speed.
pub proof fn lemma_dir_table_speed(i: int)
    ensures
        speed_sq(dir_table(i)) == SPEED_SQ,
        vel_bounded(dir_table(i)),
{
    assert((120000int) * (120000int) == 14400000000int) by (nonlinear_arith);
    assert((-120000int) * (-120000int) == 14400000000int) by (nonlinear_arith);
    assert((160000int) * (160000int) == 25600000000int) by (nonlinear_arith);
    assert((-160000int) * (-160000int) == 25600000000int) by (nonlinear_arith);
    assert((56000int) * (56000int) == 3136000000int) by (nonlinear_arith);
    assert((-56000int) * (-56000int) == 3136000000int) by (nonlinear_arith);
    assert((192000int) * (192000int) == 36864000000int) by (nonlinear_arith);
    assert((-192000int) * (-192000int) == 36864000000int) by (nonlinear_arith);
}

/// The horizontal position after integration over `dt`.
pub open spec fn spec_ball_moved_x(b: Ball, dt: int) -> int {
    b.pos.x + spec_scaled(b.vel.x as int, dt)
}

/// The vertical position after integration over `dt`.
pub open spec fn spec_ball_moved_y(b: Ball, dt: int) -> int {
    b.pos.y + spec_scaled(b.vel.y as int, dt)
}

/// Whether this tick's integration carries the ball past the right
/// edge, scoring for player one.
pub open spec fn spec_scores_right(b: Ball, w: int, dt: int) -> bool {
    spec_ball_moved_x(b, dt) > w / 2
}

/// Whether this tick's integration carries the ball past the left
/// edge, scoring for player two. Checked only when the right edge was
/// not passed.
pub open spec fn spec_scores_left(b: Ball, w: int, dt: int) -> bool {
    spec_ball_moved_x(b, dt) < -(w / 2)
}

/// The ball's state and scoring events after one integration tick in
/// an arena `w` wide and `h` high, with `dir` as the direction a reset
/// would take.
pub struct BallStep {
    pub x: int,
    pub y: int,
    pub vx: int,
    pub vy: int,
    pub p1_scored: bool,
    pub p2_scored: bool,
}

/// One integration tick: move, flip the vertical velocity if the new
/// height is outside the arena, then reset to the center with
/// direction `dir` if the new position is past the left or right edge.
pub open spec fn spec_ball_step(b: Ball, w: int, h: int, dt: int, dir: Vec2) -> BallStep {
    let nx = spec_ball_moved_x(b, dt);
    let ny = spec_ball_moved_y(b, dt);
    let vy1 = if ny > h / 2 || ny < -(h / 2) {
        -b.vel.y
    } else {
        b.vel.y as int
    };
    if spec_scores_right(b, w, dt) {
        BallStep {
            x: 0,
            y: 0,
            vx: dir.x as int,
            vy: dir.y as int,
            p1_scored: true,
            p2_scored: false,
        }
    } else if spec_scores_left(b, w, dt) {
        BallStep {
            x: 0,
            y: 0,
            vx: dir.x as int,
            vy: dir.y as int,
            p1_scored: false,
            p2_scored: true,
        }
    } else {
        BallStep { x: nx, y: ny, vx: b.vel.x as int, vy: vy1, p1_scored: false, p2_scored: false }
    }
}

/// In one tick at most one player scores, and a scoring tick puts the
/// ball back at the arena center.
pub proof fn lemma_scoring_exclusive(b: Ball, w: int, h: int, dt: int, dir: Vec2)
    requires
        w >= 0,
    ensures
        !(spec_ball_step(b, w, h, dt, dir).p1_scored && spec_ball_step(b, w, h, dt, dir).p2_scored),
        spec_ball_step(b, w, h, dt, dir).p1_scored ==> spec_ball_step(b, w, h, dt, dir).x == 0
            && spec_ball_step(b, w, h, dt, dir).y == 0,
        spec_ball_step(b, w, h, dt, dir).p2_scored ==> spec_ball_step(b, w, h, dt, dir).x == 0
            && spec_ball_step(b, w, h, dt, dir).y == 0,
        spec_ball_step(b, w, h, dt, dir).p1_scored == spec_scores_right(b, w, dt),
{
}

/// One integration tick keeps the ball's speed: without a scoring
/// exit the velocity is at most a vertical sign flip away from the old
/// one and keeps its squared norm whatever it was — integration never
/// alters it — and a scoring exit installs the reset direction, whose
/// squared norm is the fixed `SPEED_SQ` whenever the direction has it.
pub proof fn lemma_ball_step_speed(b: Ball, w: int, h: int, dt: int, dir: Vec2)
    ensures
        ({
            let o = spec_ball_step(b, w, h, dt, dir);
            &&& !(o.p1_scored || o.p2_scored) ==> speed_sq_int(o.vx, o.vy) == speed_sq(b.vel)
            &&& (o.p1_scored || o.p2_scored) ==> speed_sq_int(o.vx, o.vy) == speed_sq(dir)
            &&& (speed_sq(b.vel) == SPEED_SQ && speed_sq(dir) == SPEED_SQ) ==> speed_sq_int(
                o.vx,
                o.vy,
            ) == SPEED_SQ
        }),
{
    assert((-(b.vel.y as int)) * (-(b.vel.y as int)) == (b.vel.y as int) * (b.vel.y as int))
        by (nonlinear_arith);
}

/// Advances the ball one tick and credits any scoring event, exactly
/// as `spec_ball_step` with `dir_table(bits % 16)` as the reset
/// direction. The new horizontal position is always back within half
/// the arena width of the center.
pub fn apply_velocity(ball: &mut Ball, score: &mut Score, w: u64, h: u64, dt: u64, bits: u64)
    requires
        -POS_LIMIT <= old(ball).pos.x <= POS_LIMIT,
        -POS_LIMIT <= old(ball).pos.y <= POS_LIMIT,
        vel_bounded(old(ball).vel),
        w <= MAX_DIM,
        h <= MAX_DIM,
        dt <= MAX_DT_MICROS,
        old(score).player_one < u32::MAX,
        old(score).player_two < u32::MAX,
    ensures
        ({
            let o = spec_ball_step(*old(ball), w as int, h as int, dt as int, dir_table(bits as int));
            &&& final(ball).pos.x == o.x
            &&& final(ball).pos.y == o.y
            &&& final(ball).vel.x == o.vx
            &&& final(ball).vel.y == o.vy
            &&& final(score).player_one == old(score).player_one + (if o.p1_scored { 1int } else { 0int })
            &&& final(score).player_two == old(score).player_two + (if o.p2_scored { 1int } else { 0int })
        }),
        vel_bounded(final(ball).vel),
        -((w as int) / 2) <= final(ball).pos.x <= (w as int) / 2,
        -(POS_LIMIT + MAX_STEP) <= final(ball).pos.y <= POS_LIMIT + MAX_STEP,
{
    let dx = scale_velocity(ball.vel.x, dt);
    let dy = scale_velocity(ball.vel.y, dt);
    let nx = ball.pos.x + dx;
    let ny = ball.pos.y + dy;
    ball.pos.x = nx;
    ball.pos.y = ny;

    let half_h = (h / 2) as i64;
    if ny > half_h || ny < -half_h {
        ball.vel.y = -ball.vel.y;
    }

    let half_w = (w / 2) as i64;
    if nx > half_w {
        ball.pos.x = 0;
        ball.pos.y = 0;
        ball.vel = direction_from_bits(bits);
        score.player_one = score.player_one + 1;
    } else if nx < -half_w {
        ball.pos.x = 0;
        ball.pos.y = 0;
        ball.vel = direction_from_bits(bits);
        score.player_two = score.player_two + 1;
    }
}

/// Picks the reset direction selected by the low bits of a draw:
/// exactly `dir_table(bits % 16)`.
pub fn direction_from_bits(bits: u64) -> (v: Vec2)
    ensures
        v == dir_table(bits as int),
        speed_sq(v) == SPEED_SQ,
        vel_bounded(v),
{
    proof {
        lemma_dir_table_speed(bits as int);
    }
    let k = bits % 16;
    match k {
        0 => Vec2 { x: 120000, y: 160000 },
        1 => Vec2 { x: 120000, y: -160000 },
        2 => Vec2 { x: -120000, y: 160000 },
        3 => Vec2 { x: -120000, y: -160000 },
        4 => Vec2 { x: 160000, y: 120000 },
        5 => Vec2 { x: 160000, y: -120000 },
        6 => Vec2 { x: -160000, y: 120000 },
        7 => Vec2 { x: -160000, y: -120000 },
        8 => Vec2 { x: 56000, y: 192000 },
        9 => Vec2 { x: 56000, y: -192000 },
        10 => Vec2 { x: -56000, y: 192000 },
        11 => Vec2 { x: -56000, y: -192000 },
        12 => Vec2 { x: 192000, y: 56000 },
        13 => Vec2 { x: 192000, y: -56000 },
        14 => Vec2 { x: -192000, y: 56000 },
        _ => Vec2 { x: -192000, y: -56000 },
    }
}

/// Whether the ball's point position lies strictly inside a paddle's
/// rectangle.
pub open spec fn spec_overlaps(pos: Vec2, p: Paddle) -> bool {
    &&& pos.x < p.x + HALF_PADDLE_WIDTH
    &&& pos.x > p.x - HALF_PADDLE_WIDTH
    &&& pos.y < p.y + HALF_PADDLE_HEIGHT
    &&& pos.y > p.y - HALF_PADDLE_HEIGHT
}

/// The horizontal velocity after collision resolution: flipped once
/// per overlapping paddle, so flipped exactly when one paddle overlaps
/// (two overlaps flip twice and cancel, as independent per-paddle
/// checks do).
pub open spec fn spec_collided_vx(b: Ball, p1: Paddle, p2: Paddle) -> int {
    if spec_overlaps(b.pos, p1) != spec_overlaps(b.pos, p2) {
        -b.vel.x
    } else {
        b.vel.x as int
    }
}

/// A collision only reflects: with exactly one paddle overlapped the
/// horizontal velocity flips sign, otherwise it is unchanged, and its
/// magnitude — and so the ball's speed — is kept either way.
pub proof fn lemma_collision_reflects(b: Ball, p1: Paddle, p2: Paddle)
    ensures
        spec_overlaps(b.pos, p1) != spec_overlaps(b.pos, p2) ==> spec_collided_vx(b, p1, p2)
            == -b.vel.x,
        spec_overlaps(b.pos, p1) == spec_overlaps(b.pos, p2) ==> spec_collided_vx(b, p1, p2)
            == b.vel.x,
        speed_sq_int(spec_collided_vx(b, p1, p2), b.vel.y as int) == speed_sq(b.vel),
{
    assert((-(b.vel.x as int)) * (-(b.vel.x as int)) == (b.vel.x as int) * (b.vel.x as int))
        by (nonlinear_arith);
}

/// Tests one paddle's rectangle against the ball's point position.
fn paddle_overlaps(pos: &Vec2, p: &Paddle) -> (r: bool)
    requires
        -POS_LIMIT <= p.x <= POS_LIMIT,
        -POS_LIMIT <= p.y <= POS_LIMIT,
    ensures
        r == spec_overlaps(*pos, *p),
{
    pos.x < p.x + HALF_PADDLE_WIDTH && pos.x > p.x - HALF_PADDLE_WIDTH
        && pos.y < p.y + HALF_PADDLE_HEIGHT && pos.y > p.y - HALF_PADDLE_HEIGHT
}

/// Resolves paddle collision for one tick: the horizontal velocity
/// flips once per overlapping paddle; position and vertical velocity
/// stay.
pub fn apply_collision(ball: &mut Ball, paddle_one: &Paddle, paddle_two: &Paddle)
    requires
        vel_bounded(old(ball).vel),
        -POS_LIMIT <= paddle_one.x <= POS_LIMIT,
        -POS_LIMIT <= paddle_one.y <= POS_LIMIT,
        -POS_LIMIT <= paddle_two.x <= POS_LIMIT,
        -POS_LIMIT <= paddle_two.y <= POS_LIMIT,
    ensures
        final(ball).pos == old(ball).pos,
        final(ball).vel.y == old(ball).vel.y,
        final(ball).vel.x == spec_collided_vx(*old(ball), *paddle_one, *paddle_two),
        vel_bounded(final(ball).vel),
{
    if paddle_overlaps(&ball.pos, paddle_one) {
        ball.vel.x = -ball.vel.x;
    }
    if paddle_overlaps(&ball.pos, paddle_two) {
        ball.vel.x = -ball.vel.x;
    }
}

} // verus!
