//! The simulation driver: the whole game state and the fixed tick.
//!
//! One tick runs, in order: paddle motion from the live input, ball
//! integration with bounce and scoring, then paddle collision. The
//! arena size is read anew each tick, so a live window resize takes
//! effect at once. Rendering is no part of this: a host reads the
//! state and draws it at whatever frame rate it likes.

use vstd::prelude::*;
use crate::ball::{
    Ball, apply_collision, apply_velocity, dir_table, lemma_dir_table_speed, spec_ball_step,
    spec_overlaps, spec_scores_left, spec_scores_right, speed_sq, vel_bounded,
};
use crate::input::{InputState, Key, KeyEvent, spec_apply_event};
use crate::paddle::{Paddle, Player, move_paddle, spec_moved_y};
use crate::rng::random_bits;
use crate::score::Score;
use crate::units::{
    MAX_DIM, MAX_DT_MICROS, MAX_STEP, PADDLE_WIDTH, POS_LIMIT, SPEED_SQ, Vec2,
};

verus! {

/// All simulation state: two paddles, the ball, the score, and the
/// live key flags. Created once at startup and mutated only by the
/// tick and by key events.
#[derive(Clone, Copy, PartialEq, Eq, Structural, Debug)]
pub struct Game {
    pub paddle_one: Paddle,
    pub paddle_two: Paddle,
    pub ball: Ball,
    pub score: Score,
    pub input: InputState,
}

/// Machine-range well-formedness: every coordinate far within `i64`
/// range and the ball's velocity within the fixed ball speed.
pub open spec fn game_wf(g: Game) -> bool {
    &&& -POS_LIMIT <= g.paddle_one.x <= POS_LIMIT
    &&& -POS_LIMIT <= g.paddle_one.y <= POS_LIMIT
    &&& -POS_LIMIT <= g.paddle_two.x <= POS_LIMIT
    &&& -POS_LIMIT <= g.paddle_two.y <= POS_LIMIT
    &&& -POS_LIMIT <= g.ball.pos.x <= POS_LIMIT
    &&& -POS_LIMIT <= g.ball.pos.y <= POS_LIMIT
    &&& vel_bounded(g.ball.vel)
}

/// What one tick with reset direction `dir` does: paddles move by the
/// keyed directions and clamp; the ball integrates, bounces, and on an
/// exit resets to the center with direction `dir` while the matching
/// counter steps by one; finally the horizontal velocity flips once
/// per paddle the ball ends up inside.
pub open spec fn spec_tick_post(g0: Game, g1: Game, w: int, h: int, dt: int, dir: Vec2) -> bool {
    let o = spec_ball_step(g0.ball, w, h, dt, dir);
    &&& g1.input == g0.input
    &&& g1.paddle_one.player == g0.paddle_one.player
    &&& g1.paddle_one.x == g0.paddle_one.x
    &&& g1.paddle_one.y == spec_moved_y(g0.paddle_one, g0.input, h, dt)
    &&& g1.paddle_two.player == g0.paddle_two.player
    &&& g1.paddle_two.x == g0.paddle_two.x
    &&& g1.paddle_two.y == spec_moved_y(g0.paddle_two, g0.input, h, dt)
    &&& g1.score.player_one == g0.score.player_one + (if o.p1_scored { 1int } else { 0int })
    &&& g1.score.player_two == g0.score.player_two + (if o.p2_scored { 1int } else { 0int })
    &&& g1.ball.pos.x == o.x
    &&& g1.ball.pos.y == o.y
    &&& g1.ball.vel.y == o.vy
    &&& g1.ball.vel.x == (if spec_overlaps(g1.ball.pos, g1.paddle_one) != spec_overlaps(
        g1.ball.pos,
        g1.paddle_two,
    ) {
        -o.vx
    } else {
        o.vx
    })
}

impl Game {
    /// The startup state in an arena `w` wide: paddles at the left and
    /// right edges at middle height, ball at the center with the reset
    /// direction picked by `bits`, score zero, no key held.
    pub fn new(w: u64, bits: u64) -> (g: Game)
        requires
            w <= MAX_DIM,
        ensures
            g.paddle_one.player == Player::One,
            g.paddle_one.x == -((w as int) / 2) + PADDLE_WIDTH,
            g.paddle_one.y == 0,
            g.paddle_two.player == Player::Two,
            g.paddle_two.x == (w as int) / 2 - PADDLE_WIDTH,
            g.paddle_two.y == 0,
            g.ball.pos == (Vec2 { x: 0, y: 0 }),
            g.ball.vel == dir_table(bits as int),
            speed_sq(g.ball.vel) == SPEED_SQ,
            g.score == (Score { player_one: 0, player_two: 0 }),
            g.input == (InputState { key_w: false, key_s: false, arrow_up: false, arrow_down: false }),
            game_wf(g),
    {
        proof {
            lemma_dir_table_speed(bits as int);
        }
        let half = (w / 2) as i64;
        Game {
            paddle_one: Paddle { player: Player::One, x: -half + PADDLE_WIDTH, y: 0 },
            paddle_two: Paddle { player: Player::Two, x: half - PADDLE_WIDTH, y: 0 },
            ball: Ball {
                pos: Vec2 { x: 0, y: 0 },
                vel: crate::ball::direction_from_bits(bits),
            },
            score: Score::new(),
            input: InputState::new(),
        }
    }

    /// The startup state with a freshly drawn reset direction: as
    /// `new`, except that the ball's direction is only known to have
    /// the fixed speed.
    pub fn new_random(w: u64) -> (g: Game)
        requires
            w <= MAX_DIM,
        ensures
            g.paddle_one.player == Player::One,
            g.paddle_one.x == -((w as int) / 2) + PADDLE_WIDTH,
            g.paddle_one.y == 0,
            g.paddle_two.player == Player::Two,
            g.paddle_two.x == (w as int) / 2 - PADDLE_WIDTH,
            g.paddle_two.y == 0,
            g.ball.pos == (Vec2 { x: 0, y: 0 }),
            speed_sq(g.ball.vel) == SPEED_SQ,
            g.score == (Score { player_one: 0, player_two: 0 }),
            g.input == (InputState { key_w: false, key_s: false, arrow_up: false, arrow_down: false }),
            game_wf(g),
    {
        let bits = random_bits();
        Game::new(w, bits)
    }

    /// Records one key press or release in the live input flags; the
    /// rest of the state does not move.
    pub fn on_key_event(&mut self, key: Key, pressed: bool)
        ensures
            final(self).input == spec_apply_event(old(self).input, (KeyEvent { key, pressed })),
            final(self).paddle_one == old(self).paddle_one,
            final(self).paddle_two == old(self).paddle_two,
            final(self).ball == old(self).ball,
            final(self).score == old(self).score,
    {
        self.input.on_key_event(key, pressed);
    }

    /// One fixed simulation tick with reset direction `bits`, in an
    /// arena `w` wide and `h` high over `dt` microseconds: exactly
    /// `spec_tick_post` with direction `dir_table(bits)`.
    pub fn tick(&mut self, w: u64, h: u64, dt: u64, bits: u64)
        requires
            game_wf(*old(self)),
            w <= MAX_DIM,
            h <= MAX_DIM,
            dt <= MAX_DT_MICROS,
            old(self).score.player_one < u32::MAX,
            old(self).score.player_two < u32::MAX,
        ensures
            spec_tick_post(
                *old(self),
                *final(self),
                w as int,
                h as int,
                dt as int,
                dir_table(bits as int),
            ),
            vel_bounded(final(self).ball.vel),
            -((w as int) / 2) <= final(self).ball.pos.x <= (w as int) / 2,
            -(POS_LIMIT + MAX_STEP) <= final(self).ball.pos.y <= POS_LIMIT + MAX_STEP,
            -POS_LIMIT <= final(self).paddle_one.y <= POS_LIMIT,
            -POS_LIMIT <= final(self).paddle_two.y <= POS_LIMIT,
            final(self).score.player_one <= old(self).score.player_one + 1,
            final(self).score.player_two <= old(self).score.player_two + 1,
    {
        let inp = self.input;
        move_paddle(&mut self.paddle_one, &inp, h, dt);
        move_paddle(&mut self.paddle_two, &inp, h, dt);
        apply_velocity(&mut self.ball, &mut self.score, w, h, dt, bits);
        apply_collision(&mut self.ball, &self.paddle_one, &self.paddle_two);
    }

    /// One fixed simulation tick with a freshly drawn reset direction:
    /// paddles, positions, and score move exactly as in `tick` — they
    /// do not depend on the draw — and on a scoring exit the new
    /// velocity is only known to have the fixed speed.
    pub fn tick_random(&mut self, w: u64, h: u64, dt: u64)
        requires
            game_wf(*old(self)),
            w <= MAX_DIM,
            h <= MAX_DIM,
            dt <= MAX_DT_MICROS,
            old(self).score.player_one < u32::MAX,
            old(self).score.player_two < u32::MAX,
        ensures
            exists|bits: u64|
                spec_tick_post(
                    *old(self),
                    *final(self),
                    w as int,
                    h as int,
                    dt as int,
                    dir_table(bits as int),
                ),
            final(self).score.player_one == old(self).score.player_one + (if spec_scores_right(
                old(self).ball,
                w as int,
                dt as int,
            ) {
                1int
            } else {
                0int
            }),
            final(self).score.player_two == old(self).score.player_two + (if !spec_scores_right(
                old(self).ball,
                w as int,
                dt as int,
            ) && spec_scores_left(old(self).ball, w as int, dt as int) {
                1int
            } else {
                0int
            }),
            (spec_scores_right(old(self).ball, w as int, dt as int) || spec_scores_left(
                old(self).ball,
                w as int,
                dt as int,
            )) ==> final(self).ball.pos == (Vec2 { x: 0, y: 0 }) && speed_sq(final(self).ball.vel)
                == SPEED_SQ,
            vel_bounded(final(self).ball.vel),
            final(self).input == old(self).input,
            final(self).paddle_one.y == spec_moved_y(old(self).paddle_one, old(self).input, h as int, dt as int),
            final(self).paddle_two.y == spec_moved_y(old(self).paddle_two, old(self).input, h as int, dt as int),
            final(self).paddle_one.x == old(self).paddle_one.x,
            final(self).paddle_two.x == old(self).paddle_two.x,
            final(self).paddle_one.player == old(self).paddle_one.player,
            final(self).paddle_two.player == old(self).paddle_two.player,
            -((w as int) / 2) <= final(self).ball.pos.x <= (w as int) / 2,
            -(POS_LIMIT + MAX_STEP) <= final(self).ball.pos.y <= POS_LIMIT + MAX_STEP,
            -POS_LIMIT <= final(self).paddle_one.y <= POS_LIMIT,
            -POS_LIMIT <= final(self).paddle_two.y <= POS_LIMIT,
    {
        let bits = random_bits();
        let ghost g0 = *self;
        self.tick(w, h, dt, bits);
        proof {
            assert(spec_tick_post(g0, *self, w as int, h as int, dt as int, dir_table(bits as int)));
            lemma_dir_table_speed(bits as int);
            let o = spec_ball_step(g0.ball, w as int, h as int, dt as int, dir_table(bits as int));
            if o.p1_scored || o.p2_scored {
                assert((-o.vx) * (-o.vx) == o.vx * o.vx) by (nonlinear_arith);
            }
        }
    }
}

} // verus!
