use pong::ball::{apply_collision, apply_velocity, direction_from_bits, Ball};
use pong::game::Game;
use pong::input::{handle_input, InputState, Key, KeyEvent};
use pong::paddle::{move_paddle, paddle_direction, Paddle, Player};
use pong::score::Score;
use pong::units::{scale_velocity, Vec2, SPEED_SQ};

const ARENA_W: u64 = 800_000;
const ARENA_H: u64 = 600_000;
const TICK: u64 = 15_625;

fn no_keys() -> InputState {
    InputState { key_w: false, key_s: false, arrow_up: false, arrow_down: false }
}

#[test]
fn scale_velocity_exact() {
    assert_eq!(scale_velocity(160_000, TICK), 2_500);
    assert_eq!(scale_velocity(-160_000, TICK), -2_500);
    assert_eq!(scale_velocity(120_000, TICK), 1_875);
    assert_eq!(scale_velocity(500_000, 1_000_000), 500_000);
    assert_eq!(scale_velocity(123_456, 0), 0);
    assert_eq!(scale_velocity(0, 1_000_000), 0);
}

#[test]
fn reset_directions_have_fixed_speed() {
    for bits in 0u64..32 {
        let v = direction_from_bits(bits);
        assert_eq!(v.x * v.x + v.y * v.y, SPEED_SQ);
    }
}

#[test]
fn reset_directions_cycle_by_low_bits() {
    for bits in 0u64..16 {
        assert_eq!(direction_from_bits(bits), direction_from_bits(bits + 16));
    }
}

#[test]
fn tie_break_player_one_down_wins() {
    let input = InputState { key_w: true, key_s: true, arrow_up: false, arrow_down: false };
    assert_eq!(paddle_direction(Player::One, &input), -1);
}

#[test]
fn tie_break_player_two_down_wins() {
    let input = InputState { key_w: false, key_s: false, arrow_up: true, arrow_down: true };
    assert_eq!(paddle_direction(Player::Two, &input), -1);
}

#[test]
fn direction_single_keys() {
    let w = InputState { key_w: true, key_s: false, arrow_up: false, arrow_down: false };
    assert_eq!(paddle_direction(Player::One, &w), 1);
    assert_eq!(paddle_direction(Player::Two, &w), 0);
    let s = InputState { key_w: false, key_s: true, arrow_up: false, arrow_down: false };
    assert_eq!(paddle_direction(Player::One, &s), -1);
    let up = InputState { key_w: false, key_s: false, arrow_up: true, arrow_down: false };
    assert_eq!(paddle_direction(Player::Two, &up), 1);
    let down = InputState { key_w: false, key_s: false, arrow_up: false, arrow_down: true };
    assert_eq!(paddle_direction(Player::Two, &down), -1);
    assert_eq!(paddle_direction(Player::One, &no_keys()), 0);
}

#[test]
fn paddle_moves_up_by_speed_times_dt() {
    let mut p = Paddle { player: Player::One, x: -390_000, y: 0 };
    let input = InputState { key_w: true, key_s: false, arrow_up: false, arrow_down: false };
    // 0.1 s at 500 units/s: 50 units up
    move_paddle(&mut p, &input, ARENA_H, 100_000);
    assert_eq!(p.y, 50_000);
    assert_eq!(p.x, -390_000);
}

#[test]
fn paddle_clamps_at_top() {
    let mut p = Paddle { player: Player::One, x: -390_000, y: 0 };
    let input = InputState { key_w: true, key_s: false, arrow_up: false, arrow_down: false };
    // ten seconds up would be 5000 units: clamped at h/2 - paddle_height/2
    move_paddle(&mut p, &input, ARENA_H, 10_000_000);
    assert_eq!(p.y, 250_000);
}

#[test]
fn paddle_clamps_at_bottom() {
    let mut p = Paddle { player: Player::Two, x: 390_000, y: 0 };
    let input = InputState { key_w: false, key_s: false, arrow_up: false, arrow_down: true };
    move_paddle(&mut p, &input, ARENA_H, 10_000_000);
    assert_eq!(p.y, -250_000);
}

#[test]
fn paddle_clamp_when_arena_smaller_than_paddle() {
    // the lower bound is applied after the upper, so it wins
    let mut p = Paddle { player: Player::One, x: 0, y: 0 };
    move_paddle(&mut p, &no_keys(), 50_000, 0);
    assert_eq!(p.y, 25_000);
}

#[test]
fn ball_integrates_position() {
    let mut b = Ball { pos: Vec2 { x: 0, y: 0 }, vel: Vec2 { x: 120_000, y: 160_000 } };
    let mut s = Score { player_one: 0, player_two: 0 };
    apply_velocity(&mut b, &mut s, ARENA_W, ARENA_H, TICK, 0);
    assert_eq!(b.pos, Vec2 { x: 1_875, y: 2_500 });
    assert_eq!(b.vel, Vec2 { x: 120_000, y: 160_000 });
    assert_eq!((s.player_one, s.player_two), (0, 0));
}

#[test]
fn ball_bounces_off_top() {
    let mut b = Ball { pos: Vec2 { x: 0, y: 299_000 }, vel: Vec2 { x: 120_000, y: 160_000 } };
    let mut s = Score { player_one: 0, player_two: 0 };
    apply_velocity(&mut b, &mut s, ARENA_W, ARENA_H, TICK, 0);
    // overshoots without being pulled back; only the vertical velocity flips
    assert_eq!(b.pos, Vec2 { x: 1_875, y: 301_500 });
    assert_eq!(b.vel, Vec2 { x: 120_000, y: -160_000 });
    let pre = 120_000i64 * 120_000 + 160_000i64 * 160_000;
    assert_eq!(b.vel.x * b.vel.x + b.vel.y * b.vel.y, pre);
}

#[test]
fn ball_bounces_off_bottom() {
    let mut b = Ball { pos: Vec2 { x: 0, y: -299_000 }, vel: Vec2 { x: 120_000, y: -160_000 } };
    let mut s = Score { player_one: 0, player_two: 0 };
    apply_velocity(&mut b, &mut s, ARENA_W, ARENA_H, TICK, 0);
    assert_eq!(b.pos, Vec2 { x: 1_875, y: -301_500 });
    assert_eq!(b.vel, Vec2 { x: 120_000, y: 160_000 });
}

#[test]
fn scoring_right_credits_player_one_only() {
    let mut b = Ball { pos: Vec2 { x: 399_000, y: 10_000 }, vel: Vec2 { x: 160_000, y: 120_000 } };
    let mut s = Score { player_one: 0, player_two: 0 };
    apply_velocity(&mut b, &mut s, ARENA_W, ARENA_H, 1_000_000, 3);
    assert_eq!((s.player_one, s.player_two), (1, 0));
    assert_eq!(b.pos, Vec2 { x: 0, y: 0 });
    // bits == 3 picks the direction (-120000, -160000)
    assert_eq!(b.vel, Vec2 { x: -120_000, y: -160_000 });
    assert_eq!(b.vel.x * b.vel.x + b.vel.y * b.vel.y, SPEED_SQ);
}

#[test]
fn scoring_left_credits_player_two_only() {
    let mut b = Ball { pos: Vec2 { x: -399_000, y: 10_000 }, vel: Vec2 { x: -160_000, y: 120_000 } };
    let mut s = Score { player_one: 0, player_two: 0 };
    apply_velocity(&mut b, &mut s, ARENA_W, ARENA_H, 1_000_000, 0);
    assert_eq!((s.player_one, s.player_two), (0, 1));
    assert_eq!(b.pos, Vec2 { x: 0, y: 0 });
    assert_eq!(b.vel, Vec2 { x: 120_000, y: 160_000 });
}

#[test]
fn scoring_checks_position_even_with_zero_dt() {
    let mut b = Ball { pos: Vec2 { x: 400_001, y: 0 }, vel: Vec2 { x: 0, y: 0 } };
    let mut s = Score { player_one: 7, player_two: 3 };
    apply_velocity(&mut b, &mut s, ARENA_W, ARENA_H, 0, 0);
    assert_eq!((s.player_one, s.player_two), (8, 3));
    assert_eq!(b.pos, Vec2 { x: 0, y: 0 });
}

#[test]
fn score_accumulates_over_events() {
    let mut b = Ball { pos: Vec2 { x: 399_000, y: 0 }, vel: Vec2 { x: 160_000, y: 120_000 } };
    let mut s = Score { player_one: 0, player_two: 0 };
    apply_velocity(&mut b, &mut s, ARENA_W, ARENA_H, 1_000_000, 4);
    b.pos = Vec2 { x: 399_000, y: 0 };
    b.vel = Vec2 { x: 160_000, y: 120_000 };
    apply_velocity(&mut b, &mut s, ARENA_W, ARENA_H, 1_000_000, 4);
    assert_eq!((s.player_one, s.player_two), (2, 0));
}

#[test]
fn collision_reflects_horizontal_velocity() {
    let mut b = Ball { pos: Vec2 { x: 0, y: 0 }, vel: Vec2 { x: 100_000, y: 0 } };
    let p1 = Paddle { player: Player::One, x: 0, y: 0 };
    let p2 = Paddle { player: Player::Two, x: 500_000, y: 0 };
    apply_collision(&mut b, &p1, &p2);
    assert_eq!(b.vel, Vec2 { x: -100_000, y: 0 });
    assert_eq!(b.pos, Vec2 { x: 0, y: 0 });
}

#[test]
fn collision_misses_outside_rectangle() {
    // just outside the half-width: the bound is strict
    let mut b = Ball { pos: Vec2 { x: 5_000, y: 0 }, vel: Vec2 { x: 100_000, y: 0 } };
    let p1 = Paddle { player: Player::One, x: 0, y: 0 };
    let p2 = Paddle { player: Player::Two, x: 500_000, y: 0 };
    apply_collision(&mut b, &p1, &p2);
    assert_eq!(b.vel, Vec2 { x: 100_000, y: 0 });
}

#[test]
fn collision_with_both_paddles_cancels() {
    // two overlapping paddles flip the velocity twice, back to where it was
    let mut b = Ball { pos: Vec2 { x: 0, y: 0 }, vel: Vec2 { x: 100_000, y: 0 } };
    let p1 = Paddle { player: Player::One, x: -1_000, y: 0 };
    let p2 = Paddle { player: Player::Two, x: 1_000, y: 0 };
    apply_collision(&mut b, &p1, &p2);
    assert_eq!(b.vel, Vec2 { x: 100_000, y: 0 });
}

#[test]
fn key_events_set_and_clear_flags() {
    let mut input = InputState::new();
    input.on_key_event(Key::KeyW, true);
    assert!(input.key_w);
    input.on_key_event(Key::ArrowDown, true);
    assert!(input.arrow_down);
    input.on_key_event(Key::KeyW, false);
    assert!(!input.key_w);
    assert!(input.arrow_down);
    assert_eq!(input.read(), input);
}

#[test]
fn handle_input_last_write_wins() {
    let mut input = InputState::new();
    let events = vec![
        KeyEvent { key: Key::KeyW, pressed: true },
        KeyEvent { key: Key::KeyS, pressed: true },
        KeyEvent { key: Key::KeyW, pressed: false },
    ];
    handle_input(&mut input, &events);
    assert!(!input.key_w);
    assert!(input.key_s);
    assert!(!input.arrow_up);
    assert!(!input.arrow_down);
}

#[test]
fn new_game_layout() {
    let g = Game::new(ARENA_W, 0);
    assert_eq!(g.paddle_one.player, Player::One);
    assert_eq!(g.paddle_one.x, -390_000);
    assert_eq!(g.paddle_one.y, 0);
    assert_eq!(g.paddle_two.player, Player::Two);
    assert_eq!(g.paddle_two.x, 390_000);
    assert_eq!(g.ball.pos, Vec2 { x: 0, y: 0 });
    assert_eq!(g.ball.vel, Vec2 { x: 120_000, y: 160_000 });
    assert_eq!((g.score.player_one, g.score.player_two), (0, 0));
    assert_eq!(g.input, InputState::new());
}

#[test]
fn new_random_game_has_fixed_speed() {
    let g = Game::new_random(ARENA_W);
    assert_eq!(g.ball.vel.x * g.ball.vel.x + g.ball.vel.y * g.ball.vel.y, SPEED_SQ);
    assert_eq!(g.ball.pos, Vec2 { x: 0, y: 0 });
}

#[test]
fn tick_moves_paddles_from_input() {
    let mut g = Game::new(ARENA_W, 0);
    g.on_key_event(Key::KeyW, true);
    g.on_key_event(Key::ArrowDown, true);
    g.tick(ARENA_W, ARENA_H, 100_000, 0);
    assert_eq!(g.paddle_one.y, 50_000);
    assert_eq!(g.paddle_two.y, -50_000);
}

#[test]
fn scenario_800_by_600_first_point() {
    // arena 800 x 600, ball from the center at fixed speed toward the
    // upper right; run ticks until it exits on the right
    let mut g = Game::new(ARENA_W, 4);
    assert_eq!(g.ball.vel, Vec2 { x: 160_000, y: 120_000 });
    let mut ticks = 0u32;
    while g.score.player_one == 0 {
        g.tick(ARENA_W, ARENA_H, TICK, 0);
        ticks += 1;
        assert!(ticks < 1_000, "the ball never left the arena");
    }
    assert_eq!((g.score.player_one, g.score.player_two), (1, 0));
    assert_eq!(g.ball.pos, Vec2 { x: 0, y: 0 });
    // x grows by 2500 per tick and exits once past 400000
    assert_eq!(ticks, 161);
}

#[test]
fn tick_random_scores_deterministically() {
    let mut g = Game::new(ARENA_W, 4);
    g.ball.pos = Vec2 { x: 399_000, y: 0 };
    g.tick_random(ARENA_W, ARENA_H, 1_000_000);
    assert_eq!((g.score.player_one, g.score.player_two), (1, 0));
    assert_eq!(g.ball.pos, Vec2 { x: 0, y: 0 });
    assert_eq!(g.ball.vel.x * g.ball.vel.x + g.ball.vel.y * g.ball.vel.y, SPEED_SQ);
}
