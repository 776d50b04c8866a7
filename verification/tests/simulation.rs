use pong_core::geometry::clamp;
use pong_core::rng::randomise_vector;
use pong_core::state::{FrameInput, MainState};
use pong_core::vec2::Vec2;
use pong_core::{BALL_SPEED, PADDLE_HALF_H};

fn quiet_input(dt_ms: u32) -> FrameInput {
    FrameInput {
        dt_ms,
        screen_width: 800_000,
        screen_height: 600_000,
        player_1_up: false,
        player_1_down: false,
        player_2_up: false,
        player_2_down: false,
    }
}

fn centered_state() -> MainState {
    MainState {
        player_1_position: Vec2::new(50_000, 300_000),
        player_2_position: Vec2::new(750_000, 300_000),
        player_1_score: 0,
        player_2_score: 0,
        ball_position: Vec2::new(400_000, 300_000),
        ball_velocity: Vec2::new(0, 0),
    }
}

#[test]
fn clamp_below_low() {
    let mut v: i64 = -3;
    clamp(&mut v, 0, 10);
    assert_eq!(v, 0);
}

#[test]
fn clamp_above_high() {
    let mut v: i64 = 42;
    clamp(&mut v, 0, 10);
    assert_eq!(v, 10);
}

#[test]
fn clamp_inside_unchanged() {
    let mut v: i64 = 7;
    clamp(&mut v, 0, 10);
    assert_eq!(v, 7);
}

#[test]
fn clamp_degenerate_range() {
    let mut v: i64 = 5;
    clamp(&mut v, 8, 8);
    assert_eq!(v, 8);
}

#[test]
fn clamp_twice_equals_once() {
    for v in [-100i64, -1, 0, 3, 50, 99, 100, 1000] {
        let mut once = v;
        clamp(&mut once, -1, 99);
        let mut twice = once;
        clamp(&mut twice, -1, 99);
        assert_eq!(once, twice);
    }
}

#[test]
fn randomised_vector_components_exact() {
    let mut v = Vec2::new(0, 0);
    for _ in 0..1000 {
        randomise_vector(&mut v, 500, 300);
        assert!(v.x == 500 || v.x == -500);
        assert!(v.y == 300 || v.y == -300);
    }
}

#[test]
fn randomised_vector_all_sign_combinations_occur() {
    let mut v = Vec2::new(0, 0);
    let mut seen = [false; 4];
    for _ in 0..10_000 {
        randomise_vector(&mut v, 1, 1);
        let idx = match (v.x > 0, v.y > 0) {
            (true, true) => 0,
            (true, false) => 1,
            (false, true) => 2,
            (false, false) => 3,
        };
        seen[idx] = true;
        if seen.iter().all(|s| *s) {
            break;
        }
    }
    assert!(seen.iter().all(|s| *s));
}

#[test]
fn new_state_layout() {
    let s = MainState::new(800_000, 600_000);
    assert_eq!(s.player_1_position.x, 50_000);
    assert_eq!(s.player_1_position.y, 300_000);
    assert_eq!(s.player_2_position.x, 750_000);
    assert_eq!(s.player_2_position.y, 300_000);
    assert_eq!(s.player_1_score, 0);
    assert_eq!(s.player_2_score, 0);
    assert_eq!(s.ball_position.x, 400_000);
    assert_eq!(s.ball_position.y, 300_000);
    assert!(s.ball_velocity.x == BALL_SPEED || s.ball_velocity.x == -BALL_SPEED);
    assert!(s.ball_velocity.y == BALL_SPEED || s.ball_velocity.y == -BALL_SPEED);
}

#[test]
fn scenario_score_left_resets_ball() {
    // 800x600 pixel playfield, ball at (10, 300) px moving left at 500 px/s;
    // after 0.1 s the ball is at -40 px, so player 2 scores and the ball
    // returns to the center with a fresh +-500 velocity.
    let mut s = centered_state();
    s.ball_position = Vec2::new(10_000, 300_000);
    s.ball_velocity = Vec2::new(-500, 0);
    s.update(&quiet_input(100));
    assert_eq!(s.player_2_score, 1);
    assert_eq!(s.player_1_score, 0);
    assert_eq!(s.ball_position.x, 400_000);
    assert_eq!(s.ball_position.y, 300_000);
    assert!(s.ball_velocity.x == 500 || s.ball_velocity.x == -500);
    assert!(s.ball_velocity.y == 500 || s.ball_velocity.y == -500);
}

#[test]
fn scenario_score_right_resets_ball() {
    let mut s = centered_state();
    s.ball_position = Vec2::new(790_000, 300_000);
    s.ball_velocity = Vec2::new(500, 0);
    s.update(&quiet_input(100));
    assert_eq!(s.player_1_score, 1);
    assert_eq!(s.player_2_score, 0);
    assert_eq!(s.ball_position.x, 400_000);
    assert_eq!(s.ball_position.y, 300_000);
    assert!(s.ball_velocity.x == 500 || s.ball_velocity.x == -500);
    assert!(s.ball_velocity.y == 500 || s.ball_velocity.y == -500);
}

#[test]
fn no_score_without_crossing() {
    let mut s = centered_state();
    s.ball_velocity = Vec2::new(500, 500);
    s.update(&quiet_input(16));
    assert_eq!(s.player_1_score, 0);
    assert_eq!(s.player_2_score, 0);
    assert_eq!(s.ball_position.x, 408_000);
    assert_eq!(s.ball_position.y, 308_000);
}

#[test]
fn repeated_left_crossings_accumulate() {
    let mut s = centered_state();
    for round in 1..=5 {
        s.ball_position = Vec2::new(10_000, 300_000);
        s.ball_velocity = Vec2::new(-500, 0);
        s.update(&quiet_input(100));
        assert_eq!(s.player_2_score, round);
        assert_eq!(s.player_1_score, 0);
    }
}

#[test]
fn wall_bounce_top_forces_downward() {
    // Ball near the top moving up: its top edge crosses y = 0, so the ball
    // is clamped to the edge and the vertical velocity becomes positive.
    let mut s = centered_state();
    s.ball_position = Vec2::new(400_000, 16_000);
    s.ball_velocity = Vec2::new(0, -500);
    s.update(&quiet_input(10));
    assert_eq!(s.ball_position.y, 15_000);
    assert_eq!(s.ball_velocity.y, 500);
}

#[test]
fn wall_bounce_bottom_forces_upward() {
    let mut s = centered_state();
    s.ball_position = Vec2::new(400_000, 584_000);
    s.ball_velocity = Vec2::new(0, 500);
    s.update(&quiet_input(10));
    assert_eq!(s.ball_position.y, 585_000);
    assert_eq!(s.ball_velocity.y, -500);
}

#[test]
fn scenario_paddle_up_moves_without_clamp() {
    // Paddle 1 at y = 300 px, "up" held, dt = 0.02 s: the paddle moves
    // 10 px up to 290 px, well inside the playfield, so no clamping.
    let mut s = centered_state();
    let mut input = quiet_input(20);
    input.player_1_up = true;
    s.update(&input);
    assert_eq!(s.player_1_position.y, 290_000);
    assert_eq!(s.player_2_position.y, 300_000);
}

#[test]
fn paddle_down_moves() {
    let mut s = centered_state();
    let mut input = quiet_input(20);
    input.player_2_down = true;
    s.update(&input);
    assert_eq!(s.player_2_position.y, 310_000);
    assert_eq!(s.player_1_position.y, 300_000);
}

#[test]
fn paddle_clamped_at_top() {
    let mut s = centered_state();
    s.player_1_position = Vec2::new(50_000, 60_000);
    let mut input = quiet_input(100);
    input.player_1_up = true;
    s.update(&input);
    assert_eq!(s.player_1_position.y, PADDLE_HALF_H);
}

#[test]
fn paddle_clamped_at_bottom() {
    let mut s = centered_state();
    s.player_1_position = Vec2::new(50_000, 540_000);
    let mut input = quiet_input(100);
    input.player_1_down = true;
    s.update(&input);
    assert_eq!(s.player_1_position.y, 600_000 - PADDLE_HALF_H);
}

#[test]
fn both_keys_apply_in_turn() {
    // Holding both keys applies each movement separately, each with its own
    // clamp: from the top edge the upward move is clamped away and the
    // downward move still lands, so the paddle ends lower.
    let mut s = centered_state();
    s.player_1_position = Vec2::new(50_000, PADDLE_HALF_H);
    let mut input = quiet_input(100);
    input.player_1_up = true;
    input.player_1_down = true;
    s.update(&input);
    assert_eq!(s.player_1_position.y, PADDLE_HALF_H + 50_000);
}

#[test]
fn paddle_bounds_hold_over_many_frames() {
    let mut s = centered_state();
    for frame in 0..500 {
        let mut input = quiet_input(37);
        input.player_1_up = frame % 3 == 0;
        input.player_1_down = frame % 5 == 0;
        input.player_2_up = frame % 2 == 0;
        input.player_2_down = frame % 7 == 0;
        s.update(&input);
        assert!(PADDLE_HALF_H <= s.player_1_position.y);
        assert!(s.player_1_position.y <= 600_000 - PADDLE_HALF_H);
        assert!(PADDLE_HALF_H <= s.player_2_position.y);
        assert!(s.player_2_position.y <= 600_000 - PADDLE_HALF_H);
    }
}

#[test]
fn scenario_paddle_bounce_forces_rightward() {
    // Ball box overlapping player 1's paddle box: whatever the prior sign,
    // the horizontal velocity comes out positive.
    let mut s = centered_state();
    s.ball_position = Vec2::new(70_000, 300_000);
    s.ball_velocity = Vec2::new(-500, 0);
    s.update(&quiet_input(0));
    assert_eq!(s.ball_velocity.x, 500);
    assert_eq!(s.ball_velocity.y, 0);
}

#[test]
fn paddle_bounce_forces_leftward() {
    let mut s = centered_state();
    s.ball_position = Vec2::new(730_000, 300_000);
    s.ball_velocity = Vec2::new(500, 0);
    s.update(&quiet_input(0));
    assert_eq!(s.ball_velocity.x, -500);
    assert_eq!(s.ball_velocity.y, 0);
}

#[test]
fn separated_boxes_do_not_bounce() {
    // A ball 40 px from paddle 1's center (half-extents sum to 25 px) does
    // not overlap it, so its velocity keeps its sign.
    let mut s = centered_state();
    s.ball_position = Vec2::new(100_000, 300_000);
    s.ball_velocity = Vec2::new(-500, 0);
    s.update(&quiet_input(0));
    assert_eq!(s.ball_velocity.x, -500);
}

#[test]
fn zero_dt_changes_nothing() {
    let mut s = centered_state();
    s.ball_velocity = Vec2::new(500, -500);
    let mut input = quiet_input(0);
    input.player_1_up = true;
    input.player_2_down = true;
    s.update(&input);
    assert_eq!(s.player_1_position.y, 300_000);
    assert_eq!(s.player_2_position.y, 300_000);
    assert_eq!(s.ball_position.x, 400_000);
    assert_eq!(s.ball_position.y, 300_000);
    assert_eq!(s.ball_velocity.x, 500);
    assert_eq!(s.ball_velocity.y, -500);
    assert_eq!(s.player_1_score, 0);
    assert_eq!(s.player_2_score, 0);
}
