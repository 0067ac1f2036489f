//! End-to-end checks of the simulation over concrete ticks and states.

use pong::ball::{ball_bounds_collision, ball_paddle_collision, move_ball, Ball};
use pong::collide::{collide, Face};
use pong::fixed::{div_trunc, scaled_step, Vec2};
use pong::game::{check_goal, check_win, tick, Game};
use pong::paddle::{Paddle, Score, Side};

fn ball_at(x: i64, y: i64, vx: i64, vy: i64) -> Ball {
    Ball { position: Vec2 { x, y }, velocity: Vec2 { x: vx, y: vy } }
}

fn paddle_at(side: Side, x: i64, y: i64) -> Paddle {
    let mut p = Paddle::new(side);
    p.position = Vec2 { x, y };
    p
}

#[test]
fn division_rounds_toward_zero() {
    assert_eq!(div_trunc(7, 2), 3);
    assert_eq!(div_trunc(-7, 2), -3);
    assert_eq!(div_trunc(423_500, 1000), 423);
    assert_eq!(div_trunc(-423_500, 1000), -423);
}

#[test]
fn velocity_step_is_velocity_times_time() {
    assert_eq!(scaled_step(50_000, 40), 2000);
    assert_eq!(scaled_step(-50_000, 40), -2000);
    assert_eq!(scaled_step(60_500, 7), 423);
    assert_eq!(scaled_step(-60_500, 7), -423);
    assert_eq!(scaled_step(100_000, 0), 0);
}

#[test]
fn integration_advances_by_velocity_times_dt() {
    let mut ball = ball_at(1000, -3000, 50_000, -25_000);
    move_ball(&mut ball, 40);
    assert_eq!(ball.position, Vec2 { x: 3000, y: -4000 });
    assert_eq!(ball.velocity, Vec2 { x: 50_000, y: -25_000 });
}

#[test]
fn integration_with_zero_dt_is_a_no_op() {
    let mut ball = ball_at(12_345, -6789, 50_000, 31_000);
    let before = ball;
    move_ball(&mut ball, 0);
    assert_eq!(ball, before);
}

#[test]
fn human_paddle_reaches_the_limit_exactly() {
    // Holding "up" for one second at speed 100: fifty 20-ms ticks of
    // 2 units each; the center stops at exactly 64 units.
    let mut game = Game::new();
    for _ in 0..50 {
        assert!(game.ready());
        tick(&mut game, true, false, 20);
    }
    assert_eq!(game.left.position.y, 64_000);
}

#[test]
fn human_paddle_overshoots_at_most_one_step() {
    let mut paddle = paddle_at(Side::Left, -100_000, 63_999);
    pong::player::player_controller(&mut paddle, true, false, 100);
    // One 100-ms step of 10 units carries it past the limit once.
    assert_eq!(paddle.position.y, 73_999);
    pong::player::player_controller(&mut paddle, true, false, 100);
    // Past the limit, "up" no longer moves it.
    assert_eq!(paddle.position.y, 73_999);
}

#[test]
fn human_paddle_both_intents_cancel() {
    let mut paddle = paddle_at(Side::Left, -100_000, 10_000);
    pong::player::player_controller(&mut paddle, true, true, 50);
    assert_eq!(paddle.position.y, 10_000);
}

#[test]
fn heuristic_paddle_chases_the_ball() {
    let mut paddle = paddle_at(Side::Right, 100_000, 0);
    // Ball above: one 40-ms step of 2 units up.
    pong::ai::ai_controller(&mut paddle, 30_000, 40);
    assert_eq!(paddle.position.y, 2000);
    // Ball below: one step down.
    pong::ai::ai_controller(&mut paddle, -30_000, 40);
    assert_eq!(paddle.position.y, 0);
    // Level with the ball: stays put.
    pong::ai::ai_controller(&mut paddle, 0, 40);
    assert_eq!(paddle.position.y, 0);
}

#[test]
fn heuristic_paddle_respects_the_limit() {
    let mut paddle = paddle_at(Side::Right, 100_000, 64_000);
    pong::ai::ai_controller(&mut paddle, 70_000, 40);
    assert_eq!(paddle.position.y, 64_000);
    paddle.position.y = -64_000;
    pong::ai::ai_controller(&mut paddle, -70_000, 40);
    assert_eq!(paddle.position.y, -64_000);
}

#[test]
fn heuristic_paddle_takes_back_an_overshooting_step() {
    // A large step that lands past the ball is corrected the same
    // tick by the second branch, leaving the paddle where it stood.
    let mut paddle = paddle_at(Side::Right, 100_000, 0);
    pong::ai::ai_controller(&mut paddle, 1000, 1000);
    assert_eq!(paddle.position.y, 0);
}

#[test]
fn side_hit_dead_center_keeps_vy() {
    let paddle = paddle_at(Side::Left, -100_000, 0);
    let mut ball = ball_at(-97_000, 0, -50_000, 7000);
    let ev = ball_paddle_collision(&mut ball, &paddle);
    assert_eq!(ball.velocity, Vec2 { x: 55_000, y: 7000 });
    assert_eq!(ball.position, Vec2 { x: -96_000, y: 0 });
    assert!(ev.is_some());
}

#[test]
fn side_hit_amplification_clamps() {
    let paddle = paddle_at(Side::Left, -100_000, 0);
    let mut ball = ball_at(-97_000, 0, -95_000, 0);
    ball_paddle_collision(&mut ball, &paddle);
    // Inverted and amplified to 104.5 units, clamped to 100.
    assert_eq!(ball.velocity.x, 100_000);

    let paddle = paddle_at(Side::Right, 100_000, 0);
    let mut ball = ball_at(97_000, 0, 95_000, 0);
    ball_paddle_collision(&mut ball, &paddle);
    assert_eq!(ball.velocity.x, -100_000);
}

#[test]
fn top_edge_hit_adds_full_spin() {
    let paddle = paddle_at(Side::Left, -100_000, 0);
    let mut ball = ball_at(-96_500, 8000, -50_000, 10_000);
    let ev = ball_paddle_collision(&mut ball, &paddle);
    assert_eq!(ball.velocity, Vec2 { x: 55_000, y: 60_000 });
    assert!(ev.is_some());
}

#[test]
fn bottom_edge_hit_subtracts_full_spin() {
    let paddle = paddle_at(Side::Left, -100_000, 0);
    let mut ball = ball_at(-96_500, -8000, -50_000, 10_000);
    ball_paddle_collision(&mut ball, &paddle);
    assert_eq!(ball.velocity, Vec2 { x: 55_000, y: -40_000 });
}

#[test]
fn small_offset_spin_rounds_toward_zero() {
    let paddle = paddle_at(Side::Left, -100_000, 0);
    // An offset of 3 subunits: 3 * 50000 / 8000 rounds 18.75 to 18.
    let mut ball = ball_at(-96_500, 3, -50_000, 0);
    ball_paddle_collision(&mut ball, &paddle);
    assert_eq!(ball.velocity.y, 18);

    let mut ball = ball_at(-96_500, -3, -50_000, 0);
    ball_paddle_collision(&mut ball, &paddle);
    assert_eq!(ball.velocity.y, -18);
}

#[test]
fn top_face_hit_inverts_vy_only() {
    let paddle = paddle_at(Side::Right, 100_000, 0);
    let mut ball = ball_at(100_000, 9000, 20_000, -30_000);
    let ev = ball_paddle_collision(&mut ball, &paddle);
    // Snapped to sit at the top face, vertical velocity inverted,
    // horizontal velocity untouched.
    assert_eq!(ball.position, Vec2 { x: 100_000, y: 6000 });
    assert_eq!(ball.velocity, Vec2 { x: 20_000, y: 30_000 });
    assert!(ev.is_some());
}

#[test]
fn bottom_face_hit_inverts_vy_only() {
    let paddle = paddle_at(Side::Right, 100_000, 0);
    let mut ball = ball_at(100_000, -9000, 20_000, 30_000);
    ball_paddle_collision(&mut ball, &paddle);
    assert_eq!(ball.position, Vec2 { x: 100_000, y: -6000 });
    assert_eq!(ball.velocity, Vec2 { x: 20_000, y: -30_000 });
}

#[test]
fn velocity_step_handles_the_largest_inputs() {
    assert_eq!(scaled_step(1_000_000_000, 1_000_000), 1_000_000_000_000);
    assert_eq!(scaled_step(-1_000_000_000, 1_000_000), -1_000_000_000_000);
}

#[test]
fn equal_penetration_depths_pick_the_side_face() {
    // The ball sticks out 2 units to the right and 2 units above: the
    // tie between the axes goes to the horizontal candidate.
    let paddle_center = Vec2 { x: -100_000, y: 0 };
    let paddle_half = Vec2 { x: 2000, y: 8000 };
    let ball_half = Vec2 { x: 2000, y: 2000 };
    let face = collide(paddle_center, paddle_half, Vec2 { x: -98_000, y: 8000 }, ball_half);
    assert_eq!(face, Some(Face::Right));
}

#[test]
fn shallower_axis_wins_face_selection() {
    let paddle_center = Vec2 { x: -100_000, y: 0 };
    let paddle_half = Vec2 { x: 2000, y: 8000 };
    let ball_half = Vec2 { x: 2000, y: 2000 };
    // Penetrating 3 units past the right face but only 2 past the
    // top one: the vertical candidate is shallower and wins.
    let face = collide(paddle_center, paddle_half, Vec2 { x: -99_000, y: 8000 }, ball_half);
    assert_eq!(face, Some(Face::Top));
    // No overlap at all: no face.
    let face = collide(paddle_center, paddle_half, Vec2 { x: 0, y: 0 }, ball_half);
    assert_eq!(face, None);
}

#[test]
fn ball_stuck_out_of_no_face_emits_an_event_without_mutation() {
    // A ball dead inside the paddle's box sticks out on neither axis:
    // nothing moves, yet the overlap still yields an event.
    let paddle = paddle_at(Side::Left, -100_000, 0);
    let mut ball = ball_at(-100_000, 0, -50_000, 3000);
    let before = ball;
    let ev = ball_paddle_collision(&mut ball, &paddle);
    assert_eq!(ball, before);
    assert!(ev.is_some());
    let ev = ev.unwrap();
    assert_eq!(ev.position, Vec2 { x: -100_000, y: 0 });
    assert_eq!(ev.direction, Vec2 { x: -50_000, y: 3000 });
}

#[test]
fn no_overlap_changes_nothing() {
    let paddle = paddle_at(Side::Left, -100_000, 0);
    let mut ball = ball_at(0, 0, -50_000, 0);
    let before = ball;
    let ev = ball_paddle_collision(&mut ball, &paddle);
    assert_eq!(ball, before);
    assert!(ev.is_none());
}

#[test]
fn bounce_event_reports_the_halfway_point_and_direction() {
    let paddle = paddle_at(Side::Left, -100_000, 0);
    let mut ball = ball_at(-97_000, 0, -50_000, 0);
    let ev = ball_paddle_collision(&mut ball, &paddle).unwrap();
    // Resolved ball center is (-96, 0); halfway to the paddle is -98.
    assert_eq!(ev.position, Vec2 { x: -98_000, y: 0 });
    assert_eq!(ev.direction, Vec2 { x: 55_000, y: 0 });
}

#[test]
fn bound_reflection_leaves_position_uncorrected() {
    let mut ball = ball_at(0, 70_001, 10_000, 20_000);
    ball_bounds_collision(&mut ball);
    assert_eq!(ball.position, Vec2 { x: 0, y: 70_001 });
    assert_eq!(ball.velocity, Vec2 { x: 10_000, y: -20_000 });

    let mut ball = ball_at(0, -70_001, 10_000, -20_000);
    ball_bounds_collision(&mut ball);
    assert_eq!(ball.position, Vec2 { x: 0, y: -70_001 });
    assert_eq!(ball.velocity, Vec2 { x: 10_000, y: 20_000 });
}

#[test]
fn bound_reflection_needs_the_box_past_the_bound() {
    // The ball's box reaches exactly to the bound: no reflection.
    let mut ball = ball_at(0, 70_000, 10_000, 20_000);
    let before = ball;
    ball_bounds_collision(&mut ball);
    assert_eq!(ball, before);
}

#[test]
fn goal_on_the_left_scores_for_the_right() {
    let mut ball = ball_at(-126_001, 5000, -60_000, 4000);
    let mut left = paddle_at(Side::Left, -100_000, 30_000);
    let mut right = paddle_at(Side::Right, 100_000, -20_000);
    let scored = check_goal(&mut ball, &mut left, &mut right);
    assert_eq!(scored, Some(Side::Right));
    assert_eq!(right.score.value, 1);
    assert_eq!(left.score.value, 0);
    assert_eq!(ball.position, Vec2 { x: 0, y: 0 });
    assert_eq!(ball.velocity, Vec2 { x: -50_000, y: 0 });
    assert_eq!(left.position.y, 0);
    assert_eq!(right.position.y, 0);
}

#[test]
fn goal_on_the_right_scores_for_the_left() {
    let mut ball = ball_at(126_001, -5000, 60_000, 4000);
    let mut left = paddle_at(Side::Left, -100_000, 30_000);
    let mut right = paddle_at(Side::Right, 100_000, -20_000);
    let scored = check_goal(&mut ball, &mut left, &mut right);
    assert_eq!(scored, Some(Side::Left));
    assert_eq!(left.score.value, 1);
    assert_eq!(right.score.value, 0);
    assert_eq!(ball.velocity, Vec2 { x: 50_000, y: 0 });
    assert_eq!(left.position.y, 0);
    assert_eq!(right.position.y, 0);
}

#[test]
fn ball_on_the_goal_line_is_no_goal() {
    let mut ball = ball_at(-126_000, 0, -50_000, 0);
    let mut left = paddle_at(Side::Left, -100_000, 0);
    let mut right = paddle_at(Side::Right, 100_000, 0);
    let scored = check_goal(&mut ball, &mut left, &mut right);
    assert_eq!(scored, None);
    assert_eq!(ball.position.x, -126_000);
    assert_eq!(right.score.value, 0);
}

#[test]
fn win_resets_both_scores_on_the_same_tick() {
    let mut game = Game::new();
    game.left.score = Score { value: 10 };
    game.right.score = Score { value: 7 };
    // Park the ball just short of the right goal line and let one
    // zero-input tick push it over: the eleventh point wins and both
    // scores reset at once.
    game.ball.position = Vec2 { x: 126_000, y: 0 };
    game.ball.velocity = Vec2 { x: 50_000, y: 0 };
    assert!(game.ready());
    let events = tick(&mut game, false, false, 20);
    assert_eq!(events.goal, Some(Side::Left));
    assert_eq!(events.winner, Some(Side::Left));
    assert_eq!(game.left.score.value, 0);
    assert_eq!(game.right.score.value, 0);
}

#[test]
fn short_of_the_threshold_no_win() {
    let mut left = paddle_at(Side::Left, -100_000, 0);
    let mut right = paddle_at(Side::Right, 100_000, 0);
    left.score = Score { value: 10 };
    right.score = Score { value: 10 };
    let winner = check_win(&mut left, &mut right);
    assert_eq!(winner, None);
    assert_eq!(left.score.value, 10);
    assert_eq!(right.score.value, 10);
}

#[test]
fn launch_toward_the_left_paddle_bounces_at_55() {
    // From the match start, 40-ms ticks carry the ball 2 units left
    // each; on the forty-ninth it reaches -98, strikes the right face
    // of the left paddle and leaves at 55 units per second with no
    // vertical change.
    let mut game = Game::new();
    let mut bounce_tick = 0_u32;
    for n in 1..=49_u32 {
        assert!(game.ready());
        let events = tick(&mut game, false, false, 40);
        if !events.collisions.is_empty() {
            bounce_tick = n;
            assert_eq!(events.collisions.len(), 1);
            assert_eq!(events.collisions[0].direction, Vec2 { x: 55_000, y: 0 });
        }
    }
    assert_eq!(bounce_tick, 49);
    assert_eq!(game.ball.velocity, Vec2 { x: 55_000, y: 0 });
    assert_eq!(game.ball.position, Vec2 { x: -96_000, y: 0 });
}

#[test]
fn full_rally_keeps_the_game_ready() {
    // A long scripted rally: the simulation stays well-formed and in
    // bounds tick after tick, whatever the human does.
    let mut game = Game::new();
    for n in 0..2000_u32 {
        assert!(game.ready());
        let up = n % 3 == 0;
        let down = n % 7 == 0;
        tick(&mut game, up, down, 16);
        assert!(game.left.score.value < 11);
        assert!(game.right.score.value < 11);
    }
}
