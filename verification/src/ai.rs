//! The heuristic paddle controller.
//!
//! Each tick the heuristic chases the ball's vertical position as it
//! stood before the tick's integration: one step up while below the
//! ball, one step down while above it, with the same pre-move bound
//! checks as the human controller. It predicts nothing and reacts
//! with no delay; its slower speed is the game's difficulty lever.

use vstd::prelude::*;

use crate::fixed::{scaled, scaled_step, MAX_COORD, MAX_DT};
use crate::paddle::{Paddle, PADDLE_LIMIT_Y};

verus! {

/// The paddle's vertical center after one tick of the heuristic: one
/// step up while strictly below the ball and below the limit, then
/// one step down while strictly above the ball and above the negative
/// limit. A step that lands past the ball is taken back by the second
/// branch the same tick.
pub open spec fn heuristic_moved_y(y: int, speed: int, ball_y: int, dt: int) -> int {
    let step = scaled(speed, dt);
    let y1 = if ball_y > y && y < PADDLE_LIMIT_Y {
        y + step
    } else {
        y
    };
    if ball_y < y1 && y1 > -PADDLE_LIMIT_Y {
        y1 - step
    } else {
        y1
    }
}

/// Moves the heuristic's paddle for one tick toward `ball_y`, the
/// ball's vertical center before this tick's integration.
pub fn ai_controller(paddle: &mut Paddle, ball_y: i64, dt: i64)
    requires
        old(paddle).position.within(MAX_COORD as int),
        old(paddle).speed_ok(),
        0 <= dt <= MAX_DT,
    ensures
        final(paddle)@.position.y == heuristic_moved_y(
            old(paddle)@.position.y,
            old(paddle)@.speed,
            ball_y as int,
            dt as int,
        ),
        final(paddle).position.x == old(paddle).position.x,
        final(paddle).side == old(paddle).side,
        final(paddle).speed == old(paddle).speed,
        final(paddle).score == old(paddle).score,
        final(paddle).position.within(2 * MAX_COORD),
{
    let step: i64 = scaled_step(paddle.speed, dt);
    if ball_y > paddle.position.y && paddle.position.y < PADDLE_LIMIT_Y {
        paddle.position.y = paddle.position.y + step;
    }
    if ball_y < paddle.position.y && paddle.position.y > -PADDLE_LIMIT_Y {
        paddle.position.y = paddle.position.y - step;
    }
}

/// Law: the heuristic is greedy and never flees the ball. A paddle
/// level with the ball stays put; one below the ball never ends the
/// tick lower, one above it never ends higher; and no tick carries
/// the center more than one step past the movement limit.
pub proof fn lemma_heuristic_tracks(y: int, speed: int, ball_y: int, dt: int)
    requires
        speed >= 0,
        dt >= 0,
    ensures
        ball_y == y ==> heuristic_moved_y(y, speed, ball_y, dt) == y,
        ball_y > y ==> heuristic_moved_y(y, speed, ball_y, dt) >= y,
        ball_y < y ==> heuristic_moved_y(y, speed, ball_y, dt) <= y,
        heuristic_moved_y(y, speed, ball_y, dt) <= vstd::math::max(
            y,
            PADDLE_LIMIT_Y + scaled(speed, dt),
        ),
        heuristic_moved_y(y, speed, ball_y, dt) >= vstd::math::min(
            y,
            -PADDLE_LIMIT_Y - scaled(speed, dt),
        ),
{
    vstd::arithmetic::mul::lemma_mul_nonnegative(speed, dt);
    crate::fixed::lemma_div_toward_zero_bounds(speed * dt, 1000);
}

} // verus!
