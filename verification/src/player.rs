//! The human-driven paddle controller.
//!
//! Each tick the controller reads two intents, up and down, and moves
//! the paddle one step per active intent. Each bound check runs before
//! its move, never after, so a tick's step can carry the center
//! slightly past the movement limit; that overshoot is bounded by one
//! step and is preserved behavior, not corrected.

use vstd::prelude::*;

use crate::fixed::{scaled, scaled_step, MAX_COORD, MAX_DT};
use crate::paddle::{Paddle, PADDLE_LIMIT_Y};

verus! {

/// The paddle's vertical center after one tick of the human
/// controller: an active `up` intent raises it one step while the
/// center is below the limit, then an active `down` intent lowers it
/// one step while the center is above the negative limit.
pub open spec fn human_moved_y(y: int, speed: int, up: bool, down: bool, dt: int) -> int {
    let step = scaled(speed, dt);
    let y1 = if up && y < PADDLE_LIMIT_Y {
        y + step
    } else {
        y
    };
    if down && y1 > -PADDLE_LIMIT_Y {
        y1 - step
    } else {
        y1
    }
}

/// Moves the player's paddle for one tick by the `up` and `down`
/// intents read from the input source.
pub fn player_controller(paddle: &mut Paddle, up: bool, down: bool, dt: i64)
    requires
        old(paddle).position.within(MAX_COORD as int),
        old(paddle).speed_ok(),
        0 <= dt <= MAX_DT,
    ensures
        final(paddle)@.position.y == human_moved_y(
            old(paddle)@.position.y,
            old(paddle)@.speed,
            up,
            down,
            dt as int,
        ),
        final(paddle).position.x == old(paddle).position.x,
        final(paddle).side == old(paddle).side,
        final(paddle).speed == old(paddle).speed,
        final(paddle).score == old(paddle).score,
        final(paddle).position.within(2 * MAX_COORD),
{
    let step: i64 = scaled_step(paddle.speed, dt);
    if up && paddle.position.y < PADDLE_LIMIT_Y {
        paddle.position.y = paddle.position.y + step;
    }
    if down && paddle.position.y > -PADDLE_LIMIT_Y {
        paddle.position.y = paddle.position.y - step;
    }
}

/// Law: one tick of the human controller never carries the paddle
/// more than one step past the movement limit, whatever the intents;
/// a paddle already past the limit it never pushes further out.
pub proof fn lemma_human_limit_overshoot(y: int, speed: int, up: bool, down: bool, dt: int)
    requires
        speed >= 0,
        dt >= 0,
    ensures
        human_moved_y(y, speed, up, down, dt) <= vstd::math::max(
            y,
            PADDLE_LIMIT_Y + scaled(speed, dt),
        ),
        human_moved_y(y, speed, up, down, dt) >= vstd::math::min(
            y,
            -PADDLE_LIMIT_Y - scaled(speed, dt),
        ),
{
    vstd::arithmetic::mul::lemma_mul_nonnegative(speed, dt);
    crate::fixed::lemma_div_toward_zero_bounds(speed * dt, 1000);
}

} // verus!
