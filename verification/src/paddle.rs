//! Paddles, sides and scores.
//!
//! Each of the two paddles is a 4 x 16 box owned by one side of the
//! court. The left paddle is driven by the player, the right paddle by
//! the tracking heuristic; each carries its side's score.

use vstd::prelude::*;

use crate::fixed::{Vec2, Vec2View, MAX_VEL};

verus! {

/// Half-width of a paddle's 4 x 16 box, in subunits.
pub const PADDLE_HALF_X: i64 = 2000;

/// Half-height of a paddle's 4 x 16 box, in subunits.
pub const PADDLE_HALF_Y: i64 = 8000;

/// Vertical movement limit of a paddle's center: a controller moves
/// only while the center is strictly inside this bound, so one tick's
/// step may carry it slightly past.
pub const PADDLE_LIMIT_Y: i64 = 64_000;

/// Horizontal distance of each paddle's center from the court center.
pub const PADDLE_X: i64 = 100_000;

/// Speed of the player-driven left paddle, in subunits per second.
pub const PLAYER_SPEED: i64 = 100_000;

/// Speed of the heuristic-driven right paddle, in subunits per second.
pub const AI_SPEED: i64 = 50_000;

/// The score at which a side wins and both scores reset.
pub const WIN_SCORE: u32 = 11;

/// The side of the court a paddle defends and scores for.
#[derive(Clone, Copy, PartialEq, Eq, Structural, Debug)]
pub enum Side {
    Left,
    Right,
}

/// One side's goal count.
#[derive(Clone, Copy, PartialEq, Eq, Structural, Debug)]
pub struct Score {
    pub value: u32,
}

/// A paddle: its side, the center of its box, its vertical speed and
/// its side's score.
#[derive(Clone, Copy, PartialEq, Eq, Structural, Debug)]
pub struct Paddle {
    pub side: Side,
    pub position: Vec2,
    pub speed: i64,
    pub score: Score,
}

/// The mathematical value of a `Paddle`.
pub ghost struct PaddleView {
    pub side: Side,
    pub position: Vec2View,
    pub speed: int,
    pub score: int,
}

impl View for Paddle {
    type V = PaddleView;

    open spec fn view(&self) -> PaddleView {
        PaddleView {
            side: self.side,
            position: self.position@,
            speed: self.speed as int,
            score: self.score.value as int,
        }
    }
}

impl Paddle {
    /// A paddle at its match-start place: centered vertically, at its
    /// side's station, with its side's speed and no points.
    pub fn new(side: Side) -> (p: Paddle)
        ensures
            p.side == side,
            p.position.x == if side is Left {
                -PADDLE_X as int
            } else {
                PADDLE_X as int
            },
            p.position.y == 0,
            p.speed == if side is Left {
                PLAYER_SPEED as int
            } else {
                AI_SPEED as int
            },
            p.score.value == 0,
    {
        match side {
            Side::Left => Paddle {
                side,
                position: Vec2 { x: -PADDLE_X, y: 0 },
                speed: PLAYER_SPEED,
                score: Score { value: 0 },
            },
            Side::Right => Paddle {
                side,
                position: Vec2 { x: PADDLE_X, y: 0 },
                speed: AI_SPEED,
                score: Score { value: 0 },
            },
        }
    }

    /// The paddle's speed is a well-formed, bounded velocity.
    pub open spec fn speed_ok(self) -> bool {
        0 <= self.speed <= MAX_VEL
    }
}

} // verus!
