//! The match: goal and win judging, and the full simulation tick.
//!
//! A tick runs the fixed pipeline: both paddle controllers, the
//! ball's integration, its bounces off both paddles and the playfield
//! bounds, then the goal check and the win check. A ball past a goal
//! line scores a point for the far side and recenters ball and
//! paddles; a score reaching the win threshold exactly resets both
//! scores the same tick.

use vstd::prelude::*;

use crate::ai::{ai_controller, heuristic_moved_y};
use crate::ball::{
    ball_bounds_collision, ball_face, ball_paddle_collision, bounce_event, bounced, integrated,
    move_ball, resolved_ball, Ball, BallView, CollisionEvent, CollisionEventView, BALL_HALF,
    BALL_SPEED,
};
use crate::fixed::{Vec2, Vec2View, MAX_COORD, MAX_DT, MAX_VEL};
use crate::paddle::{Paddle, PaddleView, Side, AI_SPEED, PADDLE_X, PLAYER_SPEED, WIN_SCORE};
use crate::player::{human_moved_y, player_controller};

verus! {

/// Horizontal goal line: a side concedes once the ball's box is fully
/// past this distance from the center on its side.
pub const GOAL_X: i64 = 128_000;

/// A whole match: the ball and one paddle per side.
pub struct Game {
    pub ball: Ball,
    pub left: Paddle,
    pub right: Paddle,
}

/// The mathematical value of a `Game`.
pub ghost struct GameView {
    pub ball: BallView,
    pub left: PaddleView,
    pub right: PaddleView,
}

impl View for Game {
    type V = GameView;

    open spec fn view(&self) -> GameView {
        GameView { ball: self.ball@, left: self.left@, right: self.right@ }
    }
}

/// Structural well-formedness: one paddle per side with a bounded,
/// nonnegative speed, and both scores strictly below the win
/// threshold.
pub open spec fn wf(g: GameView) -> bool {
    &&& g.left.side == Side::Left
    &&& g.right.side == Side::Right
    &&& 0 <= g.left.speed <= MAX_VEL
    &&& 0 <= g.right.speed <= MAX_VEL
    &&& 0 <= g.left.score < WIN_SCORE
    &&& 0 <= g.right.score < WIN_SCORE
}

/// Magnitude bounds under which one tick is free of overflow.
pub open spec fn in_bounds(g: GameView) -> bool {
    &&& g.ball.position.within(MAX_COORD as int)
    &&& g.ball.velocity.within(MAX_VEL as int)
    &&& g.left.position.within(MAX_COORD as int)
    &&& g.right.position.within(MAX_COORD as int)
}

/// Which side scored, by the ball's horizontal center: the right side
/// once the ball's box is fully past the left goal line, the left
/// side once it is fully past the right one.
pub open spec fn goal_scored(bx: int) -> Option<Side> {
    if bx - BALL_HALF < -GOAL_X {
        Some(Side::Right)
    } else if bx + BALL_HALF > GOAL_X {
        Some(Side::Left)
    } else {
        None
    }
}

/// The ball right after a goal by `scorer`: centered, relaunched
/// toward the side that conceded.
pub open spec fn goal_ball(scorer: Side) -> BallView {
    BallView {
        position: Vec2View { x: 0, y: 0 },
        velocity: Vec2View {
            x: if scorer is Right {
                -BALL_SPEED as int
            } else {
                BALL_SPEED as int
            },
            y: 0,
        },
    }
}

/// The winner of the match, judged by exact equality with the
/// threshold, the left side first: a score that somehow skipped past
/// the threshold would never win, and that behavior is preserved.
pub open spec fn won_side(left_score: int, right_score: int) -> Option<Side> {
    if left_score == WIN_SCORE {
        Some(Side::Left)
    } else if right_score == WIN_SCORE {
        Some(Side::Right)
    } else {
        None
    }
}

/// Judges the goal lines: past one, the far side's score rises by
/// one, the ball recenters and relaunches toward the conceding side,
/// and both paddles recenter vertically.
pub fn check_goal(ball: &mut Ball, left: &mut Paddle, right: &mut Paddle) -> (scored: Option<
    Side,
>)
    requires
        old(ball).position.within(4 * MAX_COORD),
        old(left).score.value < u32::MAX,
        old(right).score.value < u32::MAX,
    ensures
        scored == goal_scored(old(ball)@.position.x),
        scored is None ==> *final(ball) == *old(ball) && *final(left) == *old(left)
            && *final(right) == *old(right),
        scored matches Some(s) ==> {
            &&& final(ball)@ == goal_ball(s)
            &&& final(left)@.position == (Vec2View { x: old(left)@.position.x, y: 0 })
            &&& final(right)@.position == (Vec2View { x: old(right)@.position.x, y: 0 })
            &&& final(left)@.score == old(left)@.score + if s is Left {
                1int
            } else {
                0int
            }
            &&& final(right)@.score == old(right)@.score + if s is Right {
                1int
            } else {
                0int
            }
        },
        final(left).side == old(left).side && final(right).side == old(right).side,
        final(left).speed == old(left).speed && final(right).speed == old(right).speed,
{
    let ball_left_edge: i64 = ball.position.x - BALL_HALF;
    let ball_right_edge: i64 = ball.position.x + BALL_HALF;
    if ball_left_edge < -GOAL_X {
        ball.velocity = Vec2 { x: -BALL_SPEED, y: 0 };
        ball.position = Vec2 { x: 0, y: 0 };
        right.score.value = right.score.value + 1;
        left.position.y = 0;
        right.position.y = 0;
        Some(Side::Right)
    } else if ball_right_edge > GOAL_X {
        ball.velocity = Vec2 { x: BALL_SPEED, y: 0 };
        ball.position = Vec2 { x: 0, y: 0 };
        left.score.value = left.score.value + 1;
        left.position.y = 0;
        right.position.y = 0;
        Some(Side::Left)
    } else {
        None
    }
}

/// Judges the win threshold: a score at exactly the threshold wins
/// the match for its side and resets both scores to zero the same
/// tick; nothing else changes.
pub fn check_win(left: &mut Paddle, right: &mut Paddle) -> (winner: Option<Side>)
    ensures
        winner == won_side(old(left)@.score, old(right)@.score),
        winner is Some ==> final(left).score.value == 0 && final(right).score.value == 0,
        winner is None ==> *final(left) == *old(left) && *final(right) == *old(right),
        final(left).side == old(left).side && final(right).side == old(right).side,
        final(left).speed == old(left).speed && final(right).speed == old(right).speed,
        final(left).position == old(left).position,
        final(right).position == old(right).position,
{
    if left.score.value == WIN_SCORE {
        left.score.value = 0;
        right.score.value = 0;
        Some(Side::Left)
    } else if right.score.value == WIN_SCORE {
        left.score.value = 0;
        right.score.value = 0;
        Some(Side::Right)
    } else {
        None
    }
}

/// What one tick emits for the shells around the simulation: the
/// bounces for a visual-effect layer, the scoring side if a goal
/// fell, and the winning side if the match ended.
pub struct TickEvents {
    pub collisions: Vec<CollisionEvent>,
    pub goal: Option<Side>,
    pub winner: Option<Side>,
}

/// The game after the controllers and the integration step: the
/// paddles chase their targets while the ball still stands at its
/// pre-tick place, then the ball advances.
pub open spec fn moved(g: GameView, up: bool, down: bool, dt: int) -> GameView {
    GameView {
        ball: integrated(g.ball, dt),
        left: PaddleView {
            position: Vec2View {
                x: g.left.position.x,
                y: human_moved_y(g.left.position.y, g.left.speed, up, down, dt),
            },
            ..g.left
        },
        right: PaddleView {
            position: Vec2View {
                x: g.right.position.x,
                y: heuristic_moved_y(g.right.position.y, g.right.speed, g.ball.position.y, dt),
            },
            ..g.right
        },
    }
}

/// Everything one tick determines, over the mathematical values: the
/// post-tick game and the emitted events.
pub ghost struct TickView {
    pub game: GameView,
    pub collisions: Seq<CollisionEventView>,
    pub goal: Option<Side>,
    pub winner: Option<Side>,
}

/// One whole tick: controllers and integration, the ball's bounce off
/// the left then the right paddle, the bound reflection, the goal
/// judgment and the win judgment.
pub open spec fn ticked(g: GameView, up: bool, down: bool, dt: int) -> TickView {
    let m = moved(g, up, down, dt);
    let b1 = resolved_ball(m.ball, m.left);
    let b2 = resolved_ball(b1, m.right);
    let collisions = (if ball_face(m.ball, m.left) is Some {
        seq![bounce_event(b1, m.left)]
    } else {
        Seq::<CollisionEventView>::empty()
    }) + (if ball_face(b1, m.right) is Some {
        seq![bounce_event(b2, m.right)]
    } else {
        Seq::<CollisionEventView>::empty()
    });
    let b3 = bounced(b2);
    let goal = goal_scored(b3.position.x);
    let ball_after = match goal {
        None => b3,
        Some(s) => goal_ball(s),
    };
    let left_after = match goal {
        None => m.left,
        Some(s) => PaddleView {
            position: Vec2View { x: m.left.position.x, y: 0 },
            score: m.left.score + if s is Left {
                1int
            } else {
                0int
            },
            ..m.left
        },
    };
    let right_after = match goal {
        None => m.right,
        Some(s) => PaddleView {
            position: Vec2View { x: m.right.position.x, y: 0 },
            score: m.right.score + if s is Right {
                1int
            } else {
                0int
            },
            ..m.right
        },
    };
    let winner = won_side(left_after.score, right_after.score);
    let left_end = if winner is Some {
        PaddleView { score: 0, ..left_after }
    } else {
        left_after
    };
    let right_end = if winner is Some {
        PaddleView { score: 0, ..right_after }
    } else {
        right_after
    };
    TickView {
        game: GameView { ball: ball_after, left: left_end, right: right_end },
        collisions,
        goal,
        winner,
    }
}

/// Law: a well-formed game stays well-formed over any tick — in
/// particular both scores stay strictly below the win threshold,
/// because a score that reaches it resets to zero the same tick.
pub proof fn lemma_tick_preserves_wf(g: GameView, up: bool, down: bool, dt: int)
    requires
        wf(g),
    ensures
        wf(ticked(g, up, down, dt).game),
{
}

impl Game {
    /// A fresh match: ball centered and launched toward the left,
    /// paddles at their stations, no points.
    pub fn new() -> (g: Game)
        ensures
            wf(g@),
            in_bounds(g@),
            g.ball.position.x == 0 && g.ball.position.y == 0,
            g.ball.velocity.x == -BALL_SPEED as int && g.ball.velocity.y == 0,
            g.left.side is Left && g.right.side is Right,
            g.left.position.x == -PADDLE_X as int && g.right.position.x == PADDLE_X as int,
            g.left.position.y == 0 && g.right.position.y == 0,
            g.left.speed == PLAYER_SPEED as int && g.right.speed == AI_SPEED as int,
            g.left.score.value == 0 && g.right.score.value == 0,
    {
        Game {
            ball: Ball::new(),
            left: Paddle::new(Side::Left),
            right: Paddle::new(Side::Right),
        }
    }

    /// The next tick's preconditions hold of the current state: what
    /// a shell checks before each call of `tick`.
    pub fn ready(&self) -> (r: bool)
        ensures
            r == (wf(self@) && in_bounds(self@)),
    {
        let side_ok = match (self.left.side, self.right.side) {
            (Side::Left, Side::Right) => true,
            _ => false,
        };
        side_ok && 0 <= self.left.speed && self.left.speed <= MAX_VEL && 0 <= self.right.speed
            && self.right.speed <= MAX_VEL && self.left.score.value < WIN_SCORE
            && self.right.score.value < WIN_SCORE && -MAX_COORD <= self.ball.position.x
            && self.ball.position.x <= MAX_COORD && -MAX_COORD <= self.ball.position.y
            && self.ball.position.y <= MAX_COORD && -MAX_VEL <= self.ball.velocity.x
            && self.ball.velocity.x <= MAX_VEL && -MAX_VEL <= self.ball.velocity.y
            && self.ball.velocity.y <= MAX_VEL && -MAX_COORD <= self.left.position.x
            && self.left.position.x <= MAX_COORD && -MAX_COORD <= self.left.position.y
            && self.left.position.y <= MAX_COORD && -MAX_COORD <= self.right.position.x
            && self.right.position.x <= MAX_COORD && -MAX_COORD <= self.right.position.y
            && self.right.position.y <= MAX_COORD
    }
}

/// Runs one simulation tick: both controllers, the ball's
/// integration, its bounces off the left then the right paddle and
/// off the playfield bounds, then the goal and win judgments, in that
/// fixed order. Returns the tick's events.
pub fn tick(g: &mut Game, up: bool, down: bool, dt: i64) -> (events: TickEvents)
    requires
        wf(old(g)@),
        in_bounds(old(g)@),
        0 <= dt <= MAX_DT,
    ensures
        final(g)@ == ticked(old(g)@, up, down, dt as int).game,
        wf(final(g)@),
        events.collisions@.map_values(|e: CollisionEvent| e@) == ticked(
            old(g)@,
            up,
            down,
            dt as int,
        ).collisions,
        events.goal == ticked(old(g)@, up, down, dt as int).goal,
        events.winner == ticked(old(g)@, up, down, dt as int).winner,
{
    let ball_y_before: i64 = g.ball.position.y;
    player_controller(&mut g.left, up, down, dt);
    ai_controller(&mut g.right, ball_y_before, dt);
    move_ball(&mut g.ball, dt);
    let mut collisions: Vec<CollisionEvent> = Vec::new();
    let ev_left = ball_paddle_collision(&mut g.ball, &g.left);
    match ev_left {
        Some(e) => collisions.push(e),
        None => {},
    }
    let ev_right = ball_paddle_collision(&mut g.ball, &g.right);
    match ev_right {
        Some(e) => collisions.push(e),
        None => {},
    }
    ball_bounds_collision(&mut g.ball);
    let goal = check_goal(&mut g.ball, &mut g.left, &mut g.right);
    let winner = check_win(&mut g.left, &mut g.right);
    let events = TickEvents { collisions, goal, winner };
    proof {
        assert(events.collisions@.map_values(|e: CollisionEvent| e@) =~= ticked(
            old(g)@,
            up,
            down,
            dt as int,
        ).collisions);
    }
    events
}

} // verus!
