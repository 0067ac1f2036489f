//! The ball: motion integration, bound reflection and paddle bounces.
//!
//! The ball is a 4 x 4 box. Each tick it advances by velocity times
//! delta-time, reflects off the top and bottom playfield bounds, and
//! bounces off paddles: a side-face hit inverts and amplifies the
//! horizontal velocity and imparts spin proportional to how far from
//! the paddle's center the ball struck; a top or bottom hit only
//! inverts the vertical velocity. Every bounce yields an event for a
//! presentation layer.

use vstd::prelude::*;

use crate::collide::{collide, struck_face, Face};
use crate::fixed::{
    div_toward_zero, div_trunc, scaled, scaled_step, Vec2, Vec2View, MAX_COORD, MAX_DT, MAX_VEL,
};
use crate::paddle::{Paddle, PaddleView, PADDLE_HALF_X, PADDLE_HALF_Y};

verus! {

/// Half-extent of the ball's 4 x 4 box, in subunits.
pub const BALL_HALF: i64 = 2000;

/// Vertical playfield bound: the ball reflects once its box pokes past
/// this height above or below the center line.
pub const BOUND_Y: i64 = 72_000;

/// Launch speed of the ball, in subunits per second.
pub const BALL_SPEED: i64 = 50_000;

/// Largest horizontal ball velocity magnitude: amplified bounces clamp
/// to this.
pub const MAX_BALL_VX: i64 = 100_000;

/// Numerator and denominator of the side-face bounce amplification:
/// the bounce speeds the ball up by a tenth.
pub const AMPLIFY_NUM: i64 = 11;

/// See `AMPLIFY_NUM`.
pub const AMPLIFY_DEN: i64 = 10;

/// Vertical velocity imparted per full half-height of off-center
/// contact, in subunits per second.
pub const SPIN_SPEED: i64 = 50_000;

/// Largest spin a single contact can impart, in subunits per second:
/// the contact offset is below `PADDLE_HALF_Y + BALL_HALF` in
/// magnitude.
pub const SPIN_MAX: i64 = 62_500;

/// The ball: the center of its box and its velocity.
#[derive(Clone, Copy, PartialEq, Eq, Structural, Debug)]
pub struct Ball {
    pub position: Vec2,
    pub velocity: Vec2,
}

/// The mathematical value of a `Ball`.
pub ghost struct BallView {
    pub position: Vec2View,
    pub velocity: Vec2View,
}

impl View for Ball {
    type V = BallView;

    open spec fn view(&self) -> BallView {
        BallView { position: self.position@, velocity: self.velocity@ }
    }
}

/// A paddle bounce, for a presentation layer: the point halfway
/// between ball and paddle centers, and the ball's outgoing velocity.
#[derive(Clone, Copy, PartialEq, Eq, Structural, Debug)]
pub struct CollisionEvent {
    pub position: Vec2,
    pub direction: Vec2,
}

/// The mathematical value of a `CollisionEvent`.
pub ghost struct CollisionEventView {
    pub position: Vec2View,
    pub direction: Vec2View,
}

impl View for CollisionEvent {
    type V = CollisionEventView;

    open spec fn view(&self) -> CollisionEventView {
        CollisionEventView { position: self.position@, direction: self.direction@ }
    }
}

impl Ball {
    /// The ball at match start: centered, launched toward the left.
    pub fn new() -> (b: Ball)
        ensures
            b.position.x == 0 && b.position.y == 0,
            b.velocity.x == -BALL_SPEED as int && b.velocity.y == 0,
    {
        Ball { position: Vec2 { x: 0, y: 0 }, velocity: Vec2 { x: -BALL_SPEED, y: 0 } }
    }
}

/// The ball after one integration step: position advanced by velocity
/// times delta-time, velocity unchanged.
pub open spec fn integrated(b: BallView, dt: int) -> BallView {
    BallView {
        position: Vec2View {
            x: b.position.x + scaled(b.velocity.x, dt),
            y: b.position.y + scaled(b.velocity.y, dt),
        },
        velocity: b.velocity,
    }
}

/// Advances the ball by its velocity over `dt` thousandths of a
/// second. A zero delta-time changes nothing.
pub fn move_ball(ball: &mut Ball, dt: i64)
    requires
        old(ball).position.within(MAX_COORD as int),
        old(ball).velocity.within(MAX_VEL as int),
        0 <= dt <= MAX_DT,
    ensures
        final(ball)@ == integrated(old(ball)@, dt as int),
        final(ball).position.within(2 * MAX_COORD),
        final(ball).velocity == old(ball).velocity,
        dt == 0 ==> *final(ball) == *old(ball),
{
    proof {
        vstd::arithmetic::div_mod::lemma_div_of0(1000);
    }
    let dx: i64 = scaled_step(ball.velocity.x, dt);
    let dy: i64 = scaled_step(ball.velocity.y, dt);
    ball.position.x = ball.position.x + dx;
    ball.position.y = ball.position.y + dy;
}

/// Law: integration over a zero delta-time is the identity.
pub proof fn lemma_integrate_zero_dt(b: BallView)
    ensures
        integrated(b, 0) == b,
{
    vstd::arithmetic::div_mod::lemma_div_of0(1000);
    assert(b.velocity.x * 0 == 0);
    assert(b.velocity.y * 0 == 0);
}

/// The ball's box pokes past the top or bottom playfield bound.
pub open spec fn beyond_vertical_bounds(y: int) -> bool {
    y + BALL_HALF > BOUND_Y || y - BALL_HALF < -BOUND_Y
}

/// The ball after the bound check: vertical velocity inverted when out
/// of bounds, position never corrected.
pub open spec fn bounced(b: BallView) -> BallView {
    if beyond_vertical_bounds(b.position.y) {
        BallView {
            position: b.position,
            velocity: Vec2View { x: b.velocity.x, y: -b.velocity.y },
        }
    } else {
        b
    }
}

/// Reflects the ball at the top and bottom playfield bounds: past
/// either, the vertical velocity inverts; the position stays
/// uncorrected that tick.
pub fn ball_bounds_collision(ball: &mut Ball)
    requires
        old(ball).position.within(4 * MAX_COORD),
        old(ball).velocity.within(4 * MAX_VEL),
    ensures
        final(ball)@ == bounced(old(ball)@),
        final(ball).position == old(ball).position,
        final(ball).velocity.x == old(ball).velocity.x,
{
    let top: i64 = ball.position.y + BALL_HALF;
    let bottom: i64 = ball.position.y - BALL_HALF;
    if top > BOUND_Y || bottom < -BOUND_Y {
        ball.velocity.y = -ball.velocity.y;
    }
}

/// The paddle's half-extent as a vector.
pub open spec fn paddle_halves() -> Vec2View {
    Vec2View { x: PADDLE_HALF_X as int, y: PADDLE_HALF_Y as int }
}

/// The ball's half-extent as a vector.
pub open spec fn ball_halves() -> Vec2View {
    Vec2View { x: BALL_HALF as int, y: BALL_HALF as int }
}

/// The face of the paddle that the ball strikes, if they overlap.
pub open spec fn ball_face(b: BallView, p: PaddleView) -> Option<Face> {
    struck_face(p.position, paddle_halves(), b.position, ball_halves())
}

/// `a` clamped to `[lo, hi]`.
pub open spec fn clamped(a: int, lo: int, hi: int) -> int {
    if a < lo {
        lo
    } else if a > hi {
        hi
    } else {
        a
    }
}

/// The horizontal velocity after a side-face bounce: inverted,
/// amplified by eleven tenths rounding toward zero, clamped.
pub open spec fn amplified_vx(vx: int) -> int {
    clamped(
        div_toward_zero(vx * -(AMPLIFY_NUM as int), AMPLIFY_DEN as int),
        -MAX_BALL_VX as int,
        MAX_BALL_VX as int,
    )
}

/// The spin of a contact `offset` subunits off the paddle's center:
/// proportional to the offset, a full half-height giving `SPIN_SPEED`.
pub open spec fn spin_of(offset: int) -> int {
    div_toward_zero(offset * SPIN_SPEED, PADDLE_HALF_Y as int)
}

/// The ball after its bounce off `p`: snapped flush to the struck
/// face; a top or bottom hit inverts the vertical velocity only, a
/// side hit amplifies the inverted horizontal velocity and adds spin,
/// and a ball stuck out of no face is untouched.
pub open spec fn resolved_ball(b: BallView, p: PaddleView) -> BallView {
    match ball_face(b, p) {
        None => b,
        Some(face) => match face {
            Face::Inside => b,
            Face::Top => BallView {
                position: Vec2View {
                    x: b.position.x,
                    y: p.position.y + PADDLE_HALF_Y - BALL_HALF,
                },
                velocity: Vec2View { x: b.velocity.x, y: -b.velocity.y },
            },
            Face::Bottom => BallView {
                position: Vec2View {
                    x: b.position.x,
                    y: p.position.y - PADDLE_HALF_Y + BALL_HALF,
                },
                velocity: Vec2View { x: b.velocity.x, y: -b.velocity.y },
            },
            Face::Right => BallView {
                position: Vec2View {
                    x: p.position.x + PADDLE_HALF_X + BALL_HALF,
                    y: b.position.y,
                },
                velocity: Vec2View {
                    x: amplified_vx(b.velocity.x),
                    y: b.velocity.y + spin_of(b.position.y - p.position.y),
                },
            },
            Face::Left => BallView {
                position: Vec2View {
                    x: p.position.x - PADDLE_HALF_X - BALL_HALF,
                    y: b.position.y,
                },
                velocity: Vec2View {
                    x: amplified_vx(b.velocity.x),
                    y: b.velocity.y + spin_of(b.position.y - p.position.y),
                },
            },
        },
    }
}

/// The point halfway from the ball's center to the paddle's center,
/// each component rounding toward zero.
pub open spec fn halfway(b: Vec2View, p: Vec2View) -> Vec2View {
    Vec2View { x: b.x + div_toward_zero(p.x - b.x, 2), y: b.y + div_toward_zero(p.y - b.y, 2) }
}

/// The event a bounce off `p` emits, `b` being the resolved ball.
pub open spec fn bounce_event(b: BallView, p: PaddleView) -> CollisionEventView {
    CollisionEventView { position: halfway(b.position, p.position), direction: b.velocity }
}

/// Law: a side-face bounce dead on the paddle's center changes only
/// the horizontal velocity — centered contact imparts no spin.
pub proof fn lemma_side_hit_center(b: BallView, p: PaddleView)
    requires
        ball_face(b, p) == Some(Face::Right) || ball_face(b, p) == Some(Face::Left),
        b.position.y == p.position.y,
    ensures
        resolved_ball(b, p).velocity.x == amplified_vx(b.velocity.x),
        resolved_ball(b, p).velocity.y == b.velocity.y,
        resolved_ball(b, p).position.y == b.position.y,
{
    vstd::arithmetic::div_mod::lemma_div_of0(PADDLE_HALF_Y as int);
    assert(0int * SPIN_SPEED == 0);
}

/// Law: contact at a paddle's very edge imparts the full spin speed,
/// upward at the top edge and downward at the bottom edge.
pub proof fn lemma_edge_hit_full_spin()
    ensures
        spin_of(PADDLE_HALF_Y as int) == SPIN_SPEED as int,
        spin_of(-PADDLE_HALF_Y as int) == -(SPIN_SPEED as int),
{
    vstd::arithmetic::div_mod::lemma_div_by_multiple(SPIN_SPEED as int, PADDLE_HALF_Y as int);
    assert(PADDLE_HALF_Y as int * SPIN_SPEED == SPIN_SPEED as int * PADDLE_HALF_Y);
    assert(-(PADDLE_HALF_Y as int) * SPIN_SPEED == -(SPIN_SPEED as int * PADDLE_HALF_Y));
}

/// Law: a bounce off a paddle's top or bottom face inverts the
/// vertical velocity and nothing else of the velocity; the ball's
/// horizontal position stays.
pub proof fn lemma_vertical_hit_inverts_vy(b: BallView, p: PaddleView)
    requires
        ball_face(b, p) == Some(Face::Top) || ball_face(b, p) == Some(Face::Bottom),
    ensures
        resolved_ball(b, p).velocity.x == b.velocity.x,
        resolved_ball(b, p).velocity.y == -b.velocity.y,
        resolved_ball(b, p).position.x == b.position.x,
{
}

/// Law: the bound reflection never corrects the position, and leaves
/// the horizontal velocity alone; past a bound the vertical velocity
/// inverts, inside the bounds nothing changes.
pub proof fn lemma_bound_reflection(b: BallView)
    ensures
        bounced(b).position == b.position,
        bounced(b).velocity.x == b.velocity.x,
        beyond_vertical_bounds(b.position.y) ==> bounced(b).velocity.y == -b.velocity.y,
        !beyond_vertical_bounds(b.position.y) ==> bounced(b) == b,
{
}

/// Horizontal bounce velocity: invert, speed up by a tenth, clamp.
fn amplify_vx(vx: i64) -> (r: i64)
    requires
        -4 * MAX_VEL <= vx <= 4 * MAX_VEL,
    ensures
        r == amplified_vx(vx as int),
        -MAX_BALL_VX <= r <= MAX_BALL_VX,
{
    proof {
        assert(-44_000_000_000 <= (vx as int) * (-11) <= 44_000_000_000) by (nonlinear_arith)
            requires
                -4_000_000_000 <= vx as int <= 4_000_000_000,
        ;
        assert((vx as int) * -(AMPLIFY_NUM as int) == (vx as int) * (-11));
    }
    let p: i64 = vx * -AMPLIFY_NUM;
    let q: i64 = div_trunc(p, AMPLIFY_DEN);
    if q < -MAX_BALL_VX {
        -MAX_BALL_VX
    } else if q > MAX_BALL_VX {
        MAX_BALL_VX
    } else {
        q
    }
}

/// Vertical velocity after the spin of a contact `offset` subunits off
/// the paddle's center.
fn spin_velocity(vy: i64, offset: i64) -> (r: i64)
    requires
        -(PADDLE_HALF_Y + BALL_HALF) <= offset <= PADDLE_HALF_Y + BALL_HALF,
        -4 * MAX_VEL <= vy <= 4 * MAX_VEL,
    ensures
        r == vy + spin_of(offset as int),
        vy - SPIN_MAX <= r <= vy + SPIN_MAX,
{
    let p: i64 = offset * SPIN_SPEED;
    proof {
        crate::fixed::lemma_div_toward_zero_magnitude(
            p as int,
            PADDLE_HALF_Y as int,
            500_000_000,
        );
        vstd::arithmetic::div_mod::lemma_div_by_multiple(62_500, 8000);
        assert(62_500int * 8000 == 500_000_000);
    }
    let s: i64 = div_trunc(p, PADDLE_HALF_Y);
    vy + s
}

/// Bounces the ball off `paddle` when their boxes overlap, and yields
/// the bounce's event. Without overlap, nothing changes and no event
/// comes.
pub fn ball_paddle_collision(ball: &mut Ball, paddle: &Paddle) -> (ev: Option<CollisionEvent>)
    requires
        old(ball).position.within(3 * MAX_COORD),
        old(ball).velocity.within(4 * MAX_VEL),
        paddle.position.within(2 * MAX_COORD),
    ensures
        final(ball)@ == resolved_ball(old(ball)@, paddle@),
        final(ball).position.within(3 * MAX_COORD),
        old(ball)@.velocity.y - SPIN_MAX <= final(ball)@.velocity.y <= old(ball)@.velocity.y
            + SPIN_MAX || final(ball)@.velocity.y == -old(ball)@.velocity.y,
        final(ball)@.velocity.x == old(ball)@.velocity.x || -MAX_BALL_VX
            <= final(ball)@.velocity.x <= MAX_BALL_VX,
        ev is Some <==> ball_face(old(ball)@, paddle@) is Some,
        ev matches Some(e) ==> e@ == bounce_event(resolved_ball(old(ball)@, paddle@), paddle@),
{
    let face_opt = collide(
        paddle.position,
        Vec2 { x: PADDLE_HALF_X, y: PADDLE_HALF_Y },
        ball.position,
        Vec2 { x: BALL_HALF, y: BALL_HALF },
    );
    match face_opt {
        None => None,
        Some(face) => {
            let offset: i64 = ball.position.y - paddle.position.y;
            match face {
                Face::Inside => {},
                Face::Top => {
                    ball.position.y = paddle.position.y + (PADDLE_HALF_Y - BALL_HALF);
                    ball.velocity.y = -ball.velocity.y;
                },
                Face::Bottom => {
                    ball.position.y = paddle.position.y - (PADDLE_HALF_Y - BALL_HALF);
                    ball.velocity.y = -ball.velocity.y;
                },
                Face::Right => {
                    ball.position.x = paddle.position.x + (PADDLE_HALF_X + BALL_HALF);
                    ball.velocity.x = amplify_vx(ball.velocity.x);
                    ball.velocity.y = spin_velocity(ball.velocity.y, offset);
                },
                Face::Left => {
                    ball.position.x = paddle.position.x - (PADDLE_HALF_X + BALL_HALF);
                    ball.velocity.x = amplify_vx(ball.velocity.x);
                    ball.velocity.y = spin_velocity(ball.velocity.y, offset);
                },
            }
            let mx: i64 = ball.position.x + div_trunc(paddle.position.x - ball.position.x, 2);
            let my: i64 = ball.position.y + div_trunc(paddle.position.y - ball.position.y, 2);
            Some(CollisionEvent { position: Vec2 { x: mx, y: my }, direction: ball.velocity })
        },
    }
}

} // verus!
