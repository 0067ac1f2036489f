//! Fixed-point arithmetic and the planar vector type.
//!
//! One world unit is `SCALE` subunits; one second of simulated time is
//! `SCALE` time steps of delta-time. Products of a velocity and a
//! delta-time are divided back by `SCALE` with rounding toward zero,
//! the one rounding rule used throughout the crate.

use vstd::prelude::*;

verus! {

/// Subunits per world unit, and delta-time steps per second.
pub const SCALE: i64 = 1000;

/// Largest coordinate magnitude, in subunits, that the simulation
/// functions accept without risk of overflow.
pub const MAX_COORD: i64 = 1_000_000_000_000;

/// Largest velocity magnitude, in subunits per second, that the
/// simulation functions accept.
pub const MAX_VEL: i64 = 1_000_000_000;

/// Largest delta-time, in thousandths of a second, that a single tick
/// accepts.
pub const MAX_DT: i64 = 1_000_000;

/// Integer division that rounds toward zero, for a positive divisor.
/// This is the rounding of every fixed-point division in the crate.
pub open spec fn div_toward_zero(a: int, d: int) -> int
    recommends
        d >= 1,
{
    if a >= 0 {
        a / d
    } else {
        -((-a) / d)
    }
}

/// Displacement, in subunits, covered at velocity `v` (subunits per
/// second) over `dt` thousandths of a second.
pub open spec fn scaled(v: int, dt: int) -> int {
    div_toward_zero(v * dt, SCALE as int)
}

/// Rounding toward zero never grows a magnitude: the quotient lies
/// between zero and the dividend.
pub proof fn lemma_div_toward_zero_bounds(a: int, d: int)
    requires
        d >= 1,
    ensures
        a >= 0 ==> 0 <= div_toward_zero(a, d) <= a,
        a < 0 ==> a <= div_toward_zero(a, d) <= 0,
{
    if a >= 0 {
        vstd::arithmetic::div_mod::lemma_div_pos_is_pos(a, d);
        vstd::arithmetic::div_mod::lemma_div_nonincreasing(a, d);
    } else {
        vstd::arithmetic::div_mod::lemma_div_pos_is_pos(-a, d);
        vstd::arithmetic::div_mod::lemma_div_nonincreasing(-a, d);
    }
}

/// Rounding toward zero is monotone in the dividend's magnitude: a
/// dividend bounded by `m` in magnitude yields a quotient bounded by
/// `m / d` in magnitude.
pub proof fn lemma_div_toward_zero_magnitude(a: int, d: int, m: int)
    requires
        d >= 1,
        0 <= m,
        -m <= a <= m,
    ensures
        -(m / d) <= div_toward_zero(a, d) <= m / d,
{
    vstd::arithmetic::div_mod::lemma_div_pos_is_pos(m, d);
    if a >= 0 {
        vstd::arithmetic::div_mod::lemma_div_is_ordered(a, m, d);
        vstd::arithmetic::div_mod::lemma_div_pos_is_pos(a, d);
    } else {
        vstd::arithmetic::div_mod::lemma_div_is_ordered(-a, m, d);
        vstd::arithmetic::div_mod::lemma_div_pos_is_pos(-a, d);
    }
}

/// A displacement over one tick stays within `MAX_COORD` when the
/// velocity and the delta-time are within their limits.
pub proof fn lemma_scaled_bound(v: int, dt: int)
    requires
        -MAX_VEL <= v <= MAX_VEL,
        0 <= dt <= MAX_DT,
    ensures
        -MAX_COORD <= scaled(v, dt) <= MAX_COORD,
{
    let p = v * dt;
    assert(-1_000_000_000_000_000 <= p <= 1_000_000_000_000_000) by (nonlinear_arith)
        requires
            -1_000_000_000 <= v <= 1_000_000_000,
            0 <= dt <= 1_000_000,
            p == v * dt,
    ;
    lemma_div_toward_zero_magnitude(p, 1000, 1_000_000_000_000_000);
    vstd::arithmetic::div_mod::lemma_div_by_multiple(1_000_000_000_000, 1000);
    assert(1_000_000_000_000int * 1000 == 1_000_000_000_000_000);
}

/// Truncating division of fixed-point quantities: rounds toward zero.
pub fn div_trunc(a: i64, d: i64) -> (r: i64)
    requires
        d >= 1,
        i64::MIN < a,
    ensures
        r == div_toward_zero(a as int, d as int),
{
    proof {
        lemma_div_toward_zero_bounds(a as int, d as int);
        vstd::arithmetic::div_mod::lemma_div_of0(d as int);
    }
    match a.checked_div(d) {
        Some(q) => q,
        None => {
            proof {
                assert(false);
            }
            0
        },
    }
}

/// Displacement, in subunits, covered at velocity `v` over `dt`
/// thousandths of a second.
pub fn scaled_step(v: i64, dt: i64) -> (r: i64)
    requires
        -MAX_VEL <= v <= MAX_VEL,
        0 <= dt <= MAX_DT,
    ensures
        r == scaled(v as int, dt as int),
        -MAX_COORD <= r <= MAX_COORD,
{
    proof {
        assert(-1_000_000_000_000_000 <= (v as int) * (dt as int) <= 1_000_000_000_000_000)
            by (nonlinear_arith)
            requires
                -1_000_000_000 <= v <= 1_000_000_000,
                0 <= dt <= 1_000_000,
        ;
        lemma_scaled_bound(v as int, dt as int);
    }
    let p: i64 = v * dt;
    div_trunc(p, SCALE)
}

/// A planar vector in subunits: a position or a velocity.
#[derive(Clone, Copy, PartialEq, Eq, Structural, Debug)]
pub struct Vec2 {
    pub x: i64,
    pub y: i64,
}

/// The mathematical value of a `Vec2`: a pair of unbounded integers.
pub ghost struct Vec2View {
    pub x: int,
    pub y: int,
}

impl Vec2View {
    /// Both components lie within `bound` in magnitude.
    pub open spec fn within(self, bound: int) -> bool {
        &&& -bound <= self.x <= bound
        &&& -bound <= self.y <= bound
    }
}

impl View for Vec2 {
    type V = Vec2View;

    open spec fn view(&self) -> Vec2View {
        Vec2View { x: self.x as int, y: self.y as int }
    }
}

impl Vec2 {
    /// Both components lie within `bound` in magnitude.
    pub open spec fn within(self, bound: int) -> bool {
        &&& -bound <= self.x <= bound
        &&& -bound <= self.y <= bound
    }
}

} // verus!
