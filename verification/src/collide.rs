//! Axis-aligned box overlap with face detection.
//!
//! Given two boxes by center and half-extent, `collide` reports which
//! face of the first box the second box struck, judged by the shallower
//! penetration axis, or `None` when the boxes do not overlap. A second
//! box that sticks out of the first on neither axis is `Inside`.

use vstd::prelude::*;

use crate::fixed::{Vec2, Vec2View, MAX_COORD};

verus! {

/// The face of the first box that the second box struck. `Top` means
/// the second box sticks out above the first, `Right` that it sticks
/// out to the right, and so on; `Inside` means it sticks out nowhere.
#[derive(Clone, Copy, PartialEq, Eq, Structural, Debug)]
pub enum Face {
    Top,
    Bottom,
    Left,
    Right,
    Inside,
}

/// The two boxes overlap strictly on both axes.
pub open spec fn boxes_overlap(pc: Vec2View, ph: Vec2View, bc: Vec2View, bh: Vec2View) -> bool {
    &&& pc.x - ph.x < bc.x + bh.x
    &&& pc.x + ph.x > bc.x - bh.x
    &&& pc.y - ph.y < bc.y + bh.y
    &&& pc.y + ph.y > bc.y - bh.y
}

/// Candidate face on the horizontal axis: the vertical face of the
/// first box that the second box sticks out of, with the penetration
/// depth of the remainder, or no depth when the second box does not
/// stick out of the first on this axis.
pub open spec fn x_candidate(pc: Vec2View, ph: Vec2View, bc: Vec2View, bh: Vec2View) -> (
    Face,
    Option<int>,
) {
    if pc.x - ph.x < bc.x - bh.x && pc.x + ph.x > bc.x - bh.x && pc.x + ph.x < bc.x + bh.x {
        (Face::Right, Some(pc.x + ph.x - (bc.x - bh.x)))
    } else if pc.x - ph.x > bc.x - bh.x && pc.x - ph.x < bc.x + bh.x && pc.x + ph.x > bc.x
        + bh.x {
        (Face::Left, Some(bc.x + bh.x - (pc.x - ph.x)))
    } else {
        (Face::Inside, None)
    }
}

/// Candidate face on the vertical axis, as `x_candidate`.
pub open spec fn y_candidate(pc: Vec2View, ph: Vec2View, bc: Vec2View, bh: Vec2View) -> (
    Face,
    Option<int>,
) {
    if pc.y - ph.y < bc.y - bh.y && pc.y + ph.y > bc.y - bh.y && pc.y + ph.y < bc.y + bh.y {
        (Face::Top, Some(pc.y + ph.y - (bc.y - bh.y)))
    } else if pc.y - ph.y > bc.y - bh.y && pc.y - ph.y < bc.y + bh.y && pc.y + ph.y > bc.y
        + bh.y {
        (Face::Bottom, Some(bc.y + bh.y - (pc.y - ph.y)))
    } else {
        (Face::Inside, None)
    }
}

/// The first depth is strictly shallower than the second; a missing
/// depth counts as infinitely deep.
pub open spec fn shallower(a: Option<int>, b: Option<int>) -> bool {
    match (a, b) {
        (Some(ap), Some(bp)) => ap < bp,
        (Some(_), None) => true,
        (None, _) => false,
    }
}

/// The face of the first box that the second box struck: the candidate
/// of the axis with the shallower penetration, ties and the
/// stuck-out-nowhere case going to the horizontal candidate; `None`
/// when the boxes do not overlap.
pub open spec fn struck_face(pc: Vec2View, ph: Vec2View, bc: Vec2View, bh: Vec2View) -> Option<
    Face,
> {
    if boxes_overlap(pc, ph, bc, bh) {
        let xc = x_candidate(pc, ph, bc, bh);
        let yc = y_candidate(pc, ph, bc, bh);
        if shallower(yc.1, xc.1) {
            Some(yc.0)
        } else {
            Some(xc.0)
        }
    } else {
        None
    }
}

/// Face-detecting overlap test between the box centered at `p_center`
/// with half-extent `p_half` and the box centered at `b_center` with
/// half-extent `b_half`.
pub fn collide(p_center: Vec2, p_half: Vec2, b_center: Vec2, b_half: Vec2) -> (r: Option<Face>)
    requires
        p_center.within(4 * MAX_COORD),
        b_center.within(4 * MAX_COORD),
        0 < p_half.x <= MAX_COORD,
        0 < p_half.y <= MAX_COORD,
        0 < b_half.x <= MAX_COORD,
        0 < b_half.y <= MAX_COORD,
    ensures
        r == struck_face(p_center@, p_half@, b_center@, b_half@),
{
    let p_min_x: i64 = p_center.x - p_half.x;
    let p_max_x: i64 = p_center.x + p_half.x;
    let p_min_y: i64 = p_center.y - p_half.y;
    let p_max_y: i64 = p_center.y + p_half.y;
    let b_min_x: i64 = b_center.x - b_half.x;
    let b_max_x: i64 = b_center.x + b_half.x;
    let b_min_y: i64 = b_center.y - b_half.y;
    let b_max_y: i64 = b_center.y + b_half.y;

    if !(p_min_x < b_max_x && p_max_x > b_min_x && p_min_y < b_max_y && p_max_y > b_min_y) {
        return None;
    }

    let x_cand: (Face, Option<i64>) = if p_min_x < b_min_x && p_max_x > b_min_x && p_max_x
        < b_max_x {
        (Face::Right, Some(p_max_x - b_min_x))
    } else if p_min_x > b_min_x && p_min_x < b_max_x && p_max_x > b_max_x {
        (Face::Left, Some(b_max_x - p_min_x))
    } else {
        (Face::Inside, None)
    };

    let y_cand: (Face, Option<i64>) = if p_min_y < b_min_y && p_max_y > b_min_y && p_max_y
        < b_max_y {
        (Face::Top, Some(p_max_y - b_min_y))
    } else if p_min_y > b_min_y && p_min_y < b_max_y && p_max_y > b_max_y {
        (Face::Bottom, Some(b_max_y - p_min_y))
    } else {
        (Face::Inside, None)
    };

    let y_wins: bool = match (y_cand.1, x_cand.1) {
        (Some(yp), Some(xp)) => yp < xp,
        (Some(_), None) => true,
        (None, _) => false,
    };

    if y_wins {
        Some(y_cand.0)
    } else {
        Some(x_cand.0)
    }
}

} // verus!
