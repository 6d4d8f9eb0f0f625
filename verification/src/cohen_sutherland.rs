//! Clipping a line against an axis-aligned box by outcodes.
//!
//! Each endpoint gets a 4-bit outcode that says on which sides of the box it
//! lies. A line with both outcodes zero is inside; one whose outcodes share
//! a bit is outside. Otherwise an outside endpoint moves to where the line
//! crosses the box edge named by its outcode, and the test repeats. Four
//! moves suffice for any line, two for each endpoint; a line still undecided
//! after four moves is rejected.
use crate::arithmetic::less;
use crate::arithmetic::obeys_arithmetic;
use crate::arithmetic::obeys_order;
use crate::arithmetic::ArithmeticGroup;
use crate::arithmetic::Zero;
use crate::matrix::Vector2;
use vstd::prelude::*;
use vstd::std_specs::ops::AddSpec;
use vstd::std_specs::ops::DivSpec;
use vstd::std_specs::ops::MulSpec;
use vstd::std_specs::ops::SubSpec;

verus! {

pub const INSIDE: u8 = 0;

pub const LEFT: u8 = 1;

pub const RIGHT: u8 = 2;

pub const BOTTOM: u8 = 4;

pub const TOP: u8 = 8;

/// The most moves of an endpoint that a clip makes.
pub const MAX_MOVES: u8 = 4;

/// `LEFT`, `RIGHT` or `INSIDE`, by the x coordinate.
pub open spec fn x_code<T: PartialOrd>(x: T, lo: T, hi: T) -> u8 {
    if less(x, lo) {
        LEFT
    } else if less(hi, x) {
        RIGHT
    } else {
        INSIDE
    }
}

/// `BOTTOM`, `TOP` or `INSIDE`, by the y coordinate.
pub open spec fn y_code<T: PartialOrd>(y: T, lo: T, hi: T) -> u8 {
    if less(y, lo) {
        BOTTOM
    } else if less(hi, y) {
        TOP
    } else {
        INSIDE
    }
}

/// The outcode of `p` against the box from `min` to `max`.
pub open spec fn outcode_spec<T: ArithmeticGroup<T> + PartialOrd>(
    p: Vector2<T>,
    min: Vector2<T>,
    max: Vector2<T>,
) -> u8 {
    x_code(p.at(0, 0), min.at(0, 0), max.at(0, 0)) | y_code(p.at(0, 1), min.at(0, 1), max.at(0, 1))
}

pub fn compute_outcode<T: ArithmeticGroup<T> + PartialOrd>(
    p: &Vector2<T>,
    min: &Vector2<T>,
    max: &Vector2<T>,
) -> (r: u8)
    requires
        obeys_order::<T>(),
    ensures
        r == outcode_spec(*p, *min, *max),
{
    let h = if p.x() < min.x() {
        LEFT
    } else if max.x() < p.x() {
        RIGHT
    } else {
        INSIDE
    };
    let v = if p.y() < min.y() {
        BOTTOM
    } else if max.y() < p.y() {
        TOP
    } else {
        INSIDE
    };
    h | v
}

/// Where the line from `(a0, b0)` to `(a1, b1)` reaches `b == bound`, the
/// other coordinate is `a0 + (a1 - a0) * (bound - b0) / (b1 - b0)`.
pub open spec fn edge_cross<T: ArithmeticGroup<T>>(a0: T, b0: T, a1: T, b1: T, bound: T) -> T {
    a0.add_spec(a1.sub_spec(a0).mul_spec(bound.sub_spec(b0)).div_spec(b1.sub_spec(b0)))
}

/// Every step of `edge_cross` is within the scalar's limits.
pub open spec fn edge_cross_req<T: ArithmeticGroup<T>>(a0: T, b0: T, a1: T, b1: T, bound: T) -> bool {
    &&& a1.sub_req(a0)
    &&& bound.sub_req(b0)
    &&& a1.sub_spec(a0).mul_req(bound.sub_spec(b0))
    &&& b1.sub_req(b0)
    &&& a1.sub_spec(a0).mul_spec(bound.sub_spec(b0)).div_req(b1.sub_spec(b0))
    &&& a0.add_req(a1.sub_spec(a0).mul_spec(bound.sub_spec(b0)).div_spec(b1.sub_spec(b0)))
}

/// Evaluates `edge_cross`.
pub fn cross_edge<T: ArithmeticGroup<T>>(a0: T, b0: T, a1: T, b1: T, bound: T) -> (r: T)
    requires
        obeys_arithmetic::<T>(),
        edge_cross_req(a0, b0, a1, b1, bound),
    ensures
        r == edge_cross(a0, b0, a1, b1, bound),
{
    a0 + (a1 - a0) * (bound - b0) / (b1 - b0)
}

/// The point where the line from `pt1` to `pt2` crosses the box edge that
/// `outcode` names; the top edge is tried first, then bottom, right, left.
pub open spec fn moved_point<T: ArithmeticGroup<T>>(
    pt1: Vector2<T>,
    pt2: Vector2<T>,
    outcode: u8,
    min: Vector2<T>,
    max: Vector2<T>,
) -> Vector2<T> {
    let x1 = pt1.at(0, 0);
    let y1 = pt1.at(0, 1);
    let x2 = pt2.at(0, 0);
    let y2 = pt2.at(0, 1);
    if outcode & TOP != 0 {
        Vector2::<T>::xy_spec(edge_cross(x1, y1, x2, y2, max.at(0, 1)), max.at(0, 1))
    } else if outcode & BOTTOM != 0 {
        Vector2::<T>::xy_spec(edge_cross(x1, y1, x2, y2, min.at(0, 1)), min.at(0, 1))
    } else if outcode & RIGHT != 0 {
        Vector2::<T>::xy_spec(max.at(0, 0), edge_cross(y1, x1, y2, x2, max.at(0, 0)))
    } else if outcode & LEFT != 0 {
        Vector2::<T>::xy_spec(min.at(0, 0), edge_cross(y1, x1, y2, x2, min.at(0, 0)))
    } else {
        Vector2::<T>::xy_spec(T::zero_spec(), T::zero_spec())
    }
}

pub open spec fn moved_point_req<T: ArithmeticGroup<T>>(
    pt1: Vector2<T>,
    pt2: Vector2<T>,
    outcode: u8,
    min: Vector2<T>,
    max: Vector2<T>,
) -> bool {
    let x1 = pt1.at(0, 0);
    let y1 = pt1.at(0, 1);
    let x2 = pt2.at(0, 0);
    let y2 = pt2.at(0, 1);
    if outcode & TOP != 0 {
        edge_cross_req(x1, y1, x2, y2, max.at(0, 1))
    } else if outcode & BOTTOM != 0 {
        edge_cross_req(x1, y1, x2, y2, min.at(0, 1))
    } else if outcode & RIGHT != 0 {
        edge_cross_req(y1, x1, y2, x2, max.at(0, 0))
    } else if outcode & LEFT != 0 {
        edge_cross_req(y1, x1, y2, x2, min.at(0, 0))
    } else {
        true
    }
}

/// The outcome of clipping with at most `moves` moves left: `None` for a
/// line outside the box (or undecided with no move left), else the part of
/// the line inside the box.
pub open spec fn clip_spec<T: ArithmeticGroup<T> + PartialOrd>(
    pt1: Vector2<T>,
    pt2: Vector2<T>,
    min: Vector2<T>,
    max: Vector2<T>,
    moves: nat,
) -> Option<(Vector2<T>, Vector2<T>)>
    decreases moves,
{
    let o1 = outcode_spec(pt1, min, max);
    let o2 = outcode_spec(pt2, min, max);
    let outcode = if o2 > o1 {
        o2
    } else {
        o1
    };
    if o1 & o2 != 0 {
        None
    } else if o1 | o2 == 0 {
        Some((pt1, pt2))
    } else if moves == 0 {
        None
    } else if outcode == o1 {
        clip_spec(moved_point(pt1, pt2, outcode, min, max), pt2, min, max, (moves - 1) as nat)
    } else {
        clip_spec(pt1, moved_point(pt1, pt2, outcode, min, max), min, max, (moves - 1) as nat)
    }
}

/// Every move that `clip_spec` makes is within the scalar's limits.
pub open spec fn clip_req<T: ArithmeticGroup<T> + PartialOrd>(
    pt1: Vector2<T>,
    pt2: Vector2<T>,
    min: Vector2<T>,
    max: Vector2<T>,
    moves: nat,
) -> bool
    decreases moves,
{
    let o1 = outcode_spec(pt1, min, max);
    let o2 = outcode_spec(pt2, min, max);
    let outcode = if o2 > o1 {
        o2
    } else {
        o1
    };
    if o1 & o2 != 0 || o1 | o2 == 0 || moves == 0 {
        true
    } else {
        &&& moved_point_req(pt1, pt2, outcode, min, max)
        &&& if outcode == o1 {
            clip_req(moved_point(pt1, pt2, outcode, min, max), pt2, min, max, (moves - 1) as nat)
        } else {
            clip_req(pt1, moved_point(pt1, pt2, outcode, min, max), min, max, (moves - 1) as nat)
        }
    }
}

/// Clips the line from `start` to `end` against the box from `rect_min` to
/// `rect_max`.
pub fn cohen_sutherland_line_clip<T: ArithmeticGroup<T> + PartialOrd>(
    start: &Vector2<T>,
    end: &Vector2<T>,
    rect_min: &Vector2<T>,
    rect_max: &Vector2<T>,
) -> (r: Option<(Vector2<T>, Vector2<T>)>)
    requires
        obeys_arithmetic::<T>(),
        obeys_order::<T>(),
        clip_req(*start, *end, *rect_min, *rect_max, 4),
    ensures
        r == clip_spec(*start, *end, *rect_min, *rect_max, 4),
{
    let mut pt1 = *start;
    let mut pt2 = *end;
    let mut outcode1 = compute_outcode(&pt1, rect_min, rect_max);
    let mut outcode2 = compute_outcode(&pt2, rect_min, rect_max);
    let mut left: u8 = MAX_MOVES;
    loop
        invariant
            obeys_arithmetic::<T>(),
            obeys_order::<T>(),
            left <= MAX_MOVES,
            outcode1 == outcode_spec(pt1, *rect_min, *rect_max),
            outcode2 == outcode_spec(pt2, *rect_min, *rect_max),
            clip_req(pt1, pt2, *rect_min, *rect_max, left as nat),
            clip_spec(pt1, pt2, *rect_min, *rect_max, left as nat) == clip_spec(
                *start,
                *end,
                *rect_min,
                *rect_max,
                4,
            ),
        decreases left,
    {
        if (outcode1 & outcode2) != 0 {
            return None;
        } else if (outcode1 | outcode2) == 0 {
            return Some((pt1, pt2));
        } else if left == 0 {
            return None;
        }
        let outcode = if outcode2 > outcode1 {
            outcode2
        } else {
            outcode1
        };
        let x1 = pt1.x();
        let y1 = pt1.y();
        let x2 = pt2.x();
        let y2 = pt2.y();
        let p = if (outcode & TOP) != 0 {
            Vector2::from_xy(cross_edge(x1, y1, x2, y2, rect_max.y()), rect_max.y())
        } else if (outcode & BOTTOM) != 0 {
            Vector2::from_xy(cross_edge(x1, y1, x2, y2, rect_min.y()), rect_min.y())
        } else if (outcode & RIGHT) != 0 {
            Vector2::from_xy(rect_max.x(), cross_edge(y1, x1, y2, x2, rect_max.x()))
        } else if (outcode & LEFT) != 0 {
            Vector2::from_xy(rect_min.x(), cross_edge(y1, x1, y2, x2, rect_min.x()))
        } else {
            Vector2::from_xy(T::zero(), T::zero())
        };
        if outcode == outcode1 {
            pt1 = p;
            outcode1 = compute_outcode(&pt1, rect_min, rect_max);
        } else {
            pt2 = p;
            outcode2 = compute_outcode(&pt2, rect_min, rect_max);
        }
        left = left - 1;
    }
}

} // verus!
