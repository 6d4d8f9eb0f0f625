//! Nearest point on an axis-aligned box and on a triangle.
use crate::arithmetic::clamp_to;
use crate::arithmetic::clamped;
use crate::arithmetic::obeys_arithmetic;
use crate::arithmetic::obeys_order;
use crate::arithmetic::ArithmeticGroup;
use crate::contain2d::is_rect_contain_pt;
use crate::contain2d::rect_bounds_req;
use crate::contain2d::rect_contains;
use crate::contain2d::rect_upper;
use crate::arithmetic::less;
use crate::contain2d::is_triangle_contain_pt;
use crate::contain2d::triangle_contain_req;
use crate::contain2d::triangle_contains;
use crate::distance2d::dist_sqrd;
use crate::distance2d::pt2pt_sqrd;
use crate::distance2d::seg_dist_req;
use crate::distance2d::segment_between;
use crate::geom2d::AABB;
use crate::geom_common::Segment2D;
use crate::geom_common::Triangle2D;
use crate::nearest_common::pt2segment;
use crate::nearest_common::pt2segment_spec;
use crate::utility::is_scalar_fn;
use crate::matrix::Vector2;
use vstd::prelude::*;

verus! {

/// The point of the box nearest to `pt`: `pt` itself where the box contains
/// it, else each coordinate clamped on its own to `[min, min + size]`.
pub fn pt2rect<T: ArithmeticGroup<T> + PartialOrd>(pt: &Vector2<T>, rect: &AABB<T>) -> (r: Vector2<
    T,
>)
    requires
        obeys_arithmetic::<T>(),
        obeys_order::<T>(),
        rect_bounds_req(*rect),
    ensures
        rect_contains(*pt, *rect) ==> r == *pt,
        !rect_contains(*pt, *rect) ==> r.elems() == seq![
            clamped(pt.at(0, 0), rect.min_spec().at(0, 0), rect_upper(*rect, 0)),
            clamped(pt.at(0, 1), rect.min_spec().at(0, 1), rect_upper(*rect, 1)),
        ],
{
    if is_rect_contain_pt(pt, rect) {
        return *pt;
    }
    let min = rect.min();
    let size = rect.size();
    Vector2::from_xy(
        clamp_to(pt.x(), min.x(), min.x() + size.x()),
        clamp_to(pt.y(), min.y(), min.y() + size.y()),
    )
}

/// The point of the edge from `a` to `b` nearest to `pt`.
pub open spec fn edge_nearest<T: ArithmeticGroup<T> + PartialOrd, F: Fn(T) -> T>(
    pt: Vector2<T>,
    a: Vector2<T>,
    b: Vector2<T>,
    sqrt: F,
) -> Vector2<T> {
    pt2segment_spec(pt, segment_between(a, b, sqrt))
}

/// The point of the edge from `a` to `b` nearest to `pt`.
pub fn nearest_on_edge<T: ArithmeticGroup<T> + PartialOrd, F: Fn(T) -> T>(
    pt: &Vector2<T>,
    a: &Vector2<T>,
    b: &Vector2<T>,
    sqrt: &F,
) -> (r: Vector2<T>)
    requires
        obeys_arithmetic::<T>(),
        obeys_order::<T>(),
        is_scalar_fn(*sqrt),
        seg_dist_req(*pt, *a, *b, *sqrt),
    ensures
        r == edge_nearest(*pt, *a, *b, *sqrt),
{
    let seg = Segment2D::new(*a, *b, sqrt);
    pt2segment(pt, &seg)
}

/// Of two candidates the one nearer to `pt`; the first where they are
/// equally near.
pub open spec fn nearer<T: ArithmeticGroup<T> + PartialOrd>(
    pt: Vector2<T>,
    first: Vector2<T>,
    second: Vector2<T>,
) -> Vector2<T> {
    if less(dist_sqrd(second, pt), dist_sqrd(first, pt)) {
        second
    } else {
        first
    }
}

/// The point of a triangle nearest to `pt`: `pt` itself where the triangle
/// contains it, else the nearest of the nearest points of the three edges,
/// which is a corner where `pt` projects outside every edge.
pub open spec fn pt2triangle_spec<T: ArithmeticGroup<T> + PartialOrd, F: Fn(T) -> T>(
    pt: Vector2<T>,
    triangle: Triangle2D<T>,
    sqrt: F,
) -> Vector2<T> {
    if triangle_contains(triangle, pt) {
        pt
    } else {
        nearer(
            pt,
            nearer(
                pt,
                edge_nearest(pt, triangle.pts[0], triangle.pts[1], sqrt),
                edge_nearest(pt, triangle.pts[1], triangle.pts[2], sqrt),
            ),
            edge_nearest(pt, triangle.pts[2], triangle.pts[0], sqrt),
        )
    }
}

/// The containment test can be formed and, for a point outside, so can the
/// nearest point of each edge and its distance. A scalar that cannot divide
/// by zero thereby rules out a triangle with two equal corners.
pub open spec fn pt2triangle_req<T: ArithmeticGroup<T> + PartialOrd, F: Fn(T) -> T>(
    pt: Vector2<T>,
    triangle: Triangle2D<T>,
    sqrt: F,
) -> bool {
    &&& triangle_contain_req(triangle, pt)
    &&& !triangle_contains(triangle, pt) ==> {
        &&& seg_dist_req(pt, triangle.pts[0], triangle.pts[1], sqrt)
        &&& seg_dist_req(pt, triangle.pts[1], triangle.pts[2], sqrt)
        &&& seg_dist_req(pt, triangle.pts[2], triangle.pts[0], sqrt)
    }
}

/// The point of a triangle nearest to `pt`.
pub fn pt2triangle<T: ArithmeticGroup<T> + PartialOrd, F: Fn(T) -> T>(
    pt: &Vector2<T>,
    triangle: &Triangle2D<T>,
    sqrt: &F,
) -> (r: Vector2<T>)
    requires
        obeys_arithmetic::<T>(),
        obeys_order::<T>(),
        is_scalar_fn(*sqrt),
        pt2triangle_req(*pt, *triangle, *sqrt),
    ensures
        r == pt2triangle_spec(*pt, *triangle, *sqrt),
{
    if is_triangle_contain_pt(pt, triangle) {
        return *pt;
    }
    let q0 = nearest_on_edge(pt, &triangle.pts[0], &triangle.pts[1], sqrt);
    let q1 = nearest_on_edge(pt, &triangle.pts[1], &triangle.pts[2], sqrt);
    let q2 = nearest_on_edge(pt, &triangle.pts[2], &triangle.pts[0], sqrt);
    let d0 = pt2pt_sqrd(&q0, pt);
    let d1 = pt2pt_sqrd(&q1, pt);
    let d2 = pt2pt_sqrd(&q2, pt);
    let (best, least) = if d1 < d0 {
        (q1, d1)
    } else {
        (q0, d0)
    };
    if d2 < least {
        q2
    } else {
        best
    }
}

} // verus!
