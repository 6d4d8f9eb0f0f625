//! Point containment in the plane: circles, boxes, triangles and polygons.
use crate::arithmetic::less_eq;
use crate::arithmetic::obeys_arithmetic;
use crate::arithmetic::obeys_order;
use crate::arithmetic::ArithmeticGroup;
use crate::contain_common::circular_contain_req;
use crate::contain_common::circular_contains;
use crate::contain_common::is_circular_contain_pt;
use crate::arithmetic::abs_of;
use crate::arithmetic::abs_req;
use crate::arithmetic::abs_spec;
use crate::arithmetic::less;
use crate::cohen_sutherland::cross_edge;
use crate::cohen_sutherland::edge_cross;
use crate::cohen_sutherland::edge_cross_req;
use crate::error::GeomError;
use crate::geom2d::AABB;
use crate::geom2d::OBB;
use crate::geom_common::Circle;
use crate::geom_common::Triangle2D;
use crate::matrix::Vector2;
use vstd::prelude::*;
use vstd::std_specs::ops::AddSpec;
use vstd::std_specs::ops::SubSpec;

verus! {

pub fn is_circle_contain_pt<T: ArithmeticGroup<T> + PartialOrd>(
    circle: &Circle<T>,
    pt: &Vector2<T>,
) -> (r: bool)
    requires
        obeys_arithmetic::<T>(),
        obeys_order::<T>(),
        circular_contain_req(*circle, *pt),
    ensures
        r == circular_contains(*circle, *pt),
{
    is_circular_contain_pt(circle, pt)
}

/// The upper bound of the box along axis `k`: `min[k] + size[k]`.
pub open spec fn rect_upper<T: ArithmeticGroup<T>>(rect: AABB<T>, k: int) -> T {
    rect.min_spec().at(0, k).add_spec(rect.size_spec().at(0, k))
}

/// The corner, the extent and both upper bounds of the box can be formed.
pub open spec fn rect_bounds_req<T: ArithmeticGroup<T>>(rect: AABB<T>) -> bool {
    &&& rect.min_req()
    &&& rect.size_req()
    &&& rect.min_spec().at(0, 0).add_req(rect.size_spec().at(0, 0))
    &&& rect.min_spec().at(0, 1).add_req(rect.size_spec().at(0, 1))
}

/// Four independent range checks, bounds included:
/// `min[k] <= pt[k] <= min[k] + size[k]` on both axes.
pub open spec fn rect_contains<T: ArithmeticGroup<T> + PartialOrd>(
    pt: Vector2<T>,
    rect: AABB<T>,
) -> bool {
    &&& less_eq(rect.min_spec().at(0, 0), pt.at(0, 0))
    &&& less_eq(pt.at(0, 0), rect_upper(rect, 0))
    &&& less_eq(rect.min_spec().at(0, 1), pt.at(0, 1))
    &&& less_eq(pt.at(0, 1), rect_upper(rect, 1))
}

pub fn is_rect_contain_pt<T: ArithmeticGroup<T> + PartialOrd>(pt: &Vector2<T>, rect: &AABB<T>) -> (r:
    bool)
    requires
        obeys_arithmetic::<T>(),
        obeys_order::<T>(),
        rect_bounds_req(*rect),
    ensures
        r == rect_contains(*pt, *rect),
{
    let min = rect.min();
    let size = rect.size();
    min.x() <= pt.x() && pt.x() <= min.x() + size.x() && min.y() <= pt.y() && pt.y() <= min.y()
        + size.y()
}

/// On which side of the edge from `a` to `b` the point lies: the sign of
/// `(b - a) x (pt - a)`, positive to the left of the edge.
pub open spec fn edge_side<T: ArithmeticGroup<T>>(a: Vector2<T>, b: Vector2<T>, pt: Vector2<T>) -> T {
    b.sub_spec(a).cross_spec(&pt.sub_spec(a))
}

pub open spec fn edge_side_req<T: ArithmeticGroup<T>>(
    a: Vector2<T>,
    b: Vector2<T>,
    pt: Vector2<T>,
) -> bool {
    &&& SubSpec::sub_req(b, a)
    &&& SubSpec::sub_req(pt, a)
    &&& b.sub_spec(a).cross_req(&pt.sub_spec(a))
}

/// Evaluates `edge_side`.
pub fn side_of_edge<T: ArithmeticGroup<T>>(a: &Vector2<T>, b: &Vector2<T>, pt: &Vector2<T>) -> (r: T)
    requires
        obeys_arithmetic::<T>(),
        edge_side_req(*a, *b, *pt),
    ensures
        r == edge_side(*a, *b, *pt),
{
    (*b - *a).cross(&(*pt - *a))
}

/// A triangle contains a point, its edges included, where the point lies
/// on the same side of all three edges taken in order: not to the right of
/// any, or not to the left of any.
pub open spec fn triangle_contains<T: ArithmeticGroup<T> + PartialOrd>(
    triangle: Triangle2D<T>,
    pt: Vector2<T>,
) -> bool {
    let s0 = edge_side(triangle.pts[0], triangle.pts[1], pt);
    let s1 = edge_side(triangle.pts[1], triangle.pts[2], pt);
    let s2 = edge_side(triangle.pts[2], triangle.pts[0], pt);
    let zero = T::zero_spec();
    ||| less_eq(zero, s0) && less_eq(zero, s1) && less_eq(zero, s2)
    ||| less_eq(s0, zero) && less_eq(s1, zero) && less_eq(s2, zero)
}

/// The side of the point can be formed for each edge.
pub open spec fn triangle_contain_req<T: ArithmeticGroup<T>>(
    triangle: Triangle2D<T>,
    pt: Vector2<T>,
) -> bool {
    &&& edge_side_req(triangle.pts[0], triangle.pts[1], pt)
    &&& edge_side_req(triangle.pts[1], triangle.pts[2], pt)
    &&& edge_side_req(triangle.pts[2], triangle.pts[0], pt)
}

pub fn is_triangle_contain_pt<T: ArithmeticGroup<T> + PartialOrd>(
    pt: &Vector2<T>,
    triangle: &Triangle2D<T>,
) -> (r: bool)
    requires
        obeys_arithmetic::<T>(),
        obeys_order::<T>(),
        triangle_contain_req(*triangle, *pt),
    ensures
        r == triangle_contains(*triangle, *pt),
{
    let s0 = side_of_edge(&triangle.pts[0], &triangle.pts[1], pt);
    let s1 = side_of_edge(&triangle.pts[1], &triangle.pts[2], pt);
    let s2 = side_of_edge(&triangle.pts[2], &triangle.pts[0], pt);
    let zero = T::zero();
    let left = zero <= s0 && zero <= s1 && zero <= s2;
    let right = s0 <= zero && s1 <= zero && s2 <= zero;
    left || right
}

/// The corner after corner `i` of a polygon with `len` corners; the last
/// corner is followed by the first.
pub open spec fn next_corner(i: int, len: int) -> int {
    if i + 1 < len {
        i + 1
    } else {
        0
    }
}

/// Whether the ray from `pt` toward larger x crosses the edge from `a` to
/// `b`: the ends of the edge lie on different sides of the height of `pt`
/// (one strictly above, the other not), and the edge is at that height to
/// the right of `pt`.
pub open spec fn ray_crosses_edge<T: ArithmeticGroup<T> + PartialOrd>(
    pt: Vector2<T>,
    a: Vector2<T>,
    b: Vector2<T>,
) -> bool {
    &&& less(pt.at(0, 1), a.at(0, 1)) != less(pt.at(0, 1), b.at(0, 1))
    &&& less(pt.at(0, 0), edge_cross(a.at(0, 0), a.at(0, 1), b.at(0, 0), b.at(0, 1), pt.at(0, 1)))
}

/// Where the ends of the edge lie on different sides of the height of `pt`,
/// the x coordinate of the edge at that height can be formed.
pub open spec fn ray_crosses_edge_req<T: ArithmeticGroup<T> + PartialOrd>(
    pt: Vector2<T>,
    a: Vector2<T>,
    b: Vector2<T>,
) -> bool {
    less(pt.at(0, 1), a.at(0, 1)) != less(pt.at(0, 1), b.at(0, 1)) ==> edge_cross_req(
        a.at(0, 0),
        a.at(0, 1),
        b.at(0, 0),
        b.at(0, 1),
        pt.at(0, 1),
    )
}

/// Evaluates `ray_crosses_edge`.
pub fn does_ray_cross_edge<T: ArithmeticGroup<T> + PartialOrd>(
    pt: &Vector2<T>,
    a: &Vector2<T>,
    b: &Vector2<T>,
) -> (r: bool)
    requires
        obeys_arithmetic::<T>(),
        obeys_order::<T>(),
        ray_crosses_edge_req(*pt, *a, *b),
    ensures
        r == ray_crosses_edge(*pt, *a, *b),
{
    let above_a = pt.y() < a.y();
    let above_b = pt.y() < b.y();
    if above_a != above_b {
        pt.x() < cross_edge(a.x(), a.y(), b.x(), b.y(), pt.y())
    } else {
        false
    }
}

/// Whether the ray from `pt` toward larger x crosses an odd number of the
/// first `n` edges of the polygon; edge `i` runs from corner `i` to the
/// next corner.
pub open spec fn odd_crossings<T: ArithmeticGroup<T> + PartialOrd>(
    pt: Vector2<T>,
    pts: Seq<Vector2<T>>,
    n: nat,
) -> bool
    decreases n,
{
    if n == 0 {
        false
    } else {
        odd_crossings(pt, pts, (n - 1) as nat) != ray_crosses_edge(
            pt,
            pts[n - 1],
            pts[next_corner(n - 1, pts.len() as int)],
        )
    }
}

/// The crossing test can be formed for each of the first `n` edges.
pub open spec fn odd_crossings_req<T: ArithmeticGroup<T> + PartialOrd>(
    pt: Vector2<T>,
    pts: Seq<Vector2<T>>,
    n: nat,
) -> bool
    decreases n,
{
    n == 0 || {
        &&& odd_crossings_req(pt, pts, (n - 1) as nat)
        &&& ray_crosses_edge_req(pt, pts[n - 1], pts[next_corner(n - 1, pts.len() as int)])
    }
}

/// What `odd_crossings_req` demands of `n` edges it demands of every
/// shorter prefix.
pub proof fn lemma_odd_crossings_req_prefix<T: ArithmeticGroup<T> + PartialOrd>(
    pt: Vector2<T>,
    pts: Seq<Vector2<T>>,
    n: nat,
    m: nat,
)
    requires
        odd_crossings_req(pt, pts, n),
        m <= n,
    ensures
        odd_crossings_req(pt, pts, m),
    decreases n,
{
    if m < n {
        lemma_odd_crossings_req_prefix(pt, pts, (n - 1) as nat, m);
    }
}

/// Whether a polygon contains a point, by the even-odd rule: the point is
/// inside where a ray from it crosses the boundary an odd number of times.
/// Fewer than three corners enclose nothing and are not supported.
pub open spec fn polygon_contains<T: ArithmeticGroup<T> + PartialOrd>(
    pt: Vector2<T>,
    pts: Seq<Vector2<T>>,
) -> Result<bool, GeomError> {
    if pts.len() < 3 {
        Err(GeomError::NotSupported)
    } else {
        Ok(odd_crossings(pt, pts, pts.len()))
    }
}

/// Whether a polygon, given by its corners in order, contains a point.
/// `Err(NotSupported)` for fewer than three corners.
pub fn is_polygon_contain_pt<T: ArithmeticGroup<T> + PartialOrd>(
    pt: &Vector2<T>,
    polygon: &[Vector2<T>],
) -> (r: Result<bool, GeomError>)
    requires
        obeys_arithmetic::<T>(),
        obeys_order::<T>(),
        polygon@.len() >= 3 ==> odd_crossings_req(*pt, polygon@, polygon@.len()),
    ensures
        r == polygon_contains(*pt, polygon@),
{
    let len = polygon.len();
    if len < 3 {
        return Err(GeomError::NotSupported);
    }
    let mut inside = false;
    let mut i: usize = 0;
    while i < len
        invariant
            obeys_arithmetic::<T>(),
            obeys_order::<T>(),
            len == polygon@.len(),
            len >= 3,
            i <= len,
            odd_crossings_req(*pt, polygon@, polygon@.len()),
            inside == odd_crossings(*pt, polygon@, i as nat),
        decreases len - i,
    {
        proof {
            lemma_odd_crossings_req_prefix(*pt, polygon@, polygon@.len(), (i + 1) as nat);
        }
        let next: usize = if i + 1 < len {
            i + 1
        } else {
            0
        };
        let a = polygon[i];
        let b = polygon[next];
        if does_ray_cross_edge(pt, &a, &b) {
            inside = !inside;
        }
        i = i + 1;
    }
    Ok(inside)
}

/// The extent of `pt - center` along `axis`, `|(pt - center) . axis|`.
pub open spec fn extent_along<T: ArithmeticGroup<T> + PartialOrd>(
    pt: Vector2<T>,
    center: Vector2<T>,
    axis: Vector2<T>,
) -> T {
    abs_spec(pt.sub_spec(center).dot_with(&axis))
}

pub open spec fn extent_along_req<T: ArithmeticGroup<T> + PartialOrd>(
    pt: Vector2<T>,
    center: Vector2<T>,
    axis: Vector2<T>,
) -> bool {
    &&& SubSpec::sub_req(pt, center)
    &&& pt.sub_spec(center).dot_with_req(&axis)
    &&& abs_req(pt.sub_spec(center).dot_with(&axis))
}

/// Whether the point lies strictly inside the oriented box: its extent
/// along each local axis is less than the half-extent of the box.
pub fn is_obb_contain_pt<T: ArithmeticGroup<T> + PartialOrd>(pt: &Vector2<T>, obb: &OBB<T>) -> (r:
    bool)
    requires
        obeys_arithmetic::<T>(),
        obeys_order::<T>(),
        extent_along_req(*pt, obb.middle(), obb.local_x()),
        extent_along_req(*pt, obb.middle(), obb.local_y()),
    ensures
        r == (less(extent_along(*pt, obb.middle(), obb.local_x()), obb.half_extent().at(0, 0)) && less(
            extent_along(*pt, obb.middle(), obb.local_y()),
            obb.half_extent().at(0, 1),
        )),
{
    let dir = *pt - obb.center();
    let x_magnitude = abs_of(dir.dot(&obb.x_axis()));
    let y_magnitude = abs_of(dir.dot(&obb.y_axis()));
    x_magnitude < obb.half_size().x() && y_magnitude < obb.half_size().y()
}

} // verus!
