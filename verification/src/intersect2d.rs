//! Intersection tests and closed-form solvers in the plane.
//!
//! A solver returns `None` where the primitives do not meet, else the
//! parameter or point of the intersection.
use crate::arithmetic::abs_of;
use crate::arithmetic::abs_req;
use crate::arithmetic::abs_spec;
use crate::arithmetic::less;
use crate::arithmetic::less_eq;
use crate::arithmetic::obeys_arithmetic;
use crate::arithmetic::obeys_order;
use crate::arithmetic::ArithmeticGroup;
use crate::arithmetic::Zero;
use crate::geom2d::AABB;
use crate::geom_common::Circle;
use crate::geom_common::Line2D;
use crate::geom_common::Linear2D;
use crate::geom_common::Ray2D;
use crate::geom_common::Segment2D;
use crate::contain2d::is_rect_contain_pt;
use crate::contain2d::rect_bounds_req;
use crate::contain2d::rect_contains;
use crate::distance2d::dist_sqrd;
use crate::distance2d::nearly_parallel;
use crate::distance2d::segment_between;
use crate::utility::approx_equal_req;
use crate::distance2d::dist_sqrd_req;
use crate::distance2d::pt2line_sqrd;
use crate::distance2d::pt2seg_sqrd;
use crate::intersect_common::circular_intersect_req;
use crate::intersect_common::circular_roots;
use crate::intersect_common::clip_roots_to_ray;
use crate::intersect_common::clip_roots_to_segment;
use crate::intersect_common::points_at_roots;
use crate::intersect_common::points_req;
use crate::intersect_common::points_spec;
use crate::intersect_common::ray_clip_spec;
use crate::intersect_common::roots_req;
use crate::intersect_common::roots_spec;
use crate::intersect_common::seg_clip_spec;
use crate::nearest_common::pt2line_spec;
use crate::nearest_common::pt2segment_param_spec;
use crate::nearest_common::pt2segment_spec;
use crate::utility::is_scalar_fn;
use crate::intersect_common::circulars_meet;
use crate::intersect_common::is_circular_intersect;
use crate::matrix::Vector2;
use crate::nearest_common::point_at;
use crate::nearest_common::point_at_req;
use crate::nearest_common::point_on;
use crate::nearest_common::pt2line_param;
use crate::nearest_common::pt2line_param_req;
use crate::nearest_common::pt2line_param_spec;
use vstd::prelude::*;
use vstd::std_specs::ops::AddSpec;
use vstd::std_specs::ops::DivSpec;
use vstd::std_specs::ops::MulSpec;
use vstd::std_specs::ops::SubSpec;

verus! {

pub fn is_circles_intersect<T: ArithmeticGroup<T> + PartialOrd>(c1: &Circle<T>, c2: &Circle<T>) -> (r:
    bool)
    requires
        obeys_arithmetic::<T>(),
        obeys_order::<T>(),
        circular_intersect_req(*c1, *c2),
    ensures
        r == circulars_meet(*c1, *c2),
{
    is_circular_intersect(c1, c2)
}

/// The two overlap tests of `is_rect_intersect` can be formed.
pub open spec fn rect_intersect_req<T: ArithmeticGroup<T> + PartialOrd>(
    r1: AABB<T>,
    r2: AABB<T>,
) -> bool {
    forall|k: int|
        0 <= k < 2 ==> {
            &&& (#[trigger] r2.center.at(0, k)).sub_req(r1.center.at(0, k))
            &&& abs_req(r2.center.at(0, k).sub_spec(r1.center.at(0, k)))
            &&& r1.half_size.at(0, k).add_req(r2.half_size.at(0, k))
        }
}

/// Along axis `k` the centres are strictly closer than the sum of the
/// half-extents.
pub open spec fn overlap_on_axis<T: ArithmeticGroup<T> + PartialOrd>(
    r1: AABB<T>,
    r2: AABB<T>,
    k: int,
) -> bool {
    less(
        abs_spec(r2.center.at(0, k).sub_spec(r1.center.at(0, k))),
        r1.half_size.at(0, k).add_spec(r2.half_size.at(0, k)),
    )
}

/// Two boxes overlap exactly when they overlap on both axes. The comparison
/// is strict: boxes that only touch do not overlap.
pub fn is_rect_intersect<T: ArithmeticGroup<T> + PartialOrd>(r1: &AABB<T>, r2: &AABB<T>) -> (r: bool)
    requires
        obeys_arithmetic::<T>(),
        obeys_order::<T>(),
        rect_intersect_req(*r1, *r2),
    ensures
        r == (overlap_on_axis(*r1, *r2, 0) && overlap_on_axis(*r1, *r2, 1)),
{
    assert(r2.center.at(0, 0).sub_req(r1.center.at(0, 0)));
    assert(r2.center.at(0, 1).sub_req(r1.center.at(0, 1)));
    let dx = abs_of(r2.center.x() - r1.center.x());
    let dy = abs_of(r2.center.y() - r1.center.y());
    let sx = r1.half_size.x() + r2.half_size.x();
    let sy = r1.half_size.y() + r2.half_size.y();
    dx < sx && dy < sy
}

/// The parameter on `l1` of its crossing with `l2`:
/// `(l2.start - l1.start) x l2.dir / (l1.dir x l2.dir)`, or `None` where the
/// directions are parallel (their cross product is zero to six decimal
/// digits). Lines that coincide count as parallel.
pub open spec fn line_param_spec<T: ArithmeticGroup<T> + PartialOrd, G: Fn(T) -> T>(
    l1: Linear2D<T>,
    l2: Linear2D<T>,
    trunc: G,
) -> Option<T> {
    if nearly_parallel(l1, l2, trunc) {
        None
    } else {
        Some(
            l2.start.sub_spec(l1.start).cross_spec(&l2.dir).div_spec(l1.dir.cross_spec(&l2.dir)),
        )
    }
}

/// The cross products of `line_param_spec` can be formed and, for lines
/// that are not parallel, divided.
pub open spec fn line_param_req<T: ArithmeticGroup<T> + PartialOrd, G: Fn(T) -> T>(
    l1: Linear2D<T>,
    l2: Linear2D<T>,
    trunc: G,
) -> bool {
    &&& l1.dir.cross_req(&l2.dir)
    &&& approx_equal_req(l1.dir.cross_spec(&l2.dir), T::zero_spec(), 6)
    &&& SubSpec::sub_req(l2.start, l1.start)
    &&& l2.start.sub_spec(l1.start).cross_req(&l2.dir)
    &&& !nearly_parallel(l1, l2, trunc) ==> l2.start.sub_spec(
        l1.start,
    ).cross_spec(&l2.dir).div_req(l1.dir.cross_spec(&l2.dir))
}

/// The crossing of two linear primitives, each taken as an unbounded line.
pub fn linear_intersect_param<T: ArithmeticGroup<T> + PartialOrd, G: Fn(T) -> T>(
    l1: &Linear2D<T>,
    l2: &Linear2D<T>,
    trunc: &G,
) -> (r: Option<T>)
    requires
        obeys_arithmetic::<T>(),
        obeys_order::<T>(),
        is_scalar_fn(*trunc),
        line_param_req(*l1, *l2, *trunc),
    ensures
        r == line_param_spec(*l1, *l2, *trunc),
{
    if l1.is_parallel_approx(l2, 6, trunc) {
        return None;
    }
    let d = l2.start - l1.start;
    Some(d.cross(&l2.dir) / l1.dir.cross(&l2.dir))
}

pub fn line_intersect_param<T: ArithmeticGroup<T> + PartialOrd, G: Fn(T) -> T>(l1: &Line2D<T>, l2: &Line2D<T>, trunc: &G) -> (r:
    Option<T>)
    requires
        obeys_arithmetic::<T>(),
        obeys_order::<T>(),
        is_scalar_fn(*trunc),
        line_param_req(l1.0, l2.0, *trunc),
    ensures
        r == line_param_spec(l1.0, l2.0, *trunc),
{
    linear_intersect_param(&l1.0, &l2.0, trunc)
}

/// Wherever two primitives cross, the crossing point on `l1` can be formed.
pub open spec fn crossing_req<T: ArithmeticGroup<T> + PartialOrd, G: Fn(T) -> T>(
    l1: Linear2D<T>,
    l2: Linear2D<T>,
    trunc: G,
) -> bool {
    &&& line_param_req(l1, l2, trunc)
    &&& line_param_spec(l1, l2, trunc) matches Some(t) ==> point_at_req(l1.start, l1.dir, t)
}

/// The point where two lines cross, or `None` where they are parallel.
pub fn line_intersect<T: ArithmeticGroup<T> + PartialOrd, G: Fn(T) -> T>(l1: &Line2D<T>, l2: &Line2D<T>, trunc: &G) -> (r:
    Option<Vector2<T>>)
    requires
        obeys_arithmetic::<T>(),
        obeys_order::<T>(),
        is_scalar_fn(*trunc),
        crossing_req(l1.0, l2.0, *trunc),
    ensures
        r == match line_param_spec(l1.0, l2.0, *trunc) {
            Some(t) => Some(point_at(l1.0.start, l1.0.dir, t)),
            None => None,
        },
{
    match line_intersect_param(l1, l2, trunc) {
        Some(p) => Some(point_on(&l1.0.start, &l1.0.dir, p)),
        None => None,
    }
}

/// The crossing parameter kept only where it lies on the segment,
/// `0 <= t <= len`.
pub open spec fn seg_param_spec<T: ArithmeticGroup<T> + PartialOrd, G: Fn(T) -> T>(
    s: Linear2D<T>,
    l: Linear2D<T>,
    trunc: G,
) -> Option<T> {
    match line_param_spec(s, l, trunc) {
        Some(t) => if less_eq(T::zero_spec(), t) && less_eq(t, s.len) {
            Some(t)
        } else {
            None
        },
        None => None,
    }
}

/// The crossing parameter kept only where it lies on the ray, `0 <= t`.
pub open spec fn ray_param_spec<T: ArithmeticGroup<T> + PartialOrd, G: Fn(T) -> T>(
    r: Linear2D<T>,
    l: Linear2D<T>,
    trunc: G,
) -> Option<T> {
    match line_param_spec(r, l, trunc) {
        Some(t) => if less_eq(T::zero_spec(), t) {
            Some(t)
        } else {
            None
        },
        None => None,
    }
}

/// The parameter on the segment of its crossing with the line.
pub fn line_seg_intersect_param<T: ArithmeticGroup<T> + PartialOrd, G: Fn(T) -> T>(
    s: &Segment2D<T>,
    l: &Line2D<T>,
    trunc: &G,
) -> (r: Option<T>)
    requires
        obeys_arithmetic::<T>(),
        obeys_order::<T>(),
        is_scalar_fn(*trunc),
        line_param_req(s.0, l.0, *trunc),
    ensures
        r == seg_param_spec(s.0, l.0, *trunc),
{
    let zero = T::zero();
    match linear_intersect_param(&s.0, &l.0, trunc) {
        Some(t) => {
            if zero <= t && t <= s.0.len {
                Some(t)
            } else {
                None
            }
        },
        None => None,
    }
}

/// The point where the segment crosses the line.
pub fn line_seg_intersect<T: ArithmeticGroup<T> + PartialOrd, G: Fn(T) -> T>(s: &Segment2D<T>, l: &Line2D<T>, trunc: &G) -> (r:
    Option<Vector2<T>>)
    requires
        obeys_arithmetic::<T>(),
        obeys_order::<T>(),
        is_scalar_fn(*trunc),
        crossing_req(s.0, l.0, *trunc),
    ensures
        r == match seg_param_spec(s.0, l.0, *trunc) {
            Some(t) => Some(point_at(s.0.start, s.0.dir, t)),
            None => None,
        },
{
    match line_seg_intersect_param(s, l, trunc) {
        Some(t) => Some(point_on(&s.0.start, &s.0.dir, t)),
        None => None,
    }
}

/// The parameter on the ray of its crossing with the line.
pub fn line_ray_intersect_param<T: ArithmeticGroup<T> + PartialOrd, G: Fn(T) -> T>(r: &Ray2D<T>, l: &Line2D<T>, trunc: &G) -> (res:
    Option<T>)
    requires
        obeys_arithmetic::<T>(),
        obeys_order::<T>(),
        is_scalar_fn(*trunc),
        line_param_req(r.0, l.0, *trunc),
    ensures
        res == ray_param_spec(r.0, l.0, *trunc),
{
    let zero = T::zero();
    match linear_intersect_param(&r.0, &l.0, trunc) {
        Some(t) => {
            if zero <= t {
                Some(t)
            } else {
                None
            }
        },
        None => None,
    }
}

/// The point where the ray crosses the line.
pub fn line_ray_intersect<T: ArithmeticGroup<T> + PartialOrd, G: Fn(T) -> T>(r: &Ray2D<T>, l: &Line2D<T>, trunc: &G) -> (res:
    Option<Vector2<T>>)
    requires
        obeys_arithmetic::<T>(),
        obeys_order::<T>(),
        is_scalar_fn(*trunc),
        crossing_req(r.0, l.0, *trunc),
    ensures
        res == match ray_param_spec(r.0, l.0, *trunc) {
            Some(t) => Some(point_at(r.0.start, r.0.dir, t)),
            None => None,
        },
{
    match line_ray_intersect_param(r, l, trunc) {
        Some(t) => Some(point_on(&r.0.start, &r.0.dir, t)),
        None => None,
    }
}

/// Whether `pt` lies ahead of `origin` along `dir`: `(pt - origin) . dir >= 0`.
pub open spec fn ahead_of<T: ArithmeticGroup<T> + PartialOrd>(
    pt: Vector2<T>,
    origin: Vector2<T>,
    dir: Vector2<T>,
) -> bool {
    !less(pt2line_param_spec(pt, origin, dir), T::zero_spec())
}

/// The crossing of the segment's line with the ray's line can be formed
/// and, where it lies on the segment, tested against the ray's direction.
pub open spec fn ray_seg_req<T: ArithmeticGroup<T> + PartialOrd, G: Fn(T) -> T>(
    seg: Linear2D<T>,
    r: Linear2D<T>,
    trunc: G,
) -> bool {
    &&& line_param_req(seg, r, trunc)
    &&& seg_param_spec(seg, r, trunc) matches Some(t) ==> {
        &&& point_at_req(seg.start, seg.dir, t)
        &&& pt2line_param_req(point_at(seg.start, seg.dir, t), r.start, r.dir)
    }
}

/// The point where the ray meets the segment: the crossing of the two
/// lines, kept where it lies on the segment and ahead of the ray's start.
pub open spec fn ray_seg_spec<T: ArithmeticGroup<T> + PartialOrd, G: Fn(T) -> T>(
    seg: Linear2D<T>,
    r: Linear2D<T>,
    trunc: G,
) -> Option<Vector2<T>> {
    match seg_param_spec(seg, r, trunc) {
        Some(t) => if ahead_of(point_at(seg.start, seg.dir, t), r.start, r.dir) {
            Some(point_at(seg.start, seg.dir, t))
        } else {
            None
        },
        None => None,
    }
}

pub fn ray_seg_intersect<T: ArithmeticGroup<T> + PartialOrd, G: Fn(T) -> T>(seg: &Segment2D<T>, r: &Ray2D<T>, trunc: &G) -> (res:
    Option<Vector2<T>>)
    requires
        obeys_arithmetic::<T>(),
        obeys_order::<T>(),
        is_scalar_fn(*trunc),
        ray_seg_req(seg.0, r.0, *trunc),
    ensures
        res == ray_seg_spec(seg.0, r.0, *trunc),
{
    let zero = T::zero();
    match linear_intersect_param(&seg.0, &r.0, trunc) {
        Some(p) => {
            if zero <= p && p <= seg.0.len {
                let pt = point_on(&seg.0.start, &seg.0.dir, p);
                if pt2line_param(&pt, &r.0.start, &r.0.dir) < zero {
                    None
                } else {
                    Some(pt)
                }
            } else {
                None
            }
        },
        None => None,
    }
}

pub fn is_ray_seg_intersect<T: ArithmeticGroup<T> + PartialOrd, G: Fn(T) -> T>(r: &Ray2D<T>, seg: &Segment2D<T>, trunc: &G) -> (res:
    bool)
    requires
        obeys_arithmetic::<T>(),
        obeys_order::<T>(),
        is_scalar_fn(*trunc),
        ray_seg_req(seg.0, r.0, *trunc),
    ensures
        res == ray_seg_spec(seg.0, r.0, *trunc).is_some(),
{
    ray_seg_intersect(seg, r, trunc).is_some()
}

/// The crossing of the two lines can be formed and, where it lies on the
/// first segment, projected on the second.
pub open spec fn seg_intersect_req<T: ArithmeticGroup<T> + PartialOrd, G: Fn(T) -> T>(
    s1: Linear2D<T>,
    s2: Linear2D<T>,
    trunc: G,
) -> bool {
    &&& line_param_req(s1, s2, trunc)
    &&& seg_param_spec(s1, s2, trunc) matches Some(t) ==> {
        &&& point_at_req(s1.start, s1.dir, t)
        &&& pt2line_param_req(point_at(s1.start, s1.dir, t), s2.start, s2.dir)
    }
}

/// The point where two segments cross: the crossing of their lines, kept
/// where its parameter on the first segment lies within `[0, s1.len]` and
/// its projection on the second within `[0, s2.len]`.
pub open spec fn seg_intersect_spec<T: ArithmeticGroup<T> + PartialOrd, G: Fn(T) -> T>(
    s1: Linear2D<T>,
    s2: Linear2D<T>,
    trunc: G,
) -> Option<Vector2<T>> {
    match seg_param_spec(s1, s2, trunc) {
        Some(t) => {
            let p = point_at(s1.start, s1.dir, t);
            let proj = pt2line_param_spec(p, s2.start, s2.dir);
            if less_eq(T::zero_spec(), proj) && less_eq(proj, s2.len) {
                Some(p)
            } else {
                None
            }
        },
        None => None,
    }
}

pub fn seg_intersect<T: ArithmeticGroup<T> + PartialOrd, G: Fn(T) -> T>(
    s1: &Segment2D<T>,
    s2: &Segment2D<T>,
    trunc: &G,
) -> (r: Option<Vector2<T>>)
    requires
        obeys_arithmetic::<T>(),
        obeys_order::<T>(),
        is_scalar_fn(*trunc),
        seg_intersect_req(s1.0, s2.0, *trunc),
    ensures
        r == seg_intersect_spec(s1.0, s2.0, *trunc),
{
    let zero = T::zero();
    match linear_intersect_param(&s1.0, &s2.0, trunc) {
        Some(t) => {
            if zero <= t && t <= s1.0.len {
                let p = point_on(&s1.0.start, &s1.0.dir, t);
                let proj = pt2line_param(&p, &s2.0.start, &s2.0.dir);
                if zero <= proj && proj <= s2.0.len {
                    Some(p)
                } else {
                    None
                }
            } else {
                None
            }
        },
        None => None,
    }
}

/// The crossing of the lines of two rays can be formed and, where it lies
/// on the first ray, tested against the direction of the second.
pub open spec fn rays_intersect_req<T: ArithmeticGroup<T> + PartialOrd, G: Fn(T) -> T>(
    r1: Linear2D<T>,
    r2: Linear2D<T>,
    trunc: G,
) -> bool {
    &&& line_param_req(r1, r2, trunc)
    &&& line_param_spec(r1, r2, trunc) matches Some(t) ==> (!less(t, T::zero_spec()) ==> {
        &&& point_at_req(r1.start, r1.dir, t)
        &&& pt2line_param_req(point_at(r1.start, r1.dir, t), r2.start, r2.dir)
    })
}

/// The crossing of the lines of two rays, kept where it lies on both:
/// its parameter on the first is not negative, and its projection on the
/// second is at least zero.
pub open spec fn rays_intersect_spec<T: ArithmeticGroup<T> + PartialOrd, G: Fn(T) -> T>(
    r1: Linear2D<T>,
    r2: Linear2D<T>,
    trunc: G,
) -> Option<Vector2<T>> {
    match line_param_spec(r1, r2, trunc) {
        Some(t) => {
            let p = point_at(r1.start, r1.dir, t);
            if !less(t, T::zero_spec()) && less_eq(
                T::zero_spec(),
                pt2line_param_spec(p, r2.start, r2.dir),
            ) {
                Some(p)
            } else {
                None
            }
        },
        None => None,
    }
}

pub fn rays_intersect<T: ArithmeticGroup<T> + PartialOrd, G: Fn(T) -> T>(r1: &Ray2D<T>, r2: &Ray2D<T>, trunc: &G) -> (r: Option<
    Vector2<T>,
>)
    requires
        obeys_arithmetic::<T>(),
        obeys_order::<T>(),
        is_scalar_fn(*trunc),
        rays_intersect_req(r1.0, r2.0, *trunc),
    ensures
        r == rays_intersect_spec(r1.0, r2.0, *trunc),
{
    let zero = T::zero();
    match linear_intersect_param(&r1.0, &r2.0, trunc) {
        Some(p) => {
            if p < zero {
                None
            } else {
                let pt = point_on(&r1.0.start, &r1.0.dir, p);
                if zero <= pt2line_param(&pt, &r2.0.start, &r2.0.dir) {
                    Some(pt)
                } else {
                    None
                }
            }
        },
        None => None,
    }
}

/// The parameters on the line of its intersections with the circle.
pub fn line_circle_intersect_param<T: ArithmeticGroup<T> + PartialOrd, F: Fn(T) -> T, G: Fn(T) -> T>(
    l: &Line2D<T>,
    c: &Circle<T>,
    sqrt: &F,
    trunc: &G,
) -> (r: Option<(T, Option<T>)>)
    requires
        obeys_arithmetic::<T>(),
        obeys_order::<T>(),
        is_scalar_fn(*sqrt),
        is_scalar_fn(*trunc),
        roots_req(l.0, *c, *sqrt, *trunc),
    ensures
        r == roots_spec(l.0, *c, *sqrt, *trunc),
{
    circular_roots(&l.0, c, sqrt, trunc)
}

/// The points where the line meets the circle.
pub fn line_circle_intersect<T: ArithmeticGroup<T> + PartialOrd, F: Fn(T) -> T, G: Fn(T) -> T>(
    l: &Line2D<T>,
    c: &Circle<T>,
    sqrt: &F,
    trunc: &G,
) -> (r: Option<(Vector2<T>, Option<Vector2<T>>)>)
    requires
        obeys_arithmetic::<T>(),
        obeys_order::<T>(),
        is_scalar_fn(*sqrt),
        is_scalar_fn(*trunc),
        roots_req(l.0, *c, *sqrt, *trunc),
        points_req(l.0, roots_spec(l.0, *c, *sqrt, *trunc)),
    ensures
        r == points_spec(l.0, roots_spec(l.0, *c, *sqrt, *trunc)),
{
    points_at_roots(&l.0, line_circle_intersect_param(l, c, sqrt, trunc))
}

/// The parameters on the ray of its intersections with the circle: the
/// roots of the ray's line that are not negative.
pub fn ray_circle_intersect_param<T: ArithmeticGroup<T> + PartialOrd, F: Fn(T) -> T, G: Fn(T) -> T>(
    r: &Ray2D<T>,
    c: &Circle<T>,
    sqrt: &F,
    trunc: &G,
) -> (res: Option<(T, Option<T>)>)
    requires
        obeys_arithmetic::<T>(),
        obeys_order::<T>(),
        is_scalar_fn(*sqrt),
        is_scalar_fn(*trunc),
        roots_req(r.0, *c, *sqrt, *trunc),
    ensures
        res == ray_clip_spec(roots_spec(r.0, *c, *sqrt, *trunc)),
{
    clip_roots_to_ray(circular_roots(&r.0, c, sqrt, trunc))
}

/// The points where the ray meets the circle.
pub fn ray_circle_intersect<T: ArithmeticGroup<T> + PartialOrd, F: Fn(T) -> T, G: Fn(T) -> T>(
    r: &Ray2D<T>,
    c: &Circle<T>,
    sqrt: &F,
    trunc: &G,
) -> (res: Option<(Vector2<T>, Option<Vector2<T>>)>)
    requires
        obeys_arithmetic::<T>(),
        obeys_order::<T>(),
        is_scalar_fn(*sqrt),
        is_scalar_fn(*trunc),
        roots_req(r.0, *c, *sqrt, *trunc),
        points_req(r.0, ray_clip_spec(roots_spec(r.0, *c, *sqrt, *trunc))),
    ensures
        res == points_spec(r.0, ray_clip_spec(roots_spec(r.0, *c, *sqrt, *trunc))),
{
    points_at_roots(&r.0, ray_circle_intersect_param(r, c, sqrt, trunc))
}

pub fn is_ray_circle_intersect<T: ArithmeticGroup<T> + PartialOrd, F: Fn(T) -> T, G: Fn(T) -> T>(
    r: &Ray2D<T>,
    c: &Circle<T>,
    sqrt: &F,
    trunc: &G,
) -> (res: bool)
    requires
        obeys_arithmetic::<T>(),
        obeys_order::<T>(),
        is_scalar_fn(*sqrt),
        is_scalar_fn(*trunc),
        roots_req(r.0, *c, *sqrt, *trunc),
    ensures
        res == ray_clip_spec(roots_spec(r.0, *c, *sqrt, *trunc)).is_some(),
{
    ray_circle_intersect_param(r, c, sqrt, trunc).is_some()
}

/// The parameters on the segment of its intersections with the circle: the
/// roots of the segment's line that lie on the segment.
pub fn seg_circle_intersect_param<T: ArithmeticGroup<T> + PartialOrd, F: Fn(T) -> T, G: Fn(T) -> T>(
    s: &Segment2D<T>,
    c: &Circle<T>,
    sqrt: &F,
    trunc: &G,
) -> (r: Option<(T, Option<T>)>)
    requires
        obeys_arithmetic::<T>(),
        obeys_order::<T>(),
        is_scalar_fn(*sqrt),
        is_scalar_fn(*trunc),
        roots_req(s.0, *c, *sqrt, *trunc),
    ensures
        r == seg_clip_spec(roots_spec(s.0, *c, *sqrt, *trunc), s.0.len),
{
    clip_roots_to_segment(circular_roots(&s.0, c, sqrt, trunc), s.0.len)
}

/// The points where the segment meets the circle.
pub fn segs_circle_intersect<T: ArithmeticGroup<T> + PartialOrd, F: Fn(T) -> T, G: Fn(T) -> T>(
    s: &Segment2D<T>,
    c: &Circle<T>,
    sqrt: &F,
    trunc: &G,
) -> (r: Option<(Vector2<T>, Option<Vector2<T>>)>)
    requires
        obeys_arithmetic::<T>(),
        obeys_order::<T>(),
        is_scalar_fn(*sqrt),
        is_scalar_fn(*trunc),
        roots_req(s.0, *c, *sqrt, *trunc),
        points_req(s.0, seg_clip_spec(roots_spec(s.0, *c, *sqrt, *trunc), s.0.len)),
    ensures
        r == points_spec(s.0, seg_clip_spec(roots_spec(s.0, *c, *sqrt, *trunc), s.0.len)),
{
    points_at_roots(&s.0, seg_circle_intersect_param(s, c, sqrt, trunc))
}

/// Whether the centre of the circle is strictly closer to the line than the
/// radius.
pub fn is_line_circle_intersect<T: ArithmeticGroup<T> + PartialOrd>(l: &Line2D<T>, c: &Circle<T>) -> (r:
    bool)
    requires
        obeys_arithmetic::<T>(),
        obeys_order::<T>(),
        pt2line_param_req(c.center, l.0.start, l.0.dir),
        point_at_req(l.0.start, l.0.dir, pt2line_param_spec(c.center, l.0.start, l.0.dir)),
        dist_sqrd_req(pt2line_spec(c.center, l.0.start, l.0.dir), c.center),
        c.radius.mul_req(c.radius),
    ensures
        r == less(
            dist_sqrd(pt2line_spec(c.center, l.0.start, l.0.dir), c.center),
            c.radius.mul_spec(c.radius),
        ),
{
    pt2line_sqrd(&c.center, l) < c.radius * c.radius
}

/// Whether the centre of the circle is strictly closer to the segment than
/// the radius.
pub fn is_seg_circle_intersect<T: ArithmeticGroup<T> + PartialOrd>(s: &Segment2D<T>, c: &Circle<T>) -> (r:
    bool)
    requires
        obeys_arithmetic::<T>(),
        obeys_order::<T>(),
        pt2line_param_req(c.center, s.0.start, s.0.dir),
        point_at_req(s.0.start, s.0.dir, pt2segment_param_spec(c.center, *s)),
        dist_sqrd_req(pt2segment_spec(c.center, *s), c.center),
        c.radius.mul_req(c.radius),
    ensures
        r == less(dist_sqrd(pt2segment_spec(c.center, *s), c.center), c.radius.mul_spec(c.radius)),
{
    pt2seg_sqrd(&c.center, s) < c.radius * c.radius
}

/// The far end of a linear primitive, `dir * len + start`.
pub open spec fn end_point<T: ArithmeticGroup<T>>(l: Linear2D<T>) -> Vector2<T> {
    MulSpec::<T>::mul_spec(l.dir, l.len).add_spec(l.start)
}

pub open spec fn end_point_req<T: ArithmeticGroup<T>>(l: Linear2D<T>) -> bool {
    &&& MulSpec::<T>::mul_req(l.dir, l.len)
    &&& AddSpec::add_req(MulSpec::<T>::mul_spec(l.dir, l.len), l.start)
}

/// On which side of `l` the point `p` lies: the sign of `(p - l.start) x l.dir`.
pub open spec fn side_of<T: ArithmeticGroup<T>>(l: Linear2D<T>, p: Vector2<T>) -> T {
    p.sub_spec(l.start).cross_spec(&l.dir)
}

pub open spec fn side_of_req<T: ArithmeticGroup<T>>(l: Linear2D<T>, p: Vector2<T>) -> bool {
    &&& SubSpec::sub_req(p, l.start)
    &&& p.sub_spec(l.start).cross_req(&l.dir)
}

/// The points `a` and `b` are not strictly on the same side of `l`.
pub open spec fn straddles<T: ArithmeticGroup<T> + PartialOrd>(
    l: Linear2D<T>,
    a: Vector2<T>,
    b: Vector2<T>,
) -> bool {
    less_eq(side_of(l, a).mul_spec(side_of(l, b)), T::zero_spec())
}

pub open spec fn straddles_req<T: ArithmeticGroup<T>>(
    l: Linear2D<T>,
    a: Vector2<T>,
    b: Vector2<T>,
) -> bool {
    &&& side_of_req(l, a)
    &&& side_of_req(l, b)
    &&& side_of(l, a).mul_req(side_of(l, b))
}

/// The signed side of `p` with respect to `l`.
pub fn side<T: ArithmeticGroup<T>>(l: &Linear2D<T>, p: &Vector2<T>) -> (r: T)
    requires
        obeys_arithmetic::<T>(),
        side_of_req(*l, *p),
    ensures
        r == side_of(*l, *p),
{
    (*p - l.start).cross(&l.dir)
}

/// Whether two bounded pieces, each from `start` to `dir * len + start`,
/// cross: the ends of each must straddle the line of the other.
pub fn is_line_intersect<T: ArithmeticGroup<T> + PartialOrd>(l1: &Line2D<T>, l2: &Line2D<T>) -> (r:
    bool)
    requires
        obeys_arithmetic::<T>(),
        obeys_order::<T>(),
        end_point_req(l1.0),
        end_point_req(l2.0),
        straddles_req(l1.0, l2.0.start, end_point(l2.0)),
        straddles_req(l2.0, l1.0.start, end_point(l1.0)),
    ensures
        r == (straddles(l1.0, l2.0.start, end_point(l2.0)) && straddles(
            l2.0,
            l1.0.start,
            end_point(l1.0),
        )),
{
    let end1 = l1.0.dir * l1.0.len + l1.0.start;
    let end2 = l2.0.dir * l2.0.len + l2.0.start;
    let zero = T::zero();
    let first = side(&l1.0, &l2.0.start) * side(&l1.0, &end2) <= zero;
    let second = side(&l2.0, &l1.0.start) * side(&l2.0, &end1) <= zero;
    first && second
}

/// Corner `k` of the box, counted from the smallest corner around the box:
/// `(min.x, min.y)`, `(max.x, min.y)`, `(max.x, max.y)`, `(min.x, max.y)`.
pub open spec fn box_corner<T: ArithmeticGroup<T>>(aabb: AABB<T>, k: int) -> Vector2<T> {
    let min = aabb.min_spec();
    let max = aabb.max_spec();
    if k == 0 {
        Vector2::<T>::xy_spec(min.at(0, 0), min.at(0, 1))
    } else if k == 1 {
        Vector2::<T>::xy_spec(max.at(0, 0), min.at(0, 1))
    } else if k == 2 {
        Vector2::<T>::xy_spec(max.at(0, 0), max.at(0, 1))
    } else {
        Vector2::<T>::xy_spec(min.at(0, 0), max.at(0, 1))
    }
}

/// Edge `k` of the box, from corner `k` to the next corner.
pub open spec fn box_edge<T: ArithmeticGroup<T>, F: Fn(T) -> T>(
    aabb: AABB<T>,
    k: int,
    sqrt: F,
) -> Segment2D<T> {
    segment_between(box_corner(aabb, k), box_corner(aabb, (k + 1) % 4), sqrt)
}

/// Whether the ray meets edge `k` of the box.
pub open spec fn hits_edge<T: ArithmeticGroup<T> + PartialOrd, F: Fn(T) -> T, G: Fn(T) -> T>(
    r: Ray2D<T>,
    aabb: AABB<T>,
    k: int,
    sqrt: F,
    trunc: G,
) -> bool {
    ray_seg_spec(box_edge(aabb, k, sqrt).0, r.0, trunc).is_some()
}

/// Edge `k` can be built and tested against the ray.
pub open spec fn edge_req<T: ArithmeticGroup<T> + PartialOrd, F: Fn(T) -> T, G: Fn(T) -> T>(
    r: Ray2D<T>,
    aabb: AABB<T>,
    k: int,
    sqrt: F,
    trunc: G,
) -> bool {
    &&& SubSpec::sub_req(box_corner(aabb, (k + 1) % 4), box_corner(aabb, k))
    &&& box_corner(aabb, (k + 1) % 4).sub_spec(box_corner(aabb, k)).normalize_req(sqrt)
    &&& ray_seg_req(box_edge(aabb, k, sqrt).0, r.0, trunc)
}

/// The containment test can be formed and, for a ray that starts outside
/// the box, so can the corners and the test against each edge.
pub open spec fn ray_aabb_req<T: ArithmeticGroup<T> + PartialOrd, F: Fn(T) -> T, G: Fn(T) -> T>(
    r: Ray2D<T>,
    aabb: AABB<T>,
    sqrt: F,
    trunc: G,
) -> bool {
    &&& rect_bounds_req(aabb)
    &&& !rect_contains(r.0.start, aabb) ==> {
        &&& aabb.max_req()
        &&& forall|k: int| 0 <= k < 4 ==> #[trigger] edge_req(r, aabb, k, sqrt, trunc)
    }
}

/// Whether the ray meets the box: it starts inside, or it meets one of the
/// four edges.
pub fn is_ray_aabb_intersect<T: ArithmeticGroup<T> + PartialOrd, F: Fn(T) -> T, G: Fn(T) -> T>(
    r: &Ray2D<T>,
    aabb: &AABB<T>,
    sqrt: &F,
    trunc: &G,
) -> (res: bool)
    requires
        obeys_arithmetic::<T>(),
        obeys_order::<T>(),
        is_scalar_fn(*trunc),
        is_scalar_fn(*sqrt),
        ray_aabb_req(*r, *aabb, *sqrt, *trunc),
    ensures
        res == (rect_contains(r.0.start, *aabb) || exists|k: int|
            0 <= k < 4 && #[trigger] hits_edge(*r, *aabb, k, *sqrt, *trunc)),
{
    if is_rect_contain_pt(&r.0.start, aabb) {
        return true;
    }
    let min = aabb.min();
    let max = aabb.max();
    let points = [
        Vector2::from_xy(min.x(), min.y()),
        Vector2::from_xy(max.x(), min.y()),
        Vector2::from_xy(max.x(), max.y()),
        Vector2::from_xy(min.x(), max.y()),
    ];
    let mut i: usize = 0;
    while i < 4
        invariant
            obeys_arithmetic::<T>(),
            obeys_order::<T>(),
            is_scalar_fn(*sqrt),
            is_scalar_fn(*trunc),
            i <= 4,
            !rect_contains(r.0.start, *aabb),
            ray_aabb_req(*r, *aabb, *sqrt, *trunc),
            forall|k: int| 0 <= k < 4 ==> points[k] == box_corner(*aabb, k),
            forall|k: int| 0 <= k < i ==> !#[trigger] hits_edge(*r, *aabb, k, *sqrt, *trunc),
        decreases 4 - i,
    {
        assert(edge_req(*r, *aabb, i as int, *sqrt, *trunc));
        let from = points[i];
        let to = points[(i + 1) % 4];
        let seg = Segment2D::new(from, to, sqrt);
        if is_ray_seg_intersect(r, &seg, trunc) {
            assert(hits_edge(*r, *aabb, i as int, *sqrt, *trunc));
            return true;
        }
        i = i + 1;
    }
    false
}

} // verus!
