//! Squared distances in the plane, built on the nearest-point functions.
use crate::arithmetic::abs_of;
use crate::arithmetic::abs_req;
use crate::arithmetic::abs_spec;
use crate::arithmetic::at_most;
use crate::arithmetic::less;
use crate::arithmetic::less_eq;
use crate::arithmetic::min_of;
use crate::arithmetic::obeys_arithmetic;
use crate::arithmetic::Zero;
use crate::geom_common::Linear2D;
use crate::nearest_common::point_at;
use crate::nearest_common::point_on;
use crate::utility::approx_equal_req;
use crate::utility::approx_equal_spec;
use crate::utility::is_scalar_fn;
use std::ops::Neg;
use crate::arithmetic::obeys_order;
use crate::arithmetic::ArithmeticGroup;
use crate::geom_common::Line;
use crate::geom_common::Ray;
use crate::intersect2d::is_ray_seg_intersect;
use crate::intersect2d::line_param_req;
use crate::intersect2d::line_seg_intersect_param;
use crate::intersect2d::seg_param_spec;
use crate::intersect2d::ray_seg_req;
use crate::intersect2d::ray_seg_spec;
use crate::intersect2d::rays_intersect;
use crate::intersect2d::rays_intersect_req;
use crate::intersect2d::rays_intersect_spec;
use crate::nearest2d::pt2triangle;
use crate::nearest2d::pt2triangle_req;
use crate::nearest2d::pt2triangle_spec;
use crate::geom_common::Line2D;
use crate::geom_common::Triangle2D;
use crate::geom_common::Ray2D;
use crate::geom_common::Segment;
use crate::geom_common::Segment2D;
use crate::matrix::Vector2;
use crate::nearest_common::point_at_req;
use crate::nearest_common::pt2line;
use crate::nearest_common::pt2line_param_req;
use crate::nearest_common::pt2line_param_spec;
use crate::nearest_common::pt2line_spec;
use crate::nearest_common::pt2ray;
use crate::nearest_common::pt2ray_param_spec;
use crate::nearest_common::pt2ray_spec;
use crate::nearest_common::pt2segment;
use crate::nearest_common::pt2segment_param_spec;
use crate::nearest_common::pt2segment_spec;
use vstd::prelude::*;
use vstd::std_specs::ops::MulSpec;
use vstd::std_specs::ops::NegSpec;
use vstd::std_specs::ops::SubSpec;

verus! {

/// The squared length of `to - from`.
pub open spec fn dist_sqrd<T: ArithmeticGroup<T>>(from: Vector2<T>, to: Vector2<T>) -> T {
    to.sub_spec(from).dot_with(&to.sub_spec(from))
}

/// The difference and its squared length are within the scalar's limits.
pub open spec fn dist_sqrd_req<T: ArithmeticGroup<T>>(from: Vector2<T>, to: Vector2<T>) -> bool {
    &&& SubSpec::sub_req(to, from)
    &&& to.sub_spec(from).dot_with_req(&to.sub_spec(from))
}

pub fn pt2pt_sqrd<T: ArithmeticGroup<T>>(pt1: &Vector2<T>, pt2: &Vector2<T>) -> (r: T)
    requires
        obeys_arithmetic::<T>(),
        dist_sqrd_req(*pt1, *pt2),
    ensures
        r == dist_sqrd(*pt1, *pt2),
{
    (*pt2 - *pt1).length_sqrd()
}

/// The squared distance from `pt` to its projection on the line.
pub fn pt2line_sqrd<T: ArithmeticGroup<T>>(pt: &Vector2<T>, line: &Line2D<T>) -> (r: T)
    requires
        obeys_arithmetic::<T>(),
        pt2line_param_req(*pt, line.0.start, line.0.dir),
        point_at_req(line.0.start, line.0.dir, pt2line_param_spec(*pt, line.0.start, line.0.dir)),
        dist_sqrd_req(pt2line_spec(*pt, line.0.start, line.0.dir), *pt),
    ensures
        r == dist_sqrd(pt2line_spec(*pt, line.0.start, line.0.dir), *pt),
{
    let p = pt2line(pt, &line.0.start, &line.0.dir);
    pt2pt_sqrd(&p, pt)
}

/// The squared distance from `pt` to the nearest point of the segment: the
/// squared length of `pt - pt2segment(pt, seg)`.
pub fn pt2seg_sqrd<T: ArithmeticGroup<T> + PartialOrd>(pt: &Vector2<T>, seg: &Segment2D<T>) -> (r: T)
    requires
        obeys_arithmetic::<T>(),
        obeys_order::<T>(),
        pt2line_param_req(*pt, seg.0.start, seg.0.dir),
        point_at_req(seg.0.start, seg.0.dir, pt2segment_param_spec(*pt, *seg)),
        dist_sqrd_req(pt2segment_spec(*pt, *seg), *pt),
    ensures
        r == pt.sub_spec(pt2segment_spec(*pt, *seg)).dot_with(
            &pt.sub_spec(pt2segment_spec(*pt, *seg)),
        ),
{
    let p = pt2segment(pt, seg);
    pt2pt_sqrd(&p, pt)
}

/// The squared distance from `pt` to the nearest point of the ray.
pub fn pt2ray_sqrd<T: ArithmeticGroup<T> + PartialOrd>(pt: &Vector2<T>, ray: &Ray2D<T>) -> (r: T)
    requires
        obeys_arithmetic::<T>(),
        obeys_order::<T>(),
        pt2line_param_req(*pt, ray.0.start, ray.0.dir),
        point_at_req(ray.0.start, ray.0.dir, pt2ray_param_spec(*pt, *ray)),
        dist_sqrd_req(pt2ray_spec(*pt, *ray), *pt),
    ensures
        r == dist_sqrd(pt2ray_spec(*pt, *ray), *pt),
{
    let p = pt2ray(pt, ray);
    pt2pt_sqrd(&p, pt)
}

/// The payload of the segment from `a` to `b`: direction `b - a`
/// normalized, length that of `b - a`.
pub open spec fn segment_between<T: ArithmeticGroup<T>, F: Fn(T) -> T>(
    a: Vector2<T>,
    b: Vector2<T>,
    sqrt: F,
) -> Segment2D<T> {
    Segment::<T, 2>(
        Linear2D::<T> {
            start: a,
            dir: b.sub_spec(a).normalize_spec(sqrt),
            len: b.sub_spec(a).length_spec(sqrt),
        },
    )
}

/// The squared distance from `pt` to the segment from `a` to `b`.
pub open spec fn seg_dist<T: ArithmeticGroup<T> + PartialOrd, F: Fn(T) -> T>(
    pt: Vector2<T>,
    a: Vector2<T>,
    b: Vector2<T>,
    sqrt: F,
) -> T {
    dist_sqrd(pt2segment_spec(pt, segment_between(a, b, sqrt)), pt)
}

/// The segment from `a` to `b` can be built and `pt` projected on it.
pub open spec fn seg_dist_req<T: ArithmeticGroup<T> + PartialOrd, F: Fn(T) -> T>(
    pt: Vector2<T>,
    a: Vector2<T>,
    b: Vector2<T>,
    sqrt: F,
) -> bool {
    let seg = segment_between(a, b, sqrt);
    &&& SubSpec::sub_req(b, a)
    &&& b.sub_spec(a).normalize_req(sqrt)
    &&& pt2line_param_req(pt, seg.0.start, seg.0.dir)
    &&& point_at_req(seg.0.start, seg.0.dir, pt2segment_param_spec(pt, seg))
    &&& dist_sqrd_req(pt2segment_spec(pt, seg), pt)
}

/// The squared distance from `pt` to the segment from `a` to `b`.
pub fn pt2ends_sqrd<T: ArithmeticGroup<T> + PartialOrd, F: Fn(T) -> T>(
    pt: &Vector2<T>,
    a: &Vector2<T>,
    b: &Vector2<T>,
    sqrt: &F,
) -> (r: T)
    requires
        obeys_arithmetic::<T>(),
        obeys_order::<T>(),
        is_scalar_fn(*sqrt),
        seg_dist_req(*pt, *a, *b, *sqrt),
    ensures
        r == seg_dist(*pt, *a, *b, *sqrt),
{
    let seg = Segment2D::new(*a, *b, sqrt);
    pt2seg_sqrd(pt, &seg)
}

/// The squared offset of `p` from `pt` along axis `k`.
pub open spec fn axis_gap<T: ArithmeticGroup<T>>(pt: Vector2<T>, p: Vector2<T>, k: int) -> T {
    p.at(0, k).sub_spec(pt.at(0, k)).mul_spec(p.at(0, k).sub_spec(pt.at(0, k)))
}

pub open spec fn axis_gap_req<T: ArithmeticGroup<T>>(pt: Vector2<T>, p: Vector2<T>, k: int) -> bool {
    &&& p.at(0, k).sub_req(pt.at(0, k))
    &&& p.at(0, k).sub_spec(pt.at(0, k)).mul_req(p.at(0, k).sub_spec(pt.at(0, k)))
}

/// The pruning rule: a segment is skipped where, along at least one axis,
/// both its ends are farther from `pt` than the best distance so far.
pub open spec fn pruned<T: ArithmeticGroup<T> + PartialOrd>(
    pt: Vector2<T>,
    a: Vector2<T>,
    b: Vector2<T>,
    best: T,
) -> bool {
    ||| less(best, axis_gap(pt, a, 0)) && less(best, axis_gap(pt, b, 0))
    ||| less(best, axis_gap(pt, a, 1)) && less(best, axis_gap(pt, b, 1))
}

/// The best squared distance after the next segment, from `a` to `b`, has
/// been looked at.
pub open spec fn polyline_step<T: ArithmeticGroup<T> + PartialOrd, F: Fn(T) -> T>(
    pt: Vector2<T>,
    best: Option<T>,
    a: Vector2<T>,
    b: Vector2<T>,
    sqrt: F,
) -> Option<T> {
    match best {
        None => Some(seg_dist(pt, a, b, sqrt)),
        Some(d) => if pruned(pt, a, b, d) {
            Some(d)
        } else {
            Some(at_most(d, seg_dist(pt, a, b, sqrt)))
        },
    }
}

pub open spec fn polyline_step_req<T: ArithmeticGroup<T> + PartialOrd, F: Fn(T) -> T>(
    pt: Vector2<T>,
    best: Option<T>,
    a: Vector2<T>,
    b: Vector2<T>,
    sqrt: F,
) -> bool {
    match best {
        None => seg_dist_req(pt, a, b, sqrt),
        Some(d) => {
            &&& axis_gap_req(pt, a, 0)
            &&& axis_gap_req(pt, b, 0)
            &&& axis_gap_req(pt, a, 1)
            &&& axis_gap_req(pt, b, 1)
            &&& !pruned(pt, a, b, d) ==> seg_dist_req(pt, a, b, sqrt)
        },
    }
}

/// The best squared distance over the first `n` segments of the polyline.
pub open spec fn polyline_best<T: ArithmeticGroup<T> + PartialOrd, F: Fn(T) -> T>(
    pt: Vector2<T>,
    pts: Seq<Vector2<T>>,
    sqrt: F,
    n: nat,
) -> Option<T>
    decreases n,
{
    if n == 0 {
        None
    } else {
        polyline_step(
            pt,
            polyline_best(pt, pts, sqrt, (n - 1) as nat),
            pts[n - 1],
            pts[n as int],
            sqrt,
        )
    }
}

pub open spec fn polyline_best_req<T: ArithmeticGroup<T> + PartialOrd, F: Fn(T) -> T>(
    pt: Vector2<T>,
    pts: Seq<Vector2<T>>,
    sqrt: F,
    n: nat,
) -> bool
    decreases n,
{
    n == 0 || {
        &&& polyline_best_req(pt, pts, sqrt, (n - 1) as nat)
        &&& polyline_step_req(
            pt,
            polyline_best(pt, pts, sqrt, (n - 1) as nat),
            pts[n - 1],
            pts[n as int],
            sqrt,
        )
    }
}

/// The squared distance from `pt` to a polyline: `None` for no points, the
/// distance to the point for one, else the best over all segments.
pub open spec fn polyline_spec<T: ArithmeticGroup<T> + PartialOrd, F: Fn(T) -> T>(
    pt: Vector2<T>,
    pts: Seq<Vector2<T>>,
    sqrt: F,
) -> Option<T> {
    if pts.len() == 0 {
        None
    } else if pts.len() == 1 {
        Some(dist_sqrd(pt, pts[0]))
    } else {
        polyline_best(pt, pts, sqrt, (pts.len() - 1) as nat)
    }
}

pub open spec fn polyline_req<T: ArithmeticGroup<T> + PartialOrd, F: Fn(T) -> T>(
    pt: Vector2<T>,
    pts: Seq<Vector2<T>>,
    sqrt: F,
) -> bool {
    if pts.len() == 0 {
        true
    } else if pts.len() == 1 {
        dist_sqrd_req(pt, pts[0])
    } else {
        polyline_best_req(pt, pts, sqrt, (pts.len() - 1) as nat)
    }
}

/// What `polyline_best_req` demands of `n` segments it demands of every
/// shorter prefix.
pub proof fn lemma_polyline_req_prefix<T: ArithmeticGroup<T> + PartialOrd, F: Fn(T) -> T>(
    pt: Vector2<T>,
    pts: Seq<Vector2<T>>,
    sqrt: F,
    n: nat,
    m: nat,
)
    requires
        polyline_best_req(pt, pts, sqrt, n),
        m <= n,
    ensures
        polyline_best_req(pt, pts, sqrt, m),
    decreases n,
{
    if m < n {
        lemma_polyline_req_prefix(pt, pts, sqrt, (n - 1) as nat, m);
    }
}

/// The squared offset of `p` from `pt` along one axis, from coordinates.
pub fn gap_sqrd<T: ArithmeticGroup<T>>(from: T, to: T) -> (r: T)
    requires
        obeys_arithmetic::<T>(),
        to.sub_req(from),
        to.sub_spec(from).mul_req(to.sub_spec(from)),
    ensures
        r == to.sub_spec(from).mul_spec(to.sub_spec(from)),
{
    let d = to - from;
    d * d
}

/// The squared distance from `pt` to the nearest point of a polyline.
pub fn pt2polyline_sqrd<T: ArithmeticGroup<T> + PartialOrd, F: Fn(T) -> T>(
    pt: &Vector2<T>,
    polyline: &[Vector2<T>],
    sqrt: &F,
) -> (r: Option<T>)
    requires
        obeys_arithmetic::<T>(),
        obeys_order::<T>(),
        is_scalar_fn(*sqrt),
        polyline_req(*pt, polyline@, *sqrt),
    ensures
        r == polyline_spec(*pt, polyline@, *sqrt),
{
    if polyline.len() == 0 {
        return None;
    }
    if polyline.len() == 1 {
        return Some(pt2pt_sqrd(pt, &polyline[0]));
    }
    let mut min_dist: Option<T> = None;
    let segments: usize = polyline.len() - 1;
    let mut i: usize = 0;
    while i < segments
        invariant
            obeys_arithmetic::<T>(),
            obeys_order::<T>(),
            is_scalar_fn(*sqrt),
            polyline@.len() >= 2,
            segments == polyline@.len() - 1,
            i <= segments,
            polyline_best_req(*pt, polyline@, *sqrt, (polyline@.len() - 1) as nat),
            min_dist == polyline_best(*pt, polyline@, *sqrt, i as nat),
        decreases polyline@.len() - i,
    {
        proof {
            lemma_polyline_req_prefix(
                *pt,
                polyline@,
                *sqrt,
                (polyline@.len() - 1) as nat,
                (i + 1) as nat,
            );
        }
        let a = polyline[i];
        let b = polyline[i + 1];
        match min_dist {
            None => {
                min_dist = Some(pt2ends_sqrd(pt, &a, &b, sqrt));
            },
            Some(d) => {
                let dx1 = gap_sqrd(pt.x(), a.x());
                let dx2 = gap_sqrd(pt.x(), b.x());
                let dy1 = gap_sqrd(pt.y(), a.y());
                let dy2 = gap_sqrd(pt.y(), b.y());
                let skip = (d < dx1 && d < dx2) || (d < dy1 && d < dy2);
                if !skip {
                    min_dist = Some(min_of(d, pt2ends_sqrd(pt, &a, &b, sqrt)));
                }
            },
        }
        i = i + 1;
    }
    min_dist
}

/// The squared distance from `pt` to a closed polygon: the smaller of the
/// distance to the polyline and that to the closing edge, from the first
/// point to the last. `None` for fewer than two points.
pub open spec fn polygon_spec<T: ArithmeticGroup<T> + PartialOrd, F: Fn(T) -> T>(
    pt: Vector2<T>,
    pts: Seq<Vector2<T>>,
    sqrt: F,
) -> Option<T> {
    if pts.len() <= 1 {
        None
    } else {
        Some(
            at_most(
                match polyline_spec(pt, pts, sqrt) {
                    Some(d) => d,
                    None => T::zero_spec(),
                },
                seg_dist(pt, pts[0], pts[pts.len() - 1], sqrt),
            ),
        )
    }
}

pub fn pt2polygon_sqrd<T: ArithmeticGroup<T> + PartialOrd, F: Fn(T) -> T>(
    pt: &Vector2<T>,
    polygon: &[Vector2<T>],
    sqrt: &F,
) -> (r: Option<T>)
    requires
        obeys_arithmetic::<T>(),
        obeys_order::<T>(),
        is_scalar_fn(*sqrt),
        polyline_req(*pt, polygon@, *sqrt),
        polygon@.len() >= 2 ==> seg_dist_req(*pt, polygon@[0], polygon@[polygon@.len() - 1], *sqrt),
    ensures
        r == polygon_spec(*pt, polygon@, *sqrt),
{
    if polygon.len() <= 1 {
        None
    } else {
        let open = match pt2polyline_sqrd(pt, polygon, sqrt) {
            Some(d) => d,
            None => T::zero(),
        };
        let first = polygon[0];
        let last = polygon[polygon.len() - 1];
        Some(min_of(open, pt2ends_sqrd(pt, &first, &last, sqrt)))
    }
}

/// The offset of the start of `l2` from `l1`, measured along the normal of
/// `l1`: `|(l1.start - l2.start) . normal|`.
pub open spec fn offset_along_normal<T: ArithmeticGroup<T> + PartialOrd, F: Fn(T) -> T>(
    l1: Linear2D<T>,
    l2: Linear2D<T>,
    sqrt: F,
) -> T {
    abs_spec(l1.start.sub_spec(l2.start).dot_with(&l1.normal_spec(sqrt)))
}

pub open spec fn offset_along_normal_req<T: ArithmeticGroup<T> + PartialOrd, F: Fn(T) -> T>(
    l1: Linear2D<T>,
    l2: Linear2D<T>,
    sqrt: F,
) -> bool {
    &&& l1.normal_req(sqrt)
    &&& SubSpec::sub_req(l1.start, l2.start)
    &&& l1.start.sub_spec(l2.start).dot_with_req(&l1.normal_spec(sqrt))
    &&& abs_req(l1.start.sub_spec(l2.start).dot_with(&l1.normal_spec(sqrt)))
}

/// Whether the directions are parallel to six decimal digits.
pub open spec fn nearly_parallel<T: ArithmeticGroup<T> + PartialOrd, G: Fn(T) -> T>(
    l1: Linear2D<T>,
    l2: Linear2D<T>,
    trunc: G,
) -> bool {
    approx_equal_spec(l1.dir.cross_spec(&l2.dir), T::zero_spec(), 6, trunc)
}

/// The squared distance of two parallel lines, the square of their offset
/// along the normal; `None` for lines that are not parallel, which cross.
pub open spec fn line2line_spec<T: ArithmeticGroup<T> + PartialOrd, F: Fn(T) -> T, G: Fn(T) -> T>(
    l1: Linear2D<T>,
    l2: Linear2D<T>,
    sqrt: F,
    trunc: G,
) -> Option<T> {
    if nearly_parallel(l1, l2, trunc) {
        Some(offset_along_normal(l1, l2, sqrt).mul_spec(offset_along_normal(l1, l2, sqrt)))
    } else {
        None
    }
}

pub open spec fn line2line_req<T: ArithmeticGroup<T> + PartialOrd, F: Fn(T) -> T, G: Fn(T) -> T>(
    l1: Linear2D<T>,
    l2: Linear2D<T>,
    sqrt: F,
    trunc: G,
) -> bool {
    &&& l1.dir.cross_req(&l2.dir)
    &&& approx_equal_req(l1.dir.cross_spec(&l2.dir), T::zero_spec(), 6)
    &&& nearly_parallel(l1, l2, trunc) ==> {
        &&& offset_along_normal_req(l1, l2, sqrt)
        &&& offset_along_normal(l1, l2, sqrt).mul_req(offset_along_normal(l1, l2, sqrt))
    }
}

/// The squared distance between two linear primitives taken as lines.
pub fn linear2linear_sqrd<T: ArithmeticGroup<T> + PartialOrd, F: Fn(T) -> T, G: Fn(T) -> T>(
    l1: &Linear2D<T>,
    l2: &Linear2D<T>,
    sqrt: &F,
    trunc: &G,
) -> (r: Option<T>)
    requires
        obeys_arithmetic::<T>(),
        obeys_order::<T>(),
        is_scalar_fn(*sqrt),
        is_scalar_fn(*trunc),
        line2line_req(*l1, *l2, *sqrt, *trunc),
    ensures
        r == line2line_spec(*l1, *l2, *sqrt, *trunc),
{
    if !l1.is_parallel_approx(l2, 6, trunc) {
        return None;
    }
    let h = abs_of((l1.start - l2.start).dot(&l1.normal(sqrt)));
    Some(h * h)
}

pub fn line2line_sqrd<T: ArithmeticGroup<T> + PartialOrd, F: Fn(T) -> T, G: Fn(T) -> T>(
    l1: &Line2D<T>,
    l2: &Line2D<T>,
    sqrt: &F,
    trunc: &G,
) -> (r: Option<T>)
    requires
        obeys_arithmetic::<T>(),
        obeys_order::<T>(),
        is_scalar_fn(*sqrt),
        is_scalar_fn(*trunc),
        line2line_req(l1.0, l2.0, *sqrt, *trunc),
    ensures
        r == line2line_spec(l1.0, l2.0, *sqrt, *trunc),
{
    linear2linear_sqrd(&l1.0, &l2.0, sqrt, trunc)
}

/// The normal of `l`, turned to the side of `l` on which `p` lies.
pub open spec fn normal_toward<T: ArithmeticGroup<T> + PartialOrd, F: Fn(T) -> T>(
    l: Linear2D<T>,
    p: Vector2<T>,
    sqrt: F,
) -> Vector2<T> {
    if less_eq(T::zero_spec(), p.sub_spec(l.start).dot_with(&l.normal_spec(sqrt))) {
        l.normal_spec(sqrt)
    } else {
        l.normal_spec(sqrt).neg_spec()
    }
}

/// The squared distance from a ray to a line. Parallel: that of the two
/// lines. Otherwise: the squared distance of the ray's start from the
/// line where the ray points away from the line, `None` where it points
/// toward the line and so crosses it.
pub open spec fn ray2line_spec<T: ArithmeticGroup<T> + PartialOrd, F: Fn(T) -> T, G: Fn(T) -> T>(
    l: Linear2D<T>,
    ray: Linear2D<T>,
    sqrt: F,
    trunc: G,
) -> Option<T> {
    match line2line_spec(l, ray, sqrt, trunc) {
        Some(d) => Some(d),
        None => if less_eq(T::zero_spec(), ray.dir.dot_with(&normal_toward(l, ray.start, sqrt))) {
            Some(dist_sqrd(pt2line_spec(ray.start, l.start, l.dir), ray.start))
        } else {
            None
        },
    }
}

pub open spec fn ray2line_req<T: ArithmeticGroup<T> + PartialOrd, F: Fn(T) -> T, G: Fn(T) -> T>(
    l: Linear2D<T>,
    ray: Linear2D<T>,
    sqrt: F,
    trunc: G,
) -> bool {
    let n = l.normal_spec(sqrt);
    &&& line2line_req(l, ray, sqrt, trunc)
    &&& !nearly_parallel(l, ray, trunc) ==> {
        &&& l.normal_req(sqrt)
        &&& SubSpec::sub_req(ray.start, l.start)
        &&& ray.start.sub_spec(l.start).dot_with_req(&n)
        &&& !less_eq(T::zero_spec(), ray.start.sub_spec(l.start).dot_with(&n)) ==> NegSpec::neg_req(n)
        &&& ray.dir.dot_with_req(&normal_toward(l, ray.start, sqrt))
        &&& less_eq(T::zero_spec(), ray.dir.dot_with(&normal_toward(l, ray.start, sqrt))) ==> {
            &&& pt2line_param_req(ray.start, l.start, l.dir)
            &&& point_at_req(l.start, l.dir, pt2line_param_spec(ray.start, l.start, l.dir))
            &&& dist_sqrd_req(pt2line_spec(ray.start, l.start, l.dir), ray.start)
        }
    }
}

pub fn ray2line_sqrd<T: ArithmeticGroup<T> + PartialOrd, F: Fn(T) -> T, G: Fn(T) -> T>(
    l: &Line2D<T>,
    ray: &Ray2D<T>,
    sqrt: &F,
    trunc: &G,
) -> (r: Option<T>)
    requires
        obeys_arithmetic::<T>(),
        obeys_order::<T>(),
        is_scalar_fn(*sqrt),
        is_scalar_fn(*trunc),
        ray2line_req(l.0, ray.0, *sqrt, *trunc),
    ensures
        r == ray2line_spec(l.0, ray.0, *sqrt, *trunc),
{
    match linear2linear_sqrd(&l.0, &ray.0, sqrt, trunc) {
        Some(dist) => Some(dist),
        None => {
            let zero = T::zero();
            let n = l.0.normal(sqrt);
            let normal = if zero <= (ray.0.start - l.0.start).dot(&n) {
                n
            } else {
                n.neg()
            };
            if zero <= ray.0.dir.dot(&normal) {
                Some(pt2line_sqrd(&ray.0.start, l))
            } else {
                None
            }
        },
    }
}

/// On which side of the line `l` the point `p` lies: the sign of
/// `(p - l.start) x l.dir`.
pub open spec fn side_of_line<T: ArithmeticGroup<T>>(l: Linear2D<T>, p: Vector2<T>) -> T {
    p.sub_spec(l.start).cross_spec(&l.dir)
}

pub open spec fn side_of_line_req<T: ArithmeticGroup<T>>(l: Linear2D<T>, p: Vector2<T>) -> bool {
    &&& SubSpec::sub_req(p, l.start)
    &&& p.sub_spec(l.start).cross_req(&l.dir)
}

/// Evaluates `side_of_line`.
pub fn line_side<T: ArithmeticGroup<T>>(l: &Linear2D<T>, p: &Vector2<T>) -> (r: T)
    requires
        obeys_arithmetic::<T>(),
        side_of_line_req(*l, *p),
    ensures
        r == side_of_line(*l, *p),
{
    (*p - l.start).cross(&l.dir)
}

/// Whether the segment crosses the line: its two ends lie strictly on
/// opposite sides, the product of their sides being negative.
pub open spec fn seg_crosses<T: ArithmeticGroup<T> + PartialOrd>(
    l: Linear2D<T>,
    seg: Linear2D<T>,
) -> bool {
    less(side_of_line(l, seg.start).mul_spec(side_of_line(l, far_end(seg))), T::zero_spec())
}

/// The squared distance from a line to a segment: `None` where the segment
/// crosses the line, else the smaller of the squared distances of its two
/// ends from the line.
pub open spec fn line2seg_spec<T: ArithmeticGroup<T> + PartialOrd>(
    l: Linear2D<T>,
    seg: Linear2D<T>,
) -> Option<T> {
    if seg_crosses(l, seg) {
        None
    } else {
        Some(
            at_most(
                dist_sqrd(pt2line_spec(seg.start, l.start, l.dir), seg.start),
                dist_sqrd(pt2line_spec(far_end(seg), l.start, l.dir), far_end(seg)),
            ),
        )
    }
}

/// The distance of `p` from the line can be formed.
pub open spec fn line_dist_req<T: ArithmeticGroup<T>>(p: Vector2<T>, l: Linear2D<T>) -> bool {
    &&& pt2line_param_req(p, l.start, l.dir)
    &&& point_at_req(l.start, l.dir, pt2line_param_spec(p, l.start, l.dir))
    &&& dist_sqrd_req(pt2line_spec(p, l.start, l.dir), p)
}

/// The far end and the side of each end can be formed and, for a segment
/// that does not cross the line, so can the distance of each end.
pub open spec fn line2seg_req<T: ArithmeticGroup<T> + PartialOrd>(
    l: Linear2D<T>,
    seg: Linear2D<T>,
) -> bool {
    &&& point_at_req(seg.start, seg.dir, seg.len)
    &&& side_of_line_req(l, seg.start)
    &&& side_of_line_req(l, far_end(seg))
    &&& side_of_line(l, seg.start).mul_req(side_of_line(l, far_end(seg)))
    &&& !seg_crosses(l, seg) ==> line_dist_req(seg.start, l) && line_dist_req(far_end(seg), l)
}

pub fn line2seg_sqrd<T: ArithmeticGroup<T> + PartialOrd>(l: &Line2D<T>, seg: &Segment2D<T>) -> (r:
    Option<T>)
    requires
        obeys_arithmetic::<T>(),
        obeys_order::<T>(),
        line2seg_req(l.0, seg.0),
    ensures
        r == line2seg_spec(l.0, seg.0),
{
    let end = point_on(&seg.0.start, &seg.0.dir, seg.0.len);
    let zero = T::zero();
    if line_side(&l.0, &seg.0.start) * line_side(&l.0, &end) < zero {
        None
    } else {
        Some(min_of(pt2line_sqrd(&seg.0.start, l), pt2line_sqrd(&end, l)))
    }
}

/// The squared distance from a point to a triangle: that from the point to
/// the nearest point of the triangle, zero for a point the triangle
/// contains.
pub open spec fn pt2triangle_sqrd_spec<T: ArithmeticGroup<T> + PartialOrd, F: Fn(T) -> T>(
    pt: Vector2<T>,
    triangle: Triangle2D<T>,
    sqrt: F,
) -> Option<T> {
    Some(dist_sqrd(pt2triangle_spec(pt, triangle, sqrt), pt))
}

pub fn pt2triangle_sqrd<T: ArithmeticGroup<T> + PartialOrd, F: Fn(T) -> T>(
    pt: &Vector2<T>,
    triangle: &Triangle2D<T>,
    sqrt: &F,
) -> (r: Option<T>)
    requires
        obeys_arithmetic::<T>(),
        obeys_order::<T>(),
        is_scalar_fn(*sqrt),
        pt2triangle_req(*pt, *triangle, *sqrt),
        dist_sqrd_req(pt2triangle_spec(*pt, *triangle, *sqrt), *pt),
    ensures
        r == pt2triangle_sqrd_spec(*pt, *triangle, *sqrt),
{
    let nearest = pt2triangle(pt, triangle, sqrt);
    Some(pt2pt_sqrd(&nearest, pt))
}

/// The squared distance from `pt` to the nearest point of the bounded
/// piece `s`.
pub open spec fn to_segment<T: ArithmeticGroup<T> + PartialOrd>(pt: Vector2<T>, s: Linear2D<T>) -> T {
    dist_sqrd(pt2segment_spec(pt, Segment::<T, 2>(s)), pt)
}

pub open spec fn to_segment_req<T: ArithmeticGroup<T> + PartialOrd>(
    pt: Vector2<T>,
    s: Linear2D<T>,
) -> bool {
    &&& pt2line_param_req(pt, s.start, s.dir)
    &&& point_at_req(s.start, s.dir, pt2segment_param_spec(pt, Segment::<T, 2>(s)))
    &&& dist_sqrd_req(pt2segment_spec(pt, Segment::<T, 2>(s)), pt)
}

/// The squared distance from `pt` to the nearest point of the ray `r`.
pub open spec fn to_ray<T: ArithmeticGroup<T> + PartialOrd>(pt: Vector2<T>, r: Linear2D<T>) -> T {
    dist_sqrd(pt2ray_spec(pt, Ray::<T, 2>(r)), pt)
}

pub open spec fn to_ray_req<T: ArithmeticGroup<T> + PartialOrd>(pt: Vector2<T>, r: Linear2D<T>) -> bool {
    &&& pt2line_param_req(pt, r.start, r.dir)
    &&& point_at_req(r.start, r.dir, pt2ray_param_spec(pt, Ray::<T, 2>(r)))
    &&& dist_sqrd_req(pt2ray_spec(pt, Ray::<T, 2>(r)), pt)
}

/// Whether two segments cross: their lines cross, at a parameter that lies
/// on each segment. Parallel segments do not cross, even where they lie on
/// one line.
pub open spec fn segs_cross<T: ArithmeticGroup<T> + PartialOrd, G: Fn(T) -> T>(
    s1: Linear2D<T>,
    s2: Linear2D<T>,
    trunc: G,
) -> bool {
    &&& seg_param_spec(s1, s2, trunc).is_some()
    &&& seg_param_spec(s2, s1, trunc).is_some()
}

/// The far end of a segment, `start + dir * len`.
pub open spec fn far_end<T: ArithmeticGroup<T>>(s: Linear2D<T>) -> Vector2<T> {
    point_at(s.start, s.dir, s.len)
}

/// The squared distance between two segments: `None` where they cross, else
/// the least of the squared distances from each end of one to the other
/// segment. For segments that do not cross, the distance is attained at an
/// end.
pub open spec fn seg2seg_spec<T: ArithmeticGroup<T> + PartialOrd, G: Fn(T) -> T>(
    s1: Linear2D<T>,
    s2: Linear2D<T>,
    trunc: G,
) -> Option<T> {
    if segs_cross(s1, s2, trunc) {
        None
    } else {
        Some(
            at_most(
                at_most(
                    at_most(to_segment(s2.start, s1), to_segment(far_end(s2), s1)),
                    to_segment(s1.start, s2),
                ),
                to_segment(far_end(s1), s2),
            ),
        )
    }
}

/// The crossing test can be formed and, for segments that do not cross, so
/// can the ends and the four distances.
pub open spec fn seg2seg_req<T: ArithmeticGroup<T> + PartialOrd, G: Fn(T) -> T>(
    s1: Linear2D<T>,
    s2: Linear2D<T>,
    trunc: G,
) -> bool {
    &&& line_param_req(s1, s2, trunc)
    &&& seg_param_spec(s1, s2, trunc).is_some() ==> line_param_req(s2, s1, trunc)
    &&& !segs_cross(s1, s2, trunc) ==> {
        &&& point_at_req(s1.start, s1.dir, s1.len)
        &&& point_at_req(s2.start, s2.dir, s2.len)
        &&& to_segment_req(s2.start, s1)
        &&& to_segment_req(far_end(s2), s1)
        &&& to_segment_req(s1.start, s2)
        &&& to_segment_req(far_end(s1), s2)
    }
}

pub fn seg2seg_sqrd<T: ArithmeticGroup<T> + PartialOrd, G: Fn(T) -> T>(
    s1: &Segment2D<T>,
    s2: &Segment2D<T>,
    trunc: &G,
) -> (r: Option<T>)
    requires
        obeys_arithmetic::<T>(),
        obeys_order::<T>(),
        is_scalar_fn(*trunc),
        seg2seg_req(s1.0, s2.0, *trunc),
    ensures
        r == seg2seg_spec(s1.0, s2.0, *trunc),
{
    if line_seg_intersect_param(s1, &Line(s2.0), trunc).is_some() {
        if line_seg_intersect_param(s2, &Line(s1.0), trunc).is_some() {
            return None;
        }
    }
    let end1 = point_on(&s1.0.start, &s1.0.dir, s1.0.len);
    let end2 = point_on(&s2.0.start, &s2.0.dir, s2.0.len);
    let a = pt2seg_sqrd(&s2.0.start, s1);
    let b = pt2seg_sqrd(&end2, s1);
    let c = pt2seg_sqrd(&s1.0.start, s2);
    let d = pt2seg_sqrd(&end1, s2);
    Some(min_of(min_of(min_of(a, b), c), d))
}

/// The squared distance between two rays: `None` where they meet, else the
/// smaller of the squared distances from the start of each to the other
/// ray. For rays that do not meet, the distance is attained at a start.
pub open spec fn ray2ray_spec<T: ArithmeticGroup<T> + PartialOrd, G: Fn(T) -> T>(
    r1: Linear2D<T>,
    r2: Linear2D<T>,
    trunc: G,
) -> Option<T> {
    if rays_intersect_spec(r1, r2, trunc).is_some() {
        None
    } else {
        Some(at_most(to_ray(r1.start, r2), to_ray(r2.start, r1)))
    }
}

pub open spec fn ray2ray_req<T: ArithmeticGroup<T> + PartialOrd, G: Fn(T) -> T>(
    r1: Linear2D<T>,
    r2: Linear2D<T>,
    trunc: G,
) -> bool {
    &&& rays_intersect_req(r1, r2, trunc)
    &&& rays_intersect_spec(r1, r2, trunc).is_none() ==> {
        &&& to_ray_req(r1.start, r2)
        &&& to_ray_req(r2.start, r1)
    }
}

pub fn ray2ray_sqrd<T: ArithmeticGroup<T> + PartialOrd, G: Fn(T) -> T>(
    r1: &Ray2D<T>,
    r2: &Ray2D<T>,
    trunc: &G,
) -> (r: Option<T>)
    requires
        obeys_arithmetic::<T>(),
        obeys_order::<T>(),
        is_scalar_fn(*trunc),
        ray2ray_req(r1.0, r2.0, *trunc),
    ensures
        r == ray2ray_spec(r1.0, r2.0, *trunc),
{
    if rays_intersect(r1, r2, trunc).is_some() {
        return None;
    }
    Some(min_of(pt2ray_sqrd(&r1.0.start, r2), pt2ray_sqrd(&r2.0.start, r1)))
}

/// The squared distance between a ray and a segment: `None` where they
/// meet, else the least of the squared distances from each end of the
/// segment to the ray and from the start of the ray to the segment.
pub open spec fn ray2seg_spec<T: ArithmeticGroup<T> + PartialOrd, G: Fn(T) -> T>(
    ray: Linear2D<T>,
    seg: Linear2D<T>,
    trunc: G,
) -> Option<T> {
    if ray_seg_spec(seg, ray, trunc).is_some() {
        None
    } else {
        Some(
            at_most(
                at_most(to_ray(seg.start, ray), to_ray(far_end(seg), ray)),
                to_segment(ray.start, seg),
            ),
        )
    }
}

pub open spec fn ray2seg_req<T: ArithmeticGroup<T> + PartialOrd, G: Fn(T) -> T>(
    ray: Linear2D<T>,
    seg: Linear2D<T>,
    trunc: G,
) -> bool {
    &&& ray_seg_req(seg, ray, trunc)
    &&& ray_seg_spec(seg, ray, trunc).is_none() ==> {
        &&& point_at_req(seg.start, seg.dir, seg.len)
        &&& to_ray_req(seg.start, ray)
        &&& to_ray_req(far_end(seg), ray)
        &&& to_segment_req(ray.start, seg)
    }
}

pub fn ray2seg_sqrd<T: ArithmeticGroup<T> + PartialOrd, G: Fn(T) -> T>(
    ray: &Ray2D<T>,
    seg: &Segment2D<T>,
    trunc: &G,
) -> (r: Option<T>)
    requires
        obeys_arithmetic::<T>(),
        obeys_order::<T>(),
        is_scalar_fn(*trunc),
        ray2seg_req(ray.0, seg.0, *trunc),
    ensures
        r == ray2seg_spec(ray.0, seg.0, *trunc),
{
    if is_ray_seg_intersect(ray, seg, trunc) {
        return None;
    }
    let end = point_on(&seg.0.start, &seg.0.dir, seg.0.len);
    let a = pt2ray_sqrd(&seg.0.start, ray);
    let b = pt2ray_sqrd(&end, ray);
    let c = pt2seg_sqrd(&ray.0.start, seg);
    Some(min_of(min_of(a, b), c))
}

} // verus!
