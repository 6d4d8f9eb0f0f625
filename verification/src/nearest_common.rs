//! Nearest point on a line, a ray or a segment, in any dimension.
//!
//! Each primitive is the set of points `start + dir * t`. The parameter of
//! the nearest point is the projection `(pt - start) . dir`, clamped to the
//! primitive's range of `t`.
use crate::arithmetic::at_least;
use crate::arithmetic::clamp_to;
use crate::arithmetic::clamped;
use crate::arithmetic::max_of;
use crate::arithmetic::obeys_arithmetic;
use crate::arithmetic::obeys_order;
use crate::arithmetic::ArithmeticGroup;
use crate::arithmetic::Zero;
use crate::geom_common::Ray;
use crate::geom_common::Segment;
use crate::matrix::Vector;
use vstd::prelude::*;
use vstd::std_specs::ops::AddSpec;
use vstd::std_specs::ops::MulSpec;
use vstd::std_specs::ops::SubSpec;

verus! {

/// The signed projection `(pt - start) . dir`.
pub open spec fn pt2line_param_spec<T: ArithmeticGroup<T>, const DIM: usize>(
    pt: Vector<T, DIM>,
    start: Vector<T, DIM>,
    dir: Vector<T, DIM>,
) -> T {
    pt.sub_spec(start).dot_with(&dir)
}

/// The difference and the dot product of `pt2line_param_spec` are within
/// the scalar's limits.
pub open spec fn pt2line_param_req<T: ArithmeticGroup<T>, const DIM: usize>(
    pt: Vector<T, DIM>,
    start: Vector<T, DIM>,
    dir: Vector<T, DIM>,
) -> bool {
    &&& SubSpec::sub_req(pt, start)
    &&& pt.sub_spec(start).dot_with_req(&dir)
}

/// The point `start + dir * t`.
pub open spec fn point_at<T: ArithmeticGroup<T>, const DIM: usize>(
    start: Vector<T, DIM>,
    dir: Vector<T, DIM>,
    t: T,
) -> Vector<T, DIM> {
    start.add_spec(MulSpec::<T>::mul_spec(dir, t))
}

/// The product and the sum of `point_at` are within the scalar's limits.
pub open spec fn point_at_req<T: ArithmeticGroup<T>, const DIM: usize>(
    start: Vector<T, DIM>,
    dir: Vector<T, DIM>,
    t: T,
) -> bool {
    &&& MulSpec::<T>::mul_req(dir, t)
    &&& AddSpec::add_req(start, MulSpec::<T>::mul_spec(dir, t))
}

/// The parameter of the point of a ray nearest to `pt`: the projection, or
/// zero where the projection is negative.
pub open spec fn pt2ray_param_spec<T: ArithmeticGroup<T> + PartialOrd, const DIM: usize>(
    pt: Vector<T, DIM>,
    ray: Ray<T, DIM>,
) -> T {
    at_least(pt2line_param_spec(pt, ray.0.start, ray.0.dir), T::zero_spec())
}

/// The parameter of the point of a segment nearest to `pt`: the projection
/// clamped to `[0, len]`.
pub open spec fn pt2segment_param_spec<T: ArithmeticGroup<T> + PartialOrd, const DIM: usize>(
    pt: Vector<T, DIM>,
    seg: Segment<T, DIM>,
) -> T {
    clamped(pt2line_param_spec(pt, seg.0.start, seg.0.dir), T::zero_spec(), seg.0.len)
}

/// The point of a segment nearest to `pt`.
pub open spec fn pt2segment_spec<T: ArithmeticGroup<T> + PartialOrd, const DIM: usize>(
    pt: Vector<T, DIM>,
    seg: Segment<T, DIM>,
) -> Vector<T, DIM> {
    point_at(seg.0.start, seg.0.dir, pt2segment_param_spec(pt, seg))
}

/// The point of a ray nearest to `pt`.
pub open spec fn pt2ray_spec<T: ArithmeticGroup<T> + PartialOrd, const DIM: usize>(
    pt: Vector<T, DIM>,
    ray: Ray<T, DIM>,
) -> Vector<T, DIM> {
    point_at(ray.0.start, ray.0.dir, pt2ray_param_spec(pt, ray))
}

/// The point of a line nearest to `pt`.
pub open spec fn pt2line_spec<T: ArithmeticGroup<T>, const DIM: usize>(
    pt: Vector<T, DIM>,
    start: Vector<T, DIM>,
    dir: Vector<T, DIM>,
) -> Vector<T, DIM> {
    point_at(start, dir, pt2line_param_spec(pt, start, dir))
}

/// The point `start + dir * t`.
pub fn point_on<T: ArithmeticGroup<T>, const DIM: usize>(
    start: &Vector<T, DIM>,
    dir: &Vector<T, DIM>,
    t: T,
) -> (r: Vector<T, DIM>)
    requires
        obeys_arithmetic::<T>(),
        point_at_req(*start, *dir, t),
    ensures
        r == point_at(*start, *dir, t),
{
    *start + *dir * t
}

/// The unclamped parameter of the projection of `pt` on the line through
/// `start` along the unit vector `dir`.
pub fn pt2line_param<T: ArithmeticGroup<T>, const DIM: usize>(
    pt: &Vector<T, DIM>,
    start: &Vector<T, DIM>,
    dir: &Vector<T, DIM>,
) -> (r: T)
    requires
        obeys_arithmetic::<T>(),
        pt2line_param_req(*pt, *start, *dir),
    ensures
        r == pt2line_param_spec(*pt, *start, *dir),
{
    (*pt - *start).dot(dir)
}

/// The projection of `pt` on the line through `start` along `dir`.
pub fn pt2line<T: ArithmeticGroup<T>, const DIM: usize>(
    pt: &Vector<T, DIM>,
    start: &Vector<T, DIM>,
    dir: &Vector<T, DIM>,
) -> (r: Vector<T, DIM>)
    requires
        obeys_arithmetic::<T>(),
        pt2line_param_req(*pt, *start, *dir),
        point_at_req(*start, *dir, pt2line_param_spec(*pt, *start, *dir)),
    ensures
        r == pt2line_spec(*pt, *start, *dir),
{
    let t = pt2line_param(pt, start, dir);
    point_on(start, dir, t)
}

pub fn pt2ray_param<T: ArithmeticGroup<T> + PartialOrd, const DIM: usize>(
    pt: &Vector<T, DIM>,
    ray: &Ray<T, DIM>,
) -> (r: T)
    requires
        obeys_arithmetic::<T>(),
        obeys_order::<T>(),
        pt2line_param_req(*pt, ray.0.start, ray.0.dir),
    ensures
        r == pt2ray_param_spec(*pt, *ray),
{
    let t = pt2line_param(pt, &ray.0.start, &ray.0.dir);
    max_of(t, T::zero())
}

pub fn pt2ray<T: ArithmeticGroup<T> + PartialOrd, const DIM: usize>(
    pt: &Vector<T, DIM>,
    ray: &Ray<T, DIM>,
) -> (r: Vector<T, DIM>)
    requires
        obeys_arithmetic::<T>(),
        obeys_order::<T>(),
        pt2line_param_req(*pt, ray.0.start, ray.0.dir),
        point_at_req(ray.0.start, ray.0.dir, pt2ray_param_spec(*pt, *ray)),
    ensures
        r == pt2ray_spec(*pt, *ray),
{
    let t = pt2ray_param(pt, ray);
    point_on(&ray.0.start, &ray.0.dir, t)
}

pub fn pt2segment_param<T: ArithmeticGroup<T> + PartialOrd, const DIM: usize>(
    pt: &Vector<T, DIM>,
    seg: &Segment<T, DIM>,
) -> (r: T)
    requires
        obeys_arithmetic::<T>(),
        obeys_order::<T>(),
        pt2line_param_req(*pt, seg.0.start, seg.0.dir),
    ensures
        r == pt2segment_param_spec(*pt, *seg),
{
    let t = pt2line_param(pt, &seg.0.start, &seg.0.dir);
    clamp_to(t, T::zero(), seg.0.len)
}

pub fn pt2segment<T: ArithmeticGroup<T> + PartialOrd, const DIM: usize>(
    pt: &Vector<T, DIM>,
    seg: &Segment<T, DIM>,
) -> (r: Vector<T, DIM>)
    requires
        obeys_arithmetic::<T>(),
        obeys_order::<T>(),
        pt2line_param_req(*pt, seg.0.start, seg.0.dir),
        point_at_req(seg.0.start, seg.0.dir, pt2segment_param_spec(*pt, *seg)),
    ensures
        r == pt2segment_spec(*pt, *seg),
{
    let t = pt2segment_param(pt, seg);
    point_on(&seg.0.start, &seg.0.dir, t)
}

} // verus!
