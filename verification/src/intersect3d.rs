//! Intersections in space: lines and rays against spheres.
use crate::arithmetic::obeys_arithmetic;
use crate::arithmetic::obeys_order;
use crate::arithmetic::ArithmeticGroup;
use crate::arithmetic::Identity;
use crate::geom3d::Line;
use crate::geom3d::Plane;
use crate::geom_common::Line3D;
use crate::geom_common::Ray3D;
use crate::geom_common::Sphere;
use crate::intersect_common::circular_roots;
use crate::intersect_common::clip_roots_to_ray;
use crate::intersect_common::ray_clip_spec;
use crate::intersect_common::roots_req;
use crate::intersect_common::roots_spec;
use crate::utility::is_scalar_fn;
use vstd::prelude::*;
use vstd::std_specs::ops::AddSpec;
use vstd::std_specs::ops::DivSpec;
use vstd::std_specs::ops::MulSpec;
use vstd::std_specs::ops::SubSpec;

verus! {

/// The parameters on the line of its intersections with the sphere.
pub fn line_sphere_intersect_param<T: ArithmeticGroup<T> + PartialOrd, F: Fn(T) -> T, G: Fn(T) -> T>(
    l: &Line3D<T>,
    c: &Sphere<T>,
    sqrt: &F,
    trunc: &G,
) -> (r: Option<(T, Option<T>)>)
    requires
        obeys_arithmetic::<T>(),
        obeys_order::<T>(),
        is_scalar_fn(*sqrt),
        is_scalar_fn(*trunc),
        roots_req(l.0, *c, *sqrt, *trunc),
    ensures
        r == roots_spec(l.0, *c, *sqrt, *trunc),
{
    circular_roots(&l.0, c, sqrt, trunc)
}

/// The parameters on the ray of its intersections with the sphere: the
/// roots of the ray's line that are not negative.
pub fn ray_sphere_intersect_param<T: ArithmeticGroup<T> + PartialOrd, F: Fn(T) -> T, G: Fn(T) -> T>(
    r: &Ray3D<T>,
    c: &Sphere<T>,
    sqrt: &F,
    trunc: &G,
) -> (res: Option<(T, Option<T>)>)
    requires
        obeys_arithmetic::<T>(),
        obeys_order::<T>(),
        is_scalar_fn(*sqrt),
        is_scalar_fn(*trunc),
        roots_req(r.0, *c, *sqrt, *trunc),
    ensures
        res == ray_clip_spec(roots_spec(r.0, *c, *sqrt, *trunc)),
{
    clip_roots_to_ray(circular_roots(&r.0, c, sqrt, trunc))
}

/// The offset of a plane from the origin along its normal, `normal . pt`.
pub open spec fn plane_offset<T: ArithmeticGroup<T> + PartialOrd>(p: Plane<T>) -> T {
    p.normal.dot_with(&p.pt)
}

/// `(n1 . n2)^2 - 1`, the determinant of the system solved for the point.
pub open spec fn planes_base<T: ArithmeticGroup<T> + PartialOrd>(first: Plane<T>, second: Plane<T>) -> T {
    first.normal.dot_with(&second.normal).mul_spec(first.normal.dot_with(&second.normal)).sub_spec(
        T::identity_spec(),
    )
}

/// The weight of the first normal in the point of the line,
/// `(s2 * dot - s1) / base`.
pub open spec fn planes_a<T: ArithmeticGroup<T> + PartialOrd>(first: Plane<T>, second: Plane<T>) -> T {
    plane_offset(second).mul_spec(first.normal.dot_with(&second.normal)).sub_spec(plane_offset(first)).div_spec(
        planes_base(first, second),
    )
}

/// The weight of the second normal, `(s1 * dot - s2) / base`.
pub open spec fn planes_b<T: ArithmeticGroup<T> + PartialOrd>(first: Plane<T>, second: Plane<T>) -> T {
    plane_offset(first).mul_spec(first.normal.dot_with(&second.normal)).sub_spec(plane_offset(second)).div_spec(
        planes_base(first, second),
    )
}

/// Every step of `planes_intersect` is within the scalar's limits; for a
/// scalar that cannot divide by zero this rules out parallel planes.
pub open spec fn planes_req<T: ArithmeticGroup<T> + PartialOrd>(first: Plane<T>, second: Plane<T>) -> bool {
    let dot = first.normal.dot_with(&second.normal);
    let s1 = plane_offset(first);
    let s2 = plane_offset(second);
    &&& first.normal.cross_req(&second.normal)
    &&& first.normal.dot_with_req(&first.pt)
    &&& second.normal.dot_with_req(&second.pt)
    &&& first.normal.dot_with_req(&second.normal)
    &&& dot.mul_req(dot)
    &&& dot.mul_spec(dot).sub_req(T::identity_spec())
    &&& s2.mul_req(dot)
    &&& s2.mul_spec(dot).sub_req(s1)
    &&& s2.mul_spec(dot).sub_spec(s1).div_req(planes_base(first, second))
    &&& s1.mul_req(dot)
    &&& s1.mul_spec(dot).sub_req(s2)
    &&& s1.mul_spec(dot).sub_spec(s2).div_req(planes_base(first, second))
    &&& MulSpec::<T>::mul_req(first.normal, planes_a(first, second))
    &&& MulSpec::<T>::mul_req(second.normal, planes_b(first, second))
    &&& AddSpec::add_req(
        MulSpec::<T>::mul_spec(first.normal, planes_a(first, second)),
        MulSpec::<T>::mul_spec(second.normal, planes_b(first, second)),
    )
}

/// The line in which two planes meet. Its direction is the cross product
/// of the normals. Its point is the combination `n1 * a + n2 * b` of the
/// normals that satisfies both plane equations `n . x = n . pt`.
pub fn planes_intersect<T: ArithmeticGroup<T> + PartialOrd>(first: &Plane<T>, second: &Plane<T>) -> (r: Line<
    T,
>)
    requires
        obeys_arithmetic::<T>(),
        planes_req(*first, *second),
    ensures
        r.dir.elems() == first.normal.cross_spec(&second.normal),
        r.start == MulSpec::<T>::mul_spec(first.normal, planes_a(*first, *second)).add_spec(
            MulSpec::<T>::mul_spec(second.normal, planes_b(*first, *second)),
        ),
{
    let dir = first.normal.cross(&second.normal);
    let s1 = first.normal.dot(&first.pt);
    let s2 = second.normal.dot(&second.pt);
    let dot = first.normal.dot(&second.normal);
    let base = dot * dot - T::identity();
    let a = (s2 * dot - s1) / base;
    let b = (s1 * dot - s2) / base;
    Line::new(first.normal * a + second.normal * b, dir)
}

} // verus!
