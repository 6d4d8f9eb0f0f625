//! A second point of a plane.
use crate::arithmetic::obeys_arithmetic;
use crate::arithmetic::obeys_order;
use crate::arithmetic::ArithmeticGroup;
use crate::arithmetic::Identity;
use crate::arithmetic::Zero;
use crate::matrix::Vector3;
use crate::utility::approx_equal;
use crate::utility::approx_equal_req;
use crate::utility::approx_equal_spec;
use crate::utility::is_scalar_fn;
use vstd::prelude::*;
use vstd::std_specs::ops::AddSpec;
use vstd::std_specs::ops::DivSpec;
use vstd::std_specs::ops::MulSpec;
use vstd::std_specs::ops::SubSpec;

verus! {

/// Whether a component of the normal is zero to five decimal digits.
pub open spec fn vanishes<T: ArithmeticGroup<T> + PartialOrd, G: Fn(T) -> T>(v: T, trunc: G) -> bool {
    approx_equal_spec(T::zero_spec(), v, 5, trunc)
}

/// The z coordinate that puts `(x, y, z)` on the plane,
/// `(normal . pt - (normal.x * x + normal.y * y)) / normal.z`.
pub open spec fn solved_z<T: ArithmeticGroup<T>>(normal: Vector3<T>, pt: Vector3<T>, x: T, y: T) -> T {
    normal.dot_with(&pt).sub_spec(
        normal.at(0, 0).mul_spec(x).add_spec(normal.at(0, 1).mul_spec(y)),
    ).div_spec(normal.at(0, 2))
}

pub open spec fn solved_z_req<T: ArithmeticGroup<T>>(
    normal: Vector3<T>,
    pt: Vector3<T>,
    x: T,
    y: T,
) -> bool {
    &&& normal.at(0, 0).mul_req(x)
    &&& normal.at(0, 1).mul_req(y)
    &&& normal.at(0, 0).mul_spec(x).add_req(normal.at(0, 1).mul_spec(y))
    &&& normal.dot_with(&pt).sub_req(
        normal.at(0, 0).mul_spec(x).add_spec(normal.at(0, 1).mul_spec(y)),
    )
    &&& normal.dot_with(&pt).sub_spec(
        normal.at(0, 0).mul_spec(x).add_spec(normal.at(0, 1).mul_spec(y)),
    ).div_req(normal.at(0, 2))
}

/// The components of the point that `get_arbitrary_from_plane` returns.
///
/// With `x = pt.x + 1` and `y = pt.y + 1`: where `normal.z` does not
/// vanish, `(x, y, solved_z)`; else where `normal.y` does not vanish,
/// `(x, y, 0)`; else `(0, y, pt.z + 1)`.
pub open spec fn arbitrary_point<T: ArithmeticGroup<T> + PartialOrd, G: Fn(T) -> T>(
    normal: Vector3<T>,
    pt: Vector3<T>,
    trunc: G,
) -> Seq<T> {
    let x = pt.at(0, 0).add_spec(T::identity_spec());
    let y = pt.at(0, 1).add_spec(T::identity_spec());
    if !vanishes(normal.at(0, 2), trunc) {
        seq![x, y, solved_z(normal, pt, x, y)]
    } else if !vanishes(normal.at(0, 1), trunc) {
        seq![x, y, T::zero_spec()]
    } else {
        seq![T::zero_spec(), y, pt.at(0, 2).add_spec(T::identity_spec())]
    }
}

pub open spec fn arbitrary_point_req<T: ArithmeticGroup<T> + PartialOrd, G: Fn(T) -> T>(
    normal: Vector3<T>,
    pt: Vector3<T>,
    trunc: G,
) -> bool {
    let x = pt.at(0, 0).add_spec(T::identity_spec());
    let y = pt.at(0, 1).add_spec(T::identity_spec());
    &&& pt.at(0, 0).add_req(T::identity_spec())
    &&& pt.at(0, 1).add_req(T::identity_spec())
    &&& normal.dot_with_req(&pt)
    &&& approx_equal_req(T::zero_spec(), normal.at(0, 2), 5)
    &&& if !vanishes(normal.at(0, 2), trunc) {
        solved_z_req(normal, pt, x, y)
    } else {
        &&& approx_equal_req(T::zero_spec(), normal.at(0, 1), 5)
        &&& vanishes(normal.at(0, 1), trunc) ==> pt.at(0, 2).add_req(T::identity_spec())
    }
}

/// A point near `pt`, meant to lie on the plane through `pt` with the given
/// normal and to differ from `pt`.
pub fn get_arbitrary_from_plane<T: ArithmeticGroup<T> + PartialOrd, G: Fn(T) -> T>(
    normal: &Vector3<T>,
    pt: &Vector3<T>,
    trunc: &G,
) -> (r: Vector3<T>)
    requires
        obeys_arithmetic::<T>(),
        obeys_order::<T>(),
        is_scalar_fn(*trunc),
        arbitrary_point_req(*normal, *pt, *trunc),
    ensures
        r.elems() == arbitrary_point(*normal, *pt, *trunc),
{
    let one = T::identity();
    let zero = T::zero();
    let x = pt.x() + one;
    let y = pt.y() + one;
    let s = normal.dot(pt);
    if !approx_equal(zero, normal.z(), 5, trunc) {
        let z = (s - (normal.x() * x + normal.y() * y)) / normal.z();
        Vector3::from_xyz(x, y, z)
    } else if !approx_equal(zero, normal.y(), 5, trunc) {
        Vector3::from_xyz(x, y, zero)
    } else {
        Vector3::from_xyz(zero, y, pt.z() + one)
    }
}

} // verus!
