//! The intersection points of two circles.
//!
//! With `d` the distance of the centres: where `d^2` equals `(r1 + r2)^2`
//! or `(r1 - r2)^2` to six decimal digits the circles are tangent and touch
//! in one point on the line of centres. Otherwise the law of cosines gives
//! the angle between that line and the chord, and the two points lie
//! mirrored across the line of centres.
use crate::arithmetic::less;
use crate::arithmetic::obeys_arithmetic;
use crate::arithmetic::obeys_order;
use crate::arithmetic::two;
use crate::arithmetic::two_req;
use crate::arithmetic::two_spec;
use crate::arithmetic::ArithmeticGroup;
use crate::arithmetic::Identity;
use crate::arithmetic::Zero;
use crate::geom_common::Circle;
use crate::intersect_common::center_dist_sqrd;
use crate::intersect_common::circular_intersect_req;
use crate::intersect_common::radius_diff_sqrd;
use crate::intersect_common::radius_sum_sqrd;
use crate::matrix::Vector2;
use crate::utility::apply;
use crate::utility::approx_equal;
use crate::utility::approx_equal_req;
use crate::utility::approx_equal_spec;
use crate::utility::is_scalar_fn;
use crate::utility::value_of;
use std::ops::Neg;
use vstd::prelude::*;
use vstd::std_specs::ops::AddSpec;
use vstd::std_specs::ops::DivSpec;
use vstd::std_specs::ops::MulSpec;
use vstd::std_specs::ops::NegSpec;
use vstd::std_specs::ops::SubSpec;

verus! {

/// The vector from the first centre to the second.
pub open spec fn center_dir<T: ArithmeticGroup<T>>(c1: Circle<T>, c2: Circle<T>) -> Vector2<T> {
    c2.center.sub_spec(c1.center)
}

/// The point of the first circle in the direction `v` from its centre,
/// `v * r1 + center`.
pub open spec fn rim_point<T: ArithmeticGroup<T>>(c1: Circle<T>, v: Vector2<T>) -> Vector2<T> {
    MulSpec::<T>::mul_spec(v, c1.radius).add_spec(c1.center)
}

pub open spec fn rim_point_req<T: ArithmeticGroup<T>>(c1: Circle<T>, v: Vector2<T>) -> bool {
    &&& MulSpec::<T>::mul_req(v, c1.radius)
    &&& AddSpec::add_req(MulSpec::<T>::mul_spec(v, c1.radius), c1.center)
}

/// The numerator of the law of cosines, `d^2 + r1^2 - r2^2`.
pub open spec fn cos_num<T: ArithmeticGroup<T>>(c1: Circle<T>, c2: Circle<T>) -> T {
    center_dist_sqrd(c1, c2).add_spec(c1.radius.mul_spec(c1.radius)).sub_spec(
        c2.radius.mul_spec(c2.radius),
    )
}

/// Its denominator, `2 * r1 * d`.
pub open spec fn cos_den<T: ArithmeticGroup<T>, F: Fn(T) -> T>(
    c1: Circle<T>,
    c2: Circle<T>,
    sqrt: F,
) -> T {
    two_spec::<T>().mul_spec(c1.radius).mul_spec(value_of(sqrt, center_dist_sqrd(c1, c2)))
}

/// The cosine of the angle at the first centre between the line of centres
/// and the direction of an intersection point.
pub open spec fn chord_cos<T: ArithmeticGroup<T>, F: Fn(T) -> T>(
    c1: Circle<T>,
    c2: Circle<T>,
    sqrt: F,
) -> T {
    cos_num(c1, c2).div_spec(cos_den(c1, c2, sqrt))
}

/// The sine of that angle, `sqrt(1 - cos^2)`.
pub open spec fn chord_sin<T: ArithmeticGroup<T>, F: Fn(T) -> T>(
    c1: Circle<T>,
    c2: Circle<T>,
    sqrt: F,
) -> T {
    value_of(
        sqrt,
        T::identity_spec().sub_spec(chord_cos(c1, c2, sqrt).mul_spec(chord_cos(c1, c2, sqrt))),
    )
}

/// The vector `(-dir.y / dir.x, 1)` before it is normalized.
pub open spec fn raw_side<T: ArithmeticGroup<T>>(c1: Circle<T>, c2: Circle<T>) -> Vector2<T> {
    Vector2::<T>::xy_spec(
        center_dir(c1, c2).at(0, 1).neg_spec().div_spec(center_dir(c1, c2).at(0, 0)),
        T::identity_spec(),
    )
}

/// The unit vector across the line of centres: `(1, 0)` where `dir.x` is
/// zero to six decimal digits, else `(-dir.y / dir.x, 1)` normalized.
pub open spec fn chord_side<T: ArithmeticGroup<T> + PartialOrd, F: Fn(T) -> T, G: Fn(T) -> T>(
    c1: Circle<T>,
    c2: Circle<T>,
    sqrt: F,
    trunc: G,
) -> Vector2<T> {
    if approx_equal_spec(center_dir(c1, c2).at(0, 0), T::zero_spec(), 6, trunc) {
        Vector2::<T>::xy_spec(T::identity_spec(), T::zero_spec())
    } else {
        raw_side(c1, c2).normalize_spec(sqrt)
    }
}

/// The offset from the foot of the chord to either intersection point,
/// `side * sin * r1`.
pub open spec fn chord_offset<T: ArithmeticGroup<T> + PartialOrd, F: Fn(T) -> T, G: Fn(T) -> T>(
    c1: Circle<T>,
    c2: Circle<T>,
    sqrt: F,
    trunc: G,
) -> Vector2<T> {
    MulSpec::<T>::mul_spec(
        MulSpec::<T>::mul_spec(chord_side(c1, c2, sqrt, trunc), chord_sin(c1, c2, sqrt)),
        c1.radius,
    )
}

/// The foot of the chord on the line of centres, `center + unit * cos * r1`.
pub open spec fn chord_foot<T: ArithmeticGroup<T>, F: Fn(T) -> T>(
    c1: Circle<T>,
    c2: Circle<T>,
    sqrt: F,
) -> Vector2<T> {
    c1.center.add_spec(
        MulSpec::<T>::mul_spec(
            MulSpec::<T>::mul_spec(center_dir(c1, c2).normalize_spec(sqrt), chord_cos(c1, c2, sqrt)),
            c1.radius,
        ),
    )
}

/// Every step of the two-point construction is within the scalar's limits.
pub open spec fn chord_req<T: ArithmeticGroup<T> + PartialOrd, F: Fn(T) -> T, G: Fn(T) -> T>(
    c1: Circle<T>,
    c2: Circle<T>,
    sqrt: F,
    trunc: G,
) -> bool {
    let d2 = center_dist_sqrd(c1, c2);
    let dir = center_dir(c1, c2);
    let unit = dir.normalize_spec(sqrt);
    let cos = chord_cos(c1, c2, sqrt);
    let sin = chord_sin(c1, c2, sqrt);
    let side = chord_side(c1, c2, sqrt, trunc);
    &&& two_req::<T>()
    &&& c1.radius.mul_req(c1.radius)
    &&& c2.radius.mul_req(c2.radius)
    &&& d2.add_req(c1.radius.mul_spec(c1.radius))
    &&& d2.add_spec(c1.radius.mul_spec(c1.radius)).sub_req(c2.radius.mul_spec(c2.radius))
    &&& two_spec::<T>().mul_req(c1.radius)
    &&& two_spec::<T>().mul_spec(c1.radius).mul_req(value_of(sqrt, d2))
    &&& cos_num(c1, c2).div_req(cos_den(c1, c2, sqrt))
    &&& cos.mul_req(cos)
    &&& T::identity_spec().sub_req(cos.mul_spec(cos))
    &&& approx_equal_req(dir.at(0, 0), T::zero_spec(), 6)
    &&& !approx_equal_spec(dir.at(0, 0), T::zero_spec(), 6, trunc) ==> {
        &&& dir.at(0, 1).neg_req()
        &&& dir.at(0, 1).neg_spec().div_req(dir.at(0, 0))
        &&& raw_side(c1, c2).normalize_req(sqrt)
    }
    &&& MulSpec::<T>::mul_req(side, sin)
    &&& MulSpec::<T>::mul_req(MulSpec::<T>::mul_spec(side, sin), c1.radius)
    &&& MulSpec::<T>::mul_req(unit, cos)
    &&& MulSpec::<T>::mul_req(MulSpec::<T>::mul_spec(unit, cos), c1.radius)
    &&& AddSpec::add_req(
        c1.center,
        MulSpec::<T>::mul_spec(MulSpec::<T>::mul_spec(unit, cos), c1.radius),
    )
    &&& AddSpec::add_req(chord_foot(c1, c2, sqrt), chord_offset(c1, c2, sqrt, trunc))
    &&& SubSpec::sub_req(chord_foot(c1, c2, sqrt), chord_offset(c1, c2, sqrt, trunc))
}

/// The circles touch from outside: `d^2` equals `(r1 + r2)^2` to six digits.
pub open spec fn touch_outside<T: ArithmeticGroup<T> + PartialOrd, G: Fn(T) -> T>(
    c1: Circle<T>,
    c2: Circle<T>,
    trunc: G,
) -> bool {
    approx_equal_spec(center_dist_sqrd(c1, c2), radius_sum_sqrd(c1, c2), 6, trunc)
}

/// One circle touches the other from inside: `d^2` equals `(r1 - r2)^2` to
/// six digits.
pub open spec fn touch_inside<T: ArithmeticGroup<T> + PartialOrd, G: Fn(T) -> T>(
    c1: Circle<T>,
    c2: Circle<T>,
    trunc: G,
) -> bool {
    approx_equal_spec(center_dist_sqrd(c1, c2), radius_diff_sqrd(c1, c2), 6, trunc)
}

/// What `circles_intersect` needs: the tests can be formed, and so can the
/// points of the case that the tests select.
pub open spec fn circles_req<T: ArithmeticGroup<T> + PartialOrd, F: Fn(T) -> T, G: Fn(T) -> T>(
    c1: Circle<T>,
    c2: Circle<T>,
    sqrt: F,
    trunc: G,
) -> bool {
    let unit = center_dir(c1, c2).normalize_spec(sqrt);
    &&& circular_intersect_req(c1, c2)
    &&& center_dir(c1, c2).normalize_req(sqrt)
    &&& approx_equal_req(center_dist_sqrd(c1, c2), radius_sum_sqrd(c1, c2), 6)
    &&& if touch_outside(c1, c2, trunc) {
        rim_point_req(c1, unit)
    } else {
        &&& approx_equal_req(center_dist_sqrd(c1, c2), radius_diff_sqrd(c1, c2), 6)
        &&& if touch_inside(c1, c2, trunc) {
            if less(c1.radius, c2.radius) {
                NegSpec::neg_req(unit) && rim_point_req(c1, unit.neg_spec())
            } else {
                rim_point_req(c1, unit)
            }
        } else {
            chord_req(c1, c2, sqrt, trunc)
        }
    }
}

/// The intersection points of two circles that meet.
///
/// - Tangent from outside: the one point `center1 + unit * r1`.
/// - Tangent from inside: `center1 - unit * r1` where the first circle is
///   the smaller, else `center1 + unit * r1`.
/// - Otherwise the two points `foot + offset` and `foot - offset`.
pub open spec fn circles_spec<T: ArithmeticGroup<T> + PartialOrd, F: Fn(T) -> T, G: Fn(T) -> T>(
    c1: Circle<T>,
    c2: Circle<T>,
    sqrt: F,
    trunc: G,
) -> (Vector2<T>, Option<Vector2<T>>) {
    let unit = center_dir(c1, c2).normalize_spec(sqrt);
    if touch_outside(c1, c2, trunc) {
        (rim_point(c1, unit), None)
    } else if touch_inside(c1, c2, trunc) {
        if less(c1.radius, c2.radius) {
            (rim_point(c1, unit.neg_spec()), None)
        } else {
            (rim_point(c1, unit), None)
        }
    } else {
        (
            chord_foot(c1, c2, sqrt).add_spec(chord_offset(c1, c2, sqrt, trunc)),
            Some(chord_foot(c1, c2, sqrt).sub_spec(chord_offset(c1, c2, sqrt, trunc))),
        )
    }
}

pub fn circles_intersect<T: ArithmeticGroup<T> + PartialOrd, F: Fn(T) -> T, G: Fn(T) -> T>(
    c1: &Circle<T>,
    c2: &Circle<T>,
    sqrt: &F,
    trunc: &G,
) -> (r: (Vector2<T>, Option<Vector2<T>>))
    requires
        obeys_arithmetic::<T>(),
        obeys_order::<T>(),
        is_scalar_fn(*sqrt),
        is_scalar_fn(*trunc),
        circles_req(*c1, *c2, *sqrt, *trunc),
    ensures
        r == circles_spec(*c1, *c2, *sqrt, *trunc),
{
    let dir = c2.center - c1.center;
    let len_sqrd = dir.length_sqrd();
    let unit = dir.normalize(sqrt);
    let r1 = c1.radius;
    let r2 = c2.radius;
    if approx_equal(len_sqrd, (r1 + r2) * (r1 + r2), 6, trunc) {
        return (unit * r1 + c1.center, None);
    }
    if approx_equal(len_sqrd, (r1 - r2) * (r1 - r2), 6, trunc) {
        if r1 < r2 {
            return (unit.neg() * r1 + c1.center, None);
        } else {
            return (unit * r1 + c1.center, None);
        }
    }
    let one = T::identity();
    let zero = T::zero();
    let cosin = (len_sqrd + r1 * r1 - r2 * r2) / (two::<T>() * r1 * apply(sqrt, len_sqrd));
    let sin = apply(sqrt, one - cosin * cosin);
    let side = if approx_equal(dir.x(), zero, 6, trunc) {
        Vector2::from_xy(one, zero)
    } else {
        Vector2::from_xy(dir.y().neg() / dir.x(), one).normalize(sqrt)
    };
    let norm = side * sin * r1;
    let d = unit * cosin * r1;
    (c1.center + d + norm, Some(c1.center + d - norm))
}

} // verus!
