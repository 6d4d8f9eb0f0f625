//! Intersection tests shared by circles and spheres.
use crate::arithmetic::less_eq;
use crate::arithmetic::obeys_arithmetic;
use crate::arithmetic::obeys_order;
use crate::arithmetic::ArithmeticGroup;
use crate::arithmetic::less;
use crate::arithmetic::Zero;
use crate::geom_common::Circular;
use crate::geom_common::Linear;
use crate::matrix::Vector;
use crate::nearest_common::point_at;
use crate::nearest_common::point_at_req;
use crate::nearest_common::point_on;
use crate::utility::apply;
use crate::utility::approx_equal;
use crate::utility::approx_equal_req;
use crate::utility::approx_equal_spec;
use crate::utility::is_scalar_fn;
use crate::utility::value_of;
use std::ops::Neg;
use vstd::prelude::*;
use vstd::std_specs::ops::AddSpec;
use vstd::std_specs::ops::MulSpec;
use vstd::std_specs::ops::NegSpec;
use vstd::std_specs::ops::SubSpec;

verus! {

/// The squared distance between the centres.
pub open spec fn center_dist_sqrd<T: ArithmeticGroup<T>, const DIM: usize>(
    c1: Circular<T, DIM>,
    c2: Circular<T, DIM>,
) -> T {
    c2.center.sub_spec(c1.center).dot_with(&c2.center.sub_spec(c1.center))
}

/// `(r1 - r2)^2`.
pub open spec fn radius_diff_sqrd<T: ArithmeticGroup<T>, const DIM: usize>(
    c1: Circular<T, DIM>,
    c2: Circular<T, DIM>,
) -> T {
    c1.radius.sub_spec(c2.radius).mul_spec(c1.radius.sub_spec(c2.radius))
}

/// `(r1 + r2)^2`.
pub open spec fn radius_sum_sqrd<T: ArithmeticGroup<T>, const DIM: usize>(
    c1: Circular<T, DIM>,
    c2: Circular<T, DIM>,
) -> T {
    c1.radius.add_spec(c2.radius).mul_spec(c1.radius.add_spec(c2.radius))
}

/// The three squares compared by `is_circular_intersect` can be formed.
pub open spec fn circular_intersect_req<T: ArithmeticGroup<T>, const DIM: usize>(
    c1: Circular<T, DIM>,
    c2: Circular<T, DIM>,
) -> bool {
    &&& SubSpec::sub_req(c2.center, c1.center)
    &&& c2.center.sub_spec(c1.center).dot_with_req(&c2.center.sub_spec(c1.center))
    &&& c1.radius.sub_req(c2.radius)
    &&& c1.radius.sub_spec(c2.radius).mul_req(c1.radius.sub_spec(c2.radius))
    &&& c1.radius.add_req(c2.radius)
    &&& c1.radius.add_spec(c2.radius).mul_req(c1.radius.add_spec(c2.radius))
}

/// Two circles (or spheres) meet exactly when the distance `d` of their
/// centres satisfies `(r1 - r2)^2 <= d^2 <= (r1 + r2)^2`; both tangent cases
/// count as meeting.
pub open spec fn circulars_meet<T: ArithmeticGroup<T> + PartialOrd, const DIM: usize>(
    c1: Circular<T, DIM>,
    c2: Circular<T, DIM>,
) -> bool {
    &&& less_eq(radius_diff_sqrd(c1, c2), center_dist_sqrd(c1, c2))
    &&& less_eq(center_dist_sqrd(c1, c2), radius_sum_sqrd(c1, c2))
}

pub fn is_circular_intersect<T: ArithmeticGroup<T> + PartialOrd, const DIM: usize>(
    c1: &Circular<T, DIM>,
    c2: &Circular<T, DIM>,
) -> (r: bool)
    requires
        obeys_arithmetic::<T>(),
        obeys_order::<T>(),
        circular_intersect_req(*c1, *c2),
    ensures
        r == circulars_meet(*c1, *c2),
{
    let len_sqrd = (c2.center - c1.center).length_sqrd();
    (c1.radius - c2.radius) * (c1.radius - c2.radius) <= len_sqrd && len_sqrd <= (c1.radius
        + c2.radius) * (c1.radius + c2.radius)
}

/// Substituting `start + dir * t` into the equation of the circle gives
/// `t^2 + 2bt + c = 0`. This is `b = (start - center) . dir`.
pub open spec fn quad_b<T: ArithmeticGroup<T>, const DIM: usize>(
    l: Linear<T, DIM>,
    c: Circular<T, DIM>,
) -> T {
    l.start.sub_spec(c.center).dot_with(&l.dir)
}

/// `c = |start - center|^2 - radius^2`.
pub open spec fn quad_c<T: ArithmeticGroup<T>, const DIM: usize>(
    l: Linear<T, DIM>,
    c: Circular<T, DIM>,
) -> T {
    l.start.sub_spec(c.center).dot_with(&l.start.sub_spec(c.center)).sub_spec(
        c.radius.mul_spec(c.radius),
    )
}

/// The discriminant `b^2 - c`.
pub open spec fn quad_delta<T: ArithmeticGroup<T>, const DIM: usize>(
    l: Linear<T, DIM>,
    c: Circular<T, DIM>,
) -> T {
    quad_b(l, c).mul_spec(quad_b(l, c)).sub_spec(quad_c(l, c))
}

/// The coefficients and the discriminant can be formed.
pub open spec fn quad_req<T: ArithmeticGroup<T>, const DIM: usize>(
    l: Linear<T, DIM>,
    c: Circular<T, DIM>,
) -> bool {
    let m = l.start.sub_spec(c.center);
    &&& SubSpec::sub_req(l.start, c.center)
    &&& m.dot_with_req(&l.dir)
    &&& m.dot_with_req(&m)
    &&& c.radius.mul_req(c.radius)
    &&& m.dot_with(&m).sub_req(c.radius.mul_spec(c.radius))
    &&& quad_b(l, c).mul_req(quad_b(l, c))
    &&& quad_b(l, c).mul_spec(quad_b(l, c)).sub_req(quad_c(l, c))
}

/// The parameters at which the line meets the circle: one, `-b`, where the
/// discriminant is zero to six decimal digits (the line is tangent); none
/// where it is negative; else the two roots `-b - sqrt(delta)` and
/// `-b + sqrt(delta)`, smaller first.
pub open spec fn roots_spec<T: ArithmeticGroup<T> + PartialOrd, const DIM: usize, F: Fn(T) -> T, G: Fn(T) -> T>(
    l: Linear<T, DIM>,
    c: Circular<T, DIM>,
    sqrt: F,
    trunc: G,
) -> Option<(T, Option<T>)> {
    let delta = quad_delta(l, c);
    let nb = quad_b(l, c).neg_spec();
    if approx_equal_spec(delta, T::zero_spec(), 6, trunc) {
        Some((nb, None))
    } else if less(delta, T::zero_spec()) {
        None
    } else {
        Some((nb.sub_spec(value_of(sqrt, delta)), Some(nb.add_spec(value_of(sqrt, delta)))))
    }
}

/// The discriminant can be formed and tested, and both roots, where there
/// are two, are within the scalar's limits.
pub open spec fn roots_req<T: ArithmeticGroup<T> + PartialOrd, const DIM: usize, F: Fn(T) -> T, G: Fn(T) -> T>(
    l: Linear<T, DIM>,
    c: Circular<T, DIM>,
    sqrt: F,
    trunc: G,
) -> bool {
    let delta = quad_delta(l, c);
    let nb = quad_b(l, c).neg_spec();
    &&& quad_req(l, c)
    &&& approx_equal_req(delta, T::zero_spec(), 6)
    &&& quad_b(l, c).neg_req()
    &&& !approx_equal_spec(delta, T::zero_spec(), 6, trunc) && !less(delta, T::zero_spec()) ==> {
        &&& nb.sub_req(value_of(sqrt, delta))
        &&& nb.add_req(value_of(sqrt, delta))
    }
}

/// Solves for the parameters at which a linear primitive, taken as an
/// unbounded line, meets a circle or sphere.
pub fn circular_roots<T: ArithmeticGroup<T> + PartialOrd, const DIM: usize, F: Fn(T) -> T, G: Fn(T) -> T>(
    l: &Linear<T, DIM>,
    c: &Circular<T, DIM>,
    sqrt: &F,
    trunc: &G,
) -> (r: Option<(T, Option<T>)>)
    requires
        obeys_arithmetic::<T>(),
        obeys_order::<T>(),
        is_scalar_fn(*sqrt),
        is_scalar_fn(*trunc),
        roots_req(*l, *c, *sqrt, *trunc),
    ensures
        r == roots_spec(*l, *c, *sqrt, *trunc),
{
    let m = l.start - c.center;
    let b = m.dot(&l.dir);
    let cc = m.length_sqrd() - c.radius * c.radius;
    let delta = b * b - cc;
    let zero = T::zero();
    if approx_equal(delta, zero, 6, trunc) {
        Some((b.neg(), None))
    } else if delta < zero {
        None
    } else {
        let s = apply(sqrt, delta);
        let nb = b.neg();
        Some((nb - s, Some(nb + s)))
    }
}

/// The roots that lie on a ray, `t >= 0`. Where only the larger root
/// does, it is reported alone.
pub open spec fn ray_clip_spec<T: ArithmeticGroup<T> + PartialOrd>(
    roots: Option<(T, Option<T>)>,
) -> Option<(T, Option<T>)> {
    match roots {
        Some((a, b)) => if less(a, T::zero_spec()) {
            match b {
                Some(p) => if less_eq(T::zero_spec(), p) {
                    Some((p, None))
                } else {
                    None
                },
                None => None,
            }
        } else {
            Some((a, b))
        },
        None => None,
    }
}

pub fn clip_roots_to_ray<T: ArithmeticGroup<T> + PartialOrd>(roots: Option<(T, Option<T>)>) -> (r:
    Option<(T, Option<T>)>)
    requires
        obeys_arithmetic::<T>(),
        obeys_order::<T>(),
    ensures
        r == ray_clip_spec(roots),
{
    let zero = T::zero();
    match roots {
        Some((a, b)) => {
            if a < zero {
                match b {
                    Some(p) => {
                        if zero <= p {
                            Some((p, None))
                        } else {
                            None
                        }
                    },
                    None => None,
                }
            } else {
                Some((a, b))
            }
        },
        None => None,
    }
}

/// Whether the second root lies on a segment of length `len`:
/// `0 <= p <= len`.
pub open spec fn second_on_segment<T: ArithmeticGroup<T> + PartialOrd>(b: Option<T>, len: T) -> bool {
    b matches Some(p) && less_eq(T::zero_spec(), p) && less_eq(p, len)
}

/// The roots that lie on a segment of length `len`, both ends included: a
/// root `t` is kept where `0 <= t <= len`. Where only the second root is
/// kept, it is reported alone.
pub open spec fn seg_clip_spec<T: ArithmeticGroup<T> + PartialOrd>(
    roots: Option<(T, Option<T>)>,
    len: T,
) -> Option<(T, Option<T>)> {
    match roots {
        Some((a, b)) => if less_eq(T::zero_spec(), a) && less_eq(a, len) {
            if second_on_segment(b, len) {
                Some((a, b))
            } else {
                Some((a, None))
            }
        } else {
            if second_on_segment(b, len) {
                Some((b.unwrap(), None))
            } else {
                None
            }
        },
        None => None,
    }
}

pub fn clip_roots_to_segment<T: ArithmeticGroup<T> + PartialOrd>(
    roots: Option<(T, Option<T>)>,
    len: T,
) -> (r: Option<(T, Option<T>)>)
    requires
        obeys_arithmetic::<T>(),
        obeys_order::<T>(),
    ensures
        r == seg_clip_spec(roots, len),
{
    let zero = T::zero();
    match roots {
        Some((a, b)) => {
            let second = match b {
                Some(p) => zero <= p && p <= len,
                None => false,
            };
            if zero <= a && a <= len {
                if second {
                    Some((a, b))
                } else {
                    Some((a, None))
                }
            } else {
                match b {
                    Some(p) => if second {
                        Some((p, None))
                    } else {
                        None
                    },
                    None => None,
                }
            }
        },
        None => None,
    }
}

/// The points of the primitive at the given parameters.
pub open spec fn points_spec<T: ArithmeticGroup<T>, const DIM: usize>(
    l: Linear<T, DIM>,
    roots: Option<(T, Option<T>)>,
) -> Option<(Vector<T, DIM>, Option<Vector<T, DIM>>)> {
    match roots {
        Some((a, Some(b))) => Some(
            (point_at(l.start, l.dir, a), Some(point_at(l.start, l.dir, b))),
        ),
        Some((a, None)) => Some((point_at(l.start, l.dir, a), None)),
        None => None,
    }
}

/// The point at each parameter can be formed.
pub open spec fn points_req<T: ArithmeticGroup<T>, const DIM: usize>(
    l: Linear<T, DIM>,
    roots: Option<(T, Option<T>)>,
) -> bool {
    match roots {
        Some((a, Some(b))) => point_at_req(l.start, l.dir, a) && point_at_req(l.start, l.dir, b),
        Some((a, None)) => point_at_req(l.start, l.dir, a),
        None => true,
    }
}

/// Evaluates the primitive at each parameter of `roots`.
pub fn points_at_roots<T: ArithmeticGroup<T>, const DIM: usize>(
    l: &Linear<T, DIM>,
    roots: Option<(T, Option<T>)>,
) -> (r: Option<(Vector<T, DIM>, Option<Vector<T, DIM>>)>)
    requires
        obeys_arithmetic::<T>(),
        points_req(*l, roots),
    ensures
        r == points_spec(*l, roots),
{
    match roots {
        Some((a, b)) => match b {
            Some(p) => Some((point_on(&l.start, &l.dir, a), Some(point_on(&l.start, &l.dir, p)))),
            None => Some((point_on(&l.start, &l.dir, a), None)),
        },
        None => None,
    }
}

} // verus!
