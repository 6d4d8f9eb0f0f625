//! Conic sections in space: ellipse, parabola and hyperbola, each with its
//! local frame, and the polar form with a focus at the origin.
use crate::arithmetic::less;
use crate::arithmetic::less_eq;
use crate::arithmetic::Zero;
use crate::arithmetic::obeys_arithmetic;
use crate::arithmetic::obeys_order;
use crate::arithmetic::two;
use crate::arithmetic::two_req;
use crate::arithmetic::two_spec;
use crate::arithmetic::ArithmeticGroup;
use crate::arithmetic::Identity;
use crate::coord::back_shift_req;
use crate::coord::Cartesian3D;
use crate::matrix::Vector3;
use crate::utility::apply;
use crate::utility::is_scalar_fn;
use crate::utility::value_of;
use std::ops::Neg;
use vstd::prelude::*;
use vstd::std_specs::cmp::PartialEqSpec;
use vstd::std_specs::ops::AddSpec;
use vstd::std_specs::ops::DivSpec;
use vstd::std_specs::ops::MulSpec;
use vstd::std_specs::ops::NegSpec;
use vstd::std_specs::ops::SubSpec;

verus! {

/// The third axis and the frame of a conic can be formed.
pub open spec fn frame_req<T: ArithmeticGroup<T>>(
    x_axis: Vector3<T>,
    normal: Vector3<T>,
    position: Vector3<T>,
) -> bool {
    &&& x_axis.cross_req(&normal)
    &&& forall|k: int|
        0 <= k < 3 ==> #[trigger] back_shift_req(
            x_axis,
            normal,
            x_axis.cross_vec(&normal),
            position,
            k,
        )
}

/// The local frame of a conic: axes `x_axis`, `normal` and
/// `x_axis x normal`, origin `position`.
pub fn local_frame<T: ArithmeticGroup<T>>(
    x_axis: Vector3<T>,
    normal: Vector3<T>,
    position: Vector3<T>,
) -> (r: Cartesian3D<T>)
    requires
        obeys_arithmetic::<T>(),
        frame_req(x_axis, normal, position),
    ensures
        r.x == x_axis,
        r.y == normal,
        r.z == x_axis.cross_vec(&normal),
        r.position == position,
{
    let z = x_axis.cross(&normal);
    Cartesian3D::new(x_axis, normal, z, position)
}

#[derive(Clone, Copy, Debug)]
pub struct Ellipse<T> {
    pub x_axis: Vector3<T>,
    pub normal: Vector3<T>,
    pub a: T,
    pub b: T,
    pub position: Vector3<T>,
}

impl<T: ArithmeticGroup<T>> Ellipse<T> {
    pub fn get_coord(&self) -> (r: Cartesian3D<T>)
        requires
            obeys_arithmetic::<T>(),
            frame_req(self.x_axis, self.normal, self.position),
        ensures
            r.x == self.x_axis,
            r.y == self.normal,
            r.z == self.x_axis.cross_vec(&self.normal),
            r.position == self.position,
    {
        local_frame(self.x_axis, self.normal, self.position)
    }
}

#[derive(Clone, Copy, Debug)]
pub struct Parabola<T> {
    pub x_axis: Vector3<T>,
    pub normal: Vector3<T>,
    pub p: T,
    pub position: Vector3<T>,
}

impl<T: ArithmeticGroup<T>> Parabola<T> {
    pub fn get_coord(&self) -> (r: Cartesian3D<T>)
        requires
            obeys_arithmetic::<T>(),
            frame_req(self.x_axis, self.normal, self.position),
        ensures
            r.x == self.x_axis,
            r.y == self.normal,
            r.z == self.x_axis.cross_vec(&self.normal),
            r.position == self.position,
    {
        local_frame(self.x_axis, self.normal, self.position)
    }
}

#[derive(Clone, Copy, Debug)]
pub struct Hyperbola<T> {
    pub x_axis: Vector3<T>,
    pub normal: Vector3<T>,
    pub a: T,
    pub b: T,
    pub position: Vector3<T>,
}

impl<T: ArithmeticGroup<T>> Hyperbola<T> {
    pub fn get_coord(&self) -> (r: Cartesian3D<T>)
        requires
            obeys_arithmetic::<T>(),
            frame_req(self.x_axis, self.normal, self.position),
        ensures
            r.x == self.x_axis,
            r.y == self.normal,
            r.z == self.x_axis.cross_vec(&self.normal),
            r.position == self.position,
    {
        local_frame(self.x_axis, self.normal, self.position)
    }
}

#[derive(Clone, Copy, Debug)]
pub enum Conic<T> {
    Ellipse(Ellipse<T>),
    Hyperbola(Hyperbola<T>),
    Parabola(Parabola<T>),
}

/// A range of angles, in radians.
#[derive(Clone, Copy, Debug)]
pub struct AngleRange<T> {
    pub from: T,
    pub to: T,
}

/// The part of a conic within a range of angles.
#[derive(Clone, Copy, Debug)]
pub struct ConicArc<T> {
    pub conic: Conic<T>,
    pub range: AngleRange<T>,
}

impl<T: ArithmeticGroup<T>> ConicArc<T> {
    pub fn center(&self) -> (r: Vector3<T>)
        ensures
            r == match self.conic {
                Conic::Ellipse(e) => e.position,
                Conic::Hyperbola(h) => h.position,
                Conic::Parabola(p) => p.position,
            },
    {
        match self.conic {
            Conic::Ellipse(e) => e.position,
            Conic::Hyperbola(h) => h.position,
            Conic::Parabola(p) => p.position,
        }
    }

    pub fn normal(&self) -> (r: Vector3<T>)
        ensures
            r == match self.conic {
                Conic::Ellipse(e) => e.normal,
                Conic::Hyperbola(h) => h.normal,
                Conic::Parabola(p) => p.normal,
            },
    {
        match self.conic {
            Conic::Ellipse(e) => e.normal,
            Conic::Hyperbola(h) => h.normal,
            Conic::Parabola(p) => p.normal,
        }
    }

    pub fn x_axis(&self) -> (r: Vector3<T>)
        ensures
            r == match self.conic {
                Conic::Ellipse(e) => e.x_axis,
                Conic::Hyperbola(h) => h.x_axis,
                Conic::Parabola(p) => p.x_axis,
            },
    {
        match self.conic {
            Conic::Ellipse(e) => e.x_axis,
            Conic::Hyperbola(h) => h.x_axis,
            Conic::Parabola(p) => p.x_axis,
        }
    }
}

/// A conic in polar form about a focus: `l = e * p / (1 - e * cos(theta))`,
/// with eccentricity `e` and focal parameter `p`.
#[derive(Clone, Copy, Debug)]
pub struct ConicArcInPolar<T> {
    pub p: T,
    pub e: T,
    pub origin: Vector3<T>,
    pub axis: Vector3<T>,
    pub normal: Vector3<T>,
    pub range: AngleRange<T>,
}

impl<T: ArithmeticGroup<T> + PartialOrd> ConicArcInPolar<T> {
    pub fn new(
        p: T,
        e: T,
        origin: Vector3<T>,
        axis: Vector3<T>,
        normal: Vector3<T>,
        range: AngleRange<T>,
    ) -> (r: Self)
        ensures
            r.p == p,
            r.e == e,
            r.origin == origin,
            r.axis == axis,
            r.normal == normal,
            r.range == range,
    {
        Self { p, e, origin, axis, normal, range }
    }

    /// An ellipse has eccentricity less than one.
    pub fn is_ellipse(&self) -> (r: bool)
        requires
            obeys_arithmetic::<T>(),
            obeys_order::<T>(),
        ensures
            r == less(self.e, T::identity_spec()),
    {
        self.e < T::identity()
    }

    /// A parabola has eccentricity exactly one.
    pub fn is_parabola(&self) -> (r: bool)
        requires
            obeys_arithmetic::<T>(),
            obeys_order::<T>(),
        ensures
            r == self.e.eq_spec(&T::identity_spec()),
    {
        let one = T::identity();
        self.e == one
    }

    /// A hyperbola has eccentricity greater than one.
    pub fn is_hyperbola(&self) -> (r: bool)
        requires
            obeys_arithmetic::<T>(),
            obeys_order::<T>(),
        ensures
            r == less(T::identity_spec(), self.e),
    {
        T::identity() < self.e
    }

    /// The radius at the angle `theta`, `e * p / (1 - e * cos(theta))`.
    pub open spec fn radius_at<C: Fn(T) -> T>(&self, theta: T, cos: C) -> T {
        self.e.mul_spec(self.p).div_spec(
            T::identity_spec().sub_spec(self.e.mul_spec(value_of(cos, theta))),
        )
    }

    pub open spec fn radius_at_req<C: Fn(T) -> T>(&self, theta: T, cos: C) -> bool {
        &&& self.e.mul_req(self.p)
        &&& self.e.mul_req(value_of(cos, theta))
        &&& T::identity_spec().sub_req(self.e.mul_spec(value_of(cos, theta)))
        &&& self.e.mul_spec(self.p).div_req(
            T::identity_spec().sub_spec(self.e.mul_spec(value_of(cos, theta))),
        )
    }

    pub fn calc_l<C: Fn(T) -> T>(&self, theta: T, cos: &C) -> (r: T)
        requires
            obeys_arithmetic::<T>(),
            is_scalar_fn(*cos),
            self.radius_at_req(theta, *cos),
        ensures
            r == self.radius_at(theta, *cos),
    {
        self.e * self.p / (T::identity() - self.e * apply(cos, theta))
    }

    /// The distance from the centre to a focus: `-p / 2` for a parabola,
    /// else `e^2 * p / (1 - e^2)`.
    pub open spec fn focal_len(&self) -> T {
        if self.e.eq_spec(&T::identity_spec()) {
            self.p.neg_spec().div_spec(two_spec::<T>())
        } else {
            self.e.mul_spec(self.e).mul_spec(self.p).div_spec(
                T::identity_spec().sub_spec(self.e.mul_spec(self.e)),
            )
        }
    }

    pub open spec fn focal_len_req(&self) -> bool {
        if self.e.eq_spec(&T::identity_spec()) {
            &&& self.p.neg_req()
            &&& two_req::<T>()
            &&& self.p.neg_spec().div_req(two_spec::<T>())
        } else {
            &&& self.e.mul_req(self.e)
            &&& self.e.mul_spec(self.e).mul_req(self.p)
            &&& T::identity_spec().sub_req(self.e.mul_spec(self.e))
            &&& self.e.mul_spec(self.e).mul_spec(self.p).div_req(
                T::identity_spec().sub_spec(self.e.mul_spec(self.e)),
            )
        }
    }

    pub fn get_focal_len(&self) -> (r: T)
        requires
            obeys_arithmetic::<T>(),
            obeys_order::<T>(),
            self.focal_len_req(),
        ensures
            r == self.focal_len(),
    {
        if self.is_parabola() {
            self.p.neg() / two::<T>()
        } else {
            self.e * self.e * self.p / (T::identity() - self.e * self.e)
        }
    }

    /// Half the major axis, the focal length over the eccentricity.
    pub open spec fn major_axis_len(&self) -> T {
        self.focal_len().div_spec(self.e)
    }

    pub open spec fn major_axis_req(&self) -> bool {
        &&& self.focal_len_req()
        &&& self.focal_len().div_req(self.e)
    }

    pub fn get_major_axis_len(&self) -> (r: T)
        requires
            obeys_arithmetic::<T>(),
            obeys_order::<T>(),
            self.major_axis_req(),
        ensures
            r == self.major_axis_len(),
    {
        self.get_focal_len() / self.e
    }

    /// Half the minor axis, `sqrt(a^2 - c^2)` with `a` half the major axis
    /// and `c` the focal length.
    pub open spec fn minor_axis_len<F: Fn(T) -> T>(&self, sqrt: F) -> T {
        value_of(
            sqrt,
            self.major_axis_len().mul_spec(self.major_axis_len()).sub_spec(
                self.focal_len().mul_spec(self.focal_len()),
            ),
        )
    }

    pub open spec fn minor_axis_req(&self) -> bool {
        &&& self.major_axis_req()
        &&& self.major_axis_len().mul_req(self.major_axis_len())
        &&& self.focal_len().mul_req(self.focal_len())
        &&& self.major_axis_len().mul_spec(self.major_axis_len()).sub_req(
            self.focal_len().mul_spec(self.focal_len()),
        )
    }

    pub fn get_minor_axis_len<F: Fn(T) -> T>(&self, sqrt: &F) -> (r: T)
        requires
            obeys_arithmetic::<T>(),
            obeys_order::<T>(),
            is_scalar_fn(*sqrt),
            self.minor_axis_req(),
        ensures
            r == self.minor_axis_len(*sqrt),
    {
        let a = self.get_major_axis_len();
        let c = self.get_focal_len();
        apply(sqrt, a * a - c * c)
    }
}

/// `v * v / d * d`, evaluated left to right.
pub open spec fn square_over<T: ArithmeticGroup<T>>(v: T, d: T) -> T {
    v.mul_spec(v).div_spec(d).mul_spec(d)
}

pub open spec fn square_over_req<T: ArithmeticGroup<T>>(v: T, d: T) -> bool {
    &&& v.mul_req(v)
    &&& v.mul_spec(v).div_req(d)
    &&& v.mul_spec(v).div_spec(d).mul_req(d)
}

/// Evaluates `square_over`.
pub fn squared_over<T: ArithmeticGroup<T>>(v: T, d: T) -> (r: T)
    requires
        obeys_arithmetic::<T>(),
        square_over_req(v, d),
    ensures
        r == square_over(v, d),
{
    v * v / d * d
}

impl<T: ArithmeticGroup<T> + PartialOrd> ConicArcInPolar<T> {
    /// The offset of the centre along the axis, `sqrt(a^2 - b^2)`.
    pub open spec fn center_offset<F: Fn(T) -> T>(&self, sqrt: F) -> T {
        value_of(
            sqrt,
            self.major_axis_len().mul_spec(self.major_axis_len()).sub_spec(
                self.minor_axis_len(sqrt).mul_spec(self.minor_axis_len(sqrt)),
            ),
        )
    }

    /// The left side of the test for an ellipse or a hyperbola,
    /// `(x - c)^2 / a * a + y^2 / b * b`.
    pub open spec fn central_form<F: Fn(T) -> T>(&self, pt: Vector3<T>, sqrt: F) -> T {
        square_over(pt.at(0, 0).sub_spec(self.center_offset(sqrt)), self.major_axis_len()).add_spec(
            square_over(pt.at(0, 1), self.minor_axis_len(sqrt)),
        )
    }

    /// The left side of the test for a parabola,
    /// `y^2 - 2 * p * (x - p / 2)`.
    pub open spec fn parabola_form(&self, pt: Vector3<T>) -> T {
        pt.at(0, 1).mul_spec(pt.at(0, 1)).sub_spec(
            two_spec::<T>().mul_spec(self.p).mul_spec(
                pt.at(0, 0).sub_spec(self.p.div_spec(two_spec::<T>())),
            ),
        )
    }

    /// Whether the conic contains the point, by its kind: an ellipse where
    /// `central_form <= 1`, a hyperbola where `1 <= central_form`, a
    /// parabola where `parabola_form <= 0`.
    pub open spec fn contains<F: Fn(T) -> T>(&self, pt: Vector3<T>, sqrt: F) -> bool {
        if less(self.e, T::identity_spec()) {
            less_eq(self.central_form(pt, sqrt), T::identity_spec())
        } else if less(T::identity_spec(), self.e) {
            less_eq(T::identity_spec(), self.central_form(pt, sqrt))
        } else {
            less_eq(self.parabola_form(pt), T::zero_spec())
        }
    }

    pub open spec fn contain_req<F: Fn(T) -> T>(&self, pt: Vector3<T>, sqrt: F) -> bool {
        let a = self.major_axis_len();
        let b = self.minor_axis_len(sqrt);
        let c = self.center_offset(sqrt);
        &&& self.minor_axis_req()
        &&& b.mul_req(b)
        &&& a.mul_spec(a).sub_req(b.mul_spec(b))
        &&& if less(self.e, T::identity_spec()) || less(T::identity_spec(), self.e) {
            &&& pt.at(0, 0).sub_req(c)
            &&& square_over_req(pt.at(0, 0).sub_spec(c), a)
            &&& square_over_req(pt.at(0, 1), b)
            &&& square_over(pt.at(0, 0).sub_spec(c), a).add_req(square_over(pt.at(0, 1), b))
        } else {
            &&& two_req::<T>()
            &&& pt.at(0, 1).mul_req(pt.at(0, 1))
            &&& two_spec::<T>().mul_req(self.p)
            &&& self.p.div_req(two_spec::<T>())
            &&& pt.at(0, 0).sub_req(self.p.div_spec(two_spec::<T>()))
            &&& two_spec::<T>().mul_spec(self.p).mul_req(
                pt.at(0, 0).sub_spec(self.p.div_spec(two_spec::<T>())),
            )
            &&& pt.at(0, 1).mul_spec(pt.at(0, 1)).sub_req(
                two_spec::<T>().mul_spec(self.p).mul_spec(
                    pt.at(0, 0).sub_spec(self.p.div_spec(two_spec::<T>())),
                ),
            )
        }
    }

    pub fn contain<F: Fn(T) -> T>(&self, pt: &Vector3<T>, sqrt: &F) -> (r: bool)
        requires
            obeys_arithmetic::<T>(),
            obeys_order::<T>(),
            is_scalar_fn(*sqrt),
            self.contain_req(*pt, *sqrt),
        ensures
            r == self.contains(*pt, *sqrt),
    {
        let a = self.get_major_axis_len();
        let b = self.get_minor_axis_len(sqrt);
        let c = apply(sqrt, a * a - b * b);
        let one = T::identity();
        if self.is_ellipse() {
            squared_over(pt.x() - c, a) + squared_over(pt.y(), b) <= one
        } else if self.is_hyperbola() {
            one <= squared_over(pt.x() - c, a) + squared_over(pt.y(), b)
        } else {
            let t = two::<T>();
            pt.y() * pt.y() - t * self.p * (pt.x() - self.p / t) <= T::zero()
        }
    }
}

} // verus!
