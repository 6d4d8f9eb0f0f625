//! Axis-aligned boxes in the plane, stored as a centre and a half-extent.
use crate::arithmetic::obeys_arithmetic;
use crate::arithmetic::two;
use crate::arithmetic::two_req;
use crate::arithmetic::two_spec;
use crate::arithmetic::ArithmeticGroup;
use crate::arithmetic::Identity;
use crate::arithmetic::Zero;
use crate::utility::apply;
use crate::utility::is_scalar_fn;
use crate::utility::value_of;
use std::ops::Neg;
use crate::matrix::Vector2;
use vstd::prelude::*;
use vstd::std_specs::ops::AddSpec;
use vstd::std_specs::ops::DivSpec;
use vstd::std_specs::ops::MulSpec;
use vstd::std_specs::ops::NegSpec;
use vstd::std_specs::ops::SubSpec;

verus! {

#[derive(Clone, Copy, Debug)]
pub struct AABB<T> {
    pub center: Vector2<T>,
    pub half_size: Vector2<T>,
}

impl<T: ArithmeticGroup<T>> AABB<T> {
    /// The corner with the smallest coordinates, `center - half_size`.
    pub open spec fn min_spec(&self) -> Vector2<T> {
        self.center.sub_spec(self.half_size)
    }

    pub open spec fn min_req(&self) -> bool {
        SubSpec::sub_req(self.center, self.half_size)
    }

    /// The corner with the largest coordinates, `center + half_size`.
    pub open spec fn max_spec(&self) -> Vector2<T> {
        self.center.add_spec(self.half_size)
    }

    pub open spec fn max_req(&self) -> bool {
        AddSpec::add_req(self.center, self.half_size)
    }

    /// The full extent, `half_size * 2`.
    pub open spec fn size_spec(&self) -> Vector2<T> {
        MulSpec::<T>::mul_spec(self.half_size, two_spec::<T>())
    }

    pub open spec fn size_req(&self) -> bool {
        &&& two_req::<T>()
        &&& MulSpec::<T>::mul_req(self.half_size, two_spec::<T>())
    }

    /// The box with corner `min` and extent `size`: centre `min + size / 2`,
    /// half-extent `size / 2`.
    pub fn from_min_size(min: Vector2<T>, size: Vector2<T>) -> (r: Self)
        requires
            obeys_arithmetic::<T>(),
            two_req::<T>(),
            DivSpec::<T>::div_req(size, two_spec::<T>()),
            AddSpec::add_req(min, DivSpec::<T>::div_spec(size, two_spec::<T>())),
        ensures
            r.center == min.add_spec(DivSpec::<T>::div_spec(size, two_spec::<T>())),
            r.half_size == DivSpec::<T>::div_spec(size, two_spec::<T>()),
    {
        let half = size / two::<T>();
        Self { center: min + half, half_size: half }
    }

    /// The box between the corners `min` and `max`: centre `(max + min) / 2`,
    /// half-extent `(max - min) / 2`.
    pub fn from_min_max(min: Vector2<T>, max: Vector2<T>) -> (r: Self)
        requires
            obeys_arithmetic::<T>(),
            two_req::<T>(),
            AddSpec::add_req(max, min),
            SubSpec::sub_req(max, min),
            DivSpec::<T>::div_req(max.add_spec(min), two_spec::<T>()),
            DivSpec::<T>::div_req(max.sub_spec(min), two_spec::<T>()),
        ensures
            r.center == DivSpec::<T>::div_spec(max.add_spec(min), two_spec::<T>()),
            r.half_size == DivSpec::<T>::div_spec(max.sub_spec(min), two_spec::<T>()),
    {
        let t = two::<T>();
        Self { center: (max + min) / t, half_size: (max - min) / t }
    }

    pub fn from_center(center: Vector2<T>, half_size: Vector2<T>) -> (r: Self)
        ensures
            r.center == center,
            r.half_size == half_size,
    {
        Self { center, half_size }
    }

    pub fn min(&self) -> (r: Vector2<T>)
        requires
            obeys_arithmetic::<T>(),
            self.min_req(),
        ensures
            r == self.min_spec(),
    {
        self.center - self.half_size
    }

    pub fn max(&self) -> (r: Vector2<T>)
        requires
            obeys_arithmetic::<T>(),
            self.max_req(),
        ensures
            r == self.max_spec(),
    {
        self.center + self.half_size
    }

    pub fn size(&self) -> (r: Vector2<T>)
        requires
            obeys_arithmetic::<T>(),
            self.size_req(),
        ensures
            r == self.size_spec(),
    {
        self.half_size * two::<T>()
    }
}

/// A box turned by an angle about its centre. The local axes are kept
/// beside the angle and set again whenever the angle is; the three are
/// private, so that only `new` and `set_rotation` write them.
#[derive(Clone, Copy, Debug)]
pub struct OBB<T> {
    pub center: Vector2<T>,
    pub half_size: Vector2<T>,
    rotation: T,
    x_axis: Vector2<T>,
    y_axis: Vector2<T>,
}

impl<T: ArithmeticGroup<T>> OBB<T> {
    /// The centre of the box.
    pub closed spec fn middle(&self) -> Vector2<T> {
        self.center
    }

    /// The half-extent of the box along its local axes.
    pub closed spec fn half_extent(&self) -> Vector2<T> {
        self.half_size
    }

    /// The stored angle.
    pub closed spec fn angle(&self) -> T {
        self.rotation
    }

    /// The stored local x axis.
    pub closed spec fn local_x(&self) -> Vector2<T> {
        self.x_axis
    }

    /// The stored local y axis.
    pub closed spec fn local_y(&self) -> Vector2<T> {
        self.y_axis
    }

    /// The local x axis at rotation `angle`, `(cos, sin)`.
    pub open spec fn x_axis_at<S: Fn(T) -> T, C: Fn(T) -> T>(angle: T, sin: S, cos: C) -> Vector2<T> {
        Vector2::<T>::xy_spec(value_of(cos, angle), value_of(sin, angle))
    }

    /// The local y axis at rotation `angle`, `(-sin, cos)`.
    pub open spec fn y_axis_at<S: Fn(T) -> T, C: Fn(T) -> T>(angle: T, sin: S, cos: C) -> Vector2<T> {
        Vector2::<T>::xy_spec(value_of(sin, angle).neg_spec(), value_of(cos, angle))
    }

    /// The stored axes are those of the stored angle.
    pub open spec fn axes_match<S: Fn(T) -> T, C: Fn(T) -> T>(&self, sin: S, cos: C) -> bool {
        &&& self.local_x() == Self::x_axis_at(self.angle(), sin, cos)
        &&& self.local_y() == Self::y_axis_at(self.angle(), sin, cos)
    }

    /// The box that is not turned: rotation zero, axes `(1, 0)` and `(0, 1)`.
    pub fn new(center: Vector2<T>, half_size: Vector2<T>) -> (r: Self)
        ensures
            r.middle() == center,
            r.half_extent() == half_size,
            T::obeys_zero_spec() && T::obeys_identity_spec() ==> {
                &&& r.angle() == T::zero_spec()
                &&& r.local_x() == Vector2::<T>::xy_spec(T::identity_spec(), T::zero_spec())
                &&& r.local_y() == Vector2::<T>::xy_spec(T::zero_spec(), T::identity_spec())
            },
    {
        Self {
            center,
            half_size,
            rotation: T::zero(),
            x_axis: Vector2::from_xy(T::identity(), T::zero()),
            y_axis: Vector2::from_xy(T::zero(), T::identity()),
        }
    }

    pub fn center(&self) -> (r: Vector2<T>)
        ensures
            r == self.middle(),
    {
        self.center
    }

    pub fn half_size(&self) -> (r: Vector2<T>)
        ensures
            r == self.half_extent(),
    {
        self.half_size
    }

    pub fn x_axis(&self) -> (r: Vector2<T>)
        ensures
            r == self.local_x(),
    {
        self.x_axis
    }

    pub fn y_axis(&self) -> (r: Vector2<T>)
        ensures
            r == self.local_y(),
    {
        self.y_axis
    }

    pub fn rotation(&self) -> (r: T)
        ensures
            r == self.angle(),
    {
        self.rotation
    }

    /// Turns the box to `rotation` and sets both local axes from it; the
    /// centre and the half-extent stay.
    pub fn set_rotation<S: Fn(T) -> T, C: Fn(T) -> T>(&mut self, rotation: T, sin: &S, cos: &C)
        requires
            obeys_arithmetic::<T>(),
            is_scalar_fn(*sin),
            is_scalar_fn(*cos),
            value_of(*sin, rotation).neg_req(),
        ensures
            final(self).angle() == rotation,
            final(self).local_x() == Self::x_axis_at(rotation, *sin, *cos),
            final(self).local_y() == Self::y_axis_at(rotation, *sin, *cos),
            final(self).axes_match(*sin, *cos),
            final(self).middle() == old(self).middle(),
            final(self).half_extent() == old(self).half_extent(),
    {
        let c = apply(cos, rotation);
        let s = apply(sin, rotation);
        self.rotation = rotation;
        self.x_axis = Vector2::from_xy(c, s);
        self.y_axis = Vector2::from_xy(s.neg(), c);
    }
}

/// An ellipse of the plane with half-axes `a` and `b` about `position`.
#[derive(Clone, Copy, Debug)]
pub struct Ellipse<T> {
    pub a: T,
    pub b: T,
    pub position: Vector2<T>,
}

/// A parabola of the plane with focal parameter `p` and vertex `position`.
#[derive(Clone, Copy, Debug)]
pub struct Parabola<T> {
    pub p: T,
    pub position: Vector2<T>,
}

/// A hyperbola of the plane with half-axes `a` and `b` about `position`.
#[derive(Clone, Copy, Debug)]
pub struct Hyperbola<T> {
    pub a: T,
    pub b: T,
    pub position: Vector2<T>,
}

} // verus!
