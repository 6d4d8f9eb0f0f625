//! Primitives of space: planes, plain lines, view frusta and boxes.
use crate::arithmetic::obeys_arithmetic;
use crate::arithmetic::obeys_order;
use crate::arithmetic::two;
use crate::arithmetic::two_req;
use crate::arithmetic::two_spec;
use crate::arithmetic::ArithmeticGroup;
use crate::conic::AngleRange;
use crate::arithmetic::Zero;
use crate::matrix::dot_req;
use crate::matrix::dot_spec;
use crate::matrix::Vector3;
use crate::utility::approx_equal;
use crate::utility::approx_equal_req;
use crate::utility::approx_equal_spec;
use crate::utility::is_scalar_fn;
use vstd::prelude::*;
use vstd::std_specs::ops::AddSpec;
use vstd::std_specs::ops::DivSpec;
use vstd::std_specs::ops::SubSpec;

verus! {

/// The plane through `pt` with unit normal `normal`.
#[derive(Clone, Copy, Debug)]
pub struct Plane<T> {
    pub normal: Vector3<T>,
    pub pt: Vector3<T>,
}

impl<T: ArithmeticGroup<T> + PartialOrd> Plane<T> {
    pub fn new(normal: Vector3<T>, pt: Vector3<T>) -> (r: Self)
        ensures
            r.normal == normal,
            r.pt == pt,
    {
        Self { normal, pt }
    }

    /// The squared length of the cross product of the two normals.
    pub open spec fn normals_cross_sqrd(&self, plane: &Plane<T>) -> T {
        dot_spec(
            self.normal.cross_spec(&plane.normal),
            self.normal.cross_spec(&plane.normal),
            3,
        )
    }

    /// Whether the squared length of the cross product of the normals is
    /// zero to `decimal_place` decimal digits.
    pub fn is_parallel<G: Fn(T) -> T>(&self, plane: &Plane<T>, decimal_place: u8, trunc: &G) -> (r:
        bool)
        requires
            obeys_arithmetic::<T>(),
            obeys_order::<T>(),
            is_scalar_fn(*trunc),
            self.normal.cross_req(&plane.normal),
            dot_req(
                self.normal.cross_spec(&plane.normal),
                self.normal.cross_spec(&plane.normal),
                3,
            ),
            approx_equal_req(self.normals_cross_sqrd(plane), T::zero_spec(), decimal_place),
        ensures
            r == approx_equal_spec(
                self.normals_cross_sqrd(plane),
                T::zero_spec(),
                decimal_place,
                *trunc,
            ),
    {
        approx_equal(
            self.normal.cross(&plane.normal).length_sqrd(),
            T::zero(),
            decimal_place,
            trunc,
        )
    }
}

/// A line of space as a point and a direction, stored as given.
#[derive(Clone, Copy, Debug)]
pub struct Line<T> {
    pub start: Vector3<T>,
    pub dir: Vector3<T>,
}

impl<T: ArithmeticGroup<T>> Line<T> {
    pub fn new(start: Vector3<T>, dir: Vector3<T>) -> (r: Self)
        ensures
            r.start == start,
            r.dir == dir,
    {
        Self { start, dir }
    }
}

/// A symmetric view frustum: near and far distance, half the vertical field
/// of view, and the aspect ratio.
#[derive(Clone, Copy, Debug)]
pub struct Frustum<T> {
    pub near: T,
    pub far: T,
    pub half_fovy: T,
    pub aspect: T,
}

impl<T: ArithmeticGroup<T>> Frustum<T> {
    pub fn new(near: T, far: T, half_fovy: T, aspect: T) -> (r: Self)
        ensures
            r.near == near,
            r.far == far,
            r.half_fovy == half_fovy,
            r.aspect == aspect,
    {
        Self { near, far, half_fovy, aspect }
    }
}

/// An axis-aligned box of space, stored as a centre and a half-extent.
#[derive(Clone, Copy, Debug)]
pub struct Cube<T> {
    pub center: Vector3<T>,
    pub half_len: Vector3<T>,
}

impl<T: ArithmeticGroup<T>> Cube<T> {
    pub fn from_center(center: Vector3<T>, half_len: Vector3<T>) -> (r: Self)
        ensures
            r.center == center,
            r.half_len == half_len,
    {
        Self { center, half_len }
    }

    /// The box between the corners `min` and `max`: centre `(max + min) / 2`,
    /// half-extent `(max - min) / 2`.
    pub fn from_min_max(min: Vector3<T>, max: Vector3<T>) -> (r: Self)
        requires
            obeys_arithmetic::<T>(),
            two_req::<T>(),
            AddSpec::add_req(max, min),
            SubSpec::sub_req(max, min),
            DivSpec::<T>::div_req(max.add_spec(min), two_spec::<T>()),
            DivSpec::<T>::div_req(max.sub_spec(min), two_spec::<T>()),
        ensures
            r.center == DivSpec::<T>::div_spec(max.add_spec(min), two_spec::<T>()),
            r.half_len == DivSpec::<T>::div_spec(max.sub_spec(min), two_spec::<T>()),
    {
        let t = two::<T>();
        Self { center: (max + min) / t, half_len: (max - min) / t }
    }
}

/// A flat polygon of space, given by its corners in order.
#[derive(Clone, Debug)]
pub struct Polygon<T> {
    pub points: Vec<Vector3<T>>,
}

/// A right circular cylinder: the centre of its bottom, its axis (a unit
/// vector), its height and its radius.
#[derive(Clone, Copy, Debug)]
pub struct Cylinder<T> {
    pub bottom: Vector3<T>,
    pub dir: Vector3<T>,
    pub height: T,
    pub radius: T,
}

/// A right circular cone: the centre and radius of its bottom, its axis (a
/// unit vector) and its height.
#[derive(Clone, Copy, Debug)]
pub struct Cone<T> {
    pub bottom: Vector3<T>,
    pub bottom_radius: T,
    pub dir: Vector3<T>,
    pub height: T,
}

/// A cone cut off parallel to its bottom: the centre of the bottom, both
/// radii, the axis (a unit vector) and the height.
#[derive(Clone, Copy, Debug)]
pub struct TruncatedCone<T> {
    pub bottom: Vector3<T>,
    pub bottom_radius: T,
    pub top_radius: T,
    pub dir: Vector3<T>,
    pub height: T,
}

/// Any of the three solids of revolution about an axis.
#[derive(Clone, Copy, Debug)]
pub enum CylinderLike<T> {
    Cylinder(Cylinder<T>),
    Cone(Cone<T>),
    TruncatedCone(TruncatedCone<T>),
}

/// The part of a circle of space within a range of angles, measured from
/// `x_axis` about `norm`.
#[derive(Clone, Copy, Debug)]
pub struct CircleArc<T> {
    pub radius: T,
    pub center: Vector3<T>,
    pub norm: Vector3<T>,
    pub x_axis: Vector3<T>,
    pub range: AngleRange<T>,
}

} // verus!
