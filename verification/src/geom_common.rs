//! Primitives shared by 2D and 3D: lines, rays, segments, triangles and
//! circles or spheres.
//!
//! A line, a ray and a segment carry the same payload, a `Linear`: a start
//! point, a direction and a length. They differ in the range of the
//! parameter `t` of `start + dir * t`: all scalars for a line, `t >= 0` for a
//! ray, `0 <= t <= len` for a segment.
use crate::arithmetic::obeys_arithmetic;
use crate::arithmetic::obeys_order;
use crate::arithmetic::less;
use crate::arithmetic::less_eq;
use crate::arithmetic::ArithmeticGroup;
use crate::arithmetic::Identity;
use crate::arithmetic::Zero;
use crate::matrix::dot_req;
use crate::matrix::dot_spec;
use crate::matrix::Vector;
use crate::matrix::Vector2;
use crate::matrix::Vector3;
use crate::utility::approx_equal;
use crate::utility::approx_equal_req;
use crate::utility::approx_equal_spec;
use crate::utility::is_scalar_fn;
use crate::utility::returned;
use vstd::prelude::*;
use vstd::std_specs::cmp::PartialEqSpec;
use std::ops::Neg;
use vstd::std_specs::ops::NegSpec;
use vstd::std_specs::ops::SubSpec;

verus! {

#[derive(Clone, Copy, Debug)]
pub struct Linear<T, const DIM: usize> {
    pub start: Vector<T, DIM>,
    pub dir: Vector<T, DIM>,
    pub len: T,
}

pub type Linear2D<T> = Linear<T, 2>;

pub type Linear3D<T> = Linear<T, 3>;

impl<T: ArithmeticGroup<T>, const DIM: usize> Linear<T, DIM> {
    /// The direction has squared length one.
    pub open spec fn unit_dir(&self) -> bool {
        self.dir.dot_with(&self.dir) == T::identity_spec()
    }
}

impl<T: ArithmeticGroup<T> + PartialOrd> Linear2D<T> {
    /// The vector `(dir.y, -dir.x)`, a quarter turn from the direction.
    pub open spec fn turned(&self) -> Vector2<T> {
        Vector2::<T>::xy_spec(self.dir.at(0, 1), self.dir.at(0, 0).neg_spec())
    }

    /// The unit normal: `(0, 1)` where `dir.y` equals zero, else `turned()`
    /// normalized.
    pub open spec fn normal_spec<F: Fn(T) -> T>(&self, sqrt: F) -> Vector2<T> {
        if self.dir.at(0, 1).eq_spec(&T::zero_spec()) {
            Vector2::<T>::xy_spec(T::zero_spec(), T::identity_spec())
        } else {
            self.turned().normalize_spec(sqrt)
        }
    }

    /// Where `dir.y` is not zero, `dir.x` can be negated and the turned
    /// vector normalized.
    pub open spec fn normal_req<F: Fn(T) -> T>(&self, sqrt: F) -> bool {
        !self.dir.at(0, 1).eq_spec(&T::zero_spec()) ==> {
            &&& self.dir.at(0, 0).neg_req()
            &&& self.turned().normalize_req(sqrt)
        }
    }

    pub fn normal<F: Fn(T) -> T>(&self, sqrt: &F) -> (r: Vector2<T>)
        requires
            obeys_arithmetic::<T>(),
            obeys_order::<T>(),
            is_scalar_fn(*sqrt),
            self.normal_req(*sqrt),
        ensures
            r == self.normal_spec(*sqrt),
    {
        let zero = T::zero();
        if self.dir.y() == zero {
            Vector2::from_xy(zero, T::identity())
        } else {
            Vector2::from_xy(self.dir.y(), self.dir.x().neg()).normalize(sqrt)
        }
    }

    /// Whether the cross product of the two directions is zero to
    /// `decimal_place` decimal digits.
    pub fn is_parallel_approx<F: Fn(T) -> T>(&self, l: &Linear2D<T>, decimal_place: u8, trunc: &F) -> (r:
        bool)
        requires
            obeys_arithmetic::<T>(),
            obeys_order::<T>(),
            is_scalar_fn(*trunc),
            self.dir.cross_req(&l.dir),
            approx_equal_req(self.dir.cross_spec(&l.dir), T::zero_spec(), decimal_place),
        ensures
            r == approx_equal_spec(
                self.dir.cross_spec(&l.dir),
                T::zero_spec(),
                decimal_place,
                *trunc,
            ),
    {
        approx_equal(self.dir.cross(&l.dir), T::zero(), decimal_place, trunc)
    }

    /// Whether the 2D cross product of the two directions is exactly zero.
    pub fn is_parallel(&self, l: &Linear2D<T>) -> (r: bool)
        requires
            obeys_arithmetic::<T>(),
            obeys_order::<T>(),
            self.dir.cross_req(&l.dir),
        ensures
            r == self.dir.cross_spec(&l.dir).eq_spec(&T::zero_spec()),
    {
        let zero = T::zero();
        self.dir.cross(&l.dir) == zero
    }
}

impl<T: ArithmeticGroup<T> + PartialOrd> Linear3D<T> {
    /// Whether the squared length of the cross product of the two
    /// directions is zero to `decimal_place` decimal digits.
    pub fn is_parallel_approx<F: Fn(T) -> T>(&self, l: &Linear3D<T>, decimal_place: u8, trunc: &F) -> (r:
        bool)
        requires
            obeys_arithmetic::<T>(),
            obeys_order::<T>(),
            is_scalar_fn(*trunc),
            self.dir.cross_req(&l.dir),
            dot_req(self.dir.cross_spec(&l.dir), self.dir.cross_spec(&l.dir), 3),
            approx_equal_req(
                dot_spec(self.dir.cross_spec(&l.dir), self.dir.cross_spec(&l.dir), 3),
                T::zero_spec(),
                decimal_place,
            ),
        ensures
            r == approx_equal_spec(
                dot_spec(self.dir.cross_spec(&l.dir), self.dir.cross_spec(&l.dir), 3),
                T::zero_spec(),
                decimal_place,
                *trunc,
            ),
    {
        approx_equal(self.dir.cross(&l.dir).length_sqrd(), T::zero(), decimal_place, trunc)
    }

    /// Whether the cross product of the two directions has squared length
    /// exactly zero.
    pub fn is_parallel(&self, l: &Linear3D<T>) -> (r: bool)
        requires
            obeys_arithmetic::<T>(),
            obeys_order::<T>(),
            self.dir.cross_req(&l.dir),
            dot_req(self.dir.cross_spec(&l.dir), self.dir.cross_spec(&l.dir), 3),
        ensures
            r == dot_spec(self.dir.cross_spec(&l.dir), self.dir.cross_spec(&l.dir), 3).eq_spec(
                &T::zero_spec(),
            ),
    {
        let zero = T::zero();
        self.dir.cross(&l.dir).length_sqrd() == zero
    }
}

/// An unbounded line through `start` along `dir`.
#[derive(Clone, Copy, Debug)]
pub struct Line<T, const DIM: usize>(pub Linear<T, DIM>);

/// The part of a line from `start` on, in the direction `dir`.
#[derive(Clone, Copy, Debug)]
pub struct Ray<T, const DIM: usize>(pub Linear<T, DIM>);

/// The part of a line between `start` and `start + dir * len`.
#[derive(Clone, Copy, Debug)]
pub struct Segment<T, const DIM: usize>(pub Linear<T, DIM>);

impl<T: ArithmeticGroup<T>, const DIM: usize> Line<T, DIM> {
    /// The line through `start` along `dir`. The stored direction is `dir`
    /// normalized, the stored length one.
    pub fn new<F: Fn(T) -> T>(start: Vector<T, DIM>, dir: Vector<T, DIM>, sqrt: &F) -> (r: Self)
        requires
            obeys_arithmetic::<T>(),
            is_scalar_fn(*sqrt),
            dir.normalize_req(*sqrt),
        ensures
            r.0.start == start,
            r.0.dir == dir.normalize_spec(*sqrt),
            r.0.len == T::identity_spec(),
            returned(*sqrt, dir.dot_with(&dir)),
    {
        Self(Linear::<T, DIM> { start, dir: dir.normalize(sqrt), len: T::identity() })
    }
}

impl<T: ArithmeticGroup<T>, const DIM: usize> Ray<T, DIM> {
    /// The ray from `start` along `dir`. The stored direction is `dir`
    /// normalized, the stored length one.
    pub fn new<F: Fn(T) -> T>(start: Vector<T, DIM>, dir: Vector<T, DIM>, sqrt: &F) -> (r: Self)
        requires
            obeys_arithmetic::<T>(),
            is_scalar_fn(*sqrt),
            dir.normalize_req(*sqrt),
        ensures
            r.0.start == start,
            r.0.dir == dir.normalize_spec(*sqrt),
            r.0.len == T::identity_spec(),
            returned(*sqrt, dir.dot_with(&dir)),
    {
        Self(Linear::<T, DIM> { start, dir: dir.normalize(sqrt), len: T::identity() })
    }
}

impl<T: ArithmeticGroup<T> + PartialOrd, const DIM: usize> Segment<T, DIM> {
    /// A well-formed segment has a direction of squared length one and a
    /// length that is not negative.
    pub open spec fn wf(&self) -> bool {
        &&& self.0.dir.dot_with_req(&self.0.dir)
        &&& self.0.unit_dir()
        &&& less_eq(T::zero_spec(), self.0.len)
    }
}

impl<T: ArithmeticGroup<T>, const DIM: usize> Segment<T, DIM> {
    /// The segment from `start` to `end`: the direction is `end - start`
    /// normalized, the length is the length of `end - start`. The
    /// endpoints must differ wherever the scalar cannot divide by zero.
    pub fn new<F: Fn(T) -> T>(start: Vector<T, DIM>, end: Vector<T, DIM>, sqrt: &F) -> (r: Self)
        requires
            obeys_arithmetic::<T>(),
            is_scalar_fn(*sqrt),
            SubSpec::sub_req(end, start),
            end.sub_spec(start).normalize_req(*sqrt),
        ensures
            r.0.start == start,
            r.0.dir == end.sub_spec(start).normalize_spec(*sqrt),
            r.0.len == end.sub_spec(start).length_spec(*sqrt),
            returned(*sqrt, end.sub_spec(start).dot_with(&end.sub_spec(start))),
    {
        let dir = end - start;
        Self(Linear::<T, DIM> { start, dir: dir.normalize(sqrt), len: dir.length(sqrt) })
    }
}

#[derive(Clone, Copy, Debug)]
pub struct Triangle<T, const DIM: usize> {
    pub pts: [Vector<T, DIM>; 3],
}

impl<T: ArithmeticGroup<T>, const DIM: usize> Triangle<T, DIM> {
    pub fn new(pts: [Vector<T, DIM>; 3]) -> (r: Self)
        ensures
            r.pts == pts,
    {
        Self { pts }
    }
}

impl<T: ArithmeticGroup<T> + PartialOrd> Triangle<T, 2> {
    /// With corners `a`, `b`, `c` in order: the edges `b - a` and `c - a` can
    /// be formed and crossed.
    pub open spec fn is_clockwise_req(&self) -> bool {
        &&& SubSpec::sub_req(self.pts[1], self.pts[0])
        &&& SubSpec::sub_req(self.pts[2], self.pts[0])
        &&& self.pts[1].sub_spec(self.pts[0]).cross_req(&self.pts[2].sub_spec(self.pts[0]))
    }

    /// Whether `(b - a) x (c - a)` is negative, for corners `a`, `b`, `c`.
    pub fn is_clockwise(&self) -> (r: bool)
        requires
            obeys_arithmetic::<T>(),
            obeys_order::<T>(),
            self.is_clockwise_req(),
        ensures
            r == less(
                self.pts[1].sub_spec(self.pts[0]).cross_spec(&self.pts[2].sub_spec(self.pts[0])),
                T::zero_spec(),
            ),
    {
        let v1 = self.pts[1] - self.pts[0];
        let v2 = self.pts[2] - self.pts[0];
        let zero = T::zero();
        v1.cross(&v2) < zero
    }
}

impl<T: ArithmeticGroup<T> + PartialOrd> Triangle<T, 3> {
    /// With corners `a`, `b`, `c` in order: the sum of the components of
    /// `(b - a) x (c - a)`, its dot product with the vector of ones.
    pub open spec fn signed_sum(&self) -> T {
        self.pts[1].sub_spec(self.pts[0]).cross_vec(&self.pts[2].sub_spec(self.pts[0])).dot_with(
            &Vector3::<T>::with_entries(|i: int, j: int| T::identity_spec()),
        )
    }

    pub open spec fn is_clockwise_req(&self) -> bool {
        &&& SubSpec::sub_req(self.pts[1], self.pts[0])
        &&& SubSpec::sub_req(self.pts[2], self.pts[0])
        &&& self.pts[1].sub_spec(self.pts[0]).cross_req(&self.pts[2].sub_spec(self.pts[0]))
        &&& self.pts[1].sub_spec(self.pts[0]).cross_vec(
            &self.pts[2].sub_spec(self.pts[0]),
        ).dot_with_req(&Vector3::<T>::with_entries(|i: int, j: int| T::identity_spec()))
    }

    /// Whether the components of `(b - a) x (c - a)` sum to less than
    /// zero.
    pub fn is_clockwise(&self) -> (r: bool)
        requires
            obeys_arithmetic::<T>(),
            obeys_order::<T>(),
            self.is_clockwise_req(),
        ensures
            r == less(self.signed_sum(), T::zero_spec()),
    {
        let v1 = self.pts[1] - self.pts[0];
        let v2 = self.pts[2] - self.pts[0];
        let ones = Vector3::<T>::ones();
        proof {
            Vector3::<T>::lemma_with_entries(ones, |i: int, j: int| T::identity_spec());
        }
        let zero = T::zero();
        v1.cross(&v2).dot(&ones) < zero
    }
}

/// A circle (`DIM == 2`) or a sphere (`DIM == 3`).
#[derive(Clone, Copy, Debug)]
pub struct Circular<T, const DIM: usize> {
    pub radius: T,
    pub center: Vector<T, DIM>,
}

impl<T: ArithmeticGroup<T> + PartialOrd, const DIM: usize> Circular<T, DIM> {
    /// A well-formed circle has a radius that is not negative.
    pub open spec fn wf(&self) -> bool {
        less_eq(T::zero_spec(), self.radius)
    }
}

impl<T: ArithmeticGroup<T>, const DIM: usize> Circular<T, DIM> {
    pub fn new(center: Vector<T, DIM>, radius: T) -> (r: Self)
        ensures
            r.center == center,
            r.radius == radius,
    {
        Self { center, radius }
    }
}

pub type Line2D<T> = Line<T, 2>;

pub type Line3D<T> = Line<T, 3>;

pub type Segment2D<T> = Segment<T, 2>;

pub type Segment3D<T> = Segment<T, 3>;

pub type Ray2D<T> = Ray<T, 2>;

pub type Ray3D<T> = Ray<T, 3>;

pub type Triangle2D<T> = Triangle<T, 2>;

pub type Triangle3D<T> = Triangle<T, 3>;

pub type Circle<T> = Circular<T, 2>;

pub type Sphere<T> = Circular<T, 3>;

} // verus!
