//! Scalings, translations, planar rotations and barycentric coordinates.
use crate::arithmetic::abs_of;
use crate::arithmetic::abs_req;
use crate::arithmetic::abs_spec;
use crate::arithmetic::obeys_arithmetic;
use crate::arithmetic::obeys_order;
use crate::arithmetic::ArithmeticGroup;
use crate::arithmetic::Identity;
use crate::arithmetic::Zero;
use crate::matrix::Mat22;
use crate::matrix::Mat44;
use crate::matrix::Matrix;
use crate::matrix::Vector2;
use crate::utility::apply;
use crate::utility::is_scalar_fn;
use crate::utility::value_of;
use std::ops::Neg;
use vstd::prelude::*;
use vstd::std_specs::ops::AddSpec;
use vstd::std_specs::ops::DivSpec;
use vstd::std_specs::ops::MulSpec;
use vstd::std_specs::ops::NegSpec;
use vstd::std_specs::ops::SubSpec;

verus! {

broadcast use vstd::array::group_array_axioms;

/// A scaling along the three axes.
#[derive(Clone, Copy, Debug)]
pub struct Scale<T> {
    pub x: T,
    pub y: T,
    pub z: T,
}

impl<T: ArithmeticGroup<T>> Scale<T> {
    pub fn new(x: T, y: T, z: T) -> (r: Self)
        ensures
            r.x == x,
            r.y == y,
            r.z == z,
    {
        Self { x, y, z }
    }

    pub fn x(&self) -> (r: T)
        ensures
            r == self.x,
    {
        self.x
    }

    pub fn y(&self) -> (r: T)
        ensures
            r == self.y,
    {
        self.y
    }

    pub fn z(&self) -> (r: T)
        ensures
            r == self.z,
    {
        self.z
    }

    /// This scaling followed by `s`: the factors multiply.
    pub fn chain(&self, s: &Self) -> (r: Self)
        requires
            obeys_arithmetic::<T>(),
            self.x.mul_req(s.x),
            self.y.mul_req(s.y),
            self.z.mul_req(s.z),
        ensures
            r.x == self.x.mul_spec(s.x),
            r.y == self.y.mul_spec(s.y),
            r.z == self.z.mul_spec(s.z),
    {
        Self { x: self.x * s.x, y: self.y * s.y, z: self.z * s.z }
    }

    /// The homogeneous matrix: the factors and a one on the diagonal, zero
    /// elsewhere.
    pub fn get_mat(&self) -> (r: Mat44<T>)
        requires
            obeys_arithmetic::<T>(),
        ensures
            forall|i: int, j: int|
                0 <= i < 4 && 0 <= j < 4 ==> r.at(i, j) == if i != j {
                    T::zero_spec()
                } else if i == 0 {
                    self.x
                } else if i == 1 {
                    self.y
                } else if i == 2 {
                    self.z
                } else {
                    T::identity_spec()
                },
    {
        let o = T::zero();
        Matrix::<T, 4, 4> {
            data: [[self.x, o, o, o], [o, self.y, o, o], [o, o, self.z, o], [o, o, o, T::identity()]],
        }
    }
}

/// A translation by `(x, y, z)`.
#[derive(Clone, Copy, Debug)]
pub struct Translation<T> {
    pub x: T,
    pub y: T,
    pub z: T,
}

impl<T: ArithmeticGroup<T>> Translation<T> {
    pub fn new(x: T, y: T, z: T) -> (r: Self)
        ensures
            r.x == x,
            r.y == y,
            r.z == z,
    {
        Self { x, y, z }
    }

    pub fn x(&self) -> (r: T)
        ensures
            r == self.x,
    {
        self.x
    }

    pub fn y(&self) -> (r: T)
        ensures
            r == self.y,
    {
        self.y
    }

    pub fn z(&self) -> (r: T)
        ensures
            r == self.z,
    {
        self.z
    }

    /// This translation followed by `s`: the offsets add.
    pub fn chain(&self, s: &Self) -> (r: Self)
        requires
            obeys_arithmetic::<T>(),
            self.x.add_req(s.x),
            self.y.add_req(s.y),
            self.z.add_req(s.z),
        ensures
            r.x == self.x.add_spec(s.x),
            r.y == self.y.add_spec(s.y),
            r.z == self.z.add_spec(s.z),
    {
        Self { x: self.x + s.x, y: self.y + s.y, z: self.z + s.z }
    }

    /// The homogeneous matrix: the identity with the offsets in the last
    /// column.
    pub fn get_mat(&self) -> (r: Mat44<T>)
        requires
            obeys_arithmetic::<T>(),
        ensures
            forall|i: int, j: int|
                0 <= i < 4 && 0 <= j < 4 ==> r.at(i, j) == if i == j {
                    T::identity_spec()
                } else if i != 3 {
                    T::zero_spec()
                } else if j == 0 {
                    self.x
                } else if j == 1 {
                    self.y
                } else {
                    self.z
                },
    {
        let o = T::zero();
        let l = T::identity();
        Matrix::<T, 4, 4> {
            data: [[l, o, o, o], [o, l, o, o], [o, o, l, o], [self.x, self.y, self.z, l]],
        }
    }
}

/// A rotation of the plane by an angle.
#[derive(Clone, Copy, Debug)]
pub struct EularRotationXY<T> {
    pub rotation: T,
}

impl<T: ArithmeticGroup<T>> EularRotationXY<T> {
    pub fn new(rotation: T) -> (r: Self)
        ensures
            r.rotation == rotation,
    {
        Self { rotation }
    }

    /// The rotation matrix with rows `cos -sin` and `sin cos`.
    pub fn get_mat<S: Fn(T) -> T, C: Fn(T) -> T>(&self, sin: &S, cos: &C) -> (r: Mat22<T>)
        requires
            obeys_arithmetic::<T>(),
            is_scalar_fn(*sin),
            is_scalar_fn(*cos),
            value_of(*sin, self.rotation).neg_req(),
        ensures
            r.at(0, 0) == value_of(*cos, self.rotation),
            r.at(1, 0) == value_of(*sin, self.rotation).neg_spec(),
            r.at(0, 1) == value_of(*sin, self.rotation),
            r.at(1, 1) == value_of(*cos, self.rotation),
    {
        let c = apply(cos, self.rotation);
        let s = apply(sin, self.rotation);
        Matrix::<T, 2, 2> { data: [[c, s], [s.neg(), c]] }
    }
}

/// A rotation of space by an angle about each axis.
#[derive(Clone, Copy, Debug)]
pub struct EularRotationXYZ<T> {
    pub x: T,
    pub y: T,
    pub z: T,
}

impl<T: ArithmeticGroup<T>> EularRotationXYZ<T> {
    pub fn new(x: T, y: T, z: T) -> (r: Self)
        ensures
            r.x == x,
            r.y == y,
            r.z == z,
    {
        Self { x, y, z }
    }

    /// The angles of both rotations added, axis by axis.
    pub fn chain(&self, r: EularRotationXYZ<T>) -> (res: Self)
        requires
            obeys_arithmetic::<T>(),
            self.x.add_req(r.x),
            self.y.add_req(r.y),
            self.z.add_req(r.z),
        ensures
            res.x == self.x.add_spec(r.x),
            res.y == self.y.add_spec(r.y),
            res.z == self.z.add_spec(r.z),
    {
        Self { x: self.x + r.x, y: self.y + r.y, z: self.z + r.z }
    }
}

/// Twice the area of the triangle spanned by `a - b` and `c - d`,
/// `|(a - b) x (c - d)|`.
pub open spec fn span_area<T: ArithmeticGroup<T> + PartialOrd>(
    a: Vector2<T>,
    b: Vector2<T>,
    c: Vector2<T>,
    d: Vector2<T>,
) -> T {
    abs_spec(a.sub_spec(b).cross_spec(&c.sub_spec(d)))
}

pub open spec fn span_area_req<T: ArithmeticGroup<T> + PartialOrd>(
    a: Vector2<T>,
    b: Vector2<T>,
    c: Vector2<T>,
    d: Vector2<T>,
) -> bool {
    &&& SubSpec::sub_req(a, b)
    &&& SubSpec::sub_req(c, d)
    &&& a.sub_spec(b).cross_req(&c.sub_spec(d))
    &&& abs_req(a.sub_spec(b).cross_spec(&c.sub_spec(d)))
}

/// Evaluates `span_area`.
pub fn area_of_span<T: ArithmeticGroup<T> + PartialOrd>(
    a: Vector2<T>,
    b: Vector2<T>,
    c: Vector2<T>,
    d: Vector2<T>,
) -> (r: T)
    requires
        obeys_arithmetic::<T>(),
        obeys_order::<T>(),
        span_area_req(a, b, c, d),
    ensures
        r == span_area(a, b, c, d),
{
    abs_of((a - b).cross(&(c - d)))
}

/// The barycentric coordinates of a point in a triangle.
#[derive(Clone, Copy, Debug)]
pub struct Berycentric<T> {
    pub alpha: T,
    pub beta: T,
    pub gamma: T,
}

impl<T: ArithmeticGroup<T> + PartialOrd> Berycentric<T> {
    /// The whole area and the three partial areas can be formed and divided.
    pub open spec fn new_req(t: [Vector2<T>; 3], pt: Vector2<T>) -> bool {
        let area = span_area(t[1], t[0], t[2], t[1]);
        &&& span_area_req(t[1], t[0], t[2], t[1])
        &&& span_area_req(t[1], pt, t[2], pt)
        &&& span_area_req(t[0], pt, t[2], pt)
        &&& span_area_req(t[0], pt, t[1], pt)
        &&& span_area(t[1], pt, t[2], pt).div_req(area)
        &&& span_area(t[0], pt, t[2], pt).div_req(area)
        &&& span_area(t[0], pt, t[1], pt).div_req(area)
    }

    /// Each coordinate is the area of the triangle that `pt` spans with the
    /// opposite edge, over the area of the whole triangle.
    pub fn new(triangle: &[Vector2<T>; 3], pt: Vector2<T>) -> (r: Self)
        requires
            obeys_arithmetic::<T>(),
            obeys_order::<T>(),
            Self::new_req(*triangle, pt),
        ensures
            r.alpha == span_area(triangle[1], pt, triangle[2], pt).div_spec(
                span_area(triangle[1], triangle[0], triangle[2], triangle[1]),
            ),
            r.beta == span_area(triangle[0], pt, triangle[2], pt).div_spec(
                span_area(triangle[1], triangle[0], triangle[2], triangle[1]),
            ),
            r.gamma == span_area(triangle[0], pt, triangle[1], pt).div_spec(
                span_area(triangle[1], triangle[0], triangle[2], triangle[1]),
            ),
    {
        let area = area_of_span(triangle[1], triangle[0], triangle[2], triangle[1]);
        let area1 = area_of_span(triangle[1], pt, triangle[2], pt);
        let area2 = area_of_span(triangle[0], pt, triangle[2], pt);
        let area3 = area_of_span(triangle[0], pt, triangle[1], pt);
        Self { alpha: area1 / area, beta: area2 / area, gamma: area3 / area }
    }

    pub fn alpha(&self) -> (r: T)
        ensures
            r == self.alpha,
    {
        self.alpha
    }

    pub fn beta(&self) -> (r: T)
        ensures
            r == self.beta,
    {
        self.beta
    }

    pub fn gamma(&self) -> (r: T)
        ensures
            r == self.gamma,
    {
        self.gamma
    }
}

} // verus!
