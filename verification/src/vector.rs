//! Column vectors: construction, component access, dot and cross products.
//!
//! A vector is a one-column matrix. Its model is `elems()`, the sequence of
//! its components.
use crate::arithmetic::obeys_arithmetic;
use crate::arithmetic::ArithmeticGroup;
use crate::arithmetic::Identity;
use crate::arithmetic::Zero;
use crate::matrix::dot_req;
use crate::matrix::dot_spec;
use crate::matrix::ColVector;
use crate::matrix::Matrix;
use crate::matrix::Vector2;
use crate::matrix::Vector3;
use crate::matrix::Vector4;
use crate::matrix_ops::lemma_dot_req_prefix;
use crate::utility::apply;
use crate::utility::is_scalar_fn;
use crate::utility::returned;
use crate::utility::value_of;
use vstd::prelude::*;
use vstd::std_specs::ops::DivSpec;
use vstd::std_specs::ops::MulSpec;
use vstd::std_specs::ops::SubSpec;

verus! {

broadcast use vstd::array::group_array_axioms;

/// `a*b - c*d`, the building block of determinants and cross products.
pub open spec fn cross_term<T: ArithmeticGroup<T>>(a: T, b: T, c: T, d: T) -> T {
    a.mul_spec(b).sub_spec(c.mul_spec(d))
}

/// Both products of `cross_term` and their difference are within the
/// scalar's limits.
pub open spec fn cross_term_req<T: ArithmeticGroup<T>>(a: T, b: T, c: T, d: T) -> bool {
    &&& a.mul_req(b)
    &&& c.mul_req(d)
    &&& a.mul_spec(b).sub_req(c.mul_spec(d))
}

impl<T: ArithmeticGroup<T>, const LEN: usize> ColVector<T, LEN> {
    /// The components, first to last.
    pub open spec fn elems(&self) -> Seq<T> {
        self.col_seq(0)
    }

    /// The dot product with `rhs`.
    pub open spec fn dot_with(&self, rhs: &Self) -> T {
        dot_spec(self.elems(), rhs.elems(), LEN as nat)
    }

    /// The dot product with `rhs` stays within the scalar's limits.
    pub open spec fn dot_with_req(&self, rhs: &Self) -> bool {
        dot_req(self.elems(), rhs.elems(), LEN as nat)
    }

    pub fn new(datas: [T; LEN]) -> (r: Self)
        ensures
            r.elems() == datas@,
    {
        let r = Self { data: [datas] };
        assert(r.elems() =~= datas@);
        r
    }

    /// The squared Euclidean length: the dot product of the vector with itself.
    pub fn length_sqrd(&self) -> (r: T)
        requires
            obeys_arithmetic::<T>(),
            self.dot_with_req(self),
        ensures
            r == self.dot_with(self),
    {
        self.dot(self)
    }

    pub fn dot(&self, rhs: &Self) -> (r: T)
        requires
            obeys_arithmetic::<T>(),
            self.dot_with_req(rhs),
        ensures
            r == self.dot_with(rhs),
    {
        let mut sum = T::zero();
        let mut i: usize = 0;
        while i < LEN
            invariant
                i <= LEN,
                obeys_arithmetic::<T>(),
                self.dot_with_req(rhs),
                sum == dot_spec(self.elems(), rhs.elems(), i as nat),
            decreases LEN - i,
        {
            proof {
                lemma_dot_req_prefix(self.elems(), rhs.elems(), LEN as nat, (i + 1) as nat);
            }
            sum = sum + self.get(0, i) * rhs.get(0, i);
            i = i + 1;
        }
        sum
    }

    /// The Euclidean length: the square root, as `sqrt` computes it, of the
    /// squared length.
    pub open spec fn length_spec<F: Fn(T) -> T>(&self, sqrt: F) -> T {
        value_of(sqrt, self.dot_with(self))
    }

    /// The vector divided by its length.
    pub open spec fn normalize_spec<F: Fn(T) -> T>(&self, sqrt: F) -> Self {
        DivSpec::<T>::div_spec(*self, self.length_spec(sqrt))
    }

    /// The length can be formed and every component divided by it. A
    /// scalar type that cannot divide by zero thereby rules out the zero
    /// vector.
    pub open spec fn normalize_req<F: Fn(T) -> T>(&self, sqrt: F) -> bool {
        &&& self.dot_with_req(self)
        &&& DivSpec::<T>::div_req(*self, self.length_spec(sqrt))
    }

    pub fn length<F: Fn(T) -> T>(&self, sqrt: &F) -> (r: T)
        requires
            obeys_arithmetic::<T>(),
            is_scalar_fn(*sqrt),
            self.dot_with_req(self),
        ensures
            r == self.length_spec(*sqrt),
            returned(*sqrt, self.dot_with(self)),
    {
        apply(sqrt, self.length_sqrd())
    }

    pub fn normalize<F: Fn(T) -> T>(&self, sqrt: &F) -> (r: Self)
        requires
            obeys_arithmetic::<T>(),
            is_scalar_fn(*sqrt),
            self.normalize_req(*sqrt),
        ensures
            r == self.normalize_spec(*sqrt),
            returned(*sqrt, self.dot_with(self)),
    {
        *self / self.length(sqrt)
    }

    pub fn normalize_self<F: Fn(T) -> T>(&mut self, sqrt: &F)
        requires
            obeys_arithmetic::<T>(),
            is_scalar_fn(*sqrt),
            old(self).normalize_req(*sqrt),
        ensures
            *final(self) == old(self).normalize_spec(*sqrt),
            returned(*sqrt, old(self).dot_with(old(self))),
    {
        *self = *self / self.length(sqrt);
    }

    pub fn to_array(&self) -> (r: [T; LEN])
        ensures
            r@ == self.elems(),
    {
        let r = self.data[0];
        assert(r@ =~= self.elems());
        r
    }
}

impl<T: ArithmeticGroup<T>> Vector2<T> {
    /// The scalar cross product `x1*y2 - y1*x2`.
    pub open spec fn cross_spec(&self, rhs: &Self) -> T {
        cross_term(self.at(0, 0), rhs.at(0, 1), self.at(0, 1), rhs.at(0, 0))
    }

    pub open spec fn cross_req(&self, rhs: &Self) -> bool {
        cross_term_req(self.at(0, 0), rhs.at(0, 1), self.at(0, 1), rhs.at(0, 0))
    }

    pub fn x_axis() -> (r: Self)
        ensures
            T::obeys_zero_spec() && T::obeys_identity_spec() ==> r.elems() == seq![
                T::identity_spec(),
                T::zero_spec(),
            ],
    {
        Self::from_xy(T::identity(), T::zero())
    }

    pub fn y_axis() -> (r: Self)
        ensures
            T::obeys_zero_spec() && T::obeys_identity_spec() ==> r.elems() == seq![
                T::zero_spec(),
                T::identity_spec(),
            ],
    {
        Self::from_xy(T::zero(), T::identity())
    }

    /// The vector with components `x` and `y`.
    pub open spec fn xy_spec(x: T, y: T) -> Self {
        Self::with_entries(
            |i: int, j: int|
                if j == 0 {
                    x
                } else {
                    y
                },
        )
    }

    /// The components of `xy_spec(x, y)` are `x` and `y`.
    pub proof fn lemma_xy_entries(x: T, y: T)
        ensures
            Self::xy_spec(x, y).at(0, 0) == x,
            Self::xy_spec(x, y).at(0, 1) == y,
    {
        Self::lemma_entries_of(
            |i: int, j: int|
                if j == 0 {
                    x
                } else {
                    y
                },
        );
    }

    pub fn from_xy(x: T, y: T) -> (r: Self)
        ensures
            r.elems() == seq![x, y],
            r == Self::xy_spec(x, y),
    {
        let r = Self::new([x, y]);
        assert(r.elems() =~= seq![x, y]);
        proof {
            Self::lemma_with_entries(
                r,
                |i: int, j: int|
                    if j == 0 {
                        x
                    } else {
                        y
                    },
            );
        }
        r
    }

    pub fn x(&self) -> (r: T)
        ensures
            r == self.at(0, 0),
    {
        self.get(0, 0)
    }

    pub fn y(&self) -> (r: T)
        ensures
            r == self.at(0, 1),
    {
        self.get(0, 1)
    }

    pub fn cross(&self, rhs: &Self) -> (r: T)
        requires
            obeys_arithmetic::<T>(),
            self.cross_req(rhs),
        ensures
            r == self.cross_spec(rhs),
    {
        self.x() * rhs.y() - self.y() * rhs.x()
    }
}

impl<T: ArithmeticGroup<T>> Vector3<T> {
    /// The components of the right-handed cross product.
    pub open spec fn cross_spec(&self, rhs: &Self) -> Seq<T> {
        seq![
            cross_term(self.at(0, 1), rhs.at(0, 2), self.at(0, 2), rhs.at(0, 1)),
            cross_term(self.at(0, 2), rhs.at(0, 0), self.at(0, 0), rhs.at(0, 2)),
            cross_term(self.at(0, 0), rhs.at(0, 1), self.at(0, 1), rhs.at(0, 0)),
        ]
    }

    /// The cross product as a vector.
    pub open spec fn cross_vec(&self, rhs: &Self) -> Self {
        Self::with_entries(|i: int, j: int| self.cross_spec(rhs)[j])
    }

    pub open spec fn cross_req(&self, rhs: &Self) -> bool {
        &&& cross_term_req(self.at(0, 1), rhs.at(0, 2), self.at(0, 2), rhs.at(0, 1))
        &&& cross_term_req(self.at(0, 2), rhs.at(0, 0), self.at(0, 0), rhs.at(0, 2))
        &&& cross_term_req(self.at(0, 0), rhs.at(0, 1), self.at(0, 1), rhs.at(0, 0))
    }

    pub fn x_axis() -> (r: Self)
        ensures
            T::obeys_zero_spec() && T::obeys_identity_spec() ==> r.elems() == seq![
                T::identity_spec(),
                T::zero_spec(),
                T::zero_spec(),
            ],
    {
        Self::from_xyz(T::identity(), T::zero(), T::zero())
    }

    pub fn y_axis() -> (r: Self)
        ensures
            T::obeys_zero_spec() && T::obeys_identity_spec() ==> r.elems() == seq![
                T::zero_spec(),
                T::identity_spec(),
                T::zero_spec(),
            ],
    {
        Self::from_xyz(T::zero(), T::identity(), T::zero())
    }

    pub fn z_axis() -> (r: Self)
        ensures
            T::obeys_zero_spec() && T::obeys_identity_spec() ==> r.elems() == seq![
                T::zero_spec(),
                T::zero_spec(),
                T::identity_spec(),
            ],
    {
        Self::from_xyz(T::zero(), T::zero(), T::identity())
    }

    pub fn from_xyz(x: T, y: T, z: T) -> (r: Self)
        ensures
            r.elems() == seq![x, y, z],
    {
        let r = Self::new([x, y, z]);
        assert(r.elems() =~= seq![x, y, z]);
        r
    }

    /// The homogeneous point of a 2D vector: third component one.
    pub fn from_vec2(v: Vector2<T>) -> (r: Self)
        ensures
            T::obeys_identity_spec() ==> r.elems() == seq![
                v.at(0, 0),
                v.at(0, 1),
                T::identity_spec(),
            ],
    {
        Self::from_xyz(v.x(), v.y(), T::identity())
    }

    /// The first three components of a 4D vector.
    pub fn from_vec4(v: Vector4<T>) -> (r: Self)
        ensures
            r.elems() == seq![v.at(0, 0), v.at(0, 1), v.at(0, 2)],
    {
        Self::from_xyz(v.x(), v.y(), v.z())
    }

    pub fn x(&self) -> (r: T)
        ensures
            r == self.at(0, 0),
    {
        self.get(0, 0)
    }

    pub fn y(&self) -> (r: T)
        ensures
            r == self.at(0, 1),
    {
        self.get(0, 1)
    }

    pub fn z(&self) -> (r: T)
        ensures
            r == self.at(0, 2),
    {
        self.get(0, 2)
    }

    pub fn xy(&self) -> (r: Vector2<T>)
        ensures
            r.elems() == seq![self.at(0, 0), self.at(0, 1)],
    {
        Vector2::from_xy(self.x(), self.y())
    }

    pub fn xz(&self) -> (r: Vector2<T>)
        ensures
            r.elems() == seq![self.at(0, 0), self.at(0, 2)],
    {
        Vector2::from_xy(self.x(), self.z())
    }

    pub fn yz(&self) -> (r: Vector2<T>)
        ensures
            r.elems() == seq![self.at(0, 1), self.at(0, 2)],
    {
        Vector2::from_xy(self.y(), self.z())
    }

    pub fn cross(&self, rhs: &Self) -> (r: Self)
        requires
            obeys_arithmetic::<T>(),
            self.cross_req(rhs),
        ensures
            r.elems() == self.cross_spec(rhs),
            r == self.cross_vec(rhs),
    {
        let r = Self::new(
            [
                self.y() * rhs.z() - self.z() * rhs.y(),
                self.z() * rhs.x() - self.x() * rhs.z(),
                self.x() * rhs.y() - self.y() * rhs.x(),
            ],
        );
        assert(r.elems() =~= self.cross_spec(rhs));
        proof {
            Self::lemma_with_entries(r, |i: int, j: int| self.cross_spec(rhs)[j]);
        }
        r
    }
}

impl<T: ArithmeticGroup<T>> Vector4<T> {
    pub fn from_xyzw(x: T, y: T, z: T, w: T) -> (r: Self)
        ensures
            r.elems() == seq![x, y, z, w],
    {
        let r = Self::new([x, y, z, w]);
        assert(r.elems() =~= seq![x, y, z, w]);
        r
    }

    pub fn x(&self) -> (r: T)
        ensures
            r == self.at(0, 0),
    {
        self.get(0, 0)
    }

    pub fn y(&self) -> (r: T)
        ensures
            r == self.at(0, 1),
    {
        self.get(0, 1)
    }

    pub fn z(&self) -> (r: T)
        ensures
            r == self.at(0, 2),
    {
        self.get(0, 2)
    }

    pub fn w(&self) -> (r: T)
        ensures
            r == self.at(0, 3),
    {
        self.get(0, 3)
    }

    pub fn xy(&self) -> (r: Vector2<T>)
        ensures
            r.elems() == seq![self.at(0, 0), self.at(0, 1)],
    {
        Vector2::from_xy(self.x(), self.y())
    }

    pub fn xz(&self) -> (r: Vector2<T>)
        ensures
            r.elems() == seq![self.at(0, 0), self.at(0, 2)],
    {
        Vector2::from_xy(self.x(), self.z())
    }

    pub fn yz(&self) -> (r: Vector2<T>)
        ensures
            r.elems() == seq![self.at(0, 1), self.at(0, 2)],
    {
        Vector2::from_xy(self.y(), self.z())
    }

    pub fn xyz(&self) -> (r: Vector3<T>)
        ensures
            r.elems() == seq![self.at(0, 0), self.at(0, 1), self.at(0, 2)],
    {
        Vector3::from_xyz(self.x(), self.y(), self.z())
    }
}

impl<T: ArithmeticGroup<T>> Matrix<T, 4, 4> {
    /// The homogeneous transform whose first three columns are the axes `x`,
    /// `y`, `z` and whose fourth is `position`; the bottom row is `0 0 0 1`.
    pub fn from_coordination(x: Vector3<T>, y: Vector3<T>, z: Vector3<T>, position: Vector3<T>) -> (r:
        Self)
        ensures
            T::obeys_zero_spec() && T::obeys_identity_spec() ==> {
                &&& r.col_seq(0) == x.elems().push(T::zero_spec())
                &&& r.col_seq(1) == y.elems().push(T::zero_spec())
                &&& r.col_seq(2) == z.elems().push(T::zero_spec())
                &&& r.col_seq(3) == position.elems().push(T::identity_spec())
            },
    {
        let r = Self {
            data: [
                [x.x(), x.y(), x.z(), T::zero()],
                [y.x(), y.y(), y.z(), T::zero()],
                [z.x(), z.y(), z.z(), T::zero()],
                [position.x(), position.y(), position.z(), T::identity()],
            ],
        };
        proof {
            if T::obeys_zero_spec() && T::obeys_identity_spec() {
                assert(r.col_seq(0) =~= x.elems().push(T::zero_spec()));
                assert(r.col_seq(1) =~= y.elems().push(T::zero_spec()));
                assert(r.col_seq(2) =~= z.elems().push(T::zero_spec()));
                assert(r.col_seq(3) =~= position.elems().push(T::identity_spec()));
            }
        }
        r
    }
}

} // verus!
