//! Cartesian frames: three axes and an origin, with the matrix that maps
//! local coordinates to the ambient space and the one that maps back.
use crate::arithmetic::obeys_arithmetic;
use crate::arithmetic::ArithmeticGroup;
use crate::arithmetic::Identity;
use crate::arithmetic::Zero;
use crate::matrix::dot_req;
use crate::matrix::dot_spec;
use crate::matrix::Mat44;
use crate::matrix::Matrix;
use crate::matrix::Vector2;
use crate::convert::vector_of;
use crate::matrix::Vector3;
use crate::matrix::Vector4;
use crate::matrix_ops::product_req;
use std::ops::Neg;
use vstd::prelude::*;
use vstd::std_specs::ops::MulSpec;
use vstd::std_specs::ops::NegSpec;

verus! {

broadcast use vstd::array::group_array_axioms;

#[derive(Clone, Copy, Debug)]
pub struct Cartesian3D<T> {
    pub x: Vector3<T>,
    pub y: Vector3<T>,
    pub z: Vector3<T>,
    pub position: Vector3<T>,
    pub mat: Mat44<T>,
    pub inv_mat: Mat44<T>,
}

/// Component `k` of each of the three axes, in the order x, y, z.
pub open spec fn across<T: ArithmeticGroup<T>>(
    x: Vector3<T>,
    y: Vector3<T>,
    z: Vector3<T>,
    k: int,
) -> Seq<T> {
    seq![x.at(0, k), y.at(0, k), z.at(0, k)]
}

/// The last entry of row `k` of the inverse matrix: minus the dot product
/// of `across(x, y, z, k)` with the origin.
pub open spec fn back_shift<T: ArithmeticGroup<T>>(
    x: Vector3<T>,
    y: Vector3<T>,
    z: Vector3<T>,
    position: Vector3<T>,
    k: int,
) -> T {
    dot_spec(across(x, y, z, k), position.elems(), 3).neg_spec()
}

pub open spec fn back_shift_req<T: ArithmeticGroup<T>>(
    x: Vector3<T>,
    y: Vector3<T>,
    z: Vector3<T>,
    position: Vector3<T>,
    k: int,
) -> bool {
    &&& dot_req(across(x, y, z, k), position.elems(), 3)
    &&& dot_spec(across(x, y, z, k), position.elems(), 3).neg_req()
}

impl<T: ArithmeticGroup<T>> Cartesian3D<T> {
    /// The frame with axes `x`, `y`, `z` and origin `position`.
    ///
    /// The columns of `mat` are the axes and the origin above the row
    /// `0 0 0 1`. Row `k < 3` of `inv_mat` is `across(x, y, z, k)` followed
    /// by `back_shift(.., k)`; its last row is `0 0 0 1`.
    pub fn new(x: Vector3<T>, y: Vector3<T>, z: Vector3<T>, position: Vector3<T>) -> (r: Self)
        requires
            obeys_arithmetic::<T>(),
            forall|k: int| 0 <= k < 3 ==> #[trigger] back_shift_req(x, y, z, position, k),
        ensures
            r.x == x,
            r.y == y,
            r.z == z,
            r.position == position,
            r.mat.col_seq(0) == x.elems().push(T::zero_spec()),
            r.mat.col_seq(1) == y.elems().push(T::zero_spec()),
            r.mat.col_seq(2) == z.elems().push(T::zero_spec()),
            r.mat.col_seq(3) == position.elems().push(T::identity_spec()),
            forall|k: int|
                0 <= k < 3 ==> #[trigger] r.inv_mat.row_seq(k) == across(x, y, z, k).push(
                    back_shift(x, y, z, position, k),
                ),
            r.inv_mat.row_seq(3) == seq![
                T::zero_spec(),
                T::zero_spec(),
                T::zero_spec(),
                T::identity_spec(),
            ],
    {
        assert(back_shift_req(x, y, z, position, 0));
        assert(back_shift_req(x, y, z, position, 1));
        assert(back_shift_req(x, y, z, position, 2));
        let a = Vector3::from_xyz(x.x(), y.x(), z.x());
        let b = Vector3::from_xyz(x.y(), y.y(), z.y());
        let c = Vector3::from_xyz(x.z(), y.z(), z.z());
        assert(a.elems() =~= across(x, y, z, 0));
        assert(b.elems() =~= across(x, y, z, 1));
        assert(c.elems() =~= across(x, y, z, 2));
        let zero = T::zero();
        let sa = a.dot(&position).neg();
        let sb = b.dot(&position).neg();
        let sc = c.dot(&position).neg();
        let inv_mat = Matrix::<T, 4, 4> {
            data: [
                [a.x(), b.x(), c.x(), zero],
                [a.y(), b.y(), c.y(), zero],
                [a.z(), b.z(), c.z(), zero],
                [sa, sb, sc, T::identity()],
            ],
        };
        let r = Self { x, y, z, position, mat: Mat44::from_coordination(x, y, z, position), inv_mat };
        proof {
            assert forall|k: int| 0 <= k < 3 implies #[trigger] r.inv_mat.row_seq(k) == across(
                x,
                y,
                z,
                k,
            ).push(back_shift(x, y, z, position, k)) by {
                assert(r.inv_mat.row_seq(k) =~= across(x, y, z, k).push(
                    back_shift(x, y, z, position, k),
                ));
            }
            assert(r.inv_mat.row_seq(3) =~= seq![
                T::zero_spec(),
                T::zero_spec(),
                T::zero_spec(),
                T::identity_spec(),
            ]);
        }
        r
    }

    pub fn x_axis(&self) -> (r: Vector3<T>)
        ensures
            r == self.x,
    {
        self.x
    }

    pub fn y_axis(&self) -> (r: Vector3<T>)
        ensures
            r == self.y,
    {
        self.y
    }

    pub fn z_axis(&self) -> (r: Vector3<T>)
        ensures
            r == self.z,
    {
        self.z
    }

    pub fn position(&self) -> (r: Vector3<T>)
        ensures
            r == self.position,
    {
        self.position
    }

    pub fn get_mat(&self) -> (r: &Mat44<T>)
        ensures
            *r == self.mat,
    {
        &self.mat
    }

    /// The matrix that maps back, as stored at construction; no matrix is
    /// inverted.
    pub fn get_inv_mat(&self) -> (r: &Mat44<T>)
        ensures
            *r == self.inv_mat,
    {
        &self.inv_mat
    }
}

/// The point `v` with a fourth component one.
pub open spec fn homogeneous<T: ArithmeticGroup<T>>(v: Vector3<T>) -> Vector4<T> {
    vector_of::<T, 4>(v.elems().push(T::identity_spec()))
}

/// The first three components of `v`.
pub open spec fn dehomogenized<T: ArithmeticGroup<T>>(v: Vector4<T>) -> Vector3<T> {
    vector_of::<T, 3>(v.elems().take(3))
}

/// The matrix `m` applied to the point `v`: the first three components of
/// `m` times the homogeneous `v`.
pub open spec fn applied<T: ArithmeticGroup<T>>(m: Mat44<T>, v: Vector3<T>) -> Vector3<T> {
    dehomogenized(MulSpec::mul_spec(m, homogeneous(v)))
}

impl<T: ArithmeticGroup<T>> Cartesian3D<T> {
    /// Maps local coordinates to the ambient space.
    pub fn transform(&self, v: Vector3<T>) -> (r: Vector3<T>)
        requires
            obeys_arithmetic::<T>(),
            product_req(self.mat, homogeneous(v)),
        ensures
            r == applied(self.mat, v),
    {
        let h: Vector4<T> = Vector4::from(v);
        Vector3::from(self.mat * h)
    }

    /// Maps ambient coordinates back to local ones.
    pub fn transform_inv(&self, v: Vector3<T>) -> (r: Vector3<T>)
        requires
            obeys_arithmetic::<T>(),
            product_req(self.inv_mat, homogeneous(v)),
        ensures
            r == applied(self.inv_mat, v),
    {
        let h: Vector4<T> = Vector4::from(v);
        Vector3::from(self.inv_mat * h)
    }
}

#[derive(Clone, Copy, Debug)]
pub struct Cartesian2D<T> {
    pub x: Vector2<T>,
    pub y: Vector2<T>,
    pub position: Vector2<T>,
}

impl<T: ArithmeticGroup<T>> Cartesian2D<T> {
    pub fn x_axis(&self) -> (r: Vector2<T>)
        ensures
            r == self.x,
    {
        self.x
    }

    pub fn y_axis(&self) -> (r: Vector2<T>)
        ensures
            r == self.y,
    {
        self.y
    }

    pub fn position(&self) -> (r: Vector2<T>)
        ensures
            r == self.position,
    {
        self.position
    }
}

impl<T: ArithmeticGroup<T>> Default for Cartesian3D<T> {
    /// The ambient frame: the three unit axes at the origin, with the
    /// identity as matrix both ways.
    fn default() -> (r: Self)
        ensures
            T::obeys_zero_spec() && T::obeys_identity_spec() ==> {
                &&& r.x.elems() == seq![T::identity_spec(), T::zero_spec(), T::zero_spec()]
                &&& r.y.elems() == seq![T::zero_spec(), T::identity_spec(), T::zero_spec()]
                &&& r.z.elems() == seq![T::zero_spec(), T::zero_spec(), T::identity_spec()]
                &&& r.position.elems() == seq![T::zero_spec(), T::zero_spec(), T::zero_spec()]
                &&& forall|i: int, j: int|
                    0 <= i < 4 && 0 <= j < 4 ==> r.mat.at(i, j) == r.inv_mat.at(i, j) && r.mat.at(
                        i,
                        j,
                    ) == if i == j {
                        T::identity_spec()
                    } else {
                        T::zero_spec()
                    }
            },
    {
        let position = Vector3::<T>::zeros();
        proof {
            if T::obeys_zero_spec() {
                assert(position.elems() =~= seq![T::zero_spec(), T::zero_spec(), T::zero_spec()]);
            }
        }
        Self {
            x: Vector3::x_axis(),
            y: Vector3::y_axis(),
            z: Vector3::z_axis(),
            position,
            mat: Mat44::identity(),
            inv_mat: Mat44::identity(),
        }
    }
}

impl<T: ArithmeticGroup<T>> Default for Cartesian2D<T> {
    /// The ambient frame: the two unit axes at the origin.
    fn default() -> (r: Self)
        ensures
            T::obeys_zero_spec() && T::obeys_identity_spec() ==> {
                &&& r.x.elems() == seq![T::identity_spec(), T::zero_spec()]
                &&& r.y.elems() == seq![T::zero_spec(), T::identity_spec()]
                &&& r.position.elems() == seq![T::zero_spec(), T::zero_spec()]
            },
    {
        let position = Vector2::<T>::zeros();
        proof {
            if T::obeys_zero_spec() {
                assert(position.elems() =~= seq![T::zero_spec(), T::zero_spec()]);
            }
        }
        Self { x: Vector2::x_axis(), y: Vector2::y_axis(), position }
    }
}

/// Polar coordinates about an axis: the axis and the angle.
#[derive(Clone, Copy, Debug)]
pub struct Polar<T> {
    pub axis: Vector3<T>,
    pub theta: T,
}

/// Cylindrical coordinates: polar coordinates and the height axis.
#[derive(Clone, Copy, Debug)]
pub struct Cylinder<T> {
    pub polar: Polar<T>,
    pub z: Vector3<T>,
}

} // verus!
