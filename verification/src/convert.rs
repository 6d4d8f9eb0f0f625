//! Conversions between vectors of two, three and four components.
//!
//! Going up, a missing third component becomes zero and a missing fourth
//! component one (the homogeneous coordinate of a point). Going down, the
//! trailing components are dropped.
use crate::arithmetic::ArithmeticGroup;
use crate::arithmetic::Identity;
use crate::arithmetic::Zero;
use crate::matrix::Vector2;
use crate::matrix::Vector3;
use crate::matrix::Vector4;
use vstd::prelude::*;
use vstd::std_specs::convert::FromSpecImpl;

verus! {

/// The vector whose components are those of `s`.
pub open spec fn vector_of<T: ArithmeticGroup<T>, const LEN: usize>(s: Seq<T>) -> crate::matrix::Vector<
    T,
    LEN,
> {
    crate::matrix::Vector::<T, LEN>::with_entries(|i: int, j: int| s[j])
}

/// A vector is `vector_of` its own components.
pub proof fn lemma_vector_of<T: ArithmeticGroup<T>, const LEN: usize>(
    v: crate::matrix::Vector<T, LEN>,
    s: Seq<T>,
)
    requires
        v.elems() == s,
    ensures
        v == vector_of::<T, LEN>(s),
{
    crate::matrix::Vector::<T, LEN>::lemma_with_entries(v, |i: int, j: int| s[j]);
}

impl<T: ArithmeticGroup<T>> FromSpecImpl<Vector3<T>> for Vector4<T> {
    open spec fn obeys_from_spec() -> bool {
        T::obeys_identity_spec()
    }

    open spec fn from_spec(value: Vector3<T>) -> Self {
        vector_of::<T, 4>(value.elems().push(T::identity_spec()))
    }
}

impl<T: ArithmeticGroup<T>> From<Vector3<T>> for Vector4<T> {
    fn from(value: Vector3<T>) -> (r: Self) {
        let r = Self::from_xyzw(value.x(), value.y(), value.z(), T::identity());
        proof {
            if T::obeys_identity_spec() {
                assert(r.elems() =~= value.elems().push(T::identity_spec()));
                lemma_vector_of::<T, 4>(r, value.elems().push(T::identity_spec()));
            }
        }
        r
    }
}

impl<T: ArithmeticGroup<T>> FromSpecImpl<Vector2<T>> for Vector4<T> {
    open spec fn obeys_from_spec() -> bool {
        T::obeys_identity_spec() && T::obeys_zero_spec()
    }

    open spec fn from_spec(value: Vector2<T>) -> Self {
        vector_of::<T, 4>(value.elems().push(T::zero_spec()).push(T::identity_spec()))
    }
}

impl<T: ArithmeticGroup<T>> From<Vector2<T>> for Vector4<T> {
    fn from(value: Vector2<T>) -> (r: Self) {
        let r = Self::from_xyzw(value.x(), value.y(), T::zero(), T::identity());
        proof {
            if T::obeys_identity_spec() && T::obeys_zero_spec() {
                let s = value.elems().push(T::zero_spec()).push(T::identity_spec());
                assert(r.elems() =~= s);
                lemma_vector_of::<T, 4>(r, s);
            }
        }
        r
    }
}

impl<T: ArithmeticGroup<T>> FromSpecImpl<Vector2<T>> for Vector3<T> {
    open spec fn obeys_from_spec() -> bool {
        T::obeys_zero_spec()
    }

    open spec fn from_spec(value: Vector2<T>) -> Self {
        vector_of::<T, 3>(value.elems().push(T::zero_spec()))
    }
}

impl<T: ArithmeticGroup<T>> From<Vector2<T>> for Vector3<T> {
    fn from(value: Vector2<T>) -> (r: Self) {
        let r = Self::from_xyz(value.x(), value.y(), T::zero());
        proof {
            if T::obeys_zero_spec() {
                assert(r.elems() =~= value.elems().push(T::zero_spec()));
                lemma_vector_of::<T, 3>(r, value.elems().push(T::zero_spec()));
            }
        }
        r
    }
}

impl<T: ArithmeticGroup<T>> FromSpecImpl<Vector3<T>> for Vector2<T> {
    open spec fn obeys_from_spec() -> bool {
        true
    }

    open spec fn from_spec(value: Vector3<T>) -> Self {
        vector_of::<T, 2>(value.elems().take(2))
    }
}

impl<T: ArithmeticGroup<T>> From<Vector3<T>> for Vector2<T> {
    fn from(value: Vector3<T>) -> (r: Self) {
        let r = Self::from_xy(value.x(), value.y());
        proof {
            assert(r.elems() =~= value.elems().take(2));
            lemma_vector_of::<T, 2>(r, value.elems().take(2));
        }
        r
    }
}

impl<T: ArithmeticGroup<T>> FromSpecImpl<Vector4<T>> for Vector3<T> {
    open spec fn obeys_from_spec() -> bool {
        true
    }

    open spec fn from_spec(value: Vector4<T>) -> Self {
        vector_of::<T, 3>(value.elems().take(3))
    }
}

impl<T: ArithmeticGroup<T>> From<Vector4<T>> for Vector3<T> {
    fn from(value: Vector4<T>) -> (r: Self) {
        let r = Self::from_xyz(value.x(), value.y(), value.z());
        proof {
            assert(r.elems() =~= value.elems().take(3));
            lemma_vector_of::<T, 3>(r, value.elems().take(3));
        }
        r
    }
}

} // verus!
