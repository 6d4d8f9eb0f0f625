//! The scalar bundle that matrices and geometric primitives are generic over.
//!
//! A scalar is any `Copy` type with the four field operations and negation
//! from `std::ops`, plus an additive and a multiplicative identity. Contracts
//! speak about scalars only through the specification functions that `vstd`
//! attaches to the operator traits (`add_spec`, `mul_req`, ...), so every
//! statement holds for whatever scalar a caller picks.
use std::ops::Add;
use std::ops::Div;
use std::ops::Mul;
use std::ops::Neg;
use std::ops::Sub;
use vstd::prelude::*;
use vstd::std_specs::cmp::PartialEqSpec;
use vstd::std_specs::cmp::PartialOrdIs;
use vstd::std_specs::cmp::PartialOrdSpec;
use vstd::std_specs::convert::FromSpec;
use vstd::std_specs::ops::AddSpec;
use vstd::std_specs::ops::DivSpec;
use vstd::std_specs::ops::MulSpec;
use vstd::std_specs::ops::NegSpec;
use vstd::std_specs::ops::SubSpec;

verus! {

/// The four field operations and negation, closed over `T`.
pub trait Arithmetic<T>: Neg<Output = T> + Add<T, Output = T> + Sub<T, Output = T> + Mul<
    T,
    Output = T,
> + Div<T, Output = T> {

}

impl<T> Arithmetic<T> for T where
    T: Neg<Output = T> + Add<T, Output = T> + Sub<T, Output = T> + Mul<T, Output = T> + Div<
        T,
        Output = T,
    >,
 {

}

/// A copyable scalar with arithmetic and both identities.
pub trait ArithmeticGroup<T>: Arithmetic<T> + Identity<T> + Zero<T> + Copy {

}

impl<T> ArithmeticGroup<T> for T where T: Arithmetic<T> + Identity<T> + Zero<T> + Copy {

}

/// The multiplicative identity of a scalar type.
pub trait Identity<T> {
    /// Whether `identity` is known to return `identity_spec()`.
    spec fn obeys_identity_spec() -> bool;

    /// The value that stands for one.
    spec fn identity_spec() -> T;

    fn identity() -> (r: T)
        ensures
            Self::obeys_identity_spec() ==> r == Self::identity_spec(),
    ;
}

/// The additive identity of a scalar type.
pub trait Zero<T> {
    /// Whether `zero` is known to return `zero_spec()`.
    spec fn obeys_zero_spec() -> bool;

    /// The value that stands for zero.
    spec fn zero_spec() -> T;

    fn zero() -> (r: T)
        ensures
            Self::obeys_zero_spec() ==> r == Self::zero_spec(),
    ;
}

/// Every scalar that embeds the small signed integers has a one: the image of `1`.
impl<T: From<i8>> Identity<T> for T {
    open spec fn obeys_identity_spec() -> bool {
        <T as FromSpec<i8>>::obeys_from_spec()
    }

    open spec fn identity_spec() -> T {
        <T as FromSpec<i8>>::from_spec(1i8)
    }

    fn identity() -> (r: T) {
        T::from(1i8)
    }
}

/// Every scalar that embeds the small signed integers has a zero: the image of `0`.
impl<T: From<i8>> Zero<T> for T {
    open spec fn obeys_zero_spec() -> bool {
        <T as FromSpec<i8>>::obeys_from_spec()
    }

    open spec fn zero_spec() -> T {
        <T as FromSpec<i8>>::from_spec(0i8)
    }

    fn zero() -> (r: T) {
        T::from(0i8)
    }
}

/// All operations of the scalar bundle return exactly what their
/// specification functions say. Holds for the machine integers; a scalar with
/// rounding (whose results `vstd` leaves open) does not satisfy it.
pub open spec fn obeys_arithmetic<T: ArithmeticGroup<T>>() -> bool {
    &&& <T as Zero<T>>::obeys_zero_spec()
    &&& <T as Identity<T>>::obeys_identity_spec()
    &&& <T as NegSpec>::obeys_neg_spec()
    &&& <T as AddSpec<T>>::obeys_add_spec()
    &&& <T as SubSpec<T>>::obeys_sub_spec()
    &&& <T as MulSpec<T>>::obeys_mul_spec()
    &&& <T as DivSpec<T>>::obeys_div_spec()
}

/// Comparisons with `<`, `<=` and `==` return exactly what the scalar's
/// ordering specification says.
pub open spec fn obeys_order<T: PartialOrd>() -> bool {
    &&& T::obeys_partial_cmp_spec()
    &&& T::obeys_eq_spec()
}

/// `a < b` in the scalar's ordering.
pub open spec fn less<T: PartialOrd>(a: T, b: T) -> bool {
    a.is_lt(&b)
}

/// `a <= b` in the scalar's ordering.
pub open spec fn less_eq<T: PartialOrd>(a: T, b: T) -> bool {
    a.is_le(&b)
}

/// The larger of `t` and `lo`: `lo` where `t < lo`, else `t`.
pub open spec fn at_least<T: PartialOrd>(t: T, lo: T) -> T {
    if less(t, lo) {
        lo
    } else {
        t
    }
}

/// `t` clamped to `[lo, hi]`: `lo` where `t < lo`, else `hi` where `hi < t`,
/// else `t`.
pub open spec fn clamped<T: PartialOrd>(t: T, lo: T, hi: T) -> T {
    if less(t, lo) {
        lo
    } else if less(hi, t) {
        hi
    } else {
        t
    }
}

/// The larger of `t` and `lo`.
pub fn max_of<T: PartialOrd + Copy>(t: T, lo: T) -> (r: T)
    ensures
        obeys_order::<T>() ==> r == at_least(t, lo),
{
    if t < lo {
        lo
    } else {
        t
    }
}

/// `t` clamped to `[lo, hi]`.
pub fn clamp_to<T: PartialOrd + Copy>(t: T, lo: T, hi: T) -> (r: T)
    ensures
        obeys_order::<T>() ==> r == clamped(t, lo, hi),
{
    if t < lo {
        lo
    } else if hi < t {
        hi
    } else {
        t
    }
}

/// The absolute value: `-v` where `v < 0`, else `v`.
pub open spec fn abs_spec<T: ArithmeticGroup<T> + PartialOrd>(v: T) -> T {
    if less(v, T::zero_spec()) {
        v.neg_spec()
    } else {
        v
    }
}

/// A negative `v` can be negated.
pub open spec fn abs_req<T: ArithmeticGroup<T> + PartialOrd>(v: T) -> bool {
    less(v, T::zero_spec()) ==> v.neg_req()
}

/// The absolute value of `v`.
pub fn abs_of<T: ArithmeticGroup<T> + PartialOrd>(v: T) -> (r: T)
    requires
        obeys_arithmetic::<T>(),
        obeys_order::<T>(),
        abs_req(v),
    ensures
        r == abs_spec(v),
{
    let zero = T::zero();
    if v < zero {
        v.neg()
    } else {
        v
    }
}

/// The scalar two, `1 + 1`.
pub open spec fn two_spec<T: ArithmeticGroup<T>>() -> T {
    T::identity_spec().add_spec(T::identity_spec())
}

/// `1 + 1` is within the scalar's limits.
pub open spec fn two_req<T: ArithmeticGroup<T>>() -> bool {
    T::identity_spec().add_req(T::identity_spec())
}

/// The scalar two.
pub fn two<T: ArithmeticGroup<T>>() -> (r: T)
    requires
        obeys_arithmetic::<T>(),
        two_req::<T>(),
    ensures
        r == two_spec::<T>(),
{
    T::identity() + T::identity()
}

/// The smaller of `a` and `b`: `b` where `b < a`, else `a`.
pub open spec fn at_most<T: PartialOrd>(a: T, b: T) -> T {
    if less(b, a) {
        b
    } else {
        a
    }
}

/// The smaller of `a` and `b`.
pub fn min_of<T: PartialOrd + Copy>(a: T, b: T) -> (r: T)
    ensures
        obeys_order::<T>() ==> r == at_most(a, b),
{
    if b < a {
        b
    } else {
        a
    }
}

} // verus!
