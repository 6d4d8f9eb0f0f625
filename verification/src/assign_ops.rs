//! Compound assignment for matrices: `+=`, `-=`, `/=` entry by entry, `/=`
//! by a scalar, and `*=` by a square matrix.
use crate::arithmetic::ArithmeticGroup;
use crate::matrix::Matrix;
use std::ops::AddAssign;
use std::ops::DivAssign;
use std::ops::MulAssign;
use std::ops::SubAssign;
use vstd::prelude::*;
use vstd::std_specs::ops::AddSpec;
use vstd::std_specs::ops::DivSpec;
use vstd::std_specs::ops::MulSpec;
use vstd::std_specs::ops::SubSpec;

verus! {

impl<T: ArithmeticGroup<T>, const COL: usize, const ROW: usize> AddAssign for Matrix<T, COL, ROW> {
    fn add_assign(&mut self, rhs: Self)
        requires
            AddSpec::add_req(*old(self), rhs),
        ensures
            T::obeys_add_spec() ==> *final(self) == AddSpec::add_spec(*old(self), rhs),
    {
        *self = *self + rhs;
    }
}

impl<T: ArithmeticGroup<T>, const COL: usize, const ROW: usize> SubAssign for Matrix<T, COL, ROW> {
    fn sub_assign(&mut self, rhs: Self)
        requires
            SubSpec::sub_req(*old(self), rhs),
        ensures
            T::obeys_sub_spec() ==> *final(self) == SubSpec::sub_spec(*old(self), rhs),
    {
        *self = *self - rhs;
    }
}

impl<T: ArithmeticGroup<T>, const COL: usize, const ROW: usize> DivAssign for Matrix<T, COL, ROW> {
    fn div_assign(&mut self, rhs: Self)
        requires
            DivSpec::div_req(*old(self), rhs),
        ensures
            T::obeys_div_spec() ==> *final(self) == DivSpec::div_spec(*old(self), rhs),
    {
        *self = *self / rhs;
    }
}

impl<T: ArithmeticGroup<T>, const COL: usize, const ROW: usize> DivAssign<T> for Matrix<
    T,
    COL,
    ROW,
> {
    fn div_assign(&mut self, rhs: T)
        requires
            DivSpec::<T>::div_req(*old(self), rhs),
        ensures
            T::obeys_div_spec() ==> *final(self) == DivSpec::<T>::div_spec(*old(self), rhs),
    {
        *self = *self / rhs;
    }
}

impl<T: ArithmeticGroup<T>, const LEN: usize> MulAssign<Matrix<T, LEN, LEN>> for Matrix<
    T,
    LEN,
    LEN,
> {
    fn mul_assign(&mut self, rhs: Matrix<T, LEN, LEN>)
        requires
            MulSpec::<Matrix<T, LEN, LEN>>::mul_req(*old(self), rhs),
        ensures
            *final(self) == MulSpec::<Matrix<T, LEN, LEN>>::mul_spec(*old(self), rhs),
    {
        *self = *self * rhs;
    }
}

} // verus!
