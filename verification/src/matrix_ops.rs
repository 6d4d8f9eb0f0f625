//! Operator impls for `Matrix`: entrywise `+ - /`, scaling by a scalar,
//! negation, and the matrix product.
use crate::arithmetic::ArithmeticGroup;
use crate::arithmetic::Zero;
use crate::matrix::dot_req;
use crate::matrix::dot_spec;
use crate::matrix::Matrix;
use std::ops::Add;
use std::ops::Div;
use std::ops::Mul;
use std::ops::Neg;
use std::ops::Sub;
use vstd::prelude::*;
use vstd::std_specs::ops::AddSpec;
use vstd::std_specs::ops::AddSpecImpl;
use vstd::std_specs::ops::DivSpec;
use vstd::std_specs::ops::DivSpecImpl;
use vstd::std_specs::ops::MulSpec;
use vstd::std_specs::ops::MulSpecImpl;
use vstd::std_specs::ops::NegSpec;
use vstd::std_specs::ops::NegSpecImpl;
use vstd::std_specs::ops::SubSpec;
use vstd::std_specs::ops::SubSpecImpl;

verus! {

broadcast use vstd::array::group_array_axioms;

impl<T: ArithmeticGroup<T>, const COL: usize, const ROW: usize> AddSpecImpl for Matrix<T, COL, ROW> {
    open spec fn obeys_add_spec() -> bool {
        <T as AddSpec<T>>::obeys_add_spec()
    }

    open spec fn add_req(self, rhs: Self) -> bool {
        forall|i: int, j: int| 0 <= i < COL && 0 <= j < ROW ==> #[trigger] self.at(i, j).add_req(rhs.at(i, j))
    }

    open spec fn add_spec(self, rhs: Self) -> Self {
        Self::with_entries(|i: int, j: int| self.at(i, j).add_spec(rhs.at(i, j)))
    }
}

impl<T: ArithmeticGroup<T>, const COL: usize, const ROW: usize> Add for Matrix<T, COL, ROW> {
    type Output = Self;

    /// The entrywise sum.
    fn add(self, rhs: Self) -> (r: Self)
        ensures
            <T as AddSpec<T>>::obeys_add_spec() ==> forall|i: int, j: int|
                0 <= i < COL && 0 <= j < ROW ==> r.at(i, j) == self.at(i, j).add_spec(rhs.at(i, j)),
    {
        let mut result = self;
        let mut x: usize = 0;
        while x < COL
            invariant
                x <= COL,
                forall|i: int, j: int| 0 <= i < COL && 0 <= j < ROW ==> #[trigger] self.at(i, j).add_req(rhs.at(i, j)),
                <T as AddSpec<T>>::obeys_add_spec() ==> forall|i: int, j: int|
                    0 <= i < x && 0 <= j < ROW ==> result.at(i, j) == self.at(i, j).add_spec(rhs.at(i, j)),
            decreases COL - x,
        {
            let mut y: usize = 0;
            while y < ROW
                invariant
                    x < COL,
                    y <= ROW,
                    forall|i: int, j: int| 0 <= i < COL && 0 <= j < ROW ==> #[trigger] self.at(i, j).add_req(rhs.at(i, j)),
                    <T as AddSpec<T>>::obeys_add_spec() ==> forall|i: int, j: int|
                        0 <= i < x && 0 <= j < ROW ==> result.at(i, j) == self.at(i, j).add_spec(rhs.at(i, j)),
                    <T as AddSpec<T>>::obeys_add_spec() ==> forall|j: int|
                        0 <= j < y ==> result.at(x as int, j) == self.at(x as int, j).add_spec(rhs.at(x as int, j)),
                decreases ROW - y,
            {
                let value = self.get(x, y) + rhs.get(x, y);
                result.set(x, y, value);
                y = y + 1;
            }
            x = x + 1;
        }
        proof {
            if <T as AddSpec<T>>::obeys_add_spec() {
                Self::lemma_with_entries(result, |i: int, j: int| self.at(i, j).add_spec(rhs.at(i, j)));
            }
        }
        result
    }
}

impl<T: ArithmeticGroup<T>, const COL: usize, const ROW: usize> SubSpecImpl for Matrix<T, COL, ROW> {
    open spec fn obeys_sub_spec() -> bool {
        <T as SubSpec<T>>::obeys_sub_spec()
    }

    open spec fn sub_req(self, rhs: Self) -> bool {
        forall|i: int, j: int| 0 <= i < COL && 0 <= j < ROW ==> #[trigger] self.at(i, j).sub_req(rhs.at(i, j))
    }

    open spec fn sub_spec(self, rhs: Self) -> Self {
        Self::with_entries(|i: int, j: int| self.at(i, j).sub_spec(rhs.at(i, j)))
    }
}

impl<T: ArithmeticGroup<T>, const COL: usize, const ROW: usize> Sub for Matrix<T, COL, ROW> {
    type Output = Self;

    /// The entrywise difference.
    fn sub(self, rhs: Self) -> (r: Self)
        ensures
            <T as SubSpec<T>>::obeys_sub_spec() ==> forall|i: int, j: int|
                0 <= i < COL && 0 <= j < ROW ==> r.at(i, j) == self.at(i, j).sub_spec(rhs.at(i, j)),
    {
        let mut result = self;
        let mut x: usize = 0;
        while x < COL
            invariant
                x <= COL,
                forall|i: int, j: int| 0 <= i < COL && 0 <= j < ROW ==> #[trigger] self.at(i, j).sub_req(rhs.at(i, j)),
                <T as SubSpec<T>>::obeys_sub_spec() ==> forall|i: int, j: int|
                    0 <= i < x && 0 <= j < ROW ==> result.at(i, j) == self.at(i, j).sub_spec(rhs.at(i, j)),
            decreases COL - x,
        {
            let mut y: usize = 0;
            while y < ROW
                invariant
                    x < COL,
                    y <= ROW,
                    forall|i: int, j: int| 0 <= i < COL && 0 <= j < ROW ==> #[trigger] self.at(i, j).sub_req(rhs.at(i, j)),
                    <T as SubSpec<T>>::obeys_sub_spec() ==> forall|i: int, j: int|
                        0 <= i < x && 0 <= j < ROW ==> result.at(i, j) == self.at(i, j).sub_spec(rhs.at(i, j)),
                    <T as SubSpec<T>>::obeys_sub_spec() ==> forall|j: int|
                        0 <= j < y ==> result.at(x as int, j) == self.at(x as int, j).sub_spec(rhs.at(x as int, j)),
                decreases ROW - y,
            {
                let value = self.get(x, y) - rhs.get(x, y);
                result.set(x, y, value);
                y = y + 1;
            }
            x = x + 1;
        }
        proof {
            if <T as SubSpec<T>>::obeys_sub_spec() {
                Self::lemma_with_entries(result, |i: int, j: int| self.at(i, j).sub_spec(rhs.at(i, j)));
            }
        }
        result
    }
}

impl<T: ArithmeticGroup<T>, const COL: usize, const ROW: usize> DivSpecImpl for Matrix<T, COL, ROW> {
    open spec fn obeys_div_spec() -> bool {
        <T as DivSpec<T>>::obeys_div_spec()
    }

    open spec fn div_req(self, rhs: Self) -> bool {
        forall|i: int, j: int| 0 <= i < COL && 0 <= j < ROW ==> #[trigger] self.at(i, j).div_req(rhs.at(i, j))
    }

    open spec fn div_spec(self, rhs: Self) -> Self {
        Self::with_entries(|i: int, j: int| self.at(i, j).div_spec(rhs.at(i, j)))
    }
}

impl<T: ArithmeticGroup<T>, const COL: usize, const ROW: usize> Div for Matrix<T, COL, ROW> {
    type Output = Self;

    /// The entrywise quotient.
    fn div(self, rhs: Self) -> (r: Self)
        ensures
            <T as DivSpec<T>>::obeys_div_spec() ==> forall|i: int, j: int|
                0 <= i < COL && 0 <= j < ROW ==> r.at(i, j) == self.at(i, j).div_spec(rhs.at(i, j)),
    {
        let mut result = self;
        let mut x: usize = 0;
        while x < COL
            invariant
                x <= COL,
                forall|i: int, j: int| 0 <= i < COL && 0 <= j < ROW ==> #[trigger] self.at(i, j).div_req(rhs.at(i, j)),
                <T as DivSpec<T>>::obeys_div_spec() ==> forall|i: int, j: int|
                    0 <= i < x && 0 <= j < ROW ==> result.at(i, j) == self.at(i, j).div_spec(rhs.at(i, j)),
            decreases COL - x,
        {
            let mut y: usize = 0;
            while y < ROW
                invariant
                    x < COL,
                    y <= ROW,
                    forall|i: int, j: int| 0 <= i < COL && 0 <= j < ROW ==> #[trigger] self.at(i, j).div_req(rhs.at(i, j)),
                    <T as DivSpec<T>>::obeys_div_spec() ==> forall|i: int, j: int|
                        0 <= i < x && 0 <= j < ROW ==> result.at(i, j) == self.at(i, j).div_spec(rhs.at(i, j)),
                    <T as DivSpec<T>>::obeys_div_spec() ==> forall|j: int|
                        0 <= j < y ==> result.at(x as int, j) == self.at(x as int, j).div_spec(rhs.at(x as int, j)),
                decreases ROW - y,
            {
                let value = self.get(x, y) / rhs.get(x, y);
                result.set(x, y, value);
                y = y + 1;
            }
            x = x + 1;
        }
        proof {
            if <T as DivSpec<T>>::obeys_div_spec() {
                Self::lemma_with_entries(result, |i: int, j: int| self.at(i, j).div_spec(rhs.at(i, j)));
            }
        }
        result
    }
}

impl<T: ArithmeticGroup<T>, const COL: usize, const ROW: usize> MulSpecImpl<T> for Matrix<T, COL, ROW> {
    open spec fn obeys_mul_spec() -> bool {
        <T as MulSpec<T>>::obeys_mul_spec()
    }

    open spec fn mul_req(self, rhs: T) -> bool {
        forall|i: int, j: int| 0 <= i < COL && 0 <= j < ROW ==> #[trigger] self.at(i, j).mul_req(rhs)
    }

    open spec fn mul_spec(self, rhs: T) -> Self {
        Self::with_entries(|i: int, j: int| self.at(i, j).mul_spec(rhs))
    }
}

impl<T: ArithmeticGroup<T>, const COL: usize, const ROW: usize> Mul<T> for Matrix<T, COL, ROW> {
    type Output = Self;

    /// Every entry multiplied by the scalar `rhs`.
    fn mul(self, rhs: T) -> (r: Self)
        ensures
            <T as MulSpec<T>>::obeys_mul_spec() ==> forall|i: int, j: int|
                0 <= i < COL && 0 <= j < ROW ==> r.at(i, j) == self.at(i, j).mul_spec(rhs),
    {
        let mut result = self;
        let mut x: usize = 0;
        while x < COL
            invariant
                x <= COL,
                forall|i: int, j: int| 0 <= i < COL && 0 <= j < ROW ==> #[trigger] self.at(i, j).mul_req(rhs),
                <T as MulSpec<T>>::obeys_mul_spec() ==> forall|i: int, j: int|
                    0 <= i < x && 0 <= j < ROW ==> result.at(i, j) == self.at(i, j).mul_spec(rhs),
            decreases COL - x,
        {
            let mut y: usize = 0;
            while y < ROW
                invariant
                    x < COL,
                    y <= ROW,
                    forall|i: int, j: int| 0 <= i < COL && 0 <= j < ROW ==> #[trigger] self.at(i, j).mul_req(rhs),
                    <T as MulSpec<T>>::obeys_mul_spec() ==> forall|i: int, j: int|
                        0 <= i < x && 0 <= j < ROW ==> result.at(i, j) == self.at(i, j).mul_spec(rhs),
                    <T as MulSpec<T>>::obeys_mul_spec() ==> forall|j: int|
                        0 <= j < y ==> result.at(x as int, j) == self.at(x as int, j).mul_spec(rhs),
                decreases ROW - y,
            {
                let value = self.get(x, y) * rhs;
                result.set(x, y, value);
                y = y + 1;
            }
            x = x + 1;
        }
        proof {
            if <T as MulSpec<T>>::obeys_mul_spec() {
                Self::lemma_with_entries(result, |i: int, j: int| self.at(i, j).mul_spec(rhs));
            }
        }
        result
    }
}

impl<T: ArithmeticGroup<T>, const COL: usize, const ROW: usize> DivSpecImpl<T> for Matrix<T, COL, ROW> {
    open spec fn obeys_div_spec() -> bool {
        <T as DivSpec<T>>::obeys_div_spec()
    }

    open spec fn div_req(self, rhs: T) -> bool {
        forall|i: int, j: int| 0 <= i < COL && 0 <= j < ROW ==> #[trigger] self.at(i, j).div_req(rhs)
    }

    open spec fn div_spec(self, rhs: T) -> Self {
        Self::with_entries(|i: int, j: int| self.at(i, j).div_spec(rhs))
    }
}

impl<T: ArithmeticGroup<T>, const COL: usize, const ROW: usize> Div<T> for Matrix<T, COL, ROW> {
    type Output = Self;

    /// Every entry divided by the scalar `rhs`.
    fn div(self, rhs: T) -> (r: Self)
        ensures
            <T as DivSpec<T>>::obeys_div_spec() ==> forall|i: int, j: int|
                0 <= i < COL && 0 <= j < ROW ==> r.at(i, j) == self.at(i, j).div_spec(rhs),
    {
        let mut result = self;
        let mut x: usize = 0;
        while x < COL
            invariant
                x <= COL,
                forall|i: int, j: int| 0 <= i < COL && 0 <= j < ROW ==> #[trigger] self.at(i, j).div_req(rhs),
                <T as DivSpec<T>>::obeys_div_spec() ==> forall|i: int, j: int|
                    0 <= i < x && 0 <= j < ROW ==> result.at(i, j) == self.at(i, j).div_spec(rhs),
            decreases COL - x,
        {
            let mut y: usize = 0;
            while y < ROW
                invariant
                    x < COL,
                    y <= ROW,
                    forall|i: int, j: int| 0 <= i < COL && 0 <= j < ROW ==> #[trigger] self.at(i, j).div_req(rhs),
                    <T as DivSpec<T>>::obeys_div_spec() ==> forall|i: int, j: int|
                        0 <= i < x && 0 <= j < ROW ==> result.at(i, j) == self.at(i, j).div_spec(rhs),
                    <T as DivSpec<T>>::obeys_div_spec() ==> forall|j: int|
                        0 <= j < y ==> result.at(x as int, j) == self.at(x as int, j).div_spec(rhs),
                decreases ROW - y,
            {
                let value = self.get(x, y) / rhs;
                result.set(x, y, value);
                y = y + 1;
            }
            x = x + 1;
        }
        proof {
            if <T as DivSpec<T>>::obeys_div_spec() {
                Self::lemma_with_entries(result, |i: int, j: int| self.at(i, j).div_spec(rhs));
            }
        }
        result
    }
}

impl<T: ArithmeticGroup<T>, const COL: usize, const ROW: usize> NegSpecImpl for Matrix<T, COL, ROW> {
    open spec fn obeys_neg_spec() -> bool {
        <T as NegSpec>::obeys_neg_spec()
    }

    open spec fn neg_req(self) -> bool {
        forall|i: int, j: int| 0 <= i < COL && 0 <= j < ROW ==> #[trigger] self.at(i, j).neg_req()
    }

    open spec fn neg_spec(self) -> Self {
        Self::with_entries(|i: int, j: int| self.at(i, j).neg_spec())
    }
}

impl<T: ArithmeticGroup<T>, const COL: usize, const ROW: usize> Neg for Matrix<T, COL, ROW> {
    type Output = Self;

    /// Every entry negated.
    fn neg(self) -> (r: Self)
        ensures
            <T as NegSpec>::obeys_neg_spec() ==> forall|i: int, j: int|
                0 <= i < COL && 0 <= j < ROW ==> r.at(i, j) == self.at(i, j).neg_spec(),
    {
        let mut result = self;
        let mut x: usize = 0;
        while x < COL
            invariant
                x <= COL,
                forall|i: int, j: int| 0 <= i < COL && 0 <= j < ROW ==> #[trigger] self.at(i, j).neg_req(),
                <T as NegSpec>::obeys_neg_spec() ==> forall|i: int, j: int|
                    0 <= i < x && 0 <= j < ROW ==> result.at(i, j) == self.at(i, j).neg_spec(),
            decreases COL - x,
        {
            let mut y: usize = 0;
            while y < ROW
                invariant
                    x < COL,
                    y <= ROW,
                    forall|i: int, j: int| 0 <= i < COL && 0 <= j < ROW ==> #[trigger] self.at(i, j).neg_req(),
                    <T as NegSpec>::obeys_neg_spec() ==> forall|i: int, j: int|
                        0 <= i < x && 0 <= j < ROW ==> result.at(i, j) == self.at(i, j).neg_spec(),
                    <T as NegSpec>::obeys_neg_spec() ==> forall|j: int|
                        0 <= j < y ==> result.at(x as int, j) == self.at(x as int, j).neg_spec(),
                decreases ROW - y,
            {
                let value = self.get(x, y).neg();
                result.set(x, y, value);
                y = y + 1;
            }
            x = x + 1;
        }
        proof {
            if <T as NegSpec>::obeys_neg_spec() {
                Self::lemma_with_entries(result, |i: int, j: int| self.at(i, j).neg_spec());
            }
        }
        result
    }
}

impl<T: ArithmeticGroup<T>, const COL: usize, const ROW: usize> Matrix<T, COL, ROW> {
    /// The entrywise product (not the matrix product).
    pub fn mul_each(&self, rhs: Matrix<T, COL, ROW>) -> (r: Self)
        requires
            forall|i: int, j: int| 0 <= i < COL && 0 <= j < ROW ==> #[trigger] self.at(i, j).mul_req(rhs.at(i, j)),
        ensures
            <T as MulSpec<T>>::obeys_mul_spec() ==> forall|i: int, j: int|
                0 <= i < COL && 0 <= j < ROW ==> r.at(i, j) == self.at(i, j).mul_spec(rhs.at(i, j)),
    {
        let mut result = *self;
        let mut x: usize = 0;
        while x < COL
            invariant
                x <= COL,
                forall|i: int, j: int| 0 <= i < COL && 0 <= j < ROW ==> #[trigger] self.at(i, j).mul_req(rhs.at(i, j)),
                <T as MulSpec<T>>::obeys_mul_spec() ==> forall|i: int, j: int|
                    0 <= i < x && 0 <= j < ROW ==> result.at(i, j) == self.at(i, j).mul_spec(rhs.at(i, j)),
            decreases COL - x,
        {
            let mut y: usize = 0;
            while y < ROW
                invariant
                    x < COL,
                    y <= ROW,
                    forall|i: int, j: int| 0 <= i < COL && 0 <= j < ROW ==> #[trigger] self.at(i, j).mul_req(rhs.at(i, j)),
                    <T as MulSpec<T>>::obeys_mul_spec() ==> forall|i: int, j: int|
                        0 <= i < x && 0 <= j < ROW ==> result.at(i, j) == self.at(i, j).mul_spec(rhs.at(i, j)),
                    <T as MulSpec<T>>::obeys_mul_spec() ==> forall|j: int|
                        0 <= j < y ==> result.at(x as int, j) == self.at(x as int, j).mul_spec(rhs.at(x as int, j)),
                decreases ROW - y,
            {
                let value = self.get(x, y) * rhs.get(x, y);
                result.set(x, y, value);
                y = y + 1;
            }
            x = x + 1;
        }
        result
    }
}


/// Scalar operations are exact, and every dot product of a row of `a` with a
/// column of `b` stays within the scalar's limits.
pub open spec fn product_req<
    T: ArithmeticGroup<T>,
    const COMMON: usize,
    const ROW: usize,
    const COL: usize,
>(a: Matrix<T, COMMON, ROW>, b: Matrix<T, COL, COMMON>) -> bool {
    &&& <T as Zero<T>>::obeys_zero_spec()
    &&& <T as AddSpec<T>>::obeys_add_spec()
    &&& <T as MulSpec<T>>::obeys_mul_spec()
    &&& forall|k: int, j: int|
        0 <= k < COL && 0 <= j < ROW ==> #[trigger] dot_req(
            a.row_seq(j),
            b.col_seq(k),
            COMMON as nat,
        )
}

impl<T: ArithmeticGroup<T>, const COMMON: usize, const ROW: usize, const COL: usize> MulSpecImpl<Matrix<T, COL, COMMON>> for Matrix<T, COMMON, ROW> {
    open spec fn obeys_mul_spec() -> bool {
        true
    }

    open spec fn mul_req(self, rhs: Matrix<T, COL, COMMON>) -> bool {
        product_req(self, rhs)
    }

    open spec fn mul_spec(self, rhs: Matrix<T, COL, COMMON>) -> Matrix<T, COL, ROW> {
        Matrix::<T, COL, ROW>::with_entries(
            |k: int, j: int| dot_spec(self.row_seq(j), rhs.col_seq(k), COMMON as nat),
        )
    }
}

impl<T: ArithmeticGroup<T>, const COMMON: usize, const ROW: usize, const COL: usize> Mul<Matrix<T, COL, COMMON>> for Matrix<T, COMMON, ROW> {
    type Output = Matrix<T, COL, ROW>;

    /// The matrix product: entry `(k, j)` is the dot product of row `j` of
    /// `self` with column `k` of `rhs`.
    fn mul(self, rhs: Matrix<T, COL, COMMON>) -> (r: Matrix<T, COL, ROW>)
        ensures
            forall|k: int, j: int|
                0 <= k < COL && 0 <= j < ROW ==> r.at(k, j) == dot_spec(
                    self.row_seq(j),
                    rhs.col_seq(k),
                    COMMON as nat,
                ),
    {
        let mut result = Matrix::<T, COL, ROW>::zeros();
        let mut j: usize = 0;
        while j < ROW
            invariant
                j <= ROW,
                product_req(self, rhs),
                forall|k: int, b: int|
                    0 <= k < COL && 0 <= b < j ==> result.at(k, b) == dot_spec(
                        self.row_seq(b),
                        rhs.col_seq(k),
                        COMMON as nat,
                    ),
            decreases ROW - j,
        {
            let mut k: usize = 0;
            while k < COL
                invariant
                    j < ROW,
                    k <= COL,
                    product_req(self, rhs),
                    forall|a: int, b: int|
                        0 <= a < COL && 0 <= b < j ==> result.at(a, b) == dot_spec(
                            self.row_seq(b),
                            rhs.col_seq(a),
                            COMMON as nat,
                        ),
                    forall|a: int|
                        0 <= a < k ==> result.at(a, j as int) == dot_spec(
                            self.row_seq(j as int),
                            rhs.col_seq(a),
                            COMMON as nat,
                        ),
                decreases COL - k,
            {
                let ghost row = self.row_seq(j as int);
                let ghost column = rhs.col_seq(k as int);
                assert(dot_req(row, column, COMMON as nat));
                let mut sum = T::zero();
                let mut i: usize = 0;
                while i < COMMON
                    invariant
                        j < ROW,
                        k < COL,
                        i <= COMMON,
                        row == self.row_seq(j as int),
                        column == rhs.col_seq(k as int),
                        <T as AddSpec<T>>::obeys_add_spec(),
                        <T as MulSpec<T>>::obeys_mul_spec(),
                        dot_req(row, column, COMMON as nat),
                        sum == dot_spec(row, column, i as nat),
                    decreases COMMON - i,
                {
                    proof {
                        lemma_dot_req_prefix(row, column, COMMON as nat, (i + 1) as nat);
                    }
                    sum = sum + self.get(i, j) * rhs.get(k, i);
                    i = i + 1;
                }
                result.set(k, j, sum);
                k = k + 1;
            }
            j = j + 1;
        }
        proof {
            Matrix::<T, COL, ROW>::lemma_with_entries(
                result,
                |k: int, j: int| dot_spec(self.row_seq(j), rhs.col_seq(k), COMMON as nat),
            );
        }
        result
    }
}

/// What `dot_req` demands of `n` terms it demands of every shorter prefix.
pub proof fn lemma_dot_req_prefix<T: ArithmeticGroup<T>>(a: Seq<T>, b: Seq<T>, n: nat, m: nat)
    requires
        dot_req(a, b, n),
        m <= n,
    ensures
        dot_req(a, b, m),
    decreases n,
{
    if m < n {
        lemma_dot_req_prefix(a, b, (n - 1) as nat, m);
    }
}

/// The entries of a sum are the sums of the entries.
pub proof fn lemma_sum_entries<T: ArithmeticGroup<T>, const COL: usize, const ROW: usize>(a: Matrix<T, COL, ROW>, b: Matrix<T, COL, ROW>)
    ensures
        forall|x: int, y: int|
            0 <= x < COL && 0 <= y < ROW ==> (#[trigger] AddSpec::add_spec(a, b).at(x, y)) == a.at(x, y).add_spec(b.at(x, y)),
{
    Matrix::<T, COL, ROW>::lemma_entries_of(|i: int, j: int| a.at(i, j).add_spec(b.at(i, j)));
}

/// The entries of a difference are the differences of the entries.
pub proof fn lemma_difference_entries<T: ArithmeticGroup<T>, const COL: usize, const ROW: usize>(a: Matrix<T, COL, ROW>, b: Matrix<T, COL, ROW>)
    ensures
        forall|x: int, y: int|
            0 <= x < COL && 0 <= y < ROW ==> (#[trigger] SubSpec::sub_spec(a, b).at(x, y)) == a.at(x, y).sub_spec(b.at(x, y)),
{
    Matrix::<T, COL, ROW>::lemma_entries_of(|i: int, j: int| a.at(i, j).sub_spec(b.at(i, j)));
}

/// The entries of an entrywise quotient are the quotients of the entries.
pub proof fn lemma_quotient_entries<T: ArithmeticGroup<T>, const COL: usize, const ROW: usize>(a: Matrix<T, COL, ROW>, b: Matrix<T, COL, ROW>)
    ensures
        forall|x: int, y: int|
            0 <= x < COL && 0 <= y < ROW ==> (#[trigger] DivSpec::div_spec(a, b).at(x, y)) == a.at(x, y).div_spec(b.at(x, y)),
{
    Matrix::<T, COL, ROW>::lemma_entries_of(|i: int, j: int| a.at(i, j).div_spec(b.at(i, j)));
}

/// The entries of a matrix times a scalar are the entries times the scalar.
pub proof fn lemma_scaled_entries<T: ArithmeticGroup<T>, const COL: usize, const ROW: usize>(a: Matrix<T, COL, ROW>, k: T)
    ensures
        forall|x: int, y: int|
            0 <= x < COL && 0 <= y < ROW ==> (#[trigger] MulSpec::<T>::mul_spec(a, k).at(x, y)) == a.at(x, y).mul_spec(k),
{
    Matrix::<T, COL, ROW>::lemma_entries_of(|i: int, j: int| a.at(i, j).mul_spec(k));
}

/// The entries of a matrix divided by a scalar are the entries divided by the scalar.
pub proof fn lemma_divided_entries<T: ArithmeticGroup<T>, const COL: usize, const ROW: usize>(a: Matrix<T, COL, ROW>, k: T)
    ensures
        forall|x: int, y: int|
            0 <= x < COL && 0 <= y < ROW ==> (#[trigger] DivSpec::<T>::div_spec(a, k).at(x, y)) == a.at(x, y).div_spec(k),
{
    Matrix::<T, COL, ROW>::lemma_entries_of(|i: int, j: int| a.at(i, j).div_spec(k));
}

/// The entries of a negated matrix are the negated entries.
pub proof fn lemma_negated_entries<T: ArithmeticGroup<T>, const COL: usize, const ROW: usize>(a: Matrix<T, COL, ROW>)
    ensures
        forall|x: int, y: int|
            0 <= x < COL && 0 <= y < ROW ==> (#[trigger] NegSpec::neg_spec(a).at(x, y)) == a.at(x, y).neg_spec(),
{
    Matrix::<T, COL, ROW>::lemma_entries_of(|i: int, j: int| a.at(i, j).neg_spec());
}

} // verus!
