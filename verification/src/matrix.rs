//! Fixed-size matrices and column vectors over an abstract scalar.
//!
//! A `Matrix<T, COL, ROW>` stores `COL` columns of `ROW` scalars. Its model is
//! the entry function `at(x, y)` (column `x`, row `y`); every contract states
//! the entries of the result in terms of the entries of the arguments.
use crate::arithmetic::obeys_arithmetic;
use crate::arithmetic::ArithmeticGroup;
use crate::arithmetic::Identity;
use crate::arithmetic::Zero;
use vstd::prelude::*;
use std::ops::Neg;
use vstd::std_specs::cmp::PartialEqSpec;
use vstd::std_specs::ops::AddSpec;
use vstd::std_specs::ops::DivSpec;
use vstd::std_specs::ops::MulSpec;
use vstd::std_specs::ops::NegSpec;
use vstd::std_specs::ops::SubSpec;

verus! {

broadcast use vstd::array::group_array_axioms;

#[derive(Debug, PartialEq, Eq, Clone, Copy)]
pub struct Matrix<T, const COL: usize, const ROW: usize> {
    pub data: [[T; ROW]; COL],
}

pub type Mat22<T> = Matrix<T, 2, 2>;

pub type Mat33<T> = Matrix<T, 3, 3>;

pub type Mat44<T> = Matrix<T, 4, 4>;

pub type ColVector<T, const LEN: usize> = Matrix<T, 1, LEN>;

pub type RowVector<T, const LEN: usize> = Matrix<T, LEN, 1>;

pub type Vector<T, const LEN: usize> = ColVector<T, LEN>;

pub type Vector2<T> = Vector<T, 2>;

pub type Vector3<T> = Vector<T, 3>;

pub type Vector4<T> = Vector<T, 4>;

/// The sum `a[0]*b[0] + ... + a[n-1]*b[n-1]`, accumulated from zero, left to right.
pub open spec fn dot_spec<T: ArithmeticGroup<T>>(a: Seq<T>, b: Seq<T>, n: nat) -> T
    decreases n,
{
    if n == 0 {
        T::zero_spec()
    } else {
        dot_spec(a, b, (n - 1) as nat).add_spec(a[n - 1].mul_spec(b[n - 1]))
    }
}

/// Every product and every partial sum of `dot_spec(a, b, n)` is within the
/// scalar's limits.
pub open spec fn dot_req<T: ArithmeticGroup<T>>(a: Seq<T>, b: Seq<T>, n: nat) -> bool
    decreases n,
{
    n == 0 || {
        &&& dot_req(a, b, (n - 1) as nat)
        &&& a[n - 1].mul_req(b[n - 1])
        &&& dot_spec(a, b, (n - 1) as nat).add_req(a[n - 1].mul_spec(b[n - 1]))
    }
}

impl<T, const COL: usize, const ROW: usize> View for Matrix<T, COL, ROW> {
    type V = Seq<Seq<T>>;

    /// The columns, each as the sequence of its rows.
    open spec fn view(&self) -> Seq<Seq<T>> {
        Seq::new(COL as nat, |x: int| Seq::new(ROW as nat, |y: int| self.data[x][y]))
    }
}

impl<T, const COL: usize, const ROW: usize> Matrix<T, COL, ROW> {
    /// The entry in column `x`, row `y`.
    pub open spec fn at(&self, x: int, y: int) -> T {
        self.data[x][y]
    }

    /// Row `y`, read across the columns.
    pub open spec fn row_seq(&self, y: int) -> Seq<T> {
        Seq::new(COL as nat, |x: int| self.at(x, y))
    }

    /// Column `x`, read down the rows.
    pub open spec fn col_seq(&self, x: int) -> Seq<T> {
        Seq::new(ROW as nat, |y: int| self.at(x, y))
    }

    /// Whether the entries are those given by `f`.
    pub open spec fn has_entries(&self, f: spec_fn(int, int) -> T) -> bool {
        forall|x: int, y: int| 0 <= x < COL && 0 <= y < ROW ==> self.at(x, y) == f(x, y)
    }

    /// The matrix whose entries are given by `f`.
    pub open spec fn with_entries(f: spec_fn(int, int) -> T) -> Self {
        choose|m: Self| m.has_entries(f)
    }

    /// Two matrices with the same entries are the same matrix.
    pub proof fn lemma_entries_determine(a: Self, b: Self)
        requires
            forall|x: int, y: int| 0 <= x < COL && 0 <= y < ROW ==> a.at(x, y) == b.at(x, y),
        ensures
            a == b,
    {
        assert forall|x: int| 0 <= x < COL implies a.data[x] == b.data[x] by {
            assert forall|y: int| 0 <= y < ROW implies a.data[x][y] == b.data[x][y] by {
                assert(a.at(x, y) == b.at(x, y));
            }
            assert(a.data[x] =~= b.data[x]);
        }
        assert(a.data =~= b.data);
    }

    /// A column with the entries `f(x, 0), ..., f(x, n - 1)` in its first
    /// `n` places.
    pub open spec fn column_upto(f: spec_fn(int, int) -> T, x: int, n: nat) -> [T; ROW]
        decreases n,
    {
        if n == 0 {
            arbitrary()
        } else {
            vstd::array::spec_array_update(Self::column_upto(f, x, (n - 1) as nat), n - 1, f(x, n - 1))
        }
    }

    /// Columns `0, ..., n - 1` filled from `f`.
    pub open spec fn columns_upto(f: spec_fn(int, int) -> T, n: nat) -> [[T; ROW]; COL]
        decreases n,
    {
        if n == 0 {
            arbitrary()
        } else {
            vstd::array::spec_array_update(
                Self::columns_upto(f, (n - 1) as nat),
                n - 1,
                Self::column_upto(f, n - 1, ROW as nat),
            )
        }
    }

    pub proof fn lemma_column_upto(f: spec_fn(int, int) -> T, x: int, n: nat)
        requires
            n <= ROW,
        ensures
            forall|y: int| 0 <= y < n ==> (#[trigger] Self::column_upto(f, x, n)[y]) == f(x, y),
        decreases n,
    {
        if n > 0 {
            Self::lemma_column_upto(f, x, (n - 1) as nat);
            let before = Self::column_upto(f, x, (n - 1) as nat);
            assert(Self::column_upto(f, x, n)@ == before@.update(n - 1, f(x, n - 1)));
            assert forall|y: int| 0 <= y < n implies (#[trigger] Self::column_upto(f, x, n)[y]) == f(
                x,
                y,
            ) by {
                if y < n - 1 {
                    assert(before[y] == f(x, y));
                }
            }
        }
    }

    pub proof fn lemma_columns_upto(f: spec_fn(int, int) -> T, n: nat)
        requires
            n <= COL,
        ensures
            forall|x: int, y: int|
                0 <= x < n && 0 <= y < ROW ==> (#[trigger] Self::columns_upto(f, n)[x][y]) == f(x, y),
        decreases n,
    {
        if n > 0 {
            Self::lemma_columns_upto(f, (n - 1) as nat);
            Self::lemma_column_upto(f, n - 1, ROW as nat);
            let before = Self::columns_upto(f, (n - 1) as nat);
            let column = Self::column_upto(f, n - 1, ROW as nat);
            assert(Self::columns_upto(f, n)@ == before@.update(n - 1, column));
            assert forall|x: int, y: int| 0 <= x < n && 0 <= y < ROW implies (
            #[trigger] Self::columns_upto(f, n)[x][y]) == f(x, y) by {
                if x < n - 1 {
                    assert(before[x][y] == f(x, y));
                } else {
                    assert(column[y] == f(x, y));
                }
            }
        }
    }

    /// `with_entries(f)` has the entries that `f` gives: some matrix has
    /// them, so the one picked does.
    pub proof fn lemma_entries_of(f: spec_fn(int, int) -> T)
        ensures
            Self::with_entries(f).has_entries(f),
    {
        Self::lemma_columns_upto(f, COL as nat);
        let witness = Self { data: Self::columns_upto(f, COL as nat) };
        assert forall|x: int, y: int| 0 <= x < COL && 0 <= y < ROW implies witness.at(x, y) == f(
            x,
            y,
        ) by {
            assert(Self::columns_upto(f, COL as nat)[x][y] == f(x, y));
        }
        assert(witness.has_entries(f));
    }

    /// A matrix is the one that `with_entries` picks for its own entries.
    pub proof fn lemma_with_entries(m: Self, f: spec_fn(int, int) -> T)
        requires
            m.has_entries(f),
        ensures
            m == Self::with_entries(f),
    {
        Self::lemma_entries_determine(m, Self::with_entries(f));
    }
}

impl<T: ArithmeticGroup<T>, const COL: usize, const ROW: usize> Matrix<T, COL, ROW> {
    /// The matrix with every entry `value`.
    pub fn filled(value: T) -> (r: Self)
        ensures
            forall|x: int, y: int| 0 <= x < COL && 0 <= y < ROW ==> r.at(x, y) == value,
    {
        let mut result = Self { data: [[value;ROW];COL] };
        let mut x: usize = 0;
        while x < COL
            invariant
                x <= COL,
                forall|i: int, j: int| 0 <= i < x && 0 <= j < ROW ==> result.at(i, j) == value,
            decreases COL - x,
        {
            let mut y: usize = 0;
            while y < ROW
                invariant
                    x < COL,
                    y <= ROW,
                    forall|i: int, j: int| 0 <= i < x && 0 <= j < ROW ==> result.at(i, j) == value,
                    forall|j: int| 0 <= j < y ==> result.at(x as int, j) == value,
                decreases ROW - y,
            {
                result.set(x, y, value);
                y = y + 1;
            }
            x = x + 1;
        }
        result
    }

    /// The matrix with every entry one.
    pub fn ones() -> (r: Self)
        ensures
            T::obeys_identity_spec() ==> forall|x: int, y: int|
                0 <= x < COL && 0 <= y < ROW ==> r.at(x, y) == T::identity_spec(),
    {
        Self::filled(T::identity())
    }

    /// The matrix with every entry zero.
    pub fn zeros() -> (r: Self)
        ensures
            T::obeys_zero_spec() ==> forall|x: int, y: int|
                0 <= x < COL && 0 <= y < ROW ==> r.at(x, y) == T::zero_spec(),
    {
        Self::filled(T::zero())
    }

    pub fn get(&self, x: usize, y: usize) -> (r: T)
        requires
            x < COL,
            y < ROW,
        ensures
            r == self.at(x as int, y as int),
    {
        self.data[x][y]
    }

    pub fn set(&mut self, x: usize, y: usize, value: T)
        requires
            x < COL,
            y < ROW,
        ensures
            final(self).at(x as int, y as int) == value,
            forall|i: int, j: int|
                0 <= i < COL && 0 <= j < ROW && !(i == x && j == y) ==> final(self).at(i, j) == old(
                    self,
                ).at(i, j),
    {
        self.data[x][y] = value;
    }

    pub fn row(&self) -> (r: usize)
        ensures
            r == ROW,
    {
        ROW
    }

    pub fn col(&self) -> (r: usize)
        ensures
            r == COL,
    {
        COL
    }

    pub fn width(&self) -> (r: usize)
        ensures
            r == COL,
    {
        self.col()
    }

    pub fn height(&self) -> (r: usize)
        ensures
            r == ROW,
    {
        self.row()
    }

    /// The mirror image across the diagonal: entry `(y, x)` of the result is
    /// entry `(x, y)` of `self`.
    pub fn transpose(&self) -> (r: Matrix<T, ROW, COL>)
        ensures
            forall|x: int, y: int| 0 <= x < COL && 0 <= y < ROW ==> r.at(y, x) == self.at(x, y),
    {
        let mut result = Matrix::<T, ROW, COL>::zeros();
        let mut x: usize = 0;
        while x < COL
            invariant
                x <= COL,
                forall|i: int, j: int| 0 <= i < x && 0 <= j < ROW ==> result.at(j, i) == self.at(i, j),
            decreases COL - x,
        {
            let mut y: usize = 0;
            while y < ROW
                invariant
                    x < COL,
                    y <= ROW,
                    forall|i: int, j: int|
                        0 <= i < x && 0 <= j < ROW ==> result.at(j, i) == self.at(i, j),
                    forall|j: int| 0 <= j < y ==> result.at(j, x as int) == self.at(x as int, j),
                decreases ROW - y,
            {
                result.set(y, x, self.get(x, y));
                y = y + 1;
            }
            x = x + 1;
        }
        result
    }
}


impl<T: ArithmeticGroup<T>, const COL: usize, const ROW: usize> Matrix<T, COL, ROW> {
    /// Fills the matrix row by row from `datas`: entry `(x, y)` is
    /// `datas[y * COL + x]`. Entries past the end of `datas` are zero.
    pub fn from_row(datas: &[T]) -> (r: Self)
        requires
            datas@.len() <= COL * ROW,
        ensures
            forall|x: int, y: int|
                0 <= x < COL && 0 <= y < ROW && y * COL + x < datas@.len() ==> r.at(x, y)
                    == datas@[y * COL + x],
            T::obeys_zero_spec() ==> forall|x: int, y: int|
                0 <= x < COL && 0 <= y < ROW && y * COL + x >= datas@.len() ==> r.at(x, y)
                    == T::zero_spec(),
    {
        let mut result = Self::zeros();
        let mut i: usize = 0;
        while i < datas.len()
            invariant
                i <= datas@.len() <= COL * ROW,
                forall|x: int, y: int|
                    0 <= x < COL && 0 <= y < ROW && y * COL + x < i ==> result.at(x, y)
                        == datas@[y * COL + x],
                T::obeys_zero_spec() ==> forall|x: int, y: int|
                    0 <= x < COL && 0 <= y < ROW && y * COL + x >= i ==> result.at(x, y)
                        == T::zero_spec(),
            decreases datas@.len() - i,
        {
            proof {
                lemma_cell_of_index(i as int, COL as int, ROW as int);
            }
            let x: usize = i % COL;
            let y: usize = i / COL;
            let ghost before = result;
            result.set(x, y, datas[i]);
            proof {
                assert forall|a: int, b: int|
                    0 <= a < COL && 0 <= b < ROW && b * COL + a <= i implies #[trigger] result.at(
                    a,
                    b,
                ) == datas@[b * COL + a] by {
                    if b * COL + a == i {
                        lemma_cell_unique(i as int, COL as int, a, b);
                    }
                }
                assert forall|a: int, b: int|
                    0 <= a < COL && 0 <= b < ROW && b * COL + a > i implies #[trigger] result.at(
                    a,
                    b,
                ) == before.at(a, b) by {}
            }
            i = i + 1;
        }
        result
    }

    /// Fills the matrix column by column from `datas`: entry `(x, y)` is
    /// `datas[x * ROW + y]`. Entries past the end of `datas` are zero.
    pub fn from_col(datas: &[T]) -> (r: Self)
        requires
            datas@.len() <= COL * ROW,
        ensures
            forall|x: int, y: int|
                0 <= x < COL && 0 <= y < ROW && x * ROW + y < datas@.len() ==> r.at(x, y)
                    == datas@[x * ROW + y],
            T::obeys_zero_spec() ==> forall|x: int, y: int|
                0 <= x < COL && 0 <= y < ROW && x * ROW + y >= datas@.len() ==> r.at(x, y)
                    == T::zero_spec(),
    {
        let mut result = Self::zeros();
        let mut i: usize = 0;
        while i < datas.len()
            invariant
                i <= datas@.len() <= COL * ROW,
                forall|x: int, y: int|
                    0 <= x < COL && 0 <= y < ROW && x * ROW + y < i ==> result.at(x, y)
                        == datas@[x * ROW + y],
                T::obeys_zero_spec() ==> forall|x: int, y: int|
                    0 <= x < COL && 0 <= y < ROW && x * ROW + y >= i ==> result.at(x, y)
                        == T::zero_spec(),
            decreases datas@.len() - i,
        {
            proof {
                assert(COL * ROW == ROW * COL) by (nonlinear_arith);
                lemma_cell_of_index(i as int, ROW as int, COL as int);
            }
            let x: usize = i / ROW;
            let y: usize = i % ROW;
            let ghost before = result;
            result.set(x, y, datas[i]);
            proof {
                assert forall|a: int, b: int|
                    0 <= a < COL && 0 <= b < ROW && a * ROW + b <= i implies #[trigger] result.at(
                    a,
                    b,
                ) == datas@[a * ROW + b] by {
                    if a * ROW + b == i {
                        lemma_cell_unique(i as int, ROW as int, b, a);
                    }
                }
                assert forall|a: int, b: int|
                    0 <= a < COL && 0 <= b < ROW && a * ROW + b > i implies #[trigger] result.at(
                    a,
                    b,
                ) == before.at(a, b) by {}
            }
            i = i + 1;
        }
        result
    }

    /// Stacks `ROW` row vectors: entry `(x, y)` is entry `x` of `rows[y]`.
    pub fn from_row_vecs(rows: &[RowVector<T, COL>; ROW]) -> (r: Self)
        ensures
            forall|x: int, y: int| 0 <= x < COL && 0 <= y < ROW ==> r.at(x, y) == rows[y].at(x, 0),
    {
        let mut result = Self::zeros();
        let mut y: usize = 0;
        while y < ROW
            invariant
                y <= ROW,
                forall|i: int, j: int|
                    0 <= i < COL && 0 <= j < y ==> result.at(i, j) == rows[j].at(i, 0),
            decreases ROW - y,
        {
            let mut x: usize = 0;
            while x < COL
                invariant
                    y < ROW,
                    x <= COL,
                    forall|i: int, j: int|
                        0 <= i < COL && 0 <= j < y ==> result.at(i, j) == rows[j].at(i, 0),
                    forall|i: int| 0 <= i < x ==> result.at(i, y as int) == rows[y as int].at(i, 0),
                decreases COL - x,
            {
                result.set(x, y, rows[y].get(x, 0));
                x = x + 1;
            }
            y = y + 1;
        }
        result
    }

    /// Sets `COL` column vectors side by side: entry `(x, y)` is entry `y` of
    /// `cols[x]`.
    pub fn from_col_vecs(cols: &[ColVector<T, ROW>; COL]) -> (r: Self)
        ensures
            forall|x: int, y: int| 0 <= x < COL && 0 <= y < ROW ==> r.at(x, y) == cols[x].at(0, y),
    {
        let mut result = Self::zeros();
        let mut x: usize = 0;
        while x < COL
            invariant
                x <= COL,
                forall|i: int, j: int|
                    0 <= i < x && 0 <= j < ROW ==> result.at(i, j) == cols[i].at(0, j),
            decreases COL - x,
        {
            let mut y: usize = 0;
            while y < ROW
                invariant
                    x < COL,
                    y <= ROW,
                    forall|i: int, j: int|
                        0 <= i < x && 0 <= j < ROW ==> result.at(i, j) == cols[i].at(0, j),
                    forall|j: int| 0 <= j < y ==> result.at(x as int, j) == cols[x as int].at(0, j),
                decreases ROW - y,
            {
                result.set(x, y, cols[x].get(0, y));
                y = y + 1;
            }
            x = x + 1;
        }
        result
    }
}

/// In a grid `width` wide and `height` high, filled row by row, index `i`
/// lands in column `i % width`, row `i / width`.
pub proof fn lemma_cell_of_index(i: int, width: int, height: int)
    requires
        0 <= i < width * height,
        0 <= width,
        0 <= height,
    ensures
        0 < width,
        0 <= i % width < width,
        0 <= i / width < height,
        (i / width) * width + i % width == i,
{
    assert(0 < width) by (nonlinear_arith)
        requires
            0 <= i < width * height,
            0 <= width,
    ;
    vstd::arithmetic::div_mod::lemma_fundamental_div_mod(i, width);
    vstd::arithmetic::div_mod::lemma_mod_bound(i, width);
    let q = i / width;
    let m = i % width;
    assert(q * width == width * q) by (nonlinear_arith);
    assert(0 <= q < height) by (nonlinear_arith)
        requires
            i == width * q + m,
            0 <= m < width,
            0 <= i < width * height,
    ;
}

/// No other cell of the grid has index `i`.
pub proof fn lemma_cell_unique(i: int, width: int, x: int, y: int)
    requires
        0 <= x < width,
        y * width + x == i,
    ensures
        x == i % width,
        y == i / width,
{
    vstd::arithmetic::div_mod::lemma_fundamental_div_mod_converse(i, width, y, x);
}

impl<T: ArithmeticGroup<T>, const LEN: usize> Matrix<T, LEN, LEN> {
    /// The square matrix with ones on the diagonal and zeros elsewhere.
    pub fn identity() -> (r: Self)
        ensures
            T::obeys_zero_spec() && T::obeys_identity_spec() ==> forall|x: int, y: int|
                0 <= x < LEN && 0 <= y < LEN ==> r.at(x, y) == if x == y {
                    T::identity_spec()
                } else {
                    T::zero_spec()
                },
    {
        let mut result = Self::zeros();
        let mut i: usize = 0;
        while i < LEN
            invariant
                i <= LEN,
                T::obeys_zero_spec() && T::obeys_identity_spec() ==> forall|x: int, y: int|
                    0 <= x < LEN && 0 <= y < LEN ==> result.at(x, y) == if x == y && x < i {
                        T::identity_spec()
                    } else {
                        T::zero_spec()
                    },
            decreases LEN - i,
        {
            result.set(i, i, T::identity());
            i = i + 1;
        }
        result
    }
}

impl<T: ArithmeticGroup<T> + PartialEq> Matrix<T, 2, 2> {
    /// The determinant `a*d - b*c`.
    pub open spec fn det_spec(&self) -> T {
        self.at(0, 0).mul_spec(self.at(1, 1)).sub_spec(self.at(1, 0).mul_spec(self.at(0, 1)))
    }

    /// The two products and their difference are within the scalar's limits.
    pub open spec fn det_req(&self) -> bool {
        &&& self.at(0, 0).mul_req(self.at(1, 1))
        &&& self.at(1, 0).mul_req(self.at(0, 1))
        &&& self.at(0, 0).mul_spec(self.at(1, 1)).sub_req(self.at(1, 0).mul_spec(self.at(0, 1)))
    }

    /// What `inv` needs beyond exact scalar arithmetic: the determinant can
    /// be formed, two entries can be negated, and, where the determinant is
    /// not zero, each entry of the adjugate can be divided by it.
    pub open spec fn inv_req(&self) -> bool {
        &&& self.det_req()
        &&& self.at(0, 1).neg_req()
        &&& self.at(1, 0).neg_req()
        &&& !self.det_spec().eq_spec(&T::zero_spec()) ==> {
            &&& self.at(1, 1).div_req(self.det_spec())
            &&& self.at(0, 1).neg_spec().div_req(self.det_spec())
            &&& self.at(1, 0).neg_spec().div_req(self.det_spec())
            &&& self.at(0, 0).div_req(self.det_spec())
        }
    }

    pub fn det(&self) -> (r: T)
        requires
            obeys_arithmetic::<T>(),
            self.det_req(),
        ensures
            r == self.det_spec(),
    {
        self.get(0, 0) * self.get(1, 1) - self.get(1, 0) * self.get(0, 1)
    }

    /// The inverse, or `None` exactly when the determinant equals zero:
    /// the diagonal entries swapped, the others negated, all divided by the
    /// determinant.
    pub fn inv(&self) -> (r: Option<Self>)
        requires
            obeys_arithmetic::<T>(),
            T::obeys_eq_spec(),
            self.inv_req(),
        ensures
            r is None <==> self.det_spec().eq_spec(&T::zero_spec()),
            r matches Some(m) ==> {
                &&& m.at(0, 0) == self.at(1, 1).div_spec(self.det_spec())
                &&& m.at(1, 0) == self.at(1, 0).neg_spec().div_spec(self.det_spec())
                &&& m.at(0, 1) == self.at(0, 1).neg_spec().div_spec(self.det_spec())
                &&& m.at(1, 1) == self.at(0, 0).div_spec(self.det_spec())
            },
    {
        let d = self.det();
        let zero = T::zero();
        if d == zero {
            None
        } else {
            let a = self.get(1, 1) / d;
            let b = self.get(1, 0).neg() / d;
            let c = self.get(0, 1).neg() / d;
            let e = self.get(0, 0) / d;
            Some(Self { data: [[a, c], [b, e]] })
        }
    }
}

} // verus!
