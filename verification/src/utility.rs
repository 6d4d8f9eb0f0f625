//! Helpers at the boundary of the kernel: scalar functions supplied by the
//! caller, and approximate equality by truncation.
use crate::arithmetic::obeys_arithmetic;
use crate::arithmetic::obeys_order;
use crate::arithmetic::ArithmeticGroup;
use crate::arithmetic::Identity;
use vstd::prelude::*;
use vstd::std_specs::cmp::PartialEqSpec;
use vstd::std_specs::ops::AddSpec;
use vstd::std_specs::ops::MulSpec;

verus! {

/// `f` can be called on every scalar, and its result is a function of its
/// argument.
pub open spec fn is_scalar_fn<T, F: Fn(T) -> T>(f: F) -> bool {
    &&& forall|x: T| #[trigger] f.requires((x,))
    &&& forall|x: T, y1: T, y2: T|
        #[trigger] f.ensures((x,), y1) && #[trigger] f.ensures((x,), y2) ==> y1 == y2
}

/// What the scalar function `f` returns on `x`.
pub open spec fn value_of<T, F: Fn(T) -> T>(f: F, x: T) -> T {
    choose|y: T| f.ensures((x,), y)
}

/// What `f` returns on `x` meets what `f` itself ensures. Holds of every
/// argument that `f` has been called on.
pub open spec fn returned<T, F: Fn(T) -> T>(f: F, x: T) -> bool {
    f.ensures((x,), value_of(f, x))
}

/// A result that `f` may return on `x` is the one it returns.
pub proof fn lemma_value_of<T, F: Fn(T) -> T>(f: F, x: T, y: T)
    requires
        is_scalar_fn(f),
        f.ensures((x,), y),
    ensures
        value_of(f, x) == y,
{
}

/// Calls the scalar function `f` on `x`. The result is `value_of(f, x)` and
/// meets whatever `f` itself ensures.
pub fn apply<T, F: Fn(T) -> T>(f: &F, x: T) -> (r: T)
    requires
        is_scalar_fn(*f),
    ensures
        r == value_of(*f, x),
        f.ensures((x,), r),
        returned(*f, x),
{
    f(x)
}

/// The scalar ten, `2 * (4 + 1)` with `2 = 1 + 1` and `4 = 2 + 2`.
pub open spec fn ten_spec<T: ArithmeticGroup<T>>() -> T {
    let one = T::identity_spec();
    let two = one.add_spec(one);
    let four = two.add_spec(two);
    two.mul_spec(four.add_spec(one))
}

/// The sums and the product of `ten_spec` are within the scalar's limits.
pub open spec fn ten_req<T: ArithmeticGroup<T>>() -> bool {
    let one = T::identity_spec();
    let two = one.add_spec(one);
    let four = two.add_spec(two);
    &&& one.add_req(one)
    &&& two.add_req(two)
    &&& four.add_req(one)
    &&& two.mul_req(four.add_spec(one))
}

/// Ten to the power `n`, multiplied up from one.
pub open spec fn pow10_spec<T: ArithmeticGroup<T>>(n: nat) -> T
    decreases n,
{
    if n == 0 {
        T::identity_spec()
    } else {
        pow10_spec::<T>((n - 1) as nat).mul_spec(ten_spec::<T>())
    }
}

/// Every product of `pow10_spec(n)` is within the scalar's limits.
pub open spec fn pow10_req<T: ArithmeticGroup<T>>(n: nat) -> bool
    decreases n,
{
    ten_req::<T>() && (n == 0 || {
        &&& pow10_req::<T>((n - 1) as nat)
        &&& pow10_spec::<T>((n - 1) as nat).mul_req(ten_spec::<T>())
    })
}

/// Ten to the power `n`.
pub fn pow10<T: ArithmeticGroup<T>>(n: u8) -> (r: T)
    requires
        obeys_arithmetic::<T>(),
        pow10_req::<T>(n as nat),
    ensures
        r == pow10_spec::<T>(n as nat),
{
    let one = T::identity();
    let two = one + one;
    let four = two + two;
    let ten = two * (four + one);
    let mut factor = one;
    let mut i: u8 = 0;
    while i < n
        invariant
            i <= n,
            obeys_arithmetic::<T>(),
            pow10_req::<T>(n as nat),
            ten == ten_spec::<T>(),
            factor == pow10_spec::<T>(i as nat),
        decreases n - i,
    {
        proof {
            lemma_pow10_req_prefix::<T>(n as nat, (i + 1) as nat);
        }
        factor = factor * ten;
        i = i + 1;
    }
    factor
}

/// What `pow10_req` demands of `n` it demands of every smaller power.
pub proof fn lemma_pow10_req_prefix<T: ArithmeticGroup<T>>(n: nat, m: nat)
    requires
        pow10_req::<T>(n),
        m <= n,
    ensures
        pow10_req::<T>(m),
    decreases n,
{
    if m < n {
        lemma_pow10_req_prefix::<T>((n - 1) as nat, m);
    }
}

/// `a` and `b` agree once both are scaled by `10^decimal_places` and
/// truncated.
pub open spec fn approx_equal_spec<T: ArithmeticGroup<T> + PartialOrd, F: Fn(T) -> T>(
    a: T,
    b: T,
    decimal_places: u8,
    trunc: F,
) -> bool {
    let factor = pow10_spec::<T>(decimal_places as nat);
    value_of(trunc, a.mul_spec(factor)).eq_spec(&value_of(trunc, b.mul_spec(factor)))
}

/// The scale factor can be formed and applied to both operands.
pub open spec fn approx_equal_req<T: ArithmeticGroup<T>>(a: T, b: T, decimal_places: u8) -> bool {
    &&& pow10_req::<T>(decimal_places as nat)
    &&& a.mul_req(pow10_spec::<T>(decimal_places as nat))
    &&& b.mul_req(pow10_spec::<T>(decimal_places as nat))
}

/// Approximate equality to `decimal_places` decimal digits: both operands
/// are multiplied by `10^decimal_places`, cut to their integer part by
/// `trunc`, and compared exactly.
pub fn approx_equal<T: ArithmeticGroup<T> + PartialOrd, F: Fn(T) -> T>(
    a: T,
    b: T,
    decimal_places: u8,
    trunc: &F,
) -> (r: bool)
    requires
        obeys_arithmetic::<T>(),
        obeys_order::<T>(),
        is_scalar_fn(*trunc),
        approx_equal_req(a, b, decimal_places),
    ensures
        r == approx_equal_spec(a, b, decimal_places, *trunc),
{
    let factor = pow10::<T>(decimal_places);
    let a = apply(trunc, a * factor);
    let b = apply(trunc, b * factor);
    a == b
}

} // verus!
