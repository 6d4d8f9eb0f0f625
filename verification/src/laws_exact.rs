//! Laws of nearest points and squared distances for every scalar that
//! models the integers.
//!
//! A scalar models the integers through a valuation `val` where its
//! operators, wherever their `_req` holds, compute on values as `+ - *` do
//! on integers, a division that leaves no remainder is exact, its order is
//! the order of the values, and equal values mean equal scalars. `i64` does,
//! with each number as its own value (`lemma_i64_models_int`). A scalar with
//! rounding does not, and the laws fail for it.
use crate::arithmetic::clamped;
use crate::arithmetic::less;
use crate::arithmetic::less_eq;
use crate::arithmetic::ArithmeticGroup;
use crate::geom_common::Segment;
use crate::matrix::dot_req;
use crate::matrix::dot_spec;
use crate::matrix::Vector;
use crate::matrix_ops::lemma_difference_entries;
use crate::matrix_ops::lemma_scaled_entries;
use crate::matrix_ops::lemma_sum_entries;
use crate::nearest_common::point_at;
use crate::nearest_common::point_at_req;
use crate::nearest_common::pt2line_param_req;
use crate::nearest_common::pt2line_param_spec;
use crate::nearest_common::pt2segment_param_spec;
use crate::nearest_common::pt2segment_spec;
use vstd::prelude::*;
use vstd::std_specs::cmp::PartialEqSpec;
use vstd::std_specs::ops::AddSpec;
use vstd::std_specs::ops::DivSpec;
use vstd::std_specs::ops::MulSpec;
use vstd::std_specs::ops::NegSpec;
use vstd::std_specs::ops::SubSpec;

verus! {

/// The scalar `T` models the integers through `val`.
pub open spec fn models_int<T: ArithmeticGroup<T> + PartialOrd>(val: spec_fn(T) -> int) -> bool {
    &&& val(T::zero_spec()) == 0
    &&& val(T::identity_spec()) == 1
    &&& forall|a: T, b: T| #[trigger] a.add_req(b) ==> val(a.add_spec(b)) == val(a) + val(b)
    &&& forall|a: T, b: T| #[trigger] a.sub_req(b) ==> val(a.sub_spec(b)) == val(a) - val(b)
    &&& forall|a: T, b: T| #[trigger] a.mul_req(b) ==> val(a.mul_spec(b)) == val(a) * val(b)
    &&& forall|a: T| #[trigger] a.neg_req() ==> val(a.neg_spec()) == -val(a)
    &&& forall|a: T, b: T|
        #[trigger] a.div_req(b) && 0 < val(b) && val(a) % val(b) == 0 ==> val(a.div_spec(b)) * val(
            b,
        ) == val(a)
    &&& forall|a: T, b: T| #[trigger] less(a, b) <==> val(a) < val(b)
    &&& forall|a: T, b: T| #[trigger] less_eq(a, b) <==> val(a) <= val(b)
    &&& forall|a: T, b: T| #[trigger] a.eq_spec(&b) <==> val(a) == val(b)
    &&& forall|a: T, b: T| #![trigger val(a), val(b)] val(a) == val(b) ==> a == b
}

/// A number divided by a positive divisor of it, times the divisor, is the
/// number.
pub proof fn lemma_exact_quotient(d: i64, len: i64)
    requires
        len > 0,
        (d as int) % (len as int) == 0,
    ensures
        d.div_spec(len) * len == d,
{
    let k = (d as int) / (len as int);
    vstd::arithmetic::div_mod::lemma_fundamental_div_mod(d as int, len as int);
    assert(d == len * k);
    assert(k * len == len * k) by (nonlinear_arith);
    if d < 0 {
        assert(-d == (-k) * len + 0) by (nonlinear_arith)
            requires
                d == len * k,
        ;
        vstd::arithmetic::div_mod::lemma_fundamental_div_mod_converse(-d, len as int, -k, 0);
        assert(i64::MIN <= k <= i64::MAX) by (nonlinear_arith)
            requires
                d == len * k,
                len > 0,
                i64::MIN <= d < 0,
        ;
    } else {
        assert(i64::MIN <= k <= i64::MAX) by (nonlinear_arith)
            requires
                d == len * k,
                len > 0,
                0 <= d <= i64::MAX,
        ;
    }
}

/// `i64` models the integers with each number as its own value.
pub proof fn lemma_i64_models_int()
    ensures
        models_int::<i64>(|x: i64| x as int),
{
    let val = |x: i64| x as int;
    assert forall|a: i64, b: i64|
        #[trigger] a.div_req(b) && 0 < val(b) && val(a) % val(b) == 0 implies val(a.div_spec(b))
        * val(b) == val(a) by {
        lemma_exact_quotient(a, b);
    }
}

/// The dot product of the values of the first `n` components.
pub open spec fn val_dot<T>(val: spec_fn(T) -> int, a: Seq<T>, b: Seq<T>, n: nat) -> int
    decreases n,
{
    if n == 0 {
        0
    } else {
        val_dot(val, a, b, (n - 1) as nat) + val(a[n - 1]) * val(b[n - 1])
    }
}

/// Within the scalar's limits the value of a dot product is the dot product
/// of the values.
pub proof fn lemma_val_of_dot<T: ArithmeticGroup<T> + PartialOrd>(
    val: spec_fn(T) -> int,
    a: Seq<T>,
    b: Seq<T>,
    n: nat,
)
    requires
        models_int(val),
        dot_req(a, b, n),
    ensures
        val(dot_spec(a, b, n)) == val_dot(val, a, b, n),
    decreases n,
{
    if n > 0 {
        lemma_val_of_dot(val, a, b, (n - 1) as nat);
        assert(a[n - 1].mul_req(b[n - 1]));
        assert(dot_spec(a, b, (n - 1) as nat).add_req(a[n - 1].mul_spec(b[n - 1])));
    }
}

/// A sum of squares is not negative.
pub proof fn lemma_val_dot_self_not_negative<T>(val: spec_fn(T) -> int, a: Seq<T>, n: nat)
    ensures
        0 <= val_dot(val, a, a, n),
    decreases n,
{
    if n > 0 {
        lemma_val_dot_self_not_negative(val, a, (n - 1) as nat);
        let x = val(a[n - 1]);
        assert(0 <= x * x) by (nonlinear_arith);
    }
}

/// Where the value of every component of `u` is that of `w` minus `k` times
/// that of `d`: `u . u == w . w - 2 k (w . d) + k^2 (d . d)` and
/// `u . d == w . d - k (d . d)`, on values.
pub proof fn lemma_val_dot_shifted<T>(
    val: spec_fn(T) -> int,
    w: Seq<T>,
    d: Seq<T>,
    u: Seq<T>,
    k: int,
    n: nat,
)
    requires
        forall|j: int| 0 <= j < n ==> val(#[trigger] u[j]) == val(w[j]) - val(d[j]) * k,
    ensures
        val_dot(val, u, u, n) == val_dot(val, w, w, n) - 2 * k * val_dot(val, w, d, n) + k * k
            * val_dot(val, d, d, n),
        val_dot(val, u, d, n) == val_dot(val, w, d, n) - k * val_dot(val, d, d, n),
    decreases n,
{
    if n > 0 {
        lemma_val_dot_shifted(val, w, d, u, k, (n - 1) as nat);
        let x = val(w[n - 1]);
        let y = val(d[n - 1]);
        let wd = val_dot(val, w, d, (n - 1) as nat);
        let dd = val_dot(val, d, d, (n - 1) as nat);
        assert(val(u[n - 1]) == x - y * k);
        assert((x - y * k) * (x - y * k) == x * x - 2 * k * (x * y) + k * k * (y * y))
            by (nonlinear_arith);
        assert(2 * k * (wd + x * y) == 2 * k * wd + 2 * k * (x * y)) by (nonlinear_arith);
        assert(k * k * (dd + y * y) == k * k * dd + k * k * (y * y)) by (nonlinear_arith);
        assert((x - y * k) * y == x * y - k * (y * y)) by (nonlinear_arith);
        assert(k * (dd + y * y) == k * dd + k * (y * y)) by (nonlinear_arith);
        assert(val(u[n - 1]) * val(u[n - 1]) == (x - y * k) * (x - y * k));
        assert(val(u[n - 1]) * y == (x - y * k) * y);
    }
}

/// The value of each component of `p - (start + dir * k)` is that of
/// `p - start` minus `k` times that of `dir`.
pub proof fn lemma_val_of_offset<T: ArithmeticGroup<T> + PartialOrd, const DIM: usize>(
    val: spec_fn(T) -> int,
    p: Vector<T, DIM>,
    start: Vector<T, DIM>,
    dir: Vector<T, DIM>,
    k: T,
)
    requires
        models_int(val),
        SubSpec::sub_req(p, start),
        point_at_req(start, dir, k),
        SubSpec::sub_req(p, point_at(start, dir, k)),
    ensures
        forall|j: int|
            0 <= j < DIM ==> val(#[trigger] p.sub_spec(point_at(start, dir, k)).elems()[j]) == val(
                p.sub_spec(start).elems()[j],
            ) - val(dir.elems()[j]) * val(k),
{
    let scaled = MulSpec::<T>::mul_spec(dir, k);
    let q = point_at(start, dir, k);
    lemma_scaled_entries(dir, k);
    lemma_sum_entries(start, scaled);
    lemma_difference_entries(p, start);
    lemma_difference_entries(p, q);
    assert forall|j: int| 0 <= j < DIM implies val(#[trigger] p.sub_spec(q).elems()[j]) == val(
        p.sub_spec(start).elems()[j],
    ) - val(dir.elems()[j]) * val(k) by {
        assert(dir.at(0, j).mul_req(k));
        assert(start.at(0, j).add_req(scaled.at(0, j)));
        assert(p.at(0, j).sub_req(start.at(0, j)));
        assert(p.at(0, j).sub_req(q.at(0, j)));
    }
}

/// A squared distance is not negative.
pub proof fn lemma_squared_distance_not_negative<T: ArithmeticGroup<T> + PartialOrd, const DIM: usize>(
    val: spec_fn(T) -> int,
    from: Vector<T, DIM>,
    to: Vector<T, DIM>,
)
    requires
        models_int(val),
        to.sub_spec(from).dot_with_req(&to.sub_spec(from)),
    ensures
        !less(to.sub_spec(from).dot_with(&to.sub_spec(from)), T::zero_spec()),
{
    let d = to.sub_spec(from).elems();
    lemma_val_of_dot(val, d, d, DIM as nat);
    lemma_val_dot_self_not_negative(val, d, DIM as nat);
}

/// The nearest point is nearest: no point of a well-formed segment, at any
/// parameter `t` within `[0, len]`, is nearer to `p` than the point that
/// `pt2segment` returns.
pub proof fn lemma_nearest_is_nearest<T: ArithmeticGroup<T> + PartialOrd, const DIM: usize>(
    val: spec_fn(T) -> int,
    p: Vector<T, DIM>,
    s: Segment<T, DIM>,
    t: T,
)
    requires
        models_int(val),
        s.wf(),
        !less(t, T::zero_spec()),
        !less(s.0.len, t),
        pt2line_param_req(p, s.0.start, s.0.dir),
        point_at_req(s.0.start, s.0.dir, pt2segment_param_spec(p, s)),
        SubSpec::sub_req(p, pt2segment_spec(p, s)),
        p.sub_spec(pt2segment_spec(p, s)).dot_with_req(&p.sub_spec(pt2segment_spec(p, s))),
        point_at_req(s.0.start, s.0.dir, t),
        SubSpec::sub_req(p, point_at(s.0.start, s.0.dir, t)),
        p.sub_spec(point_at(s.0.start, s.0.dir, t)).dot_with_req(
            &p.sub_spec(point_at(s.0.start, s.0.dir, t)),
        ),
    ensures
        !less(
            p.sub_spec(point_at(s.0.start, s.0.dir, t)).dot_with(
                &p.sub_spec(point_at(s.0.start, s.0.dir, t)),
            ),
            p.sub_spec(pt2segment_spec(p, s)).dot_with(&p.sub_spec(pt2segment_spec(p, s))),
        ),
{
    let start = s.0.start;
    let dir = s.0.dir;
    let c = pt2segment_param_spec(p, s);
    let w = p.sub_spec(start).elems();
    let d = dir.elems();
    let near = p.sub_spec(pt2segment_spec(p, s)).elems();
    let other = p.sub_spec(point_at(start, dir, t)).elems();
    let n = DIM as nat;
    lemma_val_of_offset(val, p, start, dir, c);
    lemma_val_of_offset(val, p, start, dir, t);
    lemma_val_dot_shifted(val, w, d, near, val(c), n);
    lemma_val_dot_shifted(val, w, d, other, val(t), n);
    lemma_val_of_dot(val, near, near, n);
    lemma_val_of_dot(val, other, other, n);
    lemma_val_of_dot(val, w, d, n);
    lemma_val_of_dot(val, d, d, n);
    let a = val_dot(val, w, w, n);
    let b = val_dot(val, w, d, n);
    assert(val_dot(val, d, d, n) == 1);
    let param = pt2line_param_spec(p, start, dir);
    assert(val(param) == b);
    assert(c == clamped(param, T::zero_spec(), s.0.len));
    let len = val(s.0.len);
    let cc = val(c);
    let tt = val(t);
    assert(cc * cc * 1 == cc * cc && tt * tt * 1 == tt * tt) by (nonlinear_arith);
    assert(a - 2 * cc * b + cc * cc <= a - 2 * tt * b + tt * tt) by (nonlinear_arith)
        requires
            0 <= tt <= len,
            cc == (if b < 0 {
                0
            } else if len < b {
                len
            } else {
                b
            }),
    ;
}

/// Projection on a segment is idempotent: the nearest point of a
/// well-formed segment to a point that already is a nearest point is that
/// point itself.
pub proof fn lemma_projection_idempotent<T: ArithmeticGroup<T> + PartialOrd, const DIM: usize>(
    val: spec_fn(T) -> int,
    p: Vector<T, DIM>,
    s: Segment<T, DIM>,
)
    requires
        models_int(val),
        s.wf(),
        pt2line_param_req(p, s.0.start, s.0.dir),
        point_at_req(s.0.start, s.0.dir, pt2segment_param_spec(p, s)),
        pt2line_param_req(pt2segment_spec(p, s), s.0.start, s.0.dir),
    ensures
        pt2segment_spec(pt2segment_spec(p, s), s) == pt2segment_spec(p, s),
{
    let start = s.0.start;
    let dir = s.0.dir;
    let c = pt2segment_param_spec(p, s);
    let scaled = MulSpec::<T>::mul_spec(dir, c);
    let q = pt2segment_spec(p, s);
    let diff = q.sub_spec(start);
    let n = DIM as nat;
    lemma_scaled_entries(dir, c);
    lemma_sum_entries(start, scaled);
    lemma_difference_entries(q, start);
    let zeros = Seq::new(n, |j: int| T::zero_spec());
    assert forall|j: int| 0 <= j < n implies val(#[trigger] diff.elems()[j]) == val(zeros[j]) - val(
        dir.elems()[j],
    ) * (-val(c)) by {
        assert(dir.at(0, j).mul_req(c));
        assert(start.at(0, j).add_req(scaled.at(0, j)));
        assert(q.at(0, j).sub_req(start.at(0, j)));
        assert(val(dir.at(0, j)) * val(c) == 0 - val(dir.at(0, j)) * (-val(c)))
            by (nonlinear_arith);
    }
    lemma_val_dot_shifted(val, zeros, dir.elems(), diff.elems(), -val(c), n);
    lemma_val_dot_of_zeros(val, zeros, dir.elems(), n);
    lemma_val_of_dot(val, diff.elems(), dir.elems(), n);
    lemma_val_of_dot(val, dir.elems(), dir.elems(), n);
    let again = pt2line_param_spec(q, start, dir);
    assert(val(again) == val(c)) by (nonlinear_arith)
        requires
            val(again) == 0 - (-val(c)) * val_dot(val, dir.elems(), dir.elems(), n),
            val_dot(val, dir.elems(), dir.elems(), n) == 1,
    ;
    assert(again == c);
    let param = pt2line_param_spec(p, start, dir);
    let zero = T::zero_spec();
    assert(less_eq(zero, s.0.len));
    assert(less(param, zero) <==> val(param) < 0);
    assert(less(s.0.len, param) <==> val(s.0.len) < val(param));
    assert(less(c, zero) <==> val(c) < 0);
    assert(less(s.0.len, c) <==> val(s.0.len) < val(c));
    assert(clamped(c, zero, s.0.len) == c);
}

/// The dot product of the values of a vector of zeros with any vector is
/// zero.
pub proof fn lemma_val_dot_of_zeros<T: ArithmeticGroup<T> + PartialOrd>(
    val: spec_fn(T) -> int,
    z: Seq<T>,
    d: Seq<T>,
    n: nat,
)
    requires
        forall|j: int| 0 <= j < n ==> val(#[trigger] z[j]) == 0,
    ensures
        val_dot(val, z, d, n) == 0,
    decreases n,
{
    if n > 0 {
        lemma_val_dot_of_zeros(val, z, d, (n - 1) as nat);
        assert(val(z[n - 1]) * val(d[n - 1]) == 0) by (nonlinear_arith)
            requires
                val(z[n - 1]) == 0,
        ;
    }
}

/// A point of a well-formed segment is its own nearest point, at squared
/// distance zero.
pub proof fn lemma_point_of_segment_is_nearest<T: ArithmeticGroup<T> + PartialOrd, const DIM: usize>(
    val: spec_fn(T) -> int,
    s: Segment<T, DIM>,
    t: T,
)
    requires
        models_int(val),
        s.wf(),
        !less(t, T::zero_spec()),
        !less(s.0.len, t),
        point_at_req(s.0.start, s.0.dir, t),
        pt2line_param_req(point_at(s.0.start, s.0.dir, t), s.0.start, s.0.dir),
        SubSpec::sub_req(point_at(s.0.start, s.0.dir, t), point_at(s.0.start, s.0.dir, t)),
        point_at(s.0.start, s.0.dir, t).sub_spec(point_at(s.0.start, s.0.dir, t)).dot_with_req(
            &point_at(s.0.start, s.0.dir, t).sub_spec(point_at(s.0.start, s.0.dir, t)),
        ),
    ensures
        pt2segment_spec(point_at(s.0.start, s.0.dir, t), s) == point_at(s.0.start, s.0.dir, t),
        point_at(s.0.start, s.0.dir, t).sub_spec(pt2segment_spec(point_at(s.0.start, s.0.dir, t), s)).dot_with(
            &point_at(s.0.start, s.0.dir, t).sub_spec(
                pt2segment_spec(point_at(s.0.start, s.0.dir, t), s),
            ),
        ) == T::zero_spec(),
{
    let start = s.0.start;
    let dir = s.0.dir;
    let q = point_at(start, dir, t);
    let scaled = MulSpec::<T>::mul_spec(dir, t);
    let diff = q.sub_spec(start);
    let n = DIM as nat;
    lemma_scaled_entries(dir, t);
    lemma_sum_entries(start, scaled);
    lemma_difference_entries(q, start);
    let zeros = Seq::new(n, |j: int| T::zero_spec());
    assert forall|j: int| 0 <= j < n implies val(#[trigger] diff.elems()[j]) == val(zeros[j]) - val(
        dir.elems()[j],
    ) * (-val(t)) by {
        assert(dir.at(0, j).mul_req(t));
        assert(start.at(0, j).add_req(scaled.at(0, j)));
        assert(q.at(0, j).sub_req(start.at(0, j)));
        assert(val(dir.at(0, j)) * val(t) == 0 - val(dir.at(0, j)) * (-val(t)))
            by (nonlinear_arith);
    }
    lemma_val_dot_shifted(val, zeros, dir.elems(), diff.elems(), -val(t), n);
    lemma_val_dot_of_zeros(val, zeros, dir.elems(), n);
    lemma_val_of_dot(val, diff.elems(), dir.elems(), n);
    lemma_val_of_dot(val, dir.elems(), dir.elems(), n);
    let param = pt2line_param_spec(q, start, dir);
    assert(val(param) == val(t)) by (nonlinear_arith)
        requires
            val(param) == 0 - (-val(t)) * val_dot(val, dir.elems(), dir.elems(), n),
            val_dot(val, dir.elems(), dir.elems(), n) == 1,
    ;
    assert(param == t);
    let zero = T::zero_spec();
    assert(less(t, zero) <==> val(t) < 0);
    assert(less(s.0.len, t) <==> val(s.0.len) < val(t));
    assert(clamped(t, zero, s.0.len) == t);
    assert(pt2segment_spec(q, s) == q);
    let same = q.sub_spec(q);
    lemma_difference_entries(q, q);
    assert forall|j: int| 0 <= j < n implies val(#[trigger] same.elems()[j]) == 0 by {
        assert(q.at(0, j).sub_req(q.at(0, j)));
    }
    lemma_val_dot_of_zeros(val, same.elems(), same.elems(), n);
    lemma_val_of_dot(val, same.elems(), same.elems(), n);
}

} // verus!
