//! Laws of boxes, parallel lines, construction and clipping.
//!
//! The routines are generic over the scalar, and a scalar with rounding
//! satisfies no algebraic law exactly. The algebraic laws are stated for
//! every scalar that models the integers (see `laws_exact`), on inputs whose
//! every intermediate result is within the scalar's limits; the laws of
//! clipping hold for every scalar. The lemmas on powers of ten serve callers
//! of approximate equality over `i64`.
use crate::arithmetic::abs_req;
use crate::arithmetic::abs_spec;
use crate::arithmetic::less;
use crate::arithmetic::less_eq;
use crate::laws_exact::lemma_val_of_dot;
use crate::laws_exact::models_int;
use crate::laws_exact::val_dot;
use crate::utility::value_of;
use vstd::std_specs::cmp::PartialEqSpec;
use crate::nearest_common::pt2line_param_spec;
use crate::arithmetic::ArithmeticGroup;
use crate::cohen_sutherland::clip_spec;
use crate::cohen_sutherland::outcode_spec;
use crate::cohen_sutherland::x_code;
use crate::cohen_sutherland::y_code;
use crate::geom_common::Ray;
use crate::nearest_common::pt2ray_param_spec;
use crate::geom2d::AABB;
use crate::distance2d::line2line_req;
use crate::distance2d::line2line_spec;
use crate::distance2d::nearly_parallel;
use crate::geom_common::Linear;
use crate::geom_common::Linear2D;
use crate::geom_common::Segment;
use crate::intersect2d::overlap_on_axis;
use crate::intersect2d::rect_intersect_req;
use crate::matrix::Vector;
use crate::matrix::Vector2;
use crate::matrix_ops::lemma_difference_entries;
use crate::matrix_ops::lemma_divided_entries;
use crate::utility::pow10_req;
use crate::utility::pow10_spec;
use crate::utility::ten_req;
use crate::utility::ten_spec;
use vstd::std_specs::ops::DivSpec;
use crate::nearest_common::pt2segment_param_spec;
use crate::matrix_ops::lemma_scaled_entries;
use crate::matrix_ops::lemma_sum_entries;
use crate::nearest_common::point_at;
use crate::nearest_common::point_at_req;
use vstd::prelude::*;
use vstd::std_specs::ops::AddSpec;
use vstd::std_specs::ops::MulSpec;
use vstd::std_specs::ops::SubSpec;

verus! {

/// Boxes that only touch do not overlap: where the centres are exactly as
/// far apart along an axis as the sum of the half-extents, the boxes do not
/// overlap on that axis, and so do not overlap.
pub proof fn lemma_touching_boxes_do_not_overlap<T: ArithmeticGroup<T> + PartialOrd>(
    val: spec_fn(T) -> int,
    r1: AABB<T>,
    r2: AABB<T>,
    k: int,
)
    requires
        models_int(val),
        0 <= k < 2,
        abs_spec(r2.center.at(0, k).sub_spec(r1.center.at(0, k))) == r1.half_size.at(0, k).add_spec(
            r2.half_size.at(0, k),
        ),
    ensures
        !overlap_on_axis(r1, r2, k),
        !(overlap_on_axis(r1, r2, 0) && overlap_on_axis(r1, r2, 1)),
{
    let gap = abs_spec(r2.center.at(0, k).sub_spec(r1.center.at(0, k)));
    assert(less(gap, gap) <==> val(gap) < val(gap));
}

/// Two horizontal lines are parallel, and their squared distance is the
/// square of the difference of their heights, whatever square root and
/// truncation the caller supplies.
pub proof fn lemma_horizontal_lines_distance<
    T: ArithmeticGroup<T> + PartialOrd,
    F: Fn(T) -> T,
    G: Fn(T) -> T,
>(val: spec_fn(T) -> int, l1: Linear2D<T>, l2: Linear2D<T>, sqrt: F, trunc: G)
    requires
        models_int(val),
        l1.dir.at(0, 1) == T::zero_spec(),
        l2.dir.at(0, 1) == T::zero_spec(),
        line2line_req(l1, l2, sqrt, trunc),
    ensures
        line2line_spec(l1, l2, sqrt, trunc) matches Some(d) && val(d) == (val(l1.start.at(0, 1))
            - val(l2.start.at(0, 1))) * (val(l1.start.at(0, 1)) - val(l2.start.at(0, 1))),
{
    let zero = T::zero_spec();
    let one = T::identity_spec();
    let normal = l1.normal_spec(sqrt);
    let diff = l1.start.sub_spec(l2.start);
    Vector2::<T>::lemma_xy_entries(zero, one);
    lemma_difference_entries(l1.start, l2.start);
    let x1 = l1.dir.at(0, 0);
    let x2 = l2.dir.at(0, 0);
    assert(x1.mul_req(zero));
    assert(zero.mul_req(x2));
    assert(val(x1.mul_spec(zero)) == 0) by (nonlinear_arith)
        requires
            val(x1.mul_spec(zero)) == val(x1) * val(zero),
            val(zero) == 0,
    ;
    assert(val(zero.mul_spec(x2)) == 0) by (nonlinear_arith)
        requires
            val(zero.mul_spec(x2)) == val(zero) * val(x2),
            val(zero) == 0,
    ;
    assert(x1.mul_spec(zero).sub_req(zero.mul_spec(x2)));
    let cross = l1.dir.cross_spec(&l2.dir);
    assert(val(cross) == 0);
    assert(cross == zero);
    let scaled = value_of(trunc, zero.mul_spec(pow10_spec::<T>(6)));
    assert(scaled.eq_spec(&scaled) <==> val(scaled) == val(scaled));
    assert(nearly_parallel(l1, l2, trunc));
    assert(zero.eq_spec(&zero) <==> val(zero) == val(zero));
    assert(normal == Vector2::<T>::xy_spec(zero, one));
    assert(diff.dot_with_req(&normal));
    assert(l1.start.at(0, 0).sub_req(l2.start.at(0, 0)));
    assert(l1.start.at(0, 1).sub_req(l2.start.at(0, 1)));
    let d = val(l1.start.at(0, 1)) - val(l2.start.at(0, 1));
    let a = diff.elems();
    let b = normal.elems();
    assert(val(b[0]) == 0 && val(b[1]) == 1);
    assert(val(a[1]) == d);
    lemma_val_of_dot(val, a, b, 2);
    reveal_with_fuel(val_dot, 3);
    assert(val(a[0]) * val(b[0]) == 0) by (nonlinear_arith)
        requires
            val(b[0]) == 0,
    ;
    assert(val(a[1]) * val(b[1]) == d) by (nonlinear_arith)
        requires
            val(b[1]) == 1,
            val(a[1]) == d,
    ;
    let along = diff.dot_with(&normal);
    assert(val(along) == d);
    assert(less(along, zero) <==> val(along) < val(zero));
    assert(abs_req(along));
    let h = abs_spec(along);
    assert(val(h) == d || val(h) == -d);
    assert(h.mul_req(h));
    assert(val(h) * val(h) == d * d) by (nonlinear_arith)
        requires
            val(h) == d || val(h) == -d,
    ;
}

/// The parameter of the nearest point of a segment lies on the segment:
/// between zero and the length, for a length that is not negative.
pub proof fn lemma_segment_param_in_range<T: ArithmeticGroup<T> + PartialOrd, const DIM: usize>(
    val: spec_fn(T) -> int,
    p: Vector<T, DIM>,
    s: Segment<T, DIM>,
)
    requires
        models_int(val),
        less_eq(T::zero_spec(), s.0.len),
    ensures
        less_eq(T::zero_spec(), pt2segment_param_spec(p, s)),
        less_eq(pt2segment_param_spec(p, s), s.0.len),
{
    let zero = T::zero_spec();
    let t = pt2line_param_spec(p, s.0.start, s.0.dir);
    let c = pt2segment_param_spec(p, s);
    assert(less_eq(zero, s.0.len) <==> val(zero) <= val(s.0.len));
    assert(less(t, zero) <==> val(t) < val(zero));
    assert(less(s.0.len, t) <==> val(s.0.len) < val(t));
    assert(less_eq(zero, c) <==> val(zero) <= val(c));
    assert(less_eq(c, s.0.len) <==> val(c) <= val(s.0.len));
}

/// The parameter of the nearest point of a ray is never negative.
pub proof fn lemma_ray_param_not_negative<T: ArithmeticGroup<T> + PartialOrd, const DIM: usize>(
    val: spec_fn(T) -> int,
    p: Vector<T, DIM>,
    r: Ray<T, DIM>,
)
    requires
        models_int(val),
    ensures
        less_eq(T::zero_spec(), pt2ray_param_spec(p, r)),
{
    let zero = T::zero_spec();
    let t = pt2line_param_spec(p, r.0.start, r.0.dir);
    let c = pt2ray_param_spec(p, r);
    assert(less(t, zero) <==> val(t) < val(zero));
    assert(less_eq(zero, c) <==> val(zero) <= val(c));
}

/// Whether two boxes overlap does not depend on their order.
pub proof fn lemma_box_overlap_symmetric<T: ArithmeticGroup<T> + PartialOrd>(
    val: spec_fn(T) -> int,
    r1: AABB<T>,
    r2: AABB<T>,
    k: int,
)
    requires
        models_int(val),
        0 <= k < 2,
        rect_intersect_req(r1, r2),
        rect_intersect_req(r2, r1),
    ensures
        overlap_on_axis(r1, r2, k) == overlap_on_axis(r2, r1, k),
{
    let c1 = r1.center.at(0, k);
    let c2 = r2.center.at(0, k);
    let h1 = r1.half_size.at(0, k);
    let h2 = r2.half_size.at(0, k);
    let zero = T::zero_spec();
    assert(c2.sub_req(c1));
    assert(c1.sub_req(c2));
    assert(h1.add_req(h2));
    assert(h2.add_req(h1));
    let d12 = c2.sub_spec(c1);
    let d21 = c1.sub_spec(c2);
    assert(val(d12) == -val(d21));
    assert(less(d12, zero) <==> val(d12) < val(zero));
    assert(less(d21, zero) <==> val(d21) < val(zero));
    assert(abs_req(d12) && abs_req(d21));
    assert(val(abs_spec(d12)) == val(abs_spec(d21)));
    assert(val(h1.add_spec(h2)) == val(h2.add_spec(h1)));
    assert(less(abs_spec(d12), h1.add_spec(h2)) <==> val(abs_spec(d12)) < val(h1.add_spec(h2)));
    assert(less(abs_spec(d21), h2.add_spec(h1)) <==> val(abs_spec(d21)) < val(h2.add_spec(h1)));
}

/// A line with both ends inside the box is returned as it is, for every
/// scalar and every number of moves allowed.
pub proof fn lemma_clip_keeps_inner_line<T: ArithmeticGroup<T> + PartialOrd>(
    pt1: Vector2<T>,
    pt2: Vector2<T>,
    min: Vector2<T>,
    max: Vector2<T>,
    moves: nat,
)
    requires
        outcode_spec(pt1, min, max) == 0,
        outcode_spec(pt2, min, max) == 0,
    ensures
        clip_spec(pt1, pt2, min, max, moves) == Some((pt1, pt2)),
{
    assert(0u8 & 0u8 == 0u8) by (bit_vector);
    assert(0u8 | 0u8 == 0u8) by (bit_vector);
}

/// A line whose ends lie beyond the same side of the box is rejected, for
/// every scalar and every number of moves allowed.
pub proof fn lemma_clip_rejects_outer_line<T: ArithmeticGroup<T> + PartialOrd>(
    pt1: Vector2<T>,
    pt2: Vector2<T>,
    min: Vector2<T>,
    max: Vector2<T>,
    moves: nat,
)
    requires
        outcode_spec(pt1, min, max) & outcode_spec(pt2, min, max) != 0,
    ensures
        clip_spec(pt1, pt2, min, max, moves) is None,
{
}

/// Where the value of every component of `d` is that of `e` times `k`,
/// the squared length of `d` is that of `e` times `k * k`, on values.
pub proof fn lemma_val_dot_scaled<T>(val: spec_fn(T) -> int, e: Seq<T>, d: Seq<T>, k: int, n: nat)
    requires
        forall|j: int| 0 <= j < n ==> val(#[trigger] d[j]) == val(e[j]) * k,
    ensures
        val_dot(val, d, d, n) == val_dot(val, e, e, n) * (k * k),
    decreases n,
{
    if n > 0 {
        lemma_val_dot_scaled(val, e, d, k, (n - 1) as nat);
        let x = val(e[n - 1]);
        let small = val_dot(val, e, e, (n - 1) as nat);
        assert(val(d[n - 1]) == x * k);
        assert((x * k) * (x * k) == (x * x) * (k * k)) by (nonlinear_arith);
        assert(small * (k * k) + (x * x) * (k * k) == (small + x * x) * (k * k))
            by (nonlinear_arith);
        assert(val(d[n - 1]) * val(d[n - 1]) == (x * k) * (x * k));
    }
}

/// Construction round trip: the segment built from two points has the
/// length of their difference, and where the square root and the division
/// by it are exact, a direction of squared length one. Such a segment is
/// well formed.
pub proof fn lemma_segment_round_trip<
    T: ArithmeticGroup<T> + PartialOrd,
    const DIM: usize,
    F: Fn(T) -> T,
>(val: spec_fn(T) -> int, start: Vector<T, DIM>, end: Vector<T, DIM>, sqrt: F)
    requires
        models_int(val),
        SubSpec::sub_req(end, start),
        end.sub_spec(start).normalize_req(sqrt),
        end.sub_spec(start).normalize_spec(sqrt).dot_with_req(
            &end.sub_spec(start).normalize_spec(sqrt),
        ),
        0 < val(end.sub_spec(start).length_spec(sqrt)),
        val(end.sub_spec(start).length_spec(sqrt)) * val(end.sub_spec(start).length_spec(sqrt))
            == val(end.sub_spec(start).dot_with(&end.sub_spec(start))),
        forall|j: int|
            0 <= j < DIM ==> val(#[trigger] end.sub_spec(start).at(0, j)) % val(
                end.sub_spec(start).length_spec(sqrt),
            ) == 0,
    ensures
        segment_between_any(start, end, sqrt).0.start == start,
        segment_between_any(start, end, sqrt).0.len == end.sub_spec(start).length_spec(sqrt),
        segment_between_any(start, end, sqrt).wf(),
{
    let d = end.sub_spec(start);
    let len = d.length_spec(sqrt);
    let dir = d.normalize_spec(sqrt);
    let n = DIM as nat;
    lemma_divided_entries(d, len);
    assert forall|j: int| 0 <= j < n implies val(#[trigger] d.elems()[j]) == val(dir.elems()[j])
        * val(len) by {
        assert(d.at(0, j).div_req(len));
        assert(val(d.at(0, j)) % val(len) == 0);
    }
    lemma_val_dot_scaled(val, dir.elems(), d.elems(), val(len), n);
    lemma_val_of_dot(val, d.elems(), d.elems(), n);
    lemma_val_of_dot(val, dir.elems(), dir.elems(), n);
    let unit = val(dir.dot_with(&dir));
    let k = val(len);
    assert(unit == 1) by (nonlinear_arith)
        requires
            k * k == unit * (k * k),
            k > 0,
    ;
    assert(dir.dot_with(&dir) == T::identity_spec());
    assert(less_eq(T::zero_spec(), len) <==> val(T::zero_spec()) <= val(len));
}

/// The segment built from two points reaches the second: where the square
/// root and the division by it are exact, `start + dir * len == end`.
pub proof fn lemma_segment_reaches_end<
    T: ArithmeticGroup<T> + PartialOrd,
    const DIM: usize,
    F: Fn(T) -> T,
>(val: spec_fn(T) -> int, start: Vector<T, DIM>, end: Vector<T, DIM>, sqrt: F)
    requires
        models_int(val),
        SubSpec::sub_req(end, start),
        end.sub_spec(start).normalize_req(sqrt),
        0 < val(end.sub_spec(start).length_spec(sqrt)),
        forall|j: int|
            0 <= j < DIM ==> val(#[trigger] end.sub_spec(start).at(0, j)) % val(
                end.sub_spec(start).length_spec(sqrt),
            ) == 0,
        point_at_req(
            start,
            end.sub_spec(start).normalize_spec(sqrt),
            end.sub_spec(start).length_spec(sqrt),
        ),
    ensures
        point_at(
            start,
            end.sub_spec(start).normalize_spec(sqrt),
            end.sub_spec(start).length_spec(sqrt),
        ) == end,
{
    let d = end.sub_spec(start);
    let len = d.length_spec(sqrt);
    let dir = d.normalize_spec(sqrt);
    let scaled = MulSpec::<T>::mul_spec(dir, len);
    let reached = point_at(start, dir, len);
    lemma_divided_entries(d, len);
    lemma_difference_entries(end, start);
    lemma_scaled_entries(dir, len);
    lemma_sum_entries(start, scaled);
    assert forall|x: int, y: int| 0 <= x < 1 && 0 <= y < DIM implies reached.at(x, y) == end.at(
        x,
        y,
    ) by {
        assert(d.at(0, y).div_req(len));
        assert(val(d.at(0, y)) % val(len) == 0);
        assert(end.at(0, y).sub_req(start.at(0, y)));
        assert(dir.at(0, y).mul_req(len));
        assert(start.at(0, y).add_req(scaled.at(0, y)));
        assert(val(reached.at(0, y)) == val(end.at(0, y)));
    }
    Vector::<T, DIM>::lemma_entries_determine(reached, end);
}

/// The segment that `Segment::new` builds from `start` to `end`.
pub open spec fn segment_between_any<T: ArithmeticGroup<T>, const DIM: usize, F: Fn(T) -> T>(
    start: Vector<T, DIM>,
    end: Vector<T, DIM>,
    sqrt: F,
) -> Segment<T, DIM> {
    Segment::<T, DIM>(
        Linear::<T, DIM> {
            start,
            dir: end.sub_spec(start).normalize_spec(sqrt),
            len: end.sub_spec(start).length_spec(sqrt),
        },
    )
}

/// Ten to the power `n`, as an integer.
pub open spec fn ten_to(n: nat) -> int
    decreases n,
{
    if n == 0 {
        1
    } else {
        10 * ten_to((n - 1) as nat)
    }
}

/// Powers of ten grow with the exponent.
pub proof fn lemma_ten_to_grows(n: nat, m: nat)
    requires
        n <= m,
    ensures
        1 <= ten_to(n) <= ten_to(m),
    decreases m,
{
    if n < m {
        lemma_ten_to_grows(n, (m - 1) as nat);
    } else if n > 0 {
        lemma_ten_to_grows((n - 1) as nat, (n - 1) as nat);
    }
}

/// Over `i64` the scalar ten is the number ten.
pub proof fn lemma_ten()
    ensures
        ten_req::<i64>(),
        ten_spec::<i64>() == 10,
{
    let one: i64 = 1;
    let two = one.add_spec(one);
    let four = two.add_spec(two);
    assert(two == 2);
    assert(four == 4);
    assert(four.add_spec(one) == 5);
    assert(two.mul_spec(four.add_spec(one)) == 10);
}

/// Over `i64` the scale factor of approximate equality is the power of ten,
/// and can be formed for up to eighteen decimal places.
pub proof fn lemma_pow10(n: nat)
    requires
        n <= 18,
    ensures
        pow10_req::<i64>(n),
        pow10_spec::<i64>(n) == ten_to(n),
    decreases n,
{
    lemma_ten();
    if n > 0 {
        lemma_pow10((n - 1) as nat);
        lemma_ten_to_grows(n, 18);
        reveal_with_fuel(ten_to, 19);
        assert(ten_to(18) == 1_000_000_000_000_000_000);
    }
}

/// Whether the point lies in the box from `min` to `max`, the edges
/// included: on neither axis below `min` or above `max`.
pub open spec fn in_box<T: ArithmeticGroup<T> + PartialOrd>(
    p: Vector2<T>,
    min: Vector2<T>,
    max: Vector2<T>,
) -> bool {
    &&& !less(p.at(0, 0), min.at(0, 0))
    &&& !less(max.at(0, 0), p.at(0, 0))
    &&& !less(p.at(0, 1), min.at(0, 1))
    &&& !less(max.at(0, 1), p.at(0, 1))
}

/// A point has outcode zero exactly when it lies in the box.
pub proof fn lemma_outcode_zero_in_box<T: ArithmeticGroup<T> + PartialOrd>(
    p: Vector2<T>,
    min: Vector2<T>,
    max: Vector2<T>,
)
    ensures
        outcode_spec(p, min, max) == 0 <==> in_box(p, min, max),
{
    let h = x_code(p.at(0, 0), min.at(0, 0), max.at(0, 0));
    let v = y_code(p.at(0, 1), min.at(0, 1), max.at(0, 1));
    assert((h == 0 || h == 1 || h == 2) && (v == 0 || v == 4 || v == 8) ==> (h | v == 0 <==> h == 0
        && v == 0)) by (bit_vector);
}

/// What clipping returns lies in the box: both ends of the clipped line,
/// for every scalar and every number of moves allowed.
pub proof fn lemma_clip_result_in_box<T: ArithmeticGroup<T> + PartialOrd>(
    pt1: Vector2<T>,
    pt2: Vector2<T>,
    min: Vector2<T>,
    max: Vector2<T>,
    moves: nat,
)
    ensures
        clip_spec(pt1, pt2, min, max, moves) matches Some((a, b)) ==> in_box(a, min, max) && in_box(
            b,
            min,
            max,
        ),
    decreases moves,
{
    let o1 = outcode_spec(pt1, min, max);
    let o2 = outcode_spec(pt2, min, max);
    assert(o1 | o2 == 0 ==> o1 == 0 && o2 == 0) by (bit_vector);
    lemma_outcode_zero_in_box(pt1, min, max);
    lemma_outcode_zero_in_box(pt2, min, max);
    if o1 & o2 == 0 && o1 | o2 != 0 && moves > 0 {
        let outcode = if o2 > o1 {
            o2
        } else {
            o1
        };
        let p = crate::cohen_sutherland::moved_point(pt1, pt2, outcode, min, max);
        if outcode == o1 {
            lemma_clip_result_in_box(p, pt2, min, max, (moves - 1) as nat);
        } else {
            lemma_clip_result_in_box(pt1, p, min, max, (moves - 1) as nat);
        }
    }
}

} // verus!
