//! Laws of the line-circle solver for every scalar that models the
//! integers.
//!
//! They hold for a line with a direction of squared length one, a square
//! root that is exact and not negative on the discriminant, and inputs
//! whose every intermediate result is within the scalar's limits.
use crate::circle_circle::center_dir;
use crate::circle_circle::rim_point;
use crate::circle_circle::rim_point_req;
use crate::geom_common::Circle;
use crate::geom_common::Circular;
use crate::laws::lemma_val_dot_scaled;
use crate::matrix::Vector2;
use crate::geom_common::Linear;
use crate::intersect_common::quad_b;
use crate::intersect_common::quad_c;
use crate::intersect_common::quad_delta;
use crate::intersect_common::quad_req;
use crate::intersect_common::ray_clip_spec;
use crate::intersect_common::seg_clip_spec;
use crate::intersect_common::roots_req;
use crate::intersect_common::roots_spec;
use crate::arithmetic::less;
use crate::arithmetic::less_eq;
use crate::arithmetic::ArithmeticGroup;
use crate::laws_exact::lemma_val_dot_shifted;
use crate::laws_exact::lemma_val_of_dot;
use crate::laws_exact::models_int;
use crate::laws_exact::val_dot;
use crate::matrix_ops::lemma_difference_entries;
use crate::matrix_ops::lemma_scaled_entries;
use crate::matrix_ops::lemma_sum_entries;
use crate::nearest_common::point_at;
use crate::nearest_common::point_at_req;
use crate::utility::value_of;
use vstd::prelude::*;
use vstd::std_specs::ops::AddSpec;
use vstd::std_specs::ops::MulSpec;
use vstd::std_specs::ops::NegSpec;
use vstd::std_specs::ops::SubSpec;

verus! {

/// The squared distance of the point of the line at parameter `t` from the
/// centre of the circle.
pub open spec fn from_center<T: ArithmeticGroup<T>, const DIM: usize>(
    l: Linear<T, DIM>,
    c: Circular<T, DIM>,
    t: T,
) -> T {
    point_at(l.start, l.dir, t).sub_spec(c.center).dot_with(
        &point_at(l.start, l.dir, t).sub_spec(c.center),
    )
}

/// The point at parameter `t` and its squared distance from the centre can
/// be formed.
pub open spec fn from_center_req<T: ArithmeticGroup<T>, const DIM: usize>(
    l: Linear<T, DIM>,
    c: Circular<T, DIM>,
    t: T,
) -> bool {
    &&& point_at_req(l.start, l.dir, t)
    &&& SubSpec::sub_req(point_at(l.start, l.dir, t), c.center)
    &&& point_at(l.start, l.dir, t).sub_spec(c.center).dot_with_req(
        &point_at(l.start, l.dir, t).sub_spec(c.center),
    )
}

/// A parameter `t` with value `-b + s` or `-b - s`, where `s * s` is the
/// value of the discriminant, gives a point of the circle: its squared
/// distance from the centre is the squared radius.
pub proof fn lemma_root_gives_point_of_circle<T: ArithmeticGroup<T> + PartialOrd, const DIM: usize>(
    val: spec_fn(T) -> int,
    l: Linear<T, DIM>,
    c: Circular<T, DIM>,
    t: T,
    s: int,
)
    requires
        models_int(val),
        l.dir.dot_with_req(&l.dir),
        l.unit_dir(),
        quad_req(l, c),
        s * s == val(quad_delta(l, c)),
        val(t) == -val(quad_b(l, c)) + s || val(t) == -val(quad_b(l, c)) - s,
        from_center_req(l, c, t),
    ensures
        from_center(l, c, t) == c.radius.mul_spec(c.radius),
{
    let n = DIM as nat;
    let m = l.start.sub_spec(c.center);
    let scaled = MulSpec::<T>::mul_spec(l.dir, t);
    let q = point_at(l.start, l.dir, t);
    let v = q.sub_spec(c.center);
    lemma_scaled_entries(l.dir, t);
    lemma_sum_entries(l.start, scaled);
    lemma_difference_entries(l.start, c.center);
    lemma_difference_entries(q, c.center);
    assert forall|j: int| 0 <= j < n implies val(#[trigger] v.elems()[j]) == val(m.elems()[j]) - val(
        l.dir.elems()[j],
    ) * (-val(t)) by {
        assert(l.dir.at(0, j).mul_req(t));
        assert(l.start.at(0, j).add_req(scaled.at(0, j)));
        assert(l.start.at(0, j).sub_req(c.center.at(0, j)));
        assert(q.at(0, j).sub_req(c.center.at(0, j)));
        assert(val(l.dir.at(0, j)) * val(t) == -(val(l.dir.at(0, j)) * (-val(t))))
            by (nonlinear_arith);
    }
    lemma_val_dot_shifted(val, m.elems(), l.dir.elems(), v.elems(), -val(t), n);
    lemma_val_of_dot(val, v.elems(), v.elems(), n);
    lemma_val_of_dot(val, m.elems(), l.dir.elems(), n);
    lemma_val_of_dot(val, m.elems(), m.elems(), n);
    lemma_val_of_dot(val, l.dir.elems(), l.dir.elems(), n);
    let mm = val_dot(val, m.elems(), m.elems(), n);
    let b = val_dot(val, m.elems(), l.dir.elems(), n);
    let r2 = val(c.radius) * val(c.radius);
    assert(val(quad_b(l, c)) == b);
    assert(c.radius.mul_req(c.radius));
    assert(val(c.radius.mul_spec(c.radius)) == r2);
    assert(m.dot_with(&m).sub_req(c.radius.mul_spec(c.radius)));
    assert(val(quad_c(l, c)) == mm - r2);
    assert(quad_b(l, c).mul_req(quad_b(l, c)));
    assert(quad_b(l, c).mul_spec(quad_b(l, c)).sub_req(quad_c(l, c)));
    assert(val(quad_delta(l, c)) == b * b - (mm - r2));
    let tt = val(t);
    assert(mm - 2 * (-tt) * b + (-tt) * (-tt) * 1 == r2) by (nonlinear_arith)
        requires
            s * s == b * b - (mm - r2),
            tt == -b + s || tt == -b - s,
    ;
    assert(val(from_center(l, c, t)) == val(c.radius.mul_spec(c.radius)));
}

/// Where the solver finds two roots, both give points of the circle, and
/// the smaller comes first.
pub proof fn lemma_two_roots_lie_on_circle<
    T: ArithmeticGroup<T> + PartialOrd,
    const DIM: usize,
    F: Fn(T) -> T,
    G: Fn(T) -> T,
>(val: spec_fn(T) -> int, l: Linear<T, DIM>, c: Circular<T, DIM>, sqrt: F, trunc: G)
    requires
        models_int(val),
        l.dir.dot_with_req(&l.dir),
        l.unit_dir(),
        roots_req(l, c, sqrt, trunc),
        0 <= val(value_of(sqrt, quad_delta(l, c))),
        val(value_of(sqrt, quad_delta(l, c))) * val(value_of(sqrt, quad_delta(l, c))) == val(
            quad_delta(l, c),
        ),
        roots_spec(l, c, sqrt, trunc) matches Some((a, Some(b))) && from_center_req(l, c, a)
            && from_center_req(l, c, b),
    ensures
        roots_spec(l, c, sqrt, trunc) matches Some((a, Some(b))) && {
            &&& less_eq(a, b)
            &&& from_center(l, c, a) == c.radius.mul_spec(c.radius)
            &&& from_center(l, c, b) == c.radius.mul_spec(c.radius)
        },
{
    let s = value_of(sqrt, quad_delta(l, c));
    let nb = quad_b(l, c).neg_spec();
    assert(quad_b(l, c).neg_req());
    assert(val(nb) == -val(quad_b(l, c)));
    let a = nb.sub_spec(s);
    let b = nb.add_spec(s);
    assert(nb.sub_req(s));
    assert(nb.add_req(s));
    assert(val(a) == val(nb) - val(s) && val(b) == val(nb) + val(s));
    assert(less_eq(a, b) <==> val(a) <= val(b));
    lemma_root_gives_point_of_circle(val, l, c, a, val(s));
    lemma_root_gives_point_of_circle(val, l, c, b, val(s));
}

/// Where the discriminant is exactly zero, the one root `-b` gives a point
/// of the circle: the line is tangent there.
pub proof fn lemma_tangent_root_lies_on_circle<T: ArithmeticGroup<T> + PartialOrd, const DIM: usize>(
    val: spec_fn(T) -> int,
    l: Linear<T, DIM>,
    c: Circular<T, DIM>,
)
    requires
        models_int(val),
        l.dir.dot_with_req(&l.dir),
        l.unit_dir(),
        quad_req(l, c),
        quad_delta(l, c) == T::zero_spec(),
        quad_b(l, c).neg_req(),
        from_center_req(l, c, quad_b(l, c).neg_spec()),
    ensures
        from_center(l, c, quad_b(l, c).neg_spec()) == c.radius.mul_spec(c.radius),
{
    assert(val(quad_b(l, c).neg_spec()) == -val(quad_b(l, c)));
    lemma_root_gives_point_of_circle(val, l, c, quad_b(l, c).neg_spec(), 0);
}

/// Whether `t` is one of the parameters in `roots`.
pub open spec fn is_root<T>(roots: Option<(T, Option<T>)>, t: T) -> bool {
    roots matches Some((a, b)) && (t == a || b == Some(t))
}

/// Clipping to a ray invents nothing and keeps nothing behind the start:
/// every parameter it returns is one of the roots and is not negative, and
/// roots in order stay in order.
pub proof fn lemma_ray_clip_keeps_roots_ahead<T: ArithmeticGroup<T> + PartialOrd>(
    val: spec_fn(T) -> int,
    roots: Option<(T, Option<T>)>,
    t: T,
)
    requires
        models_int(val),
        is_root(ray_clip_spec(roots), t),
        roots matches Some((a, Some(b))) ==> less_eq(a, b),
    ensures
        is_root(roots, t),
        less_eq(T::zero_spec(), t),
        ray_clip_spec(roots) matches Some((a, Some(b))) ==> less_eq(a, b),
{
    let zero = T::zero_spec();
    assert(less_eq(zero, t) <==> val(zero) <= val(t));
    assert(less(t, zero) <==> val(t) < val(zero));
    match roots {
        Some((a, Some(b))) => {
            assert(less_eq(a, b) <==> val(a) <= val(b));
            assert(less(a, zero) <==> val(a) < val(zero));
            assert(less_eq(zero, b) <==> val(zero) <= val(b));
            assert(less(b, zero) <==> val(b) < val(zero));
        },
        _ => {},
    }
}

/// Clipping to a ray drops nothing that lies on it: every root that is not
/// negative is returned.
pub proof fn lemma_ray_clip_drops_nothing_ahead<T: ArithmeticGroup<T> + PartialOrd>(
    val: spec_fn(T) -> int,
    roots: Option<(T, Option<T>)>,
    t: T,
)
    requires
        models_int(val),
        is_root(roots, t),
        less_eq(T::zero_spec(), t),
        roots matches Some((a, Some(b))) ==> less_eq(a, b),
    ensures
        is_root(ray_clip_spec(roots), t),
{
    let zero = T::zero_spec();
    assert(less_eq(zero, t) <==> val(zero) <= val(t));
    assert(less(t, zero) <==> val(t) < val(zero));
    match roots {
        Some((a, Some(b))) => {
            assert(less_eq(a, b) <==> val(a) <= val(b));
            assert(less(a, zero) <==> val(a) < val(zero));
            assert(less_eq(zero, b) <==> val(zero) <= val(b));
            assert(less(b, zero) <==> val(b) < val(zero));
        },
        _ => {},
    }
}

/// Clipping to a segment returns exactly the roots that lie on it, both
/// ends included.
pub proof fn lemma_seg_clip_keeps_roots_within<T: ArithmeticGroup<T> + PartialOrd>(
    roots: Option<(T, Option<T>)>,
    len: T,
    t: T,
)
    ensures
        is_root(seg_clip_spec(roots, len), t) <==> is_root(roots, t) && less_eq(T::zero_spec(), t)
            && less_eq(t, len),
{
}

/// Whether the point lies on the circle: its squared distance from the
/// centre is the squared radius, on values.
pub open spec fn on_circle<T: ArithmeticGroup<T>>(
    val: spec_fn(T) -> int,
    c: Circle<T>,
    p: Vector2<T>,
) -> bool {
    val(p.sub_spec(c.center).dot_with(&p.sub_spec(c.center))) == val(c.radius) * val(c.radius)
}

/// The squared distance of the point from the centre can be formed.
pub open spec fn on_circle_req<T: ArithmeticGroup<T>>(c: Circle<T>, p: Vector2<T>) -> bool {
    &&& SubSpec::sub_req(p, c.center)
    &&& p.sub_spec(c.center).dot_with_req(&p.sub_spec(c.center))
}

/// The point in which tangent circles touch lies on both.
///
/// `circles_intersect` returns `rim_point(c1, v)` for tangent circles,
/// with `v` the unit vector from the first centre toward the second, or
/// its opposite where the first circle lies inside the second. Let the
/// centres be `m` times `v` apart. The point lies on the first circle, and
/// on the second where `(r1 - m)^2 == r2^2`: that is `m == r1 + r2` for
/// circles that touch from outside, `m == r1 - r2` from inside.
pub proof fn lemma_tangent_point_on_both_circles<T: ArithmeticGroup<T> + PartialOrd>(
    val: spec_fn(T) -> int,
    c1: Circle<T>,
    c2: Circle<T>,
    v: Vector2<T>,
    m: int,
)
    requires
        models_int(val),
        v.dot_with_req(&v),
        v.dot_with(&v) == T::identity_spec(),
        SubSpec::sub_req(c2.center, c1.center),
        forall|j: int| 0 <= j < 2 ==> val(#[trigger] center_dir(c1, c2).at(0, j)) == val(v.at(0, j))
            * m,
        (val(c1.radius) - m) * (val(c1.radius) - m) == val(c2.radius) * val(c2.radius),
        rim_point_req(c1, v),
        on_circle_req(c1, rim_point(c1, v)),
        on_circle_req(c2, rim_point(c1, v)),
    ensures
        on_circle(val, c1, rim_point(c1, v)),
        on_circle(val, c2, rim_point(c1, v)),
{
    let r1 = val(c1.radius);
    let scaled = MulSpec::<T>::mul_spec(v, c1.radius);
    let rim = rim_point(c1, v);
    let from_first = rim.sub_spec(c1.center);
    let from_second = rim.sub_spec(c2.center);
    lemma_scaled_entries(v, c1.radius);
    lemma_sum_entries(scaled, c1.center);
    lemma_difference_entries(rim, c1.center);
    lemma_difference_entries(rim, c2.center);
    lemma_difference_entries(c2.center, c1.center);
    assert forall|j: int| 0 <= j < 2 implies val(#[trigger] from_first.elems()[j]) == val(
        v.elems()[j],
    ) * r1 && val(#[trigger] from_second.elems()[j]) == val(v.elems()[j]) * (r1 - m) by {
        assert(v.at(0, j).mul_req(c1.radius));
        assert(scaled.at(0, j).add_req(c1.center.at(0, j)));
        assert(rim.at(0, j).sub_req(c1.center.at(0, j)));
        assert(rim.at(0, j).sub_req(c2.center.at(0, j)));
        assert(c2.center.at(0, j).sub_req(c1.center.at(0, j)));
        assert(val(center_dir(c1, c2).at(0, j)) == val(v.at(0, j)) * m);
        assert(val(v.at(0, j)) * r1 - val(v.at(0, j)) * m == val(v.at(0, j)) * (r1 - m))
            by (nonlinear_arith);
    }
    lemma_val_dot_scaled(val, v.elems(), from_first.elems(), r1, 2);
    lemma_val_dot_scaled(val, v.elems(), from_second.elems(), r1 - m, 2);
    lemma_val_of_dot(val, v.elems(), v.elems(), 2);
    lemma_val_of_dot(val, from_first.elems(), from_first.elems(), 2);
    lemma_val_of_dot(val, from_second.elems(), from_second.elems(), 2);
    assert(val_dot(val, v.elems(), v.elems(), 2) == 1);
    assert(1 * (r1 * r1) == r1 * r1 && 1 * ((r1 - m) * (r1 - m)) == (r1 - m) * (r1 - m))
        by (nonlinear_arith);
}

} // verus!
