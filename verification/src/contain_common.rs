//! Point containment for circles and spheres.
use crate::arithmetic::less_eq;
use crate::arithmetic::obeys_arithmetic;
use crate::arithmetic::obeys_order;
use crate::arithmetic::ArithmeticGroup;
use crate::geom_common::Circular;
use crate::matrix::Vector;
use vstd::prelude::*;
use vstd::std_specs::ops::MulSpec;
use vstd::std_specs::ops::SubSpec;

verus! {

/// The squared distance from the centre and the squared radius can be formed.
pub open spec fn circular_contain_req<T: ArithmeticGroup<T>, const DIM: usize>(
    c: Circular<T, DIM>,
    pt: Vector<T, DIM>,
) -> bool {
    &&& SubSpec::sub_req(pt, c.center)
    &&& pt.sub_spec(c.center).dot_with_req(&pt.sub_spec(c.center))
    &&& c.radius.mul_req(c.radius)
}

/// `|pt - center|^2 <= radius^2`: the boundary belongs to the circle.
pub open spec fn circular_contains<T: ArithmeticGroup<T> + PartialOrd, const DIM: usize>(
    c: Circular<T, DIM>,
    pt: Vector<T, DIM>,
) -> bool {
    less_eq(pt.sub_spec(c.center).dot_with(&pt.sub_spec(c.center)), c.radius.mul_spec(c.radius))
}

pub fn is_circular_contain_pt<T: ArithmeticGroup<T> + PartialOrd, const DIM: usize>(
    c: &Circular<T, DIM>,
    pt: &Vector<T, DIM>,
) -> (r: bool)
    requires
        obeys_arithmetic::<T>(),
        obeys_order::<T>(),
        circular_contain_req(*c, *pt),
    ensures
        r == circular_contains(*c, *pt),
{
    (*pt - c.center).length_sqrd() <= c.radius * c.radius
}

} // verus!
