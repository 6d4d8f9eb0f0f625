//! The one error of the kernel.
use vstd::prelude::*;

verus! {

/// Why a query has no answer.
#[derive(Debug, Clone, Copy, PartialEq, Eq)]
pub enum GeomError {
    /// The kernel has no algorithm for this input, such as a polygon of
    /// fewer than three corners.
    NotSupported,
}

} // verus!
