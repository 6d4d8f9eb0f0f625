//! An analytic geometry kernel: fixed-size matrices and vectors, geometric
//! primitives built on them, and closed-form nearest-point, distance and
//! intersection routines.
//!
//! # The scalar
//!
//! Everything is generic over the scalar `T`, any `Copy` type with the
//! operators of `std::ops` and a zero and a one (see [`arithmetic`]).
//! Contracts speak of scalars through the specification functions that
//! `vstd` attaches to the operators: `a.add_spec(b)` is what `a + b`
//! returns, `a.add_req(b)` is what it needs (for a machine integer, that the
//! sum fits). A routine that combines several operations requires that the
//! scalar's operators are exact (`obeys_arithmetic`), asks through a `_req`
//! predicate that every intermediate result is within the scalar's limits,
//! and ensures that its result equals a `_spec` function of its arguments.
//!
//! # Functions supplied by the caller
//!
//! Square root, truncation, sine and cosine are no operators. A routine
//! that needs one takes it as an argument; its contract speaks of
//! `value_of(f, x)`, what `f` returns on `x` (see [`utility`]).
//!
//! # Layout
//!
//! - [`matrix`], [`matrix_ops`], [`assign_ops`], [`vector`], [`convert`]:
//!   the linear algebra.
//! - [`geom_common`], [`geom2d`], [`geom3d`], [`conic`], [`coord`], [`cg`],
//!   [`misc`]: the primitives and frames.
//! - [`nearest_common`], [`nearest2d`]: nearest points.
//! - [`distance2d`]: squared distances.
//! - [`contain_common`], [`contain2d`]: point containment.
//! - [`intersect_common`], [`intersect2d`], [`intersect3d`],
//!   [`circle_circle`], [`cohen_sutherland`]: intersections and clipping.
//! - [`laws`], [`laws_exact`], [`laws_circle`]: what holds of the routines
//!   over an exact scalar.
pub mod arithmetic;
pub mod error;
pub mod utility;
pub mod matrix;
pub mod matrix_ops;
pub mod assign_ops;
pub mod vector;
pub mod convert;
pub mod coord;
pub mod cg;
pub mod geom_common;
pub mod geom2d;
pub mod geom3d;
pub mod conic;
pub mod misc;
pub mod nearest_common;
pub mod nearest2d;
pub mod contain_common;
pub mod contain2d;
pub mod distance2d;
pub mod intersect_common;
pub mod intersect2d;
pub mod intersect3d;
pub mod circle_circle;
pub mod cohen_sutherland;
pub mod laws;
pub mod laws_circle;
pub mod laws_exact;
