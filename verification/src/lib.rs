//! Pairwise intersections of 2D line segments with integer coordinates.
//!
//! Every predicate is exact. Coordinates of 32 bits are widened to 128 bits
//! before any subtraction or product, so that no value of the domain makes a
//! computation overflow, and a point of intersection is kept as an exact
//! quotient: the division is left to whoever needs a float.
//!
//! - [`model`]: points, segments and rational points over the integers, in
//!   which every contract is stated.
//! - [`ordered_coordinate`], [`ordered_segment`]: the coordinates and the
//!   segments, with their arithmetic.
//! - [`orientation`], [`nwse_ordering`], [`intersection`]: the predicates and
//!   the solvers.
//! - [`intersect_segments`], [`js_api`]: the drivers over lists of segments
//!   and over flat arrays.
//! - [`laws`], [`pruning`], [`permutation`]: what holds of the solvers and of
//!   the drivers on every input.
pub mod arith;
pub mod generate_random;
pub mod intersect_segments;
pub mod intersection;
pub mod js_api;
pub mod laws;
pub mod model;
pub mod nwse_ordering;
pub mod ordered_coordinate;
pub mod ordered_segment;
pub mod orientation;
pub mod overflow;
pub mod permutation;
pub mod pruning;
