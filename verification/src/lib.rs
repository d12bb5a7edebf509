//! Verified control logic of a smallest-covering-polygon search.
//!
//! The search moves the nodes of a polygon around a cloud of points,
//! trying to shorten the polygon's circumference while every point stays
//! inside it. The geometry itself is floating point and lives with the
//! caller; this crate holds the decisions that the search takes from the
//! outcomes of that geometry: which heuristic runs, whether a move is kept,
//! which direction a steepest-ascent step settles on, when a run stops, and
//! how the nodes of the polygon are joined into a closed ring.
pub mod heuristics;
pub mod moves;
pub mod ring;
pub mod stopping;
