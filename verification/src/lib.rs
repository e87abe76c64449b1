//! Parametric outlines for technical drawings: rounded rectangles that carry a
//! tab on one edge, and pie charts.
//!
//! Every number is whole. A coordinate counts user units, a ratio counts
//! millionths of the whole, and an angle counts millionths of a full turn, so
//! each contract is stated over mathematical integers and holds exactly.
//!
//! - [`tab`] computes the outline of a tab as a list of path commands, and
//!   hands it to the `svg` crate as a path element.
//! - [`pie_chart`] lays out the slices of a pie chart, and gives the path of
//!   each slice with its points by distance and angle.
//! - [`path`] holds the path commands and what is assumed of `svg`.

use vstd::prelude::*;

pub mod path;
pub mod pie_chart;
pub mod tab;

verus! {

/// The plot sheet of the sample drawings. No outline of this library is on
/// it, so there is nothing to compute.
pub fn make_plot() {
}

} // verus!
