//! Curve-to-mesh generation on an exact integer grid.
//!
//! The crate takes four control points of a cubic Bezier segment, samples
//! oriented frames along the curve, sweeps a 2D cross-section profile through
//! those frames and stitches the resulting rings into a triangulated tube
//! mesh. A small state machine governs how pointer drags edit the control
//! points.
//!
//! All geometry lives on an integer coordinate grid chosen by the caller
//! (fixed point): curve parameters are exact rationals, direction vectors are
//! fixed-point integers at scale [`SCALE`], and every rounding step is a
//! truncating division with a stated contract, so results are deterministic
//! and fully specified.

use vstd::prelude::*;

pub mod bezier;
pub mod editor;
pub mod frame;
pub mod num;
pub mod profile;
pub mod segment;
pub mod tube;
pub mod vec;

verus! {

/// Fixed-point scale for unit direction vectors and texture coordinates:
/// the value 1.0 is represented by this many grid steps.
pub const SCALE: i64 = 65536;

/// Largest magnitude allowed for a control-point or profile coordinate.
/// Keeping coordinates within this bound lets every intermediate product in
/// the pipeline fit in 128 bits and every emitted coordinate fit in 64 bits.
pub const COORD_MAX: i64 = 0x4000_0000;

/// Largest denominator allowed for a curve parameter, and so also the
/// largest ring or sample count.
pub const DEN_MAX: u32 = 4096;

} // verus!
