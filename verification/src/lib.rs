//! A pan-flute / tube-organ simulator core.
//!
//! Users place tube segments on a grid canvas; each tube is a physically
//! modelled air column whose pitch follows from its length and from whether
//! the pipe is open or stopped.  This crate holds the verified core: the 2D
//! geometry kernel used for hit-testing and rendering, the acoustic
//! length-to-frequency model, the tube entity, and the scene controller that
//! turns clicks and keystrokes into state transitions.
//!
//! All quantities are exact fixed-point integers: pixel coordinates and
//! lengths are carried in millipixels, frequencies in millihertz.  The
//! platform collaborators (canvas drawing surface, audio graph) are driven
//! through explicit command values that the surrounding application performs;
//! the core itself does no I/O.

pub mod acoustics;
pub mod draw;
pub mod piano;
pub mod tube;
pub mod universe;
pub mod geometry;

use vstd::prelude::*;

verus! {

/// Coordinate bound for points, in millipixels (one million pixels).
/// All geometric inputs are required to stay within this range so that the
/// exact integer arithmetic of the kernel cannot overflow.
pub const COORD_LIMIT: i64 = 1_000_000_000;

/// Component bound for vectors, in millipixels.  A vector built from a
/// segment between two in-range points has components of at most twice
/// `COORD_LIMIT`.
pub const VEC_LIMIT: i64 = 2_000_000_000;

/// Millipixels per pixel: the fixed-point scale of the whole crate.
pub const SCALE: i64 = 1_000;

/// Side of one grid cell, in pixels.
pub const CELL_SIZE: usize = 20;

} // verus!
