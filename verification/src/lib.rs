//! A verified Lindenmayer-system engine: grammar expansion, turtle-graphics
//! interpretation over fixed-point integer coordinates, bounding-box fitting
//! with an iteration backoff, and random grammar generation.
//!
//! Coordinates are fixed-point: `SCALE` subunits make one drawing unit.
//! A caller supplies a direction table (one fixed-point displacement per
//! reachable turtle heading); everything downstream of that table is exact
//! integer arithmetic and is verified.

pub mod bounds;
pub mod fit;
pub mod grammar;
pub mod randgen;
pub mod turtle;

use vstd::prelude::*;

verus! {

/// Subunits of one drawing unit in fixed-point coordinates.
pub const SCALE: i64 = 1024;

/// Padding added on every side of the bounding box, in fixed-point subunits
/// (50 drawing units).
pub const MARGIN: i64 = 50 * 1024;

/// Largest canvas width or height allowed, in fixed-point subunits
/// (3000 drawing units).
pub const CANVAS_CEILING: i64 = 3000 * 1024;

/// Largest magnitude a single direction-table displacement may have.
pub const DELTA_MAX: i64 = 0x10_0000;

/// Largest command string the turtle interpreter accepts.
pub const MAX_COMMANDS: usize = 0x1000_0000;

/// Bound on every coordinate the interpreter can produce:
/// `MAX_COMMANDS * DELTA_MAX`.
pub const MAX_COORD: i64 = 0x1000_0000 * 0x10_0000;

/// Largest direction table accepted (one entry per distinct heading; there
/// are at most 360000 millidegree headings).
pub const DIRS_MAX: usize = 360_000;

/// Cap on the length of an expanded command string during fitting and
/// random generation; an expansion that passes it is treated as oversized.
pub const MAX_RENDER_CHARS: usize = 1_000_000;

/// How many random grammars are attempted before generation gives up.
pub const MAX_GEN_TRIES: u32 = 1000;

/// The fatal failures of the pipeline.
#[derive(Clone, Copy, Debug, PartialEq, Eq, Structural)]
pub enum LsysError {
    /// A `]` command arrived while the turtle's state stack was empty.
    StackUnderflow,
    /// No acceptable result within the retry or backoff budget.
    GenerationExhausted,
}

} // verus!
