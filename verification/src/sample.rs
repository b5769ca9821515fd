//! The data point held by the sliding window.

use vstd::prelude::*;

verus! {

/// One telemetry reading: a position on the x axis and a magnitude.
/// Both are fixed-point values in tenths of a unit, so `x == 124`
/// stands for the position 12.4.  Samples are immutable once created.
#[derive(Clone, Copy, PartialEq, Eq, Structural, Debug)]
pub struct Sample {
    /// Position, in tenths; strictly increasing along the window.
    pub x: u64,
    /// Magnitude, in tenths.
    pub y: u64,
}

} // verus!
