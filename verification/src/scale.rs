//! The axis scaler: derives per-frame display bounds from a snapshot.

use vstd::prelude::*;
use crate::sample::Sample;

verus! {

/// Trailing width of the x axis, in tenths (10 units).
pub const TRAIL_WIDTH_TENTHS: u64 = 100;

/// Fixed lower bound of the y axis, in tenths.
pub const Y_MIN_TENTHS: u64 = 0;

/// Fixed upper bound of the y axis, in tenths (100 units).
pub const Y_MAX_TENTHS: u64 = 1000;

/// The domain and range a frame is drawn against.  Derived from the
/// snapshot on every frame and never stored.
#[derive(Clone, Copy, PartialEq, Eq, Structural, Debug)]
pub struct ViewBounds {
    pub x_min: u64,
    pub x_max: u64,
    pub y_min: u64,
    pub y_max: u64,
}

/// The bounds a non-empty snapshot determines: `x_max` at the newest
/// sample, `x_min` one trailing width earlier but clamped at zero, and
/// the fixed y range.
pub open spec fn spec_bounds(s: Seq<Sample>) -> ViewBounds {
    let xm = s.last().x;
    ViewBounds {
        x_min: if xm >= TRAIL_WIDTH_TENTHS {
            (xm - TRAIL_WIDTH_TENTHS) as u64
        } else {
            0
        },
        x_max: xm,
        y_min: Y_MIN_TENTHS,
        y_max: Y_MAX_TENTHS,
    }
}

/// Derives the display bounds from a non-empty snapshot.  The caller
/// guarantees the warm-up precondition: scaling an empty snapshot is
/// undefined and ruled out here.
pub fn scale(snapshot: &Vec<Sample>) -> (b: ViewBounds)
    requires
        snapshot@.len() > 0,
    ensures
        b == spec_bounds(snapshot@),
{
    let xm = snapshot[snapshot.len() - 1].x;
    let x_min = if xm >= TRAIL_WIDTH_TENTHS {
        xm - TRAIL_WIDTH_TENTHS
    } else {
        0
    };
    ViewBounds { x_min, x_max: xm, y_min: Y_MIN_TENTHS, y_max: Y_MAX_TENTHS }
}

} // verus!
