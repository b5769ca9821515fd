//! A verified core for a small embedded telemetry-visualization loop.
//!
//! The library keeps a bounded trailing window of timestamped samples,
//! derives per-frame chart bounds from it, and composes the textual part
//! of a chart frame (axis labels, clipped trace).  All coordinates are
//! fixed-point tenths of a unit, held in integers.  The surrounding
//! process (display bring-up, SPI flushes, Wi-Fi, logging) lives outside
//! the library and only hands plain values in and out.

pub mod chart;
pub mod runloop;
pub mod sample;
pub mod scale;
pub mod source;
pub mod telegram;
pub mod text;
pub mod window;
