//! Driver core for a multiplexed display built from latching (bistable)
//! seven-segment digits. Each segment is flipped by briefly energizing one of
//! two coils (set or clear) and then holds its state without power, so the
//! driver pulses a coil only when the segment's visual state must change.
//!
//! This crate holds the drive engine: the segment-pattern encoding, the
//! change-diffing logic that decides which coils to pulse, the serial-expander
//! bit mapping, the digit-selection plans, and the render pass that orders
//! segment drives before selector strobes. The physical pin writes and delays
//! are performed by the surrounding application, which executes the plans this
//! crate computes.

use vstd::prelude::*;

pub mod pattern;
pub mod segment;
pub mod controller;
pub mod direct;
pub mod expander;
pub mod selector;
pub mod render;

verus! {

/// Error returned by the drive engine. Both variants are caller mistakes:
/// the engine never commits a partial drive when it returns an error.
#[derive(Clone, Copy, Debug, PartialEq, Eq, Structural)]
pub enum HwError {
    /// A requested digit value is outside 0..=9 (and not the blank sentinel).
    OutOfRange,
    /// A digit or selector index is outside the configured count.
    DoesNotExist,
}

} // verus!
