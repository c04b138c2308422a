//! Electrical-load admission control for a charging station.
//!
//! The crate ingests multi-phase meter telemetry as fixed-point integers
//! (milli-units: milliamps, millivolts, milliwatts), filters it against an
//! anti-regression guard, tracks the aggregate energy state against
//! configurable safety ceilings, and decides which over-limit notifications
//! and available-current updates the surrounding transport must send.

use vstd::prelude::*;

pub mod manager;
pub mod meter;

verus! {

/// Errors surfaced by the library; every other outcome is a plain value.
#[derive(Clone, Copy, Debug, PartialEq, Eq, Structural)]
pub enum EnergyError {
    /// A phase index outside `0..=3` was passed to a telemetry update.
    InvalidPhase,
    /// A baseline reset was asked of a category that keeps no baseline.
    ResetNotSupported,
    /// The stored line voltage is not positive, so no current can be derived.
    InvalidTension,
    /// A computed current does not fit the fixed-point range.
    OutOfRange,
}

} // verus!
