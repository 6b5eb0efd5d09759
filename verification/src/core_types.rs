//! Shared types for tiers and time-series samples.

use vstd::prelude::*;

verus! {

/// Supported device tiers.
#[derive(Debug, Clone, Copy, PartialEq, Eq, Hash, Structural)]
pub enum Tier {
    /// 8 GB configuration.
    Mini8,
    /// 16 GB configuration.
    Standard16,
    /// 32 GB configuration.
    Pro32,
}

/// A basic time-series sample: one scalar at a point in time, the scalar in
/// milli-units of its channel.
#[derive(Debug, Clone, Copy, PartialEq, Eq, Structural)]
pub struct Sample {
    /// Milliseconds since the epoch.
    pub ts_ms: i64,
    /// Value for the stream, in milli-units.
    pub value_milli: i64,
}

} // verus!
