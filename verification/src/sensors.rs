//! Sensor interface and a synthetic heart-rate generator.

use vstd::prelude::*;
use crate::core_types::Sample;

verus! {

/// Generic sensor interface: what a poll returns is the device's affair.
pub trait Sensor {
    /// Human-readable name.
    fn name(&self) -> &str;

    /// Poll for the next sample (non-blocking).
    fn poll(&mut self) -> Option<Sample>;
}

/// Simple synthetic heart-rate-like generator: a baseline with bounded
/// uniform jitter, one sample per simulated second.
#[derive(Debug, Clone, Copy, PartialEq, Eq, Structural)]
pub struct SyntheticHeartRate {
    /// Baseline value in milli-bpm.
    pub baseline_milli: i64,
    /// Random jitter half-width in milli-bpm.
    pub jitter_milli: i64,
    /// Current timestamp in milliseconds.
    pub ts_ms: i64,
}

impl SyntheticHeartRate {
    /// Well-formedness: a positive bounded jitter, a bounded baseline and a
    /// clock that can still advance.
    pub open spec fn wf(self) -> bool {
        &&& 0 < self.jitter_milli <= 1_000_000
        &&& -1_000_000_000 <= self.baseline_milli <= 1_000_000_000
        &&& 0 <= self.ts_ms <= i64::MAX - 1000
    }

    /// Create a new generator.
    pub fn new(baseline_milli: i64, jitter_milli: i64, start_ts_ms: i64) -> (r: Self)
        ensures
            r == (SyntheticHeartRate { baseline_milli, jitter_milli, ts_ms: start_ts_ms }),
    {
        SyntheticHeartRate { baseline_milli, jitter_milli, ts_ms: start_ts_ms }
    }

    /// Advance the clock by one second and draw a jittered sample: the
    /// value stays within one jitter half-width of the baseline.
    pub fn sample(&mut self) -> (r: Sample)
        requires
            old(self).wf(),
        ensures
            final(self).baseline_milli == old(self).baseline_milli,
            final(self).jitter_milli == old(self).jitter_milli,
            final(self).ts_ms == old(self).ts_ms + 1000,
            r.ts_ms == final(self).ts_ms,
            old(self).baseline_milli - old(self).jitter_milli <= r.value_milli < old(
                self,
            ).baseline_milli + old(self).jitter_milli,
    {
        let delta = crate::sim::jitter_in(self.jitter_milli);
        self.ts_ms = self.ts_ms + 1000;
        Sample { ts_ms: self.ts_ms, value_milli: self.baseline_milli + delta }
    }
}

impl Sensor for SyntheticHeartRate {
    fn name(&self) -> &str {
        "synthetic_hr"
    }

    fn poll(&mut self) -> Option<Sample> {
        if 0 < self.jitter_milli && self.jitter_milli <= 1_000_000 && -1_000_000_000
            <= self.baseline_milli && self.baseline_milli <= 1_000_000_000 && 0 <= self.ts_ms
            && self.ts_ms <= i64::MAX - 1000 {
            Some(self.sample())
        } else {
            None
        }
    }
}

} // verus!
