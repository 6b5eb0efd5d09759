//! Stateful signal synthesizer: one correlated multi-channel sample set per
//! tick, driven by a user profile and its daily schedule.

use vstd::prelude::*;
use crate::core_types::Sample;
use crate::profile::{
    ActivityKind, UserProfile, activity_accel_mean, activity_accel_noise, activity_hr_boost,
    activity_intensity, spec_activity_accel_mean, spec_activity_accel_noise,
    spec_activity_at, spec_activity_hr_boost, spec_activity_intensity,
};

verus! {

/// Relies on rand::random_range: a value drawn uniformly from the half-open
/// range `lo..hi`; the call panics on an empty range, so the range is
/// required to be non-empty.
#[verifier::external_body]
fn noise_in(lo: i64, hi: i64) -> (r: i64)
    requires
        lo < hi,
    ensures
        lo <= r < hi,
{
    rand::random_range(lo..hi)
}

/// A symmetric noise term: drawn uniformly from the half-open range
/// `-half .. half`.
pub fn jitter_in(half: i64) -> (r: i64)
    requires
        0 < half,
    ensures
        -half <= r < half,
{
    noise_in(-half, half)
}

/// One additive noise term per channel, in milli-units.
#[derive(Debug, Clone, Copy, PartialEq, Eq, Structural)]
pub struct NoiseVector {
    /// Heart-rate noise in milli-bpm.
    pub hr: i64,
    /// HRV noise in milli-ms.
    pub hrv: i64,
    /// EDA noise in milli-microsiemens.
    pub eda: i64,
    /// Temperature noise in milli-degrees Celsius.
    pub temp: i64,
    /// Accelerometer noise in milli-g.
    pub accel: i64,
}

impl NoiseVector {
    /// Every term stays within one thousand whole units, so channel values
    /// derived from a well-formed profile fit comfortably in their type.
    pub open spec fn bounded(self) -> bool {
        &&& -1_000_000 <= self.hr <= 1_000_000
        &&& -1_000_000 <= self.hrv <= 1_000_000
        &&& -1_000_000 <= self.eda <= 1_000_000
        &&& -1_000_000 <= self.temp <= 1_000_000
        &&& -1_000_000 <= self.accel <= 1_000_000
    }

    /// The all-zero noise vector.
    pub fn zero() -> (r: Self)
        ensures
            r == (NoiseVector { hr: 0, hrv: 0, eda: 0, temp: 0, accel: 0 }),
    {
        NoiseVector { hr: 0, hrv: 0, eda: 0, temp: 0, accel: 0 }
    }
}

/// Heart rate: resting rate plus the intensity-scaled reserve plus noise,
/// in milli-bpm.
pub open spec fn spec_hr_value(p: UserProfile, kind: ActivityKind, n: int) -> int {
    p.resting_hr_milli + spec_activity_hr_boost(
        kind,
        p.resting_hr_milli as int,
        p.max_hr_milli as int,
    ) + n
}

/// HRV: the baseline scaled by `1 - 0.5 * intensity`, plus noise, in
/// milli-ms.
pub open spec fn spec_hrv_value(p: UserProfile, kind: ActivityKind, n: int) -> int {
    p.hrv_baseline_milli * (1000 - spec_activity_intensity(kind) / 2) / 1000 + n
}

/// EDA: the baseline plus the stress-sensitivity-scaled intensity, plus
/// noise, in milli-microsiemens.
pub open spec fn spec_eda_value(p: UserProfile, kind: ActivityKind, n: int) -> int {
    p.baseline_eda_milli + p.stress_sensitivity_pm * spec_activity_intensity(kind) / 1000 + n
}

/// Temperature: the baseline lowered by `0.2 * intensity` degrees, plus
/// noise, in milli-degrees Celsius.
pub open spec fn spec_temp_value(p: UserProfile, kind: ActivityKind, n: int) -> int {
    p.baseline_temp_milli - 200 * spec_activity_intensity(kind) / 1000 + n
}

/// Accelerometer magnitude: the kind's nominal mean plus noise, in milli-g.
pub open spec fn spec_accel_value(kind: ActivityKind, n: int) -> int {
    spec_activity_accel_mean(kind) + n
}

/// The five channel values of one tick, in milli-units.
#[derive(Debug, Clone, Copy, PartialEq, Eq, Structural)]
pub struct ChannelValues {
    /// Heart rate in milli-bpm.
    pub hr: i64,
    /// HRV in milli-ms.
    pub hrv: i64,
    /// EDA in milli-microsiemens.
    pub eda: i64,
    /// Temperature in milli-degrees Celsius.
    pub temp: i64,
    /// Accelerometer magnitude in milli-g.
    pub accel: i64,
}

/// Compute the five channel values for a profile, an activity kind and given
/// noise terms. Every channel is a deterministic baseline term plus an
/// intensity-scaled term plus its noise term; no channel is clamped.
pub fn channel_values(profile: &UserProfile, kind: ActivityKind, noise: &NoiseVector) -> (r:
    ChannelValues)
    requires
        profile.wf(),
        noise.bounded(),
    ensures
        r.hr == spec_hr_value(*profile, kind, noise.hr as int),
        r.hrv == spec_hrv_value(*profile, kind, noise.hrv as int),
        r.eda == spec_eda_value(*profile, kind, noise.eda as int),
        r.temp == spec_temp_value(*profile, kind, noise.temp as int),
        r.accel == spec_accel_value(kind, noise.accel as int),
{
    let ipm = activity_intensity(kind);
    let boost = activity_hr_boost(kind, profile.resting_hr_milli, profile.max_hr_milli);
    let hr = profile.resting_hr_milli as i64 + boost as i64 + noise.hr;

    let hrv_factor = (1000 - ipm / 2) as u64;
    proof {
        assert(profile.hrv_baseline_milli as u64 * hrv_factor <= 1_000_000_000) by (nonlinear_arith)
            requires
                profile.hrv_baseline_milli <= 1_000_000,
                hrv_factor <= 1000,
        ;
    }
    let hrv_base = profile.hrv_baseline_milli as u64 * hrv_factor / 1000;
    let hrv = hrv_base as i64 + noise.hrv;

    proof {
        assert(profile.stress_sensitivity_pm as u64 * ipm as u64 <= 1_000_000) by (nonlinear_arith)
            requires
                profile.stress_sensitivity_pm <= 1000,
                ipm <= 1000,
        ;
    }
    let stress_term = profile.stress_sensitivity_pm as u64 * ipm as u64 / 1000;
    let eda = profile.baseline_eda_milli as i64 + stress_term as i64 + noise.eda;

    let temp_drop = 200u64 * ipm as u64 / 1000;
    let temp = profile.baseline_temp_milli as i64 - temp_drop as i64 + noise.temp;

    let accel = activity_accel_mean(kind) as i64 + noise.accel;

    ChannelValues { hr, hrv, eda, temp, accel }
}

/// With all noise terms at zero, the heart-rate channel is exactly the
/// resting rate plus the intensity-scaled reserve: for every activity kind,
/// `hr == restingHR + (maxHR - restingHR) * intensity(kind)`.
pub proof fn lemma_hr_deterministic(p: UserProfile, kind: ActivityKind)
    ensures
        spec_hr_value(p, kind, 0) == p.resting_hr_milli + (p.max_hr_milli - p.resting_hr_milli)
            * spec_activity_intensity(kind) / 1000,
{
}

/// Minute of day derived from a millisecond clock.
pub open spec fn spec_minute_of_day(ts_ms: int) -> int {
    (ts_ms / 60_000) % 1440
}

/// Stateful stepper: owns a profile and a simulation clock, and emits one
/// sample per channel per tick.
#[derive(Debug, Clone)]
pub struct SensorSimulator {
    /// Behavioral profile driving every channel.
    pub profile: UserProfile,
    /// Simulation clock in milliseconds since the epoch.
    pub ts_ms: i64,
    /// Minute of day (0..=1439) derived from the clock.
    pub minute_of_day: u16,
}

impl SensorSimulator {
    /// Well-formedness: the profile is well formed, the clock is
    /// non-negative, and the cached minute of day agrees with the clock.
    pub open spec fn wf(self) -> bool {
        &&& self.profile.wf()
        &&& 0 <= self.ts_ms
        &&& self.minute_of_day == spec_minute_of_day(self.ts_ms as int)
    }

    /// Create a simulator starting at the given timestamp (milliseconds
    /// since the epoch).
    pub fn new(profile: UserProfile, start_ts_ms: i64) -> (r: Self)
        requires
            profile.wf(),
            0 <= start_ts_ms,
        ensures
            r.wf(),
            r.profile == profile,
            r.ts_ms == start_ts_ms,
    {
        let minute_of_day = ((start_ts_ms as u64 / 60_000) % 1440) as u16;
        SensorSimulator { profile, ts_ms: start_ts_ms, minute_of_day }
    }

    /// Advance the clock by one second and emit the five channel samples of
    /// the new instant, in the order HR, HRV, EDA, temperature,
    /// accelerometer magnitude. All five share the post-advance timestamp,
    /// and each value stays within its channel's noise half-width of the
    /// noise-free value for the scheduled activity.
    pub fn poll_all(&mut self) -> (r: Vec<Sample>)
        requires
            old(self).wf(),
            old(self).ts_ms + 1000 <= i64::MAX,
        ensures
            final(self).wf(),
            final(self).profile == old(self).profile,
            final(self).ts_ms == old(self).ts_ms + 1000,
            r@.len() == 5,
            forall|i: int| 0 <= i < 5 ==> r@[i].ts_ms == old(self).ts_ms + 1000,
            ({
                let p = old(self).profile;
                let kind = spec_activity_at(
                    p.activity_schedule.blocks@,
                    spec_minute_of_day(old(self).ts_ms + 1000),
                );
                &&& spec_hr_value(p, kind, -2000) <= r@[0].value_milli < spec_hr_value(
                    p,
                    kind,
                    2000,
                )
                &&& spec_hrv_value(p, kind, -3000) <= r@[1].value_milli < spec_hrv_value(
                    p,
                    kind,
                    3000,
                )
                &&& spec_eda_value(p, kind, -50) <= r@[2].value_milli < spec_eda_value(p, kind, 50)
                &&& spec_temp_value(p, kind, -50) <= r@[3].value_milli < spec_temp_value(
                    p,
                    kind,
                    50,
                )
                &&& spec_accel_value(kind, -spec_activity_accel_noise(kind)) <= r@[4].value_milli
                    < spec_accel_value(kind, spec_activity_accel_noise(kind))
            }),
    {
        self.ts_ms = self.ts_ms + 1000;
        self.minute_of_day = ((self.ts_ms as u64 / 60_000) % 1440) as u16;

        let kind = self.profile.activity_schedule.activity_at_minute(self.minute_of_day);
        let accel_noise = activity_accel_noise(kind);
        let noise = NoiseVector {
            hr: noise_in(-2000, 2000),
            hrv: noise_in(-3000, 3000),
            eda: noise_in(-50, 50),
            temp: noise_in(-50, 50),
            accel: noise_in(-(accel_noise as i64), accel_noise as i64),
        };
        let values = channel_values(&self.profile, kind, &noise);

        let ts = self.ts_ms;
        let mut samples: Vec<Sample> = Vec::new();
        samples.push(Sample { ts_ms: ts, value_milli: values.hr });
        samples.push(Sample { ts_ms: ts, value_milli: values.hrv });
        samples.push(Sample { ts_ms: ts, value_milli: values.eda });
        samples.push(Sample { ts_ms: ts, value_milli: values.temp });
        samples.push(Sample { ts_ms: ts, value_milli: values.accel });
        samples
    }
}

} // verus!
