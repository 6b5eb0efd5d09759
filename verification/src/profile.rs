//! Activity taxonomy, daily schedules, and user profiles.
//!
//! Each activity kind carries three fixed constants: a nominal intensity in
//! per-mille of full exertion, a nominal accelerometer-magnitude mean in
//! milli-g, and an accelerometer noise half-width in milli-g.

use vstd::prelude::*;

verus! {

/// Activity kind used in a daily schedule.
#[derive(Debug, Clone, Copy, PartialEq, Eq, Structural)]
pub enum ActivityKind {
    /// Sleep state.
    Sleep,
    /// Sitting (desk, car, couch).
    Sitting,
    /// Standing (standing desk, counter).
    Standing,
    /// Walking at a slow pace.
    WalkingSlow,
    /// Walking at a brisk pace.
    WalkingBrisk,
    /// Stairs (climbing or descending).
    Stairs,
    /// Cycling at an easy pace.
    CyclingEasy,
    /// Cycling at a hard pace.
    CyclingHard,
    /// Running at an easy pace.
    RunningEasy,
    /// Running at a moderate pace.
    RunningModerate,
    /// Running at a hard pace.
    RunningHard,
    /// Gym / strength training.
    GymModerate,
    /// Gym / high intensity.
    GymHigh,
}

/// Nominal intensity of an activity kind, in per-mille of full exertion.
pub open spec fn spec_activity_intensity(kind: ActivityKind) -> int {
    match kind {
        ActivityKind::Sleep => 0,
        ActivityKind::Sitting => 50,
        ActivityKind::Standing => 100,
        ActivityKind::WalkingSlow => 250,
        ActivityKind::WalkingBrisk => 400,
        ActivityKind::Stairs => 500,
        ActivityKind::CyclingEasy => 350,
        ActivityKind::CyclingHard => 600,
        ActivityKind::RunningEasy => 550,
        ActivityKind::RunningModerate => 700,
        ActivityKind::RunningHard => 850,
        ActivityKind::GymModerate => 450,
        ActivityKind::GymHigh => 650,
    }
}

/// Map an activity kind to its nominal intensity in per-mille (0..=1000).
pub fn activity_intensity(kind: ActivityKind) -> (r: u16)
    ensures
        r == spec_activity_intensity(kind),
        r <= 1000,
        r % 2 == 0,
{
    match kind {
        ActivityKind::Sleep => 0,
        ActivityKind::Sitting => 50,
        ActivityKind::Standing => 100,
        ActivityKind::WalkingSlow => 250,
        ActivityKind::WalkingBrisk => 400,
        ActivityKind::Stairs => 500,
        ActivityKind::CyclingEasy => 350,
        ActivityKind::CyclingHard => 600,
        ActivityKind::RunningEasy => 550,
        ActivityKind::RunningModerate => 700,
        ActivityKind::RunningHard => 850,
        ActivityKind::GymModerate => 450,
        ActivityKind::GymHigh => 650,
    }
}

/// Nominal accelerometer-magnitude mean of an activity kind, in milli-g.
pub open spec fn spec_activity_accel_mean(kind: ActivityKind) -> int {
    match kind {
        ActivityKind::Sleep => 150,
        ActivityKind::Sitting => 1020,
        ActivityKind::Standing => 1080,
        ActivityKind::WalkingSlow => 1850,
        ActivityKind::WalkingBrisk => 2350,
        ActivityKind::Stairs => 2800,
        ActivityKind::CyclingEasy => 1650,
        ActivityKind::CyclingHard => 1800,
        ActivityKind::RunningEasy => 3500,
        ActivityKind::RunningModerate => 4200,
        ActivityKind::RunningHard => 4800,
        ActivityKind::GymModerate => 2000,
        ActivityKind::GymHigh => 2500,
    }
}

/// Map an activity kind to its nominal accelerometer magnitude in milli-g.
pub fn activity_accel_mean(kind: ActivityKind) -> (r: u16)
    ensures
        r == spec_activity_accel_mean(kind),
        r <= 5000,
{
    match kind {
        ActivityKind::Sleep => 150,
        ActivityKind::Sitting => 1020,
        ActivityKind::Standing => 1080,
        ActivityKind::WalkingSlow => 1850,
        ActivityKind::WalkingBrisk => 2350,
        ActivityKind::Stairs => 2800,
        ActivityKind::CyclingEasy => 1650,
        ActivityKind::CyclingHard => 1800,
        ActivityKind::RunningEasy => 3500,
        ActivityKind::RunningModerate => 4200,
        ActivityKind::RunningHard => 4800,
        ActivityKind::GymModerate => 2000,
        ActivityKind::GymHigh => 2500,
    }
}

/// Accelerometer noise half-width of an activity kind, in milli-g.
pub open spec fn spec_activity_accel_noise(kind: ActivityKind) -> int {
    match kind {
        ActivityKind::Sleep => 80,
        ActivityKind::Sitting => 120,
        ActivityKind::Standing => 180,
        ActivityKind::WalkingSlow => 450,
        ActivityKind::WalkingBrisk => 650,
        ActivityKind::Stairs => 850,
        ActivityKind::CyclingEasy => 550,
        ActivityKind::CyclingHard => 650,
        ActivityKind::RunningEasy => 1000,
        ActivityKind::RunningModerate => 1200,
        ActivityKind::RunningHard => 1400,
        ActivityKind::GymModerate => 600,
        ActivityKind::GymHigh => 750,
    }
}

/// Map an activity kind to its accelerometer noise half-width in milli-g.
/// The half-width is always positive, so a noise interval around the mean is
/// never empty.
pub fn activity_accel_noise(kind: ActivityKind) -> (r: u16)
    ensures
        r == spec_activity_accel_noise(kind),
        1 <= r <= 1500,
{
    match kind {
        ActivityKind::Sleep => 80,
        ActivityKind::Sitting => 120,
        ActivityKind::Standing => 180,
        ActivityKind::WalkingSlow => 450,
        ActivityKind::WalkingBrisk => 650,
        ActivityKind::Stairs => 850,
        ActivityKind::CyclingEasy => 550,
        ActivityKind::CyclingHard => 650,
        ActivityKind::RunningEasy => 1000,
        ActivityKind::RunningModerate => 1200,
        ActivityKind::RunningHard => 1400,
        ActivityKind::GymModerate => 600,
        ActivityKind::GymHigh => 750,
    }
}

/// HR boost above resting for an activity: `(max - resting) * intensity`,
/// in milli-bpm.
pub open spec fn spec_activity_hr_boost(kind: ActivityKind, resting_milli: int, max_milli: int) -> int {
    (max_milli - resting_milli) * spec_activity_intensity(kind) / 1000
}

/// Map an activity kind to its nominal HR boost above resting, in milli-bpm.
pub fn activity_hr_boost(kind: ActivityKind, resting_hr_milli: u32, max_hr_milli: u32) -> (r: u32)
    requires
        resting_hr_milli <= max_hr_milli <= 1_000_000,
    ensures
        r == spec_activity_hr_boost(kind, resting_hr_milli as int, max_hr_milli as int),
        r <= max_hr_milli - resting_hr_milli,
{
    let reserve = (max_hr_milli - resting_hr_milli) as u64;
    let intensity = activity_intensity(kind) as u64;
    let boost = reserve * intensity / 1000;
    proof {
        assert(reserve * intensity <= reserve * 1000) by (nonlinear_arith)
            requires
                intensity <= 1000,
                reserve >= 0,
        ;
        assert(reserve * 1000 / 1000 == reserve) by (nonlinear_arith);
        vstd::arithmetic::div_mod::lemma_div_is_ordered(
            (reserve * intensity) as int,
            (reserve * 1000) as int,
            1000,
        );
    }
    boost as u32
}

/// HR boost for a stress level: `stress * 8` bpm, in milli-bpm, with the
/// stress level in per-mille.
pub open spec fn spec_stress_hr_boost(stress_pm: int) -> int {
    stress_pm * 8
}

/// Map a stress level in per-mille (0..=1000) to an HR boost in milli-bpm.
pub fn stress_hr_boost(stress_level_pm: u16) -> (r: u32)
    requires
        stress_level_pm <= 1000,
    ensures
        r == spec_stress_hr_boost(stress_level_pm as int),
{
    stress_level_pm as u32 * 8
}

/// Full scale of a parts-per-million fraction.
pub const PPM_SCALE: u32 = 1_000_000;

/// Distribution of exercise intensity preferences (low/moderate/high), each
/// a fraction in parts per million of the whole.
#[derive(Debug, Clone, Copy, PartialEq, Eq, Structural)]
pub struct IntensityDistribution {
    /// Fraction preferring low intensity, in ppm.
    pub low: u32,
    /// Fraction preferring moderate intensity, in ppm.
    pub moderate: u32,
    /// Fraction preferring high intensity, in ppm.
    pub high: u32,
}

impl IntensityDistribution {
    /// A component after normalization: `x * PPM_SCALE / sum`, where the sum
    /// of the three weights is floored at one ppm to avoid division by zero.
    pub open spec fn spec_normalized_component(x: int, l: int, m: int, h: int) -> int {
        x * (PPM_SCALE as int) / vstd::math::max(l + m + h, 1)
    }

    /// Normalize so the three fractions sum to the full ppm scale.
    ///
    /// Every result component is a fraction in `[0, PPM_SCALE]`, and whenever
    /// the input weights are not all zero the three results sum to the full
    /// scale up to two ppm of rounding loss. An all-zero input stays all
    /// zero: the divisor is floored at one ppm instead of failing.
    pub fn normalized(self) -> (r: Self)
        ensures
            r.low == Self::spec_normalized_component(
                self.low as int,
                self.low as int,
                self.moderate as int,
                self.high as int,
            ),
            r.moderate == Self::spec_normalized_component(
                self.moderate as int,
                self.low as int,
                self.moderate as int,
                self.high as int,
            ),
            r.high == Self::spec_normalized_component(
                self.high as int,
                self.low as int,
                self.moderate as int,
                self.high as int,
            ),
            r.low <= PPM_SCALE,
            r.moderate <= PPM_SCALE,
            r.high <= PPM_SCALE,
            self.low + self.moderate + self.high > 0 ==> PPM_SCALE - 2 <= r.low + r.moderate
                + r.high <= PPM_SCALE,
    {
        let l = self.low as u64;
        let m = self.moderate as u64;
        let h = self.high as u64;
        let sum_raw = l + m + h;
        let sum = if sum_raw == 0 {
            1u64
        } else {
            sum_raw
        };
        let scale = PPM_SCALE as u64;
        let nl = l * scale / sum;
        let nm = m * scale / sum;
        let nh = h * scale / sum;
        proof {
            lemma_normalized_component_bounds(l as int, sum as int);
            lemma_normalized_component_bounds(m as int, sum as int);
            lemma_normalized_component_bounds(h as int, sum as int);
            if sum_raw > 0 {
                lemma_normalized_sum(l as int, m as int, h as int);
            }
        }
        IntensityDistribution { low: nl as u32, moderate: nm as u32, high: nh as u32 }
    }
}

proof fn lemma_normalized_component_bounds(x: int, s: int)
    requires
        1 <= s,
        0 <= x <= s,
    ensures
        0 <= x * (PPM_SCALE as int) / s <= PPM_SCALE as int,
{
    let scale = PPM_SCALE as int;
    assert(x * scale <= s * scale) by (nonlinear_arith)
        requires
            0 <= x <= s,
            scale > 0,
    ;
    assert(x * scale >= 0) by (nonlinear_arith)
        requires
            x >= 0,
            scale > 0,
    ;
    vstd::arithmetic::div_mod::lemma_div_is_ordered(x * scale, s * scale, s);
    vstd::arithmetic::div_mod::lemma_div_multiples_vanish(scale, s);
    vstd::arithmetic::div_mod::lemma_div_pos_is_pos(x * scale, s);
}

proof fn lemma_normalized_sum(l: int, m: int, h: int)
    requires
        0 <= l,
        0 <= m,
        0 <= h,
        l + m + h >= 1,
    ensures
        PPM_SCALE - 2 <= l * (PPM_SCALE as int) / (l + m + h) + m * (PPM_SCALE as int) / (l + m
            + h) + h * (PPM_SCALE as int) / (l + m + h) <= PPM_SCALE as int,
{
    let scale = PPM_SCALE as int;
    let s = l + m + h;
    let ql = l * scale / s;
    let qm = m * scale / s;
    let qh = h * scale / s;
    let rl = l * scale % s;
    let rm = m * scale % s;
    let rh = h * scale % s;
    vstd::arithmetic::div_mod::lemma_fundamental_div_mod(l * scale, s);
    vstd::arithmetic::div_mod::lemma_fundamental_div_mod(m * scale, s);
    vstd::arithmetic::div_mod::lemma_fundamental_div_mod(h * scale, s);
    vstd::arithmetic::div_mod::lemma_mod_bound(l * scale, s);
    vstd::arithmetic::div_mod::lemma_mod_bound(m * scale, s);
    vstd::arithmetic::div_mod::lemma_mod_bound(h * scale, s);
    assert(l * scale >= 0) by (nonlinear_arith)
        requires
            l >= 0,
            scale > 0,
    ;
    assert(m * scale >= 0) by (nonlinear_arith)
        requires
            m >= 0,
            scale > 0,
    ;
    assert(h * scale >= 0) by (nonlinear_arith)
        requires
            h >= 0,
            scale > 0,
    ;
    assert(l * scale + m * scale + h * scale == s * scale) by (nonlinear_arith)
        requires
            s == l + m + h,
    ;
    assert(s * scale == s * (ql + qm + qh) + (rl + rm + rh)) by (nonlinear_arith)
        requires
            l * scale == s * ql + rl,
            m * scale == s * qm + rm,
            h * scale == s * qh + rh,
            l * scale + m * scale + h * scale == s * scale,
    ;
    let t = ql + qm + qh;
    assert(s * (scale - t) == rl + rm + rh) by (nonlinear_arith)
        requires
            s * scale == s * t + (rl + rm + rh),
    ;
    assert(0 <= scale - t < 3) by (nonlinear_arith)
        requires
            s * (scale - t) == rl + rm + rh,
            0 <= rl < s,
            0 <= rm < s,
            0 <= rh < s,
            s >= 1,
    ;
}

/// A time block in a daily schedule.
#[derive(Debug, Clone, Copy, PartialEq, Eq, Structural)]
pub struct ScheduleBlock {
    /// Start minute of day (0..=1439).
    pub start_minute: u16,
    /// Duration in minutes.
    pub duration_min: u16,
    /// Activity kind during this block.
    pub kind: ActivityKind,
}

/// Whether `block` covers minute `m` of the day, half-open interval
/// `[start, start + duration)`.
pub open spec fn spec_block_covers(block: ScheduleBlock, m: int) -> bool {
    block.start_minute <= m < block.start_minute + block.duration_min
}

/// Repeating daily schedule template.
#[derive(Debug, Clone)]
pub struct DailySchedule {
    /// Ordered blocks covering the day.
    pub blocks: Vec<ScheduleBlock>,
}

/// First-match schedule lookup: the kind of the first block that covers `m`,
/// or `Sitting` when no block does.
pub open spec fn spec_activity_at(blocks: Seq<ScheduleBlock>, m: int) -> ActivityKind
    decreases blocks.len(),
{
    if blocks.len() == 0 {
        ActivityKind::Sitting
    } else if spec_block_covers(blocks[0], m) {
        blocks[0].kind
    } else {
        spec_activity_at(blocks.skip(1), m)
    }
}

impl DailySchedule {
    /// Return the activity kind at a given minute of day (0..=1439): the kind
    /// of the first block whose half-open interval contains the minute, or
    /// `Sitting` when no block matches.
    pub fn activity_at_minute(&self, minute: u16) -> (r: ActivityKind)
        ensures
            r == spec_activity_at(self.blocks@, minute as int),
    {
        proof {
            assert(self.blocks@.skip(0) =~= self.blocks@);
        }
        let n = self.blocks.len();
        for i in 0..n
            invariant
                n == self.blocks@.len(),
                spec_activity_at(self.blocks@, minute as int) == spec_activity_at(
                    self.blocks@.skip(i as int),
                    minute as int,
                ),
        {
            let block = self.blocks[i];
            let start = block.start_minute as u32;
            let end = start + block.duration_min as u32;
            let m = minute as u32;
            proof {
                assert(self.blocks@.skip(i as int)[0] == self.blocks@[i as int]);
                assert(self.blocks@.skip(i as int).skip(1) =~= self.blocks@.skip(i + 1));
            }
            if m >= start && m < end {
                return block.kind;
            }
        }
        ActivityKind::Sitting
    }
}

/// Exercise type used in an exercise schedule.
#[derive(Debug, Clone, Copy, PartialEq, Eq, Structural)]
pub enum ExerciseType {
    /// Running (easy, moderate, hard variants handled via time blocks).
    Running,
    /// Cycling (easy, hard variants).
    Cycling,
    /// Gym / strength training.
    Gym,
    /// Brisk walking.
    BriskWalking,
}

/// Fitness level (coarse descriptor).
#[derive(Debug, Clone, Copy, PartialEq, Eq, Structural)]
pub enum FitnessLevel {
    /// Sedentary.
    Sedentary,
    /// Low activity.
    Low,
    /// Moderate activity.
    Moderate,
    /// Active.
    Active,
    /// Very active.
    VeryActive,
}

/// User profile archetype.
#[derive(Debug, Clone, Copy, PartialEq, Eq, Structural)]
pub enum ProfileType {
    /// Business professional (sedentary, stressful).
    BusinessProfessional,
    /// College student (moderate activity, variable stress).
    CollegeStudent,
    /// Professional athlete (high activity, low stress).
    ProAthlete,
    /// Shift worker (disrupted sleep, high stress).
    ShiftWorker,
    /// Remote worker (consistent, less commute stress).
    RemoteWorker,
}

/// Complete user profile for synthetic data generation.
///
/// Physiological baselines are in milli-units: milli-bpm for heart rates,
/// milli-ms for the HRV baseline, milli-degrees Celsius for temperature and
/// milli-microsiemens for EDA. Stress sensitivity is in per-mille.
#[derive(Debug, Clone)]
pub struct UserProfile {
    /// Profile archetype.
    pub profile_type: ProfileType,
    /// Age in years.
    pub age: u8,
    /// Fitness level.
    pub fitness_level: FitnessLevel,
    /// Resting heart rate in milli-bpm.
    pub resting_hr_milli: u32,
    /// Max heart rate in milli-bpm.
    pub max_hr_milli: u32,
    /// HRV baseline (RMSSD) at rest, in milli-ms.
    pub hrv_baseline_milli: u32,
    /// Baseline skin temperature in milli-degrees Celsius.
    pub baseline_temp_milli: u32,
    /// Baseline EDA in milli-microsiemens.
    pub baseline_eda_milli: u32,
    /// Typical sleep start time (minute of day, 0..=1439).
    pub typical_sleep_start_min: u16,
    /// Typical sleep duration in minutes.
    pub typical_sleep_duration_min: u16,
    /// Daily activity schedule.
    pub activity_schedule: DailySchedule,
    /// Stress sensitivity in per-mille (0..=1000); higher means more
    /// responsive to stressors.
    pub stress_sensitivity_pm: u16,
    /// Types of exercise the user does.
    pub exercise_types: Vec<ExerciseType>,
    /// Target exercise frequency (times per week).
    pub exercise_frequency_per_week: usize,
    /// Preferred intensity distribution.
    pub exercise_intensity_pref: IntensityDistribution,
}

impl UserProfile {
    /// Well-formedness: every baseline stays within one thousand whole units
    /// (a generous physiological ceiling that keeps all derived fixed-point
    /// arithmetic within range), the heart-rate reserve is non-negative, and
    /// the stress sensitivity is a per-mille fraction.
    pub open spec fn wf(self) -> bool {
        &&& self.resting_hr_milli <= self.max_hr_milli <= 1_000_000
        &&& self.hrv_baseline_milli <= 1_000_000
        &&& self.baseline_temp_milli <= 1_000_000
        &&& self.baseline_eda_milli <= 1_000_000
        &&& self.stress_sensitivity_pm <= 1000
    }
}

/// The schedule lookup returns the kind of the unique covering block: when
/// block `i` is the only one covering minute `m`, the first-match lookup
/// yields exactly that block's kind.
pub proof fn lemma_activity_at_unique_cover(blocks: Seq<ScheduleBlock>, m: int, i: int)
    requires
        0 <= i < blocks.len(),
        spec_block_covers(blocks[i], m),
        forall|j: int| 0 <= j < blocks.len() && spec_block_covers(blocks[j], m) ==> j == i,
    ensures
        spec_activity_at(blocks, m) == blocks[i].kind,
    decreases blocks.len(),
{
    if i == 0 {
    } else {
        assert(!spec_block_covers(blocks[0], m));
        assert(blocks.skip(1)[i - 1] == blocks[i]);
        assert forall|j: int|
            0 <= j < blocks.skip(1).len() && spec_block_covers(blocks.skip(1)[j], m) implies j == i
            - 1 by {
            assert(blocks.skip(1)[j] == blocks[j + 1]);
        }
        lemma_activity_at_unique_cover(blocks.skip(1), m, i - 1);
    }
}

/// A minute covered by no block falls back to `Sitting`.
pub proof fn lemma_activity_at_no_cover(blocks: Seq<ScheduleBlock>, m: int)
    requires
        forall|j: int| 0 <= j < blocks.len() ==> !spec_block_covers(blocks[j], m),
    ensures
        spec_activity_at(blocks, m) == ActivityKind::Sitting,
    decreases blocks.len(),
{
    if blocks.len() > 0 {
        assert forall|j: int|
            0 <= j < blocks.skip(1).len() implies !spec_block_covers(blocks.skip(1)[j], m) by {
            assert(blocks.skip(1)[j] == blocks[j + 1]);
        }
        lemma_activity_at_no_cover(blocks.skip(1), m);
    }
}

} // verus!
