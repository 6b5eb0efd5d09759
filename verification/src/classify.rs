//! Feature extraction and threshold classification of raw motion windows.
//!
//! A motion record carries twelve channels in milli-units. Feature
//! extraction takes the Euclidean norm (floor of the integer square root)
//! over the six accelerometer channels and over the six gyroscope channels
//! of each record, averages the per-record magnitudes across the window and
//! takes the square root of that mean, reproducing the source statistic's
//! two-stage averaging. Classification is an ordered decision table over the
//! two features; confidence is a separate step over the accelerometer
//! feature alone.

use vstd::prelude::*;

verus! {

/// Largest magnitude a motion channel may carry, in milli-units. Keeps all
/// squared sums within `u128` range.
pub const CHANNEL_LIMIT: i64 = 1_000_000_000_000_000_000;

/// Largest per-record magnitude: the floor square root of six squared
/// channel limits is below this.
pub const MAG_LIMIT: u64 = 2_500_000_000_000_000_000;

/// One raw motion record: twelve channels in milli-units, in the order
/// left-sensor accel x/y/z, left-sensor gyro x/y/z, right-sensor accel
/// x/y/z, right-sensor gyro x/y/z; a one-based ground-truth activity label;
/// and the raw subject token.
#[derive(Debug, Clone, PartialEq, Eq)]
pub struct MotionRecord {
    /// The twelve motion channels in milli-units.
    pub channels: Vec<i64>,
    /// Ground-truth activity label (one-based), used only for ingestion and
    /// testing, never for classification.
    pub activity: u8,
    /// Subject token, kept verbatim from ingestion.
    pub subject: Vec<u8>,
}

impl MotionRecord {
    /// Twelve channels, every one within `CHANNEL_LIMIT` in magnitude.
    pub open spec fn wf(self) -> bool {
        &&& self.channels@.len() == 12
        &&& forall|i: int|
            0 <= i < 12 ==> -CHANNEL_LIMIT <= #[trigger] self.channels@[i] <= CHANNEL_LIMIT
    }
}

/// Floor of the square root: the unique `r` with `r * r <= n < (r + 1) * (r + 1)`.
pub open spec fn spec_floor_sqrt(n: nat) -> nat
    decreases n,
{
    if n == 0 {
        0
    } else {
        let p = spec_floor_sqrt((n - 1) as nat);
        if (p + 1) * (p + 1) <= n {
            p + 1
        } else {
            p
        }
    }
}

/// The floor square root is bracketed by consecutive squares.
pub proof fn lemma_floor_sqrt_bounds(n: nat)
    ensures
        spec_floor_sqrt(n) * spec_floor_sqrt(n) <= n,
        n < (spec_floor_sqrt(n) + 1) * (spec_floor_sqrt(n) + 1),
    decreases n,
{
    if n == 0 {
        assert(spec_floor_sqrt(0) == 0);
        assert(spec_floor_sqrt(n) * spec_floor_sqrt(n) <= n);
        assert(n < (spec_floor_sqrt(n) + 1) * (spec_floor_sqrt(n) + 1)) by (nonlinear_arith)
            requires
                n == 0,
                spec_floor_sqrt(n) == 0,
        ;
    } else {
        lemma_floor_sqrt_bounds((n - 1) as nat);
        let p = spec_floor_sqrt((n - 1) as nat);
        assert(p * p <= n - 1 && n - 1 < (p + 1) * (p + 1));
        if (p + 1) * (p + 1) <= n {
            assert(spec_floor_sqrt(n) == p + 1);
            assert(n < (p + 2) * (p + 2)) by (nonlinear_arith)
                requires
                    n <= (p + 1) * (p + 1),
                    p >= 0,
            ;
            assert(spec_floor_sqrt(n) * spec_floor_sqrt(n) <= n);
            assert(n < (spec_floor_sqrt(n) + 1) * (spec_floor_sqrt(n) + 1));
        } else {
            assert(spec_floor_sqrt(n) == p);
            assert(spec_floor_sqrt(n) * spec_floor_sqrt(n) <= n);
            assert(n < (spec_floor_sqrt(n) + 1) * (spec_floor_sqrt(n) + 1));
        }
    }
}

/// Any `r` bracketed by consecutive squares is the floor square root.
pub proof fn lemma_floor_sqrt_unique(n: nat, r: nat)
    requires
        r * r <= n,
        n < (r + 1) * (r + 1),
    ensures
        r == spec_floor_sqrt(n),
{
    let s = spec_floor_sqrt(n);
    lemma_floor_sqrt_bounds(n);
    assert(r == s) by (nonlinear_arith)
        requires
            r * r <= n < (r + 1) * (r + 1),
            s * s <= n < (s + 1) * (s + 1),
            r >= 0,
            s >= 0,
    ;
}

/// Floor square root of `n`, by binary search. The argument must not exceed
/// the square of `u64::MAX`, so the result fits a `u64`.
pub fn isqrt(n: u128) -> (r: u64)
    requires
        n <= 0xFFFF_FFFF_FFFF_FFFFu128 * 0xFFFF_FFFF_FFFF_FFFFu128,
    ensures
        r == spec_floor_sqrt(n as nat),
{
    let mut lo: u128 = 0;
    let mut hi: u128 = 0x1_0000_0000_0000_0000u128;
    proof {
        assert((hi as int) * (hi as int) > n) by (nonlinear_arith)
            requires
                n <= 0xFFFF_FFFF_FFFF_FFFFu128 * 0xFFFF_FFFF_FFFF_FFFFu128,
                hi == 0x1_0000_0000_0000_0000u128,
        ;
    }
    while lo + 1 < hi
        invariant
            0 <= lo < hi <= 0x1_0000_0000_0000_0000u128,
            (lo as int) * (lo as int) <= n as int,
            (n as int) < (hi as int) * (hi as int),
        decreases hi - lo,
    {
        let mid = lo + (hi - lo) / 2;
        proof {
            assert((mid as int) * (mid as int) < 0x1_0000_0000_0000_0000i128 as int
                * 0x1_0000_0000_0000_0000i128 as int) by (nonlinear_arith)
                requires
                    0 <= mid < 0x1_0000_0000_0000_0000u128,
            ;
        }
        if mid * mid <= n {
            lo = mid;
        } else {
            hi = mid;
        }
    }
    proof {
        lemma_floor_sqrt_unique(n as nat, lo as nat);
    }
    lo as u64
}

/// Sum of the squares of the six accelerometer channels of a record.
pub open spec fn spec_accel_sum_squares(rec: MotionRecord) -> int {
    rec.channels@[0] * rec.channels@[0] + rec.channels@[1] * rec.channels@[1] + rec.channels@[2]
        * rec.channels@[2] + rec.channels@[6] * rec.channels@[6] + rec.channels@[7]
        * rec.channels@[7] + rec.channels@[8] * rec.channels@[8]
}

/// Sum of the squares of the six gyroscope channels of a record.
pub open spec fn spec_gyro_sum_squares(rec: MotionRecord) -> int {
    rec.channels@[3] * rec.channels@[3] + rec.channels@[4] * rec.channels@[4] + rec.channels@[5]
        * rec.channels@[5] + rec.channels@[9] * rec.channels@[9] + rec.channels@[10]
        * rec.channels@[10] + rec.channels@[11] * rec.channels@[11]
}

/// Accelerometer magnitude of a record: Euclidean norm over its six
/// accelerometer channels, in milli-units.
pub open spec fn spec_accel_mag(rec: MotionRecord) -> int {
    spec_floor_sqrt(spec_accel_sum_squares(rec) as nat) as int
}

/// Gyroscope magnitude of a record: Euclidean norm over its six gyroscope
/// channels, in milli-units.
pub open spec fn spec_gyro_mag(rec: MotionRecord) -> int {
    spec_floor_sqrt(spec_gyro_sum_squares(rec) as nat) as int
}

proof fn lemma_square_bound(x: int)
    requires
        -CHANNEL_LIMIT <= x <= CHANNEL_LIMIT,
    ensures
        0 <= x * x <= (CHANNEL_LIMIT as int) * (CHANNEL_LIMIT as int),
{
    assert(0 <= x * x <= (CHANNEL_LIMIT as int) * (CHANNEL_LIMIT as int)) by (nonlinear_arith)
        requires
            -CHANNEL_LIMIT <= x <= CHANNEL_LIMIT,
    ;
}

proof fn lemma_mag_limit(n: nat)
    requires
        n <= 6 * (CHANNEL_LIMIT as nat) * (CHANNEL_LIMIT as nat),
    ensures
        spec_floor_sqrt(n) < MAG_LIMIT,
{
    lemma_floor_sqrt_bounds(n);
    let r = spec_floor_sqrt(n);
    assert(r < MAG_LIMIT) by (nonlinear_arith)
        requires
            r * r <= n <= 6 * (CHANNEL_LIMIT as nat) * (CHANNEL_LIMIT as nat),
            r >= 0,
            CHANNEL_LIMIT == 1_000_000_000_000_000_000i64,
            MAG_LIMIT == 2_500_000_000_000_000_000u64,
    ;
}

/// Square of a channel value as an unsigned 128-bit quantity.
fn square_channel(x: i64) -> (r: u128)
    requires
        -CHANNEL_LIMIT <= x <= CHANNEL_LIMIT,
    ensures
        r == x * x,
        r <= (CHANNEL_LIMIT as int) * (CHANNEL_LIMIT as int),
{
    proof {
        lemma_square_bound(x as int);
    }
    let wide = x as i128;
    (wide * wide) as u128
}

/// Accelerometer magnitude of a record, in milli-units.
pub fn accel_magnitude(rec: &MotionRecord) -> (r: u64)
    requires
        rec.wf(),
    ensures
        r == spec_accel_mag(*rec),
        r < MAG_LIMIT,
{
    let sum: u128 = square_channel(rec.channels[0]) + square_channel(rec.channels[1])
        + square_channel(rec.channels[2]) + square_channel(rec.channels[6]) + square_channel(
        rec.channels[7],
    ) + square_channel(rec.channels[8]);
    proof {
        lemma_mag_limit(sum as nat);
        assert(sum <= 0xFFFF_FFFF_FFFF_FFFFu128 * 0xFFFF_FFFF_FFFF_FFFFu128) by (nonlinear_arith)
            requires
                sum <= 6 * (CHANNEL_LIMIT as int) * (CHANNEL_LIMIT as int),
                CHANNEL_LIMIT == 1_000_000_000_000_000_000i64,
        ;
    }
    isqrt(sum)
}

/// Gyroscope magnitude of a record, in milli-units.
pub fn gyro_magnitude(rec: &MotionRecord) -> (r: u64)
    requires
        rec.wf(),
    ensures
        r == spec_gyro_mag(*rec),
        r < MAG_LIMIT,
{
    let sum: u128 = square_channel(rec.channels[3]) + square_channel(rec.channels[4])
        + square_channel(rec.channels[5]) + square_channel(rec.channels[9]) + square_channel(
        rec.channels[10],
    ) + square_channel(rec.channels[11]);
    proof {
        lemma_mag_limit(sum as nat);
        assert(sum <= 0xFFFF_FFFF_FFFF_FFFFu128 * 0xFFFF_FFFF_FFFF_FFFFu128) by (nonlinear_arith)
            requires
                sum <= 6 * (CHANNEL_LIMIT as int) * (CHANNEL_LIMIT as int),
                CHANNEL_LIMIT == 1_000_000_000_000_000_000i64,
        ;
    }
    isqrt(sum)
}

/// Sum of accelerometer magnitudes over a window.
pub open spec fn spec_sum_accel_mags(w: Seq<MotionRecord>) -> int
    decreases w.len(),
{
    if w.len() == 0 {
        0
    } else {
        spec_sum_accel_mags(w.drop_last()) + spec_accel_mag(w.last())
    }
}

/// Sum of gyroscope magnitudes over a window.
pub open spec fn spec_sum_gyro_mags(w: Seq<MotionRecord>) -> int
    decreases w.len(),
{
    if w.len() == 0 {
        0
    } else {
        spec_sum_gyro_mags(w.drop_last()) + spec_gyro_mag(w.last())
    }
}

/// Accelerometer feature of a non-empty window: square root of the mean of
/// the per-record magnitudes, in milli-units.
pub open spec fn spec_accel_rms(w: Seq<MotionRecord>) -> int {
    spec_floor_sqrt((1000 * (spec_sum_accel_mags(w) / w.len() as int)) as nat) as int
}

/// Gyroscope feature of a non-empty window: square root of the mean of the
/// per-record magnitudes, in milli-units.
pub open spec fn spec_gyro_rms(w: Seq<MotionRecord>) -> int {
    spec_floor_sqrt((1000 * (spec_sum_gyro_mags(w) / w.len() as int)) as nat) as int
}

proof fn lemma_sum_mags_bounds(w: Seq<MotionRecord>)
    requires
        forall|i: int| 0 <= i < w.len() ==> (#[trigger] w[i]).wf(),
    ensures
        0 <= spec_sum_accel_mags(w) <= w.len() * (MAG_LIMIT as int),
        0 <= spec_sum_gyro_mags(w) <= w.len() * (MAG_LIMIT as int),
    decreases w.len(),
{
    if w.len() == 0 {
    } else {
        lemma_sum_mags_bounds(w.drop_last());
        let rec = w.last();
        assert(rec.wf());
        assert forall|i: int| 0 <= i < 12 implies 0 <= #[trigger] (rec.channels@[i]
            * rec.channels@[i]) <= (CHANNEL_LIMIT as int) * (CHANNEL_LIMIT as int) by {
            lemma_square_bound(rec.channels@[i] as int);
        }
        lemma_mag_limit(spec_accel_sum_squares(rec) as nat);
        lemma_mag_limit(spec_gyro_sum_squares(rec) as nat);
    }
}

/// The two motion features of a non-empty window, each in milli-units.
pub fn extract_features(window: &[MotionRecord]) -> (r: (u64, u64))
    requires
        window@.len() > 0,
        forall|i: int| 0 <= i < window@.len() ==> (#[trigger] window@[i]).wf(),
    ensures
        r.0 == spec_accel_rms(window@),
        r.1 == spec_gyro_rms(window@),
{
    let n = window.len();
    let mut accel_sum: u128 = 0;
    let mut gyro_sum: u128 = 0;
    let mut i: usize = 0;
    proof {
        assert(window@.take(0) =~= Seq::<MotionRecord>::empty());
    }
    while i < n
        invariant
            0 <= i <= n,
            n == window@.len(),
            forall|j: int| 0 <= j < window@.len() ==> (#[trigger] window@[j]).wf(),
            accel_sum == spec_sum_accel_mags(window@.take(i as int)),
            gyro_sum == spec_sum_gyro_mags(window@.take(i as int)),
            accel_sum <= (i as int) * (MAG_LIMIT as int),
            gyro_sum <= (i as int) * (MAG_LIMIT as int),
        decreases n - i,
    {
        let rec = &window[i];
        let am = accel_magnitude(rec);
        let gm = gyro_magnitude(rec);
        proof {
            assert(window@.take(i + 1).drop_last() =~= window@.take(i as int));
            assert(window@.take(i + 1).last() == window@[i as int]);
            assert((i as int + 1) * (MAG_LIMIT as int) == (i as int) * (MAG_LIMIT as int)
                + MAG_LIMIT as int) by (nonlinear_arith);
            assert((n as int) * (MAG_LIMIT as int) <= (usize::MAX as int) * (MAG_LIMIT as int))
                by (nonlinear_arith)
                requires
                    n as int <= usize::MAX as int,
            ;
            assert((i as int) * (MAG_LIMIT as int) < (n as int) * (MAG_LIMIT as int))
                by (nonlinear_arith)
                requires
                    0 <= i < n,
            ;
        }
        accel_sum = accel_sum + am as u128;
        gyro_sum = gyro_sum + gm as u128;
        i = i + 1;
    }
    proof {
        assert(window@.take(n as int) =~= window@);
        lemma_sum_mags_bounds(window@);
        assert((n as int) * (MAG_LIMIT as int) <= (usize::MAX as int) * (MAG_LIMIT as int))
            by (nonlinear_arith)
            requires
                n as int <= usize::MAX as int,
        ;
    }
    let accel_mean = accel_sum / n as u128;
    let gyro_mean = gyro_sum / n as u128;
    proof {
        vstd::arithmetic::div_mod::lemma_div_is_ordered(
            accel_sum as int,
            (n as int) * (MAG_LIMIT as int),
            n as int,
        );
        vstd::arithmetic::div_mod::lemma_div_is_ordered(
            gyro_sum as int,
            (n as int) * (MAG_LIMIT as int),
            n as int,
        );
        vstd::arithmetic::div_mod::lemma_div_multiples_vanish(MAG_LIMIT as int, n as int);
        vstd::arithmetic::div_mod::lemma_div_pos_is_pos(accel_sum as int, n as int);
        vstd::arithmetic::div_mod::lemma_div_pos_is_pos(gyro_sum as int, n as int);
        assert(1000 * accel_mean <= 0xFFFF_FFFF_FFFF_FFFFu128 * 0xFFFF_FFFF_FFFF_FFFFu128)
            by (nonlinear_arith)
            requires
                0 <= accel_mean <= MAG_LIMIT as int,
                MAG_LIMIT == 2_500_000_000_000_000_000u64,
        ;
        assert(1000 * gyro_mean <= 0xFFFF_FFFF_FFFF_FFFFu128 * 0xFFFF_FFFF_FFFF_FFFFu128)
            by (nonlinear_arith)
            requires
                0 <= gyro_mean <= MAG_LIMIT as int,
                MAG_LIMIT == 2_500_000_000_000_000_000u64,
        ;
    }
    let accel_rms = isqrt(1000u128 * accel_mean);
    let gyro_rms = isqrt(1000u128 * gyro_mean);
    (accel_rms, gyro_rms)
}

/// Ordered decision table over the two features (both in milli-units):
/// rules are evaluated top to bottom and the first matching rule wins; a
/// window matching no rule falls back to label 1 (standing).
pub open spec fn spec_classify_label(a: int, g: int) -> int {
    if a < 500 {
        if g < 100 {
            2
        } else {
            1
        }
    } else if a < 1500 && g < 1000 {
        if g > 800 {
            7
        } else {
            4
        }
    } else if a < 2500 && g < 1500 {
        if g > 1200 {
            5
        } else {
            9
        }
    } else if a < 3500 && g > 1000 {
        if a > 3000 {
            8
        } else {
            6
        }
    } else if a >= 3500 {
        if a > 4500 {
            11
        } else if a > 4000 {
            12
        } else {
            10
        }
    } else {
        1
    }
}

/// Confidence in percent, from the accelerometer feature alone: extreme
/// tails score 85, moderately extreme values 75, the middle range 65.
pub open spec fn spec_confidence(a: int) -> int {
    if a < 300 || a > 4500 {
        85
    } else if a < 800 || a > 3500 {
        75
    } else {
        65
    }
}

/// Classify a pair of extracted features (milli-units) into an activity
/// label (1..=12) and a confidence in percent.
pub fn classify_features(accel_rms: u64, gyro_rms: u64) -> (r: (u8, u8))
    ensures
        r.0 == spec_classify_label(accel_rms as int, gyro_rms as int),
        r.1 == spec_confidence(accel_rms as int),
        1 <= r.0 <= 12,
        65 <= r.1 <= 85,
{
    let label: u8 = if accel_rms < 500 {
        if gyro_rms < 100 {
            2
        } else {
            1
        }
    } else if accel_rms < 1500 && gyro_rms < 1000 {
        if gyro_rms > 800 {
            7
        } else {
            4
        }
    } else if accel_rms < 2500 && gyro_rms < 1500 {
        if gyro_rms > 1200 {
            5
        } else {
            9
        }
    } else if accel_rms < 3500 && gyro_rms > 1000 {
        if accel_rms > 3000 {
            8
        } else {
            6
        }
    } else if accel_rms >= 3500 {
        if accel_rms > 4500 {
            11
        } else if accel_rms > 4000 {
            12
        } else {
            10
        }
    } else {
        1
    };
    let confidence: u8 = if accel_rms < 300 || accel_rms > 4500 {
        85
    } else if accel_rms < 800 || accel_rms > 3500 {
        75
    } else {
        65
    };
    (label, confidence)
}

/// Statistical threshold classifier over windows of raw motion records.
pub struct ActivityClassifier;

impl ActivityClassifier {
    /// Classify a window of motion records into an activity label (1..=12)
    /// and a confidence in percent. An empty window answers the safe
    /// default (1, 0) rather than an error; a non-empty window is scored by
    /// the decision table over its extracted features.
    pub fn classify(window: &[MotionRecord]) -> (r: (u8, u8))
        requires
            forall|i: int| 0 <= i < window@.len() ==> (#[trigger] window@[i]).wf(),
        ensures
            window@.len() == 0 ==> r == (1u8, 0u8),
            window@.len() > 0 ==> r.0 == spec_classify_label(
                spec_accel_rms(window@),
                spec_gyro_rms(window@),
            ) && r.1 == spec_confidence(spec_accel_rms(window@)),
    {
        if window.len() == 0 {
            return (1, 0);
        }
        let (accel_rms, gyro_rms) = extract_features(window);
        classify_features(accel_rms, gyro_rms)
    }
}

} // verus!
