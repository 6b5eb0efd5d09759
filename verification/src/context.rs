//! Derived activity context and natural-language prompt construction.

use vstd::prelude::*;
use crate::classify::{MotionRecord, spec_accel_rms, spec_classify_label, spec_confidence,
    spec_gyro_rms};
use crate::core_types::Tier;
use crate::text::{RENDER_LIMIT, append_milli_0dp, append_milli_2dp, append_u64, spec_digits_of,
    spec_milli_0dp, spec_milli_2dp};

verus! {

/// Name of a motion activity label (1..=12).
pub open spec fn spec_label_name(label: int) -> Seq<char> {
    if label == 1 {
        "standing"@
    } else if label == 2 {
        "sitting"@
    } else if label == 3 {
        "lying down"@
    } else if label == 4 {
        "walking"@
    } else if label == 5 {
        "climbing stairs"@
    } else if label == 6 {
        "bending"@
    } else if label == 7 {
        "arm elevation"@
    } else if label == 8 {
        "crouching"@
    } else if label == 9 {
        "cycling"@
    } else if label == 10 {
        "jogging"@
    } else if label == 11 {
        "running"@
    } else if label == 12 {
        "jumping"@
    } else {
        "unknown"@
    }
}

/// The name of a motion activity label.
pub fn label_name(label: u8) -> (r: &'static str)
    ensures
        r@ == spec_label_name(label as int),
{
    match label {
        1 => "standing",
        2 => "sitting",
        3 => "lying down",
        4 => "walking",
        5 => "climbing stairs",
        6 => "bending",
        7 => "arm elevation",
        8 => "crouching",
        9 => "cycling",
        10 => "jogging",
        11 => "running",
        12 => "jumping",
        _ => "unknown",
    }
}

/// Nominal exertion intensity of a motion activity label, in per-mille.
pub open spec fn spec_label_intensity(label: int) -> int {
    if label == 1 {
        100
    } else if label == 2 {
        50
    } else if label == 3 {
        0
    } else if label == 4 {
        250
    } else if label == 5 {
        500
    } else if label == 6 {
        450
    } else if label == 7 {
        450
    } else if label == 8 {
        450
    } else if label == 9 {
        350
    } else if label == 10 {
        700
    } else if label == 11 {
        850
    } else if label == 12 {
        650
    } else {
        50
    }
}

/// Nominal exertion intensity of a motion activity label, in per-mille.
pub fn label_intensity(label: u8) -> (r: u16)
    ensures
        r == spec_label_intensity(label as int),
        r <= 1000,
{
    match label {
        1 => 100,
        2 => 50,
        3 => 0,
        4 => 250,
        5 => 500,
        6 => 450,
        7 => 450,
        8 => 450,
        9 => 350,
        10 => 700,
        11 => 850,
        12 => 650,
        _ => 50,
    }
}

/// Heart rate predicted from a resting rate and an intensity in per-mille,
/// against a nominal maximum of 180 bpm.
pub open spec fn spec_predicted_hr(resting: int, intensity_pm: int) -> int {
    if resting <= 180 {
        resting + (180 - resting) * intensity_pm / 1000
    } else {
        resting - (resting - 180) * intensity_pm / 1000
    }
}

/// Activity context: ephemeral summary of one classification cycle.
#[derive(Debug, Clone)]
pub struct ActivityContext {
    /// Activity label (1..=12).
    pub activity: u8,
    /// Activity name.
    pub activity_name: String,
    /// Confidence of the classification, in percent (0..=100).
    pub confidence_pct: u8,
    /// Predicted heart rate from the activity's intensity, in bpm.
    pub predicted_hr: u32,
    /// Exertion intensity of the activity, in per-mille (0..=1000).
    pub intensity_pm: u16,
}

impl ActivityContext {
    /// Well-formedness: percentages and intensities stay in range, the
    /// predicted rate within a generous ceiling, and the name matches the
    /// label.
    pub open spec fn wf(self) -> bool {
        &&& self.confidence_pct <= 100
        &&& self.intensity_pm <= 1000
        &&& self.predicted_hr <= 1000
        &&& self.activity_name@ == spec_label_name(self.activity as int)
    }

    /// Build a context from one motion record and a resting heart rate:
    /// classify the single-record window, look the label's name and
    /// nominal intensity up, and predict the heart rate from the intensity
    /// against a nominal maximum of 180 bpm.
    pub fn from_record(record: &MotionRecord, resting_hr: u32) -> (r: Self)
        requires
            record.wf(),
            resting_hr <= 1000,
        ensures
            r.wf(),
            r.activity == spec_classify_label(
                spec_accel_rms(seq![*record]),
                spec_gyro_rms(seq![*record]),
            ),
            r.confidence_pct == spec_confidence(spec_accel_rms(seq![*record])),
            r.intensity_pm == spec_label_intensity(r.activity as int),
            r.predicted_hr == spec_predicted_hr(resting_hr as int, r.intensity_pm as int),
    {
        let am = crate::classify::accel_magnitude(record);
        let gm = crate::classify::gyro_magnitude(record);
        proof {
            let w = seq![*record];
            assert(w.drop_last() =~= Seq::<MotionRecord>::empty());
            assert(w.last() == *record);
            assert(crate::classify::spec_sum_accel_mags(Seq::<MotionRecord>::empty()) == 0);
            assert(crate::classify::spec_sum_gyro_mags(Seq::<MotionRecord>::empty()) == 0);
            assert(crate::classify::spec_sum_accel_mags(w) == crate::classify::spec_accel_mag(
                *record,
            ));
            assert(crate::classify::spec_sum_gyro_mags(w) == crate::classify::spec_gyro_mag(
                *record,
            ));
            assert(am as int / 1 == am as int);
            assert(gm as int / 1 == gm as int);
        }
        let accel_rms = crate::classify::isqrt(1000u128 * am as u128);
        let gyro_rms = crate::classify::isqrt(1000u128 * gm as u128);
        let (label, confidence_pct) = crate::classify::classify_features(accel_rms, gyro_rms);
        let intensity_pm = label_intensity(label);
        let predicted_hr: u32 = if resting_hr <= 180 {
            let reserve = 180 - resting_hr;
            proof {
                assert(reserve * intensity_pm as u32 <= 180_000) by (nonlinear_arith)
                    requires
                        reserve <= 180,
                        intensity_pm <= 1000,
                ;
            }
            resting_hr + reserve * intensity_pm as u32 / 1000
        } else {
            let over = resting_hr - 180;
            proof {
                assert(over * intensity_pm as u32 <= over * 1000) by (nonlinear_arith)
                    requires
                        intensity_pm <= 1000,
                        over >= 0,
                ;
                assert(over * 1000 / 1000 == over) by (nonlinear_arith);
                vstd::arithmetic::div_mod::lemma_div_is_ordered(
                    (over * intensity_pm as u32) as int,
                    (over * 1000) as int,
                    1000,
                );
            }
            resting_hr - over * intensity_pm as u32 / 1000
        };
        ActivityContext {
            activity: label,
            activity_name: String::from_str(label_name(label)),
            confidence_pct,
            predicted_hr,
            intensity_pm,
        }
    }

    /// Wording for how a predicted rate stands against a baseline:
    /// "significantly elevated" above ten bpm over, "elevated" when over at
    /// all, else "normal".
    pub open spec fn spec_delta_desc(predicted: int, baseline: int) -> Seq<char> {
        if predicted - baseline > 10 {
            "significantly elevated"@
        } else if predicted - baseline > 0 {
            "elevated"@
        } else {
            "normal"@
        }
    }

    /// Text of the compact activity narrative.
    pub open spec fn spec_context_text(self, baseline_hr: int) -> Seq<char> {
        "Activity: "@ + self.activity_name@ + " (confidence "@ + spec_digits_of(
            self.confidence_pct as nat,
        ) + "%). HR: "@ + spec_digits_of(self.predicted_hr as nat) + " bpm, "@
            + Self::spec_delta_desc(self.predicted_hr as int, baseline_hr) + "."@
    }

    /// Render the compact activity narrative: the activity name, the
    /// confidence in percent, and the predicted heart rate with a wording
    /// of how it stands against the baseline.
    pub fn to_llm_context(&self, baseline_hr: u32) -> (r: String)
        requires
            baseline_hr <= 100_000,
        ensures
            r@ == self.spec_context_text(baseline_hr as int),
    {
        let ghost me = *self;
        let delta_desc: &str = if self.predicted_hr as i64 - baseline_hr as i64 > 10 {
            "significantly elevated"
        } else if self.predicted_hr as i64 - baseline_hr as i64 > 0 {
            "elevated"
        } else {
            "normal"
        };
        let mut t = String::from_str("Activity: ");
        t.append(self.activity_name.as_str());
        t.append(" (confidence ");
        append_u64(&mut t, self.confidence_pct as u64);
        t.append("%). HR: ");
        append_u64(&mut t, self.predicted_hr as u64);
        t.append(" bpm, ");
        t.append(delta_desc);
        t.append(".");
        proof {
            assert(t@ =~= me.spec_context_text(baseline_hr as int));
        }
        t
    }
}

/// System text of the lowest tier: a concise single recommendation.
pub open spec fn spec_mini_system() -> Seq<char> {
    "You are a health assistant. Provide a concise answer. Respond with a direct recommendation. Do not use lists or multiple-choice format. Max five sentences."@
}

/// System text of the middle tier: a detailed answer over recent trends.
pub open spec fn spec_standard_system() -> Seq<char> {
    "You are a health assistant. You have access to the user's recent health data from the past few weeks. Provide a detailed, actionable answer using recent trends and context. Include possible causes, recommended steps, and when to seek medical attention. Use up to ten sentences if needed."@
}

/// System text of the highest tier: a comprehensive answer over long-term
/// patterns.
pub open spec fn spec_pro_system() -> Seq<char> {
    "You are a health assistant. You have access to the user's health data and trends over multiple months. Provide a comprehensive, nuanced answer using long-term analysis, patterns, and context. Include possible causes, recommended steps, and when to seek medical attention. Use as many sentences as needed for a complete response."@
}

/// User text of the lowest tier: the narrative (or a placeholder when no
/// context is at hand) followed by a brief status request.
pub open spec fn spec_mini_user(context: Seq<char>) -> Seq<char> {
    context + ". Brief status check in one sentence."@
}

/// Placeholder when no activity context is available.
pub open spec fn spec_context_unavailable() -> Seq<char> {
    "Activity context unavailable."@
}

/// Build the (system, user) prompt pair for a tier.
///
/// The lowest tier narrates the activity context — or degrades to a fixed
/// placeholder when none is at hand — and asks for a one-sentence status;
/// the other tiers pass the caller's question through verbatim under a
/// system text whose depth scales with the tier. Every valid input yields
/// a pair; nothing fails.
pub fn build_prompt_for_tier(
    tier: Tier,
    activity_context: Option<&ActivityContext>,
    baseline_hr: u32,
    user_question: &str,
) -> (r: (String, String))
    requires
        baseline_hr <= 100_000,
    ensures
        tier == Tier::Mini8 ==> r.0@ == spec_mini_system() && r.1@ == spec_mini_user(
            match activity_context {
                Some(ctx) => ctx.spec_context_text(baseline_hr as int),
                None => spec_context_unavailable(),
            },
        ),
        tier == Tier::Standard16 ==> r.0@ == spec_standard_system() && r.1@ == user_question@,
        tier == Tier::Pro32 ==> r.0@ == spec_pro_system() && r.1@ == user_question@,
{
    match tier {
        Tier::Mini8 => {
            let mut user: String = match activity_context {
                Some(ctx) => ctx.to_llm_context(baseline_hr),
                None => String::from_str("Activity context unavailable."),
            };
            user.append(". Brief status check in one sentence.");
            let system = String::from_str(
                "You are a health assistant. Provide a concise answer. Respond with a direct recommendation. Do not use lists or multiple-choice format. Max five sentences.",
            );
            (system, user)
        },
        Tier::Standard16 => {
            let system = String::from_str(
                "You are a health assistant. You have access to the user's recent health data from the past few weeks. Provide a detailed, actionable answer using recent trends and context. Include possible causes, recommended steps, and when to seek medical attention. Use up to ten sentences if needed.",
            );
            (system, String::from_str(user_question))
        },
        Tier::Pro32 => {
            let system = String::from_str(
                "You are a health assistant. You have access to the user's health data and trends over multiple months. Provide a comprehensive, nuanced answer using long-term analysis, patterns, and context. Include possible causes, recommended steps, and when to seek medical attention. Use as many sentences as needed for a complete response.",
            );
            (system, String::from_str(user_question))
        },
    }
}

/// Build the lowest tier's prompt pair from an activity context.
pub fn build_mini_prompt(ctx: &ActivityContext, baseline_hr: u32) -> (r: (String, String))
    requires
        baseline_hr <= 100_000,
    ensures
        r.0@ == spec_mini_system(),
        r.1@ == spec_mini_user(ctx.spec_context_text(baseline_hr as int)),
{
    build_prompt_for_tier(Tier::Mini8, Some(ctx), baseline_hr, "")
}

/// Live signal snapshot rendered for a language model: one value per
/// channel in milli-units, a stress fraction in milli (per-mille), and an
/// exercise flag.
#[derive(Debug, Clone)]
pub struct LlmSensorContext {
    /// Activity name.
    pub activity: String,
    /// Heart rate in milli-bpm.
    pub hr_milli: i64,
    /// HRV (RMSSD) in milli-ms.
    pub hrv_milli: i64,
    /// EDA in milli-microsiemens.
    pub eda_milli: i64,
    /// Skin temperature in milli-degrees Celsius.
    pub temp_milli: i64,
    /// Accelerometer magnitude in milli-g.
    pub accel_milli: i64,
    /// Stress level fraction in milli (0..=1000 for 0.0 to 1.0).
    pub stress_milli: i64,
    /// True when exercising during this sample.
    pub exercise_flag: bool,
}

impl LlmSensorContext {
    /// Every rendered value stays within the renderers' range.
    pub open spec fn wf(self) -> bool {
        &&& -RENDER_LIMIT <= self.hr_milli <= RENDER_LIMIT
        &&& -RENDER_LIMIT <= self.hrv_milli <= RENDER_LIMIT
        &&& -RENDER_LIMIT <= self.eda_milli <= RENDER_LIMIT
        &&& -RENDER_LIMIT <= self.temp_milli <= RENDER_LIMIT
        &&& -RENDER_LIMIT <= self.accel_milli <= RENDER_LIMIT
        &&& -RENDER_LIMIT <= self.stress_milli <= RENDER_LIMIT
    }

    /// Text of the snapshot narrative, field by field.
    pub open spec fn spec_snapshot_text(self) -> Seq<char> {
        "Activity: "@ + self.activity@ + ". HR: "@ + spec_milli_0dp(self.hr_milli as int)
            + " bpm. HRV: "@ + spec_milli_0dp(self.hrv_milli as int) + " ms. EDA: "@
            + spec_milli_2dp(self.eda_milli as int) + " μS. Temp: "@ + spec_milli_2dp(
            self.temp_milli as int,
        ) + "°C. Accel: "@ + spec_milli_2dp(self.accel_milli as int) + "g. Stress: "@
            + spec_milli_2dp(self.stress_milli as int) + ". Exercise: "@ + (
        if self.exercise_flag {
            "yes"@
        } else {
            "no"@
        }) + "."@
    }

    /// Render a concise context line for the LLM: exact field order and
    /// units — heart rate and HRV to whole units, EDA, temperature,
    /// accelerometer magnitude and stress to two decimals.
    pub fn to_llm_context(&self) -> (r: String)
        requires
            self.wf(),
        ensures
            r@ == self.spec_snapshot_text(),
    {
        let ghost me = *self;
        let mut t = String::from_str("Activity: ");
        t.append(self.activity.as_str());
        t.append(". HR: ");
        append_milli_0dp(&mut t, self.hr_milli);
        t.append(" bpm. HRV: ");
        append_milli_0dp(&mut t, self.hrv_milli);
        t.append(" ms. EDA: ");
        append_milli_2dp(&mut t, self.eda_milli);
        t.append(" μS. Temp: ");
        append_milli_2dp(&mut t, self.temp_milli);
        t.append("°C. Accel: ");
        append_milli_2dp(&mut t, self.accel_milli);
        t.append("g. Stress: ");
        append_milli_2dp(&mut t, self.stress_milli);
        t.append(". Exercise: ");
        if self.exercise_flag {
            t.append("yes");
        } else {
            t.append("no");
        }
        t.append(".");
        proof {
            assert(t@ =~= me.spec_snapshot_text());
        }
        t
    }
}

} // verus!
