use chrona::core_types::Tier;
use chrona::engine::Engine;
use chrona::export::SensorBatch;
use chrona::llm::NoopLlm;
use chrona::model::{Model, NoopModel};
use chrona::presets::business_professional;
use chrona::profile::{
    ActivityKind, DailySchedule, ScheduleBlock, activity_hr_boost, activity_intensity,
};
use chrona::sensors::{Sensor, SyntheticHeartRate};
use chrona::sim::{ChannelValues, NoiseVector, SensorSimulator, channel_values};
use chrona::ui::{DisplayMode, current_value_text, mode_for_tier, tier_baseline_hr};

const ALL_KINDS: [ActivityKind; 13] = [
    ActivityKind::Sleep,
    ActivityKind::Sitting,
    ActivityKind::Standing,
    ActivityKind::WalkingSlow,
    ActivityKind::WalkingBrisk,
    ActivityKind::Stairs,
    ActivityKind::CyclingEasy,
    ActivityKind::CyclingHard,
    ActivityKind::RunningEasy,
    ActivityKind::RunningModerate,
    ActivityKind::RunningHard,
    ActivityKind::GymModerate,
    ActivityKind::GymHigh,
];

#[test]
fn noise_free_hr_matches_formula_for_every_kind() {
    let profile = business_professional();
    let zero = NoiseVector::zero();
    for kind in ALL_KINDS {
        let values: ChannelValues = channel_values(&profile, kind, &zero);
        let expected = profile.resting_hr_milli as i64
            + (profile.max_hr_milli - profile.resting_hr_milli) as i64
                * activity_intensity(kind) as i64
                / 1000;
        assert_eq!(values.hr, expected);
        assert_eq!(
            values.hr,
            profile.resting_hr_milli as i64
                + activity_hr_boost(kind, profile.resting_hr_milli, profile.max_hr_milli) as i64
        );
    }
}

#[test]
fn noise_free_channels_match_formulas() {
    let profile = business_professional();
    let zero = NoiseVector::zero();
    let values = channel_values(&profile, ActivityKind::Sitting, &zero);
    assert_eq!(values.hr, 73_850); // 68 + (185-68)*0.05 bpm
    assert_eq!(values.hrv, 43_875); // 45 * (1 - 0.5*0.05) ms
    assert_eq!(values.eda, 2_535); // 2.5 + 0.7*0.05 μS
    assert_eq!(values.temp, 36_190); // 36.2 - 0.2*0.05 °C
    assert_eq!(values.accel, 1_020); // table mean
}

#[test]
fn one_step_sitting_day_bounds() {
    let mut profile = business_professional();
    profile.activity_schedule = DailySchedule {
        blocks: vec![ScheduleBlock {
            start_minute: 0,
            duration_min: 1440,
            kind: ActivityKind::Sitting,
        }],
    };
    let mut sim = SensorSimulator::new(profile, 0);
    let samples = sim.poll_all();
    assert_eq!(samples.len(), 5);
    assert_eq!(sim.ts_ms, 1000);
    for s in &samples {
        assert_eq!(s.ts_ms, 1000);
    }
    // HR = 73.85 bpm nominal, +-2 bpm of noise.
    assert!(samples[0].value_milli >= 71_850 && samples[0].value_milli < 75_850);
    // HRV = 43.875 ms nominal, +-3 ms.
    assert!(samples[1].value_milli >= 40_875 && samples[1].value_milli < 46_875);
    // EDA = 2.535 μS nominal, +-0.05.
    assert!(samples[2].value_milli >= 2_485 && samples[2].value_milli < 2_585);
    // Temp = 36.19 °C nominal, +-0.05.
    assert!(samples[3].value_milli >= 36_140 && samples[3].value_milli < 36_240);
    // Accel = 1.02 g nominal, +-0.12.
    assert!(samples[4].value_milli >= 900 && samples[4].value_milli < 1_140);
}

#[test]
fn simulator_minute_follows_clock() {
    let profile = business_professional();
    let sim = SensorSimulator::new(profile, 3_600_000);
    assert_eq!(sim.minute_of_day, 60);

    let profile = business_professional();
    let mut sim = SensorSimulator::new(profile, 59_000);
    assert_eq!(sim.minute_of_day, 0);
    let _ = sim.poll_all();
    assert_eq!(sim.minute_of_day, 1);
}

#[test]
fn synthetic_sensor_stays_within_jitter() {
    let mut sensor = SyntheticHeartRate::new(70_000, 5_000, 0);
    for _ in 0..20 {
        let sample = sensor.poll().unwrap();
        assert!(sample.value_milli >= 65_000 && sample.value_milli < 75_000);
    }
    assert_eq!(sensor.ts_ms, 20_000);
    assert_eq!(sensor.name(), "synthetic_hr");
}

#[test]
fn engine_step_runs_noop_stack() {
    let mut engine = Engine {
        tier: Tier::Mini8,
        sensor: SyntheticHeartRate::new(70_000, 5_000, 0),
        store: (),
        model: NoopModel,
        llm: NoopLlm,
    };
    let response = engine.step();
    assert_eq!(response.model, "noop-llm");
    assert_eq!(
        response.text,
        "Running tier Mini8 analysis on your query. More specific prompts yield better results."
    );
}

#[test]
fn engine_step_without_sample_answers_no_data() {
    // A zero jitter leaves the synthetic sensor outside its working range,
    // so polling yields no sample.
    let mut engine = Engine {
        tier: Tier::Pro32,
        sensor: SyntheticHeartRate::new(70_000, 0, 0),
        store: (),
        model: NoopModel,
        llm: NoopLlm,
    };
    let response = engine.step();
    assert_eq!(response.model, "noop-llm");
    assert_eq!(response.text, "No data");
}

#[test]
fn noop_model_scores_zero() {
    let model = NoopModel;
    assert_eq!(model.infer(&[]), 0);
    assert_eq!(model.id(), "noop");
}

#[test]
fn display_mode_per_tier() {
    assert_eq!(mode_for_tier(Tier::Mini8), DisplayMode::Mini);
    assert_eq!(mode_for_tier(Tier::Standard16), DisplayMode::Regular);
    assert_eq!(mode_for_tier(Tier::Pro32), DisplayMode::Pro);
    assert_eq!(tier_baseline_hr(Tier::Mini8), 70_000);
    assert_eq!(tier_baseline_hr(Tier::Standard16), 72_000);
    assert_eq!(tier_baseline_hr(Tier::Pro32), 74_000);
}

#[test]
fn current_value_placeholder_and_rounding() {
    assert_eq!(current_value_text(None), "-- bpm");
    assert_eq!(current_value_text(Some(72_400)), "72 bpm");
    assert_eq!(current_value_text(Some(72_500)), "73 bpm");
}

#[test]
fn sensor_batch_columns_grow_together() {
    let mut batch = SensorBatch::new();
    assert_eq!(batch.len(), 0);
    batch.push_row(1, 60, 72_000, 45_000, 2_500, 36_200, 1_020, String::from("sitting"), 250, false);
    batch.push_row(1, 61, 73_000, 44_000, 2_510, 36_195, 1_030, String::from("sitting"), 250, false);
    assert_eq!(batch.len(), 2);
    assert_eq!(batch.hr_milli, vec![72_000, 73_000]);
    assert_eq!(batch.ts_unix_sec, vec![60, 61]);
    assert_eq!(batch.activity.len(), 2);
    assert_eq!(batch.exercise_flag, vec![false, false]);
}
