use chrona::profile::{
    ActivityKind, DailySchedule, IntensityDistribution, ScheduleBlock, activity_accel_mean,
    activity_accel_noise, activity_hr_boost, activity_intensity, stress_hr_boost,
};
use chrona::presets::business_professional;

fn block(start_minute: u16, duration_min: u16, kind: ActivityKind) -> ScheduleBlock {
    ScheduleBlock { start_minute, duration_min, kind }
}

#[test]
fn activity_at_minute_covering_blocks() {
    let profile = business_professional();
    let schedule = &profile.activity_schedule;
    assert_eq!(schedule.activity_at_minute(0), ActivityKind::Sleep);
    assert_eq!(schedule.activity_at_minute(100), ActivityKind::Sleep);
    assert_eq!(schedule.activity_at_minute(370), ActivityKind::Standing);
    assert_eq!(schedule.activity_at_minute(750), ActivityKind::WalkingSlow);
    assert_eq!(schedule.activity_at_minute(1050), ActivityKind::WalkingBrisk);
    assert_eq!(schedule.activity_at_minute(1439), ActivityKind::Sleep);
}

#[test]
fn activity_at_minute_boundary_is_half_open() {
    let schedule = DailySchedule {
        blocks: vec![block(100, 50, ActivityKind::Standing)],
    };
    assert_eq!(schedule.activity_at_minute(99), ActivityKind::Sitting);
    assert_eq!(schedule.activity_at_minute(100), ActivityKind::Standing);
    assert_eq!(schedule.activity_at_minute(149), ActivityKind::Standing);
    assert_eq!(schedule.activity_at_minute(150), ActivityKind::Sitting);
}

#[test]
fn activity_at_minute_uncovered_defaults_to_sitting() {
    let schedule = DailySchedule {
        blocks: vec![block(0, 60, ActivityKind::Sleep), block(120, 60, ActivityKind::Stairs)],
    };
    assert_eq!(schedule.activity_at_minute(90), ActivityKind::Sitting);
}

#[test]
fn activity_at_minute_first_match_wins() {
    let schedule = DailySchedule {
        blocks: vec![
            block(0, 1440, ActivityKind::RunningHard),
            block(0, 1440, ActivityKind::Sleep),
        ],
    };
    assert_eq!(schedule.activity_at_minute(500), ActivityKind::RunningHard);
}

#[test]
fn activity_at_minute_empty_schedule() {
    let schedule = DailySchedule { blocks: vec![] };
    assert_eq!(schedule.activity_at_minute(0), ActivityKind::Sitting);
}

#[test]
fn normalized_exact_thirds_of_scale() {
    let d = IntensityDistribution { low: 300_000, moderate: 500_000, high: 200_000 }.normalized();
    assert_eq!(d.low, 300_000);
    assert_eq!(d.moderate, 500_000);
    assert_eq!(d.high, 200_000);
    assert_eq!(d.low + d.moderate + d.high, 1_000_000);
}

#[test]
fn normalized_sums_to_scale_within_two_ppm() {
    let d = IntensityDistribution { low: 1, moderate: 1, high: 1 }.normalized();
    assert_eq!(d.low, 333_333);
    assert_eq!(d.moderate, 333_333);
    assert_eq!(d.high, 333_333);
    let sum = d.low + d.moderate + d.high;
    assert!(sum <= 1_000_000 && sum >= 1_000_000 - 2);

    let d = IntensityDistribution { low: 7, moderate: 11, high: 5 }.normalized();
    let sum = d.low + d.moderate + d.high;
    assert!(sum <= 1_000_000 && sum >= 1_000_000 - 2);
}

#[test]
fn normalized_all_zero_stays_zero() {
    let d = IntensityDistribution { low: 0, moderate: 0, high: 0 }.normalized();
    assert_eq!((d.low, d.moderate, d.high), (0, 0, 0));
}

#[test]
fn intensity_table_values() {
    assert_eq!(activity_intensity(ActivityKind::Sleep), 0);
    assert_eq!(activity_intensity(ActivityKind::Sitting), 50);
    assert_eq!(activity_intensity(ActivityKind::WalkingBrisk), 400);
    assert_eq!(activity_intensity(ActivityKind::RunningHard), 850);
    assert_eq!(activity_intensity(ActivityKind::GymHigh), 650);
}

#[test]
fn accel_table_values() {
    assert_eq!(activity_accel_mean(ActivityKind::Sitting), 1020);
    assert_eq!(activity_accel_mean(ActivityKind::RunningModerate), 4200);
    assert_eq!(activity_accel_noise(ActivityKind::Sleep), 80);
    assert_eq!(activity_accel_noise(ActivityKind::RunningHard), 1400);
}

#[test]
fn hr_boost_for_sitting() {
    // (185 - 68) bpm * 0.05 = 5.85 bpm, in milli-bpm.
    assert_eq!(activity_hr_boost(ActivityKind::Sitting, 68_000, 185_000), 5_850);
    assert_eq!(activity_hr_boost(ActivityKind::Sleep, 68_000, 185_000), 0);
}

#[test]
fn stress_boost_scales_by_eight() {
    // 0.7 * 8 bpm = 5.6 bpm, in milli-bpm.
    assert_eq!(stress_hr_boost(700), 5_600);
    assert_eq!(stress_hr_boost(0), 0);
}

#[test]
fn business_professional_baselines() {
    let p = business_professional();
    assert_eq!(p.resting_hr_milli, 68_000);
    assert_eq!(p.max_hr_milli, 185_000);
    assert_eq!(p.hrv_baseline_milli, 45_000);
    assert_eq!(p.baseline_temp_milli, 36_200);
    assert_eq!(p.baseline_eda_milli, 2_500);
    assert_eq!(p.stress_sensitivity_pm, 700);
    assert_eq!(p.activity_schedule.blocks.len(), 12);
    assert_eq!(p.exercise_frequency_per_week, 3);
}
