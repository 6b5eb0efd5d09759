use chrona::classify::{
    ActivityClassifier, MotionRecord, accel_magnitude, classify_features, extract_features,
    gyro_magnitude, isqrt,
};

fn record(channels: [i64; 12]) -> MotionRecord {
    MotionRecord { channels: channels.to_vec(), activity: 1, subject: b"subject1".to_vec() }
}

#[test]
fn classify_empty_window_is_safe_default() {
    let window: Vec<MotionRecord> = vec![];
    assert_eq!(ActivityClassifier::classify(&window), (1, 0));
}

#[test]
fn features_low_motion_is_sitting_high_confidence() {
    // accel_rms = 0.2, gyro_rms = 0.05 in milli-units.
    assert_eq!(classify_features(200, 50), (2, 85));
}

#[test]
fn features_moderate_gyro_is_arm_elevation_low_confidence() {
    // accel_rms = 1.0, gyro_rms = 0.9.
    assert_eq!(classify_features(1000, 900), (7, 65));
}

#[test]
fn features_extreme_accel_is_running_high_confidence() {
    // accel_rms = 5.0.
    assert_eq!(classify_features(5000, 500), (11, 85));
    assert_eq!(classify_features(5000, 2000), (11, 85));
}

#[test]
fn features_decision_table_order() {
    assert_eq!(classify_features(200, 100).0, 1); // low accel, gyro at threshold
    assert_eq!(classify_features(1000, 500).0, 4); // walking
    assert_eq!(classify_features(2000, 1300).0, 5); // climbing stairs
    assert_eq!(classify_features(2000, 1100).0, 9); // cycling
    assert_eq!(classify_features(3200, 1200).0, 8); // crouching
    assert_eq!(classify_features(2700, 1200).0, 6); // bending
    assert_eq!(classify_features(4300, 500).0, 12); // jumping
    assert_eq!(classify_features(3700, 500).0, 10); // jogging
    assert_eq!(classify_features(3000, 500).0, 1); // no rule matched
}

#[test]
fn confidence_bands() {
    assert_eq!(classify_features(299, 0).1, 85);
    assert_eq!(classify_features(300, 0).1, 75);
    assert_eq!(classify_features(799, 0).1, 75);
    assert_eq!(classify_features(800, 0).1, 65);
    assert_eq!(classify_features(3500, 0).1, 65);
    assert_eq!(classify_features(3501, 0).1, 75);
    assert_eq!(classify_features(4501, 0).1, 85);
}

#[test]
fn isqrt_exact_values() {
    assert_eq!(isqrt(0), 0);
    assert_eq!(isqrt(1), 1);
    assert_eq!(isqrt(3), 1);
    assert_eq!(isqrt(4), 2);
    assert_eq!(isqrt(35), 5);
    assert_eq!(isqrt(36), 6);
    assert_eq!(isqrt(1_000_000), 1000);
    assert_eq!(isqrt(999_999), 999);
    assert_eq!(isqrt(u64::MAX as u128 * u64::MAX as u128), u64::MAX);
}

#[test]
fn magnitudes_are_euclidean_norms() {
    // Left accel (3, 4, 0), right accel (0, 0, 12): sqrt(9 + 16 + 144) = 13.
    let rec = record([3000, 4000, 0, 0, 0, 0, 0, 0, 12_000, 0, 0, 0]);
    assert_eq!(accel_magnitude(&rec), 13_000);
    assert_eq!(gyro_magnitude(&rec), 0);

    // Gyro channels only.
    let rec = record([0, 0, 0, 600, 800, 0, 0, 0, 0, 0, 0, 0]);
    assert_eq!(gyro_magnitude(&rec), 1000);
}

#[test]
fn two_stage_averaging_statistic() {
    // One record with accel magnitude 4.0: mean = 4.0, rms = sqrt(4.0) = 2.0.
    let rec = record([4000, 0, 0, 0, 0, 0, 0, 0, 0, 0, 0, 0]);
    let window = vec![rec];
    let (accel_rms, gyro_rms) = extract_features(&window);
    assert_eq!(accel_rms, 2000);
    assert_eq!(gyro_rms, 0);
}

#[test]
fn classify_still_window_is_sitting() {
    let window = vec![record([0; 12]), record([0; 12])];
    assert_eq!(ActivityClassifier::classify(&window), (2, 85));
}

#[test]
fn classify_energetic_window_is_running() {
    // Each record: accel magnitude 36.0 g, so rms = sqrt(36.0) = 6.0 > 4.5.
    let window = vec![record([36_000, 0, 0, 0, 0, 0, 0, 0, 0, 0, 0, 0])];
    let (label, confidence) = ActivityClassifier::classify(&window);
    assert_eq!(label, 11);
    assert_eq!(confidence, 85);
}
