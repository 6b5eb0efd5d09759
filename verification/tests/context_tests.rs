use chrona::classify::MotionRecord;
use chrona::context::{
    ActivityContext, LlmSensorContext, build_mini_prompt, build_prompt_for_tier, label_intensity,
    label_name,
};
use chrona::core_types::Tier;
use chrona::llm::{NoopLlm, Prompt, compose_full_prompt, tier_llm_params};

fn sample_context() -> ActivityContext {
    ActivityContext {
        activity: 2,
        activity_name: String::from("sitting"),
        confidence_pct: 85,
        predicted_hr: 72,
        intensity_pm: 50,
    }
}

#[test]
fn narrative_with_elevated_rate() {
    let ctx = sample_context();
    assert_eq!(
        ctx.to_llm_context(70),
        "Activity: sitting (confidence 85%). HR: 72 bpm, elevated."
    );
}

#[test]
fn narrative_delta_wording() {
    let mut ctx = sample_context();
    ctx.predicted_hr = 85;
    assert_eq!(
        ctx.to_llm_context(70),
        "Activity: sitting (confidence 85%). HR: 85 bpm, significantly elevated."
    );
    ctx.predicted_hr = 65;
    assert_eq!(
        ctx.to_llm_context(70),
        "Activity: sitting (confidence 85%). HR: 65 bpm, normal."
    );
}

#[test]
fn mini_prompt_wraps_context() {
    let ctx = sample_context();
    let (system, user) = build_mini_prompt(&ctx, 70);
    assert_eq!(
        user,
        "Activity: sitting (confidence 85%). HR: 72 bpm, elevated.. Brief status check in one sentence."
    );
    assert!(system.starts_with("You are a health assistant. Provide a concise answer."));
}

#[test]
fn mini_prompt_degrades_without_context() {
    let (_, user) = build_prompt_for_tier(Tier::Mini8, None, 70, "ignored");
    assert_eq!(
        user,
        "Activity context unavailable.. Brief status check in one sentence."
    );
}

#[test]
fn higher_tiers_pass_question_through() {
    let (system, user) =
        build_prompt_for_tier(Tier::Standard16, None, 70, "Why is my heart rate this value?");
    assert_eq!(user, "Why is my heart rate this value?");
    assert!(system.contains("past few weeks"));

    let (system, user) = build_prompt_for_tier(Tier::Pro32, None, 70, "Any trends?");
    assert_eq!(user, "Any trends?");
    assert!(system.contains("multiple months"));
}

#[test]
fn from_record_still_record_is_sitting() {
    let record = MotionRecord {
        channels: vec![0; 12],
        activity: 2,
        subject: b"subject1".to_vec(),
    };
    let ctx = ActivityContext::from_record(&record, 70);
    assert_eq!(ctx.activity, 2);
    assert_eq!(ctx.activity_name, "sitting");
    assert_eq!(ctx.confidence_pct, 85);
    assert_eq!(ctx.intensity_pm, 50);
    // 70 + (180 - 70) * 0.05 = 75.5, truncated to 75.
    assert_eq!(ctx.predicted_hr, 75);
}

#[test]
fn label_tables() {
    assert_eq!(label_name(1), "standing");
    assert_eq!(label_name(5), "climbing stairs");
    assert_eq!(label_name(12), "jumping");
    assert_eq!(label_name(99), "unknown");
    assert_eq!(label_intensity(3), 0);
    assert_eq!(label_intensity(11), 850);
}

#[test]
fn snapshot_narrative_field_order_and_units() {
    let ctx = LlmSensorContext {
        activity: String::from("sitting"),
        hr_milli: 72_400,
        hrv_milli: 44_600,
        eda_milli: 2_537,
        temp_milli: 36_190,
        accel_milli: 1_024,
        stress_milli: 250,
        exercise_flag: false,
    };
    assert_eq!(
        ctx.to_llm_context(),
        "Activity: sitting. HR: 72 bpm. HRV: 45 ms. EDA: 2.54 μS. Temp: 36.19°C. Accel: 1.02g. Stress: 0.25. Exercise: no."
    );
}

#[test]
fn snapshot_narrative_exercise_yes() {
    let ctx = LlmSensorContext {
        activity: String::from("running"),
        hr_milli: 150_000,
        hrv_milli: 20_000,
        eda_milli: 3_000,
        temp_milli: 36_000,
        accel_milli: 4_800,
        stress_milli: 700,
        exercise_flag: true,
    };
    assert_eq!(
        ctx.to_llm_context(),
        "Activity: running. HR: 150 bpm. HRV: 20 ms. EDA: 3.00 μS. Temp: 36.00°C. Accel: 4.80g. Stress: 0.70. Exercise: yes."
    );
}

#[test]
fn noop_llm_answers_heart_questions() {
    let llm = NoopLlm;
    let prompt = Prompt { tier: Tier::Mini8, user: "Why is my HEART rate this value?", system: "" };
    let response = llm.respond(prompt);
    assert_eq!(response.model, "noop-llm");
    assert_eq!(
        response.text,
        "Your heart rate is within normal range. Continue monitoring. Regular exercise helps maintain cardiovascular health."
    );
}

#[test]
fn noop_llm_generic_answer_names_tier() {
    let llm = NoopLlm;
    let prompt = Prompt { tier: Tier::Standard16, user: "What about sleep?", system: "" };
    let response = llm.respond(prompt);
    assert_eq!(
        response.text,
        "Running tier Standard16 analysis on your query. More specific prompts yield better results."
    );
}

#[test]
fn llm_params_scale_with_tier() {
    assert_eq!(tier_llm_params(Tier::Mini8), (256, 64));
    assert_eq!(tier_llm_params(Tier::Standard16), (512, 128));
    assert_eq!(tier_llm_params(Tier::Pro32), (1024, 256));
}

#[test]
fn full_prompt_composition() {
    assert_eq!(compose_full_prompt("", "question"), "question");
    assert_eq!(compose_full_prompt("system", "question"), "system\n\nquestion");
}
