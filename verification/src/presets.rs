//! Named preset profiles.

use vstd::prelude::*;
use crate::profile::{
    ActivityKind, DailySchedule, ExerciseType, FitnessLevel, IntensityDistribution, ProfileType,
    ScheduleBlock, UserProfile,
};

verus! {

/// The business-professional day: sleep, a standing morning hour, long
/// sitting stretches, a lunchtime walk and a brisk evening walk.
pub open spec fn spec_business_schedule() -> Seq<ScheduleBlock> {
    seq![
        (ScheduleBlock { start_minute: 0, duration_min: 360, kind: ActivityKind::Sleep }),
        (ScheduleBlock { start_minute: 360, duration_min: 60, kind: ActivityKind::Standing }),
        (ScheduleBlock { start_minute: 420, duration_min: 60, kind: ActivityKind::Sitting }),
        (ScheduleBlock { start_minute: 480, duration_min: 240, kind: ActivityKind::Sitting }),
        (ScheduleBlock { start_minute: 720, duration_min: 25, kind: ActivityKind::Sitting }),
        (ScheduleBlock { start_minute: 745, duration_min: 35, kind: ActivityKind::WalkingSlow }),
        (ScheduleBlock { start_minute: 780, duration_min: 240, kind: ActivityKind::Sitting }),
        (ScheduleBlock { start_minute: 1020, duration_min: 60, kind: ActivityKind::WalkingBrisk }),
        (ScheduleBlock { start_minute: 1080, duration_min: 60, kind: ActivityKind::Standing }),
        (ScheduleBlock { start_minute: 1140, duration_min: 120, kind: ActivityKind::Sitting }),
        (ScheduleBlock { start_minute: 1260, duration_min: 60, kind: ActivityKind::Sitting }),
        (ScheduleBlock { start_minute: 1320, duration_min: 180, kind: ActivityKind::Sleep }),
    ]
}

/// Create a business-professional profile: sedentary office schedule, low
/// fitness, high stress sensitivity.
///
/// The returned profile is well formed and its intensity preference is
/// normalized.
pub fn business_professional() -> (r: UserProfile)
    ensures
        r.wf(),
        r.profile_type == ProfileType::BusinessProfessional,
        r.age == 35,
        r.fitness_level == FitnessLevel::Low,
        r.resting_hr_milli == 68_000,
        r.max_hr_milli == 185_000,
        r.hrv_baseline_milli == 45_000,
        r.baseline_temp_milli == 36_200,
        r.baseline_eda_milli == 2_500,
        r.typical_sleep_start_min == 1350,
        r.typical_sleep_duration_min == 450,
        r.stress_sensitivity_pm == 700,
        r.activity_schedule.blocks@ =~= spec_business_schedule(),
        r.exercise_types@ =~= seq![ExerciseType::Running, ExerciseType::Gym,
            ExerciseType::BriskWalking],
        r.exercise_frequency_per_week == 3,
        r.exercise_intensity_pref == (IntensityDistribution {
            low: 300_000,
            moderate: 500_000,
            high: 200_000,
        }),
{
    let mut blocks: Vec<ScheduleBlock> = Vec::new();
    blocks.push(ScheduleBlock { start_minute: 0, duration_min: 360, kind: ActivityKind::Sleep });
    blocks.push(ScheduleBlock { start_minute: 360, duration_min: 60, kind: ActivityKind::Standing });
    blocks.push(ScheduleBlock { start_minute: 420, duration_min: 60, kind: ActivityKind::Sitting });
    blocks.push(ScheduleBlock { start_minute: 480, duration_min: 240, kind: ActivityKind::Sitting });
    blocks.push(ScheduleBlock { start_minute: 720, duration_min: 25, kind: ActivityKind::Sitting });
    blocks.push(
        ScheduleBlock { start_minute: 745, duration_min: 35, kind: ActivityKind::WalkingSlow },
    );
    blocks.push(ScheduleBlock { start_minute: 780, duration_min: 240, kind: ActivityKind::Sitting });
    blocks.push(
        ScheduleBlock { start_minute: 1020, duration_min: 60, kind: ActivityKind::WalkingBrisk },
    );
    blocks.push(
        ScheduleBlock { start_minute: 1080, duration_min: 60, kind: ActivityKind::Standing },
    );
    blocks.push(
        ScheduleBlock { start_minute: 1140, duration_min: 120, kind: ActivityKind::Sitting },
    );
    blocks.push(
        ScheduleBlock { start_minute: 1260, duration_min: 60, kind: ActivityKind::Sitting },
    );
    blocks.push(ScheduleBlock { start_minute: 1320, duration_min: 180, kind: ActivityKind::Sleep });

    let mut exercise_types: Vec<ExerciseType> = Vec::new();
    exercise_types.push(ExerciseType::Running);
    exercise_types.push(ExerciseType::Gym);
    exercise_types.push(ExerciseType::BriskWalking);

    let pref = IntensityDistribution { low: 300_000, moderate: 500_000, high: 200_000 }
        .normalized();
    proof {
        assert(300_000int * 1_000_000 / 1_000_000 == 300_000) by (nonlinear_arith);
        assert(500_000int * 1_000_000 / 1_000_000 == 500_000) by (nonlinear_arith);
        assert(200_000int * 1_000_000 / 1_000_000 == 200_000) by (nonlinear_arith);
    }
    UserProfile {
        profile_type: ProfileType::BusinessProfessional,
        age: 35,
        fitness_level: FitnessLevel::Low,
        resting_hr_milli: 68_000,
        max_hr_milli: 185_000,
        hrv_baseline_milli: 45_000,
        baseline_temp_milli: 36_200,
        baseline_eda_milli: 2_500,
        typical_sleep_start_min: 22 * 60 + 30,
        typical_sleep_duration_min: 7 * 60 + 30,
        activity_schedule: DailySchedule { blocks },
        stress_sensitivity_pm: 700,
        exercise_types,
        exercise_frequency_per_week: 3,
        exercise_intensity_pref: pref,
    }
}

} // verus!
