//! Display-mode state and watch-face values for the tier displays.

use vstd::prelude::*;
use crate::core_types::Tier;
use crate::text::{RENDER_LIMIT, append_milli_0dp, spec_milli_0dp};

verus! {

/// Display mode: which tier or tiers to show.
#[derive(Debug, Clone, Copy, PartialEq, Eq, Structural)]
pub enum DisplayMode {
    /// Show only the lowest tier.
    Mini,
    /// Show only the middle tier.
    Regular,
    /// Show only the highest tier.
    Pro,
    /// Show the lowest and middle tiers side by side.
    MiniRegular,
    /// Show the middle and highest tiers side by side.
    RegularPro,
    /// Show all three tiers.
    Triple,
}

/// Messages a watch face emits.
#[derive(Debug, Clone, Copy, PartialEq, Eq, Structural)]
pub enum WatchFaceMessage {
    /// The activity complication was tapped.
    ActivityClicked,
}

/// Watch-face state.
#[derive(Debug, Clone, Copy, PartialEq, Eq, Structural)]
pub struct WatchFace {
    /// Whether the activity complication is shown.
    pub show_activity: bool,
}

/// The single-tier display mode selected when a tier's activity
/// complication is tapped.
pub fn mode_for_tier(tier: Tier) -> (r: DisplayMode)
    ensures
        tier == Tier::Mini8 ==> r == DisplayMode::Mini,
        tier == Tier::Standard16 ==> r == DisplayMode::Regular,
        tier == Tier::Pro32 ==> r == DisplayMode::Pro,
{
    match tier {
        Tier::Mini8 => DisplayMode::Mini,
        Tier::Standard16 => DisplayMode::Regular,
        Tier::Pro32 => DisplayMode::Pro,
    }
}

/// Baseline heart rate a tier display starts from, in milli-bpm.
pub fn tier_baseline_hr(tier: Tier) -> (r: u32)
    ensures
        tier == Tier::Mini8 ==> r == 70_000,
        tier == Tier::Standard16 ==> r == 72_000,
        tier == Tier::Pro32 ==> r == 74_000,
{
    match tier {
        Tier::Mini8 => 70_000,
        Tier::Standard16 => 72_000,
        Tier::Pro32 => 74_000,
    }
}

/// Text of a tier display's current value: the last sample in whole bpm,
/// or a placeholder before the first sample.
pub open spec fn spec_current_value_text(v: Option<i64>) -> Seq<char> {
    match v {
        Some(m) => spec_milli_0dp(m as int) + " bpm"@,
        None => "-- bpm"@,
    }
}

/// Render a tier display's current value from its last sample in
/// milli-bpm.
pub fn current_value_text(last_value_milli: Option<i64>) -> (r: String)
    requires
        last_value_milli matches Some(m) ==> -RENDER_LIMIT <= m <= RENDER_LIMIT,
    ensures
        r@ == spec_current_value_text(last_value_milli),
{
    match last_value_milli {
        Some(m) => {
            let mut t = String::new();
            append_milli_0dp(&mut t, m);
            t.append(" bpm");
            proof {
                assert(t@ =~= spec_current_value_text(last_value_milli));
            }
            t
        },
        None => String::from_str("-- bpm"),
    }
}

} // verus!
