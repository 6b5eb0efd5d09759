//! Prompts, responses and language-model engines.
//!
//! The engine trait is the seam its users implement: a real engine runs an
//! external model binary, the no-op engine answers from fixed text and is
//! fully verified here.

use vstd::prelude::*;
use crate::core_types::Tier;
use crate::text::{spec_contains, str_contains};

verus! {

/// Request to the LLM layer.
pub struct Prompt<'a> {
    /// Tier to inform context limits.
    pub tier: Tier,
    /// User-visible question or instruction.
    pub user: &'a str,
    /// Optional system guidance.
    pub system: &'a str,
}

/// Response from the LLM layer.
pub struct Response {
    /// Model identifier.
    pub model: String,
    /// Plain text reply.
    pub text: String,
}

/// Trait for LLM engines. An engine only promises that every request
/// returns some response; what the text says is the engine's affair.
pub trait LlmEngine {
    /// Model identifier.
    fn model_id(&self) -> &str;

    /// Execute a prompt and return a response.
    fn run(&self, prompt: Prompt) -> Response;
}

/// Lower-case folding of a character sequence, as `str::to_lowercase`
/// computes it; the result depends on the characters alone.
pub uninterp spec fn lower_of(s: Seq<char>) -> Seq<char>;

/// Relies on str::to_lowercase: the Unicode lower-case form of the string,
/// a function of the characters alone.
#[verifier::external_body]
fn lowercase(s: &str) -> (r: String)
    ensures
        r@ == lower_of(s@),
{
    s.to_lowercase()
}

/// Debug name of a tier.
pub open spec fn spec_tier_name(t: Tier) -> Seq<char> {
    match t {
        Tier::Mini8 => "Mini8"@,
        Tier::Standard16 => "Standard16"@,
        Tier::Pro32 => "Pro32"@,
    }
}

/// The debug name of a tier as a string slice.
pub fn tier_name(t: Tier) -> (r: &'static str)
    ensures
        r@ == spec_tier_name(t),
{
    match t {
        Tier::Mini8 => "Mini8",
        Tier::Standard16 => "Standard16",
        Tier::Pro32 => "Pro32",
    }
}

/// Text of the no-op engine's reply: a fixed heart-rate answer when the
/// lower-cased question mentions "heart", otherwise a generic line naming
/// the tier.
pub open spec fn spec_noop_text(tier: Tier, lowered: Seq<char>) -> Seq<char> {
    if spec_contains(lowered, "heart"@) {
        "Your heart rate is within normal range. Continue monitoring. Regular exercise helps maintain cardiovascular health."@
    } else {
        "Running tier "@ + spec_tier_name(tier)
            + " analysis on your query. More specific prompts yield better results."@
    }
}

/// No-op engine for testing and tier setup: a graceful fallback when no
/// real model is available.
pub struct NoopLlm;

impl NoopLlm {
    /// Answer a prompt from fixed text: the reply depends only on the tier
    /// and on whether the lower-cased question mentions "heart".
    pub fn respond(&self, prompt: Prompt) -> (r: Response)
        ensures
            r.model@ == "noop-llm"@,
            r.text@ == spec_noop_text(prompt.tier, lower_of(prompt.user@)),
    {
        let lowered = lowercase(prompt.user);
        let text: String = if str_contains(lowered.as_str(), "heart") {
            String::from_str(
                "Your heart rate is within normal range. Continue monitoring. Regular exercise helps maintain cardiovascular health.",
            )
        } else {
            let mut t = String::from_str("Running tier ");
            t.append(tier_name(prompt.tier));
            t.append(" analysis on your query. More specific prompts yield better results.");
            proof {
                assert(t@ =~= spec_noop_text(prompt.tier, lower_of(prompt.user@)));
            }
            t
        };
        Response { model: String::from_str("noop-llm"), text }
    }
}

impl LlmEngine for NoopLlm {
    fn model_id(&self) -> &str {
        "noop-llm"
    }

    fn run(&self, prompt: Prompt) -> Response {
        self.respond(prompt)
    }
}

/// Context window and token budget that a real engine grants each tier.
pub fn tier_llm_params(tier: Tier) -> (r: (u32, u32))
    ensures
        tier == Tier::Mini8 ==> r == (256u32, 64u32),
        tier == Tier::Standard16 ==> r == (512u32, 128u32),
        tier == Tier::Pro32 ==> r == (1024u32, 256u32),
{
    match tier {
        Tier::Mini8 => (256, 64),
        Tier::Standard16 => (512, 128),
        Tier::Pro32 => (1024, 256),
    }
}

/// The full prompt handed to a model binary: the user text alone when there
/// is no system guidance, else the system text, a blank line and the user
/// text.
pub open spec fn spec_full_prompt(system: Seq<char>, user: Seq<char>) -> Seq<char> {
    if system.len() == 0 {
        user
    } else {
        system + "\n\n"@ + user
    }
}

/// Compose the full prompt text for a model binary.
pub fn compose_full_prompt(system: &str, user: &str) -> (r: String)
    ensures
        r@ == spec_full_prompt(system@, user@),
{
    if system.unicode_len() == 0 {
        String::from_str(user)
    } else {
        let mut t = String::from_str(system);
        t.append("\n\n");
        t.append(user);
        proof {
            assert(t@ =~= spec_full_prompt(system@, user@));
        }
        t
    }
}

} // verus!
