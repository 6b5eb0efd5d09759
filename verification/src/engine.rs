//! High-level orchestrator tying a sensor, a store, a model and an LLM
//! engine together for one tier.

use vstd::prelude::*;
use crate::core_types::{Sample, Tier};
use crate::llm::{LlmEngine, Prompt, Response};
use crate::model::Model;
use crate::sensors::Sensor;

verus! {

/// High-level orchestrator for one tier.
pub struct Engine<S, T, M, L> where S: Sensor, M: Model, L: LlmEngine {
    /// The tier this engine represents.
    pub tier: Tier,
    /// The sensor instance.
    pub sensor: S,
    /// The time-series storage.
    pub store: T,
    /// The ML model.
    pub model: M,
    /// The LLM engine.
    pub llm: L,
}

/// User text of the fixed per-step prompt.
pub open spec fn spec_step_user() -> Seq<char> {
    "Explain the latest score"@
}

/// System text of the fixed per-step prompt.
pub open spec fn spec_step_system() -> Seq<char> {
    "Keep it short"@
}

/// Text answered when the sensor had no sample.
pub open spec fn spec_no_data_text() -> Seq<char> {
    "No data"@
}

/// The fixed lightweight prompt one step sends.
pub fn step_prompt(tier: Tier) -> (r: Prompt<'static>)
    ensures
        r.tier == tier,
        r.user@ == spec_step_user(),
        r.system@ == spec_step_system(),
{
    Prompt { tier, user: "Explain the latest score", system: "Keep it short" }
}

/// The response answered when the sensor had no sample.
pub fn no_data_response(model_id: &str) -> (r: Response)
    ensures
        r.model@ == model_id@,
        r.text@ == spec_no_data_text(),
{
    Response { model: String::from_str(model_id), text: String::from_str("No data") }
}

impl<S, T, M, L> Engine<S, T, M, L> where S: Sensor, M: Model, L: LlmEngine {
    /// Poll the sensor, score the sample, and send the fixed lightweight
    /// prompt; without a sample, answer "No data" under the engine's model
    /// id. What the engine's own parts answer is theirs to decide; the step
    /// leaves the tier unchanged.
    pub fn step(&mut self) -> (r: Response)
        ensures
            final(self).tier == old(self).tier,
    {
        let polled = self.sensor.poll();
        match polled {
            Some(sample) => {
                let mut window: Vec<Sample> = Vec::new();
                window.push(sample);
                let _score = self.model.infer(window.as_slice());
                let prompt = step_prompt(self.tier);
                self.llm.run(prompt)
            },
            None => no_data_response(self.llm.model_id()),
        }
    }
}

} // verus!
