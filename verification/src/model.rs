//! Inference shims: the model interface its users implement, and a no-op
//! model for wiring.

use vstd::prelude::*;
use crate::core_types::Sample;

verus! {

/// Basic interface for running a model over a window of samples. What a
/// real model returns is its own affair; the interface only shapes the
/// call.
pub trait Model {
    /// Human-readable model id.
    fn id(&self) -> &str;

    /// Run inference over a slice of samples, returning a score in
    /// milli-units.
    fn infer(&self, window: &[Sample]) -> i64;
}

/// No-op model for wiring.
pub struct NoopModel;

impl NoopModel {
    /// The no-op model's score: always zero.
    pub fn score(&self, window: &[Sample]) -> (r: i64)
        ensures
            r == 0,
    {
        let _ = window;
        0
    }
}

impl Model for NoopModel {
    fn id(&self) -> &str {
        "noop"
    }

    fn infer(&self, window: &[Sample]) -> i64 {
        self.score(window)
    }
}

} // verus!
