//! Chrona: a verified core for profile-driven physiological signal synthesis
//! and feature-based activity classification.
//!
//! All quantities are carried as fixed-point integers: physiological values in
//! milli-units (1 bpm = 1000), activity intensities in per-mille of full
//! exertion, and preference fractions in parts per million.

pub mod classify;
pub mod context;
pub mod core_types;
pub mod engine;
pub mod export;
pub mod ingest;
pub mod llm;
pub mod model;
pub mod presets;
pub mod profile;
pub mod sensors;
pub mod sim;
pub mod text;
pub mod ui;

pub use profile::ActivityKind;
