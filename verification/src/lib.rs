//! Build-cache and step-execution engine for a buildpack.
//!
//! The engine fingerprints the inputs that control a cached artifact,
//! decides whether a stored artifact may be reused or must be rebuilt,
//! models the execution of the external command that regenerates an
//! artifact, and classifies every failure into a closed taxonomy.

pub mod cache;
pub mod classify;
pub mod fingerprint;
pub mod hex;
pub mod layer;
pub mod metadata;
pub mod pipeline;
pub mod runner;
pub mod strategy;
