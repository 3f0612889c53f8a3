//! Versioned generation of backward-compatibility fixtures: parameter records,
//! the per-release artifact tables, the output tree that guards against
//! overwrites, and the manifests that tie every artifact to the release and
//! module that produced it.
pub mod adapters;
pub mod error;
pub mod metadata;
pub mod orchestrator;
pub mod params;
pub mod plan;
pub mod store;
