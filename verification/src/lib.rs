//! Core data model for a depth/normal prepass render phase: totally ordered
//! sort keys over view-space distances, phase-item records with a stable
//! linear-time sort, and the per-view prepass texture presence rules.

pub mod handles;
pub mod phase;
pub mod prepass;
pub mod sort;
pub mod sort_key;
pub mod textures;
