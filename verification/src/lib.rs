//! Proactive Agent core: setup readiness, artifact catalogs, deferred
//! follow-ups, context assembly, transcript and speech text handling.

pub mod audio;
pub mod binary_store;
pub mod clock;
pub mod commands;
pub mod constants;
pub mod models;
pub mod monitor;
pub mod orchestrator;
pub mod paths;
pub mod platform;
pub mod setup;
pub mod sidecar;
pub mod text;
