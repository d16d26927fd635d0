//! Intake and validation of sky-rendering jobs.
pub mod configuration;
pub mod filters;
pub mod intake;
pub mod render_job;
pub mod scalar;
