//! Core of the tool: configuration model, errors, platform naming and
//! the connectivity decision.
pub mod errors;
pub mod config;
pub mod elements;
pub mod platform;
pub mod detect;
pub mod process;
