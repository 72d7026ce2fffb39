//! Shared status type and the content-matching connectivity probe.
pub mod status;
pub mod detect;
