//! Orchestration of a self-update of the desktop GUI: where the new build is
//! published, the per-attempt state machine that fetches, verifies and installs
//! it, and the best-effort shared status that the UI reads.
pub mod laws;
pub mod location;
pub mod progress;
pub mod session;
