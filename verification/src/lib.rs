//! Core of a cross-platform screen-capture trigger engine.
//!
//! The library holds the decision logic of the engine: debouncing repeated
//! triggers, tracking the pressed state of a key combination, planning the
//! platform-specific capture invocation (including the ordered fallback chain
//! of external tools), computing the destination path of the captured image,
//! and shaping the outcome that is reported to a consumer.  Spawning the
//! external tools, installing the global key hook and writing files are left
//! to a thin unverified shell around the library.

pub mod cooldown;
pub mod dispatch;
pub mod engine;
pub mod keys;
pub mod outcome;
pub mod timefmt;
