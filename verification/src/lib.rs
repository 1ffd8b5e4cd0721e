//! Supervision of a long-running child development process: watched source
//! files change on disk, a debounce filter decides which change events are
//! real triggers, and an accepted trigger writes a fixed reload command to
//! the child's control stream.

pub mod config;
pub mod control;
pub mod debounce;
pub mod event;
pub mod orchestrator;
