//! A gamified desk-exercise tracker: an experience curve with per-exercise
//! levels, a daily streak state machine, a monotonic achievement ruleset,
//! and the atomic progress transaction that ties them together.

pub mod curve;
pub mod config;
pub mod date;
pub mod engine;
pub mod gui;
pub mod models;
pub mod notify;
pub mod random;
pub mod sched;
pub mod rules;
pub mod snapshot;
pub mod store;
pub mod streak;
pub mod text;
pub mod tray;
