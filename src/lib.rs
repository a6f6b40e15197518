//! A worker that carries out one pending deployment: clone a project, let an
//! editing tool change it under a time budget, publish the result and record
//! the revision that was pushed.
//!
//! The library decides; the caller performs. `deployment` is a state machine
//! from events (how the last outside operation ended) to actions (the next
//! operation to perform), and `config` turns configuration values into paths
//! and program names.

pub mod config;
pub mod deployment;
pub mod laws;
pub mod text;
