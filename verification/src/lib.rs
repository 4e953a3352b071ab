//! Instrumented driver logic for an external, declarative build tool.
//!
//! The crate classifies the tool's diagnostic output into typed events,
//! folds those events into a list of filesystem paths that a watcher must
//! observe, builds the exact command line for the instrumented evaluation,
//! and assembles the final build result together with the handle that keeps
//! its garbage-collection root alive.

pub mod builder;
pub mod classify;
pub mod cli;
pub mod error;
pub mod watch;
