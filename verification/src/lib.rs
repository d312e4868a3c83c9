//! Decision logic of a desktop application's native shell.
//!
//! The platform layer asks the operating system for well-known directories
//! (application data, user documents) and hands the outcome over as plain
//! text. This crate shapes what the shell does with such an outcome: the
//! reply a frontend-callable directory command sends back, the one
//! best-effort log line written at startup, and the fixed set of plugins
//! and commands the shell registers.

pub mod logline;
pub mod lookup;
pub mod startup;
