//! Orchestration core of a coverage-guided fuzzing harness manager for the
//! Move virtual machine.
//!
//! The crate compiles a structured build configuration into a canonical,
//! reversible token plan, marshals typed values into tagged wire arguments
//! for the virtual machine, keeps a registry of declared fuzz targets, and
//! decides, for every top-level command, which single subprocess invocation
//! the surrounding binary has to perform.

pub mod commands;
pub mod move_args;
pub mod options;
pub mod plan;
pub mod plan_laws;
pub mod project;
pub mod strutil;
