//! Resolution and execution planning for system-wide update programs.
//!
//! An ecosystem (the packages of a Linux distribution, a language toolchain)
//! is usually served by several interchangeable update programs. This crate
//! decides which of them to run: it keeps a table of candidate programs per
//! family, probes which of them are installed, selects one by preference with
//! a deterministic fallback, and describes the child process to start. Running
//! the process is left to the caller, who reports the outcome back so that the
//! router can assemble one report per family.

pub mod descriptor;
pub mod availability;
pub mod selection;
pub mod execution;
pub mod report;
pub mod router;
pub mod config;
pub mod package_manager;
pub mod os;
pub mod language;
pub mod engine;

pub use crate::engine::{available_program, update};
pub use crate::execution::execute_update;
pub use crate::package_manager::{Available, PackageManager, UpdateRoutine};
