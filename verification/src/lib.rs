//! Project tooling core: submodule inventory and reconciliation planning,
//! configuration defaults, path resolution, prompt handling and the command
//! dispatch of a multi-service project kept as git submodules.
//!
//! The library decides and computes; it performs no input or output beyond
//! asking the file system whether a path exists. Every effect that a command
//! needs comes back to the caller as a value that names it.

pub mod controller;
pub mod error;
pub mod helpers;
pub mod models;
pub mod text;
