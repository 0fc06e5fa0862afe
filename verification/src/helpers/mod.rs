//! Helpers shared by the commands.

pub mod filesystem;
pub mod user_input;
pub mod help;
pub mod config;
pub mod docker;
