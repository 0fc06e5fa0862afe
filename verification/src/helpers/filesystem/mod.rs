//! Paths inside the project.

pub mod dir;
pub mod path;
