//! The user's settings and the file that keeps them.

pub mod config;
pub mod config_file;
