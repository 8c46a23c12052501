//! The WebP output format: still images and animations.

pub mod config;
pub mod errors;
pub mod options;
pub mod task;
pub mod types;
