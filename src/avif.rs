//! The AVIF output format: still images and image sequences.

pub mod codec;
pub mod error;
pub mod settings;
pub mod task;
