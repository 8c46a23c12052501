//! Turns the decoded frames of a video into a still image or an animation.
//!
//! The library holds the decisions of the two-stage pipeline: which pixel
//! format the decoder output is converted to, how frame timestamps become
//! milliseconds, how large the frame channel is, how the encoder stage reacts
//! to each frame and to the end of the stream, and how the outcomes of the two
//! workers are combined. Decoding, native encoding and file I/O stay outside.

pub mod pixel;
pub mod formats;
pub mod timing;
pub mod run;
pub mod frames;
pub mod pipeline;
pub mod task;
pub mod avif;
pub mod cli;
pub mod text;
pub mod webp;
