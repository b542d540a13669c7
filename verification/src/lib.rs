//! Decision logic for streaming one still image, frame after frame, into the
//! standard input of a video encoder.

pub mod config;
pub mod pacing;
pub mod stream;
pub mod supervisor;
pub mod text;
pub mod transcode;
pub mod validate;
pub mod watcher;
