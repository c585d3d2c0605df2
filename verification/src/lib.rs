//! Verified core of a small interactive file-compression tool.
//!
//! The library holds everything that can be reasoned about as pure logic:
//! the compression-level presets, the progress-message protocol emitted by a
//! running job, the transform engine that accounts progress in fixed chunks
//! and drives the codec, the
//! derivation of output paths, the decimal formatting of sizes and ratios,
//! and the controller state machine that reacts to key presses and job
//! messages.  File and terminal I/O, threads, and the channel plumbing live
//! outside the library and only hand plain values in and out.

pub mod codec;
pub mod controller;
pub mod engine;
pub mod level;
pub mod message;
pub mod paths;
pub mod textfmt;

pub use controller::{ControllerState, KeyAction, PickRequest};
pub use engine::{Direction, Job};
pub use level::CompressionLevel;
pub use message::CompressMessage;
