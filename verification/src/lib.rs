//! Verified core of a size-targeted video transcoder.
//!
//! The library models hardware encoder capabilities, decides fallback between
//! encoders when attempts fail, turns a target output size into encoder
//! parameters, and drives the retry loop of an encoding session. Everything
//! that talks to the outside world (the encoder process, hardware probes, the
//! file system) lives outside this crate and hands plain values in and out.

pub mod capabilities;
pub mod cli;
pub mod detection;
pub mod encoders;
pub mod engine;
pub mod error;
pub mod estimator;
pub mod fallback;
pub mod format;
pub mod invocation;
pub mod metadata;
pub mod paths;
pub mod progress;
pub mod settings;
pub mod size_presets;
pub mod system_info;
pub mod text;
