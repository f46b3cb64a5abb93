//! Live tick mixing and pipeline feeding for a voice-to-stream bridge.
//!
//! Every 20 ms window of a voice conversation (a tick) is combined into one
//! fixed-size interleaved PCM frame, activity changes are reported once per
//! edge, and the frame is handed to a running output graph whose lifecycle is
//! tracked as a small state machine.

pub mod activity;
pub mod config;
pub mod frame;
pub mod identity;
pub mod mixer;
pub mod pipeline;
pub mod receiver;
pub mod tick;
