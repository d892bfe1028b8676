//! The control core of a PC-to-headset VR streaming system, in fixed-point integer arithmetic.
//!
//! Every quantity is an unsigned integer in a fixed unit: durations and instants in
//! nanoseconds, bitrates in bits per second, frame rates in micro-hertz and ratios in
//! parts per million.

pub mod ap_stats;
pub mod average;
pub mod bitrate;
pub mod connection;
pub mod nestvr_profiles;
pub mod response_handler;
pub mod settings;
pub mod stream;
pub mod units;
