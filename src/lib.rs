//! Idle detection and notification delivery for a desktop activity tracker.
//!
//! The library holds the decisions: how an idle sample is classified, when the
//! monitor reports a change, which channel and title a notification gets, and
//! which sound (a file, a generated tone, or nothing) accompanies it. Sampling
//! the OS, rendering notifications and driving the audio device happen outside.

pub mod text;

pub mod commands;
pub mod constants;
pub mod idle;
pub mod notification;
pub mod sound;
