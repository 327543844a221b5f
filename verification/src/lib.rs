//! Turns three-finger trackpad gestures into a held-button mouse drag.
//!
//! The library holds the decisions: which device frames and timer signals an
//! input event calls for, and how the delayed-release timer answers each
//! signal. Reading the trackpad, writing to the virtual device and waiting on
//! the channel are left to the program that drives it.

pub mod fixed;
pub mod signal;
pub mod wire;
pub mod error;
pub mod virtual_trackpad;
pub mod timer;
pub mod config;
pub mod event;
pub mod event_handling;
pub mod libinput_init;
