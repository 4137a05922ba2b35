//! Core of a background render loop that drives a GPU-backed presentation
//! surface bound to an application window.
//!
//! The library holds the loop's decision logic: capability negotiation with
//! deterministic fallback preferences, surface reconfiguration with size
//! clamping, the per-tick frame state machine with differentiated error
//! recovery, the shared stop/resize signalling protocol, and the animated
//! clear color. The host side performs the actual GPU and windowing calls
//! and feeds their outcomes back into these functions.

pub mod caps;
pub mod color;
pub mod config;
pub mod control;
pub mod frame;
pub mod signal;
