//! Core of a minimal windowed GPU application that clears the screen to a
//! fixed color each frame: the surface configuration and its resize rule,
//! the per-frame command plan, and the event-dispatch state machine.
//!
//! The platform window, the GPU device and the event loop themselves are
//! driven by an embedding program; this crate decides what they should do.

pub mod config;
pub mod dispatch;
pub mod event;
pub mod frame;
