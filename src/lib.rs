//! Decision logic of a native shell that drives an immediate-mode UI on a
//! window: classification of window, device and repaint events, the repaint
//! deadline, the close handshake and the order of a frame's GPU work.
//!
//! Moments are `u64` nanoseconds on the shell's monotonic clock, counted from
//! the moment the shell started.

pub mod event;
pub mod scheduler;
pub mod input;
pub mod window;
pub mod clipboard;
pub mod output;
pub mod paint;
pub mod state;
