//! Idle detection and pointer jiggling, as a verified state machine.
//!
//! `control` holds what the control surface and the background loop share:
//! the running flag and the two timing settings. `activity` holds the loop's
//! private state and decides, event by event, what the loop does next. The
//! program around the library performs the pointer reads, moves and sleeps.
//! `message` gives each status event its text, and `tray` what the tray menu
//! shows for a running state.

pub mod control;
pub mod activity;
pub mod message;
pub mod tray;
