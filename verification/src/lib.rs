//! Core logic of a desktop countdown-timer application.
//!
//! The surrounding program is owned by a GUI host framework: command
//! dispatch, the window and its event channel, the background thread and
//! the schedule file all live there. What this crate holds is the part
//! that decides: the countdown state machine that a polling loop drives
//! (which value to show next, and when to halt), the shared stop flag
//! that cancels a run, and the fallback applied when no schedule store
//! could be read.

pub mod schedules;
pub mod timer;
