//! Decision logic of a tray utility that keeps a Windows machine awake.
//!
//! The library holds what the program decides: which command-line flags were
//! given, what a launch does given whether another copy is running, the
//! execution-state flags that keep the system and the display on, the key
//! events of one F15 tap, the system command that switches the display off,
//! the bounded wait for a stopped copy to exit, and how the tray application
//! reacts to each of its events.

pub mod cli;
pub mod exit_wait;
pub mod keep_awake;
pub mod key_input;
pub mod launch;
pub mod monitor;
pub mod tray;
