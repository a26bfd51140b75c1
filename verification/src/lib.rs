//! Supervises an interactive terminal program running inside a pseudo
//! terminal: keystrokes and output are relayed unmodified, while the output
//! stream is classified into busy/idle activity and an inferred editor input
//! mode, with debounced transition events for notification hooks.
//!
//! This crate holds the verified core: the output classification state
//! machine, the busy-indicator and mode-signature matchers, the shared mode
//! cell, and the builders for hook command lines. The process wrapper around
//! it (PTY allocation, relay loops, configuration files) performs only I/O
//! and defers every decision to functions of this crate.

pub mod config;
pub mod input;
pub mod monitor;
pub mod state;
