//! Startup logic of the Coda Dashboard desktop shell.
//!
//! The shell itself is driven by a desktop application framework: it opens
//! the window, hosts the webview and owns the event loop. What this crate
//! holds is every decision that the shell takes while it starts: whether a
//! logging plugin is attached and at which threshold, which records are
//! written and in which order, when setup is reported as failed, and what
//! happens when the event loop ends. The decisions are a state machine,
//! [`bootstrap::Bootstrap`]; the caller performs each action it hands out
//! and reports back what happened.

pub mod record;

pub mod bootstrap;

pub mod trace;

pub mod commands;
