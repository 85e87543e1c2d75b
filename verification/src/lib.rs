//! Verified core of an asynchronous terminal-UI runtime.
//!
//! The crate models the runtime's coordination protocol: a closed set of
//! [`action::Action`] values, the shared application model with its
//! dispatch state machine, and the drain-and-dispatch cycle that empties
//! the action queue into the model. Terminal I/O, task spawning and the
//! channel plumbing live outside this library and call into it for every
//! decision.

pub mod action;
pub mod home;
pub mod paths;
pub mod runtime;
