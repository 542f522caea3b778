//! A supervisor for one bundled backend process.
//!
//! The library decides; its caller performs. Each operation on the
//! [`supervisor::Supervisor`] is a short exchange: the supervisor names the
//! next action (find the running executable, look for a file, spawn a
//! process, kill one), the caller carries it out and answers with what
//! happened, until the supervisor reports the operation's result.

pub mod error;
pub mod launch;
pub mod laws;
pub mod model;
pub mod path;
pub mod platform;
pub mod protocol;
pub mod supervisor;
