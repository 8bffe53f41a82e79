//! Decision logic of a build-delegate worker node.
//!
//! The node registers with a coordinator, prepares a checkout of a
//! repository at a revision, builds one target and returns the artifact.
//! This crate holds every decision of that job as verified state machines
//! over plain values; it performs no input or output itself. A driver
//! carries out the `Action`s it is handed and reports what happened.

pub mod messages;
pub mod command;
pub mod effect;
pub mod text;
pub mod naming;
pub mod bootstrap;
pub mod compile;
pub mod session;
pub mod endpoint;
