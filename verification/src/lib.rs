//! Plan-driven file transfer.
//!
//! A plan names a set of files. A pick-up copies them from an external
//! directory into a staging directory named after the plan; a drop-off copies
//! them from staging out to an external directory. This library holds every
//! decision of the two operations and touches no file itself: it asks its
//! caller for one action on the file system at a time and goes on from what
//! came of it.
//!
//! - [`plan`]: the plan and what a manifest must satisfy to give one;
//! - [`path`]: paths as text;
//! - [`commands`]: pick-up and drop-off, step by step;
//! - [`runs`]: what holds of every run of a transfer;
//! - [`report`]: the listing of what was copied;
//! - [`printer`]: where the listing goes;
//! - [`error`]: the failures.

pub mod commands;
pub mod error;
pub mod path;
pub mod plan;
pub mod printer;
pub mod report;
pub mod runs;
