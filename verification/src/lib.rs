//! Pipeline coordinator for a combat-log uploader.
//!
//! Discovered log files are driven through a three-stage pipeline: a binary
//! parse, an optional upload to a report service, and an optional upload to a
//! statistics service.  Each stage is an independent state machine on the job,
//! the retry policy is a pure classification of stage outcomes, and the
//! coordinator advances every job on an externally driven tick.  The host
//! process owns the worker threads and all I/O; this crate holds the logic.

pub mod common;
pub mod coordinator;
pub mod dpslog;
pub mod dpsreport;
pub mod evtc;
pub mod filewatcher;
pub mod settings;
pub mod step;
pub mod text;
pub mod wingman;
