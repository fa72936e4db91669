//! Bootstrap and job-dispatch core of a desktop front end for an external
//! media-download tool.
//!
//! The library holds the decisions; the program around it performs the I/O:
//! - [`progress`]: the (downloaded, total) byte counters shown while the tool
//!   is fetched, and the clamped per-chunk update rule;
//! - [`integrity`]: the SHA-256 check of the fetched tool against a trusted
//!   hex digest;
//! - [`bootstrap`]: the start-up state machine (fetch, verify, ready or fail);
//! - [`completion`]: a latest-value completion signal with independent waiters;
//! - [`dispatch`]: the bounded FIFO of download jobs and its serial worker;
//! - [`manifest`]: the plain records decoded from the tool's JSON output;
//! - [`descriptor`]: the tool's file name and download address.

pub mod progress;
pub mod integrity;
pub mod completion;
pub mod bootstrap;
pub mod dispatch;
pub mod manifest;
pub mod descriptor;
