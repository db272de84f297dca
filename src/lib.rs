//! Counts the open file-backed and socket-backed descriptors of a process.
//!
//! `stats` holds the result record, the error kinds and the counting of
//! descriptors; `snapshot` reads a system-wide kernel handle table; `fds`
//! queries a Linux process through procfs.

pub mod fds;
pub mod snapshot;
pub mod stats;
