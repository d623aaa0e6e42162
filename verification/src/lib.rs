//! Replication layer for periodically captured state snapshots: pluggable
//! compression, pluggable storage destinations, a concurrent multi-destination
//! fan-out with all-or-nothing aggregate semantics, and the orchestration step
//! that ties capture, naming, compression and upload together.

pub mod backup;
pub mod compression;
pub mod config;
pub mod naming;
pub mod options;
pub mod provider;
pub mod s3;
pub mod setup;
pub mod webdav;
