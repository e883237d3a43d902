//! Keeps the membership of destination playlists on a video platform in step
//! with a configured set of source playlists.
//!
//! The crate holds the logic of the tool: the configuration records and the
//! operations on them, the shape of the data the platform reports, and the
//! reconciliation engine that decides which videos are missing from a
//! destination and tracks the outcome of each attempted addition.  All remote
//! calls — listing playlist members page by page and inserting a video — are
//! performed by the surrounding program, which feeds their results back in as
//! plain values.

pub mod config;
pub mod sync;
pub mod youtube;
