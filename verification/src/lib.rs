//! Orchestration logic of a media transcoder.
//!
//! The crate holds the decisions of a transcoding run as plain data: which
//! container an output file name asks for, which encoding profile goes with
//! it, how the processing graph grows as elementary streams are discovered,
//! and when the run ends. A media engine executes those decisions; nothing in
//! here talks to one.

pub mod text;
pub mod format;
pub mod config;
pub mod profile;
pub mod graph;
pub mod router;
pub mod run_loop;

