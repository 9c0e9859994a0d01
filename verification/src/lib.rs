//! The incremental batch-processing engine behind a terminal replay browser:
//! directory scans ordered by modification time, one-decode-per-tick batch
//! jobs with per-file failure isolation, derived-metric computation from
//! decoded header properties, and the session state machine that drives it
//! all. Decoding a recording's bytes is the decoder crate's work and is
//! taken on trust at one narrow boundary; everything around it is specified
//! and verified.

pub mod cli;
pub mod decode;
pub mod entry;
pub mod processor;
pub mod props;
pub mod scanner;
pub mod session;
pub mod strutil;
