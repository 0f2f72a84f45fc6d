//! Snapshot archiving around a delta-transfer tool.
//!
//! The crate holds the decisions of an archive run: which snapshot directories
//! exist and which is the latest, whether the latest may be re-labelled or has
//! to be forked, which command lines the tools are given, how the tool's
//! report is read, and which deletions are really moves. It performs no I/O:
//! callers execute the commands it plans and hand the results back.

pub mod text;
pub mod error;
pub mod util;
pub mod changes;
pub mod sizes;
pub mod report;
pub mod moves;
pub mod timestamp;
pub mod scanner;
pub mod transfer;
pub mod archive;
