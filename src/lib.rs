//! A declarative file-synchronisation engine: pattern-based enumeration of
//! candidate files, per-file copy and delete decisions, and the job and run
//! orchestration that reconciles what is copied with what is removed.

pub mod codes;
pub mod matcher;
pub mod paths;
pub mod enumerate;
pub mod digest;
pub mod copy;
pub mod remove;
pub mod job;
pub mod run;
pub mod report;
pub mod pathtext;
pub mod config;
