//! Latency statistics for repeated HTTP GET requests: the schedule of a run,
//! the tally of its outcomes, and the text of its report.

pub mod config;
pub mod report;
pub mod run;
pub mod sample;
pub mod schedule;
pub mod stats;
pub mod text;
