//! A pipe-throughput monitor: the decisions of a three-stage copy pipeline
//! (reader, statistics, writer), the timer that throttles progress reports,
//! and the text of those reports.

pub mod args;
pub mod format;
pub mod pipeline;
pub mod stats;
pub mod timer;
