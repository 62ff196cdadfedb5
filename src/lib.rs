//! Status reporting for a memoizing query engine: per-table cache statistics,
//! allocator counters and the age of the last garbage collection, rendered as
//! a fixed multi-line text report.

pub mod bytes;
pub mod memory;
pub mod report;
pub mod stats;
pub mod text;
