//! Time-bucketed aggregation of climate sensor samples.
//!
//! Samples read from a temperature/humidity sensor are grouped into
//! per-device buckets, each covering a rolling 120-minute window: a new
//! sample is appended to the most recent bucket whose `interval_start`
//! still lies within the window, and a fresh bucket is created when no
//! bucket qualifies.

pub mod bucket;
pub mod driver;
pub mod resolver;
pub mod store;
