//! A verified client-side core for a job-monitoring terminal dashboard.
//!
//! The library owns the dashboard's logic: deriving human-readable elapsed
//! times from job lifecycle timestamps, filtering the job list by mode,
//! navigating the filtered list with a wraparound cursor, and the input-driven
//! state machine that ties them together. Terminal drawing and the network
//! data source live outside the library and only exchange plain values with it.

pub mod duration;
pub mod filter;
pub mod jobs;
pub mod nav;
pub mod render;
pub mod state;
