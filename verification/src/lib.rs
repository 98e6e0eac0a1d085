//! System for quality control of meteorological data.
//!
//! Provides a modular system for scheduling QC tests on data, and
//! marshalling data and metadata into these tests. A pipeline of checks is
//! resolved to its context demand, a data cache is fetched from a named
//! connector through the data switch, and each step of the pipeline is run
//! against that cache, producing per-station flag series.

pub mod cache;
pub mod data_switch;
pub mod dev_utils;
pub mod duration;
pub mod flag;
pub mod harness;
pub mod pipeline;
pub mod scheduler;
pub mod server;
pub mod value;

pub use duration::RelativeDuration;
pub use pipeline::Pipeline;
pub use scheduler::Scheduler;
pub use value::Real;
