//! Sampling telemetry for kernel-resident programs and tables: turning
//! consecutive raw samples into derived stats, walking tables to count their
//! entries, deciding which metric series live and die, and the small state
//! machines that drive the sampling pipelines.

pub mod meter;
pub mod cpu_meter;
pub mod map_meter;
pub mod prometheus_gc;
pub mod prometheus_exporter;
pub mod pipeline;
pub mod file_exporter;
