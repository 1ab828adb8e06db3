//! The telemetry data model: samples per category, partial snapshots, the
//! merged current view and the bounded history.

pub mod collector;
pub mod cpu;
pub mod gpu;
pub mod memory;
pub mod processes;
pub mod snapshot;
pub mod store;
pub mod system_data;
pub mod update_kind;
