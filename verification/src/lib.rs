//! State and decision logic of a terminal dashboard for host telemetry:
//! partial snapshots merged into a current view, a bounded history for the
//! graphs, the process table's interaction state, and a single-slot message
//! bus.
//!
//! Percentages are held as integers in thousandths of a percent (see
//! [`units`]), temperatures in thousandths of a degree Celsius.

pub mod color;
pub mod config;
pub mod data;
pub mod event;
pub mod message_bus;
pub mod state;
pub mod system;
pub mod text;
pub mod tui;
pub mod units;
pub mod utils;
pub mod widgets;
