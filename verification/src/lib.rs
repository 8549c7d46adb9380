//! Core logic of a sensor-to-collector metrics daemon: it models the
//! configuration, the per-cycle sensor measurement protocol, and the
//! conversion of one validated reading into a batch of named metric
//! samples for a push-style monitoring collector.
//!
//! Hardware bus access, network transport and logging live outside this
//! library; it receives plain values from that plumbing and hands plain
//! values back, with every decision rule verified here.

pub mod config;
pub mod exporter;
pub mod num;
pub mod poll;
pub mod reading;
pub mod session;
