//! Telemetry snapshots as the dashboard holds them.

pub mod info;
