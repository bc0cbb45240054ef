//! Helpers shared by the dashboard's components.

pub mod formatting;
