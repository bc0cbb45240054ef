//! State and control logic of a terminal dashboard for accelerator telemetry.
//!
//! The crate holds what the dashboard decides: the state and its selection
//! rules, the bounded histories behind the graphs, the layout of exported
//! records, the rendering of sizes, and the refresh loop as a state machine.
//! What touches the outside world (driver, terminal, network, processes) is
//! left to the program that hosts the loop.

pub mod app_state;
pub mod gpu;
pub mod history;
pub mod influxdb;
pub mod input;
pub mod refresh;
pub mod utils;
