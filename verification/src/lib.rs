//! Core of a satellite on-board flight-software simulator.
//!
//! The crate holds the decisions of every task of the flight software as
//! functions on plain values: the bounded priority queue with its drop
//! policy, the sensor, monitor, command and network cycles, and the fault and
//! visibility driver. The crate never sleeps, never touches a socket and never
//! reads a clock: each turn of a task takes the uptime in milliseconds,
//! which `SatelliteState::uptime_ms` makes of the reading of a monotonic
//! clock, and hands back what the caller has to do next.

pub mod buffer;
pub mod command;
pub mod config;
pub mod logging;
pub mod monitor;
pub mod network;
pub mod scheduling;
pub mod sensors;
pub mod simulation;
pub mod state;
pub mod task;
pub mod types;
