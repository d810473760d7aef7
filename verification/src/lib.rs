//! Connectivity and actuation control for a WiFi-connected actuator.
//!
//! The crate holds the decisions of the device: the single-slot signal queue,
//! the signaler that debounces fire requests and arbitrates auto mode, the
//! auto-fire and pulse state machines, the connect-retry strategy, and the
//! layered configuration with its validation. Drivers, timers, threads and
//! persistent storage live with the caller, which performs the actions that
//! the state machines hand out and reports back what happened.

pub mod config;
pub mod io;
pub mod ipv4;
pub mod queue;
pub mod wifi;

