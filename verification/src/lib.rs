//! Control core of a network-attached actuator device.
//!
//! The device keeps a wireless link alive, waits for an IPv4 lease, and then
//! synchronizes a physical output pin between two producers — a push button
//! and a pair of HTTP routes — through a single-slot, latest-wins intent
//! cell. This crate holds the verified orchestration logic: the intent cell
//! and its overwrite discipline, the link supervisor's state machine, the
//! address-readiness wait, the HTTP request grammar and router, the
//! per-connection timeout machine, and the fixed-capacity worker-pool
//! discipline. The asynchronous executor, the peripherals and the sockets
//! live outside this crate; they drive these functions and perform the
//! actions they decide on.

pub mod intent;
pub mod signal;
pub mod config;
pub mod link;
pub mod address;
pub mod session;
pub mod pool;
pub mod http;
