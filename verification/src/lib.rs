//! Bootstrap logic of a small network service: configuration resolution with
//! per-section fallback, runtime sizing, and the connection state machines.

pub mod config;
pub mod connection;
pub mod document;
pub mod ff_error;
pub mod ff_logger;
pub mod isolation;
pub mod resolve;
pub mod startup;
