//! Lifecycle supervisor for a desktop application's backend service.
//!
//! The supervisor launches the service as a detached child process,
//! discovers its runtime address and process identifier through a
//! key-value handshake file the service writes at startup, coordinates
//! graceful shutdown on application exit, and appends an audit log
//! entry recording the termination.

pub mod audit;
pub mod command;
pub mod digits;
pub mod errors;
pub mod handshake;
pub mod lifecycle;

pub use errors::SupervisorError;
