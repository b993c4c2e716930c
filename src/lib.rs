//! Supervisor for a bundled backend server: configuration, port probing,
//! health polling, start sequencing and shutdown escalation.
//!
//! The library makes decisions; the host runs the processes, sockets and
//! timers and reports what happened.
pub mod text;
pub mod error;
pub mod launch;
pub mod shutdown;
pub mod health;
pub mod probe;
pub mod supervisor;
