//! A verified core for a lock-free shared-memory ring transport: a user-space
//! process hands asynchronous I/O requests to a privileged completion engine
//! through a submission ring and a completion ring.
//!
//! The library holds everything that can be stated and proved about the
//! protocol: the binary layout of the shared records, geometry negotiation and
//! validation, wraparound-safe index arithmetic, the producer and consumer
//! step logic, and the ring lifecycle. The actual privileged calls, the memory
//! mappings and the worker threads live outside the library and drive it with
//! plain values.
#![allow(non_camel_case_types)]

pub mod abi;
pub mod entry;
pub mod errors;
pub mod geometry;
pub mod lifecycle;
pub mod notify;
pub mod ring;
