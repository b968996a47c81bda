//! Core of a transparent byte-stream tunnel between a local socket endpoint
//! and a peer endpoint reached through a virtual-machine transport.
//!
//! The transports themselves are plain I/O and live outside this crate; here
//! stand the decisions the relay makes, each as a small state machine with a
//! verified transition function.

pub mod accept;
pub mod identity;
pub mod pump;
pub mod session;
pub mod supervisor;
