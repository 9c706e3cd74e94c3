//! Connection lifecycle of a UDP link between a control application and a
//! remote peer: who may start a connection attempt, how silence on the link
//! is turned into a disconnect, and which events an observer is told about.
//!
//! The crate holds the decisions only. Sockets, clocks, threads and the
//! channel that carries events belong to the caller, which reports what
//! happened and carries out what the functions here answer.

pub mod controller;
pub mod endpoint;
pub mod events;
pub mod link;
pub mod liveness;
pub mod monitor;
pub mod state;
pub mod status;
