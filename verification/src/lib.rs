//! A bridge between a UNIX domain socket and a TCP endpoint, as a set of
//! verified state machines.
//!
//! The library performs no input or output. Each component is a function
//! from a state and an event to the next state and the action to carry out;
//! a driver performs the action on real sockets and reports what came of it
//! as the next event.
//!
//! - [`copier`]: one direction of a connection, a source relayed to a
//!   destination through a buffer of fixed size; [`relay`] holds the laws of
//!   its runs.
//! - [`bridge`]: the two directions of one connection and the closing of its
//!   endpoints; [`duplex`] holds the laws of its runs.
//! - [`listener`]: start-up of the service and its accept loop; [`service`]
//!   holds the laws of its runs.
//! - [`config`]: the buffer size and the validation of a TCP address.
//! - [`error`]: the error types.

pub mod bridge;
pub mod config;
pub mod copier;
pub mod duplex;
pub mod error;
pub mod listener;
pub mod relay;
pub mod service;
