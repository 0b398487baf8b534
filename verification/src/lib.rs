//! A NAT port-mapping client, written as a state machine that performs no I/O.
//!
//! The caller owns the sockets, the clock and the timers.  It feeds the
//! machine with signals and carries out the commands that come back.

pub mod cache;
pub mod client;
pub mod engine;
pub mod gateway;
pub mod guarantees;
pub mod mapper;
pub mod mapping;
pub mod protocol;
pub mod round;
pub mod schedule;
