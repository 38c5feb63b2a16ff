//! A synthetic syslog traffic generator, as a library.
//!
//! The crate holds what a load-test client decides and computes: the shape of
//! the messages it sends, the pool of messages each transmitter draws from,
//! the counters it keeps, and the protocol that a transmitter and the reporter
//! follow. Sockets, clocks, threads and signals belong to the caller, which
//! performs the actions that the state machines here ask for.

pub mod text;
pub mod words;
pub mod message;
pub mod config;
pub mod random;
pub mod pool;
pub mod stats;
pub mod worker;
pub mod trace;
pub mod reporter;
