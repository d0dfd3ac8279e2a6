//! Core of a receive-only Telnet client: a verified control-sequence filter
//! and the decision logic of a reconnecting connection manager.
//!
//! The filter strips Telnet IAC control sequences from a raw byte stream,
//! keeping enough state to handle sequences that span read boundaries. The
//! connection manager is modelled as an explicit state machine: a driver owns
//! the socket and the timers, feeds events in, and performs the actions that
//! come back. Everything that decides — what to emit, when to retry, when to
//! give up — lives here and carries a contract.

pub mod config;
pub mod filter;
pub mod message;
pub mod telnet;
