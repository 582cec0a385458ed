//! A multi-client relay, reduced to its decisions.
//!
//! Clients talk to a central process over a length-prefixed binary protocol
//! and may bind an anonymous connection to a durable account. This crate holds
//! the protocol framing, the per-connection workers, the connection directory
//! and the message handler as plain state machines: every function takes
//! values and returns values, and states in its contract what it returns.
//! Sockets, channels, tasks and the credential store stay with the caller,
//! which feeds events in and carries actions out.

pub mod broker;
pub mod bytes;
pub mod chance;
pub mod codec;
pub mod command;
pub mod connection;
pub mod credential;
pub mod handler;
pub mod listener;
pub mod message;
pub mod router;
