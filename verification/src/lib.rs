//! Verified core of a line-oriented, multi-client chat service.
//!
//! Clients connect over a stream socket, pass an authentication gate driven by
//! an external credential oracle, and then exchange lines that are fanned out
//! to every other authenticated client. This crate holds the decision logic of
//! that core: the shared presence registry, the bounded fan-out hub, the
//! authentication gate, and the relay rules that decide who receives what and
//! when a connection is torn down. The surrounding process (sockets, the
//! oracle backend, task scheduling) feeds events in and carries actions out.

pub mod auth;
pub mod hub;
pub mod laws;
pub mod line;
pub mod registry;
pub mod relay;
pub mod server;
