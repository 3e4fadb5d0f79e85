//! Verified core of a host-side plugin server.
//!
//! A host process spawns a plugin process, shares a memory-mapped region with
//! it, and multiplexes external byte-stream connections onto logical channels
//! of that one shared transport. This crate holds the decision logic of that
//! core, verified: channel-identifier allocation, the per-connection
//! forwarding state machines with their end-of-stream rules, the byte-exact
//! relay argument, and the server lifecycle with its cleanup obligations.
//! The surrounding I/O (sockets, process spawning, the shared-memory
//! transport itself) stays outside and drives these state machines.

pub mod channel;
pub mod inbound;
pub mod outbound;
pub mod relay;
pub mod server;
