//! A protocol-sniffing TCP relay, as a verified library.
//!
//! The library holds every decision the relay makes for a connection: how the
//! startup configuration is resolved, what the two handshake status lines
//! contain, how the first peeked bytes select a backend, which fixed address
//! each backend lives at, how a connection walks through its stages, and what
//! a relay direction does with each chunk it reads.  The surrounding program
//! performs the network I/O and feeds the results back in as plain events.

pub mod classifier;
pub mod config;
pub mod handshake;
pub mod relay;
pub mod route;
pub mod supervisor;
