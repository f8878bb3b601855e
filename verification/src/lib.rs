//! Supervisor for a single backend sidecar process.
//!
//! The library contains the verified core of a host that launches a child
//! server process, discovers the port the child bound by parsing a structured
//! stdout handshake line, publishes that port to callers, and guarantees the
//! child is asked to terminate at most once.  All process I/O (spawning,
//! killing, reading the output streams, delivering notifications) is the
//! host's business; the host hands every observed outcome to this library as
//! plain values and performs the actions the library returns.

pub mod handshake;
pub mod registry;
pub mod relay;
pub mod supervisor;
