//! The port registry: the one place the discovered port is published.
//!
//! The registry holds the port of the most recent valid announcement, or
//! nothing while no announcement has been seen for the current run.  Any
//! caller may read it; only the output relay writes it, and the supervisor
//! empties it when a new child is spawned.

use vstd::prelude::*;

verus! {

/// Shared record of the child's announced port.  Its view is the published
/// value: `None` until a valid announcement arrives, then `Some(port)` of the
/// most recent one.
pub struct PortRegistry {
    port: Option<u16>,
}

impl View for PortRegistry {
    type V = Option<u16>;

    closed spec fn view(&self) -> Option<u16> {
        self.port
    }
}

impl PortRegistry {
    /// A fresh registry, with no port published yet.
    pub fn new() -> (registry: Self)
        ensures
            registry@ is None,
    {
        PortRegistry { port: None }
    }

    /// The currently published port, `None` while no valid announcement has
    /// been observed.
    pub fn get(&self) -> (port: Option<u16>)
        ensures
            port == self@,
    {
        self.port
    }

    /// Publishes a freshly announced port, replacing any earlier value.
    pub(crate) fn publish(&mut self, port: u16)
        ensures
            final(self)@ == Some(port),
    {
        self.port = Some(port);
    }

    /// Empties the registry; done when a new child is spawned, so that a
    /// stale port from an earlier run is never visible.
    pub(crate) fn clear(&mut self)
        ensures
            final(self)@ is None,
    {
        self.port = None;
    }
}

impl Default for PortRegistry {
    /// Same as `new`: an empty registry.
    fn default() -> (registry: Self)
        ensures
            registry@ is None,
    {
        PortRegistry { port: None }
    }
}

} // verus!
