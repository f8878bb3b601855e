//! The supervisor: lifecycle of the one backend child process.
//!
//! The supervisor owns the port registry and the slot for the child's
//! process handle.  The host performs the actual spawn and kill system calls
//! and reports their outcomes here as plain values; the supervisor keeps the
//! two slots consistent, maps outcomes to the caller-facing errors, and
//! enforces at-most-once termination by moving the handle out of its slot
//! exactly once.

use vstd::prelude::*;

use crate::registry::PortRegistry;
use crate::relay::OutputEvent;
use crate::relay::RelayAction;
use crate::relay::relay_event;
use crate::relay::relay_step;

verus! {

/// Owned handle to the spawned child process, identified by its OS process
/// id.  The handle is deliberately not cloneable: once the supervisor stores
/// it, the only way out is `begin_stop`, which moves it, and that move is
/// what makes a second kill impossible.
pub struct ProcessHandle {
    pid: u32,
}

impl View for ProcessHandle {
    type V = u32;

    closed spec fn view(&self) -> u32 {
        self.pid
    }
}

impl ProcessHandle {
    /// Wraps the process id of a child the host has just spawned.
    pub fn new(pid: u32) -> (handle: Self)
        ensures
            handle@ == pid,
    {
        ProcessHandle { pid }
    }

    /// The process id, for the host's kill request.
    pub fn pid(&self) -> (pid: u32)
        ensures
            pid == self@,
    {
        self.pid
    }
}

/// What the host's attempt to launch the child came to: a handle for the
/// running child, or the OS error text.
pub enum SpawnOutcome {
    Spawned(ProcessHandle),
    Failed(String),
}

/// Mathematical image of a `SpawnOutcome`.
pub enum SpawnOutcomeV {
    Spawned(u32),
    Failed(Seq<char>),
}

impl View for SpawnOutcome {
    type V = SpawnOutcomeV;

    open spec fn view(&self) -> SpawnOutcomeV {
        match self {
            SpawnOutcome::Spawned(handle) => SpawnOutcomeV::Spawned(handle@),
            SpawnOutcome::Failed(error) => SpawnOutcomeV::Failed(error@),
        }
    }
}

/// The errors the supervisor surfaces to its caller, each carrying the
/// underlying OS error text.  A malformed announcement line is never an
/// error: it degrades to a log line in the relay.
#[derive(Debug)]
pub enum SupervisorError {
    /// The child executable could not be launched.
    SpawnFailed(String),
    /// The OS refused or failed the kill request; the handle is nevertheless
    /// gone, since it had already been taken.
    TerminationFailed(String),
}

/// The supervisor's state, as contracts speak of it: the published port and
/// the process id in the child slot.
pub struct SupervisorV {
    pub port: Option<u16>,
    pub child: Option<u32>,
}

/// Supervisor of the one backend child: the port registry and the slot that
/// owns the child's process handle.
pub struct Supervisor {
    registry: PortRegistry,
    child: Option<ProcessHandle>,
}

impl View for Supervisor {
    type V = SupervisorV;

    closed spec fn view(&self) -> SupervisorV {
        SupervisorV {
            port: self.registry@,
            child: match self.child {
                Some(handle) => Some(handle@),
                None => None,
            },
        }
    }
}

/// State after a spawn report: a successful spawn fills the child slot and
/// empties the registry, so no stale port from an earlier run is ever
/// visible; a failed spawn changes nothing.  A second spawn while a child is
/// still stored replaces the stored handle, as the permissive design allows.
pub open spec fn start_step(state: SupervisorV, outcome: SpawnOutcomeV) -> SupervisorV {
    match outcome {
        SpawnOutcomeV::Spawned(pid) => SupervisorV { port: None, child: Some(pid) },
        SpawnOutcomeV::Failed(_) => state,
    }
}

/// State after a stop, and the handle the stop takes: the child slot is
/// emptied, the port is left alone, and whatever the slot held comes out.
pub open spec fn stop_step(state: SupervisorV) -> (SupervisorV, Option<u32>) {
    (SupervisorV { port: state.port, child: None }, state.child)
}

impl Supervisor {
    /// A supervisor with nothing spawned and no port published.
    pub fn new() -> (supervisor: Self)
        ensures
            supervisor@.port is None,
            supervisor@.child is None,
    {
        Supervisor { registry: PortRegistry::new(), child: None }
    }

    /// The published port: `None` until the current child's first valid
    /// announcement, afterwards the value of the most recent one.
    pub fn get_port(&self) -> (port: Option<u16>)
        ensures
            port == self@.port,
    {
        self.registry.get()
    }

    /// Records what the host's spawn attempt came to.  On success the handle
    /// is stored and the registry emptied, and the caller gets `Ok`; on
    /// failure nothing changes and the caller gets the `SpawnFailed` error
    /// with the OS error text.
    pub fn start(&mut self, outcome: SpawnOutcome) -> (result: Result<(), SupervisorError>)
        ensures
            final(self)@ == start_step(old(self)@, outcome@),
            outcome is Spawned ==> result is Ok,
            outcome matches SpawnOutcome::Failed(error) ==> (result matches Err(
                SupervisorError::SpawnFailed(reported),
            ) && reported@ == error@),
    {
        match outcome {
            SpawnOutcome::Spawned(handle) => {
                self.registry.clear();
                self.child = Some(handle);
                Ok(())
            },
            SpawnOutcome::Failed(error) => Err(SupervisorError::SpawnFailed(error)),
        }
    }

    /// Relays one line of the child's output: an announcing stdout line
    /// publishes its port in the registry, every other line is handed back
    /// for logging.  The child slot is never touched.
    pub fn handle_output(&mut self, event: OutputEvent) -> (action: RelayAction)
        ensures
            final(self)@.child == old(self)@.child,
            final(self)@.port == relay_step(old(self)@.port, event@).0,
            action@ == relay_step(old(self)@.port, event@).1,
    {
        relay_event(&mut self.registry, event)
    }

    /// Takes the stored handle out, leaving the slot empty.  If a child was
    /// stored, the host must now issue the kill request for the returned
    /// handle and report the outcome to `finish_stop`; if the slot was
    /// already empty — never started, or already stopped — there is nothing
    /// to kill and the stop is a no-op.  Since the handle is moved out, no
    /// two stops can ever kill twice.
    pub fn begin_stop(&mut self) -> (taken: Option<ProcessHandle>)
        ensures
            final(self)@ == stop_step(old(self)@).0,
            (match taken {
                Some(handle) => Some(handle@),
                None => None,
            }) == stop_step(old(self)@).1,
    {
        self.child.take()
    }

    /// Maps the host's kill outcome to the stop's result: no error — nothing
    /// had to be killed, or the kill went through — is `Ok`; a failed kill is
    /// the `TerminationFailed` error with the OS error text.
    pub fn finish_stop(kill_error: Option<String>) -> (result: Result<(), SupervisorError>)
        ensures
            kill_error is None ==> result is Ok,
            kill_error matches Some(error) ==> (result matches Err(
                SupervisorError::TerminationFailed(reported),
            ) && reported@ == error@),
    {
        match kill_error {
            None => Ok(()),
            Some(error) => Err(SupervisorError::TerminationFailed(error)),
        }
    }
}

impl Default for Supervisor {
    /// Same as `new`: nothing spawned, no port published.
    fn default() -> (supervisor: Self)
        ensures
            supervisor@.port is None,
            supervisor@.child is None,
    {
        Supervisor { registry: PortRegistry::new(), child: None }
    }
}

/// A stop with nothing started is a no-op: it takes no handle — so the host
/// kills nothing and `finish_stop(None)` returns success — and leaves the
/// state exactly as it was.
pub proof fn lemma_stop_without_start(state: SupervisorV)
    requires
        state.child is None,
    ensures
        stop_step(state).0 == state,
        stop_step(state).1 is None,
{
}

/// Two stops in a row kill at most once: whatever the first stop took, the
/// second takes nothing — so the host kills nothing and `finish_stop(None)`
/// returns success — and the state no longer changes.
pub proof fn lemma_stop_idempotent(state: SupervisorV)
    ensures
        stop_step(stop_step(state).0).1 is None,
        stop_step(stop_step(state).0).0 == stop_step(state).0,
{
}

/// A failed spawn leaves the supervisor exactly as it was: on a fresh
/// supervisor, both the registry and the child slot stay empty, and the
/// caller sees only the `SpawnFailed` error.
pub proof fn lemma_failed_spawn_changes_nothing(state: SupervisorV, error: Seq<char>)
    ensures
        start_step(state, SpawnOutcomeV::Failed(error)) == state,
{
}

} // verus!
