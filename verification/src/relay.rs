//! The output relay: classifying the child's output, line by line.
//!
//! The host reads the child's stdout and stderr as raw byte lines and hands
//! each one here.  A stdout line that announces a port updates the registry
//! and asks the host to raise the one-shot ready notification; every other
//! stdout line, and every stderr line, leaves the registry alone and is
//! handed back verbatim for logging.  The relay ends when the host's stream
//! ends; nothing here survives it.

use vstd::prelude::*;

use crate::handshake::all_digits;
use crate::handshake::all_whitespace;
use crate::handshake::announced_port;
use crate::handshake::announcement_line;
use crate::handshake::classify_stdout_line;
use crate::handshake::digits_value;
use crate::handshake::lemma_announcement_recognized;
use crate::registry::PortRegistry;

verus! {

/// One event read from the child's output streams: a raw line of stdout or
/// of stderr.
pub enum OutputEvent {
    Stdout(Vec<u8>),
    Stderr(Vec<u8>),
}

/// Mathematical image of an `OutputEvent`.
pub enum OutputEventV {
    Stdout(Seq<u8>),
    Stderr(Seq<u8>),
}

impl View for OutputEvent {
    type V = OutputEventV;

    open spec fn view(&self) -> OutputEventV {
        match self {
            OutputEvent::Stdout(line) => OutputEventV::Stdout(line@),
            OutputEvent::Stderr(line) => OutputEventV::Stderr(line@),
        }
    }
}

/// What the host must do with one event after the relay has classified it:
/// raise the ready notification for a just-published port, or forward the
/// raw line to the log as informational or diagnostic output.
pub enum RelayAction {
    Ready(u16),
    LogStdout(Vec<u8>),
    LogStderr(Vec<u8>),
}

/// Mathematical image of a `RelayAction`.
pub enum RelayActionV {
    Ready(u16),
    LogStdout(Seq<u8>),
    LogStderr(Seq<u8>),
}

impl View for RelayAction {
    type V = RelayActionV;

    open spec fn view(&self) -> RelayActionV {
        match self {
            RelayAction::Ready(port) => RelayActionV::Ready(*port),
            RelayAction::LogStdout(line) => RelayActionV::LogStdout(line@),
            RelayAction::LogStderr(line) => RelayActionV::LogStderr(line@),
        }
    }
}

/// The port an event announces: a stdout line's announcement, if any; a
/// stderr line never announces and is never parsed.
pub open spec fn event_announcement(event: OutputEventV) -> Option<u16> {
    match event {
        OutputEventV::Stdout(line) => announced_port(line),
        OutputEventV::Stderr(_) => None,
    }
}

/// One step of the relay: the registry value after the event, and the action
/// the host owes for it.
pub open spec fn relay_step(port: Option<u16>, event: OutputEventV) -> (Option<u16>, RelayActionV) {
    match event {
        OutputEventV::Stdout(line) => match announced_port(line) {
            Some(announced) => (Some(announced), RelayActionV::Ready(announced)),
            None => (port, RelayActionV::LogStdout(line)),
        },
        OutputEventV::Stderr(line) => (port, RelayActionV::LogStderr(line)),
    }
}

/// Relays one event: an announcing stdout line publishes its port and yields
/// the one `Ready` action for it; any other line leaves the registry as it
/// was and is returned for logging.
pub fn relay_event(registry: &mut PortRegistry, event: OutputEvent) -> (action: RelayAction)
    ensures
        final(registry)@ == relay_step(old(registry)@, event@).0,
        action@ == relay_step(old(registry)@, event@).1,
{
    match event {
        OutputEvent::Stdout(line) => match classify_stdout_line(&line) {
            Some(port) => {
                registry.publish(port);
                RelayAction::Ready(port)
            },
            None => RelayAction::LogStdout(line),
        },
        OutputEvent::Stderr(line) => RelayAction::LogStderr(line),
    }
}

/// The registry value after a whole sequence of events, last announcement
/// winning.
pub open spec fn relay_fold(port: Option<u16>, events: Seq<OutputEventV>) -> Option<u16>
    decreases events.len(),
{
    if events.len() == 0 {
        port
    } else {
        relay_step(relay_fold(port, events.drop_last()), events.last()).0
    }
}

/// Relays a finished stream of events in order, returning the host's actions,
/// one per event.  This is the relay's whole run once the streams have
/// closed: afterwards the registry holds the last announced port, or its
/// starting value if nothing announced.
pub fn relay_run(registry: &mut PortRegistry, events: Vec<OutputEvent>) -> (actions: Vec<
    RelayAction,
>)
    ensures
        final(registry)@ == relay_fold(old(registry)@, events@.map_values(|e: OutputEvent| e@)),
        actions@.len() == events@.len(),
        forall|i: int|
            0 <= i < events@.len() ==> actions@[i]@ == relay_step(
                relay_fold(old(registry)@, events@.map_values(|e: OutputEvent| e@).take(i)),
                events@[i]@,
            ).1,
{
    let ghost stream = events@;
    let ghost evs = events@.map_values(|e: OutputEvent| e@);
    let ghost port0 = registry@;
    let mut actions: Vec<RelayAction> = Vec::new();
    let mut k: usize = 0;
    let count: usize = events.len();
    let mut remaining = events;
    while k < count
        invariant
            0 <= k <= count,
            count == evs.len(),
            evs == stream.map_values(|e: OutputEvent| e@),
            remaining@ == stream.skip(k as int),
            registry@ == relay_fold(port0, evs.take(k as int)),
            actions@.len() == k,
            forall|i: int|
                0 <= i < k ==> actions@[i]@ == relay_step(
                    relay_fold(port0, evs.take(i)),
                    evs[i],
                ).1,
        decreases count - k,
    {
        let event = remaining.remove(0);
        proof {
            assert(stream.skip(k as int)[0] == stream[k as int]);
            assert(stream.skip(k as int).remove(0) =~= stream.skip(k + 1));
            assert(event@ == evs[k as int]);
            assert(evs.take(k + 1).drop_last() =~= evs.take(k as int));
            assert(evs.take(k + 1).last() == evs[k as int]);
        }
        let action = relay_event(registry, event);
        actions.push(action);
        k += 1;
    }
    proof {
        assert(evs.take(count as int) =~= evs);
    }
    actions
}

/// The ready notification is raised together with the write it reports: when
/// a step yields `Ready(p)`, the registry holds exactly `Some(p)` after it,
/// so an observer of the notification never reads an older value; and a step
/// that yields anything else leaves the registry untouched.
pub proof fn lemma_ready_reports_the_published_port(port: Option<u16>, event: OutputEventV)
    ensures
        relay_step(port, event).1 matches RelayActionV::Ready(announced) ==> relay_step(
            port,
            event,
        ).0 == Some(announced),
        !(relay_step(port, event).1 is Ready) ==> relay_step(port, event).0 == port,
{
}

/// An announcement-shaped stdout line — the prefix, then a non-empty digit
/// run with a value at most 65535, surrounded only by whitespace — updates
/// the registry to that value and yields exactly one ready notification
/// carrying it, whatever the registry held before.
pub proof fn lemma_announcement_line_updates_registry(
    port: Option<u16>,
    ws_before: Seq<u8>,
    digits: Seq<u8>,
    ws_after: Seq<u8>,
)
    requires
        all_whitespace(ws_before),
        all_digits(digits),
        all_whitespace(ws_after),
        digits.len() > 0,
        digits_value(digits) <= 65535,
    ensures
        relay_step(port, OutputEventV::Stdout(announcement_line(ws_before, digits, ws_after)))
            == (
            Some(digits_value(digits) as u16),
            RelayActionV::Ready(digits_value(digits) as u16),
        ),
{
    lemma_announcement_recognized(ws_before, digits, ws_after);
}

/// A stream with no valid announcement never moves the registry: before the
/// first valid announcement, a reader sees the value the run started with.
pub proof fn lemma_no_announcement_keeps_port(port: Option<u16>, events: Seq<OutputEventV>)
    requires
        forall|i: int| 0 <= i < events.len() ==> event_announcement(events[i]) is None,
    ensures
        relay_fold(port, events) == port,
    decreases events.len(),
{
    if events.len() > 0 {
        lemma_no_announcement_keeps_port(port, events.drop_last());
    }
}

/// After any number of valid announcements, the registry holds the value of
/// the most recent one: the last announcing event in the stream decides what
/// a reader sees.
pub proof fn lemma_last_announcement_wins(
    port: Option<u16>,
    events: Seq<OutputEventV>,
    last: int,
)
    requires
        0 <= last < events.len(),
        event_announcement(events[last]) is Some,
        forall|j: int| last < j < events.len() ==> event_announcement(events[j]) is None,
    ensures
        relay_fold(port, events) == event_announcement(events[last]),
    decreases events.len(),
{
    if last == events.len() - 1 {
    } else {
        lemma_last_announcement_wins(port, events.drop_last(), last);
    }
}

} // verus!
