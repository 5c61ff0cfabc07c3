//! The boundary capabilities and the fan-in / fan-out logic around them.
//!
//! An input source produces text messages; an output destination accepts
//! a (role, text) pair. The shell implements these over real transports;
//! the library owns what is decided about them: every sink is attempted
//! on every broadcast and one failure never blocks the others, every
//! inbound message is tagged with its source index, an "exit" command is
//! recognized case-insensitively, and blank input lines are dropped.

use vstd::prelude::*;
use vstd::string::StringExecFns;
use crate::util::{ci_eq, trimmed_view, trim_text};

verus! {

/// Why a read from an input source failed; the adapter retries with
/// backoff, so a failure is never fatal.
pub struct ReadError {
    pub message: String,
}

/// Why a delivery to an output destination failed; failures stay local
/// to the sink.
pub struct WriteError {
    pub message: String,
}

/// A boundary component producing conversation text: a message, the end
/// of the stream, or a failed read.
pub trait InputSource {
    /// The name of the input source.
    fn name(&self) -> (r: String);

    /// Reads the next message: `Ok(Some)` carries text, `Ok(None)` says
    /// the stream is (for now) empty, `Err` reports a failed read.
    fn read_message(&mut self) -> (r: Result<Option<String>, ReadError>);
}

/// A boundary component accepting conversation text for delivery.
pub trait OutputDestination {
    /// The name of the output destination.
    fn name(&self) -> (r: String);

    /// Attempts one delivery; a failure stays local to this sink.
    fn write_message(&mut self, role: &str, content: &str) -> (r: Result<(), WriteError>);
}

/// One unit on the shared input channel: the text of a message and the
/// index of the source it came from, kept for attribution only.
pub struct SourceMessage {
    pub source_index: usize,
    pub content: String,
}

/// Delivers one message to every sink in turn, never skipping one:
/// each sink's outcome is recorded, and a failure neither cancels nor
/// delays the deliveries that follow. The result holds exactly one
/// entry per sink, true where the delivery succeeded.
pub fn send_to_all_outputs<S: OutputDestination>(
    outputs: &mut Vec<S>,
    role: &str,
    content: &str,
) -> (delivered: Vec<bool>)
    ensures
        delivered@.len() == old(outputs)@.len(),
        final(outputs)@.len() == old(outputs)@.len(),
{
    let mut delivered: Vec<bool> = Vec::new();
    let mut i: usize = 0;
    while i < outputs.len()
        invariant
            i <= outputs@.len(),
            outputs@.len() == old(outputs)@.len(),
            delivered@.len() == i,
        decreases outputs@.len() - i,
    {
        let r = outputs[i].write_message(role, content);
        delivered.push(r.is_ok());
        i = i + 1;
    }
    delivered
}

/// Whether a message is the exit command, compared without regard to
/// ASCII case.
pub open spec fn is_exit_view(s: Seq<char>) -> bool {
    ci_eq(s, "exit"@)
}

/// Recognizes the exit command: the text `exit` in any ASCII case. It
/// ends the session instead of becoming a conversation turn.
pub fn is_exit_command(content: &str) -> (r: bool)
    ensures
        r == is_exit_view(content@),
{
    crate::util::eq_ignore_ascii_case(content, "exit")
}

/// What a line read from a terminal becomes: trimmed of surrounding
/// whitespace, and dropped entirely when nothing is left.
pub open spec fn normalized_line(s: Seq<char>) -> Option<Seq<char>> {
    if trimmed_view(s).len() == 0 {
        None
    } else {
        Some(trimmed_view(s))
    }
}

/// Normalizes one line of terminal input: trims it and drops it when
/// blank.
pub fn normalize_input_line(line: &str) -> (r: Option<String>)
    ensures
        match r {
            Some(s) => normalized_line(line@) == Some(s@),
            None => normalized_line(line@) is None,
        },
{
    let t = trim_text(line);
    if t.as_str().unicode_len() == 0 {
        None
    } else {
        Some(t)
    }
}

/// The input transports the agent can be configured with; new adapter
/// types add a variant here without touching the multiplexer.
#[derive(Debug, PartialEq, Eq, Structural, Clone, Copy)]
pub enum SourceKind {
    Mqtt,
    Stdin,
    Webhook,
}

/// The output transports the agent can be configured with.
#[derive(Debug, PartialEq, Eq, Structural, Clone, Copy)]
pub enum SinkKind {
    Mqtt,
    Stdout,
}

/// Resolves a configured input source name to its transport; an
/// unknown name is reported so that the caller can log and skip it.
pub fn source_kind_of(name: &str) -> (r: Result<SourceKind, ()>)
    ensures
        name@ == "mqtt"@ ==> r == Ok::<SourceKind, ()>(SourceKind::Mqtt),
        name@ == "stdin"@ ==> r == Ok::<SourceKind, ()>(SourceKind::Stdin),
        name@ == "webhook"@ ==> r == Ok::<SourceKind, ()>(SourceKind::Webhook),
        name@ != "mqtt"@ && name@ != "stdin"@ && name@ != "webhook"@ ==> r is Err,
{
    proof {
        reveal_strlit("mqtt");
        reveal_strlit("stdin");
        reveal_strlit("webhook");
        assert("mqtt"@.len() == 4);
        assert("stdin"@.len() == 5);
        assert("webhook"@.len() == 7);
        assert("mqtt"@ != "stdin"@ && "mqtt"@ != "webhook"@ && "stdin"@ != "webhook"@);
    }
    if name.to_owned() == String::from_str("mqtt") {
        Ok(SourceKind::Mqtt)
    } else if name.to_owned() == String::from_str("stdin") {
        Ok(SourceKind::Stdin)
    } else if name.to_owned() == String::from_str("webhook") {
        Ok(SourceKind::Webhook)
    } else {
        Err(())
    }
}

/// Resolves a configured output destination name to its transport; an
/// unknown name is reported so that the caller can log and skip it.
pub fn sink_kind_of(name: &str) -> (r: Result<SinkKind, ()>)
    ensures
        name@ == "mqtt"@ ==> r == Ok::<SinkKind, ()>(SinkKind::Mqtt),
        name@ == "stdout"@ ==> r == Ok::<SinkKind, ()>(SinkKind::Stdout),
        name@ != "mqtt"@ && name@ != "stdout"@ ==> r is Err,
{
    proof {
        reveal_strlit("mqtt");
        reveal_strlit("stdout");
        assert("mqtt"@.len() == 4);
        assert("stdout"@.len() == 6);
        assert("mqtt"@ != "stdout"@);
    }
    if name.to_owned() == String::from_str("mqtt") {
        Ok(SinkKind::Mqtt)
    } else if name.to_owned() == String::from_str("stdout") {
        Ok(SinkKind::Stdout)
    } else {
        Err(())
    }
}

/// One fan-in worker's reaction to a poll of its source: forward the
/// message it got, wait before polling again, or stop for good.
#[derive(Debug, PartialEq, Eq, Structural)]
pub enum SourceAction {
    Forward,
    SleepMs(u64),
    Stop,
}

/// What one poll of a source came out as, raced against the shutdown
/// signal.
#[derive(Debug, PartialEq, Eq, Structural)]
pub enum SourceEvent {
    Received,
    EmptyPoll,
    ReadFailed,
    ChannelClosed,
    ShutdownObserved,
}

/// The per-source fan-in loop state: whether the worker is stopping,
/// and its current error backoff.
pub struct SourcePollMachine {
    pub stopping: bool,
    pub backoff_ms: u64,
}

/// The backoff of a fan-in worker is always between its floor and its
/// cap.
pub open spec fn source_poll_wf(m: SourcePollMachine) -> bool {
    100 <= m.backoff_ms <= 30000
}

/// What one event does to a fan-in worker: a message resets the backoff
/// and is forwarded; an empty poll waits a short fixed interval; a
/// failed read waits the current backoff and doubles it up to the cap;
/// shutdown or a closed channel stops the worker, and a stopped worker
/// never works again.
pub open spec fn source_step_spec(m: SourcePollMachine, ev: SourceEvent) -> (
    SourcePollMachine,
    SourceAction,
) {
    if m.stopping {
        (m, SourceAction::Stop)
    } else {
        match ev {
            SourceEvent::ShutdownObserved => (
                SourcePollMachine { stopping: true, ..m },
                SourceAction::Stop,
            ),
            SourceEvent::ChannelClosed => (
                SourcePollMachine { stopping: true, ..m },
                SourceAction::Stop,
            ),
            SourceEvent::Received => (
                SourcePollMachine { backoff_ms: 100, ..m },
                SourceAction::Forward,
            ),
            SourceEvent::EmptyPoll => (m, SourceAction::SleepMs(100)),
            SourceEvent::ReadFailed => (
                SourcePollMachine {
                    backoff_ms: if 2 * m.backoff_ms > 30000 {
                        30000 as u64
                    } else {
                        (2 * m.backoff_ms) as u64
                    },
                    ..m
                },
                SourceAction::SleepMs(m.backoff_ms),
            ),
        }
    }
}

impl SourcePollMachine {
    /// A fresh worker: running, with the backoff at its floor.
    pub fn new() -> (m: SourcePollMachine)
        ensures
            m.stopping == false,
            m.backoff_ms == 100,
            source_poll_wf(m),
    {
        SourcePollMachine { stopping: false, backoff_ms: 100 }
    }

    /// Feeds one poll outcome into the worker's state.
    pub fn on_event(&mut self, ev: SourceEvent) -> (act: SourceAction)
        requires
            source_poll_wf(*old(self)),
        ensures
            source_poll_wf(*final(self)),
            (*final(self), act) == source_step_spec(*old(self), ev),
    {
        if self.stopping {
            return SourceAction::Stop;
        }
        match ev {
            SourceEvent::ShutdownObserved => {
                self.stopping = true;
                SourceAction::Stop
            },
            SourceEvent::ChannelClosed => {
                self.stopping = true;
                SourceAction::Stop
            },
            SourceEvent::Received => {
                self.backoff_ms = 100;
                SourceAction::Forward
            },
            SourceEvent::EmptyPoll => SourceAction::SleepMs(100),
            SourceEvent::ReadFailed => {
                let wait = self.backoff_ms;
                self.backoff_ms = if 2 * self.backoff_ms > 30000 {
                    30000
                } else {
                    2 * self.backoff_ms
                };
                SourceAction::SleepMs(wait)
            },
        }
    }
}

/// Once a worker has observed the shutdown signal, no later event makes
/// it forward a message or sleep for another poll: every answer from
/// then on is to stop.
pub proof fn lemma_source_stops_after_shutdown(m: SourcePollMachine, ev: SourceEvent)
    ensures
        source_step_spec(source_step_spec(m, SourceEvent::ShutdownObserved).0, ev).1
            == SourceAction::Stop,
{
}

/// Polls one source up to `max_polls` times, forwarding every message
/// it yields onto the shared inbox tagged with this source's index,
/// exactly as the fan-in worker does between shutdown checks. Every
/// inbox entry this adds carries `source_index`.
pub fn drain_source<S: InputSource>(
    source: &mut S,
    source_index: usize,
    inbox: &mut Vec<SourceMessage>,
    max_polls: usize,
) -> (polls: usize)
    ensures
        final(inbox)@.len() >= old(inbox)@.len(),
        forall|k: int|
            old(inbox)@.len() <= k < final(inbox)@.len() ==> #[trigger] final(inbox)@[k].source_index
                == source_index,
        forall|k: int| 0 <= k < old(inbox)@.len() ==> final(inbox)@[k] == old(inbox)@[k],
{
    let mut machine = SourcePollMachine::new();
    let mut polls: usize = 0;
    while polls < max_polls
        invariant
            source_poll_wf(machine),
            polls <= max_polls,
            inbox@.len() >= old(inbox)@.len(),
            forall|k: int|
                old(inbox)@.len() <= k < inbox@.len() ==> (#[trigger] inbox@[k]).source_index
                    == source_index,
            forall|k: int| 0 <= k < old(inbox)@.len() ==> inbox@[k] == old(inbox)@[k],
        decreases max_polls - polls,
    {
        let outcome = source.read_message();
        match outcome {
            Ok(Some(content)) => {
                let act = machine.on_event(SourceEvent::Received);
                if act == SourceAction::Forward {
                    inbox.push(SourceMessage { source_index, content });
                }
            },
            Ok(None) => {
                let _act = machine.on_event(SourceEvent::EmptyPoll);
            },
            Err(_) => {
                let _act = machine.on_event(SourceEvent::ReadFailed);
            },
        }
        polls = polls + 1;
    }
    polls
}

} // verus!
