//! The resilience state machine shared by connection-oriented adapters:
//! reconnect forever with capped exponential backoff, re-issue
//! subscriptions after every reconnection, warn after too many
//! consecutive errors, and stop cleanly when shutdown is observed.

use vstd::prelude::*;
use crate::retry::{io_backoff_ms, adapter_backoff_ms};

verus! {

/// Where a connection-oriented adapter stands.
#[derive(Debug, PartialEq, Eq, Structural)]
pub enum ConnectionPhase {
    Connecting,
    Connected,
    ShuttingDown,
}

/// What the adapter's event loop observed: a (re)established
/// connection, useful traffic, a failure, or the shutdown signal.
#[derive(Debug, PartialEq, Eq, Structural)]
pub enum ConnectionEvent {
    Established,
    Activity,
    Failed,
    ShutdownObserved,
}

/// What the event loop must do next. After a failure it backs off for
/// the given delay, and `warn` says whether to emit an operational
/// warning about an unstable connection; behaviour does not otherwise
/// change.
#[derive(Debug, PartialEq, Eq, Structural)]
pub enum ConnectionAction {
    Resubscribe,
    Continue,
    BackOff { delay_ms: u64, warn: bool },
    Stop,
}

/// The monitor an adapter's event loop runs: its phase and how many
/// consecutive errors it has seen.
pub struct ConnectionMonitor {
    pub phase: ConnectionPhase,
    pub consecutive_errors: u64,
}

/// What one event does to the monitor: an established connection
/// re-issues subscriptions and resets the error count, traffic resets
/// the error count, a failure bumps it and backs off (warning once more
/// than five errors are consecutive), shutdown stops the loop, and a
/// stopped loop never works again.
pub open spec fn connection_step_spec(m: ConnectionMonitor, ev: ConnectionEvent) -> (
    ConnectionMonitor,
    ConnectionAction,
) {
    if m.phase == ConnectionPhase::ShuttingDown {
        (m, ConnectionAction::Stop)
    } else {
        match ev {
            ConnectionEvent::ShutdownObserved => (
                ConnectionMonitor { phase: ConnectionPhase::ShuttingDown, ..m },
                ConnectionAction::Stop,
            ),
            ConnectionEvent::Established => (
                ConnectionMonitor { phase: ConnectionPhase::Connected, consecutive_errors: 0 },
                ConnectionAction::Resubscribe,
            ),
            ConnectionEvent::Activity => (
                ConnectionMonitor { consecutive_errors: 0, ..m },
                ConnectionAction::Continue,
            ),
            ConnectionEvent::Failed => {
                let bumped: u64 = if m.consecutive_errors == u64::MAX {
                    u64::MAX
                } else {
                    (m.consecutive_errors + 1) as u64
                };
                (
                    ConnectionMonitor { consecutive_errors: bumped, ..m },
                    ConnectionAction::BackOff {
                        delay_ms: io_backoff_ms(bumped as nat) as u64,
                        warn: bumped > 5,
                    },
                )
            },
        }
    }
}

impl ConnectionMonitor {
    /// A fresh monitor: connecting, with no errors seen.
    pub fn new() -> (m: ConnectionMonitor)
        ensures
            m.phase == ConnectionPhase::Connecting,
            m.consecutive_errors == 0,
    {
        ConnectionMonitor { phase: ConnectionPhase::Connecting, consecutive_errors: 0 }
    }

    /// Feeds one observation into the monitor.
    pub fn on_event(&mut self, ev: ConnectionEvent) -> (act: ConnectionAction)
        ensures
            (*final(self), act) == connection_step_spec(*old(self), ev),
    {
        if self.phase == ConnectionPhase::ShuttingDown {
            return ConnectionAction::Stop;
        }
        match ev {
            ConnectionEvent::ShutdownObserved => {
                self.phase = ConnectionPhase::ShuttingDown;
                ConnectionAction::Stop
            },
            ConnectionEvent::Established => {
                self.phase = ConnectionPhase::Connected;
                self.consecutive_errors = 0;
                ConnectionAction::Resubscribe
            },
            ConnectionEvent::Activity => {
                self.consecutive_errors = 0;
                ConnectionAction::Continue
            },
            ConnectionEvent::Failed => {
                if self.consecutive_errors < u64::MAX {
                    self.consecutive_errors = self.consecutive_errors + 1;
                }
                let delay = adapter_backoff_ms(self.consecutive_errors);
                ConnectionAction::BackOff { delay_ms: delay, warn: self.consecutive_errors > 5 }
            },
        }
    }
}

/// Once the shutdown signal is observed, a connection-oriented adapter
/// issues no further subscriptions, traffic or backoffs: every answer
/// from then on is to stop.
pub proof fn lemma_connection_stops_after_shutdown(m: ConnectionMonitor, ev: ConnectionEvent)
    ensures
        connection_step_spec(
            connection_step_spec(m, ConnectionEvent::ShutdownObserved).0,
            ev,
        ).1 == ConnectionAction::Stop,
{
}

} // verus!
