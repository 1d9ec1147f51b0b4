//! Readiness probe: wait until a port accepts connections, or give up at a
//! deadline.
//!
//! The poll attempts a connection, and after each failure sleeps for a fixed
//! interval before it looks at the clock again: it never tries twice in a row
//! without the sleep between. It only observes the port; it is never the
//! listener itself.

use crate::timing::{elapsed, elapsed_ms, READY_POLL_INTERVAL_MS};
use vstd::prelude::*;

verus! {

/// What the driver of a poll has to do next.
#[derive(Clone, Copy, Debug, PartialEq, Eq)]
pub enum PollAction {
    /// Try to connect to this port on the loopback interface and report
    /// whether the connection was accepted.
    Probe(u16),
    /// Sleep for this many milliseconds, then report the time.
    Sleep(u64),
    /// The poll is over: the port is ready (`true`), or the deadline passed
    /// first (`false`).
    Done(bool),
}

/// What the driver reports back.
#[derive(Clone, Copy, Debug, PartialEq, Eq)]
pub enum PollEvent {
    /// The connection attempt was made; `true` if it was accepted.
    Connected(bool),
    /// The sleep is over, and the clock now reads `now_ms`.
    Woke { now_ms: u64 },
}

#[derive(Clone, Copy, Debug, PartialEq, Eq)]
enum PollPhase {
    Probing,
    Sleeping,
    Done(bool),
}

/// A poll in progress.
#[derive(Clone, Copy, Debug)]
pub struct ReadinessPoll {
    port: u16,
    begun_ms: u64,
    timeout_ms: u64,
    phase: PollPhase,
}

impl ReadinessPoll {
    /// The port that is polled.
    pub closed spec fn port(self) -> u16 {
        self.port
    }

    /// The clock reading at which the poll began.
    pub closed spec fn begun(self) -> u64 {
        self.begun_ms
    }

    /// How long after its beginning the poll gives up.
    pub closed spec fn timeout(self) -> u64 {
        self.timeout_ms
    }

    /// The deadline has not passed when the clock reads `now_ms`.
    pub open spec fn in_time(self, now_ms: u64) -> bool {
        elapsed(self.begun(), now_ms) < self.timeout()
    }

    /// The action the poll is waiting on.
    pub closed spec fn action(self) -> PollAction {
        match self.phase {
            PollPhase::Probing => PollAction::Probe(self.port),
            PollPhase::Sleeping => PollAction::Sleep(READY_POLL_INTERVAL_MS),
            PollPhase::Done(ready) => PollAction::Done(ready),
        }
    }

    /// `event` answers the pending action.
    pub open spec fn accepts(self, event: PollEvent) -> bool {
        match (self.action(), event) {
            (PollAction::Probe(_), PollEvent::Connected(_)) => true,
            (PollAction::Sleep(_), PollEvent::Woke { .. }) => true,
            _ => false,
        }
    }

    /// A poll of `port` that begins when the clock reads `now_ms` and gives up
    /// `timeout_ms` later.
    pub closed spec fn start(port: u16, timeout_ms: u64, now_ms: u64) -> Self {
        ReadinessPoll {
            port,
            begun_ms: now_ms,
            timeout_ms,
            phase: if timeout_ms > 0 {
                PollPhase::Probing
            } else {
                PollPhase::Done(false)
            },
        }
    }

    /// The poll after `event`. An event that does not answer the pending
    /// action leaves the poll as it is.
    pub closed spec fn after(self, event: PollEvent) -> Self {
        match (self.phase, event) {
            (PollPhase::Probing, PollEvent::Connected(accepted)) => ReadinessPoll {
                phase: if accepted {
                    PollPhase::Done(true)
                } else {
                    PollPhase::Sleeping
                },
                ..self
            },
            (PollPhase::Sleeping, PollEvent::Woke { now_ms }) => ReadinessPoll {
                phase: if self.in_time(now_ms) {
                    PollPhase::Probing
                } else {
                    PollPhase::Done(false)
                },
                ..self
            },
            _ => self,
        }
    }

    /// What a step does, told by the actions before and after it.
    pub open spec fn steps_to(self, event: PollEvent, next: Self) -> bool {
        &&& next.port() == self.port()
        &&& next.begun() == self.begun()
        &&& next.timeout() == self.timeout()
        &&& match (self.action(), event) {
            (PollAction::Probe(_), PollEvent::Connected(accepted)) => next.action() == if accepted {
                PollAction::Done(true)
            } else {
                PollAction::Sleep(READY_POLL_INTERVAL_MS)
            },
            (PollAction::Sleep(_), PollEvent::Woke { now_ms }) => next.action() == if self.in_time(
                now_ms,
            ) {
                PollAction::Probe(self.port())
            } else {
                PollAction::Done(false)
            },
            _ => next == self,
        }
    }

    /// Begins a poll of `port` at clock reading `now_ms`. With a positive
    /// timeout the first action is a probe; with none the poll is over at
    /// once, and the port counts as not ready.
    pub fn begin(port: u16, timeout_ms: u64, now_ms: u64) -> (poll: Self)
        ensures
            poll == Self::start(port, timeout_ms, now_ms),
            poll.port() == port,
            poll.begun() == now_ms,
            poll.timeout() == timeout_ms,
            poll.action() == if timeout_ms > 0 {
                PollAction::Probe(port)
            } else {
                PollAction::Done(false)
            },
    {
        ReadinessPoll {
            port,
            begun_ms: now_ms,
            timeout_ms,
            phase: if timeout_ms > 0 {
                PollPhase::Probing
            } else {
                PollPhase::Done(false)
            },
        }
    }

    /// The port that is polled.
    pub fn target(&self) -> (port: u16)
        ensures
            port == self.port(),
    {
        self.port
    }

    /// What to do next.
    pub fn pending(&self) -> (action: PollAction)
        ensures
            action == self.action(),
    {
        match self.phase {
            PollPhase::Probing => PollAction::Probe(self.port),
            PollPhase::Sleeping => PollAction::Sleep(READY_POLL_INTERVAL_MS),
            PollPhase::Done(ready) => PollAction::Done(ready),
        }
    }

    /// Takes the result of the pending action. An accepted connection ends
    /// the poll with success. A refused one is followed by a sleep. After the
    /// sleep the poll probes again if the deadline has not passed, and ends
    /// without success if it has. Any other event changes nothing.
    pub fn step(&mut self, event: PollEvent)
        ensures
            *final(self) == old(self).after(event),
            old(self).steps_to(event, *final(self)),
    {
        match (self.phase, event) {
            (PollPhase::Probing, PollEvent::Connected(accepted)) => {
                self.phase = if accepted {
                    PollPhase::Done(true)
                } else {
                    PollPhase::Sleeping
                };
            },
            (PollPhase::Sleeping, PollEvent::Woke { now_ms }) => {
                self.phase = if elapsed_ms(self.begun_ms, now_ms) < self.timeout_ms {
                    PollPhase::Probing
                } else {
                    PollPhase::Done(false)
                };
            },
            _ => {},
        }
    }
}

/// The first action of a poll: a probe of its port where the timeout is
/// positive, else the end without success.
pub proof fn lemma_start(port: u16, timeout_ms: u64, now_ms: u64)
    ensures
        ReadinessPoll::start(port, timeout_ms, now_ms).port() == port,
        ReadinessPoll::start(port, timeout_ms, now_ms).begun() == now_ms,
        ReadinessPoll::start(port, timeout_ms, now_ms).timeout() == timeout_ms,
        ReadinessPoll::start(port, timeout_ms, now_ms).action() == if timeout_ms > 0 {
            PollAction::Probe(port)
        } else {
            PollAction::Done(false)
        },
{
}

/// Every step is as [`ReadinessPoll::steps_to`] tells.
pub proof fn lemma_after(poll: ReadinessPoll, event: PollEvent)
    ensures
        poll.steps_to(event, poll.after(event)),
        !poll.accepts(event) ==> poll.after(event) == poll,
{
}

/// A poll never probes twice without a sleep between: the step that follows
/// a probe leads to the end or to a sleep, and only the step that follows a
/// sleep leads to a probe.
pub proof fn lemma_sleep_between_probes(poll: ReadinessPoll, event: PollEvent)
    requires
        poll.accepts(event),
    ensures
        poll.action() is Probe ==> !(poll.after(event).action() is Probe),
        poll.after(event).action() is Probe ==> poll.action() == PollAction::Sleep(
            READY_POLL_INTERVAL_MS,
        ),
{
}

/// A poll ends with success only on an accepted connection to its port, and
/// without success only at a clock reading past its deadline.
pub proof fn lemma_verdict_is_earned(poll: ReadinessPoll, event: PollEvent)
    requires
        !(poll.action() is Done),
    ensures
        poll.after(event).action() == PollAction::Done(true) ==> poll.action()
            == PollAction::Probe(poll.port()) && event == PollEvent::Connected(true),
        poll.after(event).action() == PollAction::Done(false) ==> (event matches PollEvent::Woke {
            now_ms,
        } && !poll.in_time(now_ms)),
{
}

/// On a port that accepts the first connection, a poll with a positive
/// timeout reports success at once, without a sleep.
pub proof fn lemma_listening_port_is_ready_at_once(port: u16, timeout_ms: u64, now_ms: u64)
    requires
        timeout_ms > 0,
    ensures
        ReadinessPoll::start(port, timeout_ms, now_ms).action() == PollAction::Probe(port),
        ReadinessPoll::start(port, timeout_ms, now_ms).after(PollEvent::Connected(true)).action()
            == PollAction::Done(true),
{
}

} // verus!
