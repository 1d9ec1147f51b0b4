//! Shutdown sequencer: end a child process, gracefully where the platform
//! allows it, forcefully otherwise.
//!
//! Where process groups can be signalled, the child's group is asked to
//! terminate, and the child's exit status is polled at a fixed interval for a
//! bounded grace period. A child that has not exited by then is killed.
//! Elsewhere the child is killed directly. Either way the sequence ends: the
//! backend may need time to close what it holds, but it never outlives its
//! supervisor.

use crate::timing::{elapsed, elapsed_ms, EXIT_POLL_INTERVAL_MS, GRACE_PERIOD_MS};
use vstd::prelude::*;

verus! {

/// What the driver of a shutdown has to do next.
#[derive(Clone, Copy, Debug, PartialEq, Eq)]
pub enum StopAction {
    /// Send the termination signal to `target`, a negated process-group id,
    /// and report the time. A failure to deliver is not an error.
    SignalGroup { target: i32 },
    /// Look at the child's exit status without blocking, and report whether
    /// it has exited.
    PollExit,
    /// Sleep for this many milliseconds, then report the time.
    Sleep(u64),
    /// Kill the child unconditionally. A failure is not an error.
    Kill,
    /// The sequence is over.
    Done,
}

/// What the driver reports back.
#[derive(Clone, Copy, Debug, PartialEq, Eq)]
pub enum StopEvent {
    /// The signal was sent, or sending failed; the clock now reads `now_ms`.
    Signalled { now_ms: u64 },
    /// The exit status was looked at; `exited` is true if the child is gone.
    ExitStatus { exited: bool },
    /// The sleep is over, and the clock now reads `now_ms`.
    Woke { now_ms: u64 },
    /// The kill was attempted.
    Killed,
}

#[derive(Clone, Copy, Debug, PartialEq, Eq)]
enum StopPhase {
    Signalling,
    Polling,
    Sleeping,
    Killing,
    Done,
}

/// The argument that makes a signal reach the whole process group led by
/// `pid`: the negated id. There is none for ids whose negation would mean
/// something else to the operating system (0 and 1) or does not exist (above
/// `i32::MAX`).
pub open spec fn group_target(pid: u32) -> Option<i32> {
    if 2 <= pid <= i32::MAX {
        Some((-(pid as int)) as i32)
    } else {
        None
    }
}

/// Computes [`group_target`].
pub fn signal_target(pid: u32) -> (target: Option<i32>)
    ensures
        target == group_target(pid),
        target matches Some(t) ==> t < -1 && t == -(pid as int),
{
    if 2 <= pid && pid <= 0x7fff_ffff {
        let id: i32 = pid as i32;
        Some(-id)
    } else {
        None
    }
}

/// A shutdown in progress.
#[derive(Clone, Copy, Debug)]
pub struct Shutdown {
    pid: u32,
    begun_ms: u64,
    phase: StopPhase,
}

impl Shutdown {
    /// A sequence signals only a group that has a target.
    #[verifier::type_invariant]
    pub closed spec fn wf(self) -> bool {
        self.phase == StopPhase::Signalling ==> group_target(self.pid) is Some
    }

    /// The process id of the child.
    pub closed spec fn pid(self) -> u32 {
        self.pid
    }

    /// The clock reading from which the grace period counts.
    pub closed spec fn begun(self) -> u64 {
        self.begun_ms
    }

    /// The grace period has not passed when the clock reads `now_ms`.
    pub open spec fn in_grace(self, now_ms: u64) -> bool {
        elapsed(self.begun(), now_ms) < GRACE_PERIOD_MS
    }

    /// The action the sequence is waiting on.
    pub closed spec fn action(self) -> StopAction {
        match self.phase {
            StopPhase::Signalling => StopAction::SignalGroup {
                target: (-(self.pid as int)) as i32,
            },
            StopPhase::Polling => StopAction::PollExit,
            StopPhase::Sleeping => StopAction::Sleep(EXIT_POLL_INTERVAL_MS),
            StopPhase::Killing => StopAction::Kill,
            StopPhase::Done => StopAction::Done,
        }
    }

    /// `event` answers the pending action.
    pub open spec fn accepts(self, event: StopEvent) -> bool {
        match (self.action(), event) {
            (StopAction::SignalGroup { .. }, StopEvent::Signalled { .. }) => true,
            (StopAction::PollExit, StopEvent::ExitStatus { .. }) => true,
            (StopAction::Sleep(_), StopEvent::Woke { .. }) => true,
            (StopAction::Kill, StopEvent::Killed) => true,
            _ => false,
        }
    }

    /// The sequence for the child `pid` before its first action. It is
    /// graceful where `group_signals` holds and the child's group has a
    /// target.
    pub closed spec fn start(pid: u32, group_signals: bool) -> Self {
        Shutdown {
            pid,
            begun_ms: 0,
            phase: if group_signals && group_target(pid) is Some {
                StopPhase::Signalling
            } else {
                StopPhase::Killing
            },
        }
    }

    /// The sequence after `event`. An event that does not answer the pending
    /// action leaves the sequence as it is.
    pub closed spec fn after(self, event: StopEvent) -> Self {
        match (self.phase, event) {
            (StopPhase::Signalling, StopEvent::Signalled { now_ms }) => Shutdown {
                begun_ms: now_ms,
                phase: StopPhase::Polling,
                ..self
            },
            (StopPhase::Polling, StopEvent::ExitStatus { exited }) => Shutdown {
                phase: if exited {
                    StopPhase::Done
                } else {
                    StopPhase::Sleeping
                },
                ..self
            },
            (StopPhase::Sleeping, StopEvent::Woke { now_ms }) => Shutdown {
                phase: if self.in_grace(now_ms) {
                    StopPhase::Polling
                } else {
                    StopPhase::Killing
                },
                ..self
            },
            (StopPhase::Killing, StopEvent::Killed) => Shutdown { phase: StopPhase::Done, ..self },
            _ => self,
        }
    }

    /// What a step does, told by the actions before and after it.
    pub open spec fn steps_to(self, event: StopEvent, next: Self) -> bool {
        &&& next.pid() == self.pid()
        &&& match (self.action(), event) {
            (StopAction::SignalGroup { .. }, StopEvent::Signalled { now_ms }) => {
                &&& next.action() == StopAction::PollExit
                &&& next.begun() == now_ms
            },
            (StopAction::PollExit, StopEvent::ExitStatus { exited }) => {
                &&& next.action() == if exited {
                    StopAction::Done
                } else {
                    StopAction::Sleep(EXIT_POLL_INTERVAL_MS)
                }
                &&& next.begun() == self.begun()
            },
            (StopAction::Sleep(_), StopEvent::Woke { now_ms }) => {
                &&& next.action() == if self.in_grace(now_ms) {
                    StopAction::PollExit
                } else {
                    StopAction::Kill
                }
                &&& next.begun() == self.begun()
            },
            (StopAction::Kill, StopEvent::Killed) => {
                &&& next.action() == StopAction::Done
                &&& next.begun() == self.begun()
            },
            _ => next == self,
        }
    }

    /// Begins the shutdown of the child with process id `pid`.
    /// `group_signals` says whether the platform can signal process groups.
    /// Where it can, and the child's group has a target, the first action is
    /// the signal to the group; otherwise it is the kill.
    pub fn begin(pid: u32, group_signals: bool) -> (sequence: Self)
        ensures
            sequence == Self::start(pid, group_signals),
            sequence.wf(),
            sequence.pid() == pid,
            sequence.action() == match group_target(pid) {
                Some(target) if group_signals => StopAction::SignalGroup { target },
                _ => StopAction::Kill,
            },
    {
        let graceful = group_signals && signal_target(pid).is_some();
        Shutdown {
            pid,
            begun_ms: 0,
            phase: if graceful {
                StopPhase::Signalling
            } else {
                StopPhase::Killing
            },
        }
    }

    /// What to do next. A signal is only ever asked for a process group: its
    /// target is below -1, the negated id of the child.
    pub fn pending(&self) -> (action: StopAction)
        ensures
            action == self.action(),
            action matches StopAction::SignalGroup { target } ==> target < -1 && Some(target)
                == group_target(self.pid()),
    {
        proof {
            use_type_invariant(self);
        }
        match self.phase {
            StopPhase::Signalling => {
                match signal_target(self.pid) {
                    Some(target) => StopAction::SignalGroup { target },
                    None => StopAction::Kill,
                }
            },
            StopPhase::Polling => StopAction::PollExit,
            StopPhase::Sleeping => StopAction::Sleep(EXIT_POLL_INTERVAL_MS),
            StopPhase::Killing => StopAction::Kill,
            StopPhase::Done => StopAction::Done,
        }
    }

    /// Takes the result of the pending action. After the signal the grace
    /// period begins and the exit status is polled. A child that has exited
    /// ends the sequence; one that has not is looked at again after a sleep,
    /// as long as the grace period lasts, and killed once it is over. The
    /// kill ends the sequence. Any other event changes nothing.
    pub fn step(&mut self, event: StopEvent)
        ensures
            *final(self) == old(self).after(event),
            final(self).wf(),
            old(self).steps_to(event, *final(self)),
    {
        proof {
            use_type_invariant(&*self);
        }
        match (self.phase, event) {
            (StopPhase::Signalling, StopEvent::Signalled { now_ms }) => {
                self.begun_ms = now_ms;
                self.phase = StopPhase::Polling;
            },
            (StopPhase::Polling, StopEvent::ExitStatus { exited }) => {
                self.phase = if exited {
                    StopPhase::Done
                } else {
                    StopPhase::Sleeping
                };
            },
            (StopPhase::Sleeping, StopEvent::Woke { now_ms }) => {
                self.phase = if elapsed_ms(self.begun_ms, now_ms) < GRACE_PERIOD_MS {
                    StopPhase::Polling
                } else {
                    StopPhase::Killing
                };
            },
            (StopPhase::Killing, StopEvent::Killed) => {
                self.phase = StopPhase::Done;
            },
            _ => {},
        }
    }
}

/// The first action of a shutdown: the signal to the child's group where
/// groups can be signalled and the group has a target, the kill otherwise.
pub proof fn lemma_start(pid: u32, group_signals: bool)
    ensures
        Shutdown::start(pid, group_signals).wf(),
        Shutdown::start(pid, group_signals).pid() == pid,
        Shutdown::start(pid, group_signals).action() == match group_target(pid) {
            Some(target) if group_signals => StopAction::SignalGroup { target },
            _ => StopAction::Kill,
        },
{
}

/// Every step is as [`Shutdown::steps_to`] tells, and keeps the sequence
/// well-formed.
pub proof fn lemma_after(sequence: Shutdown, event: StopEvent)
    requires
        sequence.wf(),
    ensures
        sequence.after(event).wf(),
        sequence.steps_to(event, sequence.after(event)),
        !sequence.accepts(event) ==> sequence.after(event) == sequence,
{
}

/// A signal goes to the child's process group and to nothing else: its
/// target is the negated process id and lies below -1.
pub proof fn lemma_signal_reaches_only_the_group(sequence: Shutdown)
    requires
        sequence.wf(),
    ensures
        sequence.action() matches StopAction::SignalGroup { target } ==> target < -1 && target
            == -(sequence.pid() as int),
{
}

/// A sequence that began with the signal kills the child only once the grace
/// period has passed without the child's exit having been seen.
pub proof fn lemma_kill_waits_for_grace(sequence: Shutdown, event: StopEvent)
    requires
        sequence.wf(),
        sequence.action() != StopAction::Kill,
        sequence.after(event).action() == StopAction::Kill,
    ensures
        sequence.action() == StopAction::Sleep(EXIT_POLL_INTERVAL_MS),
        event matches StopEvent::Woke { now_ms } && !sequence.in_grace(now_ms),
{
}

/// A sequence ends only when the child's exit has been seen or the kill has
/// been attempted.
pub proof fn lemma_done_means_gone(sequence: Shutdown, event: StopEvent)
    requires
        sequence.wf(),
        sequence.action() != StopAction::Done,
        sequence.after(event).action() == StopAction::Done,
    ensures
        event == (StopEvent::ExitStatus { exited: true }) || event == StopEvent::Killed,
{
}

/// Where process groups cannot be signalled there is no graceful phase: the
/// sequence is the kill and nothing else.
pub proof fn lemma_forceful_is_kill_only(pid: u32)
    ensures
        Shutdown::start(pid, false).action() == StopAction::Kill,
        Shutdown::start(pid, false).after(StopEvent::Killed).action() == StopAction::Done,
{
}

} // verus!
