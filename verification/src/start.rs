//! The start sequence: precheck, port scan, spawn, readiness.
//!
//! A sequence is begun by [`Supervisor::begin_start`] or
//! [`Supervisor::begin_restart`]. Its driver performs the pending action
//! without holding the supervisor's lock, then locks and hands the result to
//! [`StartSequence::step`]. The new child is stored by the step that takes
//! the spawn's result, before readiness is polled: a child that is slow to
//! come up is tracked all the same, and a timeout is reported in the result,
//! not as an error.

use crate::launch::{is_plan, plan, LaunchEnv, LaunchPlan};
use crate::ports::{PortScan, ScanAction};
use crate::precheck::{
    check, command, import_script, passed, script_flag, verdict, CommandLine, PrecheckFailure,
    RunResult,
};
use crate::readiness::{PollAction, PollEvent, ReadinessPoll};
use crate::supervisor::{chosen_base, BackendInfo, ChildRecord, Supervisor};
use crate::timing::READY_TIMEOUT_MS;
use vstd::prelude::*;
use vstd::string::*;

verus! {

/// Why a start failed.
#[derive(Debug, PartialEq, Eq)]
pub enum StartError {
    /// The precheck of `runtime` failed. Nothing was spawned.
    PrecheckFailed { runtime: String, reason: PrecheckFailure },
    /// The installation root could not be found. Nothing was spawned.
    RootNotFound,
    /// The operating system refused to spawn the backend.
    SpawnFailed { os_error: String },
}

/// Text of the error for an installation root that was not found.
pub open spec fn root_not_found_text() -> Seq<char> {
    "Cannot find repo root"@
}

/// Text of the error for a failed spawn.
pub open spec fn spawn_failed_text(os_error: Seq<char>) -> Seq<char> {
    "Failed to spawn backend: "@ + os_error
}

impl StartError {
    /// The text of [`StartError::message`].
    pub open spec fn text(self) -> Seq<char> {
        match self {
            StartError::PrecheckFailed { runtime, reason } => reason.start_text(runtime@),
            StartError::RootNotFound => root_not_found_text(),
            StartError::SpawnFailed { os_error } => spawn_failed_text(os_error@),
        }
    }

    /// The error as a message fit for display.
    pub fn message(&self) -> (message: String)
        ensures
            message@ == self.text(),
    {
        match self {
            StartError::PrecheckFailed { runtime, reason } => reason.start_message(
                runtime.as_str(),
            ),
            StartError::RootNotFound => String::from_str("Cannot find repo root"),
            StartError::SpawnFailed { os_error } => {
                let mut message = String::from_str("Failed to spawn backend: ");
                message.append(os_error.as_str());
                message
            },
        }
    }
}

/// What the driver of a start has to do next.
#[derive(Debug, PartialEq, Eq)]
pub enum StartAction {
    /// Run this command to its end and report how it ended.
    RunPrecheck(CommandLine),
    /// Try to connect to this port on the loopback interface and report
    /// whether the connection was accepted.
    ProbePort(u16),
    /// Spawn the backend as planned and report the child or the failure.
    Spawn(LaunchPlan),
    /// Sleep for this many milliseconds, then report the time.
    Sleep(u64),
    /// The sequence is over; collect its outcome with
    /// [`StartSequence::finish`].
    Finish,
}

/// What the driver reports back.
#[derive(Debug, PartialEq, Eq)]
pub enum StartEvent<H> {
    /// The check command was run.
    PrecheckDone(RunResult),
    /// The connection attempt was made; `true` if it was accepted.
    Connected(bool),
    /// The backend was spawned: its handle, its process id, and the clock's
    /// reading after the spawn.
    Spawned { handle: H, pid: u32, now_ms: u64 },
    /// The backend could not be spawned.
    SpawnFailed { os_error: String },
    /// The sleep is over, and the clock now reads `now_ms`.
    Woke { now_ms: u64 },
}

/// Where a start stands.
#[derive(Debug)]
pub enum StartPhase {
    /// The runtime is being checked; the scan will begin at `base`.
    Precheck { base: u16 },
    /// A free port is being looked for.
    Scanning(PortScan),
    /// The backend is being spawned on `port`.
    Spawning { port: u16 },
    /// The child is stored, and its port is polled for readiness.
    Waiting(ReadinessPoll),
    /// The start is over, with this result.
    Finished(Result<BackendInfo, StartError>),
}

/// What a finished start leaves behind.
#[derive(Debug)]
pub struct StartOutcome<H> {
    /// The answer to the caller.
    pub result: Result<BackendInfo, StartError>,
    /// The child that was tracked when the new one was stored, if there was
    /// one. It is no longer tracked and is the caller's to tear down.
    pub displaced: Option<ChildRecord<H>>,
}

/// The event of a poll that a start's event stands for, if any.
pub open spec fn poll_event<H>(event: StartEvent<H>) -> Option<PollEvent> {
    match event {
        StartEvent::Connected(accepted) => Some(PollEvent::Connected(accepted)),
        StartEvent::Woke { now_ms } => Some(PollEvent::Woke { now_ms }),
        _ => None,
    }
}

impl StartPhase {
    /// The phase in which a start begins: finished at once, reporting the
    /// tracked child's port and nothing started, where a child is tracked;
    /// else the precheck, with the scan to begin at the port hint or at the
    /// default base port.
    pub open spec fn begun<H>(record: Option<ChildRecord<H>>, port_hint: Option<u16>) -> Self {
        match record {
            Some(child) => StartPhase::Finished(Ok(BackendInfo { port: child.port, started: false })),
            None => StartPhase::Precheck { base: chosen_base(port_hint) },
        }
    }

    /// The parts of the phase are well-formed, and no phase holds a scan or
    /// a poll that is already over.
    pub open spec fn wf(self) -> bool {
        match self {
            StartPhase::Scanning(scan) => scan.wf() && scan.settled() is None,
            StartPhase::Waiting(poll) => !(poll.action() is Done),
            _ => true,
        }
    }

    /// `event` answers the action that is pending in this phase.
    pub open spec fn accepts<H>(self, event: StartEvent<H>) -> bool {
        match (self, event) {
            (StartPhase::Precheck { .. }, StartEvent::PrecheckDone(_)) => true,
            (StartPhase::Scanning(_), StartEvent::Connected(_)) => true,
            (StartPhase::Spawning { .. }, StartEvent::Spawned { .. }) => true,
            (StartPhase::Spawning { .. }, StartEvent::SpawnFailed { .. }) => true,
            (StartPhase::Waiting(poll), StartEvent::Connected(accepted)) => poll.accepts(
                PollEvent::Connected(accepted),
            ),
            (StartPhase::Waiting(poll), StartEvent::Woke { now_ms }) => poll.accepts(
                PollEvent::Woke { now_ms },
            ),
            _ => false,
        }
    }

    /// The phase that follows this one on `event`, for a start of `runtime`
    /// that knows its installation root or does not. An event that does not
    /// answer the pending action leaves the phase as it is.
    ///
    /// A failed precheck ends the start before any port is probed. A passed
    /// one begins the scan. The scan goes on until it settles; the spawn
    /// follows, or the end where the root is not known. A spawned child is
    /// polled for readiness for a fixed time, and the poll's verdict becomes
    /// the `started` flag of the result; a failed spawn ends the start.
    pub open spec fn next<H>(self, runtime: String, root_known: bool, event: StartEvent<H>) -> Self {
        match (self, event) {
            (StartPhase::Precheck { base }, StartEvent::PrecheckDone(result)) => match verdict(
                result,
            ) {
                Ok(_) => StartPhase::Scanning(PortScan::start(base)),
                Err(reason) => StartPhase::Finished(
                    Err(StartError::PrecheckFailed { runtime, reason }),
                ),
            },
            (StartPhase::Scanning(scan), StartEvent::Connected(listening)) => match scan.after(
                listening,
            ).settled() {
                None => StartPhase::Scanning(scan.after(listening)),
                Some(port) => if root_known {
                    StartPhase::Spawning { port }
                } else {
                    StartPhase::Finished(Err(StartError::RootNotFound))
                },
            },
            (StartPhase::Spawning { port }, StartEvent::Spawned { now_ms, .. }) => {
                StartPhase::Waiting(ReadinessPoll::start(port, READY_TIMEOUT_MS, now_ms))
            },
            (StartPhase::Spawning { .. }, StartEvent::SpawnFailed { os_error }) => {
                StartPhase::Finished(Err(StartError::SpawnFailed { os_error }))
            },
            (StartPhase::Waiting(poll), _) => match poll_event(event) {
                Some(answer) if poll.accepts(answer) => match poll.after(answer).action() {
                    PollAction::Done(ready) => StartPhase::Finished(
                        Ok(BackendInfo { port: poll.port(), started: ready }),
                    ),
                    _ => StartPhase::Waiting(poll.after(answer)),
                },
                _ => self,
            },
            _ => self,
        }
    }

    /// The record that the supervisor holds after `event` was taken in this
    /// phase, where it held `record` before: the spawned child where the
    /// event reports one to a start that is spawning, else what it held.
    pub open spec fn tracked_after<H>(
        self,
        record: Option<ChildRecord<H>>,
        event: StartEvent<H>,
    ) -> Option<ChildRecord<H>> {
        match (self, event) {
            (StartPhase::Spawning { port }, StartEvent::Spawned { handle, pid, now_ms }) => Some(
                ChildRecord { handle, pid, port, started_ms: now_ms },
            ),
            _ => record,
        }
    }

    /// `action` is what this phase asks of the driver, in a start of
    /// `runtime` within `env`.
    pub open spec fn asks(self, runtime: Seq<char>, env: LaunchEnv, action: StartAction) -> bool {
        match self {
            StartPhase::Precheck { .. } => {
                &&& action matches StartAction::RunPrecheck(line)
                &&& line.program@ == runtime
                &&& line.args@.len() == 2
                &&& line.args@[0]@ == script_flag()
                &&& line.args@[1]@ == import_script()
            },
            StartPhase::Scanning(scan) => action == StartAction::ProbePort(scan.candidate()),
            StartPhase::Spawning { port } => {
                &&& action matches StartAction::Spawn(launch)
                &&& env.root matches Some(root)
                &&& is_plan(launch, runtime, port, root@, env)
            },
            StartPhase::Waiting(poll) => match poll.action() {
                PollAction::Probe(port) => action == StartAction::ProbePort(port),
                PollAction::Sleep(ms) => action == StartAction::Sleep(ms),
                PollAction::Done(_) => action == StartAction::Finish,
            },
            StartPhase::Finished(_) => action == StartAction::Finish,
        }
    }
}

/// A start in progress.
#[derive(Debug)]
pub struct StartSequence<H> {
    phase: StartPhase,
    runtime: String,
    env: LaunchEnv,
    displaced: Option<ChildRecord<H>>,
}

impl<H> StartSequence<H> {
    /// The phase is well-formed, and a start that is spawning knows its
    /// installation root.
    #[verifier::type_invariant]
    pub closed spec fn wf(self) -> bool {
        &&& self.phase.wf()
        &&& self.phase is Spawning ==> self.env.root is Some
    }

    /// Where the start stands.
    pub closed spec fn phase(self) -> StartPhase {
        self.phase
    }

    /// The runtime command of this start.
    pub closed spec fn runtime(self) -> String {
        self.runtime
    }

    /// The surroundings this start was begun in.
    pub closed spec fn env(self) -> LaunchEnv {
        self.env
    }

    /// The child that this start's own child displaced, until it is
    /// collected.
    pub closed spec fn displaced(self) -> Option<ChildRecord<H>> {
        self.displaced
    }

    /// A start that is over before it began, because a child is tracked.
    pub(crate) fn finished(runtime: String, env: LaunchEnv, info: BackendInfo) -> (sequence: Self)
        ensures
            sequence.wf(),
            sequence.phase() == StartPhase::Finished(Ok(info)),
            sequence.runtime() == runtime,
            sequence.env() == env,
            sequence.displaced() is None,
    {
        StartSequence { phase: StartPhase::Finished(Ok(info)), runtime, env, displaced: None }
    }

    /// A start at its first phase.
    pub(crate) fn fresh(runtime: String, env: LaunchEnv, base: u16) -> (sequence: Self)
        ensures
            sequence.wf(),
            sequence.phase() == (StartPhase::Precheck { base }),
            sequence.runtime() == runtime,
            sequence.env() == env,
            sequence.displaced() is None,
    {
        StartSequence { phase: StartPhase::Precheck { base }, runtime, env, displaced: None }
    }

    /// What to do next.
    pub fn pending(&self) -> (action: StartAction)
        ensures
            self.phase().asks(self.runtime()@, self.env(), action),
            action == StartAction::Finish <==> self.phase() is Finished,
    {
        proof {
            use_type_invariant(self);
        }
        match &self.phase {
            StartPhase::Precheck { .. } => StartAction::RunPrecheck(command(self.runtime.as_str())),
            StartPhase::Scanning(scan) => match scan.pending() {
                ScanAction::Probe(port) => StartAction::ProbePort(port),
                ScanAction::Done(_) => StartAction::Finish,
            },
            StartPhase::Spawning { port } => match &self.env.root {
                Some(root) => StartAction::Spawn(
                    plan(self.runtime.as_str(), *port, root.as_str(), &self.env),
                ),
                None => StartAction::Finish,
            },
            StartPhase::Waiting(poll) => match poll.pending() {
                PollAction::Probe(port) => StartAction::ProbePort(port),
                PollAction::Sleep(ms) => StartAction::Sleep(ms),
                PollAction::Done(_) => StartAction::Finish,
            },
            StartPhase::Finished(_) => StartAction::Finish,
        }
    }

    /// Whether `event` answers the pending action.
    pub fn expects(&self, event: &StartEvent<H>) -> (expected: bool)
        ensures
            expected == self.phase().accepts(*event),
    {
        match (&self.phase, event) {
            (StartPhase::Precheck { .. }, StartEvent::PrecheckDone(_)) => true,
            (StartPhase::Scanning(_), StartEvent::Connected(_)) => true,
            (StartPhase::Spawning { .. }, StartEvent::Spawned { .. }) => true,
            (StartPhase::Spawning { .. }, StartEvent::SpawnFailed { .. }) => true,
            (StartPhase::Waiting(poll), StartEvent::Connected(_)) => match poll.pending() {
                PollAction::Probe(_) => true,
                _ => false,
            },
            (StartPhase::Waiting(poll), StartEvent::Woke { .. }) => match poll.pending() {
                PollAction::Sleep(_) => true,
                _ => false,
            },
            _ => false,
        }
    }

    /// Takes the result of the pending action and moves the start on, as
    /// [`StartPhase::next`] tells.
    ///
    /// The step that takes a spawned child stores it in `supervisor`, with
    /// its port and the time, in place of whatever was tracked; a child that
    /// was tracked until then is kept for [`StartSequence::finish`] to hand
    /// out. No other step changes the supervisor.
    ///
    /// An event that does not answer the pending action is handed back, and
    /// nothing changes.
    pub fn step(&mut self, supervisor: &mut Supervisor<H>, event: StartEvent<H>) -> (rejected:
        Option<StartEvent<H>>)
        ensures
            final(self).wf(),
            final(self).runtime() == old(self).runtime(),
            final(self).env() == old(self).env(),
            final(supervisor).runtime() == old(supervisor).runtime(),
            old(self).phase().accepts(event) ==> {
                &&& rejected is None
                &&& final(self).phase() == old(self).phase().next(
                    old(self).runtime(),
                    old(self).env().root is Some,
                    event,
                )
                &&& final(supervisor).record() == old(self).phase().tracked_after(
                    old(supervisor).record(),
                    event,
                )
                &&& final(self).displaced() == if event is Spawned {
                    old(supervisor).record()
                } else {
                    old(self).displaced()
                }
            },
            !old(self).phase().accepts(event) ==> {
                &&& rejected == Some(event)
                &&& final(self).phase() == old(self).phase()
                &&& final(self).displaced() == old(self).displaced()
                &&& final(supervisor).record() == old(supervisor).record()
            },
    {
        proof {
            use_type_invariant(&*self);
        }
        if !self.expects(&event) {
            return Some(event);
        }
        match event {
            StartEvent::PrecheckDone(result) => {
                if let StartPhase::Precheck { base } = self.phase {
                    self.phase = match check(result) {
                        Ok(_) => StartPhase::Scanning(PortScan::new(base)),
                        Err(reason) => StartPhase::Finished(
                            Err(StartError::PrecheckFailed { runtime: self.runtime.clone(), reason }),
                        ),
                    };
                }
            },
            StartEvent::Connected(accepted) => {
                if let StartPhase::Scanning(scan) = self.phase {
                    let mut scan = scan;
                    scan.step(accepted);
                    self.phase = match scan.pending() {
                        ScanAction::Probe(_) => StartPhase::Scanning(scan),
                        ScanAction::Done(port) => if self.env.root.is_some() {
                            StartPhase::Spawning { port }
                        } else {
                            StartPhase::Finished(Err(StartError::RootNotFound))
                        },
                    };
                } else if let StartPhase::Waiting(poll) = self.phase {
                    self.phase = Self::polled(poll, PollEvent::Connected(accepted));
                }
            },
            StartEvent::Spawned { handle, pid, now_ms } => {
                if let StartPhase::Spawning { port } = self.phase {
                    let child = ChildRecord { handle, pid, port, started_ms: now_ms };
                    self.displaced = supervisor.install(child);
                    self.phase = StartPhase::Waiting(
                        ReadinessPoll::begin(port, READY_TIMEOUT_MS, now_ms),
                    );
                }
            },
            StartEvent::SpawnFailed { os_error } => {
                self.phase = StartPhase::Finished(Err(StartError::SpawnFailed { os_error }));
            },
            StartEvent::Woke { now_ms } => {
                if let StartPhase::Waiting(poll) = self.phase {
                    self.phase = Self::polled(poll, PollEvent::Woke { now_ms });
                }
            },
        }
        None
    }

    /// The phase after a poll that was waiting took `answer`.
    fn polled(poll: ReadinessPoll, answer: PollEvent) -> (phase: StartPhase)
        requires
            poll.accepts(answer),
        ensures
            phase.wf(),
            phase == match poll.after(answer).action() {
                PollAction::Done(ready) => StartPhase::Finished(
                    Ok(BackendInfo { port: poll.port(), started: ready }),
                ),
                _ => StartPhase::Waiting(poll.after(answer)),
            },
    {
        let mut poll = poll;
        let port = poll.target();
        poll.step(answer);
        match poll.pending() {
            PollAction::Done(ready) => StartPhase::Finished(
                Ok(BackendInfo { port, started: ready }),
            ),
            _ => StartPhase::Waiting(poll),
        }
    }

    /// Ends a finished start: hands out its result, and the child it
    /// displaced, if it did. A start that is not finished is handed back
    /// unchanged.
    pub fn finish(self) -> (outcome: Result<StartOutcome<H>, Self>)
        ensures
            match self.phase() {
                StartPhase::Finished(result) => outcome matches Ok(done) && done.result == result
                    && done.displaced == self.displaced(),
                _ => outcome == Err::<StartOutcome<H>, Self>(self),
            },
    {
        proof {
            use_type_invariant(&self);
        }
        let StartSequence { phase, runtime, env, displaced } = self;
        match phase {
            StartPhase::Finished(result) => Ok(StartOutcome { result, displaced }),
            other => Err(StartSequence { phase: other, runtime, env, displaced }),
        }
    }
}

impl StartPhase {
    /// The phase and the tracked record after a run of steps: the events are
    /// taken one after the other, beginning in this phase with a supervisor
    /// that holds `record`, and nothing else touches the supervisor.
    pub open spec fn after_events<H>(
        self,
        record: Option<ChildRecord<H>>,
        runtime: String,
        root_known: bool,
        events: Seq<StartEvent<H>>,
    ) -> (Self, Option<ChildRecord<H>>)
        decreases events.len(),
    {
        if events.len() == 0 {
            (self, record)
        } else {
            self.next(runtime, root_known, events[0]).after_events(
                self.tracked_after(record, events[0]),
                runtime,
                root_known,
                events.drop_first(),
            )
        }
    }

    /// The phase fits the tracked record of a start that found `initial`
    /// tracked when it began. Until the spawn, and after a failure, the
    /// record is the initial one. From the spawn on, the supervisor tracks a
    /// child on the port that the start polls and reports.
    pub open spec fn agrees<H>(
        self,
        initial: Option<ChildRecord<H>>,
        record: Option<ChildRecord<H>>,
    ) -> bool {
        match self {
            StartPhase::Waiting(poll) => record matches Some(child) && child.port == poll.port(),
            StartPhase::Finished(Ok(info)) => record matches Some(child) && child.port == info.port,
            _ => record == initial,
        }
    }
}

/// A step keeps the phase well-formed and in agreement with the tracked
/// record.
pub proof fn lemma_step_keeps_agreement<H>(
    phase: StartPhase,
    initial: Option<ChildRecord<H>>,
    record: Option<ChildRecord<H>>,
    runtime: String,
    root_known: bool,
    event: StartEvent<H>,
)
    requires
        phase.wf(),
        phase.agrees(initial, record),
    ensures
        phase.next(runtime, root_known, event).wf(),
        phase.next(runtime, root_known, event).agrees(initial, phase.tracked_after(record, event)),
        !phase.accepts(event) ==> phase.next(runtime, root_known, event) == phase
            && phase.tracked_after(record, event) == record,
{
    match (phase, event) {
        (StartPhase::Precheck { base }, StartEvent::PrecheckDone(_)) => {
            crate::ports::lemma_start(base);
        },
        (StartPhase::Scanning(scan), StartEvent::Connected(listening)) => {
            crate::ports::lemma_after(scan, listening);
        },
        (StartPhase::Spawning { port }, StartEvent::Spawned { now_ms, .. }) => {
            crate::readiness::lemma_start(port, READY_TIMEOUT_MS, now_ms);
        },
        (StartPhase::Waiting(poll), _) => {
            match poll_event(event) {
                Some(answer) => {
                    crate::readiness::lemma_after(poll, answer);
                },
                None => {},
            }
        },
        _ => {},
    }
}

/// A run of steps keeps the phase well-formed and in agreement with the
/// tracked record.
pub proof fn lemma_run_keeps_agreement<H>(
    phase: StartPhase,
    initial: Option<ChildRecord<H>>,
    record: Option<ChildRecord<H>>,
    runtime: String,
    root_known: bool,
    events: Seq<StartEvent<H>>,
)
    requires
        phase.wf(),
        phase.agrees(initial, record),
    ensures
        phase.after_events(record, runtime, root_known, events).0.wf(),
        phase.after_events(record, runtime, root_known, events).0.agrees(
            initial,
            phase.after_events(record, runtime, root_known, events).1,
        ),
    decreases events.len(),
{
    if events.len() > 0 {
        lemma_step_keeps_agreement(phase, initial, record, runtime, root_known, events[0]);
        lemma_run_keeps_agreement(
            phase.next(runtime, root_known, events[0]),
            initial,
            phase.tracked_after(record, events[0]),
            runtime,
            root_known,
            events.drop_first(),
        );
    }
}

/// A start that follows a start which returned a result, with no stop
/// between the two, is finished from the outset: it reports the same port as
/// the first, and nothing started. This holds whatever the first start found
/// tracked, and however it ran.
pub proof fn lemma_second_start_reports_first<H>(
    initial: Option<ChildRecord<H>>,
    port_hint: Option<u16>,
    runtime: String,
    root_known: bool,
    events: Seq<StartEvent<H>>,
    second_hint: Option<u16>,
)
    ensures
        ({
            let (phase, record) = StartPhase::begun(initial, port_hint).after_events(
                initial,
                runtime,
                root_known,
                events,
            );
            phase matches StartPhase::Finished(Ok(info)) ==> StartPhase::begun(record, second_hint)
                == StartPhase::Finished(Ok(BackendInfo { port: info.port, started: false }))
        }),
{
    lemma_run_keeps_agreement(
        StartPhase::begun(initial, port_hint),
        initial,
        initial,
        runtime,
        root_known,
        events,
    );
}

/// A start that ends in an error has stored nothing: the supervisor tracks
/// what it tracked before. So does one that has not reached the spawn.
pub proof fn lemma_failed_start_stores_nothing<H>(
    initial: Option<ChildRecord<H>>,
    port_hint: Option<u16>,
    runtime: String,
    root_known: bool,
    events: Seq<StartEvent<H>>,
)
    ensures
        ({
            let (phase, record) = StartPhase::begun(initial, port_hint).after_events(
                initial,
                runtime,
                root_known,
                events,
            );
            phase matches StartPhase::Finished(Err(_)) ==> record == initial
        }),
{
    lemma_run_keeps_agreement(
        StartPhase::begun(initial, port_hint),
        initial,
        initial,
        runtime,
        root_known,
        events,
    );
}

/// A finished start stays finished: later events change neither its result
/// nor the supervisor.
pub proof fn lemma_finished_is_final<H>(
    phase: StartPhase,
    record: Option<ChildRecord<H>>,
    runtime: String,
    root_known: bool,
    events: Seq<StartEvent<H>>,
)
    requires
        phase is Finished,
    ensures
        phase.after_events(record, runtime, root_known, events) == (phase, record),
    decreases events.len(),
{
    if events.len() > 0 {
        lemma_finished_is_final(phase, record, runtime, root_known, events.drop_first());
    }
}

/// A failed precheck ends a start on the spot, with the precheck's failure
/// as the error, and an idle supervisor stays idle whatever is reported
/// afterwards.
pub proof fn lemma_failed_precheck_fails_start<H>(
    port_hint: Option<u16>,
    runtime: String,
    root_known: bool,
    result: RunResult,
    later: Seq<StartEvent<H>>,
)
    requires
        !passed(result),
    ensures
        verdict(result) is Err,
        StartPhase::begun(None::<ChildRecord<H>>, port_hint).after_events(
            None::<ChildRecord<H>>,
            runtime,
            root_known,
            seq![StartEvent::PrecheckDone(result)] + later,
        ) == (
            StartPhase::Finished(
                Err(StartError::PrecheckFailed { runtime, reason: verdict(result)->Err_0 }),
            ),
            None::<ChildRecord<H>>,
        ),
{
    let events = seq![StartEvent::<H>::PrecheckDone(result)] + later;
    let first = StartPhase::begun(None::<ChildRecord<H>>, port_hint);
    let failed = first.next(runtime, root_known, events[0]);
    assert(events.drop_first() =~= later);
    lemma_finished_is_final(failed, None::<ChildRecord<H>>, runtime, root_known, later);
}

/// After a restart and the start that it began, exactly the new child is
/// tracked: a start that was begun on a supervisor without a child and
/// returned a result has stored a child, on the port it reports.
pub proof fn lemma_restart_tracks_new_child<H>(
    port_hint: Option<u16>,
    runtime: String,
    root_known: bool,
    events: Seq<StartEvent<H>>,
)
    ensures
        ({
            let (phase, record) = (StartPhase::Precheck { base: chosen_base(port_hint) }).after_events(
                None::<ChildRecord<H>>,
                runtime,
                root_known,
                events,
            );
            phase matches StartPhase::Finished(Ok(info)) ==> record matches Some(child)
                && child.port == info.port
        }),
{
    lemma_run_keeps_agreement(
        StartPhase::Precheck { base: chosen_base(port_hint) },
        None::<ChildRecord<H>>,
        None::<ChildRecord<H>>,
        runtime,
        root_known,
        events,
    );
}

/// The phases follow each other in one order. The scan begins only on a
/// passed precheck, the spawn only when the scan has settled, on the port it
/// settled on, and the wait for readiness only on a spawned child.
pub proof fn lemma_phases_in_order<H>(
    phase: StartPhase,
    runtime: String,
    root_known: bool,
    event: StartEvent<H>,
)
    requires
        phase.wf(),
    ensures
        phase.next(runtime, root_known, event) is Precheck ==> phase is Precheck,
        phase.next(runtime, root_known, event) is Scanning && !(phase is Scanning) ==> ({
            &&& phase is Precheck
            &&& event matches StartEvent::PrecheckDone(result)
            &&& passed(result)
        }),
        phase.next(runtime, root_known, event) is Spawning && !(phase is Spawning) ==> ({
            &&& root_known
            &&& phase matches StartPhase::Scanning(scan)
            &&& event matches StartEvent::Connected(listening)
            &&& scan.after(listening).settled() matches Some(port)
            &&& phase.next(runtime, root_known, event) == (StartPhase::Spawning { port })
        }),
        phase.next(runtime, root_known, event) is Waiting && !(phase is Waiting) ==> ({
            &&& phase is Spawning
            &&& event is Spawned
        }),
{
}

/// A start reports `started` only when a connection to the polled port was
/// accepted: the step that ends a start with that flag set takes an accepted
/// connection, in answer to a probe of the very port that is reported.
pub proof fn lemma_started_means_connected<H>(
    phase: StartPhase,
    runtime: String,
    root_known: bool,
    event: StartEvent<H>,
)
    requires
        phase.wf(),
        !(phase is Finished),
        phase.next(runtime, root_known, event) matches StartPhase::Finished(Ok(info)) && info.started,
    ensures
        event == StartEvent::<H>::Connected(true),
        phase matches StartPhase::Waiting(poll) && poll.action() == PollAction::Probe(poll.port())
            && phase.next(runtime, root_known, event) == StartPhase::Finished(
            Ok(BackendInfo { port: poll.port(), started: true }),
        ),
{
    match phase {
        StartPhase::Scanning(scan) => {
            if let StartEvent::Connected(listening) = event {
                crate::ports::lemma_after(scan, listening);
            }
        },
        StartPhase::Waiting(poll) => {
            match poll_event(event) {
                Some(answer) => {
                    crate::readiness::lemma_after(poll, answer);
                    crate::readiness::lemma_verdict_is_earned(poll, answer);
                },
                None => {},
            }
        },
        _ => {},
    }
}

} // verus!
