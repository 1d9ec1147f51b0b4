//! The supervisor's state: the one child it tracks, and the runtime command
//! it was last told to use.
//!
//! At most one child is tracked at any time. The child's handle, its port and
//! the time of its start are kept in one record, so they are stored and
//! cleared together: no reader sees a port without a child or a child without
//! a port. The type of the handle is the caller's; the supervisor keeps it and
//! hands it back for teardown, and never looks inside.
//!
//! The state is meant to sit behind one lock. Every operation here returns at
//! once, so the lock is held only for the call; the slow work happens between
//! calls, in the driver of a sequence.

use crate::launch::{default_runtime, default_runtime_text, LaunchEnv, DEFAULT_BASE_PORT};
use crate::precheck::{check, passed, verdict, RunResult};
use crate::start::{StartPhase, StartSequence};
use crate::timing::{elapsed, elapsed_ms};
use vstd::prelude::*;

verus! {

/// The answer to a start or a restart.
#[derive(Clone, Copy, Debug, PartialEq, Eq)]
pub struct BackendInfo {
    /// The port the backend was given.
    pub port: u16,
    /// True where this call launched a new child and the child accepted a
    /// connection in time. False where a child was already running, and
    /// where the new child was not reachable before the deadline.
    pub started: bool,
}

/// A tracked child: its handle with what was recorded at its start.
#[derive(Debug, PartialEq, Eq)]
pub struct ChildRecord<H> {
    /// The caller's handle to the process.
    pub handle: H,
    /// The operating system's id of the process.
    pub pid: u32,
    /// The port the child was told to listen on.
    pub port: u16,
    /// The clock reading at which the child was stored.
    pub started_ms: u64,
}

/// A snapshot of the supervisor, with the result of a precheck made for it.
#[derive(Debug, PartialEq, Eq)]
pub struct Diagnostics {
    /// Whether a child is tracked.
    pub backend_running: bool,
    /// The runtime command in use.
    pub python: String,
    /// Whether the precheck passed.
    pub py_ok: bool,
    /// Why the precheck failed, where it did.
    pub py_error: Option<String>,
    /// The launcher's library search path, where it has one.
    pub pythonpath: Option<String>,
    /// The tracked child's port; 0 without a child.
    pub port: u16,
    /// The tracked child's process id.
    pub pid: Option<u32>,
    /// Whole seconds since the tracked child was stored.
    pub last_restart_secs: Option<u64>,
}

/// The runtime command of a start: the one it names, else the default.
pub open spec fn chosen_runtime(runtime_override: Option<String>) -> Seq<char> {
    match runtime_override {
        Some(runtime) => runtime@,
        None => default_runtime_text(),
    }
}

/// The base port of a start: the one it names, else the default.
pub open spec fn chosen_base(port_hint: Option<u16>) -> u16 {
    match port_hint {
        Some(port) => port,
        None => DEFAULT_BASE_PORT,
    }
}

/// The port a supervisor with this record reports: the child's, and 0
/// without a child.
pub open spec fn reported_port<H>(record: Option<ChildRecord<H>>) -> u16 {
    match record {
        Some(child) => child.port,
        None => 0,
    }
}

/// The process id a supervisor with this record reports.
pub open spec fn reported_pid<H>(record: Option<ChildRecord<H>>) -> Option<u32> {
    match record {
        Some(child) => Some(child.pid),
        None => None,
    }
}

/// Whole seconds from the start of the recorded child to `now_ms`.
pub open spec fn reported_uptime<H>(record: Option<ChildRecord<H>>, now_ms: u64) -> Option<u64> {
    match record {
        Some(child) => Some(elapsed(child.started_ms, now_ms) / 1000),
        None => None,
    }
}

/// `report` is the diagnosis of a supervisor with this record and runtime
/// command, for a precheck that ended in `precheck`, a launcher whose search
/// path is `search_path`, and a clock that reads `now_ms`.
pub open spec fn is_diagnosis<H>(
    report: Diagnostics,
    record: Option<ChildRecord<H>>,
    runtime: Seq<char>,
    precheck: RunResult,
    search_path: Option<String>,
    now_ms: u64,
) -> bool {
    &&& report.backend_running == record is Some
    &&& report.python@ == runtime
    &&& report.py_ok == passed(precheck)
    &&& match verdict(precheck) {
        Ok(_) => report.py_error is None,
        Err(reason) => report.py_error matches Some(text) && text@ == reason.diagnostic_text(),
    }
    &&& report.pythonpath == search_path
    &&& report.port == reported_port(record)
    &&& report.pid == reported_pid(record)
    &&& report.last_restart_secs == reported_uptime(record, now_ms)
}

/// The supervisor's state.
#[derive(Debug)]
pub struct Supervisor<H> {
    child: Option<ChildRecord<H>>,
    runtime: String,
}

impl<H> Supervisor<H> {
    /// The tracked child, if there is one.
    pub closed spec fn record(self) -> Option<ChildRecord<H>> {
        self.child
    }

    /// The runtime command in use.
    pub closed spec fn runtime(self) -> Seq<char> {
        self.runtime@
    }

    /// A child is tracked.
    pub open spec fn running(self) -> bool {
        self.record() is Some
    }

    /// A supervisor that tracks no child and uses the default runtime.
    pub fn new() -> (supervisor: Self)
        ensures
            supervisor.record() is None,
            supervisor.runtime() == default_runtime_text(),
    {
        Supervisor { child: None, runtime: default_runtime() }
    }

    /// Whether a child is tracked.
    pub fn is_running(&self) -> (running: bool)
        ensures
            running == self.running(),
    {
        self.child.is_some()
    }

    /// The tracked child's port; 0 without a child.
    pub fn port(&self) -> (port: u16)
        ensures
            port == reported_port(self.record()),
    {
        match &self.child {
            Some(child) => child.port,
            None => 0,
        }
    }

    /// The tracked child's process id.
    pub fn pid(&self) -> (pid: Option<u32>)
        ensures
            pid == reported_pid(self.record()),
    {
        match &self.child {
            Some(child) => Some(child.pid),
            None => None,
        }
    }

    /// The runtime command in use.
    pub fn runtime_command(&self) -> (runtime: &str)
        ensures
            runtime@ == self.runtime(),
    {
        self.runtime.as_str()
    }

    /// Begins a start. With a child already tracked nothing changes, and the
    /// sequence is finished from the outset: its result names the tracked
    /// child's port and reports nothing started. Otherwise the runtime
    /// command is recorded, the override or else the default, and the
    /// sequence begins with the precheck of that runtime; the scan will start
    /// at the port hint or else at the default base port.
    pub fn begin_start(
        &mut self,
        runtime_override: Option<String>,
        port_hint: Option<u16>,
        env: LaunchEnv,
    ) -> (sequence: StartSequence<H>)
        ensures
            final(self).record() == old(self).record(),
            final(self).runtime() == if old(self).running() {
                old(self).runtime()
            } else {
                chosen_runtime(runtime_override)
            },
            sequence.wf(),
            sequence.phase() == StartPhase::begun(old(self).record(), port_hint),
            sequence.runtime()@ == final(self).runtime(),
            sequence.env() == env,
            sequence.displaced() is None,
    {
        match &self.child {
            Some(child) => {
                let info = BackendInfo { port: child.port, started: false };
                StartSequence::finished(self.runtime.clone(), env, info)
            },
            None => {
                let runtime = match runtime_override {
                    Some(runtime) => runtime,
                    None => default_runtime(),
                };
                let base = match port_hint {
                    Some(port) => port,
                    None => DEFAULT_BASE_PORT,
                };
                self.runtime = runtime.clone();
                StartSequence::fresh(runtime, env, base)
            },
        }
    }

    /// Stores a freshly spawned child and returns the record it displaced, if
    /// there was one. Handle, port and start time change together.
    pub(crate) fn install(&mut self, child: ChildRecord<H>) -> (displaced: Option<ChildRecord<H>>)
        ensures
            final(self).record() == Some(child),
            final(self).runtime() == old(self).runtime(),
            displaced == old(self).record(),
    {
        let displaced = self.child.take();
        self.child = Some(child);
        displaced
    }

    /// Stops tracking the child and hands its record out for teardown. The
    /// state is cleared before any teardown begins, so whoever looks next
    /// sees no child. Without a child this does nothing. It cannot fail.
    pub fn stop(&mut self) -> (taken: Option<ChildRecord<H>>)
        ensures
            taken == old(self).record(),
            final(self).record() is None,
            final(self).runtime() == old(self).runtime(),
    {
        self.child.take()
    }

    /// Begins a restart: a stop, followed at once by the beginning of a
    /// start with the same arguments. The record of the child that was
    /// tracked is handed out for teardown, which the caller completes before
    /// it drives the sequence. The sequence is never finished from the
    /// outset: a restart always goes on to the precheck.
    pub fn begin_restart(
        &mut self,
        runtime_override: Option<String>,
        port_hint: Option<u16>,
        env: LaunchEnv,
    ) -> (restart: (Option<ChildRecord<H>>, StartSequence<H>))
        ensures
            restart.0 == old(self).record(),
            final(self).record() is None,
            final(self).runtime() == chosen_runtime(runtime_override),
            restart.1.wf(),
            restart.1.phase() == (StartPhase::Precheck { base: chosen_base(port_hint) }),
            restart.1.runtime()@ == final(self).runtime(),
            restart.1.env() == env,
            restart.1.displaced() is None,
    {
        let taken = self.stop();
        let sequence = self.begin_start(runtime_override, port_hint, env);
        (taken, sequence)
    }

    /// Reports the state without changing it. `precheck` is the result of a
    /// run of the check command for the runtime in use, made for this
    /// report; `search_path` is the launcher's library search path;
    /// `now_ms` is the clock's reading.
    pub fn diagnose(&self, precheck: RunResult, search_path: Option<String>, now_ms: u64) -> (report:
        Diagnostics)
        ensures
            is_diagnosis(report, self.record(), self.runtime(), precheck, search_path, now_ms),
    {
        let py_error = match check(precheck) {
            Ok(_) => None,
            Err(reason) => Some(reason.diagnostic_message()),
        };
        let last_restart_secs = match &self.child {
            Some(child) => Some(elapsed_ms(child.started_ms, now_ms) / 1000),
            None => None,
        };
        Diagnostics {
            backend_running: self.child.is_some(),
            python: self.runtime.clone(),
            py_ok: py_error.is_none(),
            py_error,
            pythonpath: search_path,
            port: self.port(),
            pid: self.pid(),
            last_restart_secs,
        }
    }
}

/// A diagnosis names a process id exactly when it reports a running
/// backend, and a supervisor that has been stopped reports neither.
pub proof fn lemma_report_is_consistent<H>(
    report: Diagnostics,
    record: Option<ChildRecord<H>>,
    runtime: Seq<char>,
    precheck: RunResult,
    search_path: Option<String>,
    now_ms: u64,
)
    requires
        is_diagnosis(report, record, runtime, precheck, search_path, now_ms),
    ensures
        report.backend_running <==> report.pid is Some,
        report.backend_running <==> report.last_restart_secs is Some,
        report.backend_running ==> report.pid == Some(record->0.pid),
        record is None ==> !report.backend_running && report.pid is None && report.port == 0,
{
}

} // verus!
