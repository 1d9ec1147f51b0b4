//! Port allocation: find the first loopback port near a base port on which
//! nothing listens.
//!
//! A scan tries the base port and up to nineteen ports above it, in order, and
//! settles on the first one whose probe finds no listener. When every
//! candidate is taken it settles on the base port itself: the scan is a
//! best-effort probe and reserves nothing. Candidates never pass 65535, so a
//! scan that starts close to the top of the port range has fewer of them.

use vstd::prelude::*;

verus! {

/// How many consecutive ports a scan tries at most.
pub const SCAN_WIDTH: u16 = 20;

/// The highest port that a scan from `base` tries.
pub open spec fn last_candidate(base: u16) -> u16 {
    if base as int + SCAN_WIDTH as int - 1 <= u16::MAX as int {
        (base + SCAN_WIDTH - 1) as u16
    } else {
        u16::MAX
    }
}

/// `port` is one of the ports that a scan from `base` tries.
pub open spec fn is_candidate(base: u16, port: u16) -> bool {
    base <= port <= last_candidate(base)
}

/// Every port from `base` up to, but not including, `bound` has a listener.
pub open spec fn taken_below(base: u16, bound: int, busy: Set<u16>) -> bool {
    forall|p: u16| base <= p && (p as int) < bound ==> busy.contains(p)
}

/// `port` is what allocation from `base` yields when `busy` is the set of
/// ports with a listener: the lowest free candidate, or `base` when there is
/// none.
pub open spec fn is_allocation(base: u16, busy: Set<u16>, port: u16) -> bool {
    ||| is_candidate(base, port) && !busy.contains(port) && taken_below(base, port as int, busy)
    ||| port == base && taken_below(base, last_candidate(base) as int + 1, busy)
}

/// What the driver of a scan has to do next.
#[derive(Clone, Copy, Debug, PartialEq, Eq)]
pub enum ScanAction {
    /// Try to connect to this port on the loopback interface and report
    /// whether something answered.
    Probe(u16),
    /// The scan is over; this is the allocated port.
    Done(u16),
}

/// A scan in progress.
#[derive(Clone, Copy, Debug)]
pub struct PortScan {
    base: u16,
    next: u16,
    settled: Option<u16>,
}

impl PortScan {
    /// The candidate under test lies in the scan's range.
    #[verifier::type_invariant]
    pub closed spec fn wf(self) -> bool {
        is_candidate(self.base, self.next)
    }

    /// The port the scan started from.
    pub closed spec fn base(self) -> u16 {
        self.base
    }

    /// The candidate whose probe result the scan waits for.
    pub closed spec fn candidate(self) -> u16 {
        self.next
    }

    /// The port the scan has settled on, once it has.
    pub closed spec fn settled(self) -> Option<u16> {
        self.settled
    }

    /// A scan from `base` before its first probe.
    pub closed spec fn start(base: u16) -> Self {
        PortScan { base, next: base, settled: None }
    }

    /// The action the scan is waiting on.
    pub open spec fn action(self) -> ScanAction {
        match self.settled() {
            Some(port) => ScanAction::Done(port),
            None => ScanAction::Probe(self.candidate()),
        }
    }

    /// The scan after the probe of its candidate reported `listening`. A scan
    /// that has settled stays as it is.
    pub closed spec fn after(self, listening: bool) -> Self {
        if self.settled is Some {
            self
        } else if !listening {
            PortScan { settled: Some(self.next), ..self }
        } else if self.next < last_candidate(self.base) {
            PortScan { next: (self.next + 1) as u16, ..self }
        } else {
            PortScan { settled: Some(self.base), ..self }
        }
    }

    /// What a step does, told by the actions before and after it: a free
    /// candidate is the allocated port; a taken one is followed by the port
    /// above it, and the last one by the end on the base port.
    pub open spec fn steps_to(self, listening: bool, next: Self) -> bool {
        &&& next.base() == self.base()
        &&& match self.action() {
            ScanAction::Probe(port) => next.action() == if !listening {
                ScanAction::Done(port)
            } else if port < last_candidate(self.base()) {
                ScanAction::Probe((port + 1) as u16)
            } else {
                ScanAction::Done(self.base())
            },
            ScanAction::Done(_) => next == self,
        }
    }

    /// Upper bound on the probes the scan may still ask for.
    pub closed spec fn probes_left(self) -> nat {
        if self.settled is Some || self.next > last_candidate(self.base) {
            0
        } else {
            (last_candidate(self.base) - self.next + 1) as nat
        }
    }

    /// The port on which the scan ends when every probe from here on is
    /// answered from `busy`, the set of ports that have a listener.
    pub closed spec fn outcome(self, busy: Set<u16>) -> u16
        decreases self.probes_left(),
    {
        if self.settled is Some {
            self.settled->0
        } else if self.next > last_candidate(self.base) {
            self.base
        } else {
            self.after(busy.contains(self.next)).outcome(busy)
        }
    }

    /// Begins a scan at `base`. The first action is a probe of `base` itself.
    pub fn new(base: u16) -> (scan: Self)
        ensures
            scan == Self::start(base),
            scan.wf(),
            scan.base() == base,
            scan.action() == ScanAction::Probe(base),
            scan.probes_left() <= SCAN_WIDTH,
    {
        PortScan { base, next: base, settled: None }
    }

    /// What to do next.
    pub fn pending(&self) -> (action: ScanAction)
        ensures
            action == self.action(),
            action matches ScanAction::Probe(port) ==> is_candidate(self.base(), port),
    {
        proof {
            use_type_invariant(self);
        }
        match self.settled {
            Some(port) => ScanAction::Done(port),
            None => ScanAction::Probe(self.next),
        }
    }

    /// Takes the result of the pending probe: `listening` says whether the
    /// candidate accepted a connection. A free candidate ends the scan; a
    /// taken one moves it to the next candidate, or ends it on the base port
    /// when none is left. Once the scan is done this changes nothing.
    pub fn step(&mut self, listening: bool)
        ensures
            *final(self) == old(self).after(listening),
            final(self).wf(),
            old(self).steps_to(listening, *final(self)),
            old(self).settled() is None ==> final(self).probes_left() < old(self).probes_left(),
    {
        proof {
            use_type_invariant(&*self);
        }
        if self.settled.is_some() {
            return ;
        }
        if !listening {
            self.settled = Some(self.next);
        } else if self.next < last_port(self.base) {
            self.next = self.next + 1;
        } else {
            self.settled = Some(self.base);
        }
    }
}

/// Computes [`last_candidate`].
pub fn last_port(base: u16) -> (last: u16)
    ensures
        last == last_candidate(base),
        is_candidate(base, base),
{
    if base <= u16::MAX - (SCAN_WIDTH - 1) {
        base + (SCAN_WIDTH - 1)
    } else {
        u16::MAX
    }
}

/// The port that allocation from `base` yields when `busy` is the set of ports
/// with a listener: where a scan from `base` ends when each of its probes is
/// answered from `busy`.
pub open spec fn allocate(base: u16, busy: Set<u16>) -> u16 {
    PortScan::start(base).outcome(busy)
}

/// A scan begins well-formed and unsettled, with its base as the first
/// candidate.
pub proof fn lemma_start(base: u16)
    ensures
        PortScan::start(base).wf(),
        PortScan::start(base).base() == base,
        PortScan::start(base).candidate() == base,
        PortScan::start(base).settled() is None,
        PortScan::start(base).probes_left() <= SCAN_WIDTH,
{
}

/// Every step is as [`PortScan::steps_to`] tells. It keeps the scan
/// well-formed, and brings an unsettled scan closer to its end.
pub proof fn lemma_after(scan: PortScan, listening: bool)
    requires
        scan.wf(),
    ensures
        scan.after(listening).wf(),
        scan.steps_to(listening, scan.after(listening)),
        scan.settled() is None ==> scan.after(listening).probes_left() < scan.probes_left(),
{
}

/// A step that is answered from `busy` does not change where the scan ends.
pub proof fn lemma_step_keeps_outcome(scan: PortScan, busy: Set<u16>)
    requires
        scan.wf(),
    ensures
        scan.after(busy.contains(scan.candidate())).wf(),
        scan.after(busy.contains(scan.candidate())).outcome(busy) == scan.outcome(busy),
{
}

/// A scan that is done ends on the port it reports, whatever listens where.
pub proof fn lemma_done_is_outcome(scan: PortScan, busy: Set<u16>)
    requires
        scan.wf(),
        scan.settled() is Some,
    ensures
        scan.action() == ScanAction::Done(scan.outcome(busy)),
{
}

/// From a scan that has found every port below its candidate taken, the
/// outcome is an allocation.
proof fn lemma_outcome_allocates(scan: PortScan, busy: Set<u16>)
    requires
        scan.wf(),
        scan.settled() is None,
        taken_below(scan.base(), scan.candidate() as int, busy),
    ensures
        is_allocation(scan.base(), busy, scan.outcome(busy)),
    decreases scan.probes_left(),
{
    let listening = busy.contains(scan.candidate());
    let next = scan.after(listening);
    assert(scan.outcome(busy) == next.outcome(busy));
    if !listening {
        assert(next.outcome(busy) == scan.candidate());
    } else if scan.candidate() < last_candidate(scan.base()) {
        assert(taken_below(next.base(), next.candidate() as int, busy));
        lemma_outcome_allocates(next, busy);
    } else {
        assert(next.outcome(busy) == scan.base());
        assert(taken_below(scan.base(), last_candidate(scan.base()) as int + 1, busy));
    }
}

/// Allocation yields the lowest candidate without a listener, and the base
/// port when all candidates have one.
pub proof fn lemma_allocate_is_allocation(base: u16, busy: Set<u16>)
    ensures
        is_allocation(base, busy, allocate(base, busy)),
{
    lemma_outcome_allocates(PortScan::start(base), busy);
}

/// At most one port is an allocation for a given base and set of listeners.
pub proof fn lemma_allocation_unique(base: u16, busy: Set<u16>, a: u16, b: u16)
    requires
        is_allocation(base, busy, a),
        is_allocation(base, busy, b),
    ensures
        a == b,
{
}

/// With no listener on any candidate, allocation returns the base port.
pub proof fn lemma_free_range_allocates_base(base: u16, busy: Set<u16>)
    requires
        forall|p: u16| is_candidate(base, p) ==> !busy.contains(p),
    ensures
        allocate(base, busy) == base,
{
    lemma_allocate_is_allocation(base, busy);
    assert(is_candidate(base, base));
}

/// With listeners on the first `k` candidates and none on the next,
/// allocation returns that next candidate: the first free port in the range.
pub proof fn lemma_skips_taken_prefix(base: u16, busy: Set<u16>, k: nat)
    requires
        base + k <= last_candidate(base),
        forall|p: u16| base <= p < base + k ==> busy.contains(p),
        !busy.contains((base + k) as u16),
    ensures
        allocate(base, busy) == base + k,
{
    lemma_allocate_is_allocation(base, busy);
    let port = (base + k) as u16;
    assert(is_allocation(base, busy, port));
    lemma_allocation_unique(base, busy, allocate(base, busy), port);
}

/// With a listener on every candidate, allocation falls back to the base
/// port.
pub proof fn lemma_full_range_allocates_base(base: u16, busy: Set<u16>)
    requires
        forall|p: u16| is_candidate(base, p) ==> busy.contains(p),
    ensures
        allocate(base, busy) == base,
{
    lemma_allocate_is_allocation(base, busy);
    assert(is_allocation(base, busy, base));
    lemma_allocation_unique(base, busy, allocate(base, busy), base);
}

} // verus!
