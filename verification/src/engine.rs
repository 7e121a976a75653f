//! The scan engine: validated scan parameters, per-port outcome
//! classification, and the sweep state machine.
//!
//! A sweep walks an inclusive port range in ascending order. The engine does
//! no networking itself: for each port, a driver attempts one TCP handshake
//! bounded by the configured timeout and hands the engine the bare result —
//! whether the handshake completed. The engine classifies the result, attaches
//! a service label to every open port, and aggregates the final statistics, so
//! that everything past the handshake itself is verified.

use vstd::prelude::*;
use crate::catalog;

verus! {

/// A resolved IP address, as plain values: the four octets of a v4 address or
/// the eight segments of a v6 address. A driver resolves a hostname to one of
/// these before a sweep begins; resolution failure is fatal and no sweep is
/// started.
#[derive(Clone, Copy, PartialEq, Eq, Structural, Debug)]
pub enum IpAddress {
    V4(u8, u8, u8, u8),
    V6(u16, u16, u16, u16, u16, u16, u16, u16),
}

/// Validated parameters for one sweep: the resolved target address, the
/// inclusive port range, and the per-probe timeout in milliseconds.
#[derive(Clone, Copy, PartialEq, Eq, Structural, Debug)]
pub struct ScanTarget {
    pub ip: IpAddress,
    pub start: u16,
    pub end: u16,
    pub timeout_ms: u64,
}

impl ScanTarget {
    /// The configuration invariant: a non-empty ascending range and a
    /// positive timeout. `make_target` establishes it and nothing mutates a
    /// target afterwards.
    pub open spec fn wf(self) -> bool {
        self.start <= self.end && self.timeout_ms >= 1
    }

    /// The number of ports in the inclusive range `[start, end]`.
    pub open spec fn total(self) -> int {
        self.end - self.start + 1
    }
}

/// Why a scan configuration was rejected before any probing began.
#[derive(Clone, Copy, PartialEq, Eq, Structural, Debug)]
pub enum ConfigError {
    /// The end port is below the start port.
    InvalidRange,
    /// The timeout is zero.
    InvalidTimeout,
}

impl ConfigError {
    /// A fixed human-readable description of the rejection.
    pub fn message(&self) -> (m: &'static str)
        ensures
            *self is InvalidRange ==> m@ == "end port must not be below start port"@,
            *self is InvalidTimeout ==> m@ == "timeout must be positive"@,
    {
        match self {
            ConfigError::InvalidRange => "end port must not be below start port",
            ConfigError::InvalidTimeout => "timeout must be positive",
        }
    }
}

/// Validates a scan configuration. Succeeds exactly when the range is
/// ascending and the timeout positive; an inverted range is reported before a
/// zero timeout when both are wrong. No probing happens until validation has
/// succeeded.
pub fn make_target(ip: IpAddress, start: u16, end: u16, timeout_ms: u64) -> (r: Result<
    ScanTarget,
    ConfigError,
>)
    ensures
        start > end ==> r == Result::<ScanTarget, ConfigError>::Err(ConfigError::InvalidRange),
        start <= end && timeout_ms == 0 ==> r == Result::<ScanTarget, ConfigError>::Err(
            ConfigError::InvalidTimeout,
        ),
        start <= end && timeout_ms >= 1 ==> r == Result::<ScanTarget, ConfigError>::Ok(
            (ScanTarget { ip, start, end, timeout_ms }),
        ),
{
    if start > end {
        Err(ConfigError::InvalidRange)
    } else if timeout_ms == 0 {
        Err(ConfigError::InvalidTimeout)
    } else {
        Ok(ScanTarget { ip, start, end, timeout_ms })
    }
}

/// How a single probe ended. A handshake that was refused, reset, errored or
/// timed out is not distinguished further: all of those are `ClosedFiltered`.
#[derive(Clone, Copy, PartialEq, Eq, Structural, Debug)]
pub enum PortState {
    Open,
    ClosedFiltered,
}

/// The outcome of probing one port: the port number, its classification, and,
/// exactly when the port is open, the catalog's service label for it.
#[derive(Debug)]
pub struct ScanOutcome {
    pub port: u16,
    pub state: PortState,
    pub service: Option<String>,
}

/// What the outcome of probing `port` must look like when the handshake's
/// completion is `connected`: the port number is recorded as probed, a
/// completed handshake is `Open` and carries the catalog label, anything else
/// is `ClosedFiltered` and carries no label.
pub open spec fn outcome_for(port: u16, connected: bool, o: ScanOutcome) -> bool {
    &&& o.port == port
    &&& o.state == (if connected {
        PortState::Open
    } else {
        PortState::ClosedFiltered
    })
    &&& match o.service {
        Some(s) => connected && s@ == catalog::service_label(port),
        None => !connected,
    }
}

/// Classifies the result of one handshake against `port`. A completed
/// handshake yields `Open` with the catalog's label for the port; a handshake
/// that did not complete — refused, errored or timed out — yields
/// `ClosedFiltered`. Never fatal: every probe result maps to an outcome.
pub fn classify(port: u16, connected: bool) -> (o: ScanOutcome)
    ensures
        outcome_for(port, connected, o),
{
    if connected {
        let label = catalog::lookup(port);
        ScanOutcome { port, state: PortState::Open, service: Some(label.to_owned()) }
    } else {
        ScanOutcome { port, state: PortState::ClosedFiltered, service: None }
    }
}

/// The number of `Open` outcomes in a sequence.
pub open spec fn count_open(s: Seq<ScanOutcome>) -> nat
    decreases s.len(),
{
    if s.len() == 0 {
        0
    } else {
        count_open(s.drop_last()) + (if s.last().state is Open {
            1nat
        } else {
            0nat
        })
    }
}

/// There can be no more open ports than outcomes.
pub proof fn lemma_count_open_le_len(s: Seq<ScanOutcome>)
    ensures
        count_open(s) <= s.len(),
    decreases s.len(),
{
    if s.len() > 0 {
        lemma_count_open_le_len(s.drop_last());
    }
}

/// Appending one outcome raises the open count by one exactly when that
/// outcome is `Open`.
pub proof fn lemma_count_open_push(s: Seq<ScanOutcome>, o: ScanOutcome)
    ensures
        count_open(s.push(o)) == count_open(s) + (if o.state is Open {
            1nat
        } else {
            0nat
        }),
{
    assert(s.push(o).drop_last() =~= s);
    assert(s.push(o).last() == o);
}

/// The aggregate of one completed sweep: ports attempted, ports found open,
/// and the wall-clock time the sweep took in milliseconds.
#[derive(Clone, Copy, PartialEq, Eq, Structural, Debug)]
pub struct ScanSummary {
    pub total: u32,
    pub open_count: u32,
    pub elapsed_ms: u64,
}

/// One sweep in progress: the validated target, the outcomes produced so far
/// — one per probed port, in ascending port order — and the running count of
/// open ports.
pub struct Sweep {
    pub target: ScanTarget,
    pub outcomes: Vec<ScanOutcome>,
    pub open_count: u32,
}

impl Sweep {
    /// The sweep invariant: the target is valid, no more ports were probed
    /// than the range holds, the outcome at offset `i` is for port
    /// `start + i` and consistent with its own state, and the running count
    /// matches the outcomes produced so far.
    pub open spec fn wf(self) -> bool {
        &&& self.target.wf()
        &&& self.outcomes@.len() <= self.target.total()
        &&& forall|i: int|
            0 <= i < self.outcomes@.len() ==> outcome_for(
                (self.target.start + i) as u16,
                self.outcomes@[i].state is Open,
                #[trigger] self.outcomes@[i],
            )
        &&& self.open_count == count_open(self.outcomes@)
    }

    /// The number of ports probed so far.
    pub open spec fn probed(self) -> int {
        self.outcomes@.len() as int
    }

    /// Whether every port of the range has been probed.
    pub open spec fn is_done(self) -> bool {
        self.outcomes@.len() == self.target.total()
    }

    /// Starts a sweep over a validated target. Nothing has been probed yet.
    pub fn new(target: ScanTarget) -> (s: Sweep)
        requires
            target.wf(),
        ensures
            s.wf(),
            s.target == target,
            s.outcomes@.len() == 0,
    {
        Sweep { target, outcomes: Vec::new(), open_count: 0 }
    }

    /// Whether the sweep has covered the whole range.
    pub fn done(&self) -> (r: bool)
        requires
            self.wf(),
        ensures
            r == self.is_done(),
    {
        self.outcomes.len() == (self.target.end as usize) - (self.target.start as usize) + 1
    }

    /// The next port to probe: the range is walked in ascending order, one
    /// port at a time.
    pub fn next_port(&self) -> (p: u16)
        requires
            self.wf(),
            !self.is_done(),
        ensures
            p == self.target.start + self.probed(),
    {
        self.target.start + (self.outcomes.len() as u16)
    }

    /// Records the result of the one handshake attempted against the next
    /// unprobed port: `connected` says whether it completed within the
    /// timeout. Exactly one outcome is appended, for that port; earlier
    /// outcomes are untouched; the open count rises by one exactly when the
    /// handshake completed. A failed handshake never aborts the sweep.
    pub fn record(&mut self, connected: bool)
        requires
            old(self).wf(),
            !old(self).is_done(),
        ensures
            final(self).wf(),
            final(self).target == old(self).target,
            final(self).outcomes@.len() == old(self).outcomes@.len() + 1,
            final(self).outcomes@ == old(self).outcomes@.push(final(self).outcomes@.last()),
            outcome_for(
                (old(self).target.start + old(self).probed()) as u16,
                connected,
                final(self).outcomes@.last(),
            ),
    {
        let port = self.next_port();
        let o = classify(port, connected);
        proof {
            lemma_count_open_le_len(self.outcomes@);
            lemma_count_open_push(self.outcomes@, o);
        }
        if connected {
            self.open_count = self.open_count + 1;
        }
        self.outcomes.push(o);
    }

    /// The aggregate of a completed sweep: the total is the full size of the
    /// range, the open count is the number of `Open` outcomes produced, and
    /// the elapsed time is the driver's wall-clock measurement of the sweep.
    pub fn summary(&self, elapsed_ms: u64) -> (r: ScanSummary)
        requires
            self.wf(),
            self.is_done(),
        ensures
            r.total == self.target.end - self.target.start + 1,
            r.open_count == count_open(self.outcomes@),
            r.elapsed_ms == elapsed_ms,
    {
        ScanSummary {
            total: (self.target.end as u32) - (self.target.start as u32) + 1,
            open_count: self.open_count,
            elapsed_ms,
        }
    }
}

/// Law: a completed sweep covers its range exactly — one outcome per port of
/// `[start, end]`, with no skips, duplicates or reordering: the outcome at
/// offset `i` is for port `start + i`.
pub proof fn lemma_sweep_covers_range(s: Sweep)
    requires
        s.wf(),
        s.is_done(),
    ensures
        s.outcomes@.len() == s.target.end - s.target.start + 1,
        forall|i: int| 0 <= i < s.outcomes@.len() ==> (#[trigger] s.outcomes@[i]).port
            == s.target.start + i,
{
}

/// Runs one complete sweep, given the handshake result for every port of the
/// range in ascending order: `connected[i]` says whether the handshake with
/// port `start + i` completed within the timeout. Returns the outcome for
/// every port, in ascending port order, and the summary: total equal to the
/// size of the range, open count equal to the number of `Open` outcomes, and
/// the driver's elapsed-time measurement.
pub fn run_sweep(target: ScanTarget, connected: &Vec<bool>, elapsed_ms: u64) -> (r: (
    Vec<ScanOutcome>,
    ScanSummary,
))
    requires
        target.wf(),
        connected@.len() == target.total(),
    ensures
        r.0@.len() == target.total(),
        forall|i: int|
            0 <= i < r.0@.len() ==> outcome_for(
                (target.start + i) as u16,
                connected@[i],
                #[trigger] r.0@[i],
            ),
        r.1.total == target.end - target.start + 1,
        r.1.open_count == count_open(r.0@),
        r.1.elapsed_ms == elapsed_ms,
{
    let total = (target.end as usize) - (target.start as usize) + 1;
    let mut sweep = Sweep::new(target);
    let mut k: usize = 0;
    while k < total
        invariant
            total == target.total(),
            connected@.len() == total,
            sweep.wf(),
            sweep.target == target,
            sweep.probed() == k,
            k <= total,
            forall|i: int|
                0 <= i < k ==> outcome_for(
                    (target.start + i) as u16,
                    connected@[i],
                    #[trigger] sweep.outcomes@[i],
                ),
        decreases total - k,
    {
        sweep.record(connected[k]);
        k = k + 1;
    }
    let s = sweep.summary(elapsed_ms);
    (sweep.outcomes, s)
}

} // verus!
