//! Listener acquisition: the startup-only linear probe that finds a
//! free local port.
//!
//! Binding a socket is the caller's work; the probe sequence — which
//! port to try next, when to give up — is decided here. The caller
//! asks for the next attempt, tries to bind it, and reports failure
//! back; any bind error counts as a failed attempt.

use vstd::prelude::*;

verus! {

/// The port tried when no environment override is given.
pub const DEFAULT_PORT: u16 = 9527;

/// How many consecutive ports are tried before startup fails.
pub const MAX_PORT_ATTEMPTS: u32 = 100;

/// The next step of the probe: a port to try, or the attempt budget is
/// spent.
#[derive(Clone, Copy, Debug, PartialEq, Eq, Structural)]
pub enum ProbeStep {
    TryPort(u32),
    Exhausted,
}

/// The linear probe's state: the starting port and how many attempts
/// have failed so far.
pub struct PortSearch {
    start_port: u32,
    attempts: u32,
}

impl PortSearch {
    /// The starting port of the probe.
    pub closed spec fn spec_start_port(&self) -> u32 {
        self.start_port
    }

    /// How many attempts have failed so far.
    pub closed spec fn spec_attempts(&self) -> u32 {
        self.attempts
    }

    /// The bounds every probe state satisfies.
    pub open spec fn wf(&self) -> bool {
        &&& self.spec_start_port() <= u16::MAX
        &&& self.spec_attempts() <= MAX_PORT_ATTEMPTS
    }

    /// A fresh probe starting at `start_port`.
    pub fn new(start_port: u16) -> (search: PortSearch)
        ensures
            search.wf(),
            search.spec_start_port() == start_port,
            search.spec_attempts() == 0,
    {
        PortSearch { start_port: start_port as u32, attempts: 0 }
    }

    /// How many attempts have failed so far.
    pub fn attempts_so_far(&self) -> (n: u32)
        ensures
            n == self.spec_attempts(),
    {
        self.attempts
    }

    /// The next port to try — the starting port plus the number of
    /// failed attempts — or `Exhausted` once the budget is spent.
    pub fn next_attempt(&self) -> (step: ProbeStep)
        requires
            self.wf(),
        ensures
            self.spec_attempts() < MAX_PORT_ATTEMPTS ==> step == ProbeStep::TryPort(
                (self.spec_start_port() + self.spec_attempts()) as u32,
            ),
            self.spec_attempts() >= MAX_PORT_ATTEMPTS ==> step == ProbeStep::Exhausted,
    {
        if self.attempts < MAX_PORT_ATTEMPTS {
            ProbeStep::TryPort(self.start_port + self.attempts)
        } else {
            ProbeStep::Exhausted
        }
    }

    /// Record one failed bind; the next attempt moves one port up.
    pub fn record_failure(&mut self)
        requires
            old(self).wf(),
            old(self).spec_attempts() < MAX_PORT_ATTEMPTS,
        ensures
            final(self).wf(),
            final(self).spec_start_port() == old(self).spec_start_port(),
            final(self).spec_attempts() == old(self).spec_attempts() + 1,
    {
        self.attempts = self.attempts + 1;
    }
}

/// The offset of the first free port among the first
/// [`MAX_PORT_ATTEMPTS`] entries of `free`, searching from offset `i`;
/// `None` when every attempt in the budget is occupied. `free[j]` says
/// whether binding the port at offset `j` from the starting port would
/// succeed.
pub open spec fn spec_first_free_from(free: Seq<bool>, i: int) -> Option<int>
    decreases MAX_PORT_ATTEMPTS - i,
{
    if i < 0 || i >= MAX_PORT_ATTEMPTS || i >= free.len() {
        None
    } else if free[i] {
        Some(i)
    } else {
        spec_first_free_from(free, i + 1)
    }
}

/// Run the whole probe against a given availability map: try ports in
/// order, each failure moving one port up, and stop at the first free
/// port or when the budget is spent.
///
/// The bound port is exactly the starting port plus the offset of the
/// first free port; when the budget holds no free port, no port is
/// bound.
pub fn run_acquisition(start_port: u16, free: &Vec<bool>) -> (bound: Option<u32>)
    ensures
        (match spec_first_free_from(free@, 0) {
            Some(offset) => bound == Some((start_port + offset) as u32),
            None => bound is None,
        }),
{
    let mut search = PortSearch::new(start_port);
    loop
        invariant
            search.wf(),
            search.spec_start_port() == start_port,
            spec_first_free_from(free@, 0) == spec_first_free_from(
                free@,
                search.spec_attempts() as int,
            ),
        decreases MAX_PORT_ATTEMPTS - search.spec_attempts(),
    {
        match search.next_attempt() {
            ProbeStep::TryPort(port) => {
                let idx = search.attempts_so_far() as usize;
                if idx < free.len() && free[idx] {
                    return Some(port);
                }
                proof {
                    assert(spec_first_free_from(free@, search.spec_attempts() as int)
                        == spec_first_free_from(free@, search.spec_attempts() + 1));
                }
                search.record_failure();
            },
            ProbeStep::Exhausted => {
                return None;
            },
        }
    }
}

/// The probe finds exactly the first free port: when every port before
/// offset `k` is occupied and the port at `k` is free, within the
/// budget, the search from the start yields `k`.
pub proof fn lemma_first_free_prefix(free: Seq<bool>, k: int)
    requires
        0 <= k < free.len(),
        k < MAX_PORT_ATTEMPTS,
        forall|j: int| 0 <= j < k ==> !free[j],
        free[k],
    ensures
        spec_first_free_from(free, 0) == Some(k),
{
    lemma_first_free_step(free, 0, k);
}

/// Helper: searching from any occupied prefix position reaches `k`.
proof fn lemma_first_free_step(free: Seq<bool>, i: int, k: int)
    requires
        0 <= i <= k < free.len(),
        k < MAX_PORT_ATTEMPTS,
        forall|j: int| i <= j < k ==> !free[j],
        free[k],
    ensures
        spec_first_free_from(free, i) == Some(k),
    decreases k - i,
{
    if i < k {
        lemma_first_free_step(free, i + 1, k);
    }
}

/// When every port within the budget is occupied, the probe binds
/// nothing and startup fails.
pub proof fn lemma_exhausted_when_all_occupied(free: Seq<bool>)
    requires
        forall|j: int| 0 <= j < free.len() && j < MAX_PORT_ATTEMPTS ==> !free[j],
    ensures
        spec_first_free_from(free, 0) is None,
{
    lemma_exhausted_step(free, 0);
}

/// Helper: the search from any position in an occupied budget fails.
proof fn lemma_exhausted_step(free: Seq<bool>, i: int)
    requires
        0 <= i,
        forall|j: int| 0 <= j < free.len() && j < MAX_PORT_ATTEMPTS ==> !free[j],
    ensures
        spec_first_free_from(free, i) is None,
    decreases MAX_PORT_ATTEMPTS - i,
{
    if i < MAX_PORT_ATTEMPTS && i < free.len() {
        lemma_exhausted_step(free, i + 1);
    }
}

} // verus!
