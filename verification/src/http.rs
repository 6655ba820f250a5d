use vstd::prelude::*;

verus! {

/// Highest failure count at which the rotator still hands out proxies;
/// one more failure opens the circuit for good.
pub const FAILURE_CEILING: usize = 3;

/// Round-robin selector over a fixed pool of proxy endpoints.
///
/// The pool is fixed at construction and never mutated; only the
/// rotation cursor and the cumulative failure count change. Once the
/// failure count exceeds [`FAILURE_CEILING`], the circuit is open and
/// `get_next` returns `None` forever: no operation ever decreases the
/// failure count.
pub struct ProxyManager {
    proxies: Vec<String>,
    failures: usize,
    current: usize,
}

impl ProxyManager {
    /// The pool is non-empty and the cursor always points inside it.
    pub closed spec fn wf(self) -> bool {
        &&& self.proxies@.len() > 0
        &&& self.current < self.proxies@.len()
    }

    pub closed spec fn spec_proxies(self) -> Seq<String> {
        self.proxies@
    }

    pub closed spec fn spec_cursor(self) -> int {
        self.current as int
    }

    pub closed spec fn spec_failures(self) -> int {
        self.failures as int
    }

    /// Builds a rotator over a non-empty pool, cursor at the first
    /// entry, no failures recorded.
    pub fn new(proxies: Vec<String>) -> (r: Self)
        requires
            proxies@.len() > 0,
        ensures
            r.wf(),
            r.spec_proxies() == proxies@,
            r.spec_cursor() == 0,
            r.spec_failures() == 0,
    {
        Self { proxies, failures: 0, current: 0 }
    }

    /// Hands out the next proxy in round-robin order, or `None` once
    /// the circuit is open (more than [`FAILURE_CEILING`] failures).
    /// An open circuit leaves the rotator untouched, so every later
    /// call returns `None` as well.
    pub fn get_next(&mut self) -> (r: Option<String>)
        requires
            old(self).wf(),
        ensures
            final(self).wf(),
            final(self).spec_proxies() == old(self).spec_proxies(),
            final(self).spec_failures() == old(self).spec_failures(),
            old(self).spec_failures() > FAILURE_CEILING ==> {
                &&& r is None
                &&& *final(self) == *old(self)
            },
            old(self).spec_failures() <= FAILURE_CEILING ==> {
                &&& r matches Some(p) && p@ == old(self).spec_proxies()[old(self).spec_cursor()]@
                &&& final(self).spec_cursor()
                    == (old(self).spec_cursor() + 1) % (old(self).spec_proxies().len() as int)
            },
    {
        if self.failures > FAILURE_CEILING {
            return None;
        }
        let len = self.proxies.len();
        let index = self.current;
        self.current = (index + 1) % len;
        Some(self.proxies[index].clone())
    }

    /// Records one failed attempt. The count only ever grows (it
    /// saturates at the machine limit rather than wrap), so a circuit
    /// opened by repeated failures stays open for the rotator's
    /// lifetime.
    pub fn mark_failure(&mut self)
        requires
            old(self).wf(),
        ensures
            final(self).wf(),
            final(self).spec_proxies() == old(self).spec_proxies(),
            final(self).spec_cursor() == old(self).spec_cursor(),
            old(self).spec_failures() < usize::MAX ==>
                final(self).spec_failures() == old(self).spec_failures() + 1,
            old(self).spec_failures() == usize::MAX ==>
                final(self).spec_failures() == old(self).spec_failures(),
            final(self).spec_failures() >= old(self).spec_failures(),
    {
        if self.failures < usize::MAX {
            self.failures = self.failures + 1;
        }
    }

    /// Number of failures recorded so far.
    pub fn failure_count(&self) -> (r: usize)
        ensures
            r == self.spec_failures(),
    {
        self.failures
    }

    /// Current position of the rotation cursor within the pool.
    pub fn cursor(&self) -> (r: usize)
        ensures
            r == self.spec_cursor(),
    {
        self.current
    }

    /// The fixed pool of proxy endpoints, in insertion order.
    pub fn proxies(&self) -> (r: &Vec<String>)
        ensures
            r@ == self.spec_proxies(),
    {
        &self.proxies
    }
}

/// Cursor position after `k` hand-outs, starting from `start`, over a
/// pool of `len` entries: each hand-out advances the cursor by one,
/// modulo the pool length, exactly as `ProxyManager::get_next` ensures.
pub open spec fn cursor_after(len: int, start: int, k: nat) -> int
    decreases k,
{
    if k == 0 {
        start
    } else {
        (cursor_after(len, start, (k - 1) as nat) + 1) % len
    }
}

/// Failure count after `k` marks starting from `start`: each mark adds
/// one, saturating at the machine limit, exactly as
/// `ProxyManager::mark_failure` ensures.
pub open spec fn failures_after(start: int, k: nat) -> int
    decreases k,
{
    if k == 0 {
        start
    } else {
        let p = failures_after(start, (k - 1) as nat);
        if p < usize::MAX {
            p + 1
        } else {
            p
        }
    }
}

/// Round-robin order. From a fresh rotator over a pool of `len`
/// entries, with the failure count at most [`FAILURE_CEILING`]
/// throughout, `ProxyManager::get_next` hands out the entry at the
/// current cursor and advances it by one modulo `len`; so the i-th
/// hand-out, for i < len, is pool entry i — each entry exactly once, in
/// insertion order — and the len-th hand-out wraps back to entry 0.
pub proof fn lemma_rotation_order(len: int, i: nat)
    requires
        0 < len,
        i <= len,
    ensures
        i < len ==> cursor_after(len, 0, i) == i,
        i == len ==> cursor_after(len, 0, i) == 0,
    decreases i,
{
    if i > 0 {
        lemma_rotation_order(len, (i - 1) as nat);
        assert((i as int) < len ==> (i as int) % len == i as int) by (nonlinear_arith);
        assert(len % len == 0) by (nonlinear_arith)
            requires
                len > 0,
        ;
    }
}

/// The circuit opens after four marks. Starting from a fresh rotator,
/// `k` failure marks leave the count at `k` (up to the machine limit,
/// where it saturates), so after four or more marks the count stands
/// above [`FAILURE_CEILING`].
pub proof fn lemma_circuit_opens(k: nat)
    ensures
        failures_after(0, k) == if k <= usize::MAX { k as int } else { usize::MAX as int },
        k >= 4 ==> failures_after(0, k) > FAILURE_CEILING,
    decreases k,
{
    if k > 0 {
        lemma_circuit_opens((k - 1) as nat);
    }
}

/// One operation on a rotator: a `get_next` call or a `mark_failure`
/// call.
pub enum RotatorOp {
    Next,
    MarkFailure,
}

/// The (cursor, failure count) pair a rotator over a pool of `len`
/// entries holds after a sequence of operations, step for step as the
/// `ensures` of `ProxyManager::get_next` and
/// `ProxyManager::mark_failure` describe them: a `Next` with the
/// circuit open changes nothing, one with it closed advances the
/// cursor; a `MarkFailure` adds one to the count, saturating at the
/// machine limit.
pub open spec fn rotator_state_after(
    len: int,
    cursor: int,
    failures: int,
    ops: Seq<RotatorOp>,
) -> (int, int)
    decreases ops.len(),
{
    if ops.len() == 0 {
        (cursor, failures)
    } else {
        let prior = rotator_state_after(len, cursor, failures, ops.drop_last());
        match ops.last() {
            RotatorOp::Next => if prior.1 > FAILURE_CEILING {
                prior
            } else {
                ((prior.0 + 1) % len, prior.1)
            },
            RotatorOp::MarkFailure => (
                prior.0,
                if prior.1 < usize::MAX {
                    prior.1 + 1
                } else {
                    prior.1
                },
            ),
        }
    }
}

/// An open circuit is permanent: once the failure count stands above
/// [`FAILURE_CEILING`], no sequence of further operations brings it
/// back down — no operation ever decreases it — so every later
/// `get_next` call finds the circuit open and, by its `ensures`,
/// answers `None`.
pub proof fn lemma_circuit_permanent(len: int, cursor: int, failures: int, ops: Seq<RotatorOp>)
    requires
        failures > FAILURE_CEILING,
    ensures
        rotator_state_after(len, cursor, failures, ops).1 > FAILURE_CEILING,
    decreases ops.len(),
{
    if ops.len() > 0 {
        lemma_circuit_permanent(len, cursor, failures, ops.drop_last());
    }
}

/// Decision core of a proxy-aware fetch: one logical request is tried
/// across up to `max_attempts` proxies from a [`ProxyManager`].
///
/// The caller runs the transport loop: while `next_attempt` hands out a
/// proxy, it performs one GET through that proxy, stops at the first
/// success, and reports each failure back through `record_failure`
/// (which marks the rotator and spends one attempt). When
/// `next_attempt` answers `None` — attempts exhausted, or the rotator's
/// circuit open — the fetch has failed as a whole and the caller
/// reports [`crate::error::RustWireError::AllProxiesFailed`].
pub struct ProxyFetch {
    attempts: usize,
    max_attempts: usize,
}

impl ProxyFetch {
    pub closed spec fn spec_attempts(self) -> int {
        self.attempts as int
    }

    pub closed spec fn spec_max_attempts(self) -> int {
        self.max_attempts as int
    }

    pub open spec fn wf(self) -> bool {
        self.spec_attempts() <= self.spec_max_attempts()
    }

    /// Starts a fetch that may spend up to `max_attempts` attempts.
    pub fn new(max_attempts: usize) -> (r: Self)
        ensures
            r.wf(),
            r.spec_attempts() == 0,
            r.spec_max_attempts() == max_attempts,
    {
        Self { attempts: 0, max_attempts }
    }

    /// Hands out the proxy for the next attempt, or `None` when the
    /// fetch is over: either the attempts are exhausted, or the
    /// rotator's circuit is open. A `None` leaves both the fetch and
    /// the rotator unchanged, so the verdict is final.
    pub fn next_attempt(&mut self, manager: &mut ProxyManager) -> (r: Option<String>)
        requires
            old(self).wf(),
            old(manager).wf(),
        ensures
            *final(self) == *old(self),
            final(manager).wf(),
            final(manager).spec_proxies() == old(manager).spec_proxies(),
            final(manager).spec_failures() == old(manager).spec_failures(),
            old(self).spec_attempts() >= old(self).spec_max_attempts() ==> {
                &&& r is None
                &&& *final(manager) == *old(manager)
            },
            old(self).spec_attempts() < old(self).spec_max_attempts()
                && old(manager).spec_failures() > FAILURE_CEILING ==> {
                &&& r is None
                &&& *final(manager) == *old(manager)
            },
            old(self).spec_attempts() < old(self).spec_max_attempts()
                && old(manager).spec_failures() <= FAILURE_CEILING ==> {
                &&& r matches Some(p)
                    && p@ == old(manager).spec_proxies()[old(manager).spec_cursor()]@
                &&& final(manager).spec_cursor()
                    == (old(manager).spec_cursor() + 1)
                        % (old(manager).spec_proxies().len() as int)
            },
    {
        if self.attempts >= self.max_attempts {
            return None;
        }
        manager.get_next()
    }

    /// Reports that the attempt under way failed: the rotator is marked
    /// and one attempt is spent. Only called while an attempt is under
    /// way, that is after `next_attempt` handed out a proxy.
    pub fn record_failure(&mut self, manager: &mut ProxyManager)
        requires
            old(self).wf(),
            old(manager).wf(),
            old(self).spec_attempts() < old(self).spec_max_attempts(),
        ensures
            final(self).wf(),
            final(self).spec_attempts() == old(self).spec_attempts() + 1,
            final(self).spec_max_attempts() == old(self).spec_max_attempts(),
            final(manager).wf(),
            final(manager).spec_proxies() == old(manager).spec_proxies(),
            final(manager).spec_cursor() == old(manager).spec_cursor(),
            old(manager).spec_failures() < usize::MAX ==>
                final(manager).spec_failures() == old(manager).spec_failures() + 1,
            final(manager).spec_failures() >= old(manager).spec_failures(),
    {
        manager.mark_failure();
        self.attempts = self.attempts + 1;
    }

    /// Number of attempts spent so far.
    pub fn attempts(&self) -> (r: usize)
        ensures
            r == self.spec_attempts(),
    {
        self.attempts
    }

    /// The attempt ceiling this fetch was started with.
    pub fn max_attempts(&self) -> (r: usize)
        ensures
            r == self.spec_max_attempts(),
    {
        self.max_attempts
    }
}

} // verus!
