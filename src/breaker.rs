//! Per-operation circuit breaker: Closed → Open after enough failures,
//! Open → HalfOpen once the reset timeout has passed, back to Closed on a
//! success. Time is passed in as milliseconds on a monotonic clock.
use vstd::prelude::*;

use crate::text::str_eq;

verus! {

/// Breaker state.
#[derive(Debug, Clone, Copy, PartialEq, Eq, Structural)]
pub enum BreakerState {
    /// Serving.
    Closed,
    /// Rejecting.
    Open,
    /// Probing whether the upstream recovered.
    HalfOpen,
}

/// State of one operation's breaker.
#[derive(Debug, Clone, Copy)]
pub struct BreakerStatus {
    pub state: BreakerState,
    pub failure_count: usize,
    pub last_failure: Option<u64>,
    pub opened_at: Option<u64>,
}

/// The state of an operation that has seen nothing yet.
pub open spec fn fresh_status() -> BreakerStatus {
    BreakerStatus { state: BreakerState::Closed, failure_count: 0, last_failure: None, opened_at: None }
}

/// Status after a failure at `now`.
pub open spec fn after_failure(s: BreakerStatus, now: u64, threshold: usize) -> BreakerStatus {
    let count = if s.failure_count == usize::MAX {
        usize::MAX
    } else {
        (s.failure_count + 1) as usize
    };
    if count >= threshold {
        BreakerStatus { state: BreakerState::Open, failure_count: count, last_failure: Some(now), opened_at: Some(now) }
    } else {
        BreakerStatus { failure_count: count, last_failure: Some(now), ..s }
    }
}

/// Status after a success.
pub open spec fn after_success(s: BreakerStatus) -> BreakerStatus {
    fresh_status()
}

/// The reset timeout has passed since the breaker opened.
pub open spec fn cooled_down(opened_at: u64, now: u64, reset_timeout_ms: u64) -> bool {
    now >= opened_at && now - opened_at >= reset_timeout_ms
}

/// Answer of an `is_open` probe at `now`.
pub open spec fn probe_open(s: BreakerStatus, now: u64, reset_timeout_ms: u64) -> bool {
    match s.state {
        BreakerState::Closed => false,
        BreakerState::HalfOpen => false,
        BreakerState::Open => match s.opened_at {
            Some(t) => !cooled_down(t, now, reset_timeout_ms),
            None => true,
        },
    }
}

/// Status after an `is_open` probe at `now`: Open becomes HalfOpen once cooled down.
pub open spec fn after_probe(s: BreakerStatus, now: u64, reset_timeout_ms: u64) -> BreakerStatus {
    match (s.state, s.opened_at) {
        (BreakerState::Open, Some(t)) => if cooled_down(t, now, reset_timeout_ms) {
            BreakerStatus { state: BreakerState::HalfOpen, ..s }
        } else {
            s
        },
        _ => s,
    }
}

/// Breaker settings.
#[derive(Debug, Clone, Copy)]
pub struct CircuitBreakerConfig {
    pub failure_threshold: usize,
    pub reset_timeout_ms: u64,
}

impl Default for CircuitBreakerConfig {
    fn default() -> (r: Self)
        ensures
            r.failure_threshold == 5,
            r.reset_timeout_ms == 30000,
    {
        CircuitBreakerConfig { failure_threshold: 5, reset_timeout_ms: 30000 }
    }
}

/// What `stats` reports for one operation.
#[derive(Debug, Clone, Copy)]
pub struct BreakerStats {
    pub state: BreakerState,
    pub failure_count: usize,
    pub last_failure: Option<u64>,
}

/// One operation's breaker.
pub struct BreakerEntry {
    pub operation: String,
    pub status: BreakerStatus,
}

/// Status of `op`: that of its last entry, or a fresh one.
pub open spec fn status_of(s: Seq<(Seq<char>, BreakerStatus)>, op: Seq<char>) -> BreakerStatus
    decreases s.len(),
{
    if s.len() == 0 {
        fresh_status()
    } else if s.last().0 == op {
        s.last().1
    } else {
        status_of(s.drop_last(), op)
    }
}

/// Index of the last entry of `op`, or -1.
pub open spec fn op_index(s: Seq<(Seq<char>, BreakerStatus)>, op: Seq<char>) -> int
    decreases s.len(),
{
    if s.len() == 0 {
        -1
    } else if s.last().0 == op {
        s.len() - 1
    } else {
        op_index(s.drop_last(), op)
    }
}

proof fn lemma_op_index(s: Seq<(Seq<char>, BreakerStatus)>, op: Seq<char>)
    ensures
        -1 <= op_index(s, op) < s.len(),
        op_index(s, op) >= 0 ==> s[op_index(s, op)].0 == op && status_of(s, op) == s[op_index(
            s,
            op,
        )].1,
        op_index(s, op) < 0 ==> status_of(s, op) == fresh_status(),
        op_index(s, op) < 0 ==> forall|m: int| 0 <= m < s.len() ==> (#[trigger] s[m]).0 != op,
    decreases s.len(),
{
    if s.len() > 0 {
        lemma_op_index(s.drop_last(), op);
        if op_index(s, op) < 0 {
            assert forall|m: int| 0 <= m < s.len() implies (#[trigger] s[m]).0 != op by {
                if m < s.len() - 1 {
                    assert(s[m] == s.drop_last()[m]);
                }
            }
        }
    }
}

/// No two entries are for the same operation.
pub open spec fn unique_ops(s: Seq<(Seq<char>, BreakerStatus)>) -> bool {
    forall|a: int, b: int| 0 <= a < b < s.len() ==> (#[trigger] s[a]).0 != (#[trigger] s[b]).0
}

/// Updating the last entry of `op` changes the status of `op` alone.
proof fn lemma_update_at(
    s: Seq<(Seq<char>, BreakerStatus)>,
    op: Seq<char>,
    st: BreakerStatus,
    other: Seq<char>,
)
    requires
        op_index(s, op) >= 0,
    ensures
        status_of(s.update(op_index(s, op), (op, st)), op) == st,
        other != op ==> status_of(s.update(op_index(s, op), (op, st)), other) == status_of(
            s,
            other,
        ),
    decreases s.len(),
{
    lemma_op_index(s, op);
    let i = op_index(s, op);
    let t = s.update(i, (op, st));
    if i == s.len() - 1 {
        assert(t.drop_last() =~= s.drop_last());
    } else {
        assert(s.last().0 != op);
        assert(op_index(s.drop_last(), op) == i);
        lemma_update_at(s.drop_last(), op, st, other);
        assert(t.drop_last() =~= s.drop_last().update(i, (op, st)));
        assert(t.last() == s.last());
    }
}

/// Circuit breakers keyed by operation label.
pub struct CircuitBreaker {
    breakers: Vec<BreakerEntry>,
    config: CircuitBreakerConfig,
}

impl CircuitBreaker {
    pub closed spec fn entries(&self) -> Seq<(Seq<char>, BreakerStatus)> {
        self.breakers@.map_values(|e: BreakerEntry| (e.operation@, e.status))
    }

    /// Status of `op`.
    pub open spec fn status(&self, op: Seq<char>) -> BreakerStatus {
        status_of(self.entries(), op)
    }

    pub closed spec fn spec_config(&self) -> CircuitBreakerConfig {
        self.config
    }

    /// One entry per operation.
    pub open spec fn wf(&self) -> bool {
        unique_ops(self.entries())
    }

    pub fn new(config: CircuitBreakerConfig) -> (r: Self)
        ensures
            r.wf(),
            r.spec_config() == config,
            forall|op: Seq<char>| r.status(op) == fresh_status(),
    {
        let r = CircuitBreaker { breakers: Vec::new(), config };
        assert(r.entries() =~= Seq::<(Seq<char>, BreakerStatus)>::empty());
        r
    }

    /// Threshold 5, reset timeout 30 s.
    pub fn default() -> (r: Self)
        ensures
            r.spec_config().failure_threshold == 5,
            r.spec_config().reset_timeout_ms == 30000,
            r.wf(),
            forall|op: Seq<char>| r.status(op) == fresh_status(),
    {
        Self::new(CircuitBreakerConfig::default())
    }

    fn find(&self, op: &str) -> (r: Option<usize>)
        ensures
            op_index(self.entries(), op@) == (match r {
                Some(i) => i as int,
                None => -1,
            }),
            r matches Some(i) ==> i < self.breakers@.len(),
    {
        let mut i: usize = self.breakers.len();
        assert(self.entries().subrange(0, i as int) =~= self.entries());
        while i > 0
            invariant
                i <= self.breakers@.len(),
                op_index(self.entries(), op@) == op_index(
                    self.entries().subrange(0, i as int),
                    op@,
                ),
            decreases i,
        {
            let ghost pre = self.entries().subrange(0, i as int);
            assert(pre.drop_last() =~= self.entries().subrange(0, i - 1));
            if str_eq(self.breakers[i - 1].operation.as_str(), op) {
                return Some(i - 1);
            }
            i = i - 1;
        }
        None
    }

    fn current(&self, op: &str) -> (r: BreakerStatus)
        ensures
            r == self.status(op@),
    {
        proof {
            lemma_op_index(self.entries(), op@);
        }
        match self.find(op) {
            Some(i) => self.breakers[i].status,
            None => BreakerStatus {
                state: BreakerState::Closed,
                failure_count: 0,
                last_failure: None,
                opened_at: None,
            },
        }
    }

    /// Sets the status of `op`, leaving every other operation as it was.
    fn set_status(&mut self, op: &str, st: BreakerStatus)
        requires
            old(self).wf(),
        ensures
            final(self).wf(),
            final(self).spec_config() == old(self).spec_config(),
            final(self).status(op@) == st,
            forall|o: Seq<char>| o != op@ ==> final(self).status(o) == old(self).status(o),
    {
        let ghost s = self.entries();
        proof {
            lemma_op_index(s, op@);
        }
        match self.find(op) {
            Some(i) => {
                self.breakers[i].status = st;
                assert(self.entries() =~= s.update(i as int, (op@, st)));
                let ghost t = self.entries();
                assert forall|a: int, b: int| 0 <= a < b < t.len() implies (#[trigger] t[a]).0
                    != (#[trigger] t[b]).0 by {
                    assert(t[a].0 == s[a].0 && t[b].0 == s[b].0);
                }
                assert forall|o: Seq<char>| o != op@ implies self.status(o) == status_of(s, o) by {
                    lemma_update_at(s, op@, st, o);
                }
                proof {
                    lemma_update_at(s, op@, st, op@);
                }
            },
            None => {
                let name = String::from_str(op);
                self.breakers.push(BreakerEntry { operation: name, status: st });
                assert(self.entries() =~= s.push((op@, st)));
                assert(self.entries().drop_last() =~= s);
                let ghost t = self.entries();
                assert forall|a: int, b: int| 0 <= a < b < t.len() implies (#[trigger] t[a]).0
                    != (#[trigger] t[b]).0 by {
                    if b == s.len() {
                        assert(s[a].0 != op@);
                    } else {
                        assert(t[a] == s[a] && t[b] == s[b]);
                    }
                }
            },
        }
    }

    /// Whether calls for `op` must be rejected at `now`; an Open breaker whose
    /// reset timeout has passed turns HalfOpen and answers false.
    pub fn is_open(&mut self, operation: &str, now: u64) -> (r: bool)
        requires
            old(self).wf(),
        ensures
            final(self).wf(),
            r == probe_open(old(self).status(operation@), now, old(self).spec_config().reset_timeout_ms),
            final(self).status(operation@) == after_probe(
                old(self).status(operation@),
                now,
                old(self).spec_config().reset_timeout_ms,
            ),
            forall|o: Seq<char>| o != operation@ ==> final(self).status(o) == old(self).status(o),
            final(self).spec_config() == old(self).spec_config(),
    {
        let st = self.current(operation);
        match st.state {
            BreakerState::Closed => false,
            BreakerState::HalfOpen => false,
            BreakerState::Open => match st.opened_at {
                Some(t) => {
                    if now >= t && now - t >= self.config.reset_timeout_ms {
                        self.set_status(
                            operation,
                            BreakerStatus { state: BreakerState::HalfOpen, ..st },
                        );
                        false
                    } else {
                        true
                    }
                },
                None => true,
            },
        }
    }

    /// Records a success: the breaker closes and its failure count resets.
    pub fn mark_success(&mut self, operation: &str)
        requires
            old(self).wf(),
        ensures
            final(self).wf(),
            final(self).status(operation@) == after_success(old(self).status(operation@)),
            forall|o: Seq<char>| o != operation@ ==> final(self).status(o) == old(self).status(o),
            final(self).spec_config() == old(self).spec_config(),
    {
        self.set_status(
            operation,
            BreakerStatus {
                state: BreakerState::Closed,
                failure_count: 0,
                last_failure: None,
                opened_at: None,
            },
        );
    }

    /// Records a failure at `now`; at the threshold the breaker opens.
    pub fn mark_failure(&mut self, operation: &str, now: u64)
        requires
            old(self).wf(),
        ensures
            final(self).wf(),
            final(self).status(operation@) == after_failure(
                old(self).status(operation@),
                now,
                old(self).spec_config().failure_threshold,
            ),
            forall|o: Seq<char>| o != operation@ ==> final(self).status(o) == old(self).status(o),
            final(self).spec_config() == old(self).spec_config(),
    {
        let st = self.current(operation);
        let count = st.failure_count.saturating_add(1);
        let next = if count >= self.config.failure_threshold {
            BreakerStatus {
                state: BreakerState::Open,
                failure_count: count,
                last_failure: Some(now),
                opened_at: Some(now),
            }
        } else {
            BreakerStatus { failure_count: count, last_failure: Some(now), ..st }
        };
        self.set_status(operation, next);
    }

    /// Current state of `op` (Closed if never seen).
    pub fn state(&self, operation: &str) -> (r: BreakerState)
        ensures
            r == self.status(operation@).state,
    {
        self.current(operation).state
    }

    /// State, failure count and time of the last failure of `op`.
    pub fn stats(&self, operation: &str) -> (r: BreakerStats)
        ensures
            r.state == self.status(operation@).state,
            r.failure_count == self.status(operation@).failure_count,
            r.last_failure == self.status(operation@).last_failure,
    {
        let st = self.current(operation);
        BreakerStats {
            state: st.state,
            failure_count: st.failure_count,
            last_failure: st.last_failure,
        }
    }

    /// Returns `op` to a fresh Closed state.
    pub fn reset(&mut self, operation: &str)
        requires
            old(self).wf(),
        ensures
            final(self).wf(),
            final(self).status(operation@) == fresh_status(),
            forall|o: Seq<char>| o != operation@ ==> final(self).status(o) == old(self).status(o),
            final(self).spec_config() == old(self).spec_config(),
    {
        self.set_status(
            operation,
            BreakerStatus {
                state: BreakerState::Closed,
                failure_count: 0,
                last_failure: None,
                opened_at: None,
            },
        );
    }

    /// Returns every operation to a fresh Closed state.
    pub fn reset_all(&mut self)
        requires
            old(self).wf(),
        ensures
            final(self).wf(),
            forall|o: Seq<char>| final(self).status(o) == fresh_status(),
            final(self).spec_config() == old(self).spec_config(),
    {
        self.breakers = Vec::new();
        assert(self.entries() =~= Seq::<(Seq<char>, BreakerStatus)>::empty());
    }
}

/// With fewer than `threshold` accumulated failures a Closed breaker is not
/// open; the failure that reaches the threshold opens it at `t_open`; probes
/// before `t_open + reset_timeout` find it open and leave it as it is; the first
/// probe at or after that instant finds it not open and moves it to HalfOpen.
pub proof fn lemma_breaker_cycle(
    s: BreakerStatus,
    threshold: usize,
    reset_timeout_ms: u64,
    t_open: u64,
    t: u64,
)
    requires
        s.state == BreakerState::Closed,
        s.failure_count < threshold,
    ensures
        !probe_open(s, t, reset_timeout_ms),
        s.failure_count + 1 < threshold ==> after_failure(s, t_open, threshold).state
            == BreakerState::Closed,
        s.failure_count + 1 == threshold ==> ({
            let o = after_failure(s, t_open, threshold);
            &&& o.state == BreakerState::Open
            &&& o.opened_at == Some(t_open)
            &&& t_open <= t < t_open + reset_timeout_ms ==> probe_open(o, t, reset_timeout_ms)
                && after_probe(o, t, reset_timeout_ms) == o
            &&& t >= t_open + reset_timeout_ms ==> !probe_open(o, t, reset_timeout_ms)
                && after_probe(o, t, reset_timeout_ms) == BreakerStatus {
                state: BreakerState::HalfOpen,
                ..o
            }
        }),
{
}

/// From HalfOpen, a success closes the breaker with no failures, and a failure
/// reopens it at the time of that failure.
pub proof fn lemma_half_open_outcomes(s: BreakerStatus, threshold: usize, now: u64)
    requires
        s.state == BreakerState::HalfOpen,
        s.failure_count >= threshold,
    ensures
        after_success(s).state == BreakerState::Closed,
        after_success(s).failure_count == 0,
        after_failure(s, now, threshold).state == BreakerState::Open,
        after_failure(s, now, threshold).opened_at == Some(now),
{
}

} // verus!
