use vstd::prelude::*;

verus! {

/// Upload starts spaced at least `d` apart: each start comes no sooner than
/// `d` after the one before it.
pub open spec fn spaced(times: Seq<int>, d: int) -> bool {
    forall|i: int| 0 <= i && i + 1 < times.len() ==> #[trigger] times[i + 1] >= times[i] + d
}

/// Enforces a minimum interval between successive upload starts. Times are
/// milliseconds on a monotone clock, supplied by the caller; the limiter
/// records when the next upload may start, and keeps the whole history of
/// granted starts as ghost state so the spacing guarantee is an invariant.
pub struct RateLimiter {
    pub interval_ms: u64,
    pub next_allowed_ms: u64,
    pub starts: Ghost<Seq<int>>,
}

impl RateLimiter {
    /// Every granted start kept the spacing, and the next one must wait for
    /// the full interval after the last.
    pub open spec fn wf(self) -> bool {
        &&& self.interval_ms > 0
        &&& spaced(self.starts@, self.interval_ms as int)
        &&& self.starts@.len() > 0 ==> self.next_allowed_ms >= self.starts@.last()
            + self.interval_ms
    }

    pub fn new(interval_ms: u64) -> (r: RateLimiter)
        requires
            interval_ms > 0,
        ensures
            r.wf(),
            r.interval_ms == interval_ms,
            r.next_allowed_ms == 0,
            r.starts@ == Seq::<int>::empty(),
    {
        RateLimiter { interval_ms, next_allowed_ms: 0, starts: Ghost(Seq::empty()) }
    }

    /// How long a caller at `now_ms` must still wait before the next upload
    /// may start.
    pub fn required_delay(&self, now_ms: u64) -> (d: u64)
        ensures
            d == if now_ms >= self.next_allowed_ms {
                0
            } else {
                self.next_allowed_ms - now_ms
            },
            now_ms + d >= self.next_allowed_ms,
    {
        if now_ms >= self.next_allowed_ms {
            0
        } else {
            self.next_allowed_ms - now_ms
        }
    }

    /// Grants an upload start at `start_ms`, which must not come before the
    /// earliest allowed moment, and pushes the next allowed moment one full
    /// interval further.
    pub fn record_start(&mut self, start_ms: u64)
        requires
            old(self).wf(),
            start_ms >= old(self).next_allowed_ms,
            start_ms + old(self).interval_ms <= u64::MAX,
        ensures
            final(self).wf(),
            final(self).interval_ms == old(self).interval_ms,
            final(self).next_allowed_ms == start_ms + old(self).interval_ms,
            final(self).starts@ == old(self).starts@.push(start_ms as int),
    {
        self.next_allowed_ms = start_ms + self.interval_ms;
        proof {
            self.starts@ = self.starts@.push(start_ms as int);
        }
    }
}

proof fn lemma_spaced_gap(times: Seq<int>, d: int, i: int, j: int)
    requires
        spaced(times, d),
        0 <= i <= j < times.len(),
    ensures
        times[j] >= times[i] + (j - i) * d,
    decreases j - i,
{
    if i < j {
        lemma_spaced_gap(times, d, i, j - 1);
        assert(times[(j - 1) + 1] >= times[j - 1] + d);
        assert((j - i) * d == (j - 1 - i) * d + d) by (nonlinear_arith);
    } else {
        assert((j - i) * d == 0) by (nonlinear_arith)
            requires
                i == j,
        ;
    }
}

/// Rate bound: when upload starts are spaced at least `d` apart, any window
/// of width `60 · d` holds at most 60 of them — with `d` one second, at most
/// 60 uploads begin in any 60-second stretch. Stated over any two granted
/// starts of a well-formed limiter less than `60 · d` apart: no more than 58
/// further starts can lie between them.
pub proof fn lemma_rate_bound(limiter: RateLimiter, i: int, j: int)
    requires
        limiter.wf(),
        0 <= i <= j < limiter.starts@.len(),
        limiter.starts@[j] - limiter.starts@[i] < 60 * (limiter.interval_ms as int),
    ensures
        j - i + 1 <= 60,
{
    let d = limiter.interval_ms as int;
    lemma_spaced_gap(limiter.starts@, d, i, j);
    assert(j - i < 60) by (nonlinear_arith)
        requires
            (j - i) * d < 60 * d,
            d > 0,
    ;
}

} // verus!
