//! Admission control for one credential: a bound on the requests in flight and,
//! optionally, a requests-per-minute ceiling over a sliding 60-second window.
//!
//! The governor never waits. It is asked for an admission with the current
//! time and answers at once: granted, busy until a release, or the delay after
//! which the oldest admission in the window ages out. The caller waits and asks
//! again.

use std::collections::VecDeque;
use vstd::prelude::*;

verus! {

/// Length of the rate window, in milliseconds.
pub const RATE_WINDOW_MS: u64 = 60_000;

/// The times are in increasing order.
pub open spec fn ascending(s: Seq<u64>) -> bool {
    forall|i: int, j: int| 0 <= i <= j < s.len() ==> s[i] <= s[j]
}

/// Any `rpm + 1` consecutive admissions span at least the window.
pub open spec fn spaced(s: Seq<u64>, rpm: nat) -> bool {
    forall|i: int|
        0 <= i && i + rpm < s.len() ==> #[trigger] s[i + rpm] - s[i] >= RATE_WINDOW_MS
}

/// Whether one more admission at time `now` keeps the rate ceiling: the ceiling
/// is off (`rpm == 0`), or fewer than `rpm` admissions were made, or the
/// `rpm`-th most recent one is at least a window old.
pub open spec fn rate_allows(admissions: Seq<u64>, rpm: nat, now: int) -> bool {
    rpm == 0 || admissions.len() < rpm || now - admissions[admissions.len() - rpm]
        >= RATE_WINDOW_MS
}

/// The answer to a request for admission.
#[derive(Debug, PartialEq, Eq)]
pub enum Admission {
    /// Admitted; the caller must release it when its request ends.
    Granted,
    /// As many admissions as the concurrency limit are outstanding; ask again
    /// after a release.
    Busy,
    /// The rate ceiling is reached; ask again after this many milliseconds.
    WaitMs(u64),
}

/// Admission state of one credential.
pub struct RateGovernor {
    concurrency_limit: usize,
    rpm_limit: u32,
    outstanding: usize,
    clock: u64,
    window: VecDeque<u64>,
    granted: Ghost<Seq<u64>>,
}

impl RateGovernor {
    /// The most admissions outstanding at once.
    pub closed spec fn limit(&self) -> nat {
        self.concurrency_limit as nat
    }

    /// The most admissions in any window; 0 means no ceiling.
    pub closed spec fn rpm(&self) -> nat {
        self.rpm_limit as nat
    }

    /// The admissions granted and not yet released.
    pub closed spec fn in_flight(&self) -> nat {
        self.outstanding as nat
    }

    /// The latest time the governor was asked at.
    pub closed spec fn now(&self) -> u64 {
        self.clock
    }

    /// The times of every admission granted so far, oldest first.
    pub closed spec fn admissions(&self) -> Seq<u64> {
        self.granted@
    }

    /// The state is consistent: within the concurrency limit, admissions in
    /// time order and spaced by the rate ceiling, and the window holding
    /// exactly the admissions that may still be younger than the window.
    pub closed spec fn wf(&self) -> bool {
        let g = self.granted@;
        let w = self.window@;
        &&& self.outstanding <= self.concurrency_limit
        &&& ascending(g)
        &&& forall|i: int| 0 <= i < g.len() ==> #[trigger] g[i] <= self.clock
        &&& self.rpm_limit > 0 ==> {
            &&& w.len() <= g.len()
            &&& w == g.subrange(g.len() - w.len(), g.len() as int)
            &&& forall|i: int|
                0 <= i < g.len() - w.len() ==> self.clock - #[trigger] g[i] >= RATE_WINDOW_MS
            &&& spaced(g, self.rpm_limit as nat)
        }
        &&& self.rpm_limit == 0 ==> w.len() == 0
    }

    /// A governor with no admission yet.
    pub fn new(concurrency_limit: usize, rpm_limit: u32) -> (r: RateGovernor)
        ensures
            r.wf(),
            r.limit() == concurrency_limit,
            r.rpm() == rpm_limit,
            r.in_flight() == 0,
            r.now() == 0,
            r.admissions() == Seq::<u64>::empty(),
    {
        let r = RateGovernor {
            concurrency_limit,
            rpm_limit,
            outstanding: 0,
            clock: 0,
            window: VecDeque::new(),
            granted: Ghost(Seq::empty()),
        };
        proof {
            assert(r.window@ =~= r.granted@.subrange(0, 0));
        }
        r
    }

    /// The number of admissions outstanding.
    pub fn outstanding(&self) -> (r: usize)
        ensures
            r == self.in_flight(),
    {
        self.outstanding
    }

    /// Asks for an admission at time `now_ms` (milliseconds on a monotonic
    /// clock; an earlier time than one already seen counts as that one).
    /// Granted when fewer than the concurrency limit are outstanding and the
    /// rate ceiling allows one more at that time.
    pub fn try_admit(&mut self, now_ms: u64) -> (r: Admission)
        requires
            old(self).wf(),
        ensures
            admission_step(*old(self), now_ms, r, *final(self)),
    {
        let now = if now_ms < self.clock {
            self.clock
        } else {
            now_ms
        };
        self.clock = now;
        let ghost g = self.granted@;
        if self.rpm_limit > 0 {
            while self.window.len() > 0 && now - self.window[0] >= RATE_WINDOW_MS
                invariant
                    self.granted@ == g,
                    self.clock == now,
                    self.rpm_limit > 0,
                    self.rpm_limit == old(self).rpm_limit,
                    self.concurrency_limit == old(self).concurrency_limit,
                    self.outstanding == old(self).outstanding,
                    self.outstanding <= self.concurrency_limit,
                    ascending(g),
                    forall|i: int| 0 <= i < g.len() ==> #[trigger] g[i] <= now,
                    self.window@.len() <= g.len(),
                    self.window@ == g.subrange(g.len() - self.window@.len(), g.len() as int),
                    forall|i: int|
                        0 <= i < g.len() - self.window@.len() ==> now - #[trigger] g[i]
                            >= RATE_WINDOW_MS,
                    spaced(g, self.rpm_limit as nat),
                decreases self.window@.len(),
            {
                let ghost before = self.window@;
                self.window.pop_front();
                proof {
                    assert forall|i: int|
                        0 <= i < g.len() - self.window@.len() implies now - #[trigger] g[i]
                        >= RATE_WINDOW_MS by {
                        if i == g.len() - before.len() {
                            assert(g[i] == before[0]);
                        }
                    }
                }
            }
            proof {
                let w = self.window@;
                let l = g.len() as int;
                let r = self.rpm_limit as int;
                if w.len() >= r {
                    assert(g[l - r] == w[w.len() - r]);
                    assert(g[l - w.len()] == w[0]);
                    assert(g[l - w.len()] <= g[l - r]);
                } else if l >= r {
                    assert(now - g[l - r] >= RATE_WINDOW_MS);
                }
            }
        }
        if self.outstanding >= self.concurrency_limit {
            return Admission::Busy;
        }
        if self.rpm_limit > 0 && self.window.len() >= self.rpm_limit as usize {
            let oldest = self.window[0];
            proof {
                let l = g.len() as int;
                let w = self.window@;
                let r = self.rpm_limit as int;
                assert(g[l - w.len()] == w[0]);
                assert(g[l - r] == w[w.len() - r]);
                if w.len() > r {
                    let i = l - w.len();
                    assert(g[i + r] - g[i] >= RATE_WINDOW_MS);
                    assert(g[i + r] <= now);
                }
                assert(w.len() == r);
            }
            return Admission::WaitMs(RATE_WINDOW_MS - (now - oldest));
        }
        self.outstanding = self.outstanding + 1;
        if self.rpm_limit > 0 {
            self.window.push_back(now);
        }
        self.granted = Ghost(g.push(now));
        proof {
            let g2 = g.push(now);
            if self.rpm_limit > 0 {
                assert(self.window@ =~= g2.subrange(
                    g2.len() - self.window@.len(),
                    g2.len() as int,
                ));
                assert forall|i: int|
                    0 <= i && i + self.rpm_limit < g2.len() implies #[trigger] g2[i
                    + self.rpm_limit] - g2[i] >= RATE_WINDOW_MS by {
                    if i + self.rpm_limit == g.len() {
                        assert(g2[i] == g[g.len() - self.rpm_limit]);
                    } else {
                        assert(g2[i + self.rpm_limit] == g[i + self.rpm_limit]);
                    }
                }
            }
        }
        Admission::Granted
    }

    /// Ends one admission: one fewer is outstanding (none stays none).
    pub fn release(&mut self)
        requires
            old(self).wf(),
        ensures
            release_step(*old(self), *final(self)),
    {
        if self.outstanding > 0 {
            self.outstanding = self.outstanding - 1;
        }
    }
}

/// How a governor answers a request for admission at `now_ms`, and its state
/// after. The time is the latest seen so far. Busy exactly when the concurrency
/// limit is reached; granted exactly when it is not and the rate ceiling allows
/// one more at that time, which then counts one more outstanding and records
/// the admission; otherwise the delay until the admission that blocks leaves
/// the window.
pub open spec fn admission_step(g: RateGovernor, now_ms: u64, r: Admission, h: RateGovernor) -> bool {
    let t = if now_ms < g.now() {
        g.now()
    } else {
        now_ms
    };
    &&& h.wf()
    &&& h.limit() == g.limit()
    &&& h.rpm() == g.rpm()
    &&& h.now() == t
    &&& (r is Busy) <==> g.in_flight() >= g.limit()
    &&& (r is Granted) <==> g.in_flight() < g.limit() && rate_allows(g.admissions(), g.rpm(), t as int)
    &&& r is Granted ==> h.in_flight() == g.in_flight() + 1 && h.admissions() == g.admissions().push(t)
    &&& !(r is Granted) ==> h.in_flight() == g.in_flight() && h.admissions() == g.admissions()
    &&& r matches Admission::WaitMs(d) ==> d > 0 && d == g.admissions()[g.admissions().len() - g.rpm()]
        + RATE_WINDOW_MS - t
}

/// A release: one fewer admission outstanding (none stays none), all else kept.
pub open spec fn release_step(g: RateGovernor, h: RateGovernor) -> bool {
    &&& h.wf()
    &&& h.limit() == g.limit()
    &&& h.rpm() == g.rpm()
    &&& h.now() == g.now()
    &&& h.admissions() == g.admissions()
    &&& h.in_flight() == if g.in_flight() == 0 {
        0
    } else {
        (g.in_flight() - 1) as nat
    }
}

/// At no point are more admissions outstanding than the concurrency limit: every
/// governor state that `new`, `try_admit` and `release` produce keeps the bound.
pub proof fn lemma_concurrency_bound(g: &RateGovernor)
    requires
        g.wf(),
    ensures
        g.in_flight() <= g.limit(),
{
}

/// With a ceiling of `R > 0` admissions per minute, no 60-second window
/// `(t − 60 s, t]` holds more than `R` admissions. Admissions are in time order,
/// so those in a window are consecutive, from index `lo` to index `hi`.
pub proof fn lemma_rate_ceiling(g: &RateGovernor, t: int, lo: int, hi: int)
    requires
        g.wf(),
        g.rpm() > 0,
        0 <= lo <= hi < g.admissions().len(),
        t - RATE_WINDOW_MS < g.admissions()[lo],
        g.admissions()[hi] <= t,
    ensures
        ascending(g.admissions()),
        hi - lo + 1 <= g.rpm(),
{
    let s = g.admissions();
    let r = g.rpm() as int;
    if hi - lo >= r {
        assert(s[lo + r] - s[lo] >= RATE_WINDOW_MS);
        assert(s[lo + r] <= s[hi]);
    }
}

/// A ceiling of 0 disables the rate check: it allows an admission at any time.
pub proof fn lemma_no_ceiling(admissions: Seq<u64>, now: int)
    ensures
        rate_allows(admissions, 0, now),
{
}

} // verus!
