//! Admission control: process-wide rate limiting per quota category.
//!
//! The admission gate keeps, per category, the minimum spacing between admissions and
//! the time of the most recent admission.  An attempt is admitted only when
//! every category it consumes has been quiet for its configured spacing, and
//! admission updates all of them.  The admission gate cannot fail, only delay: a
//! rejected caller asks when it may come back and sleeps until then.
//! Callers serialize access to the shared state themselves; the ghost admission log
//! shows that whatever the interleaving, admissions within one category
//! always keep the configured spacing, which bounds the attempt rate for any
//! number of concurrent callers.

use vstd::prelude::*;
use crate::category::{ApiCategory, CATEGORY_COUNT};

verus! {

/// The largest configurable spacing between admissions, in milliseconds.
pub const MAX_INTERVAL_MS: u64 = 1_000_000_000_000;

/// The largest clock reading the limiter accepts, in milliseconds; leaves room
/// for one spacing above every admission time it holds.
pub const MAX_TIMESTAMP_MS: u64 = u64::MAX - MAX_INTERVAL_MS;

/// Whether every admission in `times` comes at least `interval` after the one
/// before it.
pub open spec fn spaced(times: Seq<u64>, interval: u64) -> bool {
    forall|k: int| 0 <= k && k + 1 < times.len() ==> #[trigger] times[k] + interval <= times[k + 1]
}

/// Appending an admission that comes at least `interval` after the last one
/// keeps a log spaced.
pub proof fn lemma_spaced_push(times: Seq<u64>, interval: u64, t: u64)
    requires
        spaced(times, interval),
        times.len() > 0 ==> times.last() + interval <= t,
    ensures
        spaced(times.push(t), interval),
{
    let grown = times.push(t);
    assert forall|k: int| 0 <= k && k + 1 < grown.len() implies #[trigger] grown[k] + interval
        <= grown[k + 1] by {
        if k + 1 < times.len() {
            assert(times[k] + interval <= times[k + 1]);
        } else {
            assert(grown[k] == times.last());
            assert(grown[k + 1] == t);
        }
    }
}

/// Process-wide shared admission state, one bucket per category.
pub struct AdmissionGate {
    /// The minimum spacing between admissions, per category index.
    pub intervals: Vec<u64>,
    /// The time of the last admission, per category index.
    pub last_admit: Vec<Option<u64>>,
    /// Every admission ever granted, per category index.
    pub admissions: Ghost<Seq<Seq<u64>>>,
}

impl AdmissionGate {
    /// The limiter's invariant: one bucket per category, spacings within the
    /// configurable bound, each bucket's admission log spaced by its
    /// interval, and the latest admission mirroring that log.
    pub open spec fn wf(self) -> bool {
        &&& self.intervals@.len() == CATEGORY_COUNT
        &&& self.last_admit@.len() == CATEGORY_COUNT
        &&& self.admissions@.len() == CATEGORY_COUNT
        &&& forall|c: int| 0 <= c < CATEGORY_COUNT ==> #[trigger] self.intervals@[c]
            <= MAX_INTERVAL_MS
        &&& forall|c: int| 0 <= c < CATEGORY_COUNT ==> spaced(
            #[trigger] self.admissions@[c],
            self.intervals@[c],
        )
        &&& forall|c: int| 0 <= c < CATEGORY_COUNT ==> match #[trigger] self.last_admit@[c] {
            None => self.admissions@[c].len() == 0,
            Some(t) => {
                &&& self.admissions@[c].len() > 0
                &&& t == self.admissions@[c].last()
                &&& t <= MAX_TIMESTAMP_MS
            },
        }
    }

    /// A fresh gate that has admitted nothing.
    pub fn new(intervals: Vec<u64>) -> (g: Self)
        requires
            intervals@.len() == CATEGORY_COUNT,
            forall|c: int| 0 <= c < CATEGORY_COUNT ==> #[trigger] intervals@[c] <= MAX_INTERVAL_MS,
        ensures
            g.wf(),
            g.intervals == intervals,
            forall|c: int| 0 <= c < CATEGORY_COUNT ==> #[trigger] g.admissions@[c].len() == 0,
    {
        let mut last_admit: Vec<Option<u64>> = Vec::new();
        let mut j: usize = 0;
        while j < CATEGORY_COUNT
            invariant
                j <= CATEGORY_COUNT,
                last_admit@.len() == j,
                forall|c: int| 0 <= c < j ==> #[trigger] last_admit@[c] is None,
            decreases CATEGORY_COUNT - j,
        {
            last_admit.push(None);
            j = j + 1;
        }
        AdmissionGate {
            intervals,
            last_admit,
            admissions: Ghost(Seq::new(CATEGORY_COUNT as nat, |c: int| Seq::<u64>::empty())),
        }
    }

    /// The earliest time one bucket will admit again.
    pub open spec fn spec_bucket_bound(self, c: int) -> int {
        match self.last_admit@[c] {
            None => 0,
            Some(t) => t + self.intervals@[c],
        }
    }

    /// The earliest time a request in `primary` is eligible: both its own
    /// bucket and the wildcard bucket must have been quiet long enough.
    pub open spec fn spec_earliest(self, primary: ApiCategory) -> int {
        let own = self.spec_bucket_bound(primary.spec_index());
        let all = self.spec_bucket_bound(0);
        if own > all {
            own
        } else {
            all
        }
    }

    /// The earliest time a request in `primary` is eligible.
    pub fn earliest_allowed(&self, primary: ApiCategory) -> (t: u64)
        requires
            self.wf(),
        ensures
            t == self.spec_earliest(primary),
    {
        let own = self.bucket_bound(primary.index());
        let all = self.bucket_bound(0);
        if own > all {
            own
        } else {
            all
        }
    }

    /// The earliest time one bucket will admit again.
    fn bucket_bound(&self, c: usize) -> (t: u64)
        requires
            self.wf(),
            c < CATEGORY_COUNT,
        ensures
            t == self.spec_bucket_bound(c as int),
    {
        match self.last_admit[c] {
            None => 0,
            Some(t) => t + self.intervals[c],
        }
    }

    /// Admits a request in `primary` if both categories it consumes are
    /// eligible at `now`, and notes the attempt in each; otherwise changes
    /// nothing.  A rejected caller may retry at
    /// [`AdmissionGate::earliest_allowed`].
    pub fn try_admit(&mut self, now: u64, primary: ApiCategory) -> (admitted: bool)
        requires
            old(self).wf(),
            now <= MAX_TIMESTAMP_MS,
        ensures
            final(self).wf(),
            final(self).intervals == old(self).intervals,
            admitted == (now >= old(self).spec_earliest(primary)),
            !admitted ==> *final(self) == *old(self),
            admitted ==> forall|c: int|
                0 <= c < CATEGORY_COUNT ==> if c == 0 || c == primary.spec_index() {
                    &&& #[trigger] final(self).last_admit@[c] == Some(now)
                    &&& final(self).admissions@[c] == old(self).admissions@[c].push(now)
                } else {
                    &&& final(self).last_admit@[c] == old(self).last_admit@[c]
                    &&& final(self).admissions@[c] == old(self).admissions@[c]
                },
    {
        let earliest = self.earliest_allowed(primary);
        if now < earliest {
            return false;
        }
        let own = primary.index();
        self.last_admit[0] = Some(now);
        self.last_admit[own] = Some(now);
        proof {
            let h0 = self.admissions@;
            let h1 = h0.update(0, h0[0].push(now));
            lemma_spaced_push(h0[0], self.intervals@[0], now);
            if own != 0 {
                lemma_spaced_push(h0[own as int], self.intervals@[own as int], now);
                self.admissions@ = h1.update(own as int, h0[own as int].push(now));
            } else {
                self.admissions@ = h1;
            }
        }
        true
    }
}

/// Admission fairness under load: however many concurrent requests a
/// category receives, any two admissions the limiter granted for it, `i` and a
/// later `j`, are at least `(j - i) * interval` apart; so a window shorter
/// than `n * interval` holds at most `n` admissions, for every load.
pub proof fn lemma_admission_rate(times: Seq<u64>, interval: u64, i: int, j: int)
    requires
        spaced(times, interval),
        0 <= i <= j < times.len(),
    ensures
        times[i] + (j - i) * interval <= times[j],
    decreases j - i,
{
    if i == j {
        assert((j - i) * interval == 0) by (nonlinear_arith)
            requires
                i == j,
        ;
    } else {
        lemma_admission_rate(times, interval, i, j - 1);
        assert(times[j - 1] + interval <= times[j]);
        assert((j - i) * interval == (j - 1 - i) * interval + interval) by (nonlinear_arith);
    }
}


/// The rate bound on a live limiter: in any of its buckets, admission `i`
/// and a later admission `j` lie at least `(j - i)` spacings apart.
pub proof fn lemma_gate_rate(g: AdmissionGate, c: int, i: int, j: int)
    requires
        g.wf(),
        0 <= c < CATEGORY_COUNT,
        0 <= i <= j < g.admissions@[c].len(),
    ensures
        g.admissions@[c][i] + (j - i) * g.intervals@[c] <= g.admissions@[c][j],
{
    lemma_admission_rate(g.admissions@[c], g.intervals@[c], i, j);
}


/// The window form of the rate bound: admissions of one category that fall
/// within any window narrower than `w` milliseconds number at most
/// `(w - 1) / interval` beyond the first, for every load.
pub proof fn lemma_window_bound(times: Seq<u64>, interval: u64, i: int, j: int, w: u64)
    requires
        spaced(times, interval),
        interval >= 1,
        0 <= i <= j < times.len(),
        times[j] - times[i] < w,
    ensures
        j - i <= (w - 1) as int / interval as int,
{
    lemma_admission_rate(times, interval, i, j);
    assert(j - i <= (w - 1) as int / interval as int) by (nonlinear_arith)
        requires
            (j - i) * interval <= (w - 1) as int,
            interval >= 1,
            j - i >= 0,
    ;
}

} // verus!
