//! Price history buffer for dump detection.

use vstd::prelude::*;

verus! {

/// How far the nearest sample may lie from the requested instant, in
/// milliseconds, before a lookup gives up.
pub const STALENESS_TOLERANCE_MS: i64 = 1000;

/// A price at a specific time (milliseconds).
#[derive(Debug, Clone, Copy, PartialEq, Eq, Structural)]
pub struct PricePoint {
    pub price: u64,
    pub timestamp: i64,
}

/// Maintains a short history of prices for one side of the market.
pub struct PriceBuffer {
    history: Vec<PricePoint>,
    window: i64,
}

/// Index of the first sample at or after `i` whose timestamp lies strictly
/// after `cutoff`, or the length of `h` when there is none.
pub open spec fn first_after(h: Seq<PricePoint>, cutoff: int, i: int) -> int
    decreases h.len() - i,
{
    if i < 0 || i >= h.len() {
        h.len() as int
    } else if h[i].timestamp > cutoff {
        i
    } else {
        first_after(h, cutoff, i + 1)
    }
}

/// The history after appending `p` and evicting, oldest first, every sample
/// up to the first one newer than `p.timestamp - window`.
pub open spec fn added(h: Seq<PricePoint>, p: PricePoint, window: int) -> Seq<PricePoint> {
    let pushed = h.push(p);
    let k = first_after(pushed, p.timestamp - window, 0);
    if k < pushed.len() {
        pushed.subrange(k, pushed.len() as int)
    } else {
        pushed
    }
}

/// Distance in time between a sample and a target instant.
pub open spec fn dist(p: PricePoint, target: int) -> int {
    if p.timestamp >= target {
        p.timestamp - target
    } else {
        target - p.timestamp
    }
}

/// `k` is the earliest sample among those closest to `target`.
pub open spec fn is_nearest(h: Seq<PricePoint>, target: int, k: int) -> bool {
    &&& 0 <= k < h.len()
    &&& forall|j: int| 0 <= j < h.len() ==> dist(h[k], target) <= #[trigger] dist(h[j], target)
    &&& forall|j: int| 0 <= j < k ==> dist(h[k], target) < #[trigger] dist(h[j], target)
}

/// Some sample lies within the staleness tolerance of `target`.
pub open spec fn has_fresh(h: Seq<PricePoint>, target: int) -> bool {
    exists|j: int| 0 <= j < h.len() && #[trigger] dist(h[j], target) <= STALENESS_TOLERANCE_MS
}

/// The price that a lookup of `ago` before `now` yields on history `h`: the
/// price of the nearest sample, when some sample is fresh enough.
pub open spec fn price_ago(h: Seq<PricePoint>, ago: int, now: int) -> Option<u64> {
    let target = now - ago;
    if has_fresh(h, target) {
        Some(h[choose|k: int| is_nearest(h, target, k)].price)
    } else {
        None
    }
}

proof fn lemma_nearest_unique(h: Seq<PricePoint>, target: int, k1: int, k2: int)
    requires
        is_nearest(h, target, k1),
        is_nearest(h, target, k2),
    ensures
        k1 == k2,
{
    if k1 < k2 {
        assert(dist(h[k2], target) < dist(h[k1], target));
    } else if k2 < k1 {
        assert(dist(h[k1], target) < dist(h[k2], target));
    }
}

/// Timestamps never decrease along `h`.
pub open spec fn sorted(h: Seq<PricePoint>) -> bool {
    forall|i: int, j: int| 0 <= i <= j < h.len() ==> h[i].timestamp <= h[j].timestamp
}

/// Every sample of `h` lies within `window` of the latest one.
pub open spec fn within_window(h: Seq<PricePoint>, window: int) -> bool {
    h.len() > 0 ==> forall|i: int|
        0 <= i < h.len() ==> h[h.len() - 1].timestamp - #[trigger] h[i].timestamp <= window
}

proof fn lemma_first_after(h: Seq<PricePoint>, cutoff: int, i: int)
    requires
        0 <= i <= h.len(),
    ensures
        i <= first_after(h, cutoff, i) <= h.len(),
        first_after(h, cutoff, i) < h.len() ==> h[first_after(h, cutoff, i)].timestamp > cutoff,
        i < h.len() && h.last().timestamp > cutoff ==> first_after(h, cutoff, i) < h.len(),
    decreases h.len() - i,
{
    if i < h.len() && h[i].timestamp <= cutoff {
        lemma_first_after(h, cutoff, i + 1);
    }
}

/// Eviction invariant: adding a sample no older than the latest one to an
/// ordered history, with a positive window, leaves an ordered history that
/// ends with the new sample and whose every sample lies within the window of
/// it.
pub proof fn lemma_add_within_window(h: Seq<PricePoint>, p: PricePoint, window: int)
    requires
        sorted(h),
        window > 0,
        h.len() > 0 ==> h.last().timestamp <= p.timestamp,
    ensures
        sorted(added(h, p, window)),
        within_window(added(h, p, window), window),
        added(h, p, window).len() > 0,
        added(h, p, window).last() == p,
{
    let pushed = h.push(p);
    let cutoff = p.timestamp - window;
    lemma_first_after(pushed, cutoff, 0);
    let k = first_after(pushed, cutoff, 0);
    assert(sorted(pushed)) by {
        assert forall|i: int, j: int| 0 <= i <= j < pushed.len() implies pushed[i].timestamp
            <= pushed[j].timestamp by {
            if j == pushed.len() - 1 && i < j {
                assert(h[i].timestamp <= h.last().timestamp);
            }
        }
    }
    let r = added(h, p, window);
    assert(r == pushed.subrange(k, pushed.len() as int));
    assert forall|i: int| 0 <= i < r.len() implies r[r.len() - 1].timestamp - #[trigger] r[i].timestamp
        <= window by {
        assert(pushed[k].timestamp <= pushed[k + i].timestamp);
    }
}

/// The history left by adding the samples `pts`, in order, to an empty
/// buffer with the given window.
pub open spec fn added_all(pts: Seq<PricePoint>, window: int) -> Seq<PricePoint>
    decreases pts.len(),
{
    if pts.len() == 0 {
        Seq::empty()
    } else {
        added(added_all(pts.drop_last(), window), pts.last(), window)
    }
}

/// Eviction invariant over any run of adds: adding samples with
/// non-decreasing timestamps to an empty buffer with a positive window
/// leaves, after every add, an ordered history that ends with the latest
/// sample and whose every sample lies within the window of it.
pub proof fn lemma_adds_within_window(pts: Seq<PricePoint>, window: int)
    requires
        window > 0,
        sorted(pts),
    ensures
        sorted(added_all(pts, window)),
        within_window(added_all(pts, window), window),
        pts.len() > 0 ==> added_all(pts, window).len() > 0 && added_all(pts, window).last()
            == pts.last(),
    decreases pts.len(),
{
    if pts.len() > 0 {
        let prev = pts.drop_last();
        assert(sorted(prev));
        lemma_adds_within_window(prev, window);
        if prev.len() > 0 {
            assert(prev.last().timestamp <= pts.last().timestamp);
        }
        lemma_add_within_window(added_all(prev, window), pts.last(), window);
    }
}

/// Staleness guard: when no sample lies within the tolerance of the target
/// instant (in particular when the history is empty), a lookup yields
/// nothing.
pub proof fn lemma_stale_lookup_is_none(h: Seq<PricePoint>, ago: int, now: int)
    requires
        forall|j: int| 0 <= j < h.len() ==> #[trigger] dist(h[j], now - ago) > STALENESS_TOLERANCE_MS,
    ensures
        price_ago(h, ago, now) is None,
{
}

impl PriceBuffer {
    /// The retained samples, oldest first.
    pub closed spec fn history(&self) -> Seq<PricePoint> {
        self.history@
    }

    /// The retention window in milliseconds.
    pub closed spec fn window(&self) -> int {
        self.window as int
    }

    /// Creates an empty buffer retaining `window` milliseconds of history.
    pub fn new(window: i64) -> (r: Self)
        ensures
            r.history() == Seq::<PricePoint>::empty(),
            r.window() == window,
    {
        PriceBuffer { history: Vec::new(), window }
    }

    /// The retained samples, oldest first.
    pub fn points(&self) -> (r: &Vec<PricePoint>)
        ensures
            r@ == self.history(),
    {
        &self.history
    }

    /// The retention window in milliseconds.
    pub fn window_ms(&self) -> (r: i64)
        ensures
            r == self.window(),
    {
        self.window
    }

    /// Appends a new price point and evicts, from the oldest end, the points
    /// that are `window` or more older than `ts`.
    pub fn add(&mut self, price: u64, ts: i64)
        ensures
            final(self).window() == old(self).window(),
            final(self).history() == added(
                old(self).history(),
                PricePoint { price, timestamp: ts },
                old(self).window(),
            ),
            old(self).window() > 0 && sorted(old(self).history()) && (old(self).history().len() > 0
                ==> old(self).history().last().timestamp <= ts) ==> {
                &&& sorted(final(self).history())
                &&& within_window(final(self).history(), final(self).window())
            },
    {
        let p = PricePoint { price, timestamp: ts };
        self.history.push(p);
        let ghost pushed = self.history@;
        let cutoff: i128 = ts as i128 - self.window as i128;
        let n = self.history.len();
        let mut i: usize = 0;
        while i < n
            invariant
                self.history@ == pushed,
                n == pushed.len(),
                0 <= i <= n,
                first_after(pushed, cutoff as int, 0) == first_after(pushed, cutoff as int, i as int),
            ensures
                i < n ==> pushed[i as int].timestamp > cutoff,
                i <= n,
            decreases n - i,
        {
            if self.history[i].timestamp as i128 > cutoff {
                break;
            }
            i = i + 1;
        }
        if i < n && i > 0 {
            let rest = self.history.split_off(i);
            self.history = rest;
        }
        proof {
            if old(self).window() > 0 && sorted(old(self).history()) && (old(self).history().len()
                > 0 ==> old(self).history().last().timestamp <= ts) {
                lemma_add_within_window(old(self).history(), p, old(self).window());
            }
            assert(first_after(pushed, cutoff as int, i as int) == i);
            if i < n && i == 0 {
                assert(pushed.subrange(0, pushed.len() as int) == pushed);
            }
        }
    }

    /// Returns the price of the sample closest to `now - duration` (the
    /// earliest one on a tie), or `None` when the buffer is empty or that
    /// sample is more than the staleness tolerance away.
    pub fn get_price_ago(&self, duration: i64, now: i64) -> (r: Option<u64>)
        ensures
            r == price_ago(self.history(), duration as int, now as int),
    {
        let ghost h = self.history@;
        let target: i128 = now as i128 - duration as i128;
        let mut best: usize = 0;
        let mut min_diff: i128 = 0;
        let mut i: usize = 0;
        while i < self.history.len()
            invariant
                h == self.history@,
                target == now as int - duration as int,
                0 <= i <= h.len(),
                i > 0 ==> 0 <= best < i && min_diff == dist(h[best as int], target as int),
                i > 0 ==> forall|j: int| 0 <= j < i ==> min_diff <= #[trigger] dist(h[j], target as int),
                i > 0 ==> forall|j: int| 0 <= j < best ==> min_diff < #[trigger] dist(h[j], target as int),
            decreases h.len() - i,
        {
            let ts = self.history[i].timestamp as i128;
            let diff: i128 = if ts >= target { ts - target } else { target - ts };
            if i == 0 || diff < min_diff {
                best = i;
                min_diff = diff;
            }
            i = i + 1;
        }
        if i == 0 || min_diff > STALENESS_TOLERANCE_MS as i128 {
            proof {
                assert forall|j: int| 0 <= j < h.len() implies #[trigger] dist(h[j], target as int)
                    > STALENESS_TOLERANCE_MS by {}
            }
            None
        } else {
            proof {
                assert(is_nearest(h, target as int, best as int));
                assert(has_fresh(h, target as int)) by {
                    assert(dist(h[best as int], target as int) <= STALENESS_TOLERANCE_MS);
                }
                let k = choose|k: int| is_nearest(h, target as int, k);
                lemma_nearest_unique(h, target as int, k, best as int);
            }
            Some(self.history[best].price)
        }
    }
}

} // verus!
