//! Stateful CPU usage tracking: per-core tick counters are sampled once per
//! cycle, and usage percentages are derived from the deltas against the
//! previous sample.

use crate::sat64;
use vstd::arithmetic::div_mod::{
    lemma_div_is_ordered, lemma_div_multiples_vanish, lemma_div_pos_is_pos,
};
use vstd::arithmetic::mul::lemma_mul_inequality;
use vstd::prelude::*;

verus! {

/// Per-core tick counts, each category a monotonically increasing counter
/// since boot.
#[derive(Clone, Copy, Debug, Default, PartialEq, Eq, Structural)]
pub struct CpuTicks {
    pub user: u64,
    pub system: u64,
    pub idle: u64,
    pub nice: u64,
}

impl CpuTicks {
    /// Ticks spent in any category.
    pub open spec fn total_spec(self) -> int {
        self.user + self.system + self.idle + self.nice
    }

    /// Ticks spent busy (everything but idle).
    pub open spec fn active_spec(self) -> int {
        self.user + self.system + self.nice
    }

    /// The four counters sum within the 64-bit range they were read from.
    pub open spec fn wf(self) -> bool {
        self.total_spec() <= u64::MAX
    }

    pub fn total(&self) -> (t: u64)
        requires
            self.wf(),
        ensures
            t as int == self.total_spec(),
    {
        self.user + self.system + self.idle + self.nice
    }

    pub fn active(&self) -> (a: u64)
        requires
            self.wf(),
        ensures
            a as int == self.active_spec(),
    {
        self.user + self.system + self.nice
    }
}

/// Active ticks accumulated between two samples of one core, clamped at
/// zero so a counter reset never yields a negative delta.
pub open spec fn delta_active(prev: CpuTicks, curr: CpuTicks) -> int {
    if curr.active_spec() >= prev.active_spec() {
        curr.active_spec() - prev.active_spec()
    } else {
        0
    }
}

/// Total ticks accumulated between two samples of one core, clamped at zero.
pub open spec fn delta_total(prev: CpuTicks, curr: CpuTicks) -> int {
    if curr.total_spec() >= prev.total_spec() {
        curr.total_spec() - prev.total_spec()
    } else {
        0
    }
}

/// Usage percentage of one core over one sampling interval: active share of
/// the total delta, or 0 when no ticks elapsed at all.
pub open spec fn core_percent(prev: CpuTicks, curr: CpuTicks) -> int {
    if delta_total(prev, curr) > 0 {
        100 * delta_active(prev, curr) / delta_total(prev, curr)
    } else {
        0
    }
}

/// Number of cores that both samples cover: derivation is truncated to the
/// shorter of the two tick lists when the core count changes between calls.
pub open spec fn zipped_len(prev: Seq<CpuTicks>, curr: Seq<CpuTicks>) -> int {
    if prev.len() <= curr.len() {
        prev.len() as int
    } else {
        curr.len() as int
    }
}

/// Sum of the active deltas of the first `n` cores.
pub open spec fn sum_delta_active(prev: Seq<CpuTicks>, curr: Seq<CpuTicks>, n: int) -> int
    decreases n,
{
    if n <= 0 {
        0
    } else {
        sum_delta_active(prev, curr, n - 1) + delta_active(prev[n - 1], curr[n - 1])
    }
}

/// Sum of the total deltas of the first `n` cores.
pub open spec fn sum_delta_total(prev: Seq<CpuTicks>, curr: Seq<CpuTicks>, n: int) -> int
    decreases n,
{
    if n <= 0 {
        0
    } else {
        sum_delta_total(prev, curr, n - 1) + delta_total(prev[n - 1], curr[n - 1])
    }
}

/// Overall usage percentage: the same active-over-total ratio computed on
/// the tick sums of all covered cores, which weights busier cores correctly
/// rather than averaging the per-core percentages.
pub open spec fn overall_percent(prev: Seq<CpuTicks>, curr: Seq<CpuTicks>) -> int {
    let n = zipped_len(prev, curr);
    let tt = sum_delta_total(prev, curr, n);
    if tt > 0 {
        100 * sum_delta_active(prev, curr, n) / tt
    } else {
        0
    }
}

/// Usage derived from one sampling cycle: overall percentage plus the
/// ordered per-core percentages, index-aligned to physical core order.
#[derive(Clone, Debug)]
pub struct CpuUsage {
    pub overall_percent: u64,
    pub per_core: Vec<u64>,
}

impl Default for CpuUsage {
    /// The zero usage reported before any delta is available.
    fn default() -> (d: CpuUsage)
        ensures
            d.overall_percent == 0,
            d.per_core@ == Seq::<u64>::empty(),
    {
        CpuUsage { overall_percent: 0, per_core: Vec::new() }
    }
}

/// Delta engine over per-core tick counts: holds exactly the previous
/// sample and replaces it wholesale on every call.
pub struct CpuTracker {
    prev: Vec<CpuTicks>,
}

impl CpuTracker {
    /// The retained previous tick sample.
    pub closed spec fn prev_ticks(self) -> Seq<CpuTicks> {
        self.prev@
    }

    pub open spec fn wf(self) -> bool {
        forall|i: int| 0 <= i < self.prev_ticks().len() ==> self.prev_ticks()[i].wf()
    }

    /// Starts tracking from an initial tick reading; the first `sample`
    /// call then reports usage relative to this baseline.
    pub fn new(initial: Vec<CpuTicks>) -> (t: CpuTracker)
        requires
            forall|i: int| 0 <= i < initial@.len() ==> initial@[i].wf(),
        ensures
            t.wf(),
            t.prev_ticks() == initial@,
    {
        CpuTracker { prev: initial }
    }

    /// Derives usage since the previous sample and replaces the stored
    /// sample with `current`, unconditionally, even when the core count
    /// changed (the derivation then covers only the shorter prefix).
    pub fn sample(&mut self, current: Vec<CpuTicks>) -> (usage: CpuUsage)
        requires
            old(self).wf(),
            forall|i: int| 0 <= i < current@.len() ==> current@[i].wf(),
            // the platform reports the core count as a 32-bit value
            current@.len() <= u32::MAX,
        ensures
            final(self).wf(),
            final(self).prev_ticks() == current@,
            usage.per_core@.len() == zipped_len(old(self).prev_ticks(), current@),
            forall|i: int|
                0 <= i < usage.per_core@.len() ==> usage.per_core@[i] as int == sat64(
                    core_percent(old(self).prev_ticks()[i], current@[i]),
                ),
            usage.overall_percent as int == sat64(
                overall_percent(old(self).prev_ticks(), current@),
            ),
    {
        let ghost prev0 = self.prev@;
        let ghost curr0 = current@;
        proof {
            assert forall|j: int| 0 <= j < prev0.len() implies prev0[j].wf() by {
                assert(prev0[j] == old(self).prev_ticks()[j]);
            }
        }
        let n: usize = if self.prev.len() <= current.len() {
            self.prev.len()
        } else {
            current.len()
        };
        let mut per_core: Vec<u64> = Vec::new();
        let mut total_active: u128 = 0;
        let mut total_all: u128 = 0;
        let mut i: usize = 0;
        while i < n
            invariant
                self.prev@ == prev0,
                current@ == curr0,
                forall|j: int| 0 <= j < prev0.len() ==> prev0[j].wf(),
                forall|j: int| 0 <= j < curr0.len() ==> curr0[j].wf(),
                n as int == zipped_len(prev0, curr0),
                n <= prev0.len(),
                n <= curr0.len(),
                n <= u32::MAX,
                0 <= i <= n,
                per_core@.len() == i,
                forall|j: int|
                    0 <= j < i ==> per_core@[j] as int == sat64(core_percent(prev0[j], curr0[j])),
                total_active as int == sum_delta_active(prev0, curr0, i as int),
                total_all as int == sum_delta_total(prev0, curr0, i as int),
                total_active as int <= i * 0xffff_ffff_ffff_ffff,
                total_all as int <= i * 0xffff_ffff_ffff_ffff,
            decreases n - i,
        {
            let c = current[i];
            let p = self.prev[i];
            let ca = c.active();
            let pa = p.active();
            let d_active: u64 = if ca >= pa {
                ca - pa
            } else {
                0
            };
            let ct = c.total();
            let pt = p.total();
            let d_total: u64 = if ct >= pt {
                ct - pt
            } else {
                0
            };
            let pct: u64 = if d_total > 0 {
                let q: u128 = 100u128 * (d_active as u128) / (d_total as u128);
                if q > u64::MAX as u128 {
                    u64::MAX
                } else {
                    q as u64
                }
            } else {
                0
            };
            per_core.push(pct);
            total_active = total_active + d_active as u128;
            total_all = total_all + d_total as u128;
            i = i + 1;
        }
        let overall: u64 = if total_all > 0 {
            let q: u128 = 100u128 * total_active / total_all;
            if q > u64::MAX as u128 {
                u64::MAX
            } else {
                q as u64
            }
        } else {
            0
        };
        self.prev = current;
        CpuUsage { overall_percent: overall, per_core }
    }
}

/// All four counters of `curr` are at or past those of `prev`: the normal
/// case of monotonically increasing tick counters without a reset.
pub open spec fn monotone_ticks(prev: CpuTicks, curr: CpuTicks) -> bool {
    &&& curr.user >= prev.user
    &&& curr.system >= prev.system
    &&& curr.idle >= prev.idle
    &&& curr.nice >= prev.nice
}

/// Law: a per-core percentage is never negative, it is 0 whenever no ticks
/// elapsed, and for non-negative tick deltas it never exceeds 100.
pub proof fn lemma_core_percent_in_range(prev: CpuTicks, curr: CpuTicks)
    ensures
        0 <= core_percent(prev, curr),
        delta_total(prev, curr) == 0 ==> core_percent(prev, curr) == 0,
        monotone_ticks(prev, curr) ==> core_percent(prev, curr) <= 100,
{
    let da = delta_active(prev, curr);
    let dt = delta_total(prev, curr);
    if dt > 0 {
        lemma_div_pos_is_pos(100 * da, dt);
        if monotone_ticks(prev, curr) {
            assert(da <= dt);
            lemma_mul_inequality(da, dt, 100);
            lemma_div_is_ordered(100 * da, 100 * dt, dt);
            lemma_div_multiples_vanish(100, dt);
        }
    }
}

/// The partial delta sums are non-negative, and wherever the counters of
/// the first `n` cores are monotone the active sum stays below the total
/// sum.
proof fn lemma_sum_delta_bounds(prev: Seq<CpuTicks>, curr: Seq<CpuTicks>, n: int)
    requires
        n <= zipped_len(prev, curr),
    ensures
        0 <= sum_delta_active(prev, curr, n),
        0 <= sum_delta_total(prev, curr, n),
        (forall|i: int| 0 <= i < n ==> monotone_ticks(prev[i], curr[i])) ==> sum_delta_active(
            prev,
            curr,
            n,
        ) <= sum_delta_total(prev, curr, n),
    decreases n,
{
    if n > 0 {
        lemma_sum_delta_bounds(prev, curr, n - 1);
    }
}

/// Law: the overall percentage is never negative, it is 0 whenever no ticks
/// elapsed on any covered core, and for non-negative tick deltas it never
/// exceeds 100.
pub proof fn lemma_overall_percent_in_range(prev: Seq<CpuTicks>, curr: Seq<CpuTicks>)
    ensures
        0 <= overall_percent(prev, curr),
        sum_delta_total(prev, curr, zipped_len(prev, curr)) == 0 ==> overall_percent(prev, curr)
            == 0,
        (forall|i: int|
            0 <= i < zipped_len(prev, curr) ==> monotone_ticks(prev[i], curr[i]))
            ==> overall_percent(prev, curr) <= 100,
{
    let n = zipped_len(prev, curr);
    let ta = sum_delta_active(prev, curr, n);
    let tt = sum_delta_total(prev, curr, n);
    lemma_sum_delta_bounds(prev, curr, n);
    if tt > 0 {
        lemma_div_pos_is_pos(100 * ta, tt);
        if forall|i: int| 0 <= i < n ==> monotone_ticks(prev[i], curr[i]) {
            lemma_mul_inequality(ta, tt, 100);
            lemma_div_is_ordered(100 * ta, 100 * tt, tt);
            lemma_div_multiples_vanish(100, tt);
        }
    }
}

/// The delta sums of a sample against itself vanish.
proof fn lemma_sum_self_zero(ticks: Seq<CpuTicks>, n: int)
    ensures
        sum_delta_active(ticks, ticks, n) == 0,
        sum_delta_total(ticks, ticks, n) == 0,
    decreases n,
{
    if n > 0 {
        lemma_sum_self_zero(ticks, n - 1);
    }
}

/// Law: sampling is idempotent under non-progressing counters — against an
/// identical tick sample every percentage, per core and overall, is 0.
pub proof fn lemma_no_progress_is_zero(ticks: Seq<CpuTicks>)
    ensures
        overall_percent(ticks, ticks) == 0,
        forall|i: int| 0 <= i < ticks.len() ==> core_percent(ticks[i], ticks[i]) == 0,
{
    lemma_sum_self_zero(ticks, zipped_len(ticks, ticks));
}

} // verus!
