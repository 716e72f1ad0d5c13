//! Metric derivation over counter-snapshot deltas: a plain-value model of
//! the residency-bucketed channels a delta exposes, and the pure parsers
//! that turn such a delta into GPU utilization, average frequency and
//! per-domain power. The native subscription that produces the deltas is
//! opaque and lives outside the library; its contents are handed in as the
//! plain values modeled here (names that the native side reports as absent
//! are carried as empty strings, and residencies or energy values that
//! would be negative after a counter reset are clamped to zero).

use crate::sat64;
use crate::text::str_eq;
use vstd::arithmetic::div_mod::{
    lemma_div_is_ordered, lemma_div_multiples_vanish, lemma_div_pos_is_pos,
    lemma_multiply_divide_le,
};
use vstd::arithmetic::mul::{lemma_mul_inequality, lemma_mul_is_commutative};
use vstd::prelude::*;

verus! {

/// One named residency bucket of a channel: how long the unit spent in
/// that performance state during the sampled interval.
#[derive(Clone, Debug)]
pub struct StateBucket {
    pub name: String,
    pub residency: u64,
}

/// One counter channel of a delta, identified by the
/// {group, subgroup, name} triple. A channel carries either a residency
/// histogram (`states`) or a scalar value with a unit label (`value`,
/// `unit`); the unused half is empty respectively zero.
#[derive(Clone, Debug)]
pub struct Channel {
    pub group: String,
    pub subgroup: String,
    pub name: String,
    pub unit: String,
    pub states: Vec<StateBucket>,
    pub value: u64,
}

/// Per-channel-difference of two point-in-time snapshots, reduced to plain
/// values. An empty channel list stands for a failed or null native
/// snapshot, which downstream parsing treats as "no channels".
#[derive(Clone, Debug)]
pub struct DeltaSnapshot {
    pub channels: Vec<Channel>,
}

/// Residency accumulated by the first `n` buckets.
pub open spec fn states_total(states: Seq<StateBucket>, n: int) -> int
    decreases n,
{
    if n <= 0 {
        0
    } else {
        states_total(states, n - 1) + states[n - 1].residency
    }
}

/// Residency accumulated by the first `n` buckets that are not the "OFF"
/// bucket: time the unit spent in an active performance state.
pub open spec fn states_active(states: Seq<StateBucket>, n: int) -> int
    decreases n,
{
    if n <= 0 {
        0
    } else {
        states_active(states, n - 1) + if states[n - 1].name@ == "OFF"@ {
            0
        } else {
            states[n - 1].residency as int
        }
    }
}

/// A decimal digit, as the character range '0' to '9'.
pub open spec fn is_digit(c: char) -> bool {
    48 <= c as u32 <= 57
}

pub open spec fn digit_val(c: char) -> int {
    c as u32 - 48
}

pub open spec fn all_digits(s: Seq<char>) -> bool {
    forall|i: int| 0 <= i < s.len() ==> is_digit(#[trigger] s[i])
}

/// The value of a string of decimal digits, most significant first.
pub open spec fn digits_value(s: Seq<char>) -> int
    decreases s.len(),
{
    if s.len() == 0 {
        0
    } else {
        10 * digits_value(s.drop_last()) + digit_val(s.last())
    }
}

/// The number of a performance-state bucket: names matching `P<n>` carry
/// the decimal value `n`, every other name carries nothing.
pub open spec fn pstate_value(name: Seq<char>) -> Option<int> {
    if name.len() >= 2 && name[0] == 'P' && all_digits(name.subrange(1, name.len() as int)) {
        Some(digits_value(name.subrange(1, name.len() as int)))
    } else {
        None
    }
}

/// The 1-based frequency-table index a bucket name selects, if the name is
/// a `P<n>` state and `n` lies within the table of length `table_len`.
pub open spec fn freq_index(name: Seq<char>, table_len: int) -> Option<int> {
    match pstate_value(name) {
        Some(v) => if 1 <= v <= table_len {
            Some(v)
        } else {
            None
        },
        None => None,
    }
}

/// The frequency-weighted residency a bucket contributes: its residency
/// times the table frequency its name selects, or 0 when the name selects
/// none (including an index beyond the table, which is skipped silently).
pub open spec fn bucket_weight(b: StateBucket, freqs: Seq<u32>) -> int {
    match freq_index(b.name@, freqs.len() as int) {
        Some(v) => b.residency * freqs[v - 1],
        None => 0,
    }
}

/// Frequency-weighted residency of the first `n` buckets.
pub open spec fn states_weighted(states: Seq<StateBucket>, freqs: Seq<u32>, n: int) -> int
    decreases n,
{
    if n <= 0 {
        0
    } else {
        states_weighted(states, freqs, n - 1) + bucket_weight(states[n - 1], freqs)
    }
}

/// The one channel GPU derivation reads: matching is case-sensitive on the
/// exact {group, subgroup, name} triple.
pub open spec fn is_gpu_perf_channel(ch: Channel) -> bool {
    &&& ch.group@ == "GPU Stats"@
    &&& ch.subgroup@ == "GPU Performance States"@
    &&& ch.name@ == "GPUPH"@
}

/// Total residency of the GPU performance-state channels among the first
/// `n` channels.
pub open spec fn gpu_total(chs: Seq<Channel>, n: int) -> int
    decreases n,
{
    if n <= 0 {
        0
    } else {
        gpu_total(chs, n - 1) + if is_gpu_perf_channel(chs[n - 1]) {
            states_total(chs[n - 1].states@, chs[n - 1].states@.len() as int)
        } else {
            0
        }
    }
}

/// Active residency of the GPU performance-state channels among the first
/// `n` channels.
pub open spec fn gpu_active(chs: Seq<Channel>, n: int) -> int
    decreases n,
{
    if n <= 0 {
        0
    } else {
        gpu_active(chs, n - 1) + if is_gpu_perf_channel(chs[n - 1]) {
            states_active(chs[n - 1].states@, chs[n - 1].states@.len() as int)
        } else {
            0
        }
    }
}

/// Frequency-weighted residency of the GPU performance-state channels
/// among the first `n` channels.
pub open spec fn gpu_weighted(chs: Seq<Channel>, freqs: Seq<u32>, n: int) -> int
    decreases n,
{
    if n <= 0 {
        0
    } else {
        gpu_weighted(chs, freqs, n - 1) + if is_gpu_perf_channel(chs[n - 1]) {
            states_weighted(chs[n - 1].states@, freqs, chs[n - 1].states@.len() as int)
        } else {
            0
        }
    }
}

/// Residency accumulated over all buckets of the first `n` channels,
/// whatever their group.
pub open spec fn residency_total(chs: Seq<Channel>, n: int) -> int
    decreases n,
{
    if n <= 0 {
        0
    } else {
        residency_total(chs, n - 1) + states_total(chs[n - 1].states@, chs[n - 1].states@.len() as int)
    }
}

/// Nanojoules per unit of a scalar energy value; an unrecognized unit
/// label defaults to nanojoules.
pub open spec fn unit_scale(unit: Seq<char>) -> int {
    if unit == "nJ"@ {
        1
    } else if unit == "uJ"@ {
        1000
    } else if unit == "mJ"@ {
        1000000
    } else {
        1
    }
}

/// An energy channel of the given name in the fixed "Energy Model" group.
pub open spec fn is_energy_channel(ch: Channel, name: Seq<char>) -> bool {
    &&& ch.group@ == "Energy Model"@
    &&& ch.name@ == name
}

/// Nanojoules accumulated by the energy channels of the given name among
/// the first `n` channels (multiple matching channels sum).
pub open spec fn energy_total_nj(chs: Seq<Channel>, name: Seq<char>, n: int) -> int
    decreases n,
{
    if n <= 0 {
        0
    } else {
        energy_total_nj(chs, name, n - 1) + if is_energy_channel(chs[n - 1], name) {
            chs[n - 1].value * unit_scale(chs[n - 1].unit@)
        } else {
            0
        }
    }
}

/// The accumulated residencies and per-domain energies of a delta fit the
/// 64-bit width of the counters they were read from. Both are sums of
/// per-interval deltas of 64-bit accumulators, so a delta taken over one
/// sampling interval satisfies this by a wide margin; `from_channels`
/// enforces it structurally.
pub open spec fn within_budget(chs: Seq<Channel>) -> bool {
    &&& residency_total(chs, chs.len() as int) <= u64::MAX
    &&& energy_total_nj(chs, "CPU Energy"@, chs.len() as int) <= u64::MAX
    &&& energy_total_nj(chs, "GPU Energy"@, chs.len() as int) <= u64::MAX
}

impl DeltaSnapshot {
    pub open spec fn wf(self) -> bool {
        within_budget(self.channels@)
    }

    /// The delta standing for a failed or null native snapshot: no
    /// channels, so every derived metric is zero.
    pub fn empty() -> (d: DeltaSnapshot)
        ensures
            d.wf(),
            d.channels@.len() == 0,
    {
        DeltaSnapshot { channels: Vec::new() }
    }

    /// Wraps converted channels into a delta, degrading to the empty delta
    /// if the accumulated values exceed their counter width — the same
    /// "treat a bad snapshot as no channels" policy the transient-failure
    /// path uses.
    #[verifier::loop_isolation(false)]
    pub fn from_channels(channels: Vec<Channel>) -> (d: DeltaSnapshot)
        ensures
            d.wf(),
            within_budget(channels@) ==> d.channels@ == channels@,
            !within_budget(channels@) ==> d.channels@.len() == 0,
    {
        let ghost chs = channels@;
        let n = channels.len();
        let mut residency: u128 = 0;
        let mut cpu_nj: u128 = 0;
        let mut gpu_nj: u128 = 0;
        let mut i: usize = 0;
        while i < n
            invariant
                0 <= i <= n,
                residency as int == residency_total(chs, i as int),
                cpu_nj as int == energy_total_nj(chs, "CPU Energy"@, i as int),
                gpu_nj as int == energy_total_nj(chs, "GPU Energy"@, i as int),
                residency <= u64::MAX as u128,
                cpu_nj <= u64::MAX as u128,
                gpu_nj <= u64::MAX as u128,
            decreases n - i,
        {
            let ch = &channels[i];
            let m = ch.states.len();
            let mut j: usize = 0;
            while j < m
                invariant
                    0 <= j <= m,
                    residency as int == residency_total(chs, i as int) + states_total(
                        chs[i as int].states@,
                        j as int,
                    ),
                    residency <= u64::MAX as u128,
                decreases m - j,
            {
                residency = residency + ch.states[j].residency as u128;
                if residency > u64::MAX as u128 {
                    proof {
                        lemma_states_total_mono(chs[i as int].states@, j + 1, m as int);
                        lemma_residency_total_mono(chs, i + 1, chs.len() as int);
                    }
                    return DeltaSnapshot { channels: Vec::new() };
                }
                j = j + 1;
            }
            if str_eq(ch.group.as_str(), "Energy Model") {
                proof {
                    reveal_strlit("CPU Energy");
                    reveal_strlit("GPU Energy");
                    assert("CPU Energy"@[0] == 'C');
                    assert("GPU Energy"@[0] == 'G');
                    assert("CPU Energy"@ != "GPU Energy"@);
                }
                let scale = energy_unit_scale(ch.unit.as_str());
                assert((ch.value as u128) * (scale as u128) <= (u64::MAX as u128) * 1000000u128)
                    by (nonlinear_arith)
                    requires
                        ch.value <= u64::MAX,
                        1 <= scale <= 1000000,
                ;
                let scaled: u128 = (ch.value as u128) * (scale as u128);
                if str_eq(ch.name.as_str(), "CPU Energy") {
                    cpu_nj = cpu_nj + scaled;
                    if cpu_nj > u64::MAX as u128 {
                        proof {
                            lemma_energy_total_mono(chs, "CPU Energy"@, i + 1, chs.len() as int);
                        }
                        return DeltaSnapshot { channels: Vec::new() };
                    }
                } else if str_eq(ch.name.as_str(), "GPU Energy") {
                    gpu_nj = gpu_nj + scaled;
                    if gpu_nj > u64::MAX as u128 {
                        proof {
                            lemma_energy_total_mono(chs, "GPU Energy"@, i + 1, chs.len() as int);
                        }
                        return DeltaSnapshot { channels: Vec::new() };
                    }
                }
            }
            i = i + 1;
        }
        DeltaSnapshot { channels }
    }
}

/// Nanojoules per unit for the label `unit`.
fn energy_unit_scale(unit: &str) -> (s: u64)
    ensures
        s as int == unit_scale(unit@),
        1 <= s <= 1000000,
{
    if str_eq(unit, "nJ") {
        1
    } else if str_eq(unit, "uJ") {
        1000
    } else if str_eq(unit, "mJ") {
        1000000
    } else {
        1
    }
}

/// Bucket residency sums are non-negative.
proof fn lemma_states_total_nonneg(states: Seq<StateBucket>, n: int)
    ensures
        0 <= states_total(states, n),
    decreases n,
{
    if n > 0 {
        lemma_states_total_nonneg(states, n - 1);
    }
}

/// Bucket residency sums grow with the prefix.
proof fn lemma_states_total_mono(states: Seq<StateBucket>, n1: int, n2: int)
    requires
        n1 <= n2,
    ensures
        states_total(states, n1) <= states_total(states, n2),
    decreases n2 - n1,
{
    if n1 < n2 {
        lemma_states_total_mono(states, n1, n2 - 1);
    }
}

/// Channel residency sums are non-negative.
proof fn lemma_residency_total_nonneg(chs: Seq<Channel>, n: int)
    ensures
        0 <= residency_total(chs, n),
    decreases n,
{
    if n > 0 {
        lemma_residency_total_nonneg(chs, n - 1);
        lemma_states_total_nonneg(chs[n - 1].states@, chs[n - 1].states@.len() as int);
    }
}

/// Channel residency sums grow with the prefix.
proof fn lemma_residency_total_mono(chs: Seq<Channel>, n1: int, n2: int)
    requires
        n1 <= n2,
    ensures
        residency_total(chs, n1) <= residency_total(chs, n2),
    decreases n2 - n1,
{
    if n1 < n2 {
        lemma_residency_total_mono(chs, n1, n2 - 1);
        lemma_states_total_nonneg(chs[n2 - 1].states@, chs[n2 - 1].states@.len() as int);
    }
}

/// A scalar energy contribution is non-negative whatever its unit.
proof fn lemma_energy_term_nonneg(ch: Channel)
    ensures
        0 <= ch.value * unit_scale(ch.unit@),
{
    lemma_mul_inequality(0, ch.value as int, unit_scale(ch.unit@));
}

/// Energy sums are non-negative and grow with the prefix.
proof fn lemma_energy_total_mono(chs: Seq<Channel>, name: Seq<char>, n1: int, n2: int)
    requires
        n1 <= n2,
    ensures
        energy_total_nj(chs, name, n1) <= energy_total_nj(chs, name, n2),
    decreases n2 - n1,
{
    if n1 < n2 {
        lemma_energy_total_mono(chs, name, n1, n2 - 1);
        lemma_energy_term_nonneg(chs[n2 - 1]);
    }
}


/// Digit-string values are non-negative.
proof fn lemma_digits_value_nonneg(s: Seq<char>)
    requires
        all_digits(s),
    ensures
        0 <= digits_value(s),
    decreases s.len(),
{
    if s.len() > 0 {
        assert forall|i: int| 0 <= i < s.drop_last().len() implies is_digit(
            #[trigger] s.drop_last()[i],
        ) by {
            assert(s.drop_last()[i] == s[i]);
        }
        lemma_digits_value_nonneg(s.drop_last());
        assert(is_digit(s.last()));
    }
}

/// A digit string's value is at least the value of any of its prefixes.
proof fn lemma_digits_value_prefix_le(s: Seq<char>, k: int)
    requires
        all_digits(s),
        0 <= k <= s.len(),
    ensures
        digits_value(s.subrange(0, k)) <= digits_value(s),
    decreases s.len(),
{
    if k == s.len() {
        assert(s.subrange(0, k) =~= s);
    } else {
        assert forall|i: int| 0 <= i < s.drop_last().len() implies is_digit(
            #[trigger] s.drop_last()[i],
        ) by {
            assert(s.drop_last()[i] == s[i]);
        }
        lemma_digits_value_prefix_le(s.drop_last(), k);
        assert(s.drop_last().subrange(0, k) =~= s.subrange(0, k));
        lemma_digits_value_nonneg(s.drop_last());
        assert(is_digit(s.last()));
    }
}

/// Parses a bucket name of the form `P<n>` and returns `n` as the 1-based
/// index it selects in a frequency table of length `table_len`, or nothing
/// when the name is no P-state or the index falls outside the table.
fn pstate_freq_index(name: &str, table_len: usize) -> (r: Option<usize>)
    ensures
        match r {
            Some(i) => freq_index(name@, table_len as int) == Some(i as int),
            None => freq_index(name@, table_len as int) is None,
        },
{
    let n = name.unicode_len();
    if n < 2 {
        return None;
    }
    if name.get_char(0) != 'P' {
        return None;
    }
    let ghost digs = name@.subrange(1, name@.len() as int);
    let mut acc: usize = 0;
    let mut i: usize = 1;
    while i < n
        invariant
            n == name@.len(),
            2 <= n,
            1 <= i <= n,
            name@[0] == 'P',
            digs == name@.subrange(1, name@.len() as int),
            all_digits(digs.subrange(0, i - 1)),
            acc as int == digits_value(digs.subrange(0, i - 1)),
            acc <= table_len,
        decreases n - i,
    {
        let c = name.get_char(i);
        let cu = c as u32;
        proof {
            assert(digs[i - 1] == name@[i as int]);
        }
        if cu < 48 || cu > 57 {
            proof {
                assert(!is_digit(digs[i - 1]));
            }
            return None;
        }
        let d = (cu - 48) as usize;
        proof {
            assert(digs.subrange(0, i as int).drop_last() =~= digs.subrange(0, i - 1));
            assert(digs.subrange(0, i as int).last() == digs[i - 1]);
            assert forall|t: int| 0 <= t < i implies is_digit(
                #[trigger] digs.subrange(0, i as int)[t],
            ) by {
                if t < i - 1 {
                    assert(digs.subrange(0, i as int)[t] == digs.subrange(0, i - 1)[t]);
                }
            }
        }
        let next: u128 = (acc as u128) * 10 + (d as u128);
        if next > table_len as u128 {
            proof {
                if all_digits(digs) {
                    lemma_digits_value_prefix_le(digs, i as int);
                }
            }
            return None;
        }
        acc = next as usize;
        i = i + 1;
    }
    proof {
        assert(digs.subrange(0, (n - 1) as int) =~= digs);
    }
    if acc >= 1 {
        Some(acc)
    } else {
        None
    }
}

/// The active residency never exceeds the total residency of a channel.
proof fn lemma_states_active_le_total(states: Seq<StateBucket>, n: int)
    ensures
        0 <= states_active(states, n) <= states_total(states, n),
    decreases n,
{
    if n > 0 {
        lemma_states_active_le_total(states, n - 1);
    }
}

/// Frequency-weighted residency is bounded by the active residency times
/// the largest representable table frequency.
proof fn lemma_states_weighted_bound(states: Seq<StateBucket>, freqs: Seq<u32>, n: int)
    ensures
        0 <= states_weighted(states, freqs, n) <= states_active(states, n) * (u32::MAX as int),
    decreases n,
{
    if n > 0 {
        lemma_states_weighted_bound(states, freqs, n - 1);
        lemma_states_active_le_total(states, n - 1);
        let b = states[n - 1];
        match freq_index(b.name@, freqs.len() as int) {
            Some(v) => {
                reveal_strlit("OFF");
                assert("OFF"@[0] == 'O');
                assert(b.name@[0] == 'P');
                assert(b.name@ != "OFF"@);
                assert(bucket_weight(b, freqs) <= b.residency * (u32::MAX as int)) by {
                    lemma_mul_inequality(
                        freqs[v - 1] as int,
                        u32::MAX as int,
                        b.residency as int,
                    );
                    lemma_mul_is_commutative(b.residency as int, freqs[v - 1] as int);
                    lemma_mul_is_commutative(b.residency as int, u32::MAX as int);
                }
            },
            None => {},
        }
    }
}

/// The per-channel GPU sums stay within the residency budget of the whole
/// delta, and active residency stays below total residency.
proof fn lemma_gpu_sums_bounds(chs: Seq<Channel>, n: int)
    ensures
        0 <= gpu_active(chs, n) <= gpu_total(chs, n) <= residency_total(chs, n),
    decreases n,
{
    if n > 0 {
        lemma_gpu_sums_bounds(chs, n - 1);
        lemma_states_active_le_total(chs[n - 1].states@, chs[n - 1].states@.len() as int);
        lemma_states_total_nonneg(chs[n - 1].states@, chs[n - 1].states@.len() as int);
    }
}

/// Channel-level frequency weighting is bounded by the active residency
/// times the largest representable table frequency.
proof fn lemma_gpu_weighted_bound(chs: Seq<Channel>, freqs: Seq<u32>, n: int)
    ensures
        0 <= gpu_weighted(chs, freqs, n) <= gpu_active(chs, n) * (u32::MAX as int),
    decreases n,
{
    if n > 0 {
        lemma_gpu_weighted_bound(chs, freqs, n - 1);
        let ch = chs[n - 1];
        lemma_states_weighted_bound(ch.states@, freqs, ch.states@.len() as int);
        lemma_states_active_le_total(ch.states@, ch.states@.len() as int);
    }
}

/// GPU utilization percentage of a delta: the active share of the total
/// residency of the matched performance-state channels, 0 when the total
/// is 0.
pub open spec fn gpu_utilization(chs: Seq<Channel>) -> int {
    let n = chs.len() as int;
    if gpu_total(chs, n) > 0 {
        100 * gpu_active(chs, n) / gpu_total(chs, n)
    } else {
        0
    }
}

/// Average GPU frequency of a delta: the residency-weighted mean of the
/// table frequencies over the active residency, 0 when nothing was active
/// (and always 0 for an empty table, whose weights all vanish).
pub open spec fn gpu_avg_freq(chs: Seq<Channel>, freqs: Seq<u32>) -> int {
    let n = chs.len() as int;
    if gpu_active(chs, n) > 0 {
        gpu_weighted(chs, freqs, n) / gpu_active(chs, n)
    } else {
        0
    }
}

/// Law: GPU utilization always lies between 0 and 100, and it is 0
/// whenever no residency at all was recorded.
pub proof fn lemma_gpu_utilization_in_range(chs: Seq<Channel>)
    ensures
        0 <= gpu_utilization(chs) <= 100,
        gpu_total(chs, chs.len() as int) == 0 ==> gpu_utilization(chs) == 0,
{
    let n = chs.len() as int;
    let ga = gpu_active(chs, n);
    let gt = gpu_total(chs, n);
    lemma_gpu_sums_bounds(chs, n);
    if gt > 0 {
        lemma_div_pos_is_pos(100 * ga, gt);
        lemma_mul_inequality(ga, gt, 100);
        lemma_div_is_ordered(100 * ga, 100 * gt, gt);
        lemma_div_multiples_vanish(100, gt);
    }
}

/// Law: the average frequency never exceeds the largest representable
/// table frequency, and it is 0 when nothing was active.
pub proof fn lemma_gpu_avg_freq_in_range(chs: Seq<Channel>, freqs: Seq<u32>)
    ensures
        0 <= gpu_avg_freq(chs, freqs) <= u32::MAX,
        gpu_active(chs, chs.len() as int) == 0 ==> gpu_avg_freq(chs, freqs) == 0,
{
    let n = chs.len() as int;
    let ga = gpu_active(chs, n);
    let gw = gpu_weighted(chs, freqs, n);
    lemma_gpu_weighted_bound(chs, freqs, n);
    if ga > 0 {
        lemma_div_pos_is_pos(gw, ga);
        lemma_multiply_divide_le(gw, ga, u32::MAX as int);
    }
}

/// Derives GPU utilization and average frequency from a delta. Scans all
/// channels, selecting exactly those matching the fixed
/// {"GPU Stats", "GPU Performance States", "GPUPH"} triple; within them
/// the "OFF" bucket counts toward the total duration only, every other
/// bucket counts as active, and buckets named `P<n>` with `n` inside
/// `gpu_freqs` (1-based) additionally weight the frequency average.
#[verifier::loop_isolation(false)]
pub fn parse_gpu_stats(delta: &DeltaSnapshot, gpu_freqs: &Vec<u32>) -> (r: (u64, u64))
    requires
        delta.wf(),
    ensures
        r.0 as int == gpu_utilization(delta.channels@),
        r.1 as int == gpu_avg_freq(delta.channels@, gpu_freqs@),
        r.0 <= 100,
        r.1 <= u32::MAX,
{
    let ghost chs = delta.channels@;
    let n = delta.channels.len();
    let mut total: u64 = 0;
    let mut active: u64 = 0;
    let mut weighted: u128 = 0;
    let mut i: usize = 0;
    while i < n
        invariant
            0 <= i <= n,
            total as int == gpu_total(chs, i as int),
            active as int == gpu_active(chs, i as int),
            weighted as int == gpu_weighted(chs, gpu_freqs@, i as int),
        decreases n - i,
    {
        let ch = &delta.channels[i];
        let gpuph = str_eq(ch.group.as_str(), "GPU Stats") && str_eq(
            ch.subgroup.as_str(),
            "GPU Performance States",
        ) && str_eq(ch.name.as_str(), "GPUPH");
        if gpuph {
            let m = ch.states.len();
            let mut j: usize = 0;
            while j < m
                invariant
                    0 <= j <= m,
                    total as int == gpu_total(chs, i as int) + states_total(
                        ch.states@,
                        j as int,
                    ),
                    active as int == gpu_active(chs, i as int) + states_active(
                        ch.states@,
                        j as int,
                    ),
                    weighted as int == gpu_weighted(chs, gpu_freqs@, i as int) + states_weighted(
                        ch.states@,
                        gpu_freqs@,
                        j as int,
                    ),
                decreases m - j,
            {
                let b = &ch.states[j];
                let res = b.residency;
                proof {
                    lemma_gpu_sums_bounds(chs, i as int);
                    lemma_states_total_mono(ch.states@, j + 1, m as int);
                    lemma_states_active_le_total(ch.states@, j + 1);
                    lemma_residency_total_mono(chs, i + 1, chs.len() as int);
                    assert(residency_total(chs, i + 1) == residency_total(chs, i as int)
                        + states_total(ch.states@, m as int));
                }
                total = total + res;
                if str_eq(b.name.as_str(), "OFF") {
                    proof {
                        reveal_strlit("OFF");
                        assert("OFF"@[0] == 'O');
                        assert(pstate_value(b.name@) is None);
                    }
                } else {
                    active = active + res;
                    match pstate_freq_index(b.name.as_str(), gpu_freqs.len()) {
                        Some(idx) => {
                            let f = gpu_freqs[idx - 1];
                            assert((res as u128) * (f as u128) <= (u64::MAX as u128) * (
                            u32::MAX as u128)) by (nonlinear_arith)
                                requires
                                    res <= u64::MAX,
                                    f <= u32::MAX,
                            ;
                            proof {
                                lemma_gpu_weighted_bound(chs, gpu_freqs@, i as int);
                                lemma_states_weighted_bound(ch.states@, gpu_freqs@, j as int);
                                lemma_states_active_le_total(ch.states@, j as int);
                                assert((gpu_active(chs, i as int) + states_active(
                                    ch.states@,
                                    j as int,
                                )) * (u32::MAX as int) <= (u64::MAX as int) * (u32::MAX as int))
                                    by (nonlinear_arith)
                                    requires
                                        0 <= gpu_active(chs, i as int) + states_active(
                                            ch.states@,
                                            j as int,
                                        ) <= u64::MAX,
                                ;
                            }
                            weighted = weighted + (res as u128) * (f as u128);
                        },
                        None => {},
                    }
                }
                j = j + 1;
            }
        }
        i = i + 1;
    }
    proof {
        lemma_gpu_sums_bounds(chs, n as int);
    }
    let util: u64 = if total > 0 {
        let q: u128 = 100u128 * (active as u128) / (total as u128);
        proof {
            lemma_mul_inequality(active as int, total as int, 100);
            lemma_div_is_ordered(100 * (active as int), 100 * (total as int), total as int);
            lemma_div_multiples_vanish(100, total as int);
        }
        q as u64
    } else {
        0
    };
    let freq: u64 = if active > 0 {
        let q: u128 = weighted / (active as u128);
        proof {
            lemma_gpu_weighted_bound(chs, gpu_freqs@, n as int);
            lemma_multiply_divide_le(weighted as int, active as int, u32::MAX as int);
        }
        q as u64
    } else {
        0
    };
    (util, freq)
}

/// Power drawn per domain over one sampling interval, in milliwatts.
#[derive(Clone, Copy, Debug, PartialEq, Eq, Structural)]
pub struct PowerMetrics {
    pub cpu_mw: u64,
    pub gpu_mw: u64,
}

impl Default for PowerMetrics {
    /// The zero reading used when no counter data is available.
    fn default() -> (d: PowerMetrics)
        ensures
            d.cpu_mw == 0,
            d.gpu_mw == 0,
    {
        PowerMetrics { cpu_mw: 0, gpu_mw: 0 }
    }
}

/// GPU figures of one sampling cycle.
#[derive(Clone, Copy, Debug, PartialEq, Eq, Structural)]
pub struct GpuMetrics {
    pub utilization: u64,
    pub freq_mhz: u64,
    pub power_mw: u64,
}

impl Default for GpuMetrics {
    /// The zero reading used when no counter data is available.
    fn default() -> (d: GpuMetrics)
        ensures
            d.utilization == 0,
            d.freq_mhz == 0,
            d.power_mw == 0,
    {
        GpuMetrics { utilization: 0, freq_mhz: 0, power_mw: 0 }
    }
}

/// Milliwatts drawn when `nj` nanojoules accumulate over `elapsed_ns`
/// nanoseconds (the two 10^-9 factors cancel), 0 when no time elapsed.
pub open spec fn power_mw(nj: int, elapsed_ns: int) -> int {
    if elapsed_ns > 0 {
        1000 * nj / elapsed_ns
    } else {
        0
    }
}

/// Derives per-domain power from a delta: scalar values of the
/// "Energy Model" channels named "CPU Energy" or "GPU Energy" are scaled
/// by their unit label to nanojoules, summed per domain, and divided by
/// the elapsed wall time.
#[verifier::loop_isolation(false)]
pub fn parse_power(delta: &DeltaSnapshot, elapsed_ns: u64) -> (p: PowerMetrics)
    requires
        delta.wf(),
    ensures
        p.cpu_mw as int == sat64(
            power_mw(
                energy_total_nj(delta.channels@, "CPU Energy"@, delta.channels@.len() as int),
                elapsed_ns as int,
            ),
        ),
        p.gpu_mw as int == sat64(
            power_mw(
                energy_total_nj(delta.channels@, "GPU Energy"@, delta.channels@.len() as int),
                elapsed_ns as int,
            ),
        ),
{
    let ghost chs = delta.channels@;
    let n = delta.channels.len();
    let mut cpu_nj: u128 = 0;
    let mut gpu_nj: u128 = 0;
    let mut i: usize = 0;
    while i < n
        invariant
            0 <= i <= n,
            cpu_nj as int == energy_total_nj(chs, "CPU Energy"@, i as int),
            gpu_nj as int == energy_total_nj(chs, "GPU Energy"@, i as int),
            cpu_nj <= u64::MAX as u128,
            gpu_nj <= u64::MAX as u128,
        decreases n - i,
    {
        let ch = &delta.channels[i];
        if str_eq(ch.group.as_str(), "Energy Model") {
            proof {
                reveal_strlit("CPU Energy");
                reveal_strlit("GPU Energy");
                assert("CPU Energy"@[0] == 'C');
                assert("GPU Energy"@[0] == 'G');
                assert("CPU Energy"@ != "GPU Energy"@);
                lemma_energy_total_mono(chs, "CPU Energy"@, i + 1, chs.len() as int);
                lemma_energy_total_mono(chs, "GPU Energy"@, i + 1, chs.len() as int);
            }
            let scale = energy_unit_scale(ch.unit.as_str());
            assert((ch.value as u128) * (scale as u128) <= (u64::MAX as u128) * 1000000u128)
                by (nonlinear_arith)
                requires
                    ch.value <= u64::MAX,
                    1 <= scale <= 1000000,
            ;
            let scaled: u128 = (ch.value as u128) * (scale as u128);
            if str_eq(ch.name.as_str(), "CPU Energy") {
                cpu_nj = cpu_nj + scaled;
            } else if str_eq(ch.name.as_str(), "GPU Energy") {
                gpu_nj = gpu_nj + scaled;
            }
        }
        i = i + 1;
    }
    let cpu_mw = rate_milliwatts(cpu_nj, elapsed_ns);
    let gpu_mw = rate_milliwatts(gpu_nj, elapsed_ns);
    PowerMetrics { cpu_mw, gpu_mw }
}

/// Converts an energy delta to milliwatts over the elapsed time, clamped
/// into the 64-bit range.
fn rate_milliwatts(nj: u128, elapsed_ns: u64) -> (mw: u64)
    requires
        nj <= u64::MAX as u128,
    ensures
        mw as int == sat64(power_mw(nj as int, elapsed_ns as int)),
{
    if elapsed_ns > 0 {
        let q: u128 = 1000u128 * nj / (elapsed_ns as u128);
        if q > u64::MAX as u128 {
            u64::MAX
        } else {
            q as u64
        }
    } else {
        0
    }
}

} // verus!
