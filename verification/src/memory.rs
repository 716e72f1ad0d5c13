//! Memory accounting: the page counts reported by the platform's
//! aggregate statistics call are converted into used/total byte counts.

use vstd::prelude::*;

verus! {

/// Memory usage of one sampling cycle.
#[derive(Clone, Copy, Debug, Default, PartialEq, Eq, Structural)]
pub struct MemoryInfo {
    pub total_bytes: u64,
    pub used_bytes: u64,
}

impl MemoryInfo {
    /// Usage never exceeds the physical total.
    pub open spec fn wf(self) -> bool {
        self.used_bytes <= self.total_bytes
    }

    /// Integer percentage of physical memory in use, 0 for an unknown
    /// total.
    pub open spec fn usage_percent_spec(self) -> int {
        if self.total_bytes > 0 {
            100 * (self.used_bytes as int) / (self.total_bytes as int)
        } else {
            0
        }
    }

    pub fn usage_percent(&self) -> (p: u64)
        requires
            self.wf(),
        ensures
            p as int == self.usage_percent_spec(),
            p <= 100,
    {
        if self.total_bytes == 0 {
            return 0;
        }
        let q: u128 = 100u128 * (self.used_bytes as u128) / (self.total_bytes as u128);
        proof {
            vstd::arithmetic::mul::lemma_mul_inequality(
                self.used_bytes as int,
                self.total_bytes as int,
                100,
            );
            vstd::arithmetic::div_mod::lemma_div_is_ordered(
                100 * self.used_bytes as int,
                100 * self.total_bytes as int,
                self.total_bytes as int,
            );
            vstd::arithmetic::div_mod::lemma_div_multiples_vanish(100, self.total_bytes as int);
            vstd::arithmetic::div_mod::lemma_div_pos_is_pos(
                100 * self.used_bytes as int,
                self.total_bytes as int,
            );
        }
        q as u64
    }
}

/// Bytes counted as used, following the platform's own accounting: app
/// memory (internal less purgeable pages) plus wired and compressor pages,
/// times the page size.
pub open spec fn used_bytes_spec(
    internal: u64,
    purgeable: u64,
    wired: u64,
    compressor: u64,
    page_size: u64,
) -> int {
    (internal - purgeable + wired + compressor) * page_size
}

/// Combines the platform's page counts and the physical total into a
/// memory reading, capping usage at the total.
pub fn derive_memory_info(
    total: u64,
    internal: u64,
    purgeable: u64,
    wired: u64,
    compressor: u64,
    page_size: u64,
) -> (m: MemoryInfo)
    requires
        purgeable <= internal,
        used_bytes_spec(internal, purgeable, wired, compressor, page_size) <= u64::MAX,
    ensures
        m.wf(),
        m.total_bytes == total,
        m.used_bytes as int == if used_bytes_spec(internal, purgeable, wired, compressor, page_size)
            <= total {
            used_bytes_spec(internal, purgeable, wired, compressor, page_size)
        } else {
            total as int
        },
{
    let pages: u128 = (internal - purgeable) as u128 + wired as u128 + compressor as u128;
    assert(pages * (page_size as u128) == used_bytes_spec(
        internal,
        purgeable,
        wired,
        compressor,
        page_size,
    )) by (nonlinear_arith)
        requires
            pages == internal - purgeable + wired + compressor,
            purgeable <= internal,
    ;
    let used128: u128 = pages * (page_size as u128);
    let used: u64 = used128 as u64;
    let capped: u64 = if used <= total {
        used
    } else {
        total
    };
    MemoryInfo { total_bytes: total, used_bytes: capped }
}

} // verus!
