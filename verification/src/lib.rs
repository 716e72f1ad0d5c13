//! Core of a system-on-chip telemetry monitor: a stateful CPU tick-delta
//! tracker, parsers that turn residency-bucketed counter deltas into
//! utilization, frequency and power figures, the sampling-cycle state
//! machine with its paired acquire/release discipline, and the bounded
//! history buffers that feed the presentation layer.

pub mod cpu;
pub mod memory;
pub mod metrics;
pub mod sampler;
pub mod soc;
pub mod ioreport;
pub mod history;
pub mod text;

use vstd::prelude::*;

verus! {

/// Clamps a mathematical value into the range of a 64-bit counter.
pub open spec fn sat64(x: int) -> int {
    if x > u64::MAX {
        u64::MAX as int
    } else {
        x
    }
}

} // verus!
