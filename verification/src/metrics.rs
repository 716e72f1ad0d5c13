//! The aggregate record one sampling cycle emits, and the quantized
//! history streams the consumer appends each record to.

use crate::cpu::CpuUsage;
use crate::history::History;
use crate::ioreport::{GpuMetrics, PowerMetrics};
use crate::memory::MemoryInfo;
use vstd::prelude::*;

verus! {

/// All metrics collected in one sampling cycle; one instance moves from
/// the sampler to the consumer per cycle.
#[derive(Clone, Debug)]
pub struct Metrics {
    pub cpu: CpuUsage,
    pub gpu: GpuMetrics,
    pub memory: MemoryInfo,
    pub power: PowerMetrics,
}

impl Default for Metrics {
    /// The all-zero record shown until the first cycle completes.
    fn default() -> (m: Metrics)
        ensures
            m.cpu.overall_percent == 0,
            m.cpu.per_core@ == Seq::<u64>::empty(),
            m.gpu == (GpuMetrics { utilization: 0, freq_mhz: 0, power_mw: 0 }),
            m.memory == (MemoryInfo { total_bytes: 0, used_bytes: 0 }),
            m.power == (PowerMetrics { cpu_mw: 0, gpu_mw: 0 }),
    {
        Metrics {
            cpu: CpuUsage::default(),
            gpu: GpuMetrics::default(),
            memory: MemoryInfo { total_bytes: 0, used_bytes: 0 },
            power: PowerMetrics::default(),
        }
    }
}

/// Combines the per-source readings of one full-mode cycle into the
/// emitted record; the GPU record carries the GPU share of the power
/// reading.
pub fn combine_metrics(
    cpu: CpuUsage,
    gpu_utilization: u64,
    gpu_freq_mhz: u64,
    power: PowerMetrics,
    memory: MemoryInfo,
) -> (m: Metrics)
    ensures
        m.cpu == cpu,
        m.memory == memory,
        m.power == power,
        m.gpu.utilization == gpu_utilization,
        m.gpu.freq_mhz == gpu_freq_mhz,
        m.gpu.power_mw == power.gpu_mw,
{
    Metrics {
        cpu,
        gpu: GpuMetrics {
            utilization: gpu_utilization,
            freq_mhz: gpu_freq_mhz,
            power_mw: power.gpu_mw,
        },
        memory,
        power,
    }
}

/// The degraded-mode record, used when no counter subscription could be
/// opened: live CPU and memory readings combined with zeroed GPU and
/// power metrics.
pub fn degraded_metrics(cpu: CpuUsage, memory: MemoryInfo) -> (m: Metrics)
    ensures
        m.cpu == cpu,
        m.memory == memory,
        m.gpu == (GpuMetrics { utilization: 0, freq_mhz: 0, power_mw: 0 }),
        m.power == (PowerMetrics { cpu_mw: 0, gpu_mw: 0 }),
{
    Metrics {
        cpu,
        gpu: GpuMetrics::default(),
        memory,
        power: PowerMetrics::default(),
    }
}

/// Composite power in 0.1-watt units: the quantization the power history
/// stream stores, keeping one decimal of precision in a bounded integer.
pub open spec fn deciwatts_spec(power: PowerMetrics) -> int {
    (power.cpu_mw + power.gpu_mw) / 100
}

pub fn power_deciwatts(power: &PowerMetrics) -> (dw: u64)
    ensures
        dw as int == deciwatts_spec(*power),
{
    let t: u128 = power.cpu_mw as u128 + power.gpu_mw as u128;
    let q: u128 = t / 100;
    proof {
        vstd::arithmetic::div_mod::lemma_div_is_ordered(
            t as int,
            u64::MAX as int + u64::MAX as int,
            100,
        );
    }
    q as u64
}

/// The four quantized history streams the consumer renders: CPU, GPU and
/// memory as integer percentages, composite power in 0.1-watt units.
pub struct MetricsHistory {
    pub cpu: History,
    pub gpu: History,
    pub mem: History,
    pub power: History,
}

impl MetricsHistory {
    pub open spec fn wf(self) -> bool {
        &&& self.cpu.wf()
        &&& self.gpu.wf()
        &&& self.mem.wf()
        &&& self.power.wf()
    }

    pub fn new(capacity: usize) -> (h: MetricsHistory)
        requires
            1 <= capacity,
        ensures
            h.wf(),
            h.cpu.values() == Seq::<u64>::empty(),
            h.gpu.values() == Seq::<u64>::empty(),
            h.mem.values() == Seq::<u64>::empty(),
            h.power.values() == Seq::<u64>::empty(),
    {
        MetricsHistory {
            cpu: History::new(capacity),
            gpu: History::new(capacity),
            mem: History::new(capacity),
            power: History::new(capacity),
        }
    }

    /// Appends one record's quantized values to the four streams.
    pub fn record(&mut self, m: &Metrics)
        requires
            old(self).wf(),
            m.memory.wf(),
        ensures
            final(self).wf(),
            final(self).cpu.values() == old(self).cpu.pushed(m.cpu.overall_percent),
            final(self).gpu.values() == old(self).gpu.pushed(m.gpu.utilization),
            final(self).mem.values() == old(self).mem.pushed(
                m.memory.usage_percent_spec() as u64,
            ),
            final(self).power.values() == old(self).power.pushed(deciwatts_spec(m.power) as u64),
    {
        self.cpu.push(m.cpu.overall_percent);
        self.gpu.push(m.gpu.utilization);
        let mem_pct = m.memory.usage_percent();
        self.mem.push(mem_pct);
        let dw = power_deciwatts(&m.power);
        self.power.push(dw);
    }
}

} // verus!
