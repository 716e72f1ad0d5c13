use macy::cpu::CpuUsage;
use macy::ioreport::PowerMetrics;
use macy::memory::{derive_memory_info, MemoryInfo};
use macy::metrics::{
    combine_metrics, degraded_metrics, power_deciwatts, Metrics, MetricsHistory,
};

#[test]
fn default_record_is_all_zero() {
    let m = Metrics::default();
    assert_eq!(m.cpu.overall_percent, 0);
    assert!(m.cpu.per_core.is_empty());
    assert_eq!(m.gpu.utilization, 0);
    assert_eq!(m.gpu.freq_mhz, 0);
    assert_eq!(m.gpu.power_mw, 0);
    assert_eq!(m.memory.total_bytes, 0);
    assert_eq!(m.memory.used_bytes, 0);
    assert_eq!(m.power.cpu_mw, 0);
    assert_eq!(m.power.gpu_mw, 0);
}

#[test]
fn combined_record_carries_gpu_power_share() {
    let cpu = CpuUsage { overall_percent: 12, per_core: vec![12] };
    let power = PowerMetrics { cpu_mw: 2500, gpu_mw: 1500 };
    let memory = MemoryInfo { total_bytes: 100, used_bytes: 40 };
    let m = combine_metrics(cpu, 35, 900, power, memory);
    assert_eq!(m.gpu.utilization, 35);
    assert_eq!(m.gpu.freq_mhz, 900);
    assert_eq!(m.gpu.power_mw, 1500);
    assert_eq!(m.power.cpu_mw, 2500);
    assert_eq!(m.memory.used_bytes, 40);
    assert_eq!(m.cpu.overall_percent, 12);
}

#[test]
fn degraded_record_zeroes_gpu_and_power() {
    let cpu = CpuUsage { overall_percent: 55, per_core: vec![55] };
    let memory = MemoryInfo { total_bytes: 10, used_bytes: 5 };
    let m = degraded_metrics(cpu, memory);
    assert_eq!(m.cpu.overall_percent, 55);
    assert_eq!(m.memory.used_bytes, 5);
    assert_eq!(m.gpu.utilization, 0);
    assert_eq!(m.gpu.power_mw, 0);
    assert_eq!(m.power.cpu_mw, 0);
    assert_eq!(m.power.gpu_mw, 0);
}

#[test]
fn memory_usage_percent_is_integer_share() {
    let m = MemoryInfo { total_bytes: 16_000_000_000, used_bytes: 4_000_000_000 };
    assert_eq!(m.usage_percent(), 25);
    let empty = MemoryInfo { total_bytes: 0, used_bytes: 0 };
    assert_eq!(empty.usage_percent(), 0);
}

#[test]
fn memory_derivation_follows_platform_accounting() {
    // (internal - purgeable + wired + compressor) * page_size
    let m = derive_memory_info(1_000_000, 40, 10, 20, 10, 1_000);
    assert_eq!(m.total_bytes, 1_000_000);
    assert_eq!(m.used_bytes, 60_000);
}

#[test]
fn memory_usage_is_capped_at_the_total() {
    let m = derive_memory_info(50_000, 40, 10, 20, 10, 1_000);
    assert_eq!(m.used_bytes, 50_000);
}

#[test]
fn composite_power_quantizes_to_deciwatts() {
    // 2.5 W + 1.26 W = 3.76 W -> 37 deciwatts
    let p = PowerMetrics { cpu_mw: 2500, gpu_mw: 1260 };
    assert_eq!(power_deciwatts(&p), 37);
}

#[test]
fn history_streams_store_quantized_values() {
    let mut hist = MetricsHistory::new(2);
    let cpu = CpuUsage { overall_percent: 42, per_core: vec![42] };
    let power = PowerMetrics { cpu_mw: 2000, gpu_mw: 1500 };
    let memory = MemoryInfo { total_bytes: 100, used_bytes: 50 };
    let m = combine_metrics(cpu, 77, 1200, power, memory);
    hist.record(&m);
    assert_eq!(hist.cpu.data().as_slice(), &[42]);
    assert_eq!(hist.gpu.data().as_slice(), &[77]);
    assert_eq!(hist.mem.data().as_slice(), &[50]);
    assert_eq!(hist.power.data().as_slice(), &[35]);
    hist.record(&m);
    hist.record(&m);
    // bounded by the shared capacity
    assert_eq!(hist.cpu.data().len(), 2);
}
