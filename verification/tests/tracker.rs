use macy::cpu::{CpuTicks, CpuTracker};

fn ticks(user: u64, system: u64, idle: u64, nice: u64) -> CpuTicks {
    CpuTicks { user, system, idle, nice }
}

#[test]
fn usage_is_active_share_of_total_delta() {
    let mut tracker = CpuTracker::new(vec![ticks(100, 50, 850, 0), ticks(0, 0, 1000, 0)]);
    let usage = tracker.sample(vec![ticks(150, 100, 900, 0), ticks(50, 0, 1950, 0)]);
    // core 0: active delta 100, total delta 150 -> 66%
    // core 1: active delta 50, total delta 1000 -> 5%
    assert_eq!(usage.per_core, vec![66, 5]);
    // overall: (100 + 50) * 100 / (150 + 1000) = 13%
    assert_eq!(usage.overall_percent, 13);
}

#[test]
fn usage_stays_within_percent_range_for_monotone_counters() {
    let mut tracker = CpuTracker::new(vec![ticks(1, 2, 3, 4); 8]);
    let usage = tracker.sample(vec![ticks(500, 600, 700, 800); 8]);
    assert!(usage.overall_percent <= 100);
    for p in usage.per_core.iter() {
        assert!(*p <= 100);
    }
}

#[test]
fn zero_total_delta_reads_as_zero_percent() {
    let mut tracker = CpuTracker::new(vec![ticks(10, 10, 10, 10)]);
    let usage = tracker.sample(vec![ticks(10, 10, 10, 10)]);
    assert_eq!(usage.per_core, vec![0]);
    assert_eq!(usage.overall_percent, 0);
}

#[test]
fn identical_samples_twice_yield_zero_percent() {
    // idempotence under non-progressing counters: the tracker stores the
    // current sample, so a second identical reading has zero deltas
    let reading = vec![ticks(100, 200, 300, 400), ticks(5, 6, 7, 8)];
    let mut tracker = CpuTracker::new(vec![ticks(0, 0, 0, 0), ticks(0, 0, 0, 0)]);
    let _ = tracker.sample(reading.clone());
    let usage = tracker.sample(reading);
    assert_eq!(usage.overall_percent, 0);
    assert_eq!(usage.per_core, vec![0, 0]);
}

#[test]
fn counter_reset_clamps_to_zero_not_negative() {
    let mut tracker = CpuTracker::new(vec![ticks(1000, 1000, 1000, 0)]);
    // all counters went backwards: both deltas clamp to zero
    let usage = tracker.sample(vec![ticks(1, 1, 1, 0)]);
    assert_eq!(usage.per_core, vec![0]);
    assert_eq!(usage.overall_percent, 0);
}

#[test]
fn core_count_change_truncates_to_shorter_list() {
    let mut tracker = CpuTracker::new(vec![ticks(0, 0, 100, 0), ticks(0, 0, 100, 0)]);
    let usage = tracker.sample(vec![ticks(50, 0, 150, 0)]);
    assert_eq!(usage.per_core.len(), 1);
    assert_eq!(usage.per_core[0], 50);
    // the stored sample is replaced wholesale: next delta is against the
    // one-core reading
    let usage = tracker.sample(vec![ticks(50, 0, 250, 0), ticks(7, 7, 7, 7)]);
    assert_eq!(usage.per_core, vec![0]);
}

#[test]
fn partial_counter_reset_follows_the_raw_formula() {
    // when only the idle counter resets, the clamped total delta can fall
    // below the active delta and the raw ratio exceeds 100
    let mut tracker = CpuTracker::new(vec![ticks(0, 0, 100, 0)]);
    let usage = tracker.sample(vec![ticks(100, 0, 10, 0)]);
    assert_eq!(usage.per_core, vec![1000]);
}
