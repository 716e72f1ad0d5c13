use macy::ioreport::{parse_gpu_stats, parse_power, Channel, DeltaSnapshot, StateBucket};

fn bucket(name: &str, residency: u64) -> StateBucket {
    StateBucket { name: name.to_string(), residency }
}

fn state_channel(group: &str, subgroup: &str, name: &str, states: Vec<StateBucket>) -> Channel {
    Channel {
        group: group.to_string(),
        subgroup: subgroup.to_string(),
        name: name.to_string(),
        unit: String::new(),
        states,
        value: 0,
    }
}

fn energy_channel(group: &str, name: &str, unit: &str, value: u64) -> Channel {
    Channel {
        group: group.to_string(),
        subgroup: String::new(),
        name: name.to_string(),
        unit: unit.to_string(),
        states: Vec::new(),
        value,
    }
}

fn gpuph(states: Vec<StateBucket>) -> Channel {
    state_channel("GPU Stats", "GPU Performance States", "GPUPH", states)
}

#[test]
fn utilization_and_frequency_from_residency_buckets() {
    let delta = DeltaSnapshot::from_channels(vec![gpuph(vec![
        bucket("OFF", 100),
        bucket("P1", 50),
        bucket("P2", 50),
    ])]);
    let (util, freq) = parse_gpu_stats(&delta, &vec![396, 528]);
    // total = 200, active = 100 -> 50%; (50*396 + 50*528) / 100 = 462
    assert_eq!(util, 50);
    assert_eq!(freq, 462);
}

#[test]
fn empty_delta_yields_zero_gpu_metrics() {
    let delta = DeltaSnapshot::empty();
    assert_eq!(parse_gpu_stats(&delta, &vec![396, 528]), (0, 0));
}

#[test]
fn out_of_range_pstate_counts_as_active_but_not_weighted() {
    // P20 with a 9-entry table: active total includes it, the
    // frequency-weighted sum silently excludes it
    let table: Vec<u32> = vec![396, 528, 660, 792, 924, 1056, 1164, 1290, 1398];
    assert_eq!(table.len(), 9);
    let delta = DeltaSnapshot::from_channels(vec![gpuph(vec![
        bucket("OFF", 100),
        bucket("P1", 50),
        bucket("P20", 50),
    ])]);
    let (util, freq) = parse_gpu_stats(&delta, &table);
    assert_eq!(util, 50);
    // only P1 weights: 50*396 / 100 active
    assert_eq!(freq, 50 * 396 / 100);
}

#[test]
fn empty_frequency_table_still_computes_utilization() {
    let delta = DeltaSnapshot::from_channels(vec![gpuph(vec![
        bucket("OFF", 25),
        bucket("P1", 75),
    ])]);
    let (util, freq) = parse_gpu_stats(&delta, &Vec::new());
    assert_eq!(util, 75);
    assert_eq!(freq, 0);
}

#[test]
fn channel_matching_is_exact_triple() {
    // matching name but wrong group or subgroup must not be selected
    let delta = DeltaSnapshot::from_channels(vec![
        state_channel("CPU Stats", "GPU Performance States", "GPUPH", vec![bucket("P1", 80)]),
        state_channel("GPU Stats", "GPU Core Utilization", "GPUPH", vec![bucket("P1", 80)]),
        state_channel("GPU Stats", "GPU Performance States", "GPUPH2", vec![bucket("P1", 80)]),
    ]);
    assert_eq!(parse_gpu_stats(&delta, &vec![396]), (0, 0));
}

#[test]
fn zero_pstate_and_malformed_names_never_weight() {
    let delta = DeltaSnapshot::from_channels(vec![gpuph(vec![
        bucket("P0", 10),
        bucket("Px", 10),
        bucket("P", 10),
        bucket("1P", 10),
        bucket("P1", 10),
    ])]);
    let (util, freq) = parse_gpu_stats(&delta, &vec![400]);
    // every non-OFF bucket is active
    assert_eq!(util, 100);
    // only the well-formed in-range P1 contributes: 10*400/50
    assert_eq!(freq, 80);
}

#[test]
fn power_from_nanojoules_over_elapsed_time() {
    // 2_000_000 nJ over 2 s = 0.002 J / 2 s = 0.001 W = 1 mW
    let delta = DeltaSnapshot::from_channels(vec![energy_channel(
        "Energy Model",
        "CPU Energy",
        "nJ",
        2_000_000,
    )]);
    let power = parse_power(&delta, 2_000_000_000);
    assert_eq!(power.cpu_mw, 1);
    assert_eq!(power.gpu_mw, 0);
}

#[test]
fn power_units_scale_and_unknown_defaults_to_nanojoules() {
    let delta = DeltaSnapshot::from_channels(vec![
        energy_channel("Energy Model", "CPU Energy", "mJ", 3_000),
        energy_channel("Energy Model", "GPU Energy", "uJ", 500_000),
        energy_channel("Energy Model", "GPU Energy", "furlongs", 500_000_000),
    ]);
    let power = parse_power(&delta, 1_000_000_000);
    // 3_000 mJ = 3 J over 1 s = 3000 mW
    assert_eq!(power.cpu_mw, 3_000);
    // 500_000 uJ = 0.5 J, plus 500_000_000 of an unknown unit read as nJ
    // = 0.5 J: 1 W total
    assert_eq!(power.gpu_mw, 1_000);
}

#[test]
fn power_ignores_other_groups_and_names_and_zero_elapsed() {
    let delta = DeltaSnapshot::from_channels(vec![
        energy_channel("Energy Budget", "CPU Energy", "nJ", 77),
        energy_channel("Energy Model", "ANE Energy", "nJ", 99),
        energy_channel("Energy Model", "CPU Energy", "nJ", 1_000_000_000),
    ]);
    let power = parse_power(&delta, 0);
    assert_eq!(power.cpu_mw, 0);
    assert_eq!(power.gpu_mw, 0);
    let power = parse_power(&delta, 1_000_000_000);
    assert_eq!(power.cpu_mw, 1_000);
}

#[test]
fn multiple_matching_energy_channels_sum() {
    let delta = DeltaSnapshot::from_channels(vec![
        energy_channel("Energy Model", "CPU Energy", "nJ", 600_000_000),
        energy_channel("Energy Model", "CPU Energy", "nJ", 400_000_000),
    ]);
    let power = parse_power(&delta, 1_000_000_000);
    assert_eq!(power.cpu_mw, 1_000);
}

#[test]
fn over_budget_delta_degrades_to_no_channels() {
    // accumulated residency beyond the 64-bit counter width cannot come
    // from one sampling interval; such a delta is treated as empty
    let huge = u64::MAX / 2 + 1;
    let delta = DeltaSnapshot::from_channels(vec![
        gpuph(vec![bucket("P1", huge)]),
        gpuph(vec![bucket("P1", huge)]),
    ]);
    assert!(delta.channels.is_empty());
    assert_eq!(parse_gpu_stats(&delta, &vec![396]), (0, 0));
}
