use macy::soc::{
    chip_family, decode_freq_table, detect_gpu_freqs, fallback_freqs, gpu_core_count,
    soc_from_probe, ChipFamily, SocInfo,
};

fn le_hz(mhz: u32) -> [u8; 4] {
    (mhz * 1_000_000).to_le_bytes()
}

#[test]
fn decodes_little_endian_hz_to_mhz() {
    let mut data: Vec<u8> = Vec::new();
    data.extend_from_slice(&le_hz(396));
    data.extend_from_slice(&le_hz(528));
    assert_eq!(decode_freq_table(&data), vec![396, 528]);
}

#[test]
fn decode_drops_zero_entries_and_trailing_partial_chunk() {
    let mut data: Vec<u8> = Vec::new();
    data.extend_from_slice(&le_hz(0));
    data.extend_from_slice(&le_hz(444));
    data.extend_from_slice(&[1, 2]);
    assert_eq!(decode_freq_table(&data), vec![444]);
}

#[test]
fn first_nonempty_raw_table_wins() {
    let empty: Vec<u8> = vec![0, 0, 0, 0];
    let mut good: Vec<u8> = Vec::new();
    good.extend_from_slice(&le_hz(612));
    let freqs = detect_gpu_freqs("Apple M1", &vec![empty, good]);
    assert_eq!(freqs, vec![612]);
}

#[test]
fn no_usable_raw_table_falls_back_by_family() {
    let freqs = detect_gpu_freqs("Apple M1 Pro", &Vec::new());
    assert_eq!(freqs, vec![396, 528, 660, 792, 924, 1056, 1164, 1278]);
    let freqs = detect_gpu_freqs("Apple M3 Max", &vec![vec![0, 0, 0, 0]]);
    assert_eq!(freqs, vec![444, 612, 808, 968, 1110, 1236, 1338, 1398]);
}

#[test]
fn family_classification_has_explicit_precedence() {
    assert_eq!(chip_family("Apple M4 Pro"), ChipFamily::M4ProOrMax);
    assert_eq!(chip_family("Apple M4 Max"), ChipFamily::M4ProOrMax);
    assert_eq!(chip_family("Apple M4"), ChipFamily::M4);
    assert_eq!(chip_family("Apple M3"), ChipFamily::M3);
    assert_eq!(chip_family("Apple M2 Ultra"), ChipFamily::M2);
    assert_eq!(chip_family("Apple M1"), ChipFamily::M1);
    assert_eq!(chip_family("Intel Core i7"), ChipFamily::Unknown);
}

#[test]
fn unknown_chip_gets_documented_default_table() {
    assert_eq!(
        fallback_freqs(ChipFamily::Unknown),
        vec![396, 528, 660, 792, 924, 1056, 1164, 1290, 1398]
    );
}

#[test]
fn gpu_core_count_takes_first_reported_class() {
    assert_eq!(gpu_core_count(&vec![None, Some(10), Some(16)]), Some(10));
    assert_eq!(gpu_core_count(&vec![None, None]), None);
    assert_eq!(gpu_core_count(&Vec::new()), None);
}

#[test]
fn probe_defaults_fill_missing_answers() {
    let soc = soc_from_probe(None, None, None, None, vec![396], None);
    assert_eq!(soc.chip_name, "Unknown");
    assert_eq!(soc.p_cores, 4);
    assert_eq!(soc.e_cores, 6);
    assert_eq!(soc.gpu_cores, 10);
    assert_eq!(soc.gpu_freqs, vec![396]);
    assert_eq!(soc.total_memory_bytes, 16 * 1024 * 1024 * 1024);
}

#[test]
fn total_cpu_cores_sums_both_clusters() {
    let soc = SocInfo {
        chip_name: "Apple M2".to_string(),
        e_cores: 4,
        p_cores: 8,
        gpu_cores: 10,
        gpu_freqs: Vec::new(),
        total_memory_bytes: 0,
    };
    assert_eq!(soc.total_cpu_cores(), 12);
}
