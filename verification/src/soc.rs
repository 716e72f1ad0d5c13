//! Static system-on-chip description: core counts, chip identification
//! and the GPU frequency table, assembled once at startup from probe
//! results. The probe calls themselves live outside the library; this
//! module holds the decoding and fallback rules they feed.

use crate::text::{contains_sub, str_contains};
use vstd::arithmetic::div_mod::lemma_fundamental_div_mod;
use vstd::prelude::*;

verus! {

/// Static information about the chip.
#[derive(Clone, Debug)]
pub struct SocInfo {
    pub chip_name: String,
    pub e_cores: u32,
    pub p_cores: u32,
    pub gpu_cores: u32,
    /// MHz, ascending: index i is the (i+1)-th active performance state.
    pub gpu_freqs: Vec<u32>,
    pub total_memory_bytes: u64,
}

impl SocInfo {
    pub fn total_cpu_cores(&self) -> (n: u32)
        requires
            self.e_cores + self.p_cores <= u32::MAX,
        ensures
            n == self.e_cores + self.p_cores,
    {
        self.e_cores + self.p_cores
    }
}

/// The frequency in MHz encoded by the `i`-th 4-byte little-endian chunk
/// of a raw frequency table, whose entries are in Hz.
pub open spec fn chunk_mhz(data: Seq<u8>, i: int) -> int {
    (data[4 * i] + 256 * data[4 * i + 1] + 65536 * data[4 * i + 2] + 16777216 * data[4 * i + 3])
        / 1000000
}

/// The frequencies of the first `n` chunks, zero entries dropped.
pub open spec fn decoded_freqs(data: Seq<u8>, n: int) -> Seq<u32>
    decreases n,
{
    if n <= 0 {
        Seq::empty()
    } else {
        let rest = decoded_freqs(data, n - 1);
        if chunk_mhz(data, n - 1) > 0 {
            rest.push(chunk_mhz(data, n - 1) as u32)
        } else {
            rest
        }
    }
}

/// The frequency table a raw property blob encodes: one little-endian
/// 32-bit Hz value per 4-byte chunk, converted to MHz, zero entries and
/// any trailing partial chunk dropped.
pub open spec fn decode_table(data: Seq<u8>) -> Seq<u32> {
    decoded_freqs(data, data.len() as int / 4)
}

/// Decodes a raw frequency-table blob.
#[verifier::loop_isolation(false)]
pub fn decode_freq_table(data: &Vec<u8>) -> (freqs: Vec<u32>)
    ensures
        freqs@ == decode_table(data@),
{
    let n = data.len() / 4;
    let mut out: Vec<u32> = Vec::new();
    let mut i: usize = 0;
    while i < n
        invariant
            0 <= i <= n,
            out@ == decoded_freqs(data@, i as int),
        decreases n - i,
    {
        proof {
            lemma_fundamental_div_mod(data@.len() as int, 4);
        }
        let b0 = data[4 * i];
        let b1 = data[4 * i + 1];
        let b2 = data[4 * i + 2];
        let b3 = data[4 * i + 3];
        let hz: u32 = b0 as u32 + 256 * (b1 as u32) + 65536 * (b2 as u32) + 16777216 * (
        b3 as u32);
        let mhz: u32 = hz / 1000000;
        if mhz > 0 {
            out.push(mhz);
        }
        i = i + 1;
    }
    out
}

/// The chip families the fallback tables distinguish, from a normalized
/// identification of the chip's marketing name.
#[derive(Clone, Copy, Debug, PartialEq, Eq, Structural)]
pub enum ChipFamily {
    M4ProOrMax,
    M4,
    M3,
    M2,
    M1,
    Unknown,
}

/// Classifies a chip brand string, with explicit precedence: the Pro/Max
/// variants of the fourth generation are distinguished before the plain
/// generation names, so that naming overlaps between generations cannot
/// misclassify.
pub open spec fn chip_family_spec(chip: Seq<char>) -> ChipFamily {
    if contains_sub(chip, "M4 Pro"@) || contains_sub(chip, "M4 Max"@) {
        ChipFamily::M4ProOrMax
    } else if contains_sub(chip, "M4"@) {
        ChipFamily::M4
    } else if contains_sub(chip, "M3"@) {
        ChipFamily::M3
    } else if contains_sub(chip, "M2"@) {
        ChipFamily::M2
    } else if contains_sub(chip, "M1"@) {
        ChipFamily::M1
    } else {
        ChipFamily::Unknown
    }
}

pub fn chip_family(chip_name: &str) -> (f: ChipFamily)
    ensures
        f == chip_family_spec(chip_name@),
{
    if str_contains(chip_name, "M4 Pro") || str_contains(chip_name, "M4 Max") {
        ChipFamily::M4ProOrMax
    } else if str_contains(chip_name, "M4") {
        ChipFamily::M4
    } else if str_contains(chip_name, "M3") {
        ChipFamily::M3
    } else if str_contains(chip_name, "M2") {
        ChipFamily::M2
    } else if str_contains(chip_name, "M1") {
        ChipFamily::M1
    } else {
        ChipFamily::Unknown
    }
}

/// The known per-family frequency tables; an unknown chip gets the
/// widest common table as its documented default.
pub open spec fn fallback_freqs_spec(f: ChipFamily) -> Seq<u32> {
    match f {
        ChipFamily::M4ProOrMax => seq![444u32, 612u32, 808u32, 968u32, 1110u32, 1236u32, 1338u32, 1398u32],
        ChipFamily::M4 => seq![396u32, 528u32, 660u32, 792u32, 924u32, 1056u32, 1164u32, 1290u32, 1398u32],
        ChipFamily::M3 => seq![444u32, 612u32, 808u32, 968u32, 1110u32, 1236u32, 1338u32, 1398u32],
        ChipFamily::M2 => seq![396u32, 528u32, 660u32, 792u32, 924u32, 1056u32, 1164u32, 1290u32, 1398u32],
        ChipFamily::M1 => seq![396u32, 528u32, 660u32, 792u32, 924u32, 1056u32, 1164u32, 1278u32],
        ChipFamily::Unknown => seq![396u32, 528u32, 660u32, 792u32, 924u32, 1056u32, 1164u32, 1290u32, 1398u32],
    }
}

pub fn fallback_freqs(f: ChipFamily) -> (freqs: Vec<u32>)
    ensures
        freqs@ == fallback_freqs_spec(f),
{
    match f {
        ChipFamily::M4ProOrMax => vec![444u32, 612, 808, 968, 1110, 1236, 1338, 1398],
        ChipFamily::M4 => vec![396u32, 528, 660, 792, 924, 1056, 1164, 1290, 1398],
        ChipFamily::M3 => vec![444u32, 612, 808, 968, 1110, 1236, 1338, 1398],
        ChipFamily::M2 => vec![396u32, 528, 660, 792, 924, 1056, 1164, 1290, 1398],
        ChipFamily::M1 => vec![396u32, 528, 660, 792, 924, 1056, 1164, 1278],
        ChipFamily::Unknown => vec![396u32, 528, 660, 792, 924, 1056, 1164, 1290, 1398],
    }
}

/// The table the detection yields given raw property blobs, in probe
/// order: the first blob that decodes to a non-empty table wins, and the
/// per-family fallback covers the rest.
pub open spec fn detect_from(chip: Seq<char>, tables: Seq<Seq<u8>>, i: int) -> Seq<u32>
    decreases tables.len() - i,
{
    if i < 0 || i >= tables.len() {
        fallback_freqs_spec(chip_family_spec(chip))
    } else if decode_table(tables[i]).len() > 0 {
        decode_table(tables[i])
    } else {
        detect_from(chip, tables, i + 1)
    }
}

pub open spec fn detect_spec(chip: Seq<char>, tables: Seq<Seq<u8>>) -> Seq<u32> {
    detect_from(chip, tables, 0)
}

/// Picks the GPU frequency table: the first raw property blob (in probe
/// order) that decodes to a non-empty table, else the fallback table for
/// the identified chip family.
#[verifier::loop_isolation(false)]
pub fn detect_gpu_freqs(chip_name: &str, raw_tables: &Vec<Vec<u8>>) -> (freqs: Vec<u32>)
    ensures
        freqs@ == detect_spec(chip_name@, raw_tables.deep_view()),
{
    let ghost tables = raw_tables.deep_view();
    let n = raw_tables.len();
    let mut i: usize = 0;
    while i < n
        invariant
            0 <= i <= n,
            detect_from(chip_name@, tables, 0) == detect_from(chip_name@, tables, i as int),
        decreases n - i,
    {
        proof {
            assert(tables[i as int] == raw_tables@[i as int]@);
        }
        let decoded = decode_freq_table(&raw_tables[i]);
        if decoded.len() > 0 {
            return decoded;
        }
        i = i + 1;
    }
    fallback_freqs(chip_family(chip_name))
}

/// The first core count reported among the probed accelerator classes,
/// in probe order.
pub open spec fn first_reported(results: Seq<Option<i64>>, i: int) -> Option<i64>
    decreases results.len() - i,
{
    if i < 0 || i >= results.len() {
        None
    } else {
        match results[i] {
            Some(v) => Some(v),
            None => first_reported(results, i + 1),
        }
    }
}

/// GPU core count: the first answer among the per-class probe results,
/// none if no class reported one.
#[verifier::loop_isolation(false)]
pub fn gpu_core_count(probed: &Vec<Option<i64>>) -> (r: Option<i64>)
    ensures
        r == first_reported(probed@, 0),
{
    let n = probed.len();
    let mut i: usize = 0;
    while i < n
        invariant
            0 <= i <= n,
            first_reported(probed@, 0) == first_reported(probed@, i as int),
        decreases n - i,
    {
        match probed[i] {
            Some(v) => {
                return Some(v);
            },
            None => {},
        }
        i = i + 1;
    }
    None
}

/// Assembles the static chip description from probe answers, substituting
/// a documented default for every answer the probe could not give.
pub fn soc_from_probe(
    chip_name: Option<String>,
    p_cores: Option<u32>,
    e_cores: Option<u32>,
    gpu_cores: Option<i64>,
    gpu_freqs: Vec<u32>,
    total_memory: Option<u64>,
) -> (s: SocInfo)
    ensures
        s.chip_name@ == match chip_name {
            Some(n) => n@,
            None => "Unknown"@,
        },
        s.p_cores == match p_cores {
            Some(p) => p,
            None => 4u32,
        },
        s.e_cores == match e_cores {
            Some(e) => e,
            None => 6u32,
        },
        s.gpu_cores == match gpu_cores {
            Some(g) => g as u32,
            None => 10u32,
        },
        s.gpu_freqs == gpu_freqs,
        s.total_memory_bytes == match total_memory {
            Some(t) => t,
            None => 0x4_0000_0000u64,
        },
{
    let name = match chip_name {
        Some(n) => n,
        None => String::from_str("Unknown"),
    };
    let p = match p_cores {
        Some(p) => p,
        None => 4,
    };
    let e = match e_cores {
        Some(e) => e,
        None => 6,
    };
    let g: u32 = match gpu_cores {
        Some(g) => g as u32,
        None => 10,
    };
    let mem = match total_memory {
        Some(t) => t,
        None => 0x4_0000_0000,
    };
    SocInfo {
        chip_name: name,
        e_cores: e,
        p_cores: p,
        gpu_cores: g,
        gpu_freqs,
        total_memory_bytes: mem,
    }
}

} // verus!
