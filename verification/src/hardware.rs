//! Interpreting what the hardware detection reads.

use vstd::prelude::*;

use crate::models::{CpuInfo, GpuInfo};
use crate::text::{is_blank, is_trim_of, trimmed};

verus! {

/// The vendor named by a PCI vendor id.
pub open spec fn vendor_label(vendor: u32) -> Seq<char> {
    if vendor == 0x1002 || vendor == 0x1022 {
        "AMD"@
    } else if vendor == 0x10de {
        "NVIDIA"@
    } else if vendor == 0x8086 {
        "Intel"@
    } else if vendor == 0x13b5 {
        "ARM"@
    } else if vendor == 0x5143 {
        "Qualcomm"@
    } else if vendor == 0x106b {
        "Apple"@
    } else {
        "Unknown"@
    }
}

pub fn vendor_name(vendor: u32) -> (res: &'static str)
    ensures
        res@ == vendor_label(vendor),
{
    match vendor {
        0x1002 | 0x1022 => "AMD",
        0x10de => "NVIDIA",
        0x8086 => "Intel",
        0x13b5 => "ARM",
        0x5143 => "Qualcomm",
        0x106b => "Apple",
        _ => "Unknown",
    }
}

} // verus!

verus! {

/// The name shown for a CPU whose brand string is `brand`: the brand without
/// surrounding white space, or `Unknown CPU` when there is no brand or it
/// is blank.
pub open spec fn cpu_name_ok(brand: Option<Seq<char>>, name: Seq<char>) -> bool {
    match brand {
        Some(b) => if is_blank(b) {
            name == "Unknown CPU"@
        } else {
            is_trim_of(b, name)
        },
        None => name == "Unknown CPU"@,
    }
}

/// The largest of `values`, or 0 when there is none.
pub open spec fn max_or_zero(values: Seq<u64>) -> u64
    decreases values.len(),
{
    if values.len() == 0 {
        0
    } else {
        let rest = max_or_zero(values.drop_last());
        if values.last() > rest {
            values.last()
        } else {
            rest
        }
    }
}

/// What the detection reports of the CPU, from the brand string of the
/// first core, the number of logical cores, the number of physical cores
/// when it is known, and the frequency of each core.
pub fn summarize_cpu(
    first_brand: Option<&str>,
    logical_cores: usize,
    physical_cores: Option<usize>,
    frequencies: &Vec<u64>,
) -> (res: CpuInfo)
    ensures
        cpu_name_ok(
            match first_brand {
                Some(b) => Some(b@),
                None => None,
            },
            res.name@,
        ),
        res.logical_cores == logical_cores,
        res.physical_cores == match physical_cores {
            Some(p) => p,
            None => logical_cores,
        },
        res.frequency_mhz == max_or_zero(frequencies@),
        forall|i: int| 0 <= i < frequencies@.len() ==> res.frequency_mhz >= #[trigger] frequencies@[i],
        frequencies@.len() == 0 ==> res.frequency_mhz == 0,
        frequencies@.len() > 0 ==> frequencies@.contains(res.frequency_mhz),
{
    proof {
        reveal_strlit("Unknown CPU");
    }
    let name = match first_brand {
        Some(b) => {
            let t = trimmed(b);
            if t.as_str().is_empty() {
                "Unknown CPU".to_owned()
            } else {
                t
            }
        },
        None => "Unknown CPU".to_owned(),
    };
    let physical = match physical_cores {
        Some(p) => p,
        None => logical_cores,
    };
    let mut top: u64 = 0;
    let mut i: usize = 0;
    while i < frequencies.len()
        invariant
            i <= frequencies.len(),
            top == max_or_zero(frequencies@.take(i as int)),
        decreases frequencies.len() - i,
    {
        assert(frequencies@.take(i + 1).drop_last() =~= frequencies@.take(i as int));
        if frequencies[i] > top {
            top = frequencies[i];
        }
        i = i + 1;
    }
    assert(frequencies@.take(frequencies.len() as int) =~= frequencies@);
    proof {
        lemma_max_or_zero(frequencies@);
    }
    CpuInfo { name, physical_cores: physical, logical_cores, frequency_mhz: top }
}

/// The operating system's description: its name (or `fallback` when the
/// name is unknown), a space and its version (empty when unknown), without
/// surrounding white space.
pub fn os_description(name: Option<String>, fallback: &str, version: Option<String>) -> (res: String)
    ensures
        is_trim_of(
            match name {
                Some(n) => n@,
                None => fallback@,
            } + " "@ + match version {
                Some(v) => v@,
                None => Seq::<char>::empty(),
            },
            res@,
        ),
{
    let mut text = match name {
        Some(n) => n,
        None => fallback.to_owned(),
    };
    text.append(" ");
    match version {
        Some(v) => text.append(v.as_str()),
        None => {},
    }
    trimmed(text.as_str())
}

/// The name of the first GPU, or `fallback` when there is none.
pub fn primary_gpu_name(gpus: &Vec<GpuInfo>, fallback: &str) -> (res: String)
    ensures
        res@ == if gpus@.len() > 0 {
            gpus@[0].name@
        } else {
            fallback@
        },
{
    if gpus.len() > 0 {
        gpus[0].name.clone()
    } else {
        fallback.to_owned()
    }
}

/// The bytes of memory below which a run warns that results may suffer.
pub const LOW_MEMORY_BYTES: u64 = 2147483648;

/// The warning given when less than 2 GiB of memory is available.
pub open spec fn low_memory_message() -> Seq<char> {
    "Less than 2 GiB memory available; close other apps for better results."@
}

pub fn low_memory_warning(available_bytes: u64) -> (res: Option<String>)
    ensures
        res is Some <==> available_bytes < LOW_MEMORY_BYTES,
        res matches Some(m) ==> m@ == low_memory_message(),
{
    if available_bytes < LOW_MEMORY_BYTES {
        Some("Less than 2 GiB memory available; close other apps for better results.".to_owned())
    } else {
        None
    }
}

/// The reported frequency is the largest of the given frequencies: no
/// given frequency exceeds it, and it is one of them; with none given it
/// is 0.
pub proof fn lemma_max_or_zero(values: Seq<u64>)
    ensures
        forall|i: int| 0 <= i < values.len() ==> max_or_zero(values) >= #[trigger] values[i],
        values.len() == 0 ==> max_or_zero(values) == 0,
        values.len() > 0 ==> values.contains(max_or_zero(values)),
    decreases values.len(),
{
    if values.len() > 0 {
        let rest = values.drop_last();
        lemma_max_or_zero(rest);
        assert forall|i: int| 0 <= i < values.len() implies max_or_zero(values) >= #[trigger] values[i] by {
            if i < values.len() - 1 {
                assert(values[i] == rest[i]);
            }
        }
        if values.last() > max_or_zero(rest) {
            assert(values[values.len() - 1] == max_or_zero(values));
        } else if rest.len() == 0 {
            assert(values[0] == max_or_zero(values));
        } else {
            let k = choose|k: int| 0 <= k < rest.len() && rest[k] == max_or_zero(rest);
            assert(values[k] == rest[k]);
        }
    }
}

} // verus!
