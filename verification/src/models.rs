//! The data that the grader reports: benchmark profiles, hardware
//! descriptions, progress events and the community-sharing settings.

use vstd::prelude::*;

use crate::text::same_text;

verus! {

/// How thorough a benchmark run is.
#[derive(Clone, Copy, Debug, PartialEq, Eq, Structural)]
pub enum BenchmarkProfile {
    Standard,
    Extended,
}

impl BenchmarkProfile {
    /// The profile's name as it appears in reports.
    pub open spec fn name(self) -> Seq<char> {
        match self {
            BenchmarkProfile::Standard => "standard"@,
            BenchmarkProfile::Extended => "extended"@,
        }
    }

    /// Rough run time of the profile, in seconds.
    pub open spec fn spec_estimated_seconds(self) -> u32 {
        match self {
            BenchmarkProfile::Standard => 240,
            BenchmarkProfile::Extended => 780,
        }
    }

    /// Unmeasured warm-up runs per workload.
    pub open spec fn spec_warmups(self) -> usize {
        match self {
            BenchmarkProfile::Standard => 1,
            BenchmarkProfile::Extended => 2,
        }
    }

    /// Measured runs per workload.
    pub open spec fn spec_samples(self) -> usize {
        match self {
            BenchmarkProfile::Standard => 3,
            BenchmarkProfile::Extended => 7,
        }
    }

    pub fn as_str(self) -> (res: &'static str)
        ensures
            res@ == self.name(),
    {
        match self {
            BenchmarkProfile::Standard => "standard",
            BenchmarkProfile::Extended => "extended",
        }
    }

    pub fn estimated_seconds(self) -> (res: u32)
        ensures
            res == self.spec_estimated_seconds(),
    {
        match self {
            BenchmarkProfile::Standard => 240,
            BenchmarkProfile::Extended => 780,
        }
    }

    pub fn warmups(self) -> (res: usize)
        ensures
            res == self.spec_warmups(),
    {
        match self {
            BenchmarkProfile::Standard => 1,
            BenchmarkProfile::Extended => 2,
        }
    }

    pub fn samples(self) -> (res: usize)
        ensures
            res == self.spec_samples(),
    {
        match self {
            BenchmarkProfile::Standard => 3,
            BenchmarkProfile::Extended => 7,
        }
    }

    /// The profile a request names: `"extended"` selects the extended
    /// profile, anything else the standard one.
    pub fn from_name(name: &str) -> (res: BenchmarkProfile)
        ensures
            res == (if name@ == "extended"@ {
                BenchmarkProfile::Extended
            } else {
                BenchmarkProfile::Standard
            }),
    {
        if same_text(name, "extended") {
            BenchmarkProfile::Extended
        } else {
            BenchmarkProfile::Standard
        }
    }
}

/// The standard profile takes about three to five minutes and the extended
/// one about ten to fifteen; both warm up at least once and then measure
/// several samples, the extended profile more of each.
pub proof fn lemma_profile_durations()
    ensures
        180 <= BenchmarkProfile::Standard.spec_estimated_seconds() <= 300,
        600 <= BenchmarkProfile::Extended.spec_estimated_seconds() <= 900,
        forall|p: BenchmarkProfile| #[trigger] p.spec_warmups() >= 1 && p.spec_samples() >= 3,
        BenchmarkProfile::Extended.spec_warmups() > BenchmarkProfile::Standard.spec_warmups(),
        BenchmarkProfile::Extended.spec_samples() > BenchmarkProfile::Standard.spec_samples(),
{
}

/// Installed hardware, as detected on the machine.
#[derive(Clone, Debug)]
pub struct HardwareInfo {
    pub os: String,
    pub hostname: String,
    pub cpu: CpuInfo,
    pub memory: MemoryInfo,
    pub gpus: Vec<GpuInfo>,
    pub disks: Vec<DiskInfo>,
}

#[derive(Clone, Debug)]
pub struct CpuInfo {
    pub name: String,
    pub physical_cores: usize,
    pub logical_cores: usize,
    pub frequency_mhz: u64,
}

#[derive(Clone, Copy, Debug, PartialEq, Eq, Structural)]
pub struct MemoryInfo {
    pub total_bytes: u64,
    pub available_bytes: u64,
}

#[derive(Clone, Debug)]
pub struct GpuInfo {
    pub name: String,
    pub vendor: String,
    pub backend: String,
    pub device_type: String,
}

#[derive(Clone, Debug)]
pub struct DiskInfo {
    pub name: String,
    pub mount_point: String,
    pub total_bytes: u64,
    pub available_bytes: u64,
    pub removable: bool,
}

/// A progress event sent while a benchmark runs.
#[derive(Clone, Debug)]
pub struct BenchmarkProgress {
    pub stage: String,
    pub suite: String,
    pub workload: String,
    pub percent: u8,
    pub message: String,
    pub elapsed_ms: u128,
    pub estimated_remaining_ms: Option<u128>,
}

/// The user's choices about sharing results with a community service.
#[derive(Clone, Debug)]
pub struct CommunitySettings {
    pub opt_in: bool,
    pub endpoint: Option<String>,
    pub enabled: bool,
}

impl Default for CommunitySettings {
    fn default() -> (res: CommunitySettings)
        ensures
            !res.opt_in,
            res.endpoint is None,
            !res.enabled,
    {
        CommunitySettings { opt_in: false, endpoint: None, enabled: false }
    }
}

} // verus!
