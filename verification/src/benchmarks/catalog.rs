//! The catalogue of workloads.

use vstd::prelude::*;

verus! {

/// A workload of the catalogue: its key, how it is shown, the suite it
/// belongs to, the unit of its metric, whether a larger metric is better, and
/// its weight within the suite in percent.
#[derive(Clone, Copy, Debug)]
pub struct WorkloadSpec {
    pub key: &'static str,
    pub label: &'static str,
    pub suite: &'static str,
    pub unit: &'static str,
    pub higher_is_better: bool,
    pub weight_percent: u32,
}

/// A catalogue entry as plain values.
pub type WorkloadEntry = (Seq<char>, Seq<char>, Seq<char>, Seq<char>, bool, u32);

impl View for WorkloadSpec {
    type V = WorkloadEntry;

    open spec fn view(&self) -> WorkloadEntry {
        (self.key@, self.label@, self.suite@, self.unit@, self.higher_is_better, self.weight_percent)
    }
}

/// The catalogue, in the order in which its workloads are listed.
pub open spec fn catalog() -> Seq<WorkloadEntry> {
    seq![
        ("json_parse"@, "JSON / data parsing"@, "everyday"@, "MB/s"@, true, 25u32),
        ("text_search"@, "Text search / indexing"@, "everyday"@, "MB/s"@, true, 25u32),
        ("compression"@, "Compression"@, "everyday"@, "MB/s"@, true, 25u32),
        ("small_files"@, "Small-file operations"@, "everyday"@, "ops/s"@, true, 25u32),
        ("spreadsheet"@, "Spreadsheet formulas"@, "productivity"@, "Mcells/s"@, true, 30u32),
        ("sort_aggregate"@, "Sort / aggregation"@, "productivity"@, "Mrows/s"@, true, 25u32),
        ("document_transform"@, "Document transforms"@, "productivity"@, "MB/s"@, true, 25u32),
        ("archive"@, "Archive creation"@, "productivity"@, "MB/s"@, true, 20u32),
        ("image_pipeline"@, "Image edit pipeline"@, "content"@, "MP/s"@, true, 45u32),
        ("cpu_render"@, "CPU scene render"@, "content"@, "MP/s"@, true, 55u32),
        ("gpu_compute"@, "GPU compute"@, "graphics"@, "GFLOPS"@, true, 55u32),
        ("gpu_offscreen"@, "GPU offscreen render"@, "graphics"@, "FPS"@, true, 35u32),
        ("gpu_transfer"@, "GPU transfer bandwidth"@, "graphics"@, "GB/s"@, true, 10u32),
        ("storage_sequential"@, "Sequential storage"@, "storage"@, "MB/s"@, true, 55u32),
        ("storage_random"@, "Random storage"@, "storage"@, "IOPS"@, true, 45u32),
    ]
}

fn entry(
    key: &'static str,
    label: &'static str,
    suite: &'static str,
    unit: &'static str,
    weight_percent: u32,
) -> (res: WorkloadSpec)
    ensures
        res@ == (key@, label@, suite@, unit@, true, weight_percent),
{
    WorkloadSpec { key, label, suite, unit, higher_is_better: true, weight_percent }
}

/// Every workload of the catalogue.
pub fn all_workloads() -> (res: Vec<WorkloadSpec>)
    ensures
        res@.map_values(|w: WorkloadSpec| w@) == catalog(),
{
    let mut v: Vec<WorkloadSpec> = Vec::new();
    v.push(entry("json_parse", "JSON / data parsing", "everyday", "MB/s", 25));
    v.push(entry("text_search", "Text search / indexing", "everyday", "MB/s", 25));
    v.push(entry("compression", "Compression", "everyday", "MB/s", 25));
    v.push(entry("small_files", "Small-file operations", "everyday", "ops/s", 25));
    v.push(entry("spreadsheet", "Spreadsheet formulas", "productivity", "Mcells/s", 30));
    v.push(entry("sort_aggregate", "Sort / aggregation", "productivity", "Mrows/s", 25));
    v.push(entry("document_transform", "Document transforms", "productivity", "MB/s", 25));
    v.push(entry("archive", "Archive creation", "productivity", "MB/s", 20));
    v.push(entry("image_pipeline", "Image edit pipeline", "content", "MP/s", 45));
    v.push(entry("cpu_render", "CPU scene render", "content", "MP/s", 55));
    v.push(entry("gpu_compute", "GPU compute", "graphics", "GFLOPS", 55));
    v.push(entry("gpu_offscreen", "GPU offscreen render", "graphics", "FPS", 35));
    v.push(entry("gpu_transfer", "GPU transfer bandwidth", "graphics", "GB/s", 10));
    v.push(entry("storage_sequential", "Sequential storage", "storage", "MB/s", 55));
    v.push(entry("storage_random", "Random storage", "storage", "IOPS", 45));
    assert(v@.map_values(|w: WorkloadSpec| w@) =~= catalog());
    v
}

} // verus!
