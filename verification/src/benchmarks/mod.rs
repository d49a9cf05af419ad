//! The benchmark suites: which workloads exist, how they are grouped into
//! suites, and in which order the suites run.

pub mod catalog;
pub mod content;
pub mod everyday;
pub mod graphics;
pub mod plan;
pub mod productivity;
pub mod runner;
pub mod stats;
pub mod storage;

use vstd::prelude::*;

use crate::text::same_text;

verus! {

/// The number of suites.
pub const SUITE_COUNT: usize = 5;

/// The suites, in the order in which they run.
pub open spec fn suite_keys() -> Seq<Seq<char>> {
    seq!["everyday"@, "productivity"@, "content"@, "graphics"@, "storage"@]
}

/// The key of the suite that runs in position `index`.
pub fn suite_key(index: usize) -> (res: &'static str)
    requires
        index < SUITE_COUNT,
    ensures
        res@ == suite_keys()[index as int],
{
    match index {
        0 => "everyday",
        1 => "productivity",
        2 => "content",
        3 => "graphics",
        _ => "storage",
    }
}

/// The display name of a suite.
pub open spec fn suite_title(key: Seq<char>) -> Seq<char> {
    if key == "everyday"@ {
        "Everyday"@
    } else if key == "productivity"@ {
        "Productivity"@
    } else if key == "content"@ {
        "Content Creation"@
    } else if key == "graphics"@ {
        "Graphics"@
    } else if key == "storage"@ {
        "Storage"@
    } else {
        "Suite"@
    }
}

pub fn suite_label(key: &str) -> (res: &'static str)
    ensures
        res@ == suite_title(key@),
{
    if same_text(key, "everyday") {
        "Everyday"
    } else if same_text(key, "productivity") {
        "Productivity"
    } else if same_text(key, "content") {
        "Content Creation"
    } else if same_text(key, "graphics") {
        "Graphics"
    } else if same_text(key, "storage") {
        "Storage"
    } else {
        "Suite"
    }
}

/// The weight of a suite in the overall score, in percent: every suite
/// counts the same.
pub fn suite_weight_percent(key: &str) -> (res: u32)
    ensures
        res == 20,
{
    20
}

} // verus!
