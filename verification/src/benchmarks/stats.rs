//! Judging how far a workload's samples can be trusted.

use vstd::prelude::*;

use crate::text::same_text;

verus! {

/// The reliability labels under which a workload's result is kept.
pub open spec fn reliable_label(label: Seq<char>) -> bool {
    label == "excellent"@ || label == "good"@ || label == "moderate"@
}

/// Whether samples with reliability `reliability` are reliable enough to be
/// scored: `excellent`, `good` and `moderate` are, `poor` is not.
pub fn is_reliable(reliability: &str) -> (res: bool)
    ensures
        res == reliable_label(reliability@),
{
    same_text(reliability, "excellent") || same_text(reliability, "good") || same_text(
        reliability,
        "moderate",
    )
}

} // verus!
