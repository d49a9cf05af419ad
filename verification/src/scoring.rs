//! The parts of scoring that do not involve the score arithmetic.

use vstd::prelude::*;

use crate::text::same_text;

verus! {

/// The version of the score model.
pub const SCORING_VERSION: &'static str = "2.0.0";

/// What the suite reliability reads of a workload: whether its result is
/// valid, and the reliability label of its samples.
#[derive(Clone, Debug)]
pub struct WorkloadStatus {
    pub valid: bool,
    pub reliability: String,
}

/// A label under which a workload counts as dependable for the suite.
pub open spec fn strong_label(label: Seq<char>) -> bool {
    label == "excellent"@ || label == "good"@
}

/// The reliability of a suite: `high` when every workload is valid with
/// excellent or good samples, `moderate` when every workload is valid,
/// `partial` when some are, `unavailable` when none is.
pub open spec fn suite_reliability_of(ws: Seq<WorkloadStatus>) -> Seq<char> {
    if forall|i: int| 0 <= i < ws.len() ==> (#[trigger] ws[i]).valid {
        if forall|i: int| 0 <= i < ws.len() ==> strong_label((#[trigger] ws[i]).reliability@) {
            "high"@
        } else {
            "moderate"@
        }
    } else if exists|i: int| 0 <= i < ws.len() && (#[trigger] ws[i]).valid {
        "partial"@
    } else {
        "unavailable"@
    }
}

pub fn suite_reliability(workloads: &Vec<WorkloadStatus>) -> (res: String)
    ensures
        res@ == suite_reliability_of(workloads@),
        (forall|i: int| 0 <= i < workloads@.len() ==> (#[trigger] workloads@[i]).valid)
            && (exists|i: int|
            0 <= i < workloads@.len() && !strong_label((#[trigger] workloads@[i]).reliability@))
            ==> res@ == "moderate"@,
        (forall|i: int|
            0 <= i < workloads@.len() ==> (#[trigger] workloads@[i]).valid && strong_label(
                workloads@[i].reliability@,
            )) ==> res@ == "high"@,
{
    let mut all_valid = true;
    let mut any_valid = false;
    let mut all_strong = true;
    let mut i: usize = 0;
    while i < workloads.len()
        invariant
            i <= workloads.len(),
            all_valid == (forall|j: int| 0 <= j < i ==> (#[trigger] workloads@[j]).valid),
            any_valid == (exists|j: int| 0 <= j < i && (#[trigger] workloads@[j]).valid),
            all_strong == (forall|j: int|
                0 <= j < i ==> strong_label((#[trigger] workloads@[j]).reliability@)),
        decreases workloads.len() - i,
    {
        let w = &workloads[i];
        if w.valid {
            any_valid = true;
        } else {
            all_valid = false;
        }
        let label = w.reliability.as_str();
        if !(same_text(label, "excellent") || same_text(label, "good")) {
            all_strong = false;
        }
        proof {
            if any_valid && !(exists|j: int| 0 <= j < i && (#[trigger] workloads@[j]).valid) {
                assert(workloads@[i as int].valid);
            }
        }
        i = i + 1;
    }
    if all_valid {
        if all_strong {
            "high".to_owned()
        } else {
            "moderate".to_owned()
        }
    } else if any_valid {
        "partial".to_owned()
    } else {
        "unavailable".to_owned()
    }
}

/// The suite reliability is `unavailable` exactly when no workload is valid
/// and there is at least one workload; it is `high` or `moderate` exactly
/// when every workload is valid.
pub proof fn lemma_reliability_tracks_validity(ws: Seq<WorkloadStatus>)
    ensures
        (suite_reliability_of(ws) == "unavailable"@) <==> (ws.len() > 0 && forall|i: int|
            0 <= i < ws.len() ==> !(#[trigger] ws[i]).valid),
        (suite_reliability_of(ws) == "high"@ || suite_reliability_of(ws) == "moderate"@) <==> (
        forall|i: int| 0 <= i < ws.len() ==> (#[trigger] ws[i]).valid),
{
    reveal_strlit("unavailable");
    reveal_strlit("high");
    reveal_strlit("moderate");
    reveal_strlit("partial");
    assert("unavailable"@.len() == 11 && "high"@.len() == 4 && "moderate"@.len() == 8
        && "partial"@.len() == 7);
    assert("unavailable"@ != "high"@ && "unavailable"@ != "moderate"@ && "unavailable"@
        != "partial"@ && "partial"@ != "high"@ && "partial"@ != "moderate"@);
    if ws.len() > 0 && forall|i: int| 0 <= i < ws.len() ==> !(#[trigger] ws[i]).valid {
        assert(!ws[0].valid);
    }
    if !(forall|i: int| 0 <= i < ws.len() ==> (#[trigger] ws[i]).valid) && !(exists|i: int|
        0 <= i < ws.len() && (#[trigger] ws[i]).valid) {
        let k = choose|k: int| 0 <= k < ws.len() && !(#[trigger] ws[k]).valid;
        assert(ws.len() > 0);
    }
}

/// What each rating means. With every workload valid, the suite is `high`
/// exactly when every workload's samples are excellent or good, and a single
/// workload with weaker samples anywhere makes it `moderate`; with some but
/// not all valid it is `partial`; with none valid it is `unavailable`.
pub proof fn lemma_suite_reliability_meaning(ws: Seq<WorkloadStatus>, k: int)
    ensures
        (forall|i: int| 0 <= i < ws.len() ==> (#[trigger] ws[i]).valid) ==> ((suite_reliability_of(
            ws,
        ) == "high"@) <==> (forall|i: int|
            0 <= i < ws.len() ==> ((#[trigger] ws[i]).reliability@ == "excellent"@ || ws[i].reliability@ == "good"@))),
        (forall|i: int| 0 <= i < ws.len() ==> (#[trigger] ws[i]).valid) && 0 <= k < ws.len()
            && ws[k].reliability@ != "excellent"@ && ws[k].reliability@ != "good"@ ==> suite_reliability_of(ws) == "moderate"@,
        (forall|i: int| 0 <= i < ws.len() ==> (#[trigger] ws[i]).valid) && (forall|i: int|
            0 <= i < ws.len() ==> ((#[trigger] ws[i]).reliability@ == "excellent"@ || ws[i].reliability@ == "good"@))
            ==> suite_reliability_of(ws) == "high"@,
        0 <= k < ws.len() && ws[k].valid && (exists|i: int|
            0 <= i < ws.len() && !(#[trigger] ws[i]).valid) ==> suite_reliability_of(ws)
            == "partial"@,
        0 <= k < ws.len() && (forall|i: int| 0 <= i < ws.len() ==> !(#[trigger] ws[i]).valid)
            ==> suite_reliability_of(ws) == "unavailable"@,
{
    reveal_strlit("high");
    reveal_strlit("moderate");
    assert("high"@.len() == 4 && "moderate"@.len() == 8);
    assert("high"@ != "moderate"@);
    if 0 <= k < ws.len() && ws[k].valid {
        assert(exists|i: int| 0 <= i < ws.len() && (#[trigger] ws[i]).valid);
    }
    if 0 <= k < ws.len() && (forall|i: int| 0 <= i < ws.len() ==> !(#[trigger] ws[i]).valid) {
        assert(!ws[k].valid);
    }
}

} // verus!
