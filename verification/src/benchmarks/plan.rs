//! Planning a run: the workloads of each suite, suite after suite.

use vstd::prelude::*;

use super::catalog::{catalog, WorkloadEntry, WorkloadSpec};
use super::{suite_key, suite_keys, SUITE_COUNT};
use crate::text::same_text;

verus! {

/// Indices, in increasing order, of the first `n` entries whose suite is `suite`.
pub open spec fn members(entries: Seq<WorkloadEntry>, suite: Seq<char>, n: int) -> Seq<usize>
    decreases n,
{
    if n <= 0 {
        Seq::empty()
    } else {
        let prev = members(entries, suite, n - 1);
        if entries[n - 1].2 == suite {
            prev.push((n - 1) as usize)
        } else {
            prev
        }
    }
}

/// The plan over the first `k` suites of the run order: for each suite that
/// has workloads, its position in the order and its workloads.
pub open spec fn plan_prefix(entries: Seq<WorkloadEntry>, k: int) -> Seq<(usize, Seq<usize>)>
    decreases k,
{
    if k <= 0 {
        Seq::empty()
    } else {
        let prev = plan_prefix(entries, k - 1);
        let group = members(entries, suite_keys()[k - 1], entries.len() as int);
        if group.len() > 0 {
            prev.push(((k - 1) as usize, group))
        } else {
            prev
        }
    }
}

/// The plan of a run over `entries`.
pub open spec fn run_plan(entries: Seq<WorkloadEntry>) -> Seq<(usize, Seq<usize>)> {
    plan_prefix(entries, SUITE_COUNT as int)
}

/// Groups the workloads by suite: suites come in the run order, a suite
/// without workloads is left out, and each suite lists its workloads in
/// catalogue order. Each pair holds the suite's position in the run order
/// and the indices of its workloads.
pub fn plan_suites(workloads: &Vec<WorkloadSpec>) -> (res: Vec<(usize, Vec<usize>)>)
    ensures
        res@.map_values(|p: (usize, Vec<usize>)| (p.0, p.1@)) == run_plan(
            workloads@.map_values(|w: WorkloadSpec| w@),
        ),
{
    let ghost entries = workloads@.map_values(|w: WorkloadSpec| w@);
    let mut res: Vec<(usize, Vec<usize>)> = Vec::new();
    let mut k: usize = 0;
    while k < SUITE_COUNT
        invariant
            k <= SUITE_COUNT,
            entries == workloads@.map_values(|w: WorkloadSpec| w@),
            res@.map_values(|p: (usize, Vec<usize>)| (p.0, p.1@)) == plan_prefix(entries, k as int),
        decreases SUITE_COUNT - k,
    {
        let key = suite_key(k);
        let mut group: Vec<usize> = Vec::new();
        let mut i: usize = 0;
        while i < workloads.len()
            invariant
                i <= workloads.len(),
                entries == workloads@.map_values(|w: WorkloadSpec| w@),
                key@ == suite_keys()[k as int],
                group@ == members(entries, suite_keys()[k as int], i as int),
            decreases workloads.len() - i,
        {
            if same_text(workloads[i].suite, key) {
                group.push(i);
            }
            i = i + 1;
        }
        let ghost before = res@;
        if group.len() > 0 {
            res.push((k, group));
            assert(res@.map_values(|p: (usize, Vec<usize>)| (p.0, p.1@)) =~= before.map_values(
                |p: (usize, Vec<usize>)| (p.0, p.1@),
            ).push((k, members(entries, suite_keys()[k as int], entries.len() as int))));
        }
        k = k + 1;
    }
    res
}

} // verus!

verus! {

/// Sum of the weights of the first `n` entries that belong to `suite`.
pub open spec fn suite_weight_sum(entries: Seq<WorkloadEntry>, suite: Seq<char>, n: int) -> int
    decreases n,
{
    if n <= 0 {
        0
    } else {
        suite_weight_sum(entries, suite, n - 1) + if entries[n - 1].2 == suite {
            entries[n - 1].5 as int
        } else {
            0
        }
    }
}

/// The workloads of the catalogue that belong to the suite in position `k`
/// of the run order.
pub open spec fn catalog_group(k: int) -> Seq<usize> {
    if k == 0 {
        seq![0usize, 1, 2, 3]
    } else if k == 1 {
        seq![4usize, 5, 6, 7]
    } else if k == 2 {
        seq![8usize, 9]
    } else if k == 3 {
        seq![10usize, 11, 12]
    } else {
        seq![13usize, 14]
    }
}

#[verifier::rlimit(60)]
proof fn lemma_catalog_members(k: int)
    requires
        0 <= k < SUITE_COUNT,
    ensures
        members(catalog(), suite_keys()[k], 15) == catalog_group(k),
        suite_weight_sum(catalog(), suite_keys()[k], 15) == 100,
{
    reveal_strlit("everyday");
    reveal_strlit("productivity");
    reveal_strlit("content");
    reveal_strlit("graphics");
    reveal_strlit("storage");
    let c = catalog();
    let s = suite_keys()[k];
    let e = "everyday"@;
    let p = "productivity"@;
    let n = "content"@;
    let g = "graphics"@;
    let t = "storage"@;
    assert(e.len() == 8 && p.len() == 12 && n.len() == 7 && g.len() == 8 && t.len() == 7);
    assert(e[0] == 'e' && g[0] == 'g' && n[0] == 'c' && t[0] == 's');
    assert(e != g);
    assert(n != t);
    assert(e != p && e != n && e != t && p != n && p != g && p != t && n != g && g != t);
    assert(c[0].2 == e && c[1].2 == e && c[2].2 == e && c[3].2 == e);
    assert(c[4].2 == p && c[5].2 == p && c[6].2 == p && c[7].2 == p);
    assert(c[8].2 == n && c[9].2 == n);
    assert(c[10].2 == g && c[11].2 == g && c[12].2 == g);
    assert(c[13].2 == t && c[14].2 == t);
    reveal_with_fuel(members, 16);
    reveal_with_fuel(suite_weight_sum, 16);
    if k == 0 {
        assert(members(c, s, 15) =~= catalog_group(k));
    } else if k == 1 {
        assert(members(c, s, 15) =~= catalog_group(k));
    } else if k == 2 {
        assert(members(c, s, 15) =~= catalog_group(k));
    } else if k == 3 {
        assert(members(c, s, 15) =~= catalog_group(k));
    } else {
        assert(members(c, s, 15) =~= catalog_group(k));
    }
}

/// The run over the catalogue takes the suites in the run order, and within
/// each suite its workloads in catalogue order; every workload of the
/// catalogue runs exactly once.
pub proof fn lemma_catalog_plan()
    ensures
        run_plan(catalog()) == seq![
            (0usize, catalog_group(0)),
            (1usize, catalog_group(1)),
            (2usize, catalog_group(2)),
            (3usize, catalog_group(3)),
            (4usize, catalog_group(4)),
        ],
{
    lemma_catalog_members(0);
    lemma_catalog_members(1);
    lemma_catalog_members(2);
    lemma_catalog_members(3);
    lemma_catalog_members(4);
    reveal_with_fuel(plan_prefix, 6);
    assert(run_plan(catalog()) =~= seq![
        (0usize, catalog_group(0)),
        (1usize, catalog_group(1)),
        (2usize, catalog_group(2)),
        (3usize, catalog_group(3)),
        (4usize, catalog_group(4)),
    ]);
}

/// Within every suite the weights of the workloads add up to 100 percent.
pub proof fn lemma_suite_weights_total(k: int)
    requires
        0 <= k < SUITE_COUNT,
    ensures
        suite_weight_sum(catalog(), suite_keys()[k], catalog().len() as int) == 100,
{
    lemma_catalog_members(k);
}

/// Every workload of the catalogue belongs to a suite of the run order, and
/// no two workloads share a key.
pub proof fn lemma_catalog_well_formed()
    ensures
        forall|i: int| 0 <= i < catalog().len() ==> suite_keys().contains(#[trigger] catalog()[i].2),
        forall|i: int, j: int|
            0 <= i < j < catalog().len() ==> #[trigger] catalog()[i].0 != #[trigger] catalog()[j].0,
{
    reveal_strlit("everyday");
    reveal_strlit("productivity");
    reveal_strlit("content");
    reveal_strlit("graphics");
    reveal_strlit("storage");
    assert forall|i: int| 0 <= i < catalog().len() implies suite_keys().contains(#[trigger] catalog()[i].2) by {
        if i < 4 { assert(suite_keys()[0] == catalog()[i].2); }
        else if i < 8 { assert(suite_keys()[1] == catalog()[i].2); }
        else if i < 10 { assert(suite_keys()[2] == catalog()[i].2); }
        else if i < 13 { assert(suite_keys()[3] == catalog()[i].2); }
        else { assert(suite_keys()[4] == catalog()[i].2); }
    }
    reveal_strlit("json_parse");
    reveal_strlit("text_search");
    reveal_strlit("compression");
    reveal_strlit("small_files");
    reveal_strlit("spreadsheet");
    reveal_strlit("sort_aggregate");
    reveal_strlit("document_transform");
    reveal_strlit("archive");
    reveal_strlit("image_pipeline");
    reveal_strlit("cpu_render");
    reveal_strlit("gpu_compute");
    reveal_strlit("gpu_offscreen");
    reveal_strlit("gpu_transfer");
    reveal_strlit("storage_sequential");
    reveal_strlit("storage_random");
    assert forall|i: int, j: int|
        0 <= i < j < catalog().len() implies #[trigger] catalog()[i].0 != #[trigger] catalog()[j].0 by {
        let a = catalog()[i].0;
        let b = catalog()[j].0;
        if a.len() == b.len() {
            assert(a[0] != b[0] || a[1] != b[1] || a[4] != b[4] || a[5] != b[5] || a[8] != b[8] || a[9] != b[9] || a[12] != b[12]);
        }
    }
}

} // verus!

verus! {

/// What the suite runner does next.
#[derive(Clone, Copy, Debug, PartialEq, Eq, Structural)]
pub enum RunStep {
    /// Start collecting results for the suite at this position of the run order.
    OpenSuite(usize),
    /// Run a workload: the suite's position in the run order, the workload's
    /// position within the suite, and its index in the catalogue.
    RunWorkload(usize, usize, usize),
    /// Record the suite at this position of the run order with the results collected.
    CloseSuite(usize),
    /// The run is over.
    Done,
}

/// The progress of a run through its plan. A stop request ends the run at
/// the next workload: the suite under way is still recorded with what it
/// collected, and no further suite starts.
#[derive(Clone, Debug)]
pub struct SuiteRun {
    pub plan: Vec<(usize, Vec<usize>)>,
    pub suite_pos: usize,
    pub member_pos: usize,
    pub in_suite: bool,
    pub done: bool,
}

impl SuiteRun {
    /// The plan as plain values.
    pub open spec fn groups(&self) -> Seq<(usize, Seq<usize>)> {
        self.plan@.map_values(|p: (usize, Vec<usize>)| (p.0, p.1@))
    }

    pub open spec fn wf(&self) -> bool {
        &&& self.suite_pos <= self.plan@.len()
        &&& self.in_suite ==> self.suite_pos < self.plan@.len() && self.member_pos
            <= self.plan@[self.suite_pos as int].1@.len()
        &&& self.done ==> !self.in_suite
    }

    /// The next step when asked with the stop flag `cancelled`, and the run
    /// after it.
    pub open spec fn stepped(self, cancelled: bool) -> (SuiteRun, RunStep) {
        if self.done {
            (self, RunStep::Done)
        } else if !self.in_suite {
            if self.suite_pos >= self.plan@.len() || cancelled {
                (SuiteRun { done: true, ..self }, RunStep::Done)
            } else {
                (
                    SuiteRun { in_suite: true, member_pos: 0, ..self },
                    RunStep::OpenSuite(self.plan@[self.suite_pos as int].0),
                )
            }
        } else {
            let group = self.plan@[self.suite_pos as int];
            if !cancelled && self.member_pos < group.1@.len() {
                (
                    SuiteRun { member_pos: (self.member_pos + 1) as usize, ..self },
                    RunStep::RunWorkload(group.0, self.member_pos, group.1@[self.member_pos as int]),
                )
            } else {
                (
                    SuiteRun { in_suite: false, suite_pos: (self.suite_pos + 1) as usize, ..self },
                    RunStep::CloseSuite(group.0),
                )
            }
        }
    }

    /// A run at the start of `plan`.
    pub fn new(plan: Vec<(usize, Vec<usize>)>) -> (res: SuiteRun)
        ensures
            res.wf(),
            res.plan == plan,
            res.suite_pos == 0,
            res.member_pos == 0,
            !res.in_suite,
            !res.done,
    {
        SuiteRun { plan, suite_pos: 0, member_pos: 0, in_suite: false, done: false }
    }

    /// Decides the next step; `cancelled` tells whether a stop was requested.
    pub fn next_step(&mut self, cancelled: bool) -> (res: RunStep)
        requires
            old(self).wf(),
        ensures
            final(self).wf(),
            (*final(self), res) == old(self).stepped(cancelled),
    {
        if self.done {
            return RunStep::Done;
        }
        if !self.in_suite {
            if self.suite_pos >= self.plan.len() || cancelled {
                self.done = true;
                return RunStep::Done;
            }
            self.in_suite = true;
            self.member_pos = 0;
            return RunStep::OpenSuite(self.plan[self.suite_pos].0);
        }
        let k = self.suite_pos;
        let total = self.plan.len();
        assert(k < total);
        let suite = self.plan[k].0;
        let count = self.plan[k].1.len();
        if !cancelled && self.member_pos < count {
            let j = self.member_pos;
            let member = self.plan[k].1[j];
            self.member_pos = j + 1;
            return RunStep::RunWorkload(suite, j, member);
        }
        self.in_suite = false;
        self.suite_pos = k + 1;
        RunStep::CloseSuite(suite)
    }
}

/// Under a stop request no workload starts: the next step closes the suite
/// under way, or ends the run.
pub proof fn lemma_cancel_runs_nothing(r: SuiteRun)
    requires
        r.wf(),
    ensures
        !(r.stepped(true).1 is RunWorkload),
        !(r.stepped(true).1 is OpenSuite),
        r.in_suite && !r.done ==> r.stepped(true).1 == RunStep::CloseSuite(
            r.plan@[r.suite_pos as int].0,
        ),
        !r.in_suite ==> r.stepped(true).1 == RunStep::Done && r.stepped(true).0.done,
{
}

/// Every step keeps the run well formed, and once over a run stays over.
pub proof fn lemma_run_steps(r: SuiteRun, cancelled: bool)
    requires
        r.wf(),
    ensures
        r.stepped(cancelled).0.wf(),
        r.stepped(cancelled).0.plan == r.plan,
        r.done ==> r.stepped(cancelled).1 == RunStep::Done,
        r.stepped(cancelled).1 == RunStep::Done ==> r.stepped(cancelled).0.done,
{
}

} // verus!

verus! {

/// The steps of an undisturbed run for one suite: open it, run each of its
/// workloads in order, close it.
pub open spec fn group_steps(g: (usize, Seq<usize>)) -> Seq<RunStep> {
    seq![RunStep::OpenSuite(g.0)] + Seq::new(
        g.1.len(),
        |j: int| RunStep::RunWorkload(g.0, j as usize, g.1[j]),
    ) + seq![RunStep::CloseSuite(g.0)]
}

/// The steps of an undisturbed run over the suites of `groups` from
/// position `from` on, ending the run.
pub open spec fn plan_steps(groups: Seq<(usize, Seq<usize>)>, from: int) -> Seq<RunStep>
    decreases groups.len() - from,
{
    if from >= groups.len() {
        seq![RunStep::Done]
    } else {
        group_steps(groups[from]) + plan_steps(groups, from + 1)
    }
}

/// The steps an undisturbed run still takes from `r`.
pub open spec fn expected_steps(r: SuiteRun) -> Seq<RunStep> {
    let groups = r.groups();
    if r.done {
        Seq::empty()
    } else if !r.in_suite {
        plan_steps(groups, r.suite_pos as int)
    } else {
        let g = groups[r.suite_pos as int];
        Seq::new(
            (g.1.len() - r.member_pos) as nat,
            |j: int| RunStep::RunWorkload(g.0, (r.member_pos + j) as usize, g.1[r.member_pos + j]),
        ) + seq![RunStep::CloseSuite(g.0)] + plan_steps(groups, r.suite_pos + 1)
    }
}

/// The first `n` steps of an undisturbed run from `r`.
pub open spec fn run_trace(r: SuiteRun, n: nat) -> Seq<RunStep>
    decreases n,
{
    if n == 0 {
        Seq::empty()
    } else {
        seq![r.stepped(false).1] + run_trace(r.stepped(false).0, (n - 1) as nat)
    }
}

proof fn lemma_one_step(r: SuiteRun)
    requires
        r.wf(),
        !r.done,
    ensures
        expected_steps(r) == seq![r.stepped(false).1] + expected_steps(r.stepped(false).0),
        r.stepped(false).0.wf(),
        r.stepped(false).0.groups() == r.groups(),
{
    let groups = r.groups();
    let t = r.stepped(false).0;
    assert(t.groups() == groups);
    assert(r.plan.len() == r.plan@.len());
    if r.suite_pos < r.plan@.len() {
        assert(r.plan@[r.suite_pos as int].1.len() == r.plan@[r.suite_pos as int].1@.len());
    }
    if !r.in_suite {
        if r.suite_pos < r.plan@.len() {
            let g = groups[r.suite_pos as int];
            assert(g.1 == r.plan@[r.suite_pos as int].1@);
            assert(plan_steps(groups, r.suite_pos as int) == group_steps(g) + plan_steps(
                groups,
                r.suite_pos + 1,
            ));
            assert(Seq::new(
                (g.1.len() - 0) as nat,
                |j: int| RunStep::RunWorkload(g.0, (0 + j) as usize, g.1[0 + j]),
            ) =~= Seq::new(g.1.len(), |j: int| RunStep::RunWorkload(g.0, j as usize, g.1[j])));
            assert(expected_steps(r) =~= seq![r.stepped(false).1] + expected_steps(t));
        } else {
            assert(expected_steps(r) =~= seq![r.stepped(false).1] + expected_steps(t));
        }
    } else {
        let g = groups[r.suite_pos as int];
        assert(g.1 == r.plan@[r.suite_pos as int].1@);
        assert(g.0 == r.plan@[r.suite_pos as int].0);
        let m = r.member_pos as int;
        let rest = seq![RunStep::CloseSuite(g.0)] + plan_steps(groups, r.suite_pos + 1);
        let runs = Seq::new(
            (g.1.len() - m) as nat,
            |j: int| RunStep::RunWorkload(g.0, (m + j) as usize, g.1[m + j]),
        );
        assert(expected_steps(r) == runs + rest);
        if m < g.1.len() {
            let later = Seq::new(
                (g.1.len() - (m + 1)) as nat,
                |j: int| RunStep::RunWorkload(g.0, (m + 1 + j) as usize, g.1[m + 1 + j]),
            );
            assert(t.member_pos == m + 1);
            assert(expected_steps(t) == later + rest);
            assert(runs =~= seq![RunStep::RunWorkload(g.0, m as usize, g.1[m])] + later);
            assert(r.stepped(false).1 == RunStep::RunWorkload(g.0, m as usize, g.1[m]));
            assert(expected_steps(r) =~= seq![r.stepped(false).1] + expected_steps(t));
        } else {
            assert(runs =~= Seq::empty());
            assert(!t.in_suite && !t.done && t.suite_pos == r.suite_pos + 1);
            assert(expected_steps(t) == plan_steps(groups, r.suite_pos + 1));
            assert(expected_steps(r) =~= seq![r.stepped(false).1] + expected_steps(t));
        }
    }
}

proof fn lemma_trace_matches(r: SuiteRun)
    requires
        r.wf(),
    ensures
        run_trace(r, expected_steps(r).len()) == expected_steps(r),
    decreases expected_steps(r).len(),
{
    if r.done {
        assert(run_trace(r, 0) =~= expected_steps(r));
    } else {
        lemma_one_step(r);
        let t = r.stepped(false).0;
        lemma_trace_matches(t);
        assert(run_trace(r, expected_steps(r).len()) =~= expected_steps(r));
    }
}

/// An undisturbed run opens each planned suite in turn, runs each of its
/// workloads once in plan order, closes it, and then ends.
pub proof fn lemma_full_suite_run(plan: Vec<(usize, Vec<usize>)>)
    ensures
        ({
            let r = SuiteRun { plan, suite_pos: 0, member_pos: 0, in_suite: false, done: false };
            run_trace(r, plan_steps(r.groups(), 0).len()) == plan_steps(r.groups(), 0)
        }),
{
    let r = SuiteRun { plan, suite_pos: 0, member_pos: 0, in_suite: false, done: false };
    lemma_trace_matches(r);
}

} // verus!

verus! {

/// Each workload has its own suite and weight, whatever its place in the
/// catalogue: the entry with a given key belongs to the stated suite and
/// carries the stated weight (for instance GPU compute 55% and the transfer
/// diagnostic 10% of the graphics suite).
pub proof fn lemma_catalog_weights_by_key()
    ensures
        forall|i: int| 0 <= i < catalog().len() && #[trigger] catalog()[i].0 == "json_parse"@ ==> catalog()[i].2 == "everyday"@ && catalog()[i].5 == 25,
        forall|i: int| 0 <= i < catalog().len() && #[trigger] catalog()[i].0 == "text_search"@ ==> catalog()[i].2 == "everyday"@ && catalog()[i].5 == 25,
        forall|i: int| 0 <= i < catalog().len() && #[trigger] catalog()[i].0 == "compression"@ ==> catalog()[i].2 == "everyday"@ && catalog()[i].5 == 25,
        forall|i: int| 0 <= i < catalog().len() && #[trigger] catalog()[i].0 == "small_files"@ ==> catalog()[i].2 == "everyday"@ && catalog()[i].5 == 25,
        forall|i: int| 0 <= i < catalog().len() && #[trigger] catalog()[i].0 == "spreadsheet"@ ==> catalog()[i].2 == "productivity"@ && catalog()[i].5 == 30,
        forall|i: int| 0 <= i < catalog().len() && #[trigger] catalog()[i].0 == "sort_aggregate"@ ==> catalog()[i].2 == "productivity"@ && catalog()[i].5 == 25,
        forall|i: int| 0 <= i < catalog().len() && #[trigger] catalog()[i].0 == "document_transform"@ ==> catalog()[i].2 == "productivity"@ && catalog()[i].5 == 25,
        forall|i: int| 0 <= i < catalog().len() && #[trigger] catalog()[i].0 == "archive"@ ==> catalog()[i].2 == "productivity"@ && catalog()[i].5 == 20,
        forall|i: int| 0 <= i < catalog().len() && #[trigger] catalog()[i].0 == "image_pipeline"@ ==> catalog()[i].2 == "content"@ && catalog()[i].5 == 45,
        forall|i: int| 0 <= i < catalog().len() && #[trigger] catalog()[i].0 == "cpu_render"@ ==> catalog()[i].2 == "content"@ && catalog()[i].5 == 55,
        forall|i: int| 0 <= i < catalog().len() && #[trigger] catalog()[i].0 == "gpu_compute"@ ==> catalog()[i].2 == "graphics"@ && catalog()[i].5 == 55,
        forall|i: int| 0 <= i < catalog().len() && #[trigger] catalog()[i].0 == "gpu_offscreen"@ ==> catalog()[i].2 == "graphics"@ && catalog()[i].5 == 35,
        forall|i: int| 0 <= i < catalog().len() && #[trigger] catalog()[i].0 == "gpu_transfer"@ ==> catalog()[i].2 == "graphics"@ && catalog()[i].5 == 10,
        forall|i: int| 0 <= i < catalog().len() && #[trigger] catalog()[i].0 == "storage_sequential"@ ==> catalog()[i].2 == "storage"@ && catalog()[i].5 == 55,
        forall|i: int| 0 <= i < catalog().len() && #[trigger] catalog()[i].0 == "storage_random"@ ==> catalog()[i].2 == "storage"@ && catalog()[i].5 == 45,
{
    lemma_catalog_well_formed();
    assert forall|i: int| 0 <= i < catalog().len() && #[trigger] catalog()[i].0 == "json_parse"@ implies catalog()[i].2 == "everyday"@ && catalog()[i].5 == 25 by {
        if i < 0 {
            assert(catalog()[i].0 != catalog()[0].0);
        } else if i > 0 {
            assert(catalog()[0].0 != catalog()[i].0);
        }
    }
    assert forall|i: int| 0 <= i < catalog().len() && #[trigger] catalog()[i].0 == "text_search"@ implies catalog()[i].2 == "everyday"@ && catalog()[i].5 == 25 by {
        if i < 1 {
            assert(catalog()[i].0 != catalog()[1].0);
        } else if i > 1 {
            assert(catalog()[1].0 != catalog()[i].0);
        }
    }
    assert forall|i: int| 0 <= i < catalog().len() && #[trigger] catalog()[i].0 == "compression"@ implies catalog()[i].2 == "everyday"@ && catalog()[i].5 == 25 by {
        if i < 2 {
            assert(catalog()[i].0 != catalog()[2].0);
        } else if i > 2 {
            assert(catalog()[2].0 != catalog()[i].0);
        }
    }
    assert forall|i: int| 0 <= i < catalog().len() && #[trigger] catalog()[i].0 == "small_files"@ implies catalog()[i].2 == "everyday"@ && catalog()[i].5 == 25 by {
        if i < 3 {
            assert(catalog()[i].0 != catalog()[3].0);
        } else if i > 3 {
            assert(catalog()[3].0 != catalog()[i].0);
        }
    }
    assert forall|i: int| 0 <= i < catalog().len() && #[trigger] catalog()[i].0 == "spreadsheet"@ implies catalog()[i].2 == "productivity"@ && catalog()[i].5 == 30 by {
        if i < 4 {
            assert(catalog()[i].0 != catalog()[4].0);
        } else if i > 4 {
            assert(catalog()[4].0 != catalog()[i].0);
        }
    }
    assert forall|i: int| 0 <= i < catalog().len() && #[trigger] catalog()[i].0 == "sort_aggregate"@ implies catalog()[i].2 == "productivity"@ && catalog()[i].5 == 25 by {
        if i < 5 {
            assert(catalog()[i].0 != catalog()[5].0);
        } else if i > 5 {
            assert(catalog()[5].0 != catalog()[i].0);
        }
    }
    assert forall|i: int| 0 <= i < catalog().len() && #[trigger] catalog()[i].0 == "document_transform"@ implies catalog()[i].2 == "productivity"@ && catalog()[i].5 == 25 by {
        if i < 6 {
            assert(catalog()[i].0 != catalog()[6].0);
        } else if i > 6 {
            assert(catalog()[6].0 != catalog()[i].0);
        }
    }
    assert forall|i: int| 0 <= i < catalog().len() && #[trigger] catalog()[i].0 == "archive"@ implies catalog()[i].2 == "productivity"@ && catalog()[i].5 == 20 by {
        if i < 7 {
            assert(catalog()[i].0 != catalog()[7].0);
        } else if i > 7 {
            assert(catalog()[7].0 != catalog()[i].0);
        }
    }
    assert forall|i: int| 0 <= i < catalog().len() && #[trigger] catalog()[i].0 == "image_pipeline"@ implies catalog()[i].2 == "content"@ && catalog()[i].5 == 45 by {
        if i < 8 {
            assert(catalog()[i].0 != catalog()[8].0);
        } else if i > 8 {
            assert(catalog()[8].0 != catalog()[i].0);
        }
    }
    assert forall|i: int| 0 <= i < catalog().len() && #[trigger] catalog()[i].0 == "cpu_render"@ implies catalog()[i].2 == "content"@ && catalog()[i].5 == 55 by {
        if i < 9 {
            assert(catalog()[i].0 != catalog()[9].0);
        } else if i > 9 {
            assert(catalog()[9].0 != catalog()[i].0);
        }
    }
    assert forall|i: int| 0 <= i < catalog().len() && #[trigger] catalog()[i].0 == "gpu_compute"@ implies catalog()[i].2 == "graphics"@ && catalog()[i].5 == 55 by {
        if i < 10 {
            assert(catalog()[i].0 != catalog()[10].0);
        } else if i > 10 {
            assert(catalog()[10].0 != catalog()[i].0);
        }
    }
    assert forall|i: int| 0 <= i < catalog().len() && #[trigger] catalog()[i].0 == "gpu_offscreen"@ implies catalog()[i].2 == "graphics"@ && catalog()[i].5 == 35 by {
        if i < 11 {
            assert(catalog()[i].0 != catalog()[11].0);
        } else if i > 11 {
            assert(catalog()[11].0 != catalog()[i].0);
        }
    }
    assert forall|i: int| 0 <= i < catalog().len() && #[trigger] catalog()[i].0 == "gpu_transfer"@ implies catalog()[i].2 == "graphics"@ && catalog()[i].5 == 10 by {
        if i < 12 {
            assert(catalog()[i].0 != catalog()[12].0);
        } else if i > 12 {
            assert(catalog()[12].0 != catalog()[i].0);
        }
    }
    assert forall|i: int| 0 <= i < catalog().len() && #[trigger] catalog()[i].0 == "storage_sequential"@ implies catalog()[i].2 == "storage"@ && catalog()[i].5 == 55 by {
        if i < 13 {
            assert(catalog()[i].0 != catalog()[13].0);
        } else if i > 13 {
            assert(catalog()[13].0 != catalog()[i].0);
        }
    }
    assert forall|i: int| 0 <= i < catalog().len() && #[trigger] catalog()[i].0 == "storage_random"@ implies catalog()[i].2 == "storage"@ && catalog()[i].5 == 45 by {
        if i < 14 {
            assert(catalog()[i].0 != catalog()[14].0);
        } else if i > 14 {
            assert(catalog()[14].0 != catalog()[i].0);
        }
    }
}

} // verus!

verus! {

/// A suite's workloads are exactly the entries of that suite, each once, in
/// catalogue order: every listed index is below `n` and names an entry of
/// the suite, the indices increase, and every entry of the suite among the
/// first `n` is listed.
pub proof fn lemma_members_of_suite(entries: Seq<WorkloadEntry>, suite: Seq<char>, n: int)
    requires
        0 <= n <= entries.len(),
        entries.len() <= usize::MAX,
    ensures
        forall|p: int|
            0 <= p < members(entries, suite, n).len() ==> (#[trigger] members(entries, suite, n)[p])
                < n && entries[members(entries, suite, n)[p] as int].2 == suite,
        forall|p: int, q: int|
            0 <= p < q < members(entries, suite, n).len() ==> members(entries, suite, n)[p]
                < members(entries, suite, n)[q],
        forall|i: int|
            0 <= i < n && #[trigger] entries[i].2 == suite ==> members(entries, suite, n).contains(
                i as usize,
            ),
    decreases n,
{
    if n > 0 {
        lemma_members_of_suite(entries, suite, n - 1);
        let prev = members(entries, suite, n - 1);
        let cur = members(entries, suite, n);
        assert forall|i: int| 0 <= i < n && #[trigger] entries[i].2 == suite implies cur.contains(
            i as usize,
        ) by {
            if i < n - 1 {
                assert(prev.contains(i as usize));
                let p = choose|p: int| 0 <= p < prev.len() && prev[p] == i as usize;
                assert(cur[p] == i as usize);
            } else {
                assert(cur[cur.len() - 1] == i as usize);
            }
        }
    }
}

} // verus!

verus! {

/// No planned workload is skipped or repeated: a workload step names the
/// next member of the suite under way and moves past exactly that one, and
/// without a stop request a suite is closed only after all its members ran.
pub proof fn lemma_suite_members_in_order(r: SuiteRun, cancelled: bool)
    requires
        r.wf(),
        r.in_suite,
        !r.done,
    ensures
        r.stepped(cancelled).1 matches RunStep::RunWorkload(k, j, m) ==> k == r.plan@[r.suite_pos as int].0
            && j == r.member_pos && m == r.plan@[r.suite_pos as int].1@[j as int]
            && r.stepped(cancelled).0.member_pos == j + 1 && r.stepped(cancelled).0.suite_pos
            == r.suite_pos,
        !cancelled && r.stepped(cancelled).1 is CloseSuite ==> r.member_pos == r.plan@[r.suite_pos as int].1@.len(),
        r.stepped(cancelled).1 is CloseSuite ==> r.stepped(cancelled).0.suite_pos == r.suite_pos + 1,
        !(r.stepped(cancelled).1 is OpenSuite),
{
    assert(r.plan.len() == r.plan@.len());
    assert(r.plan@[r.suite_pos as int].1.len() == r.plan@[r.suite_pos as int].1@.len());
}

} // verus!
