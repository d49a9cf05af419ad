//! Local history of reports: where a report is stored and in which order
//! the stored reports are listed.

use vstd::prelude::*;

use crate::text::same_text;

verus! {

/// The name of the file that holds the report with id `id`, inside the
/// history directory.
pub fn report_path(id: &str) -> (res: String)
    ensures
        res@ == id@ + ".json"@,
{
    let mut name = id.to_owned();
    name.append(".json");
    name
}

/// `order` lists each index below `n` exactly once.
pub open spec fn is_permutation(order: Seq<usize>, n: int) -> bool {
    &&& order.len() == n
    &&& forall|p: int| 0 <= p < n ==> (#[trigger] order[p]) < n
    &&& forall|p: int, q: int| 0 <= p < q < n ==> order[p] != order[q]
    &&& forall|r: usize| 0 <= r < n ==> #[trigger] order.contains(r)
}

/// `order` lists reports newest first, and reports of the same time in the
/// order in which they were found.
pub open spec fn newest_first_order(stamps: Seq<u128>, order: Seq<usize>) -> bool {
    &&& forall|p: int, q: int|
        0 <= p < q < order.len() ==> stamps[order[p] as int] >= stamps[order[q] as int]
    &&& forall|p: int, q: int|
        0 <= p < q < order.len() && stamps[order[p] as int] == stamps[order[q] as int] ==> order[p]
            < order[q]
}

/// The order in which reports with creation times `stamps` are listed: a
/// permutation of their indices, newest first, ties kept in the order found.
pub fn newest_first(stamps: &Vec<u128>) -> (res: Vec<usize>)
    ensures
        is_permutation(res@, stamps@.len() as int),
        newest_first_order(stamps@, res@),
{
    let mut order: Vec<usize> = Vec::new();
    let mut i: usize = 0;
    while i < stamps.len()
        invariant
            i <= stamps.len(),
            is_permutation(order@, i as int),
            newest_first_order(stamps@, order@),
        decreases stamps.len() - i,
    {
        let t = stamps[i];
        let mut pos: usize = 0;
        while pos < order.len() && stamps[order[pos]] >= t
            invariant
                pos <= order.len(),
                order.len() == i,
                i < stamps.len(),
                is_permutation(order@, i as int),
                t == stamps@[i as int],
                forall|p: int| 0 <= p < pos ==> stamps@[#[trigger] order@[p] as int] >= t,
            decreases order.len() - pos,
        {
            pos = pos + 1;
        }
        let ghost before = order@;
        order.insert(pos, i);
        proof {
            assert(order@ == before.insert(pos as int, i));
            assert forall|p: int| 0 <= p < i + 1 implies (#[trigger] order@[p]) < i + 1 by {
                if p < pos {
                    assert(order@[p] == before[p]);
                } else if p > pos {
                    assert(order@[p] == before[p - 1]);
                }
            }
            assert forall|p: int, q: int| 0 <= p < q < i + 1 implies order@[p] != order@[q] by {
                if p != pos && q != pos {
                    let pp = if p < pos { p } else { p - 1 };
                    let qq = if q < pos { q } else { q - 1 };
                    assert(order@[p] == before[pp]);
                    assert(order@[q] == before[qq]);
                } else if p == pos {
                    let qq = q - 1;
                    assert(order@[q] == before[qq]);
                } else {
                    assert(order@[p] == before[p]);
                }
            }
            assert forall|r: usize| 0 <= r < i + 1 implies #[trigger] order@.contains(r) by {
                if r == i {
                    assert(order@[pos as int] == i);
                } else {
                    assert(before.contains(r));
                    let p = choose|p: int| 0 <= p < before.len() && before[p] == r;
                    if p < pos {
                        assert(order@[p] == r);
                    } else {
                        assert(order@[p + 1] == r);
                    }
                }
            }
            assert forall|p: int, q: int| 0 <= p < q < order@.len() implies stamps@[order@[p] as int]
                >= stamps@[order@[q] as int] by {
                if p < pos && q < pos {
                    assert(order@[p] == before[p] && order@[q] == before[q]);
                } else if p < pos && q == pos {
                    assert(order@[p] == before[p]);
                } else if p < pos {
                    assert(order@[p] == before[p] && order@[q] == before[q - 1]);
                } else if p == pos {
                    assert(order@[q] == before[q - 1]);
                    if pos < before.len() {
                        assert(stamps@[before[pos as int] as int] < t);
                        assert(stamps@[before[pos as int] as int] >= stamps@[before[q - 1] as int]);
                    }
                } else {
                    assert(order@[p] == before[p - 1] && order@[q] == before[q - 1]);
                }
            }
            assert forall|p: int, q: int|
                0 <= p < q < order@.len() && stamps@[order@[p] as int] == stamps@[order@[q] as int]
                implies order@[p] < order@[q] by {
                if p < pos && q < pos {
                    assert(order@[p] == before[p] && order@[q] == before[q]);
                } else if p < pos && q == pos {
                    assert(order@[p] == before[p]);
                } else if p < pos {
                    assert(order@[p] == before[p] && order@[q] == before[q - 1]);
                } else if p == pos {
                    assert(order@[q] == before[q - 1]);
                    assert(stamps@[before[pos as int] as int] < t);
                    assert(stamps@[before[pos as int] as int] >= stamps@[before[q - 1] as int]);
                } else {
                    assert(order@[p] == before[p - 1] && order@[q] == before[q - 1]);
                }
            }
        }
        i = i + 1;
    }
    order
}

/// In the newest-first listing, the first report whose id differs from the
/// current one is the most recent of all other reports.
pub proof fn lemma_previous_is_most_recent(
    stamps: Seq<u128>,
    ids: Seq<Seq<char>>,
    current: Seq<char>,
    order: Seq<usize>,
    k: int,
)
    requires
        ids.len() == stamps.len(),
        stamps.len() <= usize::MAX,
        is_permutation(order, stamps.len() as int),
        newest_first_order(stamps, order),
        0 <= k < order.len(),
        ids[order[k] as int] != current,
        forall|j: int| 0 <= j < k ==> ids[#[trigger] order[j] as int] == current,
    ensures
        forall|r: int|
            0 <= r < stamps.len() && ids[r] != current ==> stamps[order[k] as int] >= #[trigger] stamps[r],
{
    assert forall|r: int|
        0 <= r < stamps.len() && ids[r] != current implies stamps[order[k] as int] >= #[trigger] stamps[r] by {
        assert(order.contains(r as usize));
        let p = choose|p: int| 0 <= p < order.len() && order[p] == r as usize;
        if p < k {
            assert(ids[order[p] as int] == current);
        } else if p > k {
            assert(stamps[order[k] as int] >= stamps[order[p] as int]);
        }
    }
}

/// The report the current one is compared with: the first listed report
/// whose id differs from `current`.
pub fn previous_report(ids: &Vec<String>, current: &str) -> (res: Option<usize>)
    ensures
        res matches Some(k) ==> k < ids@.len() && ids@[k as int]@ != current@ && forall|j: int|
            0 <= j < k ==> (#[trigger] ids@[j])@ == current@,
        res is None ==> forall|j: int| 0 <= j < ids@.len() ==> (#[trigger] ids@[j])@ == current@,
{
    let mut k: usize = 0;
    while k < ids.len()
        invariant
            k <= ids.len(),
            forall|j: int| 0 <= j < k ==> (#[trigger] ids@[j])@ == current@,
        decreases ids.len() - k,
    {
        if !same_text(ids[k].as_str(), current) {
            return Some(k);
        }
        k = k + 1;
    }
    None
}

} // verus!
