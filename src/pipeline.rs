use vstd::prelude::*;

use crate::plist::PatchInfo;
use vstd::multiset::Multiset;

verus! {

/// Whether some entry of `list` carries the index `c`.
pub open spec fn lists_index(list: Seq<PatchInfo>, c: u64) -> bool {
    exists|i: int| 0 <= i < list.len() && #[trigger] list[i].index == c
}

pub open spec fn newer_than(c: u64) -> spec_fn(PatchInfo) -> bool {
    |p: PatchInfo| p.index > c
}

/// The patches that still have to be fetched and applied: those above the
/// cached index when the mirror lists that index, else the whole list.
pub open spec fn pending_after(list: Seq<PatchInfo>, cached: Option<u64>) -> Seq<PatchInfo> {
    match cached {
        Some(c) => if lists_index(list, c) {
            list.filter(newer_than(c))
        } else {
            list
        },
        None => list,
    }
}

/// Drops the patches that the cache records as applied. The cache is trusted
/// only when the mirror lists its index; otherwise every patch is kept.
pub fn filter_patch_list(list: &Vec<PatchInfo>, cached: Option<u64>) -> (r: Vec<PatchInfo>)
    ensures
        r@ == pending_after(list@, cached),
{
    let n = list.len();
    match cached {
        None => {
            return clone_list(list);
        },
        Some(c) => {
            let mut listed = false;
            let mut i: usize = 0;
            while i < n
                invariant
                    n == list@.len(),
                    i <= n,
                    listed <==> exists|j: int| 0 <= j < i && #[trigger] list@[j].index == c,
                decreases n - i,
            {
                if list[i].index == c {
                    listed = true;
                }
                i = i + 1;
            }
            if !listed {
                return clone_list(list);
            }
            let mut out: Vec<PatchInfo> = Vec::new();
            let mut k: usize = 0;
            while k < n
                invariant
                    n == list@.len(),
                    k <= n,
                    out@ == list@.subrange(0, k as int).filter(newer_than(c)),
                decreases n - k,
            {
                let ghost pre = list@.subrange(0, k as int);
                assert(list@.subrange(0, k + 1) == pre.push(list@[k as int]));
                proof {
                    pre.lemma_filter_push(list@[k as int], newer_than(c));
                }
                if list[k].index > c {
                    out.push(list[k].clone());
                }
                k = k + 1;
            }
            assert(list@.subrange(0, n as int) == list@);
            out
        },
    }
}

fn clone_list(list: &Vec<PatchInfo>) -> (r: Vec<PatchInfo>)
    ensures
        r@ == list@,
{
    let mut out: Vec<PatchInfo> = Vec::new();
    let mut k: usize = 0;
    while k < list.len()
        invariant
            k <= list@.len(),
            out@ == list@.subrange(0, k as int),
        decreases list@.len() - k,
    {
        out.push(list[k].clone());
        k = k + 1;
    }
    out
}

/// A patch that has been downloaded and waits to be applied.
#[derive(Debug)]
pub struct PendingPatch {
    pub info: PatchInfo,
    pub local_file_path: String,
}

/// Indexes never decrease along `q`.
pub open spec fn sorted_by_index(q: Seq<PendingPatch>) -> bool {
    forall|i: int, j: int| 0 <= i < j < q.len() ==> #[trigger] q[i].info.index <= #[trigger] q[j].info.index
}

/// Puts downloaded patches, which arrive in completion order, in the order in
/// which they must be applied: by ascending index. No patch is added or lost.
pub fn sort_pending_patches(patches: Vec<PendingPatch>) -> (r: Vec<PendingPatch>)
    ensures
        sorted_by_index(r@),
        r@.to_multiset() == patches@.to_multiset(),
        r@.len() == patches@.len(),
{
    let mut rest = patches;
    let mut out: Vec<PendingPatch> = Vec::new();
    broadcast use vstd::seq_lib::group_to_multiset_ensures;
    while rest.len() > 0
        invariant
            sorted_by_index(out@),
            forall|i: int, j: int| 0 <= i < out@.len() && 0 <= j < rest@.len()
                ==> #[trigger] out@[i].info.index <= #[trigger] rest@[j].info.index,
            out@.to_multiset().add(rest@.to_multiset()) == patches@.to_multiset(),
            out@.len() + rest@.len() == patches@.len(),
        decreases rest@.len(),
    {
        let mut m: usize = 0;
        let mut k: usize = 1;
        while k < rest.len()
            invariant
                0 <= m < rest@.len(),
                1 <= k <= rest@.len(),
                forall|j: int| 0 <= j < k ==> rest@[m as int].info.index <= #[trigger] rest@[j].info.index,
            decreases rest@.len() - k,
        {
            if rest[k].info.index < rest[m].info.index {
                m = k;
            }
            k = k + 1;
        }
        let ghost old_rest = rest@;
        let ghost old_out = out@;
        let x = rest.remove(m);
        proof {
            old_rest.to_multiset_ensures();
            old_out.to_multiset_ensures();
        }
        assert(rest@ == old_rest.remove(m as int));
        assert(rest@.to_multiset() == old_rest.to_multiset().remove(x));
        out.push(x);
        assert(out@ == old_out.push(x));
        assert(out@.to_multiset() == old_out.to_multiset().insert(x));
        assert forall|j: int| 0 <= j < rest@.len() implies x.info.index <= #[trigger] rest@[j].info.index by {
            if j < m {
                assert(rest@[j] == old_rest[j]);
            } else {
                assert(rest@[j] == old_rest[j + 1]);
            }
        }
        assert(out@.to_multiset().add(rest@.to_multiset()) =~= patches@.to_multiset());
    }
    proof {
        rest@.to_multiset_ensures();
    }
    assert(rest@.to_multiset() =~= Multiset::empty());
    out
}

/// The largest index in `list` (zero for an empty list).
pub open spec fn max_index(list: Seq<PatchInfo>) -> u64
    decreases list.len(),
{
    if list.len() == 0 {
        0
    } else {
        let m = max_index(list.drop_last());
        if list.last().index > m {
            list.last().index
        } else {
            m
        }
    }
}

/// The index that the cache holds after a run that applied every patch of
/// `pending` in ascending order, starting from `cached`.
pub open spec fn recorded_after_full_run(cached: Option<u64>, pending: Seq<PatchInfo>) -> Option<u64> {
    if pending.len() == 0 {
        cached
    } else {
        Some(max_index(pending))
    }
}

proof fn lemma_max_index(list: Seq<PatchInfo>)
    ensures
        forall|i: int| 0 <= i < list.len() ==> #[trigger] list[i].index <= max_index(list),
        list.len() > 0 ==> exists|i: int| 0 <= i < list.len() && #[trigger] list[i].index == max_index(list),
    decreases list.len(),
{
    if list.len() > 0 {
        let rest = list.drop_last();
        lemma_max_index(rest);
        assert forall|i: int| 0 <= i < list.len() implies #[trigger] list[i].index <= max_index(list) by {
            if i < list.len() - 1 {
                assert(list[i] == rest[i]);
            }
        }
        if list.last().index > max_index(rest) || rest.len() == 0 {
            assert(list[list.len() - 1].index == max_index(list));
        } else {
            let j = choose|j: int| 0 <= j < rest.len() && #[trigger] rest[j].index == max_index(rest);
            assert(list[j] == rest[j]);
        }
    }
}

/// The patches handed to the apply engine are exactly those of the mirror's
/// list above the cached index when the list carries that index, and the
/// whole list otherwise.
pub proof fn law_pending_patches(list: Seq<PatchInfo>, cached: Option<u64>)
    ensures
        cached is Some && lists_index(list, cached->0) ==> forall|p: PatchInfo|
            #[trigger] pending_after(list, cached).contains(p) <==> list.contains(p) && p.index
                > cached->0,
        !(cached is Some && lists_index(list, cached->0)) ==> pending_after(list, cached) == list,
{
    broadcast use vstd::seq_lib::group_filter_ensures;

    if cached is Some && lists_index(list, cached->0) {
        let c = cached->0;
        assert forall|p: PatchInfo| #[trigger] pending_after(list, cached).contains(p) implies list.contains(p)
            && p.index > c by {
            list.lemma_filter_contains_rev(newer_than(c), p);
            let k = choose|k: int| 0 <= k < list.filter(newer_than(c)).len() && list.filter(newer_than(c))[k] == p;
            list.lemma_filter_pred(newer_than(c), k);
        }
        assert forall|p: PatchInfo| list.contains(p) && p.index > c implies #[trigger] pending_after(
            list,
            cached,
        ).contains(p) by {
            let k = choose|k: int| 0 <= k < list.len() && list[k] == p;
            list.lemma_filter_contains(newer_than(c), k);
        }
    }
}

/// On an installation whose cache holds the newest index that the mirror
/// lists, nothing is left to download.
pub proof fn law_up_to_date_nothing_pending(list: Seq<PatchInfo>, c: u64)
    requires
        lists_index(list, c),
        forall|i: int| 0 <= i < list.len() ==> #[trigger] list[i].index <= c,
    ensures
        pending_after(list, Some(c)).len() == 0,
{
    assert(list.all(|x: PatchInfo| !newer_than(c)(x))) by {
        assert forall|i: int| 0 <= i < list.len() implies !newer_than(c)(#[trigger] list[i]) by {}
    }
    list.lemma_all_neg_filter_empty(newer_than(c));
}

/// A second run against the same mirror state, after a first run that
/// applied every pending patch, finds nothing to do.
pub proof fn law_second_run_is_noop(list: Seq<PatchInfo>, cached: Option<u64>)
    ensures
        pending_after(list, recorded_after_full_run(cached, pending_after(list, cached))).len() == 0,
{
    broadcast use vstd::seq_lib::group_filter_ensures;

    let first = pending_after(list, cached);
    if first.len() > 0 {
        let m = max_index(first);
        lemma_max_index(first);
        law_pending_patches(list, cached);
        let j = choose|j: int| 0 <= j < first.len() && #[trigger] first[j].index == m;
        assert(first.contains(first[j]));
        assert(list.contains(first[j]));
        let k = choose|k: int| 0 <= k < list.len() && list[k] == first[j];
        assert(lists_index(list, m)) by {
            assert(list[k].index == m);
        }
        assert forall|i: int| 0 <= i < list.len() implies #[trigger] list[i].index <= m by {
            if list[i].index > m {
                assert(list.contains(list[i]));
                if cached is Some && lists_index(list, cached->0) {
                    assert(first.contains(first[j]));
                    assert(m > cached->0);
                    assert(first.contains(list[i]));
                } else {
                    assert(first[i] == list[i]);
                }
                let q = choose|q: int| 0 <= q < first.len() && first[q] == list[i];
                assert(first[q].index <= m);
            }
        }
        law_up_to_date_nothing_pending(list, m);
    }
}

} // verus!
