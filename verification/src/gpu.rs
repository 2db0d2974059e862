//! Selection of the graphics adapters worth showing: only discrete and
//! integrated devices are kept, duplicates reported by several backends are
//! collapsed by their device identifier, and the survivors are ordered by that
//! identifier.
use vstd::prelude::*;

verus! {

#[derive(Clone, Copy, PartialEq, Eq, Structural, Debug)]
pub enum GpuKind {
    Discrete,
    Integrated,
    Virtual,
    Cpu,
    Other,
}

/// One enumerated adapter, reduced to what the selection reads: its device
/// type, its stable device identifier, and its display name.
pub struct GpuAdapter {
    pub kind: GpuKind,
    pub device_id: u32,
    pub name: String,
}

/// Whether an adapter is of a type worth showing.
pub open spec fn retained(a: GpuAdapter) -> bool {
    a.kind == GpuKind::Discrete || a.kind == GpuKind::Integrated
}

/// The device identifier behind entry `k` of a selection of indices into
/// `gpus`.
pub open spec fn sel_id(gpus: Seq<GpuAdapter>, sel: Seq<usize>, k: int) -> u32 {
    gpus[sel[k] as int].device_id
}

/// Whether some selected index already carries this device identifier.
pub open spec fn sel_contains_id(gpus: Seq<GpuAdapter>, sel: Seq<usize>, id: u32) -> bool {
    exists|k: int| 0 <= k < sel.len() && sel_id(gpus, sel, k) == id
}

/// Index `j` placed into an id-ordered selection, after every entry whose
/// identifier does not exceed its own.
pub open spec fn sel_insert(gpus: Seq<GpuAdapter>, sel: Seq<usize>, j: usize) -> Seq<usize>
    decreases sel.len(),
{
    if sel.len() == 0 {
        seq![j]
    } else if gpus[j as int].device_id < sel_id(gpus, sel, 0) {
        seq![j] + sel
    } else {
        seq![sel[0]] + sel_insert(gpus, sel.drop_first(), j)
    }
}

/// The selection after the first `n` adapters have been examined in order:
/// each retained adapter whose identifier is new joins the selection at its
/// ordered place; every other adapter is passed over.
pub open spec fn gpu_selection(gpus: Seq<GpuAdapter>, n: int) -> Seq<usize>
    decreases n,
{
    if n <= 0 {
        Seq::empty()
    } else {
        let prev = gpu_selection(gpus, n - 1);
        if retained(gpus[n - 1]) && !sel_contains_id(gpus, prev, gpus[n - 1].device_id) {
            sel_insert(gpus, prev, (n - 1) as usize)
        } else {
            prev
        }
    }
}

/// The indices of the adapters that survive selection, in identifier order.
pub open spec fn gpu_select(gpus: Seq<GpuAdapter>) -> Seq<usize> {
    gpu_selection(gpus, gpus.len() as int)
}

/// A selection of valid indices into the first `bound` adapters, all of them
/// retained types.
pub open spec fn sel_wf(gpus: Seq<GpuAdapter>, sel: Seq<usize>, bound: int) -> bool {
    forall|k: int| 0 <= k < sel.len() ==> (#[trigger] sel[k]) < bound && retained(gpus[sel[k] as int])
}

/// A selection whose identifiers strictly grow: no identifier appears twice.
pub open spec fn sel_sorted(gpus: Seq<GpuAdapter>, sel: Seq<usize>) -> bool {
    forall|k1: int, k2: int|
        0 <= k1 < k2 < sel.len() ==> #[trigger] sel_id(gpus, sel, k1) < #[trigger] sel_id(
            gpus,
            sel,
            k2,
        )
}

proof fn lemma_sel_insert_at(gpus: Seq<GpuAdapter>, sel: Seq<usize>, j: usize, p: int)
    requires
        0 <= p <= sel.len(),
        forall|k: int| 0 <= k < p ==> !(gpus[j as int].device_id < #[trigger] sel_id(gpus, sel, k)),
        p < sel.len() ==> gpus[j as int].device_id < sel_id(gpus, sel, p),
    ensures
        sel_insert(gpus, sel, j) == sel.insert(p, j),
    decreases sel.len(),
{
    if sel.len() == 0 {
        assert(sel_insert(gpus, sel, j) =~= sel.insert(0, j));
    } else if p == 0 {
        assert(sel_insert(gpus, sel, j) =~= sel.insert(0, j));
    } else {
        let rest = sel.drop_first();
        assert forall|k: int| 0 <= k < p - 1 implies !(gpus[j as int].device_id
            < #[trigger] sel_id(gpus, rest, k)) by {
            assert(sel_id(gpus, rest, k) == sel_id(gpus, sel, k + 1));
        }
        if p - 1 < rest.len() {
            assert(sel_id(gpus, rest, p - 1) == sel_id(gpus, sel, p));
        }
        lemma_sel_insert_at(gpus, rest, j, p - 1);
        assert(sel_insert(gpus, sel, j) =~= sel.insert(p, j));
    }
}

proof fn lemma_sel_insert_props(gpus: Seq<GpuAdapter>, sel: Seq<usize>, j: usize, bound: int)
    requires
        sel_wf(gpus, sel, bound),
        sel_sorted(gpus, sel),
        0 <= j < bound,
        retained(gpus[j as int]),
        !sel_contains_id(gpus, sel, gpus[j as int].device_id),
    ensures
        sel_wf(gpus, sel_insert(gpus, sel, j), bound),
        sel_sorted(gpus, sel_insert(gpus, sel, j)),
        forall|id: u32|
            #[trigger] sel_contains_id(gpus, sel_insert(gpus, sel, j), id) <==> (id == gpus[j as int].device_id
                || sel_contains_id(gpus, sel, id)),
    decreases sel.len(),
{
    let out = sel_insert(gpus, sel, j);
    if sel.len() == 0 {
        assert forall|id: u32| #[trigger]
            sel_contains_id(gpus, out, id) <==> (id == gpus[j as int].device_id
            || sel_contains_id(gpus, sel, id)) by {
            if id == gpus[j as int].device_id {
                assert(sel_id(gpus, out, 0) == id);
            }
            if sel_contains_id(gpus, out, id) {
                let k = choose|k: int| 0 <= k < out.len() && sel_id(gpus, out, k) == id;
                assert(k == 0);
            }
        }
    } else if gpus[j as int].device_id < sel_id(gpus, sel, 0) {
        assert forall|k1: int, k2: int| 0 <= k1 < k2 < out.len() implies #[trigger] sel_id(
            gpus,
            out,
            k1,
        ) < #[trigger] sel_id(gpus, out, k2) by {
            if k1 == 0 {
                assert(sel_id(gpus, out, k2) == sel_id(gpus, sel, k2 - 1));
                if k2 - 1 > 0 {
                    assert(sel_id(gpus, sel, 0) < sel_id(gpus, sel, k2 - 1));
                }
            } else {
                assert(sel_id(gpus, out, k1) == sel_id(gpus, sel, k1 - 1));
                assert(sel_id(gpus, out, k2) == sel_id(gpus, sel, k2 - 1));
            }
        }
        assert forall|id: u32| #[trigger]
            sel_contains_id(gpus, out, id) <==> (id == gpus[j as int].device_id
            || sel_contains_id(gpus, sel, id)) by {
            if sel_contains_id(gpus, out, id) {
                let k = choose|k: int| 0 <= k < out.len() && sel_id(gpus, out, k) == id;
                if k > 0 {
                    assert(sel_id(gpus, sel, k - 1) == id);
                }
            }
            if id == gpus[j as int].device_id {
                assert(sel_id(gpus, out, 0) == id);
            }
            if sel_contains_id(gpus, sel, id) {
                let k = choose|k: int| 0 <= k < sel.len() && sel_id(gpus, sel, k) == id;
                assert(sel_id(gpus, out, k + 1) == id);
            }
        }
    } else {
        let rest = sel.drop_first();
        let head_id = sel_id(gpus, sel, 0);
        assert forall|k1: int, k2: int| 0 <= k1 < k2 < rest.len() implies #[trigger] sel_id(
            gpus,
            rest,
            k1,
        ) < #[trigger] sel_id(gpus, rest, k2) by {
            assert(sel_id(gpus, rest, k1) == sel_id(gpus, sel, k1 + 1));
            assert(sel_id(gpus, rest, k2) == sel_id(gpus, sel, k2 + 1));
        }
        assert forall|id: u32| sel_contains_id(gpus, rest, id) implies sel_contains_id(
            gpus,
            sel,
            id,
        ) by {
            let k = choose|k: int| 0 <= k < rest.len() && sel_id(gpus, rest, k) == id;
            assert(sel_id(gpus, sel, k + 1) == id);
        }
        lemma_sel_insert_props(gpus, rest, j, bound);
        let sub = sel_insert(gpus, rest, j);
        assert(out == seq![sel[0]] + sub);
        // The head identifier stays below everything that follows it: below
        // the old entries because the selection was sorted, and below j's
        // identifier because insertion walked past the head.
        assert(gpus[j as int].device_id != head_id);
        assert forall|k1: int, k2: int| 0 <= k1 < k2 < out.len() implies #[trigger] sel_id(
            gpus,
            out,
            k1,
        ) < #[trigger] sel_id(gpus, out, k2) by {
            if k1 == 0 {
                assert(sel_id(gpus, out, k2) == sel_id(gpus, sub, k2 - 1));
                assert(sel_contains_id(gpus, sub, sel_id(gpus, sub, k2 - 1)));
                let id2 = sel_id(gpus, sub, k2 - 1);
                if id2 == gpus[j as int].device_id {
                    assert(head_id < id2);
                } else {
                    let t = choose|t: int| 0 <= t < rest.len() && sel_id(gpus, rest, t) == id2;
                    assert(sel_id(gpus, sel, t + 1) == id2);
                    assert(head_id < id2);
                }
            } else {
                assert(sel_id(gpus, out, k1) == sel_id(gpus, sub, k1 - 1));
                assert(sel_id(gpus, out, k2) == sel_id(gpus, sub, k2 - 1));
            }
        }
        assert forall|id: u32| #[trigger]
            sel_contains_id(gpus, out, id) <==> (id == gpus[j as int].device_id
            || sel_contains_id(gpus, sel, id)) by {
            if sel_contains_id(gpus, out, id) {
                let k = choose|k: int| 0 <= k < out.len() && sel_id(gpus, out, k) == id;
                if k == 0 {
                    assert(sel_id(gpus, sel, 0) == id);
                } else {
                    assert(sel_id(gpus, sub, k - 1) == id);
                    assert(sel_contains_id(gpus, sub, id));
                    if id != gpus[j as int].device_id {
                        let t = choose|t: int| 0 <= t < rest.len() && sel_id(gpus, rest, t) == id;
                        assert(sel_id(gpus, sel, t + 1) == id);
                    }
                }
            }
            if id == gpus[j as int].device_id {
                assert(sel_contains_id(gpus, sub, id));
                let k = choose|k: int| 0 <= k < sub.len() && sel_id(gpus, sub, k) == id;
                assert(sel_id(gpus, out, k + 1) == id);
            }
            if sel_contains_id(gpus, sel, id) {
                let k = choose|k: int| 0 <= k < sel.len() && sel_id(gpus, sel, k) == id;
                if k == 0 {
                    assert(sel_id(gpus, out, 0) == id);
                } else {
                    assert(sel_id(gpus, rest, k - 1) == id);
                    assert(sel_contains_id(gpus, sub, id));
                    let t = choose|t: int| 0 <= t < sub.len() && sel_id(gpus, sub, t) == id;
                    assert(sel_id(gpus, out, t + 1) == id);
                }
            }
        }
        assert(sel_wf(gpus, out, bound));
    }
}

/// What the selection guarantees after examining the first `n` adapters:
/// indices are in range and point only at retained adapters, identifiers
/// strictly grow, and every retained adapter already examined has its
/// identifier represented.
pub proof fn lemma_gpu_selection_invariants(gpus: Seq<GpuAdapter>, n: int)
    requires
        0 <= n <= gpus.len(),
        n <= usize::MAX,
    ensures
        sel_wf(gpus, gpu_selection(gpus, n), n),
        sel_sorted(gpus, gpu_selection(gpus, n)),
        forall|jj: int|
            0 <= jj < n && retained(#[trigger] gpus[jj]) ==> sel_contains_id(
                gpus,
                gpu_selection(gpus, n),
                gpus[jj].device_id,
            ),
    decreases n,
{
    if n > 0 {
        lemma_gpu_selection_invariants(gpus, n - 1);
        let prev = gpu_selection(gpus, n - 1);
        let cur = gpu_selection(gpus, n);
        if retained(gpus[n - 1]) && !sel_contains_id(gpus, prev, gpus[n - 1].device_id) {
            lemma_sel_insert_props(gpus, prev, (n - 1) as usize, n);
        } else {
            if retained(gpus[n - 1]) {
                assert(sel_contains_id(gpus, cur, gpus[n - 1].device_id));
            }
        }
    }
}

/// Deduplication and exclusion, over the whole enumeration: the surviving
/// indices carry strictly growing device identifiers, so no identifier — and
/// in particular no duplicated physical adapter — survives twice; every
/// survivor is a discrete or integrated adapter, so virtual, software and
/// processor adapters are excluded entirely; and every retained adapter's
/// identifier has exactly one survivor carrying it.
pub proof fn lemma_gpu_select_dedups(gpus: Seq<GpuAdapter>)
    requires
        gpus.len() <= usize::MAX,
    ensures
        sel_wf(gpus, gpu_select(gpus), gpus.len() as int),
        sel_sorted(gpus, gpu_select(gpus)),
        forall|jj: int|
            0 <= jj < gpus.len() && retained(#[trigger] gpus[jj]) ==> sel_contains_id(
                gpus,
                gpu_select(gpus),
                gpus[jj].device_id,
            ),
{
    lemma_gpu_selection_invariants(gpus, gpus.len() as int);
}

/// Picks, in identifier order, one index for each device identifier among the
/// discrete and integrated adapters of `gpus`.
pub fn select_gpu_indices(gpus: &Vec<GpuAdapter>) -> (sel: Vec<usize>)
    ensures
        sel@ == gpu_select(gpus@),
        gpus@.len() <= usize::MAX,
{
    let mut sel: Vec<usize> = Vec::new();
    let mut j: usize = 0;
    while j < gpus.len()
        invariant
            j <= gpus@.len(),
            sel@ == gpu_selection(gpus@, j as int),
        decreases gpus@.len() - j,
    {
        proof {
            lemma_gpu_selection_invariants(gpus@, j as int);
        }
        let kind = gpus[j].kind;
        let id = gpus[j].device_id;
        if kind == GpuKind::Discrete || kind == GpuKind::Integrated {
            let mut found = false;
            let mut k: usize = 0;
            while k < sel.len()
                invariant
                    k <= sel@.len(),
                    sel_wf(gpus@, sel@, j as int),
                    j < gpus@.len(),
                    id == gpus@[j as int].device_id,
                    found == (exists|t: int| 0 <= t < k && sel_id(gpus@, sel@, t) == id),
                decreases sel@.len() - k,
            {
                if gpus[sel[k]].device_id == id {
                    found = true;
                    proof {
                        assert(sel_id(gpus@, sel@, k as int) == id);
                    }
                } else {
                    proof {
                        assert(sel_id(gpus@, sel@, k as int) != id);
                    }
                }
                k += 1;
            }
            if !found {
                let mut p: usize = 0;
                while p < sel.len()
                    invariant
                        p <= sel@.len(),
                        sel_wf(gpus@, sel@, j as int),
                        j < gpus@.len(),
                        id == gpus@[j as int].device_id,
                        forall|t: int| 0 <= t < p ==> !(id < #[trigger] sel_id(gpus@, sel@, t)),
                    ensures
                        p <= sel@.len(),
                        forall|t: int| 0 <= t < p ==> !(id < #[trigger] sel_id(gpus@, sel@, t)),
                        p < sel@.len() ==> id < sel_id(gpus@, sel@, p as int),
                    decreases sel@.len() - p,
                {
                    if id < gpus[sel[p]].device_id {
                        break ;
                    }
                    p += 1;
                }
                proof {
                    lemma_sel_insert_at(gpus@, sel@, j, p as int);
                }
                sel.insert(p, j);
            }
        }
        j += 1;
    }
    sel
}

} // verus!
