use vstd::prelude::*;
use crate::editing::delete_vtx_spec;
use crate::geometry::{all_in_sel, flipped, rev_tri, select_spec, GeomView, Tri};
use crate::sorted::{lemma_remove_all_props, lemma_sorted_insert_contains, remove_all};

verus! {

// The laws that hold across the editing operations, stated over the
// geometry model and proved once; the operations' own contracts carry
// the per-call facts these build on.  Index integrity itself — every
// triangle and selection index inside the vertex array — is the
// well-formedness each public operation's contract ends with.

/// Selecting is idempotent: selecting with the same flags a second time
/// changes nothing, since selecting never moves a vertex.
pub proof fn lemma_select_idempotent(g: GeomView, flags: Seq<bool>)
    ensures
        select_spec(select_spec(g, flags), flags) == select_spec(g, flags),
{
}

/// Reversing the selected windings twice restores every triangle.
pub proof fn lemma_flip_involution(tris: Seq<Tri>, sel: Seq<u32>)
    ensures
        flipped(flipped(tris, sel), sel) == tris,
{
    assert forall|k: int| 0 <= k < tris.len() implies flipped(flipped(tris, sel), sel)[k]
        == tris[k] by {
        let t = tris[k];
        assert(rev_tri(rev_tri(t)) == t);
        if all_in_sel(sel, t) {
            assert(all_in_sel(sel, rev_tri(t)));
        }
    }
    assert(flipped(flipped(tris, sel), sel) =~= tris);
}

/// After deleting vertex `i`, the stale top index is selected nowhere;
/// the vertex moved down into slot `i` keeps the membership it had
/// under its old top index; and every other vertex keeps its own.
pub proof fn lemma_selection_after_delete(g: GeomView, i: u32)
    requires
        g.wf(),
        i < g.vtcs.len(),
    ensures
        ({
            let last = (g.vtcs.len() - 1) as u32;
            let sel2 = delete_vtx_spec(g, i).sel;
            &&& !sel2.contains(last)
            &&& i != last ==> (sel2.contains(i) <==> g.sel.contains(last))
            &&& i == last ==> !sel2.contains(i)
            &&& forall|j: u32|
                j < last && j != i ==> (#[trigger] sel2.contains(j) <==> g.sel.contains(j))
        }),
{
    let last = (g.vtcs.len() - 1) as u32;
    let sel2 = delete_vtx_spec(g, i).sel;
    lemma_remove_all_props(g.sel, i);
    lemma_remove_all_props(g.sel, last);
    if i == last {
    } else if g.sel.contains(last) {
        let without = remove_all(g.sel, last);
        assert forall|y: u32| #[trigger] sel2.contains(y) <==> (without.contains(y) || y
            == i) by {
            lemma_sorted_insert_contains(without, i, y);
        }
    } else {
    }
}

} // verus!
