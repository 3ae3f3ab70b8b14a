use vstd::prelude::*;
use crate::error::ErrorCode;
use crate::geometry::{all_in_sel, tri_has, tri_ok, Geometry, GeomView, Tri};
use crate::sorted::{
    contains_val, filter_ne, insert_sorted, lemma_remove_all_props, lemma_sorted_insert_contains,
    lemma_sorted_insert_sorted, remove_all, sorted_insert, sorted_strict,
};
use crate::v3::V3;

verus! {

// Deletion walks indices downward and removes by swap-remove: the slot
// is overwritten with the last element and the vector shrinks by one.
// `purge_upto` is the one place that layout is written down; every
// deleting operation's contract goes through it.

/// One swap-remove at index `i`.
pub open spec fn swap_remove_seq(s: Seq<Tri>, i: int) -> Seq<Tri> {
    s.update(i, s.last()).drop_last()
}

/// Which triangles a purge removes.
pub enum PurgeWhat {
    /// Triangles with a corner at this vertex index.
    Touching(u32),
    /// Triangles whose three corners are all in this selection.
    Selected(Seq<u32>),
    /// Collapsed triangles: two corners share an index.
    Collapsed,
}

/// Whether the purge removes this triangle.
pub open spec fn purge_hits(w: PurgeWhat, t: Tri) -> bool {
    match w {
        PurgeWhat::Touching(v) => tri_has(t, v),
        PurgeWhat::Selected(sel) => all_in_sel(sel, t),
        PurgeWhat::Collapsed => t.a == t.b || t.b == t.c || t.a == t.c,
    }
}

/// The result of walking indices `i - 1, i - 2, ..., 0` over `s` and
/// swap-removing every triangle the purge hits.
pub open spec fn purge_upto(s: Seq<Tri>, i: nat, w: PurgeWhat) -> Seq<Tri>
    decreases i,
{
    if i == 0 || i > s.len() {
        s
    } else {
        let s1 = if purge_hits(w, s[i - 1]) {
            swap_remove_seq(s, i - 1)
        } else {
            s
        };
        purge_upto(s1, (i - 1) as nat, w)
    }
}

/// After a full purge nothing the purge hits is left, no new
/// triangles appear, and the count never grows.
pub proof fn lemma_purge_props(s: Seq<Tri>, i: nat, w: PurgeWhat)
    requires
        i <= s.len(),
        forall|k: int| i <= k < s.len() ==> !purge_hits(w, #[trigger] s[k]),
    ensures
        purge_upto(s, i, w).len() <= s.len(),
        forall|k: int|
            0 <= k < purge_upto(s, i, w).len() ==> s.contains(#[trigger] purge_upto(s, i, w)[k]),
        forall|k: int|
            0 <= k < purge_upto(s, i, w).len() ==> !purge_hits(
                w,
                #[trigger] purge_upto(s, i, w)[k],
            ),
    decreases i,
{
    if i == 0 {
        assert(forall|k: int| 0 <= k < s.len() ==> s.contains(#[trigger] s[k]));
    } else {
        let s1 = if purge_hits(w, s[i - 1]) {
            swap_remove_seq(s, i - 1)
        } else {
            s
        };
        assert(s1.len() <= s.len());
        assert(forall|k: int| 0 <= k < s1.len() ==> s.contains(#[trigger] s1[k]));
        assert forall|k: int| i - 1 <= k < s1.len() implies !purge_hits(w, #[trigger] s1[k]) by {
            if k == i - 1 {
                if purge_hits(w, s[i - 1]) {
                    assert(s1[k] == s.last());
                } else {
                    assert(s1[k] == s[k]);
                }
            } else {
                assert(s1[k] == s[k]);
            }
        }
        lemma_purge_props(s1, (i - 1) as nat, w);
        assert forall|k: int|
            0 <= k < purge_upto(s, i, w).len() implies s.contains(
            #[trigger] purge_upto(s, i, w)[k],
        ) by {
            assert(s1.contains(purge_upto(s1, (i - 1) as nat, w)[k]));
            let j = choose|j: int| 0 <= j < s1.len() && s1[j] == purge_upto(s, i, w)[k];
        }
    }
}

/// `t` with every index equal to `from` rewritten to `to`.
pub open spec fn rename_tri(t: Tri, from: u32, to: u32) -> Tri {
    Tri {
        a: if t.a == from {
            to
        } else {
            t.a
        },
        b: if t.b == from {
            to
        } else {
            t.b
        },
        c: if t.c == from {
            to
        } else {
            t.c
        },
    }
}

pub open spec fn rename_tris(tris: Seq<Tri>, from: u32, to: u32) -> Seq<Tri> {
    Seq::new(tris.len(), |k: int| rename_tri(tris[k], from, to))
}

/// What `delete_vtx` does: swap-remove the vertex, purge the triangles
/// that touched it, point the survivors at the moved vertex's new slot,
/// and patch the selection the same way.  Deleting the very last vertex
/// moves nothing, so only the deleted index leaves the selection.
pub open spec fn delete_vtx_spec(g: GeomView, vtx: u32) -> GeomView {
    let n = g.vtcs.len();
    let last = (n - 1) as u32;
    GeomView {
        vtcs: g.vtcs.update(vtx as int, g.vtcs.last()).drop_last(),
        tris: rename_tris(purge_upto(g.tris, g.tris.len(), PurgeWhat::Touching(vtx)), last, vtx),
        sel: if vtx == last {
            remove_all(g.sel, vtx)
        } else if g.sel.contains(last) {
            sorted_insert(remove_all(g.sel, last), vtx)
        } else {
            remove_all(g.sel, vtx)
        },
    }
}

/// `delete_vtx` applied to each entry of `s`, last (highest) first.
pub open spec fn delete_seq_desc(g: GeomView, s: Seq<u32>) -> GeomView
    decreases s.len(),
{
    if s.len() == 0 {
        g
    } else {
        delete_seq_desc(delete_vtx_spec(g, s.last()), s.drop_last())
    }
}

/// In a strictly ascending sequence indices grow at least as fast as
/// positions.
pub proof fn lemma_sorted_gap(s: Seq<u32>, i: int, j: int)
    requires
        sorted_strict(s),
        0 <= i <= j < s.len(),
    ensures
        s[j] >= s[i] + (j - i),
    decreases j - i,
{
    if i < j {
        lemma_sorted_gap(s, i, j - 1);
        assert(s[j - 1] < s[j]);
    }
}

impl Geometry {
    /// Swap-removes one triangle; the selection indexes vertices and is
    /// not touched.
    pub fn delete_tri(&mut self, tri: u32)
        requires
            old(self)@.wf(),
            tri < old(self)@.tris.len(),
        ensures
            final(self)@.vtcs == old(self)@.vtcs,
            final(self)@.sel == old(self)@.sel,
            final(self)@.tris == swap_remove_seq(old(self)@.tris, tri as int),
            final(self)@.wf(),
    {
        self.tris.swap_remove(tri as usize);
    }

    /// Deletes, walking triangle indices downward, every triangle whose
    /// three corners are all selected.
    pub fn delete_tris(&mut self)
        requires
            old(self)@.wf(),
        ensures
            final(self)@.vtcs == old(self)@.vtcs,
            final(self)@.sel == old(self)@.sel,
            final(self)@.tris == purge_upto(
                old(self)@.tris,
                old(self)@.tris.len(),
                PurgeWhat::Selected(old(self)@.sel),
            ),
            final(self)@.wf(),
    {
        let ghost w = PurgeWhat::Selected(old(self)@.sel);
        let mut j: usize = self.tris.len();
        while j > 0
            invariant
                w == PurgeWhat::Selected(old(self)@.sel),
                self@.vtcs == old(self)@.vtcs,
                self@.sel == old(self)@.sel,
                j <= self@.tris.len(),
                purge_upto(old(self)@.tris, old(self)@.tris.len(), w) == purge_upto(
                    self@.tris,
                    j as nat,
                    w,
                ),
                self@.wf(),
            decreases j,
    {
            j -= 1;
            let t = self.tris[j];
            let ghost pre = self@.tris;
            proof {
                assert(purge_hits(w, t) == all_in_sel(old(self)@.sel, t));
                if purge_hits(w, t) {
                    assert(purge_upto(pre, (j + 1) as nat, w) == purge_upto(
                        swap_remove_seq(pre, j as int),
                        j as nat,
                        w,
                    ));
                } else {
                    assert(purge_upto(pre, (j + 1) as nat, w) == purge_upto(
                        pre,
                        j as nat,
                        w,
                    ));
                }
            }
            if contains_val(&self.selection, t.a) && contains_val(&self.selection, t.b)
                && contains_val(&self.selection, t.c) {
                self.tris.swap_remove(j);
            }
        }
    }

    /// Deletes one vertex by swap-remove: triangles touching it go,
    /// surviving triangles and the selection follow the vertex that was
    /// moved into its slot.
    pub fn delete_vtx(&mut self, vtx: u32)
        requires
            old(self)@.wf(),
            vtx < old(self)@.vtcs.len(),
        ensures
            final(self)@ == delete_vtx_spec(old(self)@, vtx),
            final(self)@.wf(),
            final(self)@.vtcs.len() == old(self)@.vtcs.len() - 1,
    {
        let ghost g0 = self@;
        let ghost w = PurgeWhat::Touching(vtx);
        let n = self.vtcs.len();
        let last: u32 = (n - 1) as u32;
        self.vtcs.swap_remove(vtx as usize);

        // purge the triangles that contained the vertex
        let mut j: usize = self.tris.len();
        while j > 0
            invariant
                w == PurgeWhat::Touching(vtx),
                g0 == old(self)@,
                vtx < g0.vtcs.len(),
                self@.vtcs == g0.vtcs.update(vtx as int, g0.vtcs.last()).drop_last(),
                self@.sel == g0.sel,
                j <= self@.tris.len(),
                purge_upto(g0.tris, g0.tris.len(), w) == purge_upto(self@.tris, j as nat, w),
                self@.tris.len() <= g0.tris.len(),
                forall|k: int|
                    0 <= k < self@.tris.len() ==> tri_ok(
                        #[trigger] self@.tris[k],
                        g0.vtcs.len() as int,
                    ),
            decreases j,
        {
            j -= 1;
            let t = self.tris[j];
            let ghost pre = self@.tris;
            proof {
                assert(purge_hits(w, t) == tri_has(t, vtx));
                if purge_hits(w, t) {
                    assert(purge_upto(pre, (j + 1) as nat, w) == purge_upto(
                        swap_remove_seq(pre, j as int),
                        j as nat,
                        w,
                    ));
                } else {
                    assert(purge_upto(pre, (j + 1) as nat, w) == purge_upto(
                        pre,
                        j as nat,
                        w,
                    ));
                }
            }
            if t.a == vtx || t.b == vtx || t.c == vtx {
                self.tris.swap_remove(j);
            }
        }
        proof {
            lemma_purge_props(g0.tris, g0.tris.len(), w);
        }

        // the vertex moved down from the end keeps its triangles
        let ghost purged = self@.tris;
        let m = self.tris.len();
        let mut k: usize = 0;
        while k < m
            invariant
                self@.vtcs == g0.vtcs.update(vtx as int, g0.vtcs.last()).drop_last(),
                self@.sel == g0.sel,
                m == self@.tris.len(),
                purged.len() == m,
                0 <= k <= m,
                forall|i: int| k <= i < m ==> self@.tris[i] == purged[i],
                forall|i: int| 0 <= i < k ==> self@.tris[i] == rename_tri(purged[i], last, vtx),
            decreases m - k,
        {
            let t = self.tris[k];
            let t2 = Tri {
                a: if t.a == last {
                    vtx
                } else {
                    t.a
                },
                b: if t.b == last {
                    vtx
                } else {
                    t.b
                },
                c: if t.c == last {
                    vtx
                } else {
                    t.c
                },
            };
            self.tris.set(k, t2);
            k += 1;
        }
        proof {
            assert(self@.tris =~= rename_tris(purged, last, vtx));
        }

        // the deleted index leaves the selection; the moved vertex keeps
        // its membership under its new index
        if vtx == last {
            let sel2 = filter_ne(&self.selection, vtx);
            self.selection = sel2;
        } else if contains_val(&self.selection, last) {
            let without = filter_ne(&self.selection, last);
            let sel2 = insert_sorted(&without, vtx);
            self.selection = sel2;
        } else {
            let sel2 = filter_ne(&self.selection, vtx);
            self.selection = sel2;
        }

        proof {
            lemma_delete_vtx_wf(g0, vtx);
        }
    }

    /// Deletes every selected vertex, taking a snapshot of the
    /// selection and walking it downward.
    pub fn delete_vtcs(&mut self)
        requires
            old(self)@.wf(),
        ensures
            final(self)@ == delete_seq_desc(old(self)@, old(self)@.sel),
            final(self)@.wf(),
            final(self)@.vtcs.len() == old(self)@.vtcs.len() - old(self)@.sel.len(),
    {
        let snap = self.selection.clone();
        let ghost s = snap@;
        let m = snap.len();
        let mut k: usize = m;
        proof {
            assert(s.take(m as int) =~= s);
        }
        while k > 0
            invariant
                s == old(self)@.sel,
                snap@ == s,
                m == s.len(),
                0 <= k <= m,
                sorted_strict(s),
                forall|i: int| 0 <= i < m ==> #[trigger] s[i] < old(self)@.vtcs.len(),
                self@.vtcs.len() == old(self)@.vtcs.len() - (m - k),
                delete_seq_desc(old(self)@, s) == delete_seq_desc(self@, s.take(k as int)),
                self@.wf(),
            decreases k,
        {
            k -= 1;
            proof {
                let t = s.take(k as int + 1);
                assert(t.last() == s[k as int]);
                assert(t.drop_last() =~= s.take(k as int));
                if k < m - 1 {
                    lemma_sorted_gap(s, k as int, m - 1);
                }
            }
            self.delete_vtx(snap[k]);
        }
        proof {
            assert(s.take(0) =~= Seq::<u32>::empty());
        }
    }
}

/// The full `delete_vtx` state change preserves well-formedness.
pub proof fn lemma_delete_vtx_wf(g: GeomView, vtx: u32)
    requires
        g.wf(),
        vtx < g.vtcs.len(),
    ensures
        delete_vtx_spec(g, vtx).wf(),
        delete_vtx_spec(g, vtx).vtcs.len() == g.vtcs.len() - 1,
{
    let n = g.vtcs.len();
    let last = (n - 1) as u32;
    let r = delete_vtx_spec(g, vtx);
    let purged = purge_upto(g.tris, g.tris.len(), PurgeWhat::Touching(vtx));
    lemma_purge_props(g.tris, g.tris.len(), PurgeWhat::Touching(vtx));
    assert forall|k: int| 0 <= k < r.tris.len() implies tri_ok(#[trigger] r.tris[k], n - 1) by {
        assert(g.tris.contains(purged[k]));
        let j = choose|j: int| 0 <= j < g.tris.len() && g.tris[j] == purged[k];
        assert(tri_ok(g.tris[j], n as int));
        assert(!tri_has(purged[k], vtx));
        assert(r.tris[k] == rename_tri(purged[k], last, vtx));
    }
    lemma_remove_all_props(g.sel, vtx);
    lemma_remove_all_props(g.sel, last);
    if vtx == last {
    } else if g.sel.contains(last) {
        let without = remove_all(g.sel, last);
        lemma_sorted_insert_sorted(without, vtx);
        assert forall|k: int| 0 <= k < r.sel.len() implies #[trigger] r.sel[k] < n - 1 by {
            assert(r.sel.contains(r.sel[k]));
            lemma_sorted_insert_contains(without, vtx, r.sel[k]);
            if r.sel[k] == vtx {
            } else {
                assert(without.contains(r.sel[k]));
                assert(g.sel.contains(r.sel[k]) && r.sel[k] != last);
            }
        }
    } else {
        assert forall|k: int| 0 <= k < r.sel.len() implies #[trigger] r.sel[k] < n - 1 by {
            assert(r.sel.contains(r.sel[k]));
            assert(g.sel.contains(r.sel[k]) && r.sel[k] != vtx);
            if r.sel[k] == last {
                assert(g.sel.contains(last));
                assert(false);
            }
        }
    }
}

/// `x` with every selected index rewritten to `t`.
pub open spec fn rename_sel_tri(x: Tri, sel: Seq<u32>, t: u32) -> Tri {
    Tri {
        a: if sel.contains(x.a) {
            t
        } else {
            x.a
        },
        b: if sel.contains(x.b) {
            t
        } else {
            x.b
        },
        c: if sel.contains(x.c) {
            t
        } else {
            x.c
        },
    }
}

pub open spec fn rename_sel_tris(tris: Seq<Tri>, sel: Seq<u32>, t: u32) -> Seq<Tri> {
    Seq::new(tris.len(), |k: int| rename_sel_tri(tris[k], sel, t))
}

/// What `merge` does: the smallest selected vertex becomes the merge
/// point and moves to `location`; triangles follow the other selected
/// vertices onto it; those vertices are then deleted, collapsed
/// triangles are swept out, and the merge point alone stays selected.
pub open spec fn merge_spec(g: GeomView, location: V3) -> GeomView {
    if g.sel.len() == 0 {
        g
    } else {
        let t = g.sel[0];
        let rest = g.sel.drop_first();
        let g1 = GeomView {
            vtcs: g.vtcs.update(t as int, location),
            tris: rename_sel_tris(g.tris, rest, t),
            sel: rest,
        };
        let g2 = delete_seq_desc(g1, rest);
        GeomView {
            vtcs: g2.vtcs,
            tris: purge_upto(g2.tris, g2.tris.len(), PurgeWhat::Collapsed),
            sel: seq![t],
        }
    }
}

/// Some triangle references the vertex.
pub open spec fn vtx_used(tris: Seq<Tri>, v: u32) -> bool {
    exists|k: int| 0 <= k < tris.len() && tri_has(#[trigger] tris[k], v)
}

/// What `delete_stray_vtcs` does: walk vertex indices downward and
/// delete each one no current triangle references.
pub open spec fn delete_stray_upto(g: GeomView, i: nat) -> GeomView
    decreases i,
{
    if i == 0 {
        g
    } else {
        let g1 = if !vtx_used(g.tris, (i - 1) as u32) {
            delete_vtx_spec(g, (i - 1) as u32)
        } else {
            g
        };
        delete_stray_upto(g1, (i - 1) as nat)
    }
}

impl Geometry {
    /// Whether any triangle references vertex `v`.
    pub fn is_vtx_used(&self, v: u32) -> (r: bool)
        ensures
            r == vtx_used(self@.tris, v),
    {
        let n = self.tris.len();
        let mut k: usize = 0;
        while k < n
            invariant
                n == self@.tris.len(),
                0 <= k <= n,
                forall|i: int| 0 <= i < k ==> !tri_has(#[trigger] self@.tris[i], v),
            decreases n - k,
        {
            let t = self.tris[k];
            if t.a == v || t.b == v || t.c == v {
                return true;
            }
            k += 1;
        }
        false
    }

    /// Deletes every vertex that no triangle references, walking
    /// indices downward.
    pub fn delete_stray_vtcs(&mut self)
        requires
            old(self)@.wf(),
        ensures
            final(self)@ == delete_stray_upto(old(self)@, old(self)@.vtcs.len()),
            final(self)@.wf(),
    {
        let n = self.vtcs.len();
        let mut i: usize = n;
        while i > 0
            invariant
                0 <= i <= self@.vtcs.len(),
                delete_stray_upto(old(self)@, n as nat) == delete_stray_upto(self@, i as nat),
                self@.wf(),
            decreases i,
        {
            i -= 1;
            let ghost pre = self@;
            if !self.is_vtx_used(i as u32) {
                self.delete_vtx(i as u32);
            }
            proof {
                if !vtx_used(pre.tris, i as u32) {
                    assert(delete_stray_upto(pre, (i + 1) as nat) == delete_stray_upto(
                        delete_vtx_spec(pre, i as u32),
                        i as nat,
                    ));
                } else {
                    assert(delete_stray_upto(pre, (i + 1) as nat) == delete_stray_upto(
                        pre,
                        i as nat,
                    ));
                }
            }
        }
    }

    /// Merges every selected vertex into the smallest selected index,
    /// which moves to `location`; an empty selection is a no-op.
    pub fn merge(&mut self, location: V3)
        requires
            old(self)@.wf(),
        ensures
            final(self)@ == merge_spec(old(self)@, location),
            final(self)@.wf(),
    {
        let ghost g0 = self@;
        if self.selection.len() == 0 {
            return;
        }
        let m = self.selection.len();
        let t = self.selection[0];
        self.vtcs.set(t as usize, location);
        self.selection.remove(0);
        proof {
            assert(self@.sel =~= g0.sel.drop_first());
        }
        let ghost rest = g0.sel.drop_first();
        let ghost renamed = rename_sel_tris(g0.tris, rest, t);

        // point every triangle's selected corners at the merge vertex
        let nt = self.tris.len();
        let mut k: usize = 0;
        while k < nt
            invariant
                g0.wf(),
                t == g0.sel[0],
                rest == g0.sel.drop_first(),
                renamed == rename_sel_tris(g0.tris, rest, t),
                self@.vtcs == g0.vtcs.update(t as int, location),
                self@.sel == rest,
                nt == self@.tris.len(),
                nt == g0.tris.len(),
                0 <= k <= nt,
                forall|i: int| k <= i < nt ==> self@.tris[i] == g0.tris[i],
                forall|i: int| 0 <= i < k ==> self@.tris[i] == renamed[i],
            decreases nt - k,
        {
            let x = self.tris[k];
            let x2 = Tri {
                a: if contains_val(&self.selection, x.a) {
                    t
                } else {
                    x.a
                },
                b: if contains_val(&self.selection, x.b) {
                    t
                } else {
                    x.b
                },
                c: if contains_val(&self.selection, x.c) {
                    t
                } else {
                    x.c
                },
            };
            self.tris.set(k, x2);
            k += 1;
        }
        proof {
            assert(self@.tris =~= renamed);
            // the intermediate state is well-formed
            lemma_sorted_tail(g0.sel);
            assert forall|i: int| 0 <= i < rest.len() implies #[trigger] rest[i]
                < self@.vtcs.len() by {
                assert(rest[i] == g0.sel[i + 1]);
            }
            assert forall|i: int| 0 <= i < nt implies tri_ok(
                #[trigger] self@.tris[i],
                self@.vtcs.len() as int,
            ) by {
                assert(self@.tris[i] == rename_sel_tri(g0.tris[i], rest, t));
                assert(tri_ok(g0.tris[i], g0.vtcs.len() as int));
                assert(t < g0.vtcs.len());
            }
        }
        let ghost g1 = self@;
        self.delete_vtcs();
        proof {
            assert(g1.sel == rest);
        }

        // sweep out the triangles the merge collapsed
        let ghost w = PurgeWhat::Collapsed;
        let ghost g2 = self@;
        let mut j: usize = self.tris.len();
        while j > 0
            invariant
                w == PurgeWhat::Collapsed,
                self@.vtcs == g2.vtcs,
                self@.sel == g2.sel,
                j <= self@.tris.len(),
                purge_upto(g2.tris, g2.tris.len(), w) == purge_upto(self@.tris, j as nat, w),
                self@.tris.len() <= g2.tris.len(),
                forall|i: int|
                    0 <= i < self@.tris.len() ==> tri_ok(
                        #[trigger] self@.tris[i],
                        g2.vtcs.len() as int,
                    ),
                g2.wf(),
            decreases j,
        {
            j -= 1;
            let x = self.tris[j];
            let ghost pre = self@.tris;
            proof {
                if purge_hits(w, x) {
                    assert(purge_upto(pre, (j + 1) as nat, w) == purge_upto(
                        swap_remove_seq(pre, j as int),
                        j as nat,
                        w,
                    ));
                } else {
                    assert(purge_upto(pre, (j + 1) as nat, w) == purge_upto(pre, j as nat, w));
                }
            }
            if x.a == x.b || x.b == x.c || x.a == x.c {
                self.tris.swap_remove(j);
            }
        }

        // the merge vertex alone stays selected
        let mut sel2: Vec<u32> = Vec::new();
        sel2.push(t);
        self.selection = sel2;
        proof {
            assert(self@.sel =~= seq![t]);
            // the merge vertex survives the deletions: it is below every
            // deleted index
            if rest.len() > 0 {
                lemma_sorted_gap(g0.sel, 0, g0.sel.len() - 1);
            }
            assert(g2.vtcs.len() == g1.vtcs.len() - rest.len());
            assert(t < g2.vtcs.len());
        }
    }
}

/// A strictly ascending sequence stays so without its first entry.
proof fn lemma_sorted_tail(s: Seq<u32>)
    requires
        sorted_strict(s),
        s.len() > 0,
    ensures
        sorted_strict(s.drop_first()),
{
    let tail = s.drop_first();
    assert forall|i: int, j: int| 0 <= i < j < tail.len() implies tail[i] < tail[j] by {
        assert(tail[i] == s[i + 1] && tail[j] == s[j + 1]);
    }
}

} // verus!
