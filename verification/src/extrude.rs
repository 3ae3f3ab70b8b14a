use vstd::prelude::*;
use crate::geometry::{all_in_sel, tri_ok, Geometry, GeomView, Tri};
use crate::sorted::{contains_val, index_of_val, sorted_strict};
use crate::v3::V3;

verus! {

// `copy` and `extrude` both duplicate the selected vertices and build
// triangles over the copies.  The k-th selected vertex (in ascending
// selection order) gets the new index `n + k`, written `sel_map` below;
// extrude additionally classifies the edges of the selected triangles
// to find the boundary, and bridges each boundary edge with two side
// walls.

/// The new index of the copied counterpart of selected vertex `v`.
pub open spec fn sel_map(sel: Seq<u32>, n: nat, v: u32) -> u32 {
    (n + sel.index_of(v)) as u32
}

/// The triangle over the copied counterparts.
pub open spec fn map_tri(t: Tri, sel: Seq<u32>, n: nat) -> Tri {
    Tri { a: sel_map(sel, n, t.a), b: sel_map(sel, n, t.b), c: sel_map(sel, n, t.c) }
}

/// The ascending run `n, n + 1, ..., n + m - 1`.
pub open spec fn index_run(n: nat, m: nat) -> Seq<u32> {
    Seq::new(m, |k: int| (n + k) as u32)
}

pub proof fn lemma_index_of_present(s: Seq<u32>, v: u32)
    requires
        s.contains(v),
    ensures
        0 <= s.index_of(v) < s.len(),
        s[s.index_of(v)] == v,
{
    let i = choose|i: int| 0 <= i < s.len() && s[i] == v;
    assert(s[i] == v);
    assert(exists|j: int| 0 <= j < s.len() && s[j] == v);
}

/// In a strictly ascending sequence the index of a value is unique, so
/// a linear scan finds `index_of`.
fn sel_map_exec(sel: &Vec<u32>, n: usize, v: u32) -> (r: u32)
    requires
        sorted_strict(sel@),
        sel@.contains(v),
        n + sel@.len() < 0x1_0000_0000,
    ensures
        r == sel_map(sel@, n as nat, v),
{
    let i = index_of_val(sel, v);
    proof {
        lemma_index_of_present(sel@, v);
        let j = sel@.index_of(v);
        if i < j {
            assert(sel@[i as int] < sel@[j]);
        } else if j < i {
            assert(sel@[j] < sel@[i as int]);
        }
    }
    (n + i) as u32
}

/// The ascending run `n..n + m` as a vector.
fn run_ascending(n: usize, m: usize) -> (r: Vec<u32>)
    requires
        n + m < 0x1_0000_0000,
    ensures
        r@ == index_run(n as nat, m as nat),
{
    let mut r: Vec<u32> = Vec::new();
    let mut k: usize = 0;
    while k < m
        invariant
            n + m < 0x1_0000_0000,
            0 <= k <= m,
            r@.len() == k,
            forall|j: int| 0 <= j < k ==> r@[j] == (n + j) as u32,
        decreases m - k,
    {
        r.push((n + k) as u32);
        k += 1;
    }
    proof {
        assert(r@ =~= index_run(n as nat, m as nat));
    }
    r
}

/// The copies `copy` appends: one triangle over the counterparts for
/// each triangle whose corners are all selected, in triangle order.
pub open spec fn copied_tris(tris: Seq<Tri>, sel: Seq<u32>, n: nat) -> Seq<Tri>
    decreases tris.len(),
{
    if tris.len() == 0 {
        Seq::empty()
    } else {
        copied_tris(tris.drop_last(), sel, n) + (if all_in_sel(sel, tris.last()) {
            seq![map_tri(tris.last(), sel, n)]
        } else {
            Seq::empty()
        })
    }
}

pub proof fn lemma_copied_tris_props(tris: Seq<Tri>, sel: Seq<u32>, n: nat)
    requires
        forall|i: int| 0 <= i < sel.len() ==> #[trigger] sel[i] < n,
    ensures
        copied_tris(tris, sel, n).len() <= tris.len(),
        forall|k: int|
            0 <= k < copied_tris(tris, sel, n).len() ==> tri_ok(
                #[trigger] copied_tris(tris, sel, n)[k],
                (n + sel.len()) as int,
            ),
    decreases tris.len(),
{
    if tris.len() == 0 {
    } else {
        let pre = tris.drop_last();
        lemma_copied_tris_props(pre, sel, n);
        if all_in_sel(sel, tris.last()) {
            lemma_index_of_present(sel, tris.last().a);
            lemma_index_of_present(sel, tris.last().b);
            lemma_index_of_present(sel, tris.last().c);
        }
    }
}

/// What `copy` does: duplicate the selected vertices in place, copy the
/// all-selected triangles onto the duplicates, and select the
/// duplicates.
pub open spec fn copy_spec(g: GeomView) -> GeomView {
    let n = g.vtcs.len();
    let m = g.sel.len();
    GeomView {
        vtcs: g.vtcs + Seq::new(m, |k: int| g.vtcs[g.sel[k] as int]),
        tris: g.tris + copied_tris(g.tris, g.sel, n),
        sel: index_run(n, m),
    }
}

/// One record of extrude's edge classification: an ordered edge and
/// whether it is still believed to lie on the selection's boundary.
#[derive(Debug, Clone, Copy, PartialEq, Eq, Structural)]
pub struct EdgeRec {
    pub e0: u32,
    pub e1: u32,
    pub boundary: bool,
}

/// The record matches the edge in either direction.
pub open spec fn edge_matches(e: EdgeRec, e0: u32, e1: u32) -> bool {
    (e.e0 == e0 && e.e1 == e1) || (e.e0 == e1 && e.e1 == e0)
}

/// The first record matching the edge, or `-1`.
pub open spec fn edge_find(edges: Seq<EdgeRec>, e0: u32, e1: u32) -> int
    decreases edges.len(),
{
    if edges.len() == 0 {
        -1
    } else if edge_matches(edges[0], e0, e1) {
        0
    } else {
        let r = edge_find(edges.drop_first(), e0, e1);
        if r < 0 {
            -1
        } else {
            r + 1
        }
    }
}

pub proof fn lemma_edge_find(edges: Seq<EdgeRec>, e0: u32, e1: u32)
    ensures
        edge_find(edges, e0, e1) == -1 ==> forall|k: int|
            0 <= k < edges.len() ==> !edge_matches(#[trigger] edges[k], e0, e1),
        edge_find(edges, e0, e1) != -1 ==> {
            let r = edge_find(edges, e0, e1);
            &&& 0 <= r < edges.len()
            &&& edge_matches(edges[r], e0, e1)
            &&& forall|k: int| 0 <= k < r ==> !edge_matches(#[trigger] edges[k], e0, e1)
        },
    decreases edges.len(),
{
    if edges.len() == 0 {
    } else if edge_matches(edges[0], e0, e1) {
    } else {
        let t = edges.drop_first();
        lemma_edge_find(t, e0, e1);
        assert(forall|k: int| 0 <= k < t.len() ==> t[k] == #[trigger] edges[k + 1]);
        let r = edge_find(t, e0, e1);
        if r < 0 {
            assert forall|k: int| 0 <= k < edges.len() implies !edge_matches(
                #[trigger] edges[k],
                e0,
                e1,
            ) by {
                if k > 0 {
                    assert(edges[k] == t[k - 1]);
                }
            }
        } else {
            assert(edges[r + 1] == t[r]);
            assert forall|k: int| 0 <= k < r + 1 implies !edge_matches(
                #[trigger] edges[k],
                e0,
                e1,
            ) by {
                if k > 0 {
                    assert(edges[k] == t[k - 1]);
                }
            }
        }
    }
}

/// One step of the classification: a new edge enters believed boundary;
/// seeing it again (in either direction) clears the belief.
pub open spec fn edge_mark(edges: Seq<EdgeRec>, e0: u32, e1: u32) -> Seq<EdgeRec> {
    let i = edge_find(edges, e0, e1);
    if i >= 0 {
        edges.update(i, EdgeRec { e0: edges[i].e0, e1: edges[i].e1, boundary: false })
    } else {
        edges.push(EdgeRec { e0, e1, boundary: true })
    }
}

/// The three ordered edges of a triangle, classified in order.
pub open spec fn tri_edge_marks(edges: Seq<EdgeRec>, t: Tri) -> Seq<EdgeRec> {
    edge_mark(edge_mark(edge_mark(edges, t.a, t.b), t.b, t.c), t.c, t.a)
}

/// Applies `edge_mark` to a vector in place.
fn mark_edge(edges: &mut Vec<EdgeRec>, e0: u32, e1: u32)
    ensures
        final(edges)@ == edge_mark(old(edges)@, e0, e1),
{
    proof {
        lemma_edge_find(old(edges)@, e0, e1);
    }
    let n = edges.len();
    let mut i: usize = 0;
    while i < n
        invariant
            edges@ == old(edges)@,
            n == edges@.len(),
            0 <= i <= n,
            forall|k: int| 0 <= k < i ==> !edge_matches(#[trigger] edges@[k], e0, e1),
        decreases n - i,
    {
        let e = edges[i];
        if (e.e0 == e0 && e.e1 == e1) || (e.e0 == e1 && e.e1 == e0) {
            proof {
                lemma_edge_find(edges@, e0, e1);
                let r = edge_find(edges@, e0, e1);
                if r == -1 {
                    assert(false);
                } else if r < i {
                    assert(!edge_matches(edges@[r], e0, e1));
                } else if r > i {
                    assert(!edge_matches(edges@[i as int], e0, e1));
                }
            }
            edges.set(i, EdgeRec { e0: e.e0, e1: e.e1, boundary: false });
            return;
        }
        i += 1;
    }
    proof {
        lemma_edge_find(edges@, e0, e1);
        let r = edge_find(edges@, e0, e1);
        if r != -1 {
            assert(!edge_matches(edges@[r], e0, e1));
        }
    }
    edges.push(EdgeRec { e0, e1, boundary: true });
}

/// The state after extrude's first pass over the triangles: the tris
/// (moved or copied) and the classified edges.
pub struct EPass {
    pub tris: Seq<Tri>,
    pub edges: Seq<EdgeRec>,
}

/// Extrude's first pass over triangle indices `0, 1, ..., k - 1`.  A
/// triangle with all corners selected contributes its three edges; then,
/// if the whole geometry is selected, it is rewound in place and its
/// mapped copy appended, else it is replaced by its mapped image.
pub open spec fn extrude_pass(tris0: Seq<Tri>, sel: Seq<u32>, n: nat, all: bool, k: nat) -> EPass
    decreases k,
{
    if k == 0 || k > tris0.len() {
        EPass { tris: tris0, edges: Seq::empty() }
    } else {
        let p = extrude_pass(tris0, sel, n, all, (k - 1) as nat);
        let t = tris0[k - 1];
        if all_in_sel(sel, t) {
            let e2 = tri_edge_marks(p.edges, t);
            if all {
                EPass {
                    tris: p.tris.update(k - 1, Tri { a: t.b, b: t.a, c: t.c }).push(
                        map_tri(t, sel, n),
                    ),
                    edges: e2,
                }
            } else {
                EPass { tris: p.tris.update(k - 1, map_tri(t, sel, n)), edges: e2 }
            }
        } else {
            p
        }
    }
}

/// The side walls: two triangles over each edge still believed
/// boundary, in classification order.
pub open spec fn side_tris(edges: Seq<EdgeRec>, sel: Seq<u32>, n: nat) -> Seq<Tri>
    decreases edges.len(),
{
    if edges.len() == 0 {
        Seq::empty()
    } else {
        let e = edges.last();
        side_tris(edges.drop_last(), sel, n) + (if e.boundary {
            seq![
                Tri { a: e.e0, b: e.e1, c: sel_map(sel, n, e.e1) },
                Tri { a: e.e0, b: sel_map(sel, n, e.e1), c: sel_map(sel, n, e.e0) },
            ]
        } else {
            Seq::empty()
        })
    }
}

/// What `extrude` does, given the displaced copies of the selected
/// vertices in selection order.
pub open spec fn extrude_spec(g: GeomView, displaced: Seq<V3>) -> GeomView {
    let n = g.vtcs.len();
    let m = g.sel.len();
    let all = m == n;
    let p = extrude_pass(g.tris, g.sel, n, all, g.tris.len());
    GeomView {
        vtcs: g.vtcs + displaced,
        tris: p.tris + side_tris(p.edges, g.sel, n),
        sel: index_run(n, m),
    }
}

pub proof fn lemma_edge_mark_props(edges: Seq<EdgeRec>, e0: u32, e1: u32)
    ensures
        edges.len() <= edge_mark(edges, e0, e1).len() <= edges.len() + 1,
        forall|k: int|
            0 <= k < edge_mark(edges, e0, e1).len() ==> {
                let r = #[trigger] edge_mark(edges, e0, e1)[k];
                if k < edges.len() {
                    r.e0 == edges[k].e0 && r.e1 == edges[k].e1
                } else {
                    r.e0 == e0 && r.e1 == e1
                }
            },
{
    lemma_edge_find(edges, e0, e1);
}

pub proof fn lemma_extrude_pass_props(tris0: Seq<Tri>, sel: Seq<u32>, n: nat, all: bool, k: nat)
    requires
        k <= tris0.len(),
        forall|i: int| 0 <= i < sel.len() ==> #[trigger] sel[i] < n,
        forall|i: int| 0 <= i < tris0.len() ==> tri_ok(#[trigger] tris0[i], n as int),
    ensures
        ({
            let p = extrude_pass(tris0, sel, n, all, k);
            &&& tris0.len() <= p.tris.len() <= tris0.len() + k
            &&& forall|i: int| k <= i < tris0.len() ==> #[trigger] p.tris[i] == tris0[i]
            &&& forall|i: int|
                0 <= i < p.tris.len() ==> tri_ok(#[trigger] p.tris[i], (n + sel.len()) as int)
            &&& p.edges.len() <= 3 * k
            &&& forall|i: int|
                0 <= i < p.edges.len() ==> sel.contains(#[trigger] p.edges[i].e0) && sel.contains(
                    p.edges[i].e1,
                )
        }),
    decreases k,
{
    if k == 0 {
    } else {
        lemma_extrude_pass_props(tris0, sel, n, all, (k - 1) as nat);
        let p = extrude_pass(tris0, sel, n, all, (k - 1) as nat);
        let t = tris0[k - 1];
        if all_in_sel(sel, t) {
            lemma_index_of_present(sel, t.a);
            lemma_index_of_present(sel, t.b);
            lemma_index_of_present(sel, t.c);
            let ea = edge_mark(p.edges, t.a, t.b);
            let eb = edge_mark(ea, t.b, t.c);
            let ec = edge_mark(eb, t.c, t.a);
            lemma_edge_mark_props(p.edges, t.a, t.b);
            lemma_edge_mark_props(ea, t.b, t.c);
            lemma_edge_mark_props(eb, t.c, t.a);
            assert forall|i: int| 0 <= i < ec.len() implies sel.contains(#[trigger] ec[i].e0)
                && sel.contains(ec[i].e1) by {}
        }
    }
}

pub proof fn lemma_side_tris_props(edges: Seq<EdgeRec>, sel: Seq<u32>, n: nat)
    requires
        forall|i: int| 0 <= i < sel.len() ==> #[trigger] sel[i] < n,
        forall|i: int|
            0 <= i < edges.len() ==> sel.contains(#[trigger] edges[i].e0) && sel.contains(
                edges[i].e1,
            ),
    ensures
        side_tris(edges, sel, n).len() <= 2 * edges.len(),
        forall|k: int|
            0 <= k < side_tris(edges, sel, n).len() ==> tri_ok(
                #[trigger] side_tris(edges, sel, n)[k],
                (n + sel.len()) as int,
            ),
    decreases edges.len(),
{
    if edges.len() == 0 {
    } else {
        let pre = edges.drop_last();
        assert(forall|i: int| 0 <= i < pre.len() ==> pre[i] == #[trigger] edges[i]);
        lemma_side_tris_props(pre, sel, n);
        let e = edges.last();
        if e.boundary {
            lemma_index_of_present(sel, e.e0);
            lemma_index_of_present(sel, e.e1);
        }
    }
}

impl Geometry {
    /// Duplicates every selected vertex at the same position, copies
    /// the all-selected triangles onto the duplicates, and selects the
    /// duplicates.
    pub fn copy(&mut self)
        requires
            old(self)@.wf(),
            old(self)@.vtcs.len() + old(self)@.sel.len() < 0x1_0000_0000,
            old(self)@.tris.len() * 2 < 0x1_0000_0000,
        ensures
            final(self)@ == copy_spec(old(self)@),
            final(self)@.wf(),
    {
        let ghost g0 = self@;
        let n = self.vtcs.len();
        let m = self.selection.len();

        // duplicate the selected vertices
        let mut k: usize = 0;
        while k < m
            invariant
                g0 == old(self)@,
                g0.wf(),
                n == g0.vtcs.len(),
                m == g0.sel.len(),
                n + m < 0x1_0000_0000,
                0 <= k <= m,
                self@.tris == g0.tris,
                self@.sel == g0.sel,
                self@.vtcs.len() == n + k,
                forall|i: int| 0 <= i < n ==> self@.vtcs[i] == g0.vtcs[i],
                forall|j: int| 0 <= j < k ==> self@.vtcs[n + j] == g0.vtcs[g0.sel[j] as int],
            decreases m - k,
        {
            let idx = self.selection[k] as usize;
            let v = self.vtcs[idx];
            self.vtcs.push(v);
            k += 1;
        }

        // copy the all-selected triangles onto the duplicates
        let nt = self.tris.len();
        proof {
            assert(g0.tris.take(0) =~= Seq::<Tri>::empty());
            assert(g0.tris + copied_tris(g0.tris.take(0), g0.sel, n as nat) =~= g0.tris);
        }
        let mut k2: usize = 0;
        while k2 < nt
            invariant
                g0 == old(self)@,
                g0.wf(),
                n == g0.vtcs.len(),
                m == g0.sel.len(),
                n + m < 0x1_0000_0000,
                nt == g0.tris.len(),
                nt * 2 < 0x1_0000_0000,
                0 <= k2 <= nt,
                self@.sel == g0.sel,
                self@.vtcs.len() == n + m,
                forall|i: int| 0 <= i < n ==> self@.vtcs[i] == g0.vtcs[i],
                forall|j: int| 0 <= j < m ==> self@.vtcs[n + j] == g0.vtcs[g0.sel[j] as int],
                self@.tris == g0.tris + copied_tris(g0.tris.take(k2 as int), g0.sel, n as nat),
                self@.tris.len() <= nt + k2,
                forall|i: int| 0 <= i < nt ==> self@.tris[i] == g0.tris[i],
            decreases nt - k2,
        {
            proof {
                let pre = g0.tris.take(k2 as int);
                let cur = g0.tris.take(k2 as int + 1);
                assert(cur.drop_last() =~= pre);
                assert(cur.last() == g0.tris[k2 as int]);
                if all_in_sel(g0.sel, g0.tris[k2 as int]) {
                    assert(copied_tris(cur, g0.sel, n as nat) == copied_tris(pre, g0.sel, n as nat)
                        + seq![map_tri(g0.tris[k2 as int], g0.sel, n as nat)]);
                    assert((g0.tris + copied_tris(pre, g0.sel, n as nat)).push(
                        map_tri(g0.tris[k2 as int], g0.sel, n as nat),
                    ) =~= g0.tris + copied_tris(cur, g0.sel, n as nat));
                } else {
                    assert(copied_tris(cur, g0.sel, n as nat) == copied_tris(pre, g0.sel, n as nat)
                        + Seq::<Tri>::empty());
                    assert(copied_tris(pre, g0.sel, n as nat) + Seq::<Tri>::empty() =~= copied_tris(
                        pre,
                        g0.sel,
                        n as nat,
                    ));
                }
            }
            let t = self.tris[k2];
            if contains_val(&self.selection, t.a) && contains_val(&self.selection, t.b)
                && contains_val(&self.selection, t.c) {
                let a2 = sel_map_exec(&self.selection, n, t.a);
                let b2 = sel_map_exec(&self.selection, n, t.b);
                let c2 = sel_map_exec(&self.selection, n, t.c);
                self.tris.push(Tri { a: a2, b: b2, c: c2 });
            }
            k2 += 1;
        }
        proof {
            assert(g0.tris.take(nt as int) =~= g0.tris);
        }

        // the duplicates become the selection
        let sel2 = run_ascending(n, m);
        self.selection = sel2;

        proof {
            let target = copy_spec(g0);
            assert forall|i: int| 0 <= i < self@.vtcs.len() implies self@.vtcs[i]
                == target.vtcs[i] by {
                if i >= n {
                    assert(self@.vtcs[n + (i - n)] == g0.vtcs[g0.sel[i - n] as int]);
                }
            }
            assert(self@.vtcs =~= target.vtcs);
            lemma_copied_tris_props(g0.tris, g0.sel, n as nat);
            assert forall|i: int, j: int|
                0 <= i < j < self@.sel.len() implies self@.sel[i] < self@.sel[j] by {}
        }
    }

    /// Extrudes the selection: the selected vertices get displaced
    /// copies (handed in by the caller, in selection order), selected
    /// triangles move or copy onto them, and each boundary edge is
    /// bridged with two side walls.  The copies become the selection.
    pub fn extrude(&mut self, displaced: &Vec<V3>)
        requires
            old(self)@.wf(),
            displaced@.len() == old(self)@.sel.len(),
            old(self)@.vtcs.len() + old(self)@.sel.len() < 0x1_0000_0000,
            old(self)@.tris.len() * 8 < 0x1_0000_0000,
        ensures
            final(self)@ == extrude_spec(old(self)@, displaced@),
            final(self)@.wf(),
    {
        let ghost g0 = self@;
        let n = self.vtcs.len();
        let m = self.selection.len();
        let all = m == n;

        // append the displaced copies
        let mut k: usize = 0;
        while k < m
            invariant
                g0 == old(self)@,
                g0.wf(),
                n == g0.vtcs.len(),
                m == g0.sel.len(),
                displaced@.len() == m,
                0 <= k <= m,
                self@.tris == g0.tris,
                self@.sel == g0.sel,
                self@.vtcs == g0.vtcs + displaced@.take(k as int),
            decreases m - k,
        {
            proof {
                assert(displaced@.take(k as int + 1) =~= displaced@.take(k as int).push(
                    displaced@[k as int],
                ));
                assert(g0.vtcs + displaced@.take(k as int + 1) =~= (g0.vtcs + displaced@.take(
                    k as int,
                )).push(displaced@[k as int]));
            }
            let v = displaced[k];
            self.vtcs.push(v);
            k += 1;
        }
        proof {
            assert(displaced@.take(m as int) =~= displaced@);
        }

        // first pass: classify edges, move or copy the selected tris
        let nt = self.tris.len();
        let mut edges: Vec<EdgeRec> = Vec::new();
        let mut k2: usize = 0;
        while k2 < nt
            invariant
                g0 == old(self)@,
                g0.wf(),
                n == g0.vtcs.len(),
                m == g0.sel.len(),
                n + m < 0x1_0000_0000,
                all == (m == n),
                nt == g0.tris.len(),
                nt * 8 < 0x1_0000_0000,
                0 <= k2 <= nt,
                self@.sel == g0.sel,
                self@.vtcs == g0.vtcs + displaced@,
                extrude_pass(g0.tris, g0.sel, n as nat, all, k2 as nat) == (EPass {
                    tris: self@.tris,
                    edges: edges@,
                }),
                nt <= self@.tris.len() <= nt + k2,
                forall|i: int| k2 <= i < nt ==> #[trigger] self@.tris[i] == g0.tris[i],
            decreases nt - k2,
        {
            let ghost ppre = EPass { tris: self@.tris, edges: edges@ };
            let t = self.tris[k2];
            proof {
                assert(t == g0.tris[k2 as int]);
            }
            if contains_val(&self.selection, t.a) && contains_val(&self.selection, t.b)
                && contains_val(&self.selection, t.c) {
                mark_edge(&mut edges, t.a, t.b);
                mark_edge(&mut edges, t.b, t.c);
                mark_edge(&mut edges, t.c, t.a);
                proof {
                    assert(edges@ == tri_edge_marks(ppre.edges, t));
                }
                let a2 = sel_map_exec(&self.selection, n, t.a);
                let b2 = sel_map_exec(&self.selection, n, t.b);
                let c2 = sel_map_exec(&self.selection, n, t.c);
                if all {
                    self.tris.set(k2, Tri { a: t.b, b: t.a, c: t.c });
                    self.tris.push(Tri { a: a2, b: b2, c: c2 });
                } else {
                    self.tris.set(k2, Tri { a: a2, b: b2, c: c2 });
                }
            }
            k2 += 1;
            proof {
                assert(extrude_pass(g0.tris, g0.sel, n as nat, all, k2 as nat) == (EPass {
                    tris: self@.tris,
                    edges: edges@,
                }));
            }
        }

        // second pass: bridge the boundary edges with side walls
        let ghost pass = extrude_pass(g0.tris, g0.sel, n as nat, all, nt as nat);
        proof {
            lemma_extrude_pass_props(g0.tris, g0.sel, n as nat, all, nt as nat);
            assert(pass.tris + side_tris(edges@.take(0), g0.sel, n as nat) =~= pass.tris) by {
                assert(edges@.take(0) =~= Seq::<EdgeRec>::empty());
            }
        }
        let ne = edges.len();
        let mut j: usize = 0;
        while j < ne
            invariant
                g0 == old(self)@,
                g0.wf(),
                n == g0.vtcs.len(),
                m == g0.sel.len(),
                n + m < 0x1_0000_0000,
                ne == edges@.len(),
                ne <= 3 * g0.tris.len(),
                0 <= j <= ne,
                pass == extrude_pass(g0.tris, g0.sel, n as nat, all, g0.tris.len()),
                edges@ == pass.edges,
                self@.sel == g0.sel,
                self@.vtcs == g0.vtcs + displaced@,
                self@.tris == pass.tris + side_tris(edges@.take(j as int), g0.sel, n as nat),
                self@.tris.len() <= pass.tris.len() + 2 * j,
                forall|i: int|
                    0 <= i < edges@.len() ==> g0.sel.contains(#[trigger] edges@[i].e0)
                        && g0.sel.contains(edges@[i].e1),
            decreases ne - j,
        {
            proof {
                let pre = edges@.take(j as int);
                let cur = edges@.take(j as int + 1);
                assert(cur.drop_last() =~= pre);
                assert(cur.last() == edges@[j as int]);
                let e = edges@[j as int];
                if e.boundary {
                    assert(side_tris(cur, g0.sel, n as nat) == side_tris(pre, g0.sel, n as nat)
                        + seq![
                        Tri { a: e.e0, b: e.e1, c: sel_map(g0.sel, n as nat, e.e1) },
                        Tri {
                            a: e.e0,
                            b: sel_map(g0.sel, n as nat, e.e1),
                            c: sel_map(g0.sel, n as nat, e.e0),
                        },
                    ]);
                    assert((pass.tris + side_tris(pre, g0.sel, n as nat)).push(
                        Tri { a: e.e0, b: e.e1, c: sel_map(g0.sel, n as nat, e.e1) },
                    ).push(
                        Tri {
                            a: e.e0,
                            b: sel_map(g0.sel, n as nat, e.e1),
                            c: sel_map(g0.sel, n as nat, e.e0),
                        },
                    ) =~= pass.tris + side_tris(cur, g0.sel, n as nat));
                } else {
                    assert(side_tris(cur, g0.sel, n as nat) == side_tris(pre, g0.sel, n as nat)
                        + Seq::<Tri>::empty());
                    assert(side_tris(pre, g0.sel, n as nat) + Seq::<Tri>::empty() =~= side_tris(
                        pre,
                        g0.sel,
                        n as nat,
                    ));
                }
            }
            let e = edges[j];
            if e.boundary {
                let m1 = sel_map_exec(&self.selection, n, e.e1);
                let m0 = sel_map_exec(&self.selection, n, e.e0);
                self.tris.push(Tri { a: e.e0, b: e.e1, c: m1 });
                self.tris.push(Tri { a: e.e0, b: m1, c: m0 });
            }
            j += 1;
        }
        proof {
            assert(edges@.take(ne as int) =~= edges@);
        }

        // the displaced copies become the selection
        let sel2 = run_ascending(n, m);
        self.selection = sel2;

        proof {
            let target = extrude_spec(g0, displaced@);
            assert(self@.tris =~= target.tris);
            lemma_side_tris_props(pass.edges, g0.sel, n as nat);
            assert forall|i: int, j2: int|
                0 <= i < j2 < self@.sel.len() implies self@.sel[i] < self@.sel[j2] by {}
        }
    }
}

} // verus!
