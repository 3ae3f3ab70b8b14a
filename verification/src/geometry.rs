use vstd::prelude::*;
use crate::error::ErrorCode;
use crate::sorted::{contains_val, sorted_strict, true_indices, lemma_true_indices, seq_has};
use crate::v3::{V3, F64_ONE, F64_NEG_ONE};

verus! {

/// A triangle: three vertex indices, wound counterclockwise when seen
/// from outside.
#[derive(Debug, Clone, Copy, PartialEq, Eq, Structural)]
pub struct Tri {
    pub a: u32,
    pub b: u32,
    pub c: u32,
}

impl Tri {
    pub fn new(a: u32, b: u32, c: u32) -> (r: Tri)
        ensures
            r == (Tri { a, b, c }),
    {
        Tri { a, b, c }
    }
}

/// All three indices point below `n`.
pub open spec fn tri_ok(t: Tri, n: int) -> bool {
    t.a < n && t.b < n && t.c < n
}

/// `x` is one of the triangle's indices.
pub open spec fn tri_has(t: Tri, x: u32) -> bool {
    t.a == x || t.b == x || t.c == x
}

/// All three of the triangle's vertices are selected.
pub open spec fn all_in_sel(sel: Seq<u32>, t: Tri) -> bool {
    sel.contains(t.a) && sel.contains(t.b) && sel.contains(t.c)
}

/// The triangle with first and last index swapped: the reversed winding.
pub open spec fn rev_tri(t: Tri) -> Tri {
    Tri { a: t.c, b: t.b, c: t.a }
}

/// The mathematical state of a geometry: vertex positions, triangles,
/// and the selected vertex indices in ascending order.
pub struct GeomView {
    pub vtcs: Seq<V3>,
    pub tris: Seq<Tri>,
    pub sel: Seq<u32>,
}

impl GeomView {
    /// The invariant every public operation preserves: triangle and
    /// selection indices stay inside the vertex array, the selection is
    /// strictly ascending, and both arrays stay addressable by `u32`.
    pub open spec fn wf(self) -> bool {
        &&& self.vtcs.len() < 0x1_0000_0000
        &&& self.tris.len() < 0x1_0000_0000
        &&& forall|k: int|
            0 <= k < self.tris.len() ==> tri_ok(#[trigger] self.tris[k], self.vtcs.len() as int)
        &&& sorted_strict(self.sel)
        &&& forall|k: int| 0 <= k < self.sel.len() ==> #[trigger] self.sel[k] < self.vtcs.len()
    }
}

/// A triangle-soup mesh under edit: vertices, triangles over them, and
/// an ordered selection of vertex indices that most operations act on.
pub struct Geometry {
    pub vtcs: Vec<V3>,
    pub tris: Vec<Tri>,
    pub selection: Vec<u32>,
}

impl View for Geometry {
    type V = GeomView;

    open spec fn view(&self) -> GeomView {
        GeomView { vtcs: self.vtcs@, tris: self.tris@, sel: self.selection@ }
    }
}

/// The vertex coordinates of the centered unit cube: corners at `±1` on
/// every axis, in the order -X-Y-Z, -X-Y+Z, ... +X+Y+Z of the X-major
/// index layout.
pub open spec fn cube_vtcs() -> Seq<V3> {
    seq![
        V3 { x: F64_NEG_ONE, y: F64_ONE, z: F64_NEG_ONE },
        V3 { x: F64_NEG_ONE, y: F64_ONE, z: F64_ONE },
        V3 { x: F64_NEG_ONE, y: F64_NEG_ONE, z: F64_NEG_ONE },
        V3 { x: F64_NEG_ONE, y: F64_NEG_ONE, z: F64_ONE },
        V3 { x: F64_ONE, y: F64_ONE, z: F64_NEG_ONE },
        V3 { x: F64_ONE, y: F64_ONE, z: F64_ONE },
        V3 { x: F64_ONE, y: F64_NEG_ONE, z: F64_NEG_ONE },
        V3 { x: F64_ONE, y: F64_NEG_ONE, z: F64_ONE },
    ]
}

/// The twelve outward-wound triangles of the cube, two per face.
pub open spec fn cube_tris() -> Seq<Tri> {
    seq![
        Tri { a: 1, b: 3, c: 5 },
        Tri { a: 3, b: 7, c: 5 },
        Tri { a: 4, b: 5, c: 6 },
        Tri { a: 5, b: 7, c: 6 },
        Tri { a: 0, b: 2, c: 1 },
        Tri { a: 1, b: 2, c: 3 },
        Tri { a: 0, b: 1, c: 4 },
        Tri { a: 1, b: 5, c: 4 },
        Tri { a: 2, b: 6, c: 3 },
        Tri { a: 3, b: 6, c: 7 },
        Tri { a: 0, b: 4, c: 2 },
        Tri { a: 2, b: 4, c: 6 },
    ]
}

impl Geometry {
    /// An empty geometry with an empty selection.
    pub fn new() -> (r: Geometry)
        ensures
            r@.vtcs == Seq::<V3>::empty(),
            r@.tris == Seq::<Tri>::empty(),
            r@.sel == Seq::<u32>::empty(),
            r@.wf(),
    {
        Geometry { vtcs: Vec::new(), tris: Vec::new(), selection: Vec::new() }
    }

    /// The centered unit cube with all eight corners selected.
    pub fn cube() -> (r: Geometry)
        ensures
            r@.vtcs == cube_vtcs(),
            r@.tris == cube_tris(),
            r@.sel == seq![0u32, 1u32, 2u32, 3u32, 4u32, 5u32, 6u32, 7u32],
            r@.wf(),
    {
        let vtcs = vec![
            V3::new(F64_NEG_ONE, F64_ONE, F64_NEG_ONE),
            V3::new(F64_NEG_ONE, F64_ONE, F64_ONE),
            V3::new(F64_NEG_ONE, F64_NEG_ONE, F64_NEG_ONE),
            V3::new(F64_NEG_ONE, F64_NEG_ONE, F64_ONE),
            V3::new(F64_ONE, F64_ONE, F64_NEG_ONE),
            V3::new(F64_ONE, F64_ONE, F64_ONE),
            V3::new(F64_ONE, F64_NEG_ONE, F64_NEG_ONE),
            V3::new(F64_ONE, F64_NEG_ONE, F64_ONE),
        ];
        let tris = vec![
            Tri::new(1, 3, 5),
            Tri::new(3, 7, 5),
            Tri::new(4, 5, 6),
            Tri::new(5, 7, 6),
            Tri::new(0, 2, 1),
            Tri::new(1, 2, 3),
            Tri::new(0, 1, 4),
            Tri::new(1, 5, 4),
            Tri::new(2, 6, 3),
            Tri::new(3, 6, 7),
            Tri::new(0, 4, 2),
            Tri::new(2, 4, 6),
        ];
        let selection = vec![0u32, 1, 2, 3, 4, 5, 6, 7];
        let r = Geometry { vtcs, tris, selection };
        proof {
            assert(r@.vtcs =~= cube_vtcs());
            assert(r@.tris =~= cube_tris());
            assert(r@.sel =~= seq![0u32, 1u32, 2u32, 3u32, 4u32, 5u32, 6u32, 7u32]);
            assert forall|k: int| 0 <= k < r@.tris.len() implies tri_ok(
                #[trigger] r@.tris[k],
                r@.vtcs.len() as int,
            ) by {}
        }
        r
    }

    pub fn vtx_count(&self) -> (r: usize)
        ensures
            r == self@.vtcs.len(),
    {
        self.vtcs.len()
    }

    pub fn tri_count(&self) -> (r: usize)
        ensures
            r == self@.tris.len(),
    {
        self.tris.len()
    }

    /// Appends a vertex; the selection is untouched.
    pub fn create_vtx(&mut self, vtx: V3)
        requires
            old(self)@.wf(),
            old(self)@.vtcs.len() + 1 < 0x1_0000_0000,
        ensures
            final(self)@.vtcs == old(self)@.vtcs.push(vtx),
            final(self)@.tris == old(self)@.tris,
            final(self)@.sel == old(self)@.sel,
            final(self)@.wf(),
    {
        self.vtcs.push(vtx);
    }

    /// Appends a triangle after checking its indices against the vertex
    /// array.
    pub fn create_tri(&mut self, tri: Tri) -> (r: Result<(), ErrorCode>)
        requires
            old(self)@.wf(),
            old(self)@.tris.len() + 1 < 0x1_0000_0000,
        ensures
            r is Ok <==> tri_ok(tri, old(self)@.vtcs.len() as int),
            r is Err ==> r->Err_0 == ErrorCode::VtxOutOfBounds && final(self)@ == old(self)@,
            r is Ok ==> final(self)@.tris == old(self)@.tris.push(tri)
                && final(self)@.vtcs == old(self)@.vtcs && final(self)@.sel == old(self)@.sel,
            final(self)@.wf(),
    {
        let n = self.vtcs.len();
        if tri.a as usize >= n || tri.b as usize >= n || tri.c as usize >= n {
            return Err(ErrorCode::VtxOutOfBounds);
        }
        self.tris.push(tri);
        Ok(())
    }

    /// Overwrites the position of one vertex.
    pub fn set_vtx(&mut self, vtx: u32, v: V3) -> (r: Result<(), ErrorCode>)
        requires
            old(self)@.wf(),
        ensures
            r is Ok <==> vtx < old(self)@.vtcs.len(),
            r is Err ==> r->Err_0 == ErrorCode::VtxOutOfBounds && final(self)@ == old(self)@,
            r is Ok ==> final(self)@.vtcs == old(self)@.vtcs.update(vtx as int, v)
                && final(self)@.tris == old(self)@.tris && final(self)@.sel == old(self)@.sel,
            final(self)@.wf(),
    {
        if vtx as usize >= self.vtcs.len() {
            return Err(ErrorCode::VtxOutOfBounds);
        }
        self.vtcs.set(vtx as usize, v);
        Ok(())
    }

    /// Overwrites one triangle, checking the triangle handle and the new
    /// vertex indices.
    pub fn set_tri(&mut self, tri: u32, t: Tri) -> (r: Result<(), ErrorCode>)
        requires
            old(self)@.wf(),
        ensures
            r is Ok <==> (tri < old(self)@.tris.len() && tri_ok(t, old(self)@.vtcs.len() as int)),
            r is Err && tri >= old(self)@.tris.len() ==> r->Err_0 == ErrorCode::TriOutOfBounds,
            r is Err && tri < old(self)@.tris.len() ==> r->Err_0 == ErrorCode::VtxOutOfBounds,
            r is Err ==> final(self)@ == old(self)@,
            r is Ok ==> final(self)@.tris == old(self)@.tris.update(tri as int, t)
                && final(self)@.vtcs == old(self)@.vtcs && final(self)@.sel == old(self)@.sel,
            final(self)@.wf(),
    {
        if tri as usize >= self.tris.len() {
            return Err(ErrorCode::TriOutOfBounds);
        }
        let n = self.vtcs.len();
        if t.a as usize >= n || t.b as usize >= n || t.c as usize >= n {
            return Err(ErrorCode::VtxOutOfBounds);
        }
        self.tris.set(tri as usize, t);
        Ok(())
    }

    /// The positions of the selected vertices, in selection order.
    pub fn selected_vtcs(&self) -> (r: Vec<V3>)
        requires
            self@.wf(),
        ensures
            r@.len() == self@.sel.len(),
            forall|k: int| 0 <= k < r@.len() ==> r@[k] == self@.vtcs[self@.sel[k] as int],
    {
        let m = self.selection.len();
        let mut r: Vec<V3> = Vec::new();
        let mut k: usize = 0;
        while k < m
            invariant
                self@.wf(),
                m == self@.sel.len(),
                0 <= k <= m,
                r@.len() == k,
                forall|j: int| 0 <= j < k ==> r@[j] == self@.vtcs[self@.sel[j] as int],
            decreases m - k,
        {
            let idx = self.selection[k] as usize;
            r.push(self.vtcs[idx]);
            k += 1;
        }
        r
    }

    /// Overwrites the positions of the selected vertices, in selection
    /// order.  This is the write half of every whole-selection
    /// transform: the caller computes the moved positions from
    /// `selected_vtcs` and hands them back here.
    pub fn set_selected(&mut self, vals: &Vec<V3>)
        requires
            old(self)@.wf(),
            vals@.len() == old(self)@.sel.len(),
        ensures
            final(self)@.vtcs.len() == old(self)@.vtcs.len(),
            forall|k: int|
                0 <= k < old(self)@.sel.len() ==> final(self)@.vtcs[old(self)@.sel[k] as int]
                    == vals@[k],
            forall|i: int|
                0 <= i < old(self)@.vtcs.len() && !old(self)@.sel.contains(i as u32)
                    ==> final(self)@.vtcs[i] == old(self)@.vtcs[i],
            final(self)@.tris == old(self)@.tris,
            final(self)@.sel == old(self)@.sel,
            final(self)@.wf(),
    {
        let m = self.selection.len();
        let mut k: usize = 0;
        while k < m
            invariant
                self@.tris == old(self)@.tris,
                self@.sel == old(self)@.sel,
                self@.wf(),
                vals@.len() == m,
                m == self@.sel.len(),
                0 <= k <= m,
                self@.vtcs.len() == old(self)@.vtcs.len(),
                forall|j: int| 0 <= j < k ==> self@.vtcs[self@.sel[j] as int] == vals@[j],
                forall|i: int|
                    0 <= i < self@.vtcs.len() && !seq_has(self@.sel, k as int, i as u32)
                        ==> self@.vtcs[i] == old(self)@.vtcs[i],
            decreases m - k,
        {
            let idx = self.selection[k] as usize;
            self.vtcs.set(idx, vals[k]);
            proof {
                // distinctness of selection entries keeps earlier writes intact
                assert forall|j: int|
                    0 <= j < k + 1 implies self@.vtcs[self@.sel[j] as int] == vals@[j] by {
                    if j < k {
                        assert(self@.sel[j] < self@.sel[k as int]);
                    }
                }
            }
            k += 1;
        }
        proof {
            assert forall|i: int|
                0 <= i < self@.vtcs.len() && !old(self)@.sel.contains(i as u32)
                    implies self@.vtcs[i] == old(self)@.vtcs[i] by {
                if seq_has(self@.sel, m as int, i as u32) {
                    let j = choose|j: int| 0 <= j < m && self@.sel[j] == i as u32;
                    assert(old(self)@.sel.contains(i as u32));
                }
            }
        }
    }

    /// Replaces the selection: vertex `i` becomes selected exactly when
    /// `inside[i]` is true.  The caller computes the flags from the
    /// bounding box; the tolerance handling lives with that computation.
    pub fn select(&mut self, inside: &Vec<bool>)
        requires
            old(self)@.wf(),
            inside@.len() == old(self)@.vtcs.len(),
        ensures
            final(self)@ == select_spec(old(self)@, inside@),
            final(self)@.wf(),
    {
        proof {
            lemma_true_indices(inside@);
        }
        let n = inside.len();
        let mut sel: Vec<u32> = Vec::new();
        let mut i: usize = 0;
        proof {
            assert(inside@.take(0) =~= Seq::<bool>::empty());
        }
        while i < n
            invariant
                n == inside@.len(),
                n < 0x1_0000_0000,
                0 <= i <= n,
                sel@ == true_indices(inside@.take(i as int)),
            decreases n - i,
        {
            proof {
                let cur = inside@.take(i as int + 1);
                assert(cur.drop_last() =~= inside@.take(i as int));
                assert(cur.last() == inside@[i as int]);
                if inside@[i as int] {
                    assert(true_indices(cur) == true_indices(inside@.take(i as int)) + seq![
                        i as u32,
                    ]);
                } else {
                    assert(true_indices(cur) == true_indices(inside@.take(i as int))
                        + Seq::<u32>::empty());
                    assert(true_indices(inside@.take(i as int)) + Seq::<u32>::empty()
                        =~= true_indices(inside@.take(i as int)));
                }
            }
            if inside[i] {
                sel.push(i as u32);
            }
            i += 1;
        }
        proof {
            assert(inside@.take(n as int) =~= inside@);
        }
        self.selection = sel;
    }

    /// Reverses the winding of every triangle whose three vertices are
    /// all selected, by swapping its first and last index.
    pub fn flip_normals(&mut self)
        requires
            old(self)@.wf(),
        ensures
            final(self)@.vtcs == old(self)@.vtcs,
            final(self)@.sel == old(self)@.sel,
            final(self)@.tris == flipped(old(self)@.tris, old(self)@.sel),
            final(self)@.wf(),
    {
        let n = self.tris.len();
        let mut k: usize = 0;
        while k < n
            invariant
                self@.vtcs == old(self)@.vtcs,
                self@.sel == old(self)@.sel,
                n == self@.tris.len(),
                self@.tris.len() == old(self)@.tris.len(),
                0 <= k <= n,
                forall|j: int|
                    k <= j < n ==> self@.tris[j] == old(self)@.tris[j],
                forall|j: int|
                    0 <= j < k ==> self@.tris[j] == (if all_in_sel(
                        old(self)@.sel,
                        old(self)@.tris[j],
                    ) {
                        rev_tri(old(self)@.tris[j])
                    } else {
                        old(self)@.tris[j]
                    }),
                self@.wf(),
            decreases n - k,
        {
            let t = self.tris[k];
            if contains_val(&self.selection, t.a) && contains_val(&self.selection, t.b)
                && contains_val(&self.selection, t.c) {
                self.tris.set(k, Tri { a: t.c, b: t.b, c: t.a });
            }
            k += 1;
        }
        proof {
            assert(self@.tris =~= flipped(old(self)@.tris, old(self)@.sel));
        }
    }

    /// Appends, for every triangle whose three vertices are all
    /// selected, a reversed copy: the face becomes two-sided.
    pub fn doubleside(&mut self)
        requires
            old(self)@.wf(),
            old(self)@.tris.len() * 2 < 0x1_0000_0000,
        ensures
            final(self)@.vtcs == old(self)@.vtcs,
            final(self)@.sel == old(self)@.sel,
            final(self)@.tris == old(self)@.tris + doubled(old(self)@.tris, old(self)@.sel),
            final(self)@.wf(),
    {
        proof {
            lemma_doubled_len(self@.tris, self@.sel);
            assert(self@.tris + doubled(self@.tris.take(0), self@.sel) =~= self@.tris) by {
                assert(self@.tris.take(0) =~= Seq::<Tri>::empty());
            }
        }
        let n = self.tris.len();
        let mut k: usize = 0;
        while k < n
            invariant
                self@.vtcs == old(self)@.vtcs,
                self@.sel == old(self)@.sel,
                n == old(self)@.tris.len(),
                n * 2 < 0x1_0000_0000,
                0 <= k <= n,
                self@.tris == old(self)@.tris + doubled(old(self)@.tris.take(k as int),
                    old(self)@.sel),
                self@.tris.len() <= 2 * n,
                forall|j: int| 0 <= j < n ==> self@.tris[j] == old(self)@.tris[j],
                self@.wf(),
            decreases n - k,
        {
            proof {
                let pre = old(self)@.tris.take(k as int);
                let cur = old(self)@.tris.take(k as int + 1);
                assert(cur.drop_last() =~= pre);
                assert(cur.last() == old(self)@.tris[k as int]);
                lemma_doubled_len(pre, old(self)@.sel);
                if all_in_sel(old(self)@.sel, old(self)@.tris[k as int]) {
                    assert(doubled(cur, old(self)@.sel) == doubled(pre, old(self)@.sel) + seq![
                        rev_tri(old(self)@.tris[k as int]),
                    ]);
                    assert((old(self)@.tris + doubled(pre, old(self)@.sel)).push(
                        rev_tri(old(self)@.tris[k as int]),
                    ) =~= old(self)@.tris + doubled(cur, old(self)@.sel));
                } else {
                    assert(doubled(cur, old(self)@.sel) == doubled(pre, old(self)@.sel)
                        + Seq::<Tri>::empty());
                    assert(doubled(pre, old(self)@.sel) + Seq::<Tri>::empty() =~= doubled(
                        pre,
                        old(self)@.sel,
                    ));
                }
            }
            let t = self.tris[k];
            if contains_val(&self.selection, t.a) && contains_val(&self.selection, t.b)
                && contains_val(&self.selection, t.c) {
                self.tris.push(Tri { a: t.c, b: t.b, c: t.a });
            }
            k += 1;
        }
        proof {
            assert(old(self)@.tris.take(n as int) =~= old(self)@.tris);
        }
    }
}

/// Every triangle with all corners selected reversed in place.
pub open spec fn flipped(tris: Seq<Tri>, sel: Seq<u32>) -> Seq<Tri> {
    Seq::new(
        tris.len(),
        |k: int|
            if all_in_sel(sel, tris[k]) {
                rev_tri(tris[k])
            } else {
                tris[k]
            },
    )
}

/// What `select` does: the selection becomes the flagged indices; the
/// mesh itself is untouched.
pub open spec fn select_spec(g: GeomView, flags: Seq<bool>) -> GeomView {
    GeomView { vtcs: g.vtcs, tris: g.tris, sel: true_indices(flags) }
}

/// The reversed copies `doubleside` appends: one per triangle whose
/// three vertices are all selected, in triangle order.
pub open spec fn doubled(tris: Seq<Tri>, sel: Seq<u32>) -> Seq<Tri>
    decreases tris.len(),
{
    if tris.len() == 0 {
        Seq::empty()
    } else {
        doubled(tris.drop_last(), sel) + (if all_in_sel(sel, tris.last()) {
            seq![rev_tri(tris.last())]
        } else {
            Seq::empty()
        })
    }
}

pub proof fn lemma_doubled_len(tris: Seq<Tri>, sel: Seq<u32>)
    ensures
        doubled(tris, sel).len() <= tris.len(),
        forall|k: int|
            0 <= k < doubled(tris, sel).len() ==> tris.contains(
                rev_tri(#[trigger] doubled(tris, sel)[k]),
            ),
    decreases tris.len(),
{
    if tris.len() == 0 {
    } else {
        let pre = tris.drop_last();
        lemma_doubled_len(pre, sel);
        assert(forall|j: int| 0 <= j < pre.len() ==> pre[j] == #[trigger] tris[j]);
        assert forall|k: int|
            0 <= k < doubled(tris, sel).len() implies tris.contains(
            rev_tri(#[trigger] doubled(tris, sel)[k]),
        ) by {
            let d = doubled(tris, sel);
            let dp = doubled(pre, sel);
            if k < dp.len() {
                assert(d[k] == dp[k]);
                assert(pre.contains(rev_tri(dp[k])));
                let j = choose|j: int| 0 <= j < pre.len() && pre[j] == rev_tri(dp[k]);
                assert(tris[j] == rev_tri(dp[k]));
            } else {
                assert(all_in_sel(sel, tris.last()));
                assert(d[k] == rev_tri(tris.last()));
                assert(rev_tri(rev_tri(tris.last())) == tris.last());
                assert(tris.contains(tris.last()));
            }
        }
    }
}

} // verus!
