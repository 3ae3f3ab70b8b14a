use vstd::prelude::*;
use crate::extrude::index_run;
use crate::geometry::{tri_ok, Geometry, Tri};
use crate::v3::{V3, F64_ZERO, F64_ONE, F64_NEG_ONE};

verus! {

// Primitive generators.  Square and cube corners sit on constant
// coordinates; circle and cylinder rims are trigonometric, so the
// caller hands the rim points in and the generators contribute the
// fan and wall topology, which is what is verified here.

/// The four corners of the square primitive: `z = 0`, X-major over
/// `{lower, 1} x {lower, 1}`.
pub open spec fn square_vtcs(lower: u64) -> Seq<V3> {
    seq![
        V3 { x: lower, y: lower, z: F64_ZERO },
        V3 { x: lower, y: F64_ONE, z: F64_ZERO },
        V3 { x: F64_ONE, y: lower, z: F64_ZERO },
        V3 { x: F64_ONE, y: F64_ONE, z: F64_ZERO },
    ]
}

/// The eight corners of the cube primitive, X-major over
/// `{lower, 1}` per axis.
pub open spec fn cube_prim_vtcs(lower: u64) -> Seq<V3> {
    seq![
        V3 { x: lower, y: lower, z: lower },
        V3 { x: lower, y: lower, z: F64_ONE },
        V3 { x: lower, y: F64_ONE, z: lower },
        V3 { x: lower, y: F64_ONE, z: F64_ONE },
        V3 { x: F64_ONE, y: lower, z: lower },
        V3 { x: F64_ONE, y: lower, z: F64_ONE },
        V3 { x: F64_ONE, y: F64_ONE, z: lower },
        V3 { x: F64_ONE, y: F64_ONE, z: F64_ONE },
    ]
}

/// The twelve cube triangles over the X-major corner layout: along
/// each axis two opposite faces, wound outward.
pub open spec fn cube_prim_tris(off: u32) -> Seq<Tri> {
    seq![
        Tri { a: (off + 0) as u32, b: (off + 1) as u32, c: (off + 2) as u32 },
        Tri { a: (off + 3) as u32, b: (off + 2) as u32, c: (off + 1) as u32 },
        Tri { a: (off + 6) as u32, b: (off + 5) as u32, c: (off + 4) as u32 },
        Tri { a: (off + 5) as u32, b: (off + 6) as u32, c: (off + 7) as u32 },
        Tri { a: (off + 0) as u32, b: (off + 2) as u32, c: (off + 4) as u32 },
        Tri { a: (off + 6) as u32, b: (off + 4) as u32, c: (off + 2) as u32 },
        Tri { a: (off + 5) as u32, b: (off + 3) as u32, c: (off + 1) as u32 },
        Tri { a: (off + 3) as u32, b: (off + 5) as u32, c: (off + 7) as u32 },
        Tri { a: (off + 0) as u32, b: (off + 4) as u32, c: (off + 1) as u32 },
        Tri { a: (off + 5) as u32, b: (off + 1) as u32, c: (off + 4) as u32 },
        Tri { a: (off + 3) as u32, b: (off + 6) as u32, c: (off + 2) as u32 },
        Tri { a: (off + 6) as u32, b: (off + 3) as u32, c: (off + 7) as u32 },
    ]
}

/// The fan of the circle primitive: segment `i` joins the center to
/// rim points `i` and `i + 1` (wrapping).
pub open spec fn circle_tris(off: u32, segs: u32) -> Seq<Tri> {
    Seq::new(
        segs as nat,
        |i: int|
            Tri {
                a: off,
                b: (off + i + 1) as u32,
                c: (off + ((i + 1) % (segs as int)) + 1) as u32,
            },
    )
}

/// Bottom and top rim points of the cylinder, interleaved as pushed.
pub open spec fn interleave(bottom: Seq<V3>, top: Seq<V3>) -> Seq<V3> {
    Seq::new(
        2 * bottom.len(),
        |k: int|
            if k % 2 == 0 {
                bottom[k / 2]
            } else {
                top[k / 2]
            },
    )
}

/// Triangle `j` of cylinder segment `i`: two cap triangles fanned from
/// the centers, then two wall triangles.
pub open spec fn cyl_tri(off: u32, segs: u32, i: int, j: int) -> Tri {
    let v1 = (off + 2 * (i + 1)) as u32;
    let v2 = (off + 2 * ((i + 1) % (segs as int)) + 2) as u32;
    if j == 0 {
        Tri { a: off, b: v2, c: v1 }
    } else if j == 1 {
        Tri { a: (off + 1) as u32, b: (v1 + 1) as u32, c: (v2 + 1) as u32 }
    } else if j == 2 {
        Tri { a: v1, b: v2, c: (v1 + 1) as u32 }
    } else {
        Tri { a: (v1 + 1) as u32, b: v2, c: (v2 + 1) as u32 }
    }
}

/// The cylinder's triangles: four per segment.
pub open spec fn cyl_tris(off: u32, segs: u32) -> Seq<Tri> {
    Seq::new(4 * segs as nat, |k: int| cyl_tri(off, segs, k / 4, k % 4))
}

impl Geometry {
    /// Appends a unit (`[0, 1]`) or centered (`[-1, 1]`) square on the
    /// `z = 0` plane and selects its four corners.
    pub fn add_square(&mut self, unit: bool)
        requires
            old(self)@.wf(),
            old(self)@.vtcs.len() + 4 < 0x1_0000_0000,
            old(self)@.tris.len() + 2 < 0x1_0000_0000,
        ensures
            final(self)@.vtcs == old(self)@.vtcs + square_vtcs(
                if unit {
                    F64_ZERO
                } else {
                    F64_NEG_ONE
                },
            ),
            final(self)@.tris == old(self)@.tris + seq![
                Tri {
                    a: (old(self)@.vtcs.len() + 2) as u32,
                    b: (old(self)@.vtcs.len() + 1) as u32,
                    c: old(self)@.vtcs.len() as u32,
                },
                Tri {
                    a: (old(self)@.vtcs.len() + 1) as u32,
                    b: (old(self)@.vtcs.len() + 2) as u32,
                    c: (old(self)@.vtcs.len() + 3) as u32,
                },
            ],
            final(self)@.sel == index_run(old(self)@.vtcs.len(), 4),
            final(self)@.wf(),
    {
        let off = self.vtcs.len() as u32;
        let lower = if unit {
            F64_ZERO
        } else {
            F64_NEG_ONE
        };
        self.vtcs.push(V3::new(lower, lower, F64_ZERO));
        self.vtcs.push(V3::new(lower, F64_ONE, F64_ZERO));
        self.vtcs.push(V3::new(F64_ONE, lower, F64_ZERO));
        self.vtcs.push(V3::new(F64_ONE, F64_ONE, F64_ZERO));
        self.tris.push(Tri { a: off + 2, b: off + 1, c: off });
        self.tris.push(Tri { a: off + 1, b: off + 2, c: off + 3 });
        let mut sel: Vec<u32> = Vec::new();
        sel.push(off);
        sel.push(off + 1);
        sel.push(off + 2);
        sel.push(off + 3);
        self.selection = sel;
        proof {
            assert(self@.vtcs =~= old(self)@.vtcs + square_vtcs(lower));
            assert(self@.sel =~= index_run(old(self)@.vtcs.len(), 4));
        }
    }

    /// Appends a unit or centered cube and selects its eight corners.
    pub fn add_cube(&mut self, unit: bool)
        requires
            old(self)@.wf(),
            old(self)@.vtcs.len() + 8 < 0x1_0000_0000,
            old(self)@.tris.len() + 12 < 0x1_0000_0000,
        ensures
            final(self)@.vtcs == old(self)@.vtcs + cube_prim_vtcs(
                if unit {
                    F64_ZERO
                } else {
                    F64_NEG_ONE
                },
            ),
            final(self)@.tris == old(self)@.tris + cube_prim_tris(old(self)@.vtcs.len() as u32),
            final(self)@.sel == index_run(old(self)@.vtcs.len(), 8),
            final(self)@.wf(),
    {
        let off = self.vtcs.len() as u32;
        let lower = if unit {
            F64_ZERO
        } else {
            F64_NEG_ONE
        };
        self.vtcs.push(V3::new(lower, lower, lower));
        self.vtcs.push(V3::new(lower, lower, F64_ONE));
        self.vtcs.push(V3::new(lower, F64_ONE, lower));
        self.vtcs.push(V3::new(lower, F64_ONE, F64_ONE));
        self.vtcs.push(V3::new(F64_ONE, lower, lower));
        self.vtcs.push(V3::new(F64_ONE, lower, F64_ONE));
        self.vtcs.push(V3::new(F64_ONE, F64_ONE, lower));
        self.vtcs.push(V3::new(F64_ONE, F64_ONE, F64_ONE));
        self.tris.push(Tri { a: off, b: off + 1, c: off + 2 });
        self.tris.push(Tri { a: off + 3, b: off + 2, c: off + 1 });
        self.tris.push(Tri { a: off + 6, b: off + 5, c: off + 4 });
        self.tris.push(Tri { a: off + 5, b: off + 6, c: off + 7 });
        self.tris.push(Tri { a: off, b: off + 2, c: off + 4 });
        self.tris.push(Tri { a: off + 6, b: off + 4, c: off + 2 });
        self.tris.push(Tri { a: off + 5, b: off + 3, c: off + 1 });
        self.tris.push(Tri { a: off + 3, b: off + 5, c: off + 7 });
        self.tris.push(Tri { a: off, b: off + 4, c: off + 1 });
        self.tris.push(Tri { a: off + 5, b: off + 1, c: off + 4 });
        self.tris.push(Tri { a: off + 3, b: off + 6, c: off + 2 });
        self.tris.push(Tri { a: off + 6, b: off + 3, c: off + 7 });
        let mut sel: Vec<u32> = Vec::new();
        let mut k: u32 = 0;
        while k < 8
            invariant
                off + 8 < 0x1_0000_0000,
                0 <= k <= 8,
                sel@.len() == k,
                forall|j: int| 0 <= j < k ==> sel@[j] == (off + j) as u32,
            decreases 8 - k,
        {
            sel.push(off + k);
            k += 1;
        }
        self.selection = sel;
        proof {
            assert(self@.vtcs =~= old(self)@.vtcs + cube_prim_vtcs(lower));
            assert(self@.tris =~= old(self)@.tris + cube_prim_tris(off));
            assert(self@.sel =~= index_run(old(self)@.vtcs.len(), 8));
        }
    }

    /// Appends a fan circle on the `z = 0` plane: one center vertex,
    /// the given rim points, and one triangle per rim segment.  The
    /// caller supplies the rim (unit-circle points in order); the
    /// center and the fan are built here.
    pub fn add_circle(&mut self, rim: &Vec<V3>)
        requires
            old(self)@.wf(),
            old(self)@.vtcs.len() + rim@.len() + 1 < 0x1_0000_0000,
            old(self)@.tris.len() + rim@.len() < 0x1_0000_0000,
        ensures
            final(self)@.vtcs == old(self)@.vtcs + seq![
                V3 { x: F64_ZERO, y: F64_ZERO, z: F64_ZERO },
            ] + rim@,
            final(self)@.tris == old(self)@.tris + circle_tris(
                old(self)@.vtcs.len() as u32,
                rim@.len() as u32,
            ),
            final(self)@.sel == index_run(old(self)@.vtcs.len(), rim@.len() + 1),
            final(self)@.wf(),
    {
        let ghost g0 = self@;
        let off = self.vtcs.len() as u32;
        let segs = rim.len() as u32;
        self.vtcs.push(V3::new(F64_ZERO, F64_ZERO, F64_ZERO));
        let mut i: usize = 0;
        while i < rim.len()
            invariant
                g0 == old(self)@,
                g0.wf(),
                off == g0.vtcs.len(),
                segs == rim@.len(),
                g0.vtcs.len() + rim@.len() + 1 < 0x1_0000_0000,
                g0.tris.len() + rim@.len() < 0x1_0000_0000,
                0 <= i <= rim@.len(),
                self@.sel == g0.sel,
                self@.vtcs.len() == g0.vtcs.len() + 1 + i,
                forall|k: int| 0 <= k < g0.vtcs.len() ==> self@.vtcs[k] == g0.vtcs[k],
                self@.vtcs[off as int] == (V3 { x: F64_ZERO, y: F64_ZERO, z: F64_ZERO }),
                forall|k: int| 0 <= k < i ==> self@.vtcs[off + 1 + k] == rim@[k],
                self@.tris.len() == g0.tris.len() + i,
                forall|k: int| 0 <= k < g0.tris.len() ==> self@.tris[k] == g0.tris[k],
                forall|k: int|
                    0 <= k < i ==> self@.tris[g0.tris.len() + k] == circle_tris(off, segs)[k],
            decreases rim@.len() - i,
        {
            let v = rim[i];
            self.vtcs.push(v);
            let b = off + (i as u32) + 1;
            let c = off + (((i as u32) + 1) % segs) + 1;
            self.tris.push(Tri { a: off, b, c });
            i += 1;
        }
        let sel2 = crate::prims::run_prefixed(off, segs + 1);
        self.selection = sel2;
        proof {
            assert(self@.vtcs =~= g0.vtcs + seq![V3 { x: F64_ZERO, y: F64_ZERO, z: F64_ZERO }]
                + rim@);
            assert(self@.tris =~= g0.tris + circle_tris(off, segs));
            assert(self@.sel =~= index_run(g0.vtcs.len(), rim@.len() + 1));
            assert forall|k: int| 0 <= k < self@.tris.len() implies tri_ok(
                #[trigger] self@.tris[k],
                self@.vtcs.len() as int,
            ) by {
                if k >= g0.tris.len() {
                    let j = k - g0.tris.len();
                    assert(self@.tris[k] == circle_tris(off, segs)[j]);
                    assert(0 <= (j + 1) % (segs as int) < segs as int);
                }
            }
        }
    }

    /// Appends a cylinder along Z: two cap centers, the given bottom
    /// and top rim points interleaved, and per segment two cap
    /// triangles and two wall triangles.  `unit` picks the bottom cap's
    /// height, `0` instead of `-1`.
    pub fn add_cylinder(&mut self, bottom: &Vec<V3>, top: &Vec<V3>, unit: bool)
        requires
            old(self)@.wf(),
            bottom@.len() == top@.len(),
            old(self)@.vtcs.len() + 2 * bottom@.len() + 2 < 0x1_0000_0000,
            old(self)@.tris.len() + 4 * bottom@.len() < 0x1_0000_0000,
        ensures
            final(self)@.vtcs == old(self)@.vtcs + seq![
                V3 {
                    x: F64_ZERO,
                    y: F64_ZERO,
                    z: if unit {
                        F64_ZERO
                    } else {
                        F64_NEG_ONE
                    },
                },
                V3 { x: F64_ZERO, y: F64_ZERO, z: F64_ONE },
            ] + interleave(bottom@, top@),
            final(self)@.tris == old(self)@.tris + cyl_tris(
                old(self)@.vtcs.len() as u32,
                bottom@.len() as u32,
            ),
            final(self)@.sel == index_run(old(self)@.vtcs.len(), 2 * bottom@.len() + 2),
            final(self)@.wf(),
    {
        let ghost g0 = self@;
        let off = self.vtcs.len() as u32;
        let segs = bottom.len() as u32;
        let lower = if unit {
            F64_ZERO
        } else {
            F64_NEG_ONE
        };
        self.vtcs.push(V3::new(F64_ZERO, F64_ZERO, lower));
        self.vtcs.push(V3::new(F64_ZERO, F64_ZERO, F64_ONE));
        let mut i: usize = 0;
        while i < bottom.len()
            invariant
                g0 == old(self)@,
                g0.wf(),
                off == g0.vtcs.len(),
                segs == bottom@.len(),
                bottom@.len() == top@.len(),
                g0.vtcs.len() + 2 * bottom@.len() + 2 < 0x1_0000_0000,
                g0.tris.len() + 4 * bottom@.len() < 0x1_0000_0000,
                0 <= i <= bottom@.len(),
                self@.sel == g0.sel,
                self@.vtcs.len() == g0.vtcs.len() + 2 + 2 * i,
                forall|k: int| 0 <= k < g0.vtcs.len() ==> self@.vtcs[k] == g0.vtcs[k],
                self@.vtcs[off as int] == (V3 { x: F64_ZERO, y: F64_ZERO, z: lower }),
                self@.vtcs[off + 1] == (V3 { x: F64_ZERO, y: F64_ZERO, z: F64_ONE }),
                forall|k: int| 0 <= k < i ==> self@.vtcs[off + 2 + 2 * k] == bottom@[k],
                forall|k: int| 0 <= k < i ==> self@.vtcs[off + 3 + 2 * k] == top@[k],
                self@.tris.len() == g0.tris.len() + 4 * i,
                forall|k: int| 0 <= k < g0.tris.len() ==> self@.tris[k] == g0.tris[k],
                forall|k: int|
                    0 <= k < 4 * i ==> self@.tris[g0.tris.len() + k] == cyl_tris(off, segs)[k],
            decreases bottom@.len() - i,
        {
            let vb = bottom[i];
            let vt = top[i];
            self.vtcs.push(vb);
            self.vtcs.push(vt);
            let v1 = off + 2 * ((i as u32) + 1);
            let v2 = off + 2 * (((i as u32) + 1) % segs) + 2;
            self.tris.push(Tri { a: off, b: v2, c: v1 });
            self.tris.push(Tri { a: off + 1, b: v1 + 1, c: v2 + 1 });
            self.tris.push(Tri { a: v1, b: v2, c: v1 + 1 });
            self.tris.push(Tri { a: v1 + 1, b: v2, c: v2 + 1 });
            proof {
                let base = g0.tris.len();
                assert forall|k: int|
                    0 <= k < 4 * (i + 1) implies self@.tris[base + k] == cyl_tris(off, segs)[k] by {
                    if k >= 4 * i {
                        let ii = k / 4;
                        assert(ii == i);
                        assert(cyl_tris(off, segs)[k] == cyl_tri(off, segs, ii, k % 4));
                    }
                }
            }
            i += 1;
        }
        let sel2 = crate::prims::run_prefixed(off, 2 * segs + 2);
        self.selection = sel2;
        proof {
            assert forall|k: int|
                0 <= k < (g0.vtcs + seq![
                    V3 { x: F64_ZERO, y: F64_ZERO, z: lower },
                    V3 { x: F64_ZERO, y: F64_ZERO, z: F64_ONE },
                ] + interleave(bottom@, top@)).len() implies self@.vtcs[k] == (g0.vtcs + seq![
                V3 { x: F64_ZERO, y: F64_ZERO, z: lower },
                V3 { x: F64_ZERO, y: F64_ZERO, z: F64_ONE },
            ] + interleave(bottom@, top@))[k] by {
                if k >= off + 2 {
                    let j = k - off - 2;
                    if j % 2 == 0 {
                        assert(self@.vtcs[off + 2 + 2 * (j / 2)] == bottom@[j / 2]);
                    } else {
                        assert(self@.vtcs[off + 3 + 2 * (j / 2)] == top@[j / 2]);
                    }
                }
            }
            assert(self@.vtcs =~= g0.vtcs + seq![
                V3 { x: F64_ZERO, y: F64_ZERO, z: lower },
                V3 { x: F64_ZERO, y: F64_ZERO, z: F64_ONE },
            ] + interleave(bottom@, top@));
            assert(self@.tris =~= g0.tris + cyl_tris(off, segs));
            assert(self@.sel =~= index_run(g0.vtcs.len(), 2 * bottom@.len() + 2));
            assert forall|k: int| 0 <= k < self@.tris.len() implies tri_ok(
                #[trigger] self@.tris[k],
                self@.vtcs.len() as int,
            ) by {
                if k >= g0.tris.len() {
                    let j = k - g0.tris.len();
                    assert(self@.tris[k] == cyl_tri(off, segs, j / 4, j % 4));
                    assert(0 <= (j / 4 + 1) % (segs as int) < segs as int);
                }
            }
        }
    }
}

/// The ascending run `off..off + count` over `u32`.
pub fn run_prefixed(off: u32, count: u32) -> (r: Vec<u32>)
    requires
        off + count < 0x1_0000_0000,
    ensures
        r@ == index_run(off as nat, count as nat),
{
    let mut r: Vec<u32> = Vec::new();
    let mut k: u32 = 0;
    while k < count
        invariant
            off + count < 0x1_0000_0000,
            0 <= k <= count,
            r@.len() == k,
            forall|j: int| 0 <= j < k ==> r@[j] == (off + j) as u32,
        decreases count - k,
    {
        r.push(off + k);
        k += 1;
    }
    proof {
        assert(r@ =~= index_run(off as nat, count as nat));
    }
    r
}

} // verus!
