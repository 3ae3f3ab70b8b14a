use vstd::prelude::*;
use crate::error::ErrorCode;
use crate::gltf::{node_wf, scene_wf, Node, Rotation, Scale, Translation, GLTF};

verus! {

// Cloning a subtree appends, depth first, a copy of every node under
// the root, each copy's child handles remapped to the fresh copies.
// The graph is meant to be acyclic; a cycle would never terminate, so
// the walk carries fuel — one unit per level, enough for any acyclic
// graph — and fails with `HandleOutOfBounds` if it runs out.

/// The mathematical shape of a node.
pub struct NodeView {
    pub name: Seq<u8>,
    pub mesh: Option<u32>,
    pub t: (Seq<u8>, Seq<u8>, Seq<u8>),
    pub r: (Seq<u8>, Seq<u8>, Seq<u8>, Seq<u8>),
    pub s: (Seq<u8>, Seq<u8>, Seq<u8>),
    pub matrix: Option<Seq<Seq<u8>>>,
    pub children: Seq<u32>,
}

pub open spec fn nv(n: Node) -> NodeView {
    NodeView {
        name: n.name@,
        mesh: n.mesh,
        t: (n.t.x@, n.t.y@, n.t.z@),
        r: (n.r.x@, n.r.y@, n.r.z@, n.r.w@),
        s: (n.s.x@, n.s.y@, n.s.z@),
        matrix: match n.matrix {
            Some(m) => Some(m.deep_view()),
            None => None,
        },
        children: n.children@,
    }
}

pub open spec fn nodes_view(ns: Seq<Node>) -> Seq<NodeView> {
    Seq::new(ns.len(), |i: int| nv(ns[i]))
}

/// Clones the node at `h`: its children are cloned first, then the
/// copy is appended with the fresh child handles.
pub open spec fn clone_node_spec(nodes: Seq<NodeView>, h: int, fuel: nat) -> Option<
    (Seq<NodeView>, u32),
>
    decreases fuel, 0int, 0int,
{
    if fuel == 0 || !(0 <= h < nodes.len()) {
        None
    } else {
        match clone_children_spec(nodes, nodes[h].children, (fuel - 1) as nat) {
            None => None,
            Some((ns, cs)) => if ns.len() + 1 < 0x1_0000_0000 {
                Some((ns.push(NodeView { children: cs, ..nodes[h] }), ns.len() as u32))
            } else {
                None
            },
        }
    }
}

/// Clones each handle of `cs` in order, threading the growing node
/// list through, and collects the fresh handles.
pub open spec fn clone_children_spec(nodes: Seq<NodeView>, cs: Seq<u32>, fuel: nat) -> Option<
    (Seq<NodeView>, Seq<u32>),
>
    decreases fuel, 1int, cs.len(),
{
    if cs.len() == 0 {
        Some((nodes, Seq::empty()))
    } else {
        match clone_node_spec(nodes, cs[0] as int, fuel) {
            None => None,
            Some((ns1, h2)) => match clone_children_spec(ns1, cs.drop_first(), fuel) {
                None => None,
                Some((ns2, rest)) => Some((ns2, seq![h2] + rest)),
            },
        }
    }
}

/// View-level node validity: children inside `n_nodes`, mesh inside
/// `n_meshes`.
pub open spec fn nv_wf(n: NodeView, n_nodes: int, n_meshes: int) -> bool {
    &&& match n.mesh {
        Some(h) => h < n_meshes,
        None => true,
    }
    &&& forall|j: int| 0 <= j < n.children.len() ==> #[trigger] n.children[j] < n_nodes
}

/// Copies a list of number texts.
fn clone_texts(v: &Vec<Vec<u8>>) -> (r: Vec<Vec<u8>>)
    ensures
        r.deep_view() == v.deep_view(),
{
    let n = v.len();
    let mut r: Vec<Vec<u8>> = Vec::new();
    let mut i: usize = 0;
    while i < n
        invariant
            n == v@.len(),
            0 <= i <= n,
            r@.len() == i,
            forall|k: int| 0 <= k < i ==> #[trigger] r@[k]@ == v@[k]@,
        decreases n - i,
    {
        let e = v[i].clone();
        proof {
            assert(e@ =~= v@[i as int]@);
        }
        r.push(e);
        i += 1;
    }
    proof {
        assert(r.deep_view() =~= v.deep_view());
    }
    r
}

/// The recursive clone over the node vector itself; `n_meshes` rides
/// along to state that every node, old and new, keeps valid handles.
fn clone_rec(nodes: &mut Vec<Node>, h: usize, fuel: usize, Ghost(n_meshes): Ghost<int>) -> (r:
    Result<u32, ErrorCode>)
    requires
        forall|i: int|
            0 <= i < old(nodes)@.len() ==> nv_wf(
                nv(#[trigger] old(nodes)@[i]),
                old(nodes)@.len() as int,
                n_meshes,
            ),
        old(nodes)@.len() < 0x1_0000_0000,
    ensures
        final(nodes)@.len() >= old(nodes)@.len(),
        final(nodes)@.len() < 0x1_0000_0000,
        final(nodes)@.take(old(nodes)@.len() as int) == old(nodes)@,
        forall|i: int|
            0 <= i < final(nodes)@.len() ==> nv_wf(
                nv(#[trigger] final(nodes)@[i]),
                final(nodes)@.len() as int,
                n_meshes,
            ),
        r is Ok ==> r->Ok_0 < final(nodes)@.len(),
        match clone_node_spec(nodes_view(old(nodes)@), h as int, fuel as nat) {
            Some((ns, h2)) => r is Ok && r->Ok_0 == h2 && nodes_view(final(nodes)@) == ns,
            None => r is Err && r->Err_0 == ErrorCode::HandleOutOfBounds,
        },
    decreases fuel,
{
    let ghost v0 = nodes_view(nodes@);
    if fuel == 0 || h >= nodes.len() {
        proof {
            assert(nodes@.take(nodes@.len() as int) =~= nodes@);
        }
        return Err(ErrorCode::HandleOutOfBounds);
    }
    let ghost cs0 = v0[h as int].children;
    let nchild = nodes[h].children.len();
    let mut cs: Vec<u32> = Vec::new();
    let mut j: usize = 0;
    proof {
        assert(nodes@.take(nodes@.len() as int) =~= nodes@);
        assert(cs0.skip(0) =~= cs0);
        assert(Seq::<u32>::empty() + Seq::<u32>::empty() =~= Seq::<u32>::empty());
    }
    while j < nchild
        invariant
            fuel >= 1,
            h < old(nodes)@.len(),
            v0 == nodes_view(old(nodes)@),
            cs0 == v0[h as int].children,
            nchild == cs0.len(),
            0 <= j <= nchild,
            cs@.len() == j,
            nodes@.len() >= old(nodes)@.len(),
            nodes@.len() < 0x1_0000_0000,
            nodes@.take(old(nodes)@.len() as int) == old(nodes)@,
            forall|i: int|
                0 <= i < nodes@.len() ==> nv_wf(
                    nv(#[trigger] nodes@[i]),
                    nodes@.len() as int,
                    n_meshes,
                ),
            forall|k: int| 0 <= k < cs@.len() ==> #[trigger] cs@[k] < nodes@.len(),
            clone_children_spec(v0, cs0, (fuel - 1) as nat) == (match clone_children_spec(
                nodes_view(nodes@),
                cs0.skip(j as int),
                (fuel - 1) as nat,
            ) {
                None => None::<(Seq<NodeView>, Seq<u32>)>,
                Some((ns, rest)) => Some((ns, cs@ + rest)),
            }),
        decreases nchild - j,
    {
        proof {
            assert(nodes@[h as int] == old(nodes)@[h as int]) by {
                assert(nodes@.take(old(nodes)@.len() as int)[h as int] == nodes@[h as int]);
            }
            assert(nv(nodes@[h as int]).children == cs0);
            let t = cs0.skip(j as int);
            assert(t.len() > 0 && t[0] == cs0[j as int]);
            assert(t.drop_first() =~= cs0.skip(j as int + 1));
        }
        let child = nodes[h].children[j];
        let ghost pre = nodes@;
        let res = clone_rec(nodes, child as usize, fuel - 1, Ghost(n_meshes));
        proof {
            assert(nodes@.take(old(nodes)@.len() as int) =~= nodes@.take(
                pre.len() as int,
            ).take(old(nodes)@.len() as int));
        }
        match res {
            Ok(h2) => {
                cs.push(h2);
                proof {
                    match clone_children_spec(nodes_view(nodes@), cs0.skip(j as int + 1), (fuel
                        - 1) as nat) {
                        None => {},
                        Some((ns, rest)) => {
                            assert(cs@ + rest =~= cs@.drop_last() + (seq![h2] + rest));
                        },
                    }
                }
            },
            Err(e) => {
                return Err(e);
            },
        }
        j += 1;
    }
    proof {
        assert(cs0.skip(nchild as int) =~= Seq::<u32>::empty());
        assert(cs@ + Seq::<u32>::empty() =~= cs@);
    }
    if nodes.len() as u64 + 1 >= 0x1_0000_0000u64 {
        return Err(ErrorCode::HandleOutOfBounds);
    }
    // copy the original node's fields; the children point at the clones
    let name = nodes[h].name.clone();
    let mesh = nodes[h].mesh;
    let t = Translation {
        x: nodes[h].t.x.clone(),
        y: nodes[h].t.y.clone(),
        z: nodes[h].t.z.clone(),
    };
    let rr = Rotation {
        x: nodes[h].r.x.clone(),
        y: nodes[h].r.y.clone(),
        z: nodes[h].r.z.clone(),
        w: nodes[h].r.w.clone(),
    };
    let s = Scale {
        x: nodes[h].s.x.clone(),
        y: nodes[h].s.y.clone(),
        z: nodes[h].s.z.clone(),
    };
    let matrix = match &nodes[h].matrix {
        Some(m) => Some(clone_texts(m)),
        None => None,
    };
    let handle = nodes.len() as u32;
    let node2 = Node { name, mesh, t, r: rr, s, matrix, children: cs };
    proof {
        assert(nodes@[h as int] == old(nodes)@[h as int]) by {
            assert(nodes@.take(old(nodes)@.len() as int)[h as int] == nodes@[h as int]);
        }
        assert(name@ =~= nodes@[h as int].name@);
        assert(nv(node2) == (NodeView { children: cs@, ..v0[h as int] }));
    }
    let ghost pre = nodes@;
    nodes.push(node2);
    proof {
        assert(nodes_view(nodes@) =~= nodes_view(pre).push(nv(node2)));
        assert(nodes@.take(old(nodes)@.len() as int) =~= pre.take(old(nodes)@.len() as int));
        assert forall|i: int| 0 <= i < nodes@.len() implies nv_wf(
            nv(#[trigger] nodes@[i]),
            nodes@.len() as int,
            n_meshes,
        ) by {
            if i < pre.len() {
                assert(nodes@[i] == pre[i]);
                assert(nv_wf(nv(pre[i]), pre.len() as int, n_meshes));
            } else {
                assert(nodes@[i] == node2);
                assert(nv_wf(nv(old(nodes)@[h as int]), old(nodes)@.len() as int, n_meshes));
            }
        }
    }
    Ok(handle)
}

impl GLTF {
    /// Clones the subtree under `node`, appending a remapped copy of
    /// every node in it, and returns the handle of the root's copy.  A
    /// cycle below `node` (which a well-formed scene graph is not meant
    /// to contain) exhausts the walk's fuel and fails with
    /// `HandleOutOfBounds`; copies appended before the failure remain,
    /// unreferenced.
    pub fn node_clone_subtree(&mut self, node: usize) -> (r: Result<usize, ErrorCode>)
        requires
            old(self).wf(),
        ensures
            final(self).wf(),
            *final(self) == (GLTF { nodes: final(self).nodes, ..*old(self) }),
            final(self).nodes@.len() >= old(self).nodes@.len(),
            final(self).nodes@.take(old(self).nodes@.len() as int) == old(self).nodes@,
            match clone_node_spec(
                nodes_view(old(self).nodes@),
                node as int,
                old(self).nodes@.len(),
            ) {
                Some((ns, h2)) => r is Ok && r->Ok_0 == h2 as usize && nodes_view(
                    final(self).nodes@,
                ) == ns,
                None => r is Err && r->Err_0 == ErrorCode::HandleOutOfBounds,
            },
    {
        let fuel = self.nodes.len();
        let ghost v0 = nodes_view(self.nodes@);
        proof {
            assert forall|i: int| 0 <= i < self.nodes@.len() implies nv_wf(
                nv(#[trigger] self.nodes@[i]),
                self.nodes@.len() as int,
                old(self).meshes@.len() as int,
            ) by {
                assert(node_wf(old(self).nodes@[i], old(self).nodes@.len() as int,
                    old(self).meshes@.len() as int));
            }
        }
        let ghost nm = old(self).meshes@.len() as int;
        let r = clone_rec(&mut self.nodes, node, fuel, Ghost(nm));
        proof {
            assert forall|i: int| 0 <= i < self.nodes@.len() implies node_wf(
                #[trigger] self.nodes@[i],
                self.nodes@.len() as int,
                self.meshes@.len() as int,
            ) by {
                assert(nv_wf(nv(self.nodes@[i]), self.nodes@.len() as int, nm));
                let n = self.nodes@[i];
                assert forall|j: int| 0 <= j < n.children@.len() implies #[trigger] n.children@[j]
                    < self.nodes@.len() by {
                    assert(nv(n).children[j] < self.nodes@.len());
                }
            }
            assert forall|i: int| 0 <= i < self.scenes@.len() implies scene_wf(
                #[trigger] self.scenes@[i],
                self.nodes@.len() as int,
            ) by {
                assert(scene_wf(self.scenes@[i], old(self).nodes@.len() as int));
            }
        }
        match r {
            Ok(h2) => Ok(h2 as usize),
            Err(e) => Err(e),
        }
    }
}

} // verus!
