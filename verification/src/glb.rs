use vstd::prelude::*;
use crate::bytes::{
    le32, lemma_tris_bytes_len, lemma_words_bytes_len, push_le32, tris_bytes, words_bytes,
};
use crate::geometry::Geometry;
use crate::gltf::{
    mesh_wf, prim_wf, Accessor, Buffer, BufferView, ComponentType, PackedGeometry, Target, Type,
    GLTF,
};
use crate::json::{doc_json, push_bytes, write_doc};

verus! {

// The packer moves a geometry's two byte streams into the document's
// binary blob, describing each with a buffer view and an accessor; the
// serializer writes the document out in the chunked GLB framing.

/// The four magic bytes `glTF`.
pub open spec fn glb_magic() -> Seq<u8> {
    seq![103u8, 108u8, 84u8, 70u8]
}

/// The JSON chunk tag `JSON`.
pub open spec fn json_tag() -> Seq<u8> {
    seq![74u8, 83u8, 79u8, 78u8]
}

/// The BIN chunk tag `BIN\0`.
pub open spec fn bin_tag() -> Seq<u8> {
    seq![66u8, 73u8, 78u8, 0u8]
}

/// Space padding of a JSON chunk.
pub open spec fn spaces(n: nat) -> Seq<u8> {
    Seq::new(n, |i: int| 32u8)
}

/// Zero padding of a BIN chunk.
pub open spec fn zeros(n: nat) -> Seq<u8> {
    Seq::new(n, |i: int| 0u8)
}

/// Bytes of padding that bring `n` up to a multiple of four.
pub open spec fn pad4(n: int) -> int {
    (4 - n % 4) % 4
}

/// The padded JSON chunk length.
pub open spec fn glb_json_len(g: GLTF) -> int {
    doc_json(g).len() + pad4(doc_json(g).len() as int)
}

/// The padded BIN chunk length.
pub open spec fn glb_bin_len(g: GLTF) -> int {
    g.bin@.len() + pad4(g.bin@.len() as int)
}

/// The total length field of the header: header, chunk headers, padded
/// chunks; the BIN chunk exists only while the blob is not empty.
pub open spec fn glb_total_len(g: GLTF) -> int {
    12 + 8 + glb_json_len(g) + (if g.bin@.len() > 0 {
        8 + glb_bin_len(g)
    } else {
        0
    })
}

/// The entire GLB byte image of the document.
pub open spec fn glb_bytes(g: GLTF) -> Seq<u8> {
    let json = doc_json(g);
    let head = Seq::<u8>::empty() + glb_magic() + le32(2) + le32(glb_total_len(g) as u32) + le32(
        glb_json_len(g) as u32,
    ) + json_tag() + json + spaces(pad4(json.len() as int) as nat);
    if g.bin@.len() > 0 {
        head + le32(glb_bin_len(g) as u32) + bin_tag() + g.bin@ + zeros(
            pad4(g.bin@.len() as int) as nat,
        )
    } else {
        head
    }
}

/// The chunk lengths are multiples of four, and the header fields sit
/// at their places in the image: the magic, the version word, and the
/// total length, which the image's length equals.
#[verifier::rlimit(100)]
pub proof fn lemma_glb_header(g: GLTF)
    ensures
        glb_bytes(g).len() == glb_total_len(g),
        glb_bytes(g).subrange(0, 4) == glb_magic(),
        glb_bytes(g).subrange(4, 8) == le32(2),
        glb_bytes(g).subrange(8, 12) == le32(glb_total_len(g) as u32),
        glb_json_len(g) % 4 == 0,
        glb_bin_len(g) % 4 == 0,
        glb_total_len(g) == 12 + 8 + glb_json_len(g) + (if g.bin@.len() > 0 {
            8 + glb_bin_len(g)
        } else {
            0
        }),
{
    let jn = doc_json(g).len() as int;
    let bn = g.bin@.len() as int;
    assert(jn % 4 == 0 || jn % 4 == 1 || jn % 4 == 2 || jn % 4 == 3);
    assert((jn + pad4(jn)) % 4 == 0);
    assert((bn + pad4(bn)) % 4 == 0);
    assert(glb_bytes(g).len() == glb_total_len(g));
    assert(glb_bytes(g).subrange(0, 4) =~= glb_magic());
    assert(glb_bytes(g).subrange(4, 8) =~= le32(2));
    assert(glb_bytes(g).subrange(8, 12) =~= le32(glb_total_len(g) as u32));
}

impl Geometry {
    /// The component type of the index stream: 16-bit words while the
    /// vertex count fits, else 32-bit.
    pub fn tris_raw_component_type(&self) -> (r: ComponentType)
        ensures
            r == (if self@.vtcs.len() >= 0x10000 {
                ComponentType::UnsignedInt
            } else {
                ComponentType::UnsignedShort
            }),
    {
        if self.vtcs.len() >= 0x10000 {
            ComponentType::UnsignedInt
        } else {
            ComponentType::UnsignedShort
        }
    }

    /// Packs this geometry into the document: appends the positions
    /// stream and the index stream to the binary blob, describes each
    /// with a buffer view and an accessor, and returns the two accessor
    /// handles.  The caller supplies the single-precision position
    /// words (three per vertex) and the componentwise bounds as number
    /// texts, three each.
    pub fn pack(
        &self,
        doc: &mut GLTF,
        positions: &Vec<u32>,
        min: Vec<Vec<u8>>,
        max: Vec<Vec<u8>>,
    ) -> (r: PackedGeometry)
        requires
            self@.wf(),
            old(doc).wf(),
            positions@.len() == self@.vtcs.len() * 3,
            min@.len() == 3,
            max@.len() == 3,
            old(doc).bin@.len() + positions@.len() * 4 + self@.tris.len() * 12 < 0x1_0000_0000,
            old(doc).accessors@.len() + 2 < 0x1_0000_0000,
            old(doc).buffer_views@.len() + 2 < 0x1_0000_0000,
        ensures
            ({
                let wide = self@.vtcs.len() >= 0x10000;
                let posbytes = words_bytes(positions@);
                let idxbytes = tris_bytes(self@.tris, wide);
                let nv = old(doc).buffer_views@.len() as int;
                let na = old(doc).accessors@.len() as int;
                &&& final(doc).bin@ == old(doc).bin@ + posbytes + idxbytes
                &&& final(doc).buffer_views@.len() == nv + 2
                &&& final(doc).buffer_views@.take(nv) == old(doc).buffer_views@
                &&& ({
                    let v1 = final(doc).buffer_views@[nv];
                    &&& v1.name@ == Seq::<u8>::empty()
                    &&& v1.buffer == 0
                    &&& v1.byte_length == posbytes.len()
                    &&& v1.byte_offset == old(doc).bin@.len()
                    &&& v1.byte_stride is None
                    &&& v1.target == Some(Target::ArrayBuffer)
                })
                &&& ({
                    let v2 = final(doc).buffer_views@[nv + 1];
                    &&& v2.name@ == Seq::<u8>::empty()
                    &&& v2.buffer == 0
                    &&& v2.byte_length == idxbytes.len()
                    &&& v2.byte_offset == old(doc).bin@.len() + posbytes.len()
                    &&& v2.byte_stride is None
                    &&& v2.target == Some(Target::ElementArrayBuffer)
                })
                &&& final(doc).accessors@.len() == na + 2
                &&& final(doc).accessors@.take(na) == old(doc).accessors@
                &&& ({
                    let a1 = final(doc).accessors@[na];
                    &&& a1.name@ == Seq::<u8>::empty()
                    &&& a1.buffer_view == Some(nv as u32)
                    &&& a1.byte_offset == 0
                    &&& a1.component_type == ComponentType::Float
                    &&& a1.normalized == false
                    &&& a1.count == self@.vtcs.len()
                    &&& a1.type_ == Type::VEC3
                    &&& a1.min == min
                    &&& a1.max == max
                })
                &&& ({
                    let a2 = final(doc).accessors@[na + 1];
                    &&& a2.name@ == Seq::<u8>::empty()
                    &&& a2.buffer_view == Some((nv + 1) as u32)
                    &&& a2.byte_offset == 0
                    &&& a2.component_type == (if wide {
                        ComponentType::UnsignedInt
                    } else {
                        ComponentType::UnsignedShort
                    })
                    &&& a2.normalized == false
                    &&& a2.count == self@.tris.len() * 3
                    &&& a2.type_ == Type::SCALAR
                    &&& a2.min@ == Seq::<Vec<u8>>::empty()
                    &&& a2.max@ == Seq::<Vec<u8>>::empty()
                })
                &&& final(doc).buffers@ == old(doc).buffers@.update(
                    0,
                    Buffer {
                        byte_length: (old(doc).bin@.len() + posbytes.len()
                            + idxbytes.len()) as u32,
                        ..old(doc).buffers@[0]
                    },
                )
                &&& *final(doc) == (GLTF {
                    bin: final(doc).bin,
                    buffer_views: final(doc).buffer_views,
                    accessors: final(doc).accessors,
                    buffers: final(doc).buffers,
                    ..*old(doc)
                })
                &&& r == (PackedGeometry { vtx_buffer: na as u32, tri_buffer: (na + 1) as u32 })
                &&& final(doc).wf()
            }),
    {
        let ghost g0 = *doc;
        let wide = self.vtcs.len() >= 0x10000;

        // the positions stream
        let mut pos_stream: Vec<u8> = Vec::new();
        let np = positions.len();
        proof {
            assert(positions@.take(0) =~= Seq::<u32>::empty());
            lemma_words_bytes_len(positions@);
        }
        let mut k: usize = 0;
        while k < np
            invariant
                np == positions@.len(),
                0 <= k <= np,
                pos_stream@ == words_bytes(positions@.take(k as int)),
            decreases np - k,
        {
            proof {
                let cur = positions@.take(k as int + 1);
                assert(cur.drop_last() =~= positions@.take(k as int));
                assert(cur.last() == positions@[k as int]);
            }
            push_le32(&mut pos_stream, positions[k]);
            k += 1;
        }
        proof {
            assert(positions@.take(np as int) =~= positions@);
        }

        // the index stream
        let idx_stream = self.tris_raw();
        proof {
            lemma_tris_bytes_len(self@.tris, wide);
        }

        let bin_before = doc.bin.len();
        push_bytes(&mut doc.bin, &pos_stream);
        push_bytes(&mut doc.bin, &idx_stream);
        proof {
            assert(doc.bin@ =~= g0.bin@ + pos_stream@ + idx_stream@);
        }

        // views and accessors for the two streams
        let nv = doc.buffer_views.len();
        let na = doc.accessors.len();

        let mut v1 = BufferView::new(Vec::new());
        v1.byte_length = pos_stream.len() as u32;
        v1.byte_offset = bin_before as u32;
        v1.target = Some(Target::ArrayBuffer);
        doc.buffer_views.push(v1);

        let mut v2 = BufferView::new(Vec::new());
        v2.byte_length = idx_stream.len() as u32;
        v2.byte_offset = (bin_before + pos_stream.len()) as u32;
        v2.target = Some(Target::ElementArrayBuffer);
        doc.buffer_views.push(v2);

        let mut a1 = Accessor::new(Vec::new());
        a1.buffer_view = Some(nv as u32);
        a1.component_type = ComponentType::Float;
        a1.count = (self.vtcs.len()) as u32;
        a1.type_ = Type::VEC3;
        a1.min = min;
        a1.max = max;
        doc.accessors.push(a1);

        let mut a2 = Accessor::new(Vec::new());
        a2.buffer_view = Some((nv + 1) as u32);
        a2.component_type = if wide {
            ComponentType::UnsignedInt
        } else {
            ComponentType::UnsignedShort
        };
        a2.count = (self.tris.len() * 3) as u32;
        a2.type_ = Type::SCALAR;
        doc.accessors.push(a2);

        let new_len = doc.bin.len();
        let b = &mut doc.buffers[0];
        b.byte_length = new_len as u32;

        proof {
            assert(doc.buffer_views@.take(nv as int) =~= g0.buffer_views@);
            assert(doc.accessors@.take(na as int) =~= g0.accessors@);
            // the untouched collections keep their well-formedness; the
            // accessor count only grew
            assert forall|i: int| 0 <= i < doc.meshes@.len() implies mesh_wf(
                #[trigger] doc.meshes@[i],
                doc.materials@.len() as int,
                doc.accessors@.len() as int,
            ) by {
                assert(mesh_wf(doc.meshes@[i], g0.materials@.len() as int,
                    g0.accessors@.len() as int));
                assert forall|j: int| 0 <= j < doc.meshes@[i].primitives@.len() implies prim_wf(
                    #[trigger] doc.meshes@[i].primitives@[j],
                    doc.materials@.len() as int,
                    doc.accessors@.len() as int,
                ) by {
                    assert(prim_wf(doc.meshes@[i].primitives@[j], g0.materials@.len() as int,
                        g0.accessors@.len() as int));
                }
            }
        }
        PackedGeometry { vtx_buffer: na as u32, tri_buffer: (na + 1) as u32 }
    }
}

/// Appends the magic bytes.
fn push_magic(out: &mut Vec<u8>)
    ensures
        final(out)@ == old(out)@ + glb_magic(),
{
    out.push(103);
    out.push(108);
    out.push(84);
    out.push(70);
    proof {
        assert(out@ =~= old(out)@ + glb_magic());
    }
}

/// Appends the JSON chunk tag.
fn push_json_tag(out: &mut Vec<u8>)
    ensures
        final(out)@ == old(out)@ + json_tag(),
{
    out.push(74);
    out.push(83);
    out.push(79);
    out.push(78);
    proof {
        assert(out@ =~= old(out)@ + json_tag());
    }
}

/// Appends the BIN chunk tag.
fn push_bin_tag(out: &mut Vec<u8>)
    ensures
        final(out)@ == old(out)@ + bin_tag(),
{
    out.push(66);
    out.push(73);
    out.push(78);
    out.push(0);
    proof {
        assert(out@ =~= old(out)@ + bin_tag());
    }
}

/// Writes the document out in the chunked GLB framing: the 12-byte
/// header, the space-padded JSON chunk, and — while the binary blob is
/// not empty — the zero-padded BIN chunk.  Returns `None` only if the
/// total would not fit the header's 32-bit length field.
#[verifier::rlimit(100)]
pub fn serialize(doc: &GLTF) -> (r: Option<Vec<u8>>)
    ensures
        match r {
            Some(out) => {
                &&& out@ == glb_bytes(*doc)
                &&& out@.len() == glb_total_len(*doc)
                &&& out@.subrange(0, 4) == glb_magic()
                &&& out@.subrange(4, 8) == le32(2)
                &&& out@.subrange(8, 12) == le32(glb_total_len(*doc) as u32)
                &&& glb_json_len(*doc) % 4 == 0
                &&& glb_bin_len(*doc) % 4 == 0
                &&& glb_total_len(*doc) == 12 + 8 + glb_json_len(*doc) + (if doc.bin@.len() > 0 {
                    8 + glb_bin_len(*doc)
                } else {
                    0
                })
            },
            None => glb_total_len(*doc) > 0xFFFF_FFFF,
        },
{
    let mut json: Vec<u8> = Vec::new();
    write_doc(&mut json, doc);
    proof {
        assert(Seq::<u8>::empty() + doc_json(*doc) =~= doc_json(*doc));
    }
    let jn = json.len();
    let jpad: usize = (4 - jn % 4) % 4;
    let bn = doc.bin.len();
    let bpad: usize = (4 - bn % 4) % 4;
    if jn as u64 >= 0xFFFF_FFF0u64 || bn as u64 >= 0xFFFF_FFF0u64 {
        return None;
    }
    let jlen = jn as u64 + jpad as u64;
    let blen = bn as u64 + bpad as u64;
    let total: u64 = 12 + 8 + jlen + (if bn > 0 {
        8 + blen
    } else {
        0
    });
    if total > 0xFFFF_FFFF {
        return None;
    }
    let mut out: Vec<u8> = Vec::new();
    push_magic(&mut out);
    push_le32(&mut out, 2);
    push_le32(&mut out, total as u32);
    push_le32(&mut out, jlen as u32);
    push_json_tag(&mut out);
    push_bytes(&mut out, &json);
    proof {
        assert(total == glb_total_len(*doc));
        assert(jlen == glb_json_len(*doc));
    }
    let mut p: usize = 0;
    let ghost head = out@;
    while p < jpad
        invariant
            0 <= p <= jpad,
            out@ == head + spaces(p as nat),
        decreases jpad - p,
    {
        proof {
            assert(spaces((p + 1) as nat).drop_last() =~= spaces(p as nat));
            assert((head + spaces(p as nat)).push(32u8) =~= head + spaces((p + 1) as nat));
        }
        out.push(32);
        p += 1;
    }
    if bn > 0 {
        push_le32(&mut out, blen as u32);
        push_bin_tag(&mut out);
        push_bytes(&mut out, &doc.bin);
        let mut q: usize = 0;
        let ghost head2 = out@;
        while q < bpad
            invariant
                0 <= q <= bpad,
                out@ == head2 + zeros(q as nat),
            decreases bpad - q,
        {
            proof {
                assert(zeros((q + 1) as nat).drop_last() =~= zeros(q as nat));
                assert((head2 + zeros(q as nat)).push(0u8) =~= head2 + zeros((q + 1) as nat));
            }
            out.push(0);
            q += 1;
        }
    }
    proof {
        assert(out@ == glb_bytes(*doc));
        lemma_glb_header(*doc);
    }
    Some(out)
}

} // verus!
