use vstd::prelude::*;
use crate::bytes::{dec, push_dec};
use crate::gltf::{
    txt_half, txt_one, Accessor, AlphaMode, Asset, Attributes, Buffer, BufferView, Color4, Material,
    Mesh, MeshPrimitive, Mode, Node, PBRMetallicRoughness, Rotation, Scale, Scene, Target,
    Translation, Type, GLTF,
};
use crate::json_lits::{
    lit_accessors, lit_alpha_cutoff, lit_alpha_mode, lit_asset, lit_attributes, lit_base_color, lit_blend, lit_buffer, lit_buffer_view, lit_buffer_views, lit_buffers, lit_byte_length, lit_byte_offset, lit_byte_stride, lit_children, lit_color_0, lit_component_type, lit_copyright, lit_count, lit_double_sided, lit_emissive_factor, lit_generator, lit_indices, lit_joints_0, lit_mask, lit_mat2, lit_mat3, lit_mat4, lit_material, lit_materials, lit_matrix, lit_max, lit_mesh, lit_meshes, lit_metallic, lit_min, lit_min_version, lit_mode, lit_name, lit_nodes, lit_normal, lit_normalized, lit_pbr, lit_position, lit_primitives, lit_rotation, lit_roughness, lit_scalar, lit_scale, lit_scene, lit_scenes, lit_tangent, lit_target, lit_texcoord_0, lit_texcoord_1, lit_texcoord_2, lit_texcoord_3, lit_translation, lit_true, lit_type_, lit_uri, lit_vec2, lit_vec3, lit_vec4, lit_version, lit_weights, lit_weights_0, push_accessors, push_alpha_cutoff, push_alpha_mode, push_asset, push_attributes, push_base_color, push_blend, push_buffer, push_buffer_view, push_buffer_views, push_buffers, push_byte_length, push_byte_offset, push_byte_stride, push_children, push_color_0, push_component_type, push_copyright, push_count, push_double_sided, push_emissive_factor, push_generator, push_indices, push_joints_0, push_mask, push_mat2, push_mat3, push_mat4, push_material, push_materials, push_matrix, push_max, push_mesh, push_meshes, push_metallic, push_min, push_min_version, push_mode, push_name, push_nodes, push_normal, push_normalized, push_pbr, push_position, push_primitives, push_rotation, push_roughness, push_scalar, push_scale, push_scene, push_scenes, push_tangent, push_target, push_texcoord_0, push_texcoord_1, push_texcoord_2, push_texcoord_3, push_translation, push_true, push_type_, push_uri, push_vec2, push_vec3, push_vec4, push_version, push_weights, push_weights_0,
};

verus! {

// The document's JSON form, byte for byte.  Every member is written as
// `,"key":value`; wrapping an object or array strips the leading comma
// of its member run.  A field equal to its documented default is
// omitted, as is an empty collection; the buffers array is omitted
// while the binary blob is empty, since the only buffer describes that
// blob.  Strings escape the quote, the backslash, and control bytes
// (as `\u00..`, lowercase hex); other bytes pass through unchanged.

/// A hex digit, lowercase.
pub open spec fn hexd(n: int) -> u8 {
    if n < 10 {
        (48 + n) as u8
    } else {
        (87 + n) as u8
    }
}

/// The escape of one byte.
pub open spec fn esc_byte(b: u8) -> Seq<u8> {
    if b == 34 {
        seq![92u8, 34u8]
    } else if b == 92 {
        seq![92u8, 92u8]
    } else if b < 32 {
        seq![92u8, 117u8, 48u8, 48u8, hexd(b as int / 16), hexd(b as int % 16)]
    } else {
        seq![b]
    }
}

pub open spec fn escape(s: Seq<u8>) -> Seq<u8>
    decreases s.len(),
{
    if s.len() == 0 {
        Seq::empty()
    } else {
        escape(s.drop_last()) + esc_byte(s.last())
    }
}

/// A JSON string: quoted and escaped.
pub open spec fn json_string(s: Seq<u8>) -> Seq<u8> {
    seq![34u8] + escape(s) + seq![34u8]
}

/// An object over a member run (each member starts with a comma).
pub open spec fn obj_of(ms: Seq<u8>) -> Seq<u8> {
    seq![123u8] + (if ms.len() > 0 {
        ms.skip(1)
    } else {
        Seq::empty()
    }) + seq![125u8]
}

/// An array over a member run.
pub open spec fn arr_of(ms: Seq<u8>) -> Seq<u8> {
    seq![91u8] + (if ms.len() > 0 {
        ms.skip(1)
    } else {
        Seq::empty()
    }) + seq![93u8]
}

/// The members of an array of whole numbers.
pub open spec fn idx_members(v: Seq<u32>) -> Seq<u8>
    decreases v.len(),
{
    if v.len() == 0 {
        Seq::empty()
    } else {
        idx_members(v.drop_last()) + seq![44u8] + dec(v.last() as nat)
    }
}

/// The members of an array of number texts.
pub open spec fn numlist_members(ts: Seq<Vec<u8>>) -> Seq<u8>
    decreases ts.len(),
{
    if ts.len() == 0 {
        Seq::empty()
    } else {
        numlist_members(ts.drop_last()) + seq![44u8] + ts.last()@
    }
}

/// A fixed triple `[x,y,z]` of number texts.
pub open spec fn num3_json(t: Translation) -> Seq<u8> {
    seq![91u8] + t.x@ + seq![44u8] + t.y@ + seq![44u8] + t.z@ + seq![93u8]
}

/// A fixed quadruple `[x,y,z,w]`.
pub open spec fn num4_json(r: Rotation) -> Seq<u8> {
    seq![91u8] + r.x@ + seq![44u8] + r.y@ + seq![44u8] + r.z@ + seq![44u8] + r.w@ + seq![93u8]
}

/// A fixed scale triple `[x,y,z]`.
pub open spec fn scale3_json(s: Scale) -> Seq<u8> {
    seq![91u8] + s.x@ + seq![44u8] + s.y@ + seq![44u8] + s.z@ + seq![93u8]
}

/// A fixed color quadruple `[r,g,b,a]`.
pub open spec fn color4_json(c: Color4) -> Seq<u8> {
    seq![91u8] + c.r@ + seq![44u8] + c.g@ + seq![44u8] + c.b@ + seq![44u8] + c.a@ + seq![93u8]
}

pub open spec fn asset_members(a: Asset) -> Seq<u8> {
    let s0 = Seq::<u8>::empty();
    let s1 = if a.copyright@.len() > 0 {
        s0 + lit_copyright() + json_string(a.copyright@)
    } else {
        s0
    };
    let s2 = if a.generator@.len() > 0 {
        s1 + lit_generator() + json_string(a.generator@)
    } else {
        s1
    };
    let s3 = s2 + lit_version() + json_string(a.version@);
    if a.min_version@.len() > 0 {
        s3 + lit_min_version() + json_string(a.min_version@)
    } else {
        s3
    }
}

pub open spec fn asset_json(a: Asset) -> Seq<u8> {
    obj_of(asset_members(a))
}

pub open spec fn scene_members(sc: Scene) -> Seq<u8> {
    let s0 = Seq::<u8>::empty();
    let s1 = if sc.name@.len() > 0 {
        s0 + lit_name() + json_string(sc.name@)
    } else {
        s0
    };
    if sc.nodes@.len() > 0 {
        s1 + lit_nodes() + arr_of(idx_members(sc.nodes@))
    } else {
        s1
    }
}

pub open spec fn scene_json(s: Scene) -> Seq<u8> {
    obj_of(scene_members(s))
}

pub open spec fn scenes_members(ss: Seq<Scene>) -> Seq<u8>
    decreases ss.len(),
{
    if ss.len() == 0 {
        Seq::empty()
    } else {
        scenes_members(ss.drop_last()) + seq![44u8] + scene_json(ss.last())
    }
}

pub open spec fn node_members(n: Node) -> Seq<u8> {
    let s0 = Seq::<u8>::empty();
    let s1 = if n.name@.len() > 0 {
        s0 + lit_name() + json_string(n.name@)
    } else {
        s0
    };
    let s2 = match n.mesh {
        Some(h) => s1 + lit_mesh() + dec(h as nat),
        None => s1,
    };
    let s3 = if !n.t.spec_is_default() {
        s2 + lit_translation() + num3_json(n.t)
    } else {
        s2
    };
    let s4 = if !n.r.spec_is_default() {
        s3 + lit_rotation() + num4_json(n.r)
    } else {
        s3
    };
    let s5 = if !n.s.spec_is_default() {
        s4 + lit_scale() + scale3_json(n.s)
    } else {
        s4
    };
    let s6 = match n.matrix {
        Some(m) => s5 + lit_matrix() + arr_of(numlist_members(m@)),
        None => s5,
    };
    if n.children@.len() > 0 {
        s6 + lit_children() + arr_of(idx_members(n.children@))
    } else {
        s6
    }
}

pub open spec fn node_json(n: Node) -> Seq<u8> {
    obj_of(node_members(n))
}

pub open spec fn nodes_members(ns: Seq<Node>) -> Seq<u8>
    decreases ns.len(),
{
    if ns.len() == 0 {
        Seq::empty()
    } else {
        nodes_members(ns.drop_last()) + seq![44u8] + node_json(ns.last())
    }
}

pub open spec fn pbr_members(p: PBRMetallicRoughness) -> Seq<u8> {
    let s0 = Seq::<u8>::empty();
    let s1 = if !p.base_color_factor.spec_is_default() {
        s0 + lit_base_color() + color4_json(p.base_color_factor)
    } else {
        s0
    };
    let s2 = if p.metallic_factor@ != txt_one() {
        s1 + lit_metallic() + p.metallic_factor@
    } else {
        s1
    };
    if p.roughness_factor@ != txt_one() {
        s2 + lit_roughness() + p.roughness_factor@
    } else {
        s2
    }
}

pub open spec fn pbr_json(p: PBRMetallicRoughness) -> Seq<u8> {
    obj_of(pbr_members(p))
}

pub open spec fn material_members(m: Material) -> Seq<u8> {
    let s0 = Seq::<u8>::empty();
    let s1 = if m.name@.len() > 0 {
        s0 + lit_name() + json_string(m.name@)
    } else {
        s0
    };
    let s2 = if !m.emissive_factor.spec_is_default() {
        s1 + lit_emissive_factor() + num3_json(m.emissive_factor)
    } else {
        s1
    };
    let s3 = match m.alpha_mode {
        AlphaMode::OPAQUE => s2,
        AlphaMode::MASK => s2 + lit_alpha_mode() + lit_mask(),
        AlphaMode::BLEND => s2 + lit_alpha_mode() + lit_blend(),
    };
    let s4 = if m.alpha_cutoff@ != txt_half() {
        s3 + lit_alpha_cutoff() + m.alpha_cutoff@
    } else {
        s3
    };
    let s5 = if m.double_sided {
        s4 + lit_double_sided() + lit_true()
    } else {
        s4
    };
    s5 + lit_pbr() + pbr_json(m.pbr_metallic_roughness)
}

pub open spec fn material_json(m: Material) -> Seq<u8> {
    obj_of(material_members(m))
}

pub open spec fn materials_members(ms: Seq<Material>) -> Seq<u8>
    decreases ms.len(),
{
    if ms.len() == 0 {
        Seq::empty()
    } else {
        materials_members(ms.drop_last()) + seq![44u8] + material_json(ms.last())
    }
}

pub open spec fn opt_member(o: Option<u32>, key: Seq<u8>) -> Seq<u8> {
    match o {
        Some(h) => key + dec(h as nat),
        None => Seq::empty(),
    }
}

pub open spec fn attributes_members(at: Attributes) -> Seq<u8> {
    let s0 = Seq::<u8>::empty();
    let s1 = match at.color_0 {
        Some(h) => s0 + lit_color_0() + dec(h as nat),
        None => s0,
    };
    let s2 = match at.joints_0 {
        Some(h) => s1 + lit_joints_0() + dec(h as nat),
        None => s1,
    };
    let s3 = match at.normal {
        Some(h) => s2 + lit_normal() + dec(h as nat),
        None => s2,
    };
    let s4 = match at.position {
        Some(h) => s3 + lit_position() + dec(h as nat),
        None => s3,
    };
    let s5 = match at.tangent {
        Some(h) => s4 + lit_tangent() + dec(h as nat),
        None => s4,
    };
    let s6 = match at.texcoord_0 {
        Some(h) => s5 + lit_texcoord_0() + dec(h as nat),
        None => s5,
    };
    let s7 = match at.texcoord_1 {
        Some(h) => s6 + lit_texcoord_1() + dec(h as nat),
        None => s6,
    };
    let s8 = match at.texcoord_2 {
        Some(h) => s7 + lit_texcoord_2() + dec(h as nat),
        None => s7,
    };
    let s9 = match at.texcoord_3 {
        Some(h) => s8 + lit_texcoord_3() + dec(h as nat),
        None => s8,
    };
    match at.weights_0 {
        Some(h) => s9 + lit_weights_0() + dec(h as nat),
        None => s9,
    }
}

pub open spec fn attributes_json(at: Attributes) -> Seq<u8> {
    obj_of(attributes_members(at))
}

pub open spec fn prim_members(p: MeshPrimitive) -> Seq<u8> {
    let s0 = Seq::<u8>::empty() + lit_attributes() + attributes_json(p.attributes);
    let s1 = match p.indices {
        Some(h) => s0 + lit_indices() + dec(h as nat),
        None => s0,
    };
    let s2 = match p.material {
        Some(h) => s1 + lit_material() + dec(h as nat),
        None => s1,
    };
    if p.mode != Mode::Triangles {
        s2 + lit_mode() + dec(p.mode.spec_code() as nat)
    } else {
        s2
    }
}

pub open spec fn prim_json(p: MeshPrimitive) -> Seq<u8> {
    obj_of(prim_members(p))
}

pub open spec fn prims_members(ps: Seq<MeshPrimitive>) -> Seq<u8>
    decreases ps.len(),
{
    if ps.len() == 0 {
        Seq::empty()
    } else {
        prims_members(ps.drop_last()) + seq![44u8] + prim_json(ps.last())
    }
}

pub open spec fn mesh_members(m: Mesh) -> Seq<u8> {
    let s0 = Seq::<u8>::empty();
    let s1 = if m.name@.len() > 0 {
        s0 + lit_name() + json_string(m.name@)
    } else {
        s0
    };
    let s2 = s1 + lit_primitives() + arr_of(prims_members(m.primitives@));
    if m.weights@.len() > 0 {
        s2 + lit_weights() + arr_of(numlist_members(m.weights@))
    } else {
        s2
    }
}

pub open spec fn mesh_json(m: Mesh) -> Seq<u8> {
    obj_of(mesh_members(m))
}

pub open spec fn meshes_members(ms: Seq<Mesh>) -> Seq<u8>
    decreases ms.len(),
{
    if ms.len() == 0 {
        Seq::empty()
    } else {
        meshes_members(ms.drop_last()) + seq![44u8] + mesh_json(ms.last())
    }
}

/// The quoted name of an accessor element type.
pub open spec fn type_text(t: Type) -> Seq<u8> {
    match t {
        Type::SCALAR => lit_scalar(),
        Type::VEC2 => lit_vec2(),
        Type::VEC3 => lit_vec3(),
        Type::VEC4 => lit_vec4(),
        Type::MAT2 => lit_mat2(),
        Type::MAT3 => lit_mat3(),
        Type::MAT4 => lit_mat4(),
    }
}

pub open spec fn accessor_members(a: Accessor) -> Seq<u8> {
    let s0 = Seq::<u8>::empty();
    let s1 = if a.name@.len() > 0 {
        s0 + lit_name() + json_string(a.name@)
    } else {
        s0
    };
    let s2 = match a.buffer_view {
        Some(h) => s1 + lit_buffer_view() + dec(h as nat),
        None => s1,
    };
    let s3 = if a.byte_offset != 0 {
        s2 + lit_byte_offset() + dec(a.byte_offset as nat)
    } else {
        s2
    };
    let s4 = s3 + lit_component_type() + dec(a.component_type.spec_code() as nat);
    let s5 = if a.normalized {
        s4 + lit_normalized() + lit_true()
    } else {
        s4
    };
    let s6 = s5 + lit_count() + dec(a.count as nat) + lit_type_() + type_text(a.type_);
    let s7 = if a.max@.len() > 0 {
        s6 + lit_max() + arr_of(numlist_members(a.max@))
    } else {
        s6
    };
    if a.min@.len() > 0 {
        s7 + lit_min() + arr_of(numlist_members(a.min@))
    } else {
        s7
    }
}

pub open spec fn accessor_json(a: Accessor) -> Seq<u8> {
    obj_of(accessor_members(a))
}

pub open spec fn accessors_members(accs: Seq<Accessor>) -> Seq<u8>
    decreases accs.len(),
{
    if accs.len() == 0 {
        Seq::empty()
    } else {
        accessors_members(accs.drop_last()) + seq![44u8] + accessor_json(accs.last())
    }
}

pub open spec fn view_members(v: BufferView) -> Seq<u8> {
    let s0 = Seq::<u8>::empty();
    let s1 = if v.name@.len() > 0 {
        s0 + lit_name() + json_string(v.name@)
    } else {
        s0
    };
    let s2 = s1 + lit_buffer() + dec(v.buffer as nat) + lit_byte_length() + dec(
        v.byte_length as nat,
    ) + lit_byte_offset() + dec(v.byte_offset as nat);
    let s3 = match v.byte_stride {
        Some(h) => s2 + lit_byte_stride() + dec(h as nat),
        None => s2,
    };
    match v.target {
        Some(t) => s3 + lit_target() + dec(t.spec_code() as nat),
        None => s3,
    }
}

pub open spec fn view_json(v: BufferView) -> Seq<u8> {
    obj_of(view_members(v))
}

pub open spec fn views_members(vs: Seq<BufferView>) -> Seq<u8>
    decreases vs.len(),
{
    if vs.len() == 0 {
        Seq::empty()
    } else {
        views_members(vs.drop_last()) + seq![44u8] + view_json(vs.last())
    }
}

pub open spec fn buffer_members(b: Buffer) -> Seq<u8> {
    let s0 = Seq::<u8>::empty();
    let s1 = if b.name@.len() > 0 {
        s0 + lit_name() + json_string(b.name@)
    } else {
        s0
    };
    let s2 = s1 + lit_byte_length() + dec(b.byte_length as nat);
    if b.uri@.len() > 0 {
        s2 + lit_uri() + json_string(b.uri@)
    } else {
        s2
    }
}

pub open spec fn buffer_json(b: Buffer) -> Seq<u8> {
    obj_of(buffer_members(b))
}

pub open spec fn buffers_members(bs: Seq<Buffer>) -> Seq<u8>
    decreases bs.len(),
{
    if bs.len() == 0 {
        Seq::empty()
    } else {
        buffers_members(bs.drop_last()) + seq![44u8] + buffer_json(bs.last())
    }
}

/// The member run of the whole document.
pub open spec fn doc_members(g: GLTF) -> Seq<u8> {
    let s0 = Seq::<u8>::empty() + lit_asset() + asset_json(g.asset);
    let s1 = match g.scene {
        Some(h) => s0 + lit_scene() + dec(h as nat),
        None => s0,
    };
    let s2 = if g.scenes@.len() > 0 {
        s1 + lit_scenes() + arr_of(scenes_members(g.scenes@))
    } else {
        s1
    };
    let s3 = if g.nodes@.len() > 0 {
        s2 + lit_nodes() + arr_of(nodes_members(g.nodes@))
    } else {
        s2
    };
    let s4 = if g.materials@.len() > 0 {
        s3 + lit_materials() + arr_of(materials_members(g.materials@))
    } else {
        s3
    };
    let s5 = if g.meshes@.len() > 0 {
        s4 + lit_meshes() + arr_of(meshes_members(g.meshes@))
    } else {
        s4
    };
    let s6 = if g.accessors@.len() > 0 {
        s5 + lit_accessors() + arr_of(accessors_members(g.accessors@))
    } else {
        s5
    };
    let s7 = if g.buffer_views@.len() > 0 {
        s6 + lit_buffer_views() + arr_of(views_members(g.buffer_views@))
    } else {
        s6
    };
    if g.bin@.len() > 0 {
        s7 + lit_buffers() + arr_of(buffers_members(g.buffers@))
    } else {
        s7
    }
}

/// The whole document's JSON form.
#[verifier::opaque]
pub open spec fn doc_json(g: GLTF) -> Seq<u8> {
    obj_of(doc_members(g))
}

// ------------------------------------------------------------------
// Writers.  Each appends exactly the spec form above.

/// Appends a byte run.
pub fn push_bytes(out: &mut Vec<u8>, v: &Vec<u8>)
    ensures
        final(out)@ == old(out)@ + v@,
{
    let n = v.len();
    let mut i: usize = 0;
    proof {
        assert(out@ =~= old(out)@ + v@.take(0));
    }
    while i < n
        invariant
            n == v@.len(),
            0 <= i <= n,
            out@ == old(out)@ + v@.take(i as int),
        decreases n - i,
    {
        proof {
            assert(v@.take(i as int + 1) =~= v@.take(i as int).push(v@[i as int]));
            assert((old(out)@ + v@.take(i as int)).push(v@[i as int]) =~= old(out)@ + v@.take(
                i as int + 1,
            ));
        }
        let b = v[i];
        out.push(b);
        i += 1;
    }
    proof {
        assert(v@.take(n as int) =~= v@);
    }
}

/// Appends one comma.
pub fn push_comma(out: &mut Vec<u8>)
    ensures
        final(out)@ == old(out)@ + seq![44u8],
{
    out.push(44);
    proof {
        assert(out@ =~= old(out)@ + seq![44u8]);
    }
}

/// Wraps a member run in braces, stripping its leading comma.
pub fn wrap_obj(out: &mut Vec<u8>, ms: &Vec<u8>)
    ensures
        final(out)@ == old(out)@ + obj_of(ms@),
{
    out.push(123);
    let n = ms.len();
    if n > 0 {
        let mut i: usize = 1;
        proof {
            assert(out@ =~= old(out)@ + seq![123u8] + ms@.subrange(1, 1));
        }
        while i < n
            invariant
                n == ms@.len(),
                1 <= i <= n,
                out@ == old(out)@ + seq![123u8] + ms@.subrange(1, i as int),
            decreases n - i,
        {
            proof {
                assert(ms@.subrange(1, i as int + 1) =~= ms@.subrange(1, i as int).push(
                    ms@[i as int],
                ));
                assert((old(out)@ + seq![123u8] + ms@.subrange(1, i as int)).push(ms@[i as int])
                    =~= old(out)@ + seq![123u8] + ms@.subrange(1, i as int + 1));
            }
            let b = ms[i];
            out.push(b);
            i += 1;
        }
        proof {
            assert(ms@.subrange(1, n as int) =~= ms@.skip(1));
        }
    }
    out.push(125);
    proof {
        assert(out@ =~= old(out)@ + obj_of(ms@));
    }
}

/// Wraps a member run in brackets, stripping its leading comma.
pub fn wrap_arr(out: &mut Vec<u8>, ms: &Vec<u8>)
    ensures
        final(out)@ == old(out)@ + arr_of(ms@),
{
    out.push(91);
    let n = ms.len();
    if n > 0 {
        let mut i: usize = 1;
        proof {
            assert(out@ =~= old(out)@ + seq![91u8] + ms@.subrange(1, 1));
        }
        while i < n
            invariant
                n == ms@.len(),
                1 <= i <= n,
                out@ == old(out)@ + seq![91u8] + ms@.subrange(1, i as int),
            decreases n - i,
        {
            proof {
                assert(ms@.subrange(1, i as int + 1) =~= ms@.subrange(1, i as int).push(
                    ms@[i as int],
                ));
                assert((old(out)@ + seq![91u8] + ms@.subrange(1, i as int)).push(ms@[i as int])
                    =~= old(out)@ + seq![91u8] + ms@.subrange(1, i as int + 1));
            }
            let b = ms[i];
            out.push(b);
            i += 1;
        }
        proof {
            assert(ms@.subrange(1, n as int) =~= ms@.skip(1));
        }
    }
    out.push(93);
    proof {
        assert(out@ =~= old(out)@ + arr_of(ms@));
    }
}

/// Appends a quoted, escaped string.
pub fn write_string(out: &mut Vec<u8>, s: &Vec<u8>)
    ensures
        final(out)@ == old(out)@ + json_string(s@),
{
    out.push(34);
    let n = s.len();
    let mut i: usize = 0;
    proof {
        assert(escape(s@.take(0)) =~= Seq::<u8>::empty());
        assert(out@ =~= old(out)@ + seq![34u8] + escape(s@.take(0)));
    }
    while i < n
        invariant
            n == s@.len(),
            0 <= i <= n,
            out@ == old(out)@ + seq![34u8] + escape(s@.take(i as int)),
        decreases n - i,
    {
        proof {
            let cur = s@.take(i as int + 1);
            assert(cur.drop_last() =~= s@.take(i as int));
            assert(cur.last() == s@[i as int]);
        }
        let ghost pre = out@;
        let b = s[i];
        if b == 34 {
            out.push(92);
            out.push(34);
        } else if b == 92 {
            out.push(92);
            out.push(92);
        } else if b < 32 {
            out.push(92);
            out.push(117);
            out.push(48);
            out.push(48);
            let hi = b / 16;
            let lo = b % 16;
            out.push(
                if hi < 10 {
                    48 + hi
                } else {
                    87 + hi
                },
            );
            out.push(
                if lo < 10 {
                    48 + lo
                } else {
                    87 + lo
                },
            );
        } else {
            out.push(b);
        }
        proof {
            assert(out@ =~= pre + esc_byte(s@[i as int]));
            assert(pre + esc_byte(s@[i as int]) =~= old(out)@ + seq![34u8] + escape(
                s@.take(i as int + 1),
            ));
        }
        i += 1;
    }
    out.push(34);
    proof {
        assert(s@.take(n as int) =~= s@);
        assert(out@ =~= old(out)@ + json_string(s@));
    }
}

/// Appends `[n0,n1,...]` over whole numbers.
pub fn write_idx_arr(out: &mut Vec<u8>, v: &Vec<u32>)
    ensures
        final(out)@ == old(out)@ + arr_of(idx_members(v@)),
{
    let n = v.len();
    let mut ms: Vec<u8> = Vec::new();
    proof {
        assert(v@.take(0) =~= Seq::<u32>::empty());
    }
    let mut i: usize = 0;
    while i < n
        invariant
            n == v@.len(),
            0 <= i <= n,
            ms@ == idx_members(v@.take(i as int)),
        decreases n - i,
    {
        proof {
            let cur = v@.take(i as int + 1);
            assert(cur.drop_last() =~= v@.take(i as int));
            assert(cur.last() == v@[i as int]);
        }
        let ghost pre = ms@;
        push_comma(&mut ms);
        push_dec(&mut ms, v[i] as u64);
        proof {
            assert(ms@ =~= pre + seq![44u8] + dec(v@[i as int] as nat));
            assert(pre + seq![44u8] + dec(v@[i as int] as nat) =~= idx_members(
                v@.take(i as int + 1),
            ));
        }
        i += 1;
    }
    proof {
        assert(v@.take(n as int) =~= v@);
    }
    wrap_arr(out, &ms);
}

/// Appends `[t0,t1,...]` over number texts.
pub fn write_numlist_arr(out: &mut Vec<u8>, ts: &Vec<Vec<u8>>)
    ensures
        final(out)@ == old(out)@ + arr_of(numlist_members(ts@)),
{
    let n = ts.len();
    let mut ms: Vec<u8> = Vec::new();
    proof {
        assert(ts@.take(0) =~= Seq::<Vec<u8>>::empty());
    }
    let mut i: usize = 0;
    while i < n
        invariant
            n == ts@.len(),
            0 <= i <= n,
            ms@ == numlist_members(ts@.take(i as int)),
        decreases n - i,
    {
        proof {
            let cur = ts@.take(i as int + 1);
            assert(cur.drop_last() =~= ts@.take(i as int));
            assert(cur.last() == ts@[i as int]);
        }
        let ghost pre = ms@;
        push_comma(&mut ms);
        push_bytes(&mut ms, &ts[i]);
        proof {
            assert(ms@ =~= pre + seq![44u8] + ts@[i as int]@);
            assert(pre + seq![44u8] + ts@[i as int]@ =~= numlist_members(ts@.take(i as int + 1)));
        }
        i += 1;
    }
    proof {
        assert(ts@.take(n as int) =~= ts@);
    }
    wrap_arr(out, &ms);
}

/// Appends `[x,y,z]`.
pub fn write_num3(out: &mut Vec<u8>, t: &Translation)
    ensures
        final(out)@ == old(out)@ + num3_json(*t),
{
    out.push(91);
    push_bytes(out, &t.x);
    push_comma(out);
    push_bytes(out, &t.y);
    push_comma(out);
    push_bytes(out, &t.z);
    out.push(93);
    proof {
        assert(out@ =~= old(out)@ + num3_json(*t));
    }
}

/// Appends `[x,y,z,w]`.
pub fn write_num4(out: &mut Vec<u8>, r: &Rotation)
    ensures
        final(out)@ == old(out)@ + num4_json(*r),
{
    out.push(91);
    push_bytes(out, &r.x);
    push_comma(out);
    push_bytes(out, &r.y);
    push_comma(out);
    push_bytes(out, &r.z);
    push_comma(out);
    push_bytes(out, &r.w);
    out.push(93);
    proof {
        assert(out@ =~= old(out)@ + num4_json(*r));
    }
}

/// Appends `[x,y,z]` of a scale.
pub fn write_scale3(out: &mut Vec<u8>, s: &Scale)
    ensures
        final(out)@ == old(out)@ + scale3_json(*s),
{
    out.push(91);
    push_bytes(out, &s.x);
    push_comma(out);
    push_bytes(out, &s.y);
    push_comma(out);
    push_bytes(out, &s.z);
    out.push(93);
    proof {
        assert(out@ =~= old(out)@ + scale3_json(*s));
    }
}

/// Appends `[r,g,b,a]`.
pub fn write_color4(out: &mut Vec<u8>, c: &Color4)
    ensures
        final(out)@ == old(out)@ + color4_json(*c),
{
    out.push(91);
    push_bytes(out, &c.r);
    push_comma(out);
    push_bytes(out, &c.g);
    push_comma(out);
    push_bytes(out, &c.b);
    push_comma(out);
    push_bytes(out, &c.a);
    out.push(93);
    proof {
        assert(out@ =~= old(out)@ + color4_json(*c));
    }
}

pub fn write_asset(out: &mut Vec<u8>, a: &Asset)
    ensures
        final(out)@ == old(out)@ + asset_json(*a),
{
    let mut ms: Vec<u8> = Vec::new();
    if a.copyright.len() > 0 {
        push_copyright(&mut ms);
        write_string(&mut ms, &a.copyright);
    }
    if a.generator.len() > 0 {
        push_generator(&mut ms);
        write_string(&mut ms, &a.generator);
    }
    push_version(&mut ms);
    write_string(&mut ms, &a.version);
    if a.min_version.len() > 0 {
        push_min_version(&mut ms);
        write_string(&mut ms, &a.min_version);
    }
    proof {
        assert(ms@ == asset_members(*a));
    }
    wrap_obj(out, &ms);
}

pub fn write_scene(out: &mut Vec<u8>, s: &Scene)
    ensures
        final(out)@ == old(out)@ + scene_json(*s),
{
    let mut ms: Vec<u8> = Vec::new();
    if s.name.len() > 0 {
        push_name(&mut ms);
        write_string(&mut ms, &s.name);
    }
    if s.nodes.len() > 0 {
        push_nodes(&mut ms);
        write_idx_arr(&mut ms, &s.nodes);
    }
    proof {
        assert(ms@ == scene_members(*s));
    }
    wrap_obj(out, &ms);
}

pub fn write_node(out: &mut Vec<u8>, n: &Node)
    ensures
        final(out)@ == old(out)@ + node_json(*n),
{
    let mut ms: Vec<u8> = Vec::new();
    if n.name.len() > 0 {
        push_name(&mut ms);
        write_string(&mut ms, &n.name);
    }
    match n.mesh {
        Some(h) => {
            push_mesh(&mut ms);
            push_dec(&mut ms, h as u64);
        },
        None => {},
    }
    if !n.t.is_default() {
        push_translation(&mut ms);
        write_num3(&mut ms, &n.t);
    }
    if !n.r.is_default() {
        push_rotation(&mut ms);
        write_num4(&mut ms, &n.r);
    }
    if !n.s.is_default() {
        push_scale(&mut ms);
        write_scale3(&mut ms, &n.s);
    }
    match &n.matrix {
        Some(m) => {
            push_matrix(&mut ms);
            write_numlist_arr(&mut ms, m);
        },
        None => {},
    }
    if n.children.len() > 0 {
        push_children(&mut ms);
        write_idx_arr(&mut ms, &n.children);
    }
    proof {
        assert(ms@ == node_members(*n));
    }
    wrap_obj(out, &ms);
}

pub fn write_pbr(out: &mut Vec<u8>, p: &PBRMetallicRoughness)
    ensures
        final(out)@ == old(out)@ + pbr_json(*p),
{
    let one = crate::gltf::make_one();
    let mut ms: Vec<u8> = Vec::new();
    if !p.base_color_factor.is_default() {
        push_base_color(&mut ms);
        write_color4(&mut ms, &p.base_color_factor);
    }
    if !crate::gltf::bytes_eq(&p.metallic_factor, &one) {
        push_metallic(&mut ms);
        push_bytes(&mut ms, &p.metallic_factor);
    }
    if !crate::gltf::bytes_eq(&p.roughness_factor, &one) {
        push_roughness(&mut ms);
        push_bytes(&mut ms, &p.roughness_factor);
    }
    proof {
        assert(ms@ == pbr_members(*p));
    }
    wrap_obj(out, &ms);
}

pub fn write_material(out: &mut Vec<u8>, m: &Material)
    ensures
        final(out)@ == old(out)@ + material_json(*m),
{
    let half = crate::gltf::make_half();
    let mut ms: Vec<u8> = Vec::new();
    if m.name.len() > 0 {
        push_name(&mut ms);
        write_string(&mut ms, &m.name);
    }
    if !m.emissive_factor.is_default() {
        push_emissive_factor(&mut ms);
        write_num3(&mut ms, &m.emissive_factor);
    }
    match m.alpha_mode {
        AlphaMode::OPAQUE => {},
        AlphaMode::MASK => {
            push_alpha_mode(&mut ms);
            push_mask(&mut ms);
        },
        AlphaMode::BLEND => {
            push_alpha_mode(&mut ms);
            push_blend(&mut ms);
        },
    }
    if !crate::gltf::bytes_eq(&m.alpha_cutoff, &half) {
        push_alpha_cutoff(&mut ms);
        push_bytes(&mut ms, &m.alpha_cutoff);
    }
    if m.double_sided {
        push_double_sided(&mut ms);
        push_true(&mut ms);
    }
    push_pbr(&mut ms);
    write_pbr(&mut ms, &m.pbr_metallic_roughness);
    proof {
        assert(ms@ == material_members(*m));
    }
    wrap_obj(out, &ms);
}

pub fn write_attributes(out: &mut Vec<u8>, at: &Attributes)
    ensures
        final(out)@ == old(out)@ + attributes_json(*at),
{
    let mut ms: Vec<u8> = Vec::new();
    match at.color_0 {
        Some(h) => {
            push_color_0(&mut ms);
            push_dec(&mut ms, h as u64);
        },
        None => {},
    }
    match at.joints_0 {
        Some(h) => {
            push_joints_0(&mut ms);
            push_dec(&mut ms, h as u64);
        },
        None => {},
    }
    match at.normal {
        Some(h) => {
            push_normal(&mut ms);
            push_dec(&mut ms, h as u64);
        },
        None => {},
    }
    match at.position {
        Some(h) => {
            push_position(&mut ms);
            push_dec(&mut ms, h as u64);
        },
        None => {},
    }
    match at.tangent {
        Some(h) => {
            push_tangent(&mut ms);
            push_dec(&mut ms, h as u64);
        },
        None => {},
    }
    match at.texcoord_0 {
        Some(h) => {
            push_texcoord_0(&mut ms);
            push_dec(&mut ms, h as u64);
        },
        None => {},
    }
    match at.texcoord_1 {
        Some(h) => {
            push_texcoord_1(&mut ms);
            push_dec(&mut ms, h as u64);
        },
        None => {},
    }
    match at.texcoord_2 {
        Some(h) => {
            push_texcoord_2(&mut ms);
            push_dec(&mut ms, h as u64);
        },
        None => {},
    }
    match at.texcoord_3 {
        Some(h) => {
            push_texcoord_3(&mut ms);
            push_dec(&mut ms, h as u64);
        },
        None => {},
    }
    match at.weights_0 {
        Some(h) => {
            push_weights_0(&mut ms);
            push_dec(&mut ms, h as u64);
        },
        None => {},
    }
    proof {
        assert(ms@ == attributes_members(*at));
    }
    wrap_obj(out, &ms);
}

pub fn write_prim(out: &mut Vec<u8>, p: &MeshPrimitive)
    ensures
        final(out)@ == old(out)@ + prim_json(*p),
{
    let mut ms: Vec<u8> = Vec::new();
    push_attributes(&mut ms);
    write_attributes(&mut ms, &p.attributes);
    match p.indices {
        Some(h) => {
            push_indices(&mut ms);
            push_dec(&mut ms, h as u64);
        },
        None => {},
    }
    match p.material {
        Some(h) => {
            push_material(&mut ms);
            push_dec(&mut ms, h as u64);
        },
        None => {},
    }
    if !matches!(p.mode, Mode::Triangles) {
        push_mode(&mut ms);
        let c = p.mode.code();
        push_dec(&mut ms, c as u64);
    }
    proof {
        assert(ms@ == prim_members(*p));
    }
    wrap_obj(out, &ms);
}

pub fn write_mesh(out: &mut Vec<u8>, m: &Mesh)
    ensures
        final(out)@ == old(out)@ + mesh_json(*m),
{
    let mut ms: Vec<u8> = Vec::new();
    if m.name.len() > 0 {
        push_name(&mut ms);
        write_string(&mut ms, &m.name);
    }
    push_primitives(&mut ms);
    let n = m.primitives.len();
    let mut pm: Vec<u8> = Vec::new();
    proof {
        assert(m.primitives@.take(0) =~= Seq::<MeshPrimitive>::empty());
    }
    let mut i: usize = 0;
    while i < n
        invariant
            n == m.primitives@.len(),
            0 <= i <= n,
            pm@ == prims_members(m.primitives@.take(i as int)),
        decreases n - i,
    {
        proof {
            let cur = m.primitives@.take(i as int + 1);
            assert(cur.drop_last() =~= m.primitives@.take(i as int));
            assert(cur.last() == m.primitives@[i as int]);
        }
        let ghost pre = pm@;
        push_comma(&mut pm);
        write_prim(&mut pm, &m.primitives[i]);
        proof {
            assert(pm@ =~= pre + seq![44u8] + prim_json(m.primitives@[i as int]));
            assert(pre + seq![44u8] + prim_json(m.primitives@[i as int]) =~= prims_members(
                m.primitives@.take(i as int + 1),
            ));
        }
        i += 1;
    }
    proof {
        assert(m.primitives@.take(n as int) =~= m.primitives@);
    }
    wrap_arr(&mut ms, &pm);
    if m.weights.len() > 0 {
        push_weights(&mut ms);
        write_numlist_arr(&mut ms, &m.weights);
    }
    proof {
        assert(ms@ == mesh_members(*m));
    }
    wrap_obj(out, &ms);
}

pub fn write_accessor(out: &mut Vec<u8>, a: &Accessor)
    ensures
        final(out)@ == old(out)@ + accessor_json(*a),
{
    let mut ms: Vec<u8> = Vec::new();
    if a.name.len() > 0 {
        push_name(&mut ms);
        write_string(&mut ms, &a.name);
    }
    match a.buffer_view {
        Some(h) => {
            push_buffer_view(&mut ms);
            push_dec(&mut ms, h as u64);
        },
        None => {},
    }
    if a.byte_offset != 0 {
        push_byte_offset(&mut ms);
        push_dec(&mut ms, a.byte_offset as u64);
    }
    push_component_type(&mut ms);
    let cc = a.component_type.code();
    push_dec(&mut ms, cc as u64);
    if a.normalized {
        push_normalized(&mut ms);
        push_true(&mut ms);
    }
    push_count(&mut ms);
    push_dec(&mut ms, a.count as u64);
    push_type_(&mut ms);
    match a.type_ {
        Type::SCALAR => push_scalar(&mut ms),
        Type::VEC2 => push_vec2(&mut ms),
        Type::VEC3 => push_vec3(&mut ms),
        Type::VEC4 => push_vec4(&mut ms),
        Type::MAT2 => push_mat2(&mut ms),
        Type::MAT3 => push_mat3(&mut ms),
        Type::MAT4 => push_mat4(&mut ms),
    }
    if a.max.len() > 0 {
        push_max(&mut ms);
        write_numlist_arr(&mut ms, &a.max);
    }
    if a.min.len() > 0 {
        push_min(&mut ms);
        write_numlist_arr(&mut ms, &a.min);
    }
    proof {
        assert(ms@ == accessor_members(*a));
    }
    wrap_obj(out, &ms);
}

pub fn write_view(out: &mut Vec<u8>, v: &BufferView)
    ensures
        final(out)@ == old(out)@ + view_json(*v),
{
    let mut ms: Vec<u8> = Vec::new();
    if v.name.len() > 0 {
        push_name(&mut ms);
        write_string(&mut ms, &v.name);
    }
    push_buffer(&mut ms);
    push_dec(&mut ms, v.buffer as u64);
    push_byte_length(&mut ms);
    push_dec(&mut ms, v.byte_length as u64);
    push_byte_offset(&mut ms);
    push_dec(&mut ms, v.byte_offset as u64);
    match v.byte_stride {
        Some(h) => {
            push_byte_stride(&mut ms);
            push_dec(&mut ms, h as u64);
        },
        None => {},
    }
    match v.target {
        Some(t) => {
            push_target(&mut ms);
            let c = t.code();
            push_dec(&mut ms, c as u64);
        },
        None => {},
    }
    proof {
        assert(ms@ == view_members(*v));
    }
    wrap_obj(out, &ms);
}

pub fn write_buffer(out: &mut Vec<u8>, b: &Buffer)
    ensures
        final(out)@ == old(out)@ + buffer_json(*b),
{
    let mut ms: Vec<u8> = Vec::new();
    if b.name.len() > 0 {
        push_name(&mut ms);
        write_string(&mut ms, &b.name);
    }
    push_byte_length(&mut ms);
    push_dec(&mut ms, b.byte_length as u64);
    if b.uri.len() > 0 {
        push_uri(&mut ms);
        write_string(&mut ms, &b.uri);
    }
    proof {
        assert(ms@ == buffer_members(*b));
    }
    wrap_obj(out, &ms);
}

/// Appends the whole document's JSON form.
/// Appends the array of scenes.
fn write_scenes_arr(out: &mut Vec<u8>, v: &Vec<Scene>)
    ensures
        final(out)@ == old(out)@ + arr_of(scenes_members(v@)),
{
    let n = v.len();
    let mut em: Vec<u8> = Vec::new();
    proof {
        assert(v@.take(0) =~= Seq::<Scene>::empty());
    }
    let mut i: usize = 0;
    while i < n
        invariant
            n == v@.len(),
            0 <= i <= n,
            em@ == scenes_members(v@.take(i as int)),
        decreases n - i,
    {
        proof {
            let cur = v@.take(i as int + 1);
            assert(cur.drop_last() =~= v@.take(i as int));
            assert(cur.last() == v@[i as int]);
        }
        let ghost pre = em@;
        push_comma(&mut em);
        write_scene(&mut em, &v[i]);
        proof {
            assert(em@ =~= pre + seq![44u8] + scene_json(v@[i as int]));
            assert(pre + seq![44u8] + scene_json(v@[i as int]) =~= scenes_members(
                v@.take(i as int + 1),
            ));
        }
        i += 1;
    }
    proof {
        assert(v@.take(n as int) =~= v@);
    }
    wrap_arr(out, &em);
}

/// Appends the array of nodes.
fn write_nodes_arr(out: &mut Vec<u8>, v: &Vec<Node>)
    ensures
        final(out)@ == old(out)@ + arr_of(nodes_members(v@)),
{
    let n = v.len();
    let mut em: Vec<u8> = Vec::new();
    proof {
        assert(v@.take(0) =~= Seq::<Node>::empty());
    }
    let mut i: usize = 0;
    while i < n
        invariant
            n == v@.len(),
            0 <= i <= n,
            em@ == nodes_members(v@.take(i as int)),
        decreases n - i,
    {
        proof {
            let cur = v@.take(i as int + 1);
            assert(cur.drop_last() =~= v@.take(i as int));
            assert(cur.last() == v@[i as int]);
        }
        let ghost pre = em@;
        push_comma(&mut em);
        write_node(&mut em, &v[i]);
        proof {
            assert(em@ =~= pre + seq![44u8] + node_json(v@[i as int]));
            assert(pre + seq![44u8] + node_json(v@[i as int]) =~= nodes_members(
                v@.take(i as int + 1),
            ));
        }
        i += 1;
    }
    proof {
        assert(v@.take(n as int) =~= v@);
    }
    wrap_arr(out, &em);
}

/// Appends the array of materials.
fn write_materials_arr(out: &mut Vec<u8>, v: &Vec<Material>)
    ensures
        final(out)@ == old(out)@ + arr_of(materials_members(v@)),
{
    let n = v.len();
    let mut em: Vec<u8> = Vec::new();
    proof {
        assert(v@.take(0) =~= Seq::<Material>::empty());
    }
    let mut i: usize = 0;
    while i < n
        invariant
            n == v@.len(),
            0 <= i <= n,
            em@ == materials_members(v@.take(i as int)),
        decreases n - i,
    {
        proof {
            let cur = v@.take(i as int + 1);
            assert(cur.drop_last() =~= v@.take(i as int));
            assert(cur.last() == v@[i as int]);
        }
        let ghost pre = em@;
        push_comma(&mut em);
        write_material(&mut em, &v[i]);
        proof {
            assert(em@ =~= pre + seq![44u8] + material_json(v@[i as int]));
            assert(pre + seq![44u8] + material_json(v@[i as int]) =~= materials_members(
                v@.take(i as int + 1),
            ));
        }
        i += 1;
    }
    proof {
        assert(v@.take(n as int) =~= v@);
    }
    wrap_arr(out, &em);
}

/// Appends the array of meshes.
fn write_meshes_arr(out: &mut Vec<u8>, v: &Vec<Mesh>)
    ensures
        final(out)@ == old(out)@ + arr_of(meshes_members(v@)),
{
    let n = v.len();
    let mut em: Vec<u8> = Vec::new();
    proof {
        assert(v@.take(0) =~= Seq::<Mesh>::empty());
    }
    let mut i: usize = 0;
    while i < n
        invariant
            n == v@.len(),
            0 <= i <= n,
            em@ == meshes_members(v@.take(i as int)),
        decreases n - i,
    {
        proof {
            let cur = v@.take(i as int + 1);
            assert(cur.drop_last() =~= v@.take(i as int));
            assert(cur.last() == v@[i as int]);
        }
        let ghost pre = em@;
        push_comma(&mut em);
        write_mesh(&mut em, &v[i]);
        proof {
            assert(em@ =~= pre + seq![44u8] + mesh_json(v@[i as int]));
            assert(pre + seq![44u8] + mesh_json(v@[i as int]) =~= meshes_members(
                v@.take(i as int + 1),
            ));
        }
        i += 1;
    }
    proof {
        assert(v@.take(n as int) =~= v@);
    }
    wrap_arr(out, &em);
}

/// Appends the array of accessors.
fn write_accessors_arr(out: &mut Vec<u8>, v: &Vec<Accessor>)
    ensures
        final(out)@ == old(out)@ + arr_of(accessors_members(v@)),
{
    let n = v.len();
    let mut em: Vec<u8> = Vec::new();
    proof {
        assert(v@.take(0) =~= Seq::<Accessor>::empty());
    }
    let mut i: usize = 0;
    while i < n
        invariant
            n == v@.len(),
            0 <= i <= n,
            em@ == accessors_members(v@.take(i as int)),
        decreases n - i,
    {
        proof {
            let cur = v@.take(i as int + 1);
            assert(cur.drop_last() =~= v@.take(i as int));
            assert(cur.last() == v@[i as int]);
        }
        let ghost pre = em@;
        push_comma(&mut em);
        write_accessor(&mut em, &v[i]);
        proof {
            assert(em@ =~= pre + seq![44u8] + accessor_json(v@[i as int]));
            assert(pre + seq![44u8] + accessor_json(v@[i as int]) =~= accessors_members(
                v@.take(i as int + 1),
            ));
        }
        i += 1;
    }
    proof {
        assert(v@.take(n as int) =~= v@);
    }
    wrap_arr(out, &em);
}

/// Appends the array of buffer views.
fn write_views_arr(out: &mut Vec<u8>, v: &Vec<BufferView>)
    ensures
        final(out)@ == old(out)@ + arr_of(views_members(v@)),
{
    let n = v.len();
    let mut em: Vec<u8> = Vec::new();
    proof {
        assert(v@.take(0) =~= Seq::<BufferView>::empty());
    }
    let mut i: usize = 0;
    while i < n
        invariant
            n == v@.len(),
            0 <= i <= n,
            em@ == views_members(v@.take(i as int)),
        decreases n - i,
    {
        proof {
            let cur = v@.take(i as int + 1);
            assert(cur.drop_last() =~= v@.take(i as int));
            assert(cur.last() == v@[i as int]);
        }
        let ghost pre = em@;
        push_comma(&mut em);
        write_view(&mut em, &v[i]);
        proof {
            assert(em@ =~= pre + seq![44u8] + view_json(v@[i as int]));
            assert(pre + seq![44u8] + view_json(v@[i as int]) =~= views_members(
                v@.take(i as int + 1),
            ));
        }
        i += 1;
    }
    proof {
        assert(v@.take(n as int) =~= v@);
    }
    wrap_arr(out, &em);
}

/// Appends the array of buffers.
fn write_buffers_arr(out: &mut Vec<u8>, v: &Vec<Buffer>)
    ensures
        final(out)@ == old(out)@ + arr_of(buffers_members(v@)),
{
    let n = v.len();
    let mut em: Vec<u8> = Vec::new();
    proof {
        assert(v@.take(0) =~= Seq::<Buffer>::empty());
    }
    let mut i: usize = 0;
    while i < n
        invariant
            n == v@.len(),
            0 <= i <= n,
            em@ == buffers_members(v@.take(i as int)),
        decreases n - i,
    {
        proof {
            let cur = v@.take(i as int + 1);
            assert(cur.drop_last() =~= v@.take(i as int));
            assert(cur.last() == v@[i as int]);
        }
        let ghost pre = em@;
        push_comma(&mut em);
        write_buffer(&mut em, &v[i]);
        proof {
            assert(em@ =~= pre + seq![44u8] + buffer_json(v@[i as int]));
            assert(pre + seq![44u8] + buffer_json(v@[i as int]) =~= buffers_members(
                v@.take(i as int + 1),
            ));
        }
        i += 1;
    }
    proof {
        assert(v@.take(n as int) =~= v@);
    }
    wrap_arr(out, &em);
}

/// Appends the whole document's JSON form.
pub fn write_doc(out: &mut Vec<u8>, g: &GLTF)
    ensures
        final(out)@ == old(out)@ + doc_json(*g),
{
    let mut ms: Vec<u8> = Vec::new();
    push_asset(&mut ms);
    write_asset(&mut ms, &g.asset);
    match g.scene {
        Some(h) => {
            push_scene(&mut ms);
            push_dec(&mut ms, h as u64);
        },
        None => {},
    }
    if g.scenes.len() > 0 {
        push_scenes(&mut ms);
        write_scenes_arr(&mut ms, &g.scenes);
    }
    if g.nodes.len() > 0 {
        push_nodes(&mut ms);
        write_nodes_arr(&mut ms, &g.nodes);
    }
    if g.materials.len() > 0 {
        push_materials(&mut ms);
        write_materials_arr(&mut ms, &g.materials);
    }
    if g.meshes.len() > 0 {
        push_meshes(&mut ms);
        write_meshes_arr(&mut ms, &g.meshes);
    }
    if g.accessors.len() > 0 {
        push_accessors(&mut ms);
        write_accessors_arr(&mut ms, &g.accessors);
    }
    if g.buffer_views.len() > 0 {
        push_buffer_views(&mut ms);
        write_views_arr(&mut ms, &g.buffer_views);
    }
    if g.bin.len() > 0 {
        push_buffers(&mut ms);
        write_buffers_arr(&mut ms, &g.buffers);
    }
    proof {
        reveal(doc_json);
        assert(ms@ == doc_members(*g));
    }
    wrap_obj(out, &ms);
}

} // verus!
