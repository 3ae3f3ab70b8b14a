use emg::error::ErrorCode;
use emg::ffi::{FFIValue, FatPointer};
use emg::geometry::Geometry;
use emg::glb::serialize;
use emg::gltf::{
    Accessor, Attributes, Buffer, BufferView, ComponentType, Mesh, MeshPrimitive, Mode, Scene,
    Target, Type, GLTF,
};
use emg::transport::StringTransport;

fn num(x: f32) -> Vec<u8> {
    serde_json::to_string(&x).unwrap().into_bytes()
}

fn u32le(b: &[u8], at: usize) -> u32 {
    u32::from_le_bytes([b[at], b[at + 1], b[at + 2], b[at + 3]])
}

/// The float half of a pack call: single-precision position words and
/// the componentwise bounds as number texts.
fn pack(g: &Geometry, doc: &mut GLTF) -> emg::gltf::PackedGeometry {
    let mut positions: Vec<u32> = Vec::new();
    let mut mn = [f32::MAX; 3];
    let mut mx = [f32::MIN; 3];
    for p in &g.vtcs {
        let c = [f64::from_bits(p.x) as f32, f64::from_bits(p.y) as f32, f64::from_bits(p.z) as f32];
        for k in 0..3 {
            positions.push(c[k].to_bits());
            mn[k] = mn[k].min(c[k]);
            mx[k] = mx[k].max(c[k]);
        }
    }
    let min = vec![num(mn[0]), num(mn[1]), num(mn[2])];
    let max = vec![num(mx[0]), num(mx[1]), num(mx[2])];
    g.pack(doc, &positions, min, max)
}

#[test]
fn empty_document_serializes_to_framed_json() {
    let doc = GLTF::new();
    let out = serialize(&doc).unwrap();
    assert_eq!(&out[0..4], b"glTF");
    assert_eq!(u32le(&out, 4), 2);
    assert_eq!(u32le(&out, 8) as usize, out.len());
    let json_len = u32le(&out, 12) as usize;
    assert_eq!(&out[16..20], b"JSON");
    assert_eq!(out.len(), 12 + 8 + json_len);
    assert_eq!(json_len % 4, 0);
    let json_bytes = &out[20..20 + json_len];
    let got: serde_json::Value = serde_json::from_slice(json_bytes).unwrap();
    let want: serde_json::Value = serde_json::from_str(
        "{\"asset\":{\"generator\":\"emg v0.1.0\",\"minVersion\":\"2.0\",\"version\":\"2.0\"},\"scene\":0,\"scenes\":[{}]}",
    )
    .unwrap();
    assert_eq!(got, want);
    // everything after the closing brace is space padding
    let end = json_bytes.iter().rposition(|b| *b == b'}').unwrap();
    assert!(json_bytes[end + 1..].iter().all(|b| *b == 0x20));
}

#[test]
fn cube_pack_fills_document() {
    let mut doc = GLTF::new();
    let g = Geometry::cube();
    let pg = pack(&g, &mut doc);
    assert_eq!(doc.accessors.len(), 2);
    assert_eq!(doc.buffer_views.len(), 2);
    assert_eq!(doc.buffers.len(), 1);
    assert_eq!(doc.buffers[0].byte_length, 96 + 72);
    assert_eq!(doc.bin.len(), 168);
    assert_eq!(pg.vtx_buffer, 0);
    assert_eq!(pg.tri_buffer, 1);
    let a1 = &doc.accessors[0];
    assert_eq!(a1.count, 8);
    assert_eq!(a1.component_type, ComponentType::Float);
    assert_eq!(a1.type_, Type::VEC3);
    assert_eq!(a1.min, vec![b"-1.0".to_vec(), b"-1.0".to_vec(), b"-1.0".to_vec()]);
    assert_eq!(a1.max, vec![b"1.0".to_vec(), b"1.0".to_vec(), b"1.0".to_vec()]);
    let a2 = &doc.accessors[1];
    assert_eq!(a2.count, 36);
    assert_eq!(a2.component_type, ComponentType::UnsignedShort);
    assert_eq!(a2.type_, Type::SCALAR);
    assert_eq!(doc.buffer_views[0].target, Some(Target::ArrayBuffer));
    assert_eq!(doc.buffer_views[0].byte_length, 96);
    assert_eq!(doc.buffer_views[0].byte_offset, 0);
    assert_eq!(doc.buffer_views[1].target, Some(Target::ElementArrayBuffer));
    assert_eq!(doc.buffer_views[1].byte_length, 72);
    assert_eq!(doc.buffer_views[1].byte_offset, 96);
}

#[test]
fn glb_with_bin_chunk_frames_both() {
    let mut doc = GLTF::new();
    let g = Geometry::cube();
    pack(&g, &mut doc);
    let out = serialize(&doc).unwrap();
    assert_eq!(&out[0..4], b"glTF");
    let total = u32le(&out, 8) as usize;
    assert_eq!(total, out.len());
    let json_len = u32le(&out, 12) as usize;
    assert_eq!(json_len % 4, 0);
    let bin_hdr = 20 + json_len;
    let bin_len = u32le(&out, bin_hdr) as usize;
    assert_eq!(&out[bin_hdr + 4..bin_hdr + 8], b"BIN\0");
    assert_eq!(bin_len % 4, 0);
    assert_eq!(bin_len, 168);
    assert_eq!(total, 12 + 8 + json_len + 8 + 168);
    // the BIN payload is the blob itself
    assert_eq!(&out[bin_hdr + 8..bin_hdr + 8 + 168], doc.bin.as_slice());
    // the JSON names the packed accessors
    let got: serde_json::Value = serde_json::from_slice(&out[20..20 + json_len]).unwrap();
    assert_eq!(got["accessors"].as_array().unwrap().len(), 2);
    assert_eq!(got["accessors"][0]["count"], serde_json::Value::from(8u32));
    assert_eq!(got["accessors"][0]["min"][0], serde_json::Value::from(-1.0));
    assert_eq!(got["accessors"][1]["componentType"], serde_json::Value::from(5123u32));
    assert_eq!(got["bufferViews"][1]["byteOffset"], serde_json::Value::from(96u32));
    assert_eq!(got["buffers"][0]["byteLength"], serde_json::Value::from(168u32));
}

#[test]
fn scene_graph_handles_are_validated() {
    let mut doc = GLTF::new();
    assert_eq!(doc.scene_add_node(0, 0), Err(ErrorCode::HandleOutOfBounds));
    let n0 = doc.node_new(b"root".to_vec());
    assert_eq!(n0, 0);
    assert!(doc.scene_add_node(0, n0).is_ok());
    assert_eq!(doc.scene_add_node(1, n0), Err(ErrorCode::HandleOutOfBounds));
    let n1 = doc.node_new(Vec::new());
    assert!(doc.node_add_node(n0, n1).is_ok());
    assert_eq!(doc.node_add_node(5, n1), Err(ErrorCode::HandleOutOfBounds));
    assert_eq!(doc.nodes[n0].children, vec![1u32]);
    assert_eq!(doc.get_node_count(), 2);
    assert_eq!(doc.get_scene_count(), 1);
}

#[test]
fn node_transforms_are_stored_and_serialized() {
    let mut doc = GLTF::new();
    let n0 = doc.node_new(Vec::new());
    doc.scene_add_node(0, n0).unwrap();
    doc.node_set_translation(n0, num(1.5), num(0.0), num(-2.0)).unwrap();
    doc.node_set_rotation(n0, num(0.0), num(1.0), num(0.0), num(0.0)).unwrap();
    doc.node_set_scale(n0, num(2.0), num(2.0), num(2.0)).unwrap();
    assert_eq!(
        doc.node_set_translation(9, num(0.0), num(0.0), num(0.0)),
        Err(ErrorCode::HandleOutOfBounds)
    );
    let out = serialize(&doc).unwrap();
    let json_len = u32le(&out, 12) as usize;
    let got: serde_json::Value = serde_json::from_slice(&out[20..20 + json_len]).unwrap();
    assert_eq!(got["nodes"][0]["translation"][0], serde_json::Value::from(1.5));
    assert_eq!(got["nodes"][0]["rotation"][1], serde_json::Value::from(1.0));
    assert_eq!(got["nodes"][0]["scale"][2], serde_json::Value::from(2.0));
}

#[test]
fn default_transforms_are_omitted() {
    let mut doc = GLTF::new();
    let n0 = doc.node_new(Vec::new());
    doc.scene_add_node(0, n0).unwrap();
    doc.node_set_translation(n0, num(0.0), num(0.0), num(0.0)).unwrap();
    let out = serialize(&doc).unwrap();
    let json_len = u32le(&out, 12) as usize;
    let got: serde_json::Value = serde_json::from_slice(&out[20..20 + json_len]).unwrap();
    assert_eq!(got["nodes"][0], serde_json::from_str::<serde_json::Value>("{}").unwrap());
}

#[test]
fn material_factors_serialize_with_defaults_omitted() {
    let mut doc = GLTF::new();
    let h = doc.new_material(
        b"paint \"red\"".to_vec(),
        num(0.25),
        num(0.5),
        num(1.0),
        num(1.0),
        num(1.0),
        num(0.75),
    );
    assert_eq!(h, 0);
    assert_eq!(doc.get_material_count(), 1);
    let out = serialize(&doc).unwrap();
    let json_len = u32le(&out, 12) as usize;
    let got: serde_json::Value = serde_json::from_slice(&out[20..20 + json_len]).unwrap();
    let m = &got["materials"][0];
    assert_eq!(m["name"], serde_json::Value::from("paint \"red\""));
    let pbr = &m["pbrMetallicRoughness"];
    assert_eq!(pbr["baseColorFactor"][0], serde_json::Value::from(0.25));
    assert_eq!(pbr["roughnessFactor"], serde_json::Value::from(0.75));
    // metallic factor 1.0 is the default and is omitted
    assert!(pbr.get("metallicFactor").is_none());
    assert!(m.get("alphaMode").is_none());
}

#[test]
fn mesh_and_primitive_flow() {
    let mut doc = GLTF::new();
    let g = Geometry::cube();
    let pg = pack(&g, &mut doc);
    let mat = doc.new_material(Vec::new(), num(1.0), num(1.0), num(1.0), num(1.0), num(1.0), num(1.0));
    let mesh = doc.mesh_new(b"block".to_vec());
    let prim = doc.mesh_add_prim(mesh, &pg, mat).unwrap();
    assert_eq!(prim, 0);
    assert_eq!(doc.mesh_get_prim_count(mesh as u32), 1);
    assert_eq!(doc.mesh_add_prim(9, &pg, mat), Err(ErrorCode::HandleOutOfBounds));
    assert_eq!(doc.mesh_add_prim(mesh, &pg, 7), Err(ErrorCode::HandleOutOfBounds));
    let n0 = doc.node_new(Vec::new());
    doc.node_set_mesh(n0, mesh).unwrap();
    doc.scene_add_node(0, n0).unwrap();
    let out = serialize(&doc).unwrap();
    let json_len = u32le(&out, 12) as usize;
    let got: serde_json::Value = serde_json::from_slice(&out[20..20 + json_len]).unwrap();
    let p = &got["meshes"][0]["primitives"][0];
    assert_eq!(p["attributes"]["POSITION"], serde_json::Value::from(0u32));
    assert_eq!(p["indices"], serde_json::Value::from(1u32));
    assert_eq!(p["material"], serde_json::Value::from(0u32));
    assert!(p.get("mode").is_none());
    assert_eq!(got["nodes"][0]["mesh"], serde_json::Value::from(0u32));
}

#[test]
fn clone_subtree_remaps_children() {
    let mut doc = GLTF::new();
    let root = doc.node_new(b"a".to_vec());
    let kid = doc.node_new(b"b".to_vec());
    doc.node_add_node(root, kid).unwrap();
    let copy = doc.node_clone_subtree(root).unwrap();
    assert_eq!(doc.get_node_count(), 4);
    assert_eq!(copy, 3);
    // the child was cloned first, the root copy points at it
    assert_eq!(doc.nodes[copy].children, vec![2u32]);
    assert_eq!(doc.nodes[copy].name, b"a".to_vec());
    assert_eq!(doc.nodes[2].name, b"b".to_vec());
    assert_eq!(doc.node_clone_subtree(9), Err(ErrorCode::HandleOutOfBounds));
}

#[test]
fn clone_subtree_fails_on_a_cycle() {
    let mut doc = GLTF::new();
    let n0 = doc.node_new(Vec::new());
    doc.node_add_node(n0, n0).unwrap();
    assert_eq!(doc.node_clone_subtree(n0), Err(ErrorCode::HandleOutOfBounds));
}

#[test]
fn transport_slots_enforce_the_cap() {
    let mut t = StringTransport::new();
    assert_eq!(t.resize(4, 8), Err(ErrorCode::HandleOutOfBounds));
    assert_eq!(t.resize(0, 65), Err(ErrorCode::SizeOutOfBounds));
    assert!(t.resize(0, 5).is_ok());
    assert_eq!(t.slots[0].len(), 5);
    t.slots[0].copy_from_slice(b"hello");
    // the sentinel leaves the slot alone
    assert!(t.resize(0, 0xffffffff).is_ok());
    assert_eq!(t.read(0).unwrap(), b"hello".to_vec());
    assert_eq!(t.read(4), Err(ErrorCode::HandleOutOfBounds));
    // invalid UTF-8 is rejected
    assert!(t.resize(1, 2).is_ok());
    t.slots[1][0] = 0xff;
    t.slots[1][1] = 0xfe;
    assert_eq!(t.read(1), Err(ErrorCode::UnicodeError));
}

#[test]
fn error_codes_are_stable() {
    assert_eq!(ErrorCode::Mutex.code(), 1);
    assert_eq!(ErrorCode::PointerTooLow.code(), 13);
    assert_eq!(ErrorCode::HandleOutOfBounds.code(), 15);
    assert_eq!(ErrorCode::NotInitialized.code(), 16);
    assert_eq!(ErrorCode::SizeOutOfBounds.code(), 17);
    assert_eq!(ErrorCode::UnicodeError.code(), 18);
    assert_eq!(ErrorCode::VtxOutOfBounds.code(), 19);
    assert_eq!(ErrorCode::TriOutOfBounds.code(), 20);
}

#[test]
fn fat_pointer_packs_offset_and_size() {
    let p = FatPointer::try_new(0x20000, 10).unwrap();
    assert_eq!(p.pack(), 0x20000u64 * 0x1_0000_0000 + 10);
    assert!(FatPointer::try_new(0xffff, 1).is_err());
    assert_eq!(12usize.pack(), 12u64);
    assert_eq!(().pack(), 0u64);
}

#[test]
fn schema_builders_start_at_their_defaults() {
    let s = Scene::new(Vec::new());
    assert!(s.nodes.is_empty());
    let mut p = MeshPrimitive::new();
    assert_eq!(p.mode, Mode::Triangles);
    assert!(p.indices.is_none());
    p.material(3);
    assert_eq!(p.material, Some(3));
    let a = Accessor::new(Vec::new());
    assert_eq!(a.count, 0);
    assert_eq!(a.type_, Type::SCALAR);
    let v = BufferView::new(Vec::new());
    assert_eq!(v.buffer, 0);
    let b = Buffer::new(Vec::new());
    assert_eq!(b.byte_length, 0);
    let m = Mesh::new(Vec::new());
    assert!(m.primitives.is_empty());
    let at = Attributes::new();
    assert!(at.position.is_none());
    assert_eq!(ComponentType::UnsignedShort.byte_count(), 2);
    assert_eq!(ComponentType::Float.code(), 5126);
    assert_eq!(Type::VEC3.component_count(), 3);
    assert_eq!(Type::MAT4.component_count(), 16);
    assert_eq!(Target::ElementArrayBuffer.code(), 34963);
    assert_eq!(Mode::Triangles.code(), 4);
}

#[test]
fn names_with_control_bytes_are_escaped() {
    let mut doc = GLTF::new();
    doc.new_material(
        b"line\nbreak\\tab".to_vec(),
        num(1.0),
        num(1.0),
        num(1.0),
        num(1.0),
        num(1.0),
        num(1.0),
    );
    let out = serialize(&doc).unwrap();
    let json_len = u32le(&out, 12) as usize;
    let got: serde_json::Value = serde_json::from_slice(&out[20..20 + json_len]).unwrap();
    assert_eq!(got["materials"][0]["name"], serde_json::Value::from("line\nbreak\\tab"));
}

#[test]
fn unaligned_bin_chunk_keeps_total_consistent() {
    // a blob of length not divisible by four gets padded, and the
    // header total still matches the output
    let mut doc = GLTF::new();
    let mut g = Geometry::new();
    g.create_vtx(emg::v3::V3::new(0, 0, 0));
    let positions = vec![0u32, 0u32, 0u32];
    let min = vec![num(0.0), num(0.0), num(0.0)];
    let max = vec![num(0.0), num(0.0), num(0.0)];
    g.pack(&mut doc, &positions, min, max);
    assert_eq!(doc.bin.len(), 12);
    let out = serialize(&doc).unwrap();
    let json_len = u32le(&out, 12) as usize;
    let bin_hdr = 20 + json_len;
    let bin_len = u32le(&out, bin_hdr) as usize;
    assert_eq!(bin_len, 12);
    assert_eq!(u32le(&out, 8) as usize, out.len());
}
