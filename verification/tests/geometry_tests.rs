use emg::geometry::{Geometry, Tri};
use emg::gltf::ComponentType;
use emg::error::ErrorCode;
use emg::v3::V3;

fn v(x: f64, y: f64, z: f64) -> V3 {
    V3::new(x.to_bits(), y.to_bits(), z.to_bits())
}

fn fx(c: u64) -> f64 {
    f64::from_bits(c)
}

/// The float half of a translate call: read the selected positions,
/// displace them, write them back.
fn translate(g: &mut Geometry, dx: f64, dy: f64, dz: f64) {
    let vals = g.selected_vtcs();
    let moved: Vec<V3> = vals.iter().map(|p| v(fx(p.x) + dx, fx(p.y) + dy, fx(p.z) + dz)).collect();
    g.set_selected(&moved);
}

/// The float half of a select call: the inside-box flags with the
/// 1e-6 tolerance.
fn select_box(g: &mut Geometry, p1: (f64, f64, f64), p2: (f64, f64, f64)) {
    let lo = (p1.0.min(p2.0) - 1e-6, p1.1.min(p2.1) - 1e-6, p1.2.min(p2.2) - 1e-6);
    let hi = (p1.0.max(p2.0) + 1e-6, p1.1.max(p2.1) + 1e-6, p1.2.max(p2.2) + 1e-6);
    let flags: Vec<bool> = g
        .vtcs
        .iter()
        .map(|p| {
            let (x, y, z) = (fx(p.x), fx(p.y), fx(p.z));
            lo.0 < x && x < hi.0 && lo.1 < y && y < hi.1 && lo.2 < z && z < hi.2
        })
        .collect();
    g.select(&flags);
}

/// The float half of an extrude call: displaced copies of the selected
/// vertices.
fn extrude(g: &mut Geometry, dx: f64, dy: f64, dz: f64) {
    let vals = g.selected_vtcs();
    let displaced: Vec<V3> =
        vals.iter().map(|p| v(fx(p.x) + dx, fx(p.y) + dy, fx(p.z) + dz)).collect();
    g.extrude(&displaced);
}

#[test]
fn cube_shape() {
    let g = Geometry::cube();
    assert_eq!(g.vtx_count(), 8);
    assert_eq!(g.tri_count(), 12);
    assert_eq!(g.selection, vec![0, 1, 2, 3, 4, 5, 6, 7]);
    for t in &g.tris {
        assert!(t.a < 8 && t.b < 8 && t.c < 8);
    }
    assert_eq!(g.vtcs[0], v(-1.0, 1.0, -1.0));
    assert_eq!(g.vtcs[7], v(1.0, -1.0, 1.0));
}

#[test]
fn select_picks_face() {
    let mut g = Geometry::cube();
    select_box(&mut g, (0.9, -2.0, -2.0), (2.0, 2.0, 2.0));
    assert_eq!(g.selection, vec![4, 5, 6, 7]);
}

#[test]
fn select_is_idempotent() {
    let mut g = Geometry::cube();
    select_box(&mut g, (0.9, -2.0, -2.0), (2.0, 2.0, 2.0));
    let first = g.selection.clone();
    select_box(&mut g, (0.9, -2.0, -2.0), (2.0, 2.0, 2.0));
    assert_eq!(g.selection, first);
}

#[test]
fn delete_and_reindex() {
    let mut g = Geometry::cube();
    select_box(&mut g, (0.9, -2.0, -2.0), (2.0, 2.0, 2.0));
    g.delete_vtcs();
    assert_eq!(g.vtx_count(), 4);
    assert_eq!(g.tri_count(), 2);
    for t in &g.tris {
        assert!(t.a < 4 && t.b < 4 && t.c < 4);
    }
    assert!(g.selection.is_empty());
}

#[test]
fn merge_collapses_cube() {
    let mut g = Geometry::cube();
    g.merge(v(0.0, 0.0, 0.0));
    assert_eq!(g.vtx_count(), 1);
    assert_eq!(g.tri_count(), 0);
    assert_eq!(g.selection, vec![0]);
    assert_eq!(g.vtcs[0], v(0.0, 0.0, 0.0));
}

#[test]
fn merge_empty_selection_is_noop() {
    let mut g = Geometry::cube();
    g.select(&vec![false; 8]);
    g.merge(v(5.0, 5.0, 5.0));
    assert_eq!(g.vtx_count(), 8);
    assert_eq!(g.tri_count(), 12);
}

#[test]
fn extrude_square() {
    let mut g = Geometry::new();
    g.add_square(false);
    assert_eq!(g.vtx_count(), 4);
    assert_eq!(g.tri_count(), 2);
    assert_eq!(g.selection, vec![0, 1, 2, 3]);
    extrude(&mut g, 0.0, 0.0, 1.0);
    assert_eq!(g.vtx_count(), 8);
    assert_eq!(g.tri_count(), 12);
    assert_eq!(g.selection, vec![4, 5, 6, 7]);
    for k in 0..4 {
        assert_eq!(fx(g.vtcs[4 + k].z), 1.0);
    }
}

#[test]
fn extrude_then_translate_back_restores_positions() {
    let mut g = Geometry::new();
    g.add_square(false);
    let before: Vec<V3> = g.vtcs.clone();
    extrude(&mut g, 0.0, 0.0, 1.0);
    translate(&mut g, 0.0, 0.0, -1.0);
    for k in 0..4 {
        let got = g.vtcs[4 + k];
        let want = before[k];
        assert!((fx(got.x) - fx(want.x)).abs() < 1e-9);
        assert!((fx(got.y) - fx(want.y)).abs() < 1e-9);
        assert!((fx(got.z) - fx(want.z)).abs() < 1e-9);
    }
}

#[test]
fn extrude_partial_moves_face() {
    // only the +X face selected: its two triangles are replaced by the
    // displaced copies and four side walls appear
    let mut g = Geometry::cube();
    select_box(&mut g, (0.9, -2.0, -2.0), (2.0, 2.0, 2.0));
    extrude(&mut g, 1.0, 0.0, 0.0);
    assert_eq!(g.vtx_count(), 12);
    assert_eq!(g.tri_count(), 12 + 8);
    assert_eq!(g.selection, vec![8, 9, 10, 11]);
}

#[test]
fn flip_normals_twice_restores() {
    let mut g = Geometry::cube();
    let before = g.tris.clone();
    g.flip_normals();
    assert_ne!(g.tris, before);
    assert_eq!(g.tris[0], Tri::new(5, 3, 1));
    g.flip_normals();
    assert_eq!(g.tris, before);
}

#[test]
fn scale_negative_then_flip_reverses_selected_windings() {
    // the float half of a scale by (-1, 1, 1): one negative factor, so
    // the windings of the selected triangles are reversed afterwards
    let mut g = Geometry::cube();
    let before = g.tris.clone();
    let vals = g.selected_vtcs();
    let scaled: Vec<V3> = vals.iter().map(|p| v(-fx(p.x), fx(p.y), fx(p.z))).collect();
    g.set_selected(&scaled);
    g.flip_normals();
    for k in 0..before.len() {
        let t = before[k];
        assert_eq!(g.tris[k], Tri::new(t.c, t.b, t.a));
    }
    assert_eq!(fx(g.vtcs[0].x), 1.0);
}

#[test]
fn doubleside_appends_reversed_copies() {
    let mut g = Geometry::new();
    g.add_square(false);
    g.doubleside();
    assert_eq!(g.tri_count(), 4);
    assert_eq!(g.tris[2], Tri::new(g.tris[0].c, g.tris[0].b, g.tris[0].a));
    assert_eq!(g.tris[3], Tri::new(g.tris[1].c, g.tris[1].b, g.tris[1].a));
}

#[test]
fn copy_duplicates_selection() {
    let mut g = Geometry::new();
    g.add_square(false);
    g.copy();
    assert_eq!(g.vtx_count(), 8);
    assert_eq!(g.tri_count(), 4);
    assert_eq!(g.selection, vec![4, 5, 6, 7]);
    for k in 0..4 {
        assert_eq!(g.vtcs[4 + k], g.vtcs[k]);
    }
    assert_eq!(g.tris[2], Tri::new(6, 5, 4));
}

#[test]
fn delete_vtx_updates_selection() {
    // vertex 7 (the top index) is selected; deleting vertex 0 moves it
    // into slot 0, and the membership follows it
    let mut g = Geometry::cube();
    g.delete_vtx(0);
    assert_eq!(g.vtx_count(), 7);
    assert!(!g.selection.contains(&7));
    assert!(g.selection.contains(&0));
    // deleting the top index itself only drops it
    let mut g2 = Geometry::cube();
    g2.delete_vtx(7);
    assert!(!g2.selection.contains(&7));
    assert_eq!(g2.selection, vec![0, 1, 2, 3, 4, 5, 6]);
}

#[test]
fn delete_vtx_purges_touching_triangles() {
    let mut g = Geometry::cube();
    g.delete_vtx(0);
    // the three triangles that touched vertex 0 are gone
    assert_eq!(g.tri_count(), 12 - 3);
    for t in &g.tris {
        assert!(t.a < 7 && t.b < 7 && t.c < 7);
    }
}

#[test]
fn delete_tris_removes_selected_triangles() {
    let mut g = Geometry::cube();
    select_box(&mut g, (0.9, -2.0, -2.0), (2.0, 2.0, 2.0));
    g.delete_tris();
    assert_eq!(g.tri_count(), 10);
    assert_eq!(g.vtx_count(), 8);
}

#[test]
fn delete_stray_vtcs_drops_unreferenced() {
    let mut g = Geometry::new();
    g.add_square(false);
    g.create_vtx(v(9.0, 9.0, 9.0));
    assert_eq!(g.vtx_count(), 5);
    g.delete_stray_vtcs();
    assert_eq!(g.vtx_count(), 4);
    assert_eq!(g.tri_count(), 2);
}

#[test]
fn create_tri_checks_bounds() {
    let mut g = Geometry::new();
    g.create_vtx(v(0.0, 0.0, 0.0));
    g.create_vtx(v(1.0, 0.0, 0.0));
    g.create_vtx(v(0.0, 1.0, 0.0));
    assert!(g.create_tri(Tri::new(0, 1, 2)).is_ok());
    assert_eq!(g.create_tri(Tri::new(0, 1, 3)), Err(ErrorCode::VtxOutOfBounds));
    assert_eq!(g.tri_count(), 1);
}

#[test]
fn set_vtx_and_set_tri_check_bounds() {
    let mut g = Geometry::cube();
    assert!(g.set_vtx(3, v(2.0, 2.0, 2.0)).is_ok());
    assert_eq!(g.vtcs[3], v(2.0, 2.0, 2.0));
    assert_eq!(g.set_vtx(8, v(0.0, 0.0, 0.0)), Err(ErrorCode::VtxOutOfBounds));
    assert!(g.set_tri(0, Tri::new(0, 1, 2)).is_ok());
    assert_eq!(g.tris[0], Tri::new(0, 1, 2));
    assert_eq!(g.set_tri(12, Tri::new(0, 1, 2)), Err(ErrorCode::TriOutOfBounds));
    assert_eq!(g.set_tri(0, Tri::new(0, 1, 8)), Err(ErrorCode::VtxOutOfBounds));
}

#[test]
fn delete_tri_swaps_from_the_end() {
    let mut g = Geometry::cube();
    let last = g.tris[11];
    g.delete_tri(0);
    assert_eq!(g.tri_count(), 11);
    assert_eq!(g.tris[0], last);
}

#[test]
fn add_cube_primitive() {
    let mut g = Geometry::new();
    g.add_cube(true);
    assert_eq!(g.vtx_count(), 8);
    assert_eq!(g.tri_count(), 12);
    assert_eq!(g.selection, vec![0, 1, 2, 3, 4, 5, 6, 7]);
    assert_eq!(g.vtcs[0], v(0.0, 0.0, 0.0));
    assert_eq!(g.vtcs[7], v(1.0, 1.0, 1.0));
}

#[test]
fn add_circle_fan() {
    let mut g = Geometry::new();
    let segments = 6u32;
    let rim: Vec<V3> = (0..segments)
        .map(|i| {
            let th = 2.0 * std::f64::consts::PI * (i as f64) / (segments as f64);
            v(th.cos(), th.sin(), 0.0)
        })
        .collect();
    g.add_circle(&rim);
    assert_eq!(g.vtx_count(), 7);
    assert_eq!(g.tri_count(), 6);
    assert_eq!(g.selection, vec![0, 1, 2, 3, 4, 5, 6]);
    assert_eq!(g.tris[5], Tri::new(0, 6, 1));
    assert_eq!(g.vtcs[0], v(0.0, 0.0, 0.0));
    assert!((fx(g.vtcs[1].x) - 1.0).abs() < 1e-12);
}

#[test]
fn add_cylinder_walls() {
    let mut g = Geometry::new();
    let segments = 4u32;
    let bottom: Vec<V3> = (0..segments)
        .map(|i| {
            let th = 2.0 * std::f64::consts::PI * (i as f64) / (segments as f64);
            v(th.cos(), th.sin(), -1.0)
        })
        .collect();
    let top: Vec<V3> = (0..segments)
        .map(|i| {
            let th = 2.0 * std::f64::consts::PI * (i as f64) / (segments as f64);
            v(th.cos(), th.sin(), 1.0)
        })
        .collect();
    g.add_cylinder(&bottom, &top, false);
    assert_eq!(g.vtx_count(), 2 + 2 * 4);
    assert_eq!(g.tri_count(), 4 * 4);
    assert_eq!(g.selection, (0u32..10).collect::<Vec<u32>>());
    assert_eq!(g.vtcs[0], v(0.0, 0.0, -1.0));
    assert_eq!(g.vtcs[1], v(0.0, 0.0, 1.0));
}

#[test]
fn index_stream_component_type_follows_vertex_count() {
    let g = Geometry::cube();
    assert_eq!(g.tris_raw_component_type(), ComponentType::UnsignedShort);
}

#[test]
fn tris_raw_uses_16_bit_words() {
    let mut g = Geometry::new();
    g.create_vtx(v(0.0, 0.0, 0.0));
    g.create_vtx(v(1.0, 0.0, 0.0));
    g.create_vtx(v(0.0, 1.0, 0.0));
    g.create_tri(Tri::new(2, 0, 1)).unwrap();
    let raw = g.tris_raw();
    assert_eq!(raw, vec![2, 0, 0, 0, 1, 0]);
}
