use glyph_atlas::glyph::{GlyphRasterSet, RasterizedGlyph};
use glyph_atlas::mesh::{build_atlas_map, build_atlas_mesh, Vertex};

fn glyph(id: u32, width: u32, rows: u32, left: i32, top: i32) -> RasterizedGlyph {
    RasterizedGlyph {
        glyph_id: id,
        pixels: vec![0u8; (width * rows) as usize],
        left,
        top,
        width,
        rows,
    }
}

fn v(x: u32, y: u32, layer: u32) -> Vertex {
    Vertex {
        x,
        y,
        u_num: x,
        v_num: y,
        layer,
    }
}

#[test]
fn quads_and_indices_per_glyph() {
    let set = GlyphRasterSet::from_glyphs(vec![glyph(1, 2, 3, 0, 0), glyph(2, 4, 1, 0, 0)])
        .unwrap();
    let mesh = build_atlas_mesh(&set);
    assert_eq!(mesh.vertices.len(), 8);
    assert_eq!(mesh.indices.len(), 12);
    // Glyph 0: quad over (0,0)-(2,3) on layer 0.
    assert_eq!(mesh.vertices[0], v(0, 0, 0));
    assert_eq!(mesh.vertices[1], v(0, 3, 0));
    assert_eq!(mesh.vertices[2], v(2, 3, 0));
    assert_eq!(mesh.vertices[3], v(2, 0, 0));
    // Glyph 1: quad over (0,0)-(4,1) on layer 1.
    assert_eq!(mesh.vertices[4], v(0, 0, 1));
    assert_eq!(mesh.vertices[5], v(0, 1, 1));
    assert_eq!(mesh.vertices[6], v(4, 1, 1));
    assert_eq!(mesh.vertices[7], v(4, 0, 1));
    // Two triangles per glyph along the 0-2 diagonal, offset by 4 per glyph.
    assert_eq!(mesh.indices, vec![0, 1, 2, 0, 2, 3, 4, 5, 6, 4, 6, 7]);
}

#[test]
fn lookup_entries_hold_ranges_and_bearings() {
    let set = GlyphRasterSet::from_glyphs(vec![glyph(10, 2, 2, 3, 5), glyph(20, 1, 1, -1, -4)])
        .unwrap();
    let map = build_atlas_map(&set);
    assert_eq!(map.len(), 2);
    let e0 = &map[&10];
    assert_eq!((e0.index_begin, e0.index_end), (0, 6));
    assert_eq!((e0.bearing_x, e0.bearing_y), (3, -5));
    let e1 = &map[&20];
    assert_eq!((e1.index_begin, e1.index_end), (6, 12));
    assert_eq!((e1.bearing_x, e1.bearing_y), (-1, 4));
}

#[test]
fn duplicate_glyph_id_last_write_wins() {
    let set = GlyphRasterSet::from_glyphs(vec![glyph(7, 1, 1, 1, 1), glyph(7, 2, 2, 9, 9)])
        .unwrap();
    let map = build_atlas_map(&set);
    assert_eq!(map.len(), 1);
    let e = &map[&7];
    assert_eq!((e.index_begin, e.index_end), (6, 12));
    assert_eq!((e.bearing_x, e.bearing_y), (9, -9));
}

#[test]
fn four_character_scenario() {
    // Stand-ins for rasterizing ['a', 'Z', '2', '#'] at size 12: four
    // distinct glyph ids, four layers, 16 vertices, 24 indices, at most 4
    // lookup entries.
    let set = GlyphRasterSet::from_glyphs(vec![
        glyph(68, 5, 5, 0, 5),
        glyph(57, 6, 7, 0, 7),
        glyph(21, 5, 7, 0, 7),
        glyph(6, 7, 7, 0, 7),
    ])
    .unwrap();
    assert_eq!(set.glyphs.len(), 4);
    assert_eq!(set.extent.depth, 4);
    let mesh = build_atlas_mesh(&set);
    assert_eq!(mesh.vertices.len(), 16);
    assert_eq!(mesh.indices.len(), 24);
    let map = build_atlas_map(&set);
    assert!(map.len() <= 4);
    assert_eq!(map.len(), 4);
    // One atlas layer per glyph: extent 7 x 7 x 4.
    let buf = glyph_atlas::atlas::build_atlas_buffer(&set);
    assert_eq!(buf.len(), 7 * 7 * 4);
}
