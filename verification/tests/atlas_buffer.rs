use glyph_atlas::atlas::build_atlas_buffer;
use glyph_atlas::glyph::{GlyphRasterSet, RasterizedGlyph};

fn glyph(id: u32, width: u32, rows: u32, pixels: Vec<u8>) -> RasterizedGlyph {
    assert_eq!(pixels.len(), (width * rows) as usize);
    RasterizedGlyph {
        glyph_id: id,
        pixels,
        left: 0,
        top: 0,
        width,
        rows,
    }
}

#[test]
fn buffer_length_is_extent_volume() {
    let set = GlyphRasterSet::from_glyphs(vec![
        glyph(1, 3, 2, vec![0; 6]),
        glyph(2, 1, 5, vec![0; 5]),
    ])
    .unwrap();
    let buf = build_atlas_buffer(&set);
    // width 3, height 5, depth 2.
    assert_eq!(buf.len(), 3 * 5 * 2);
}

#[test]
fn buffer_rows_are_copied_at_atlas_stride() {
    // Glyph 0 covers the full 2x2 extent; glyph 1 is 1x1, so its layer is
    // zero-padded outside the single covered cell.
    let set = GlyphRasterSet::from_glyphs(vec![
        glyph(1, 2, 2, vec![1, 2, 3, 4]),
        glyph(2, 1, 1, vec![9]),
    ])
    .unwrap();
    let buf = build_atlas_buffer(&set);
    assert_eq!(buf, vec![1, 2, 3, 4, 9, 0, 0, 0]);
}

#[test]
fn narrow_glyph_is_padded_per_row() {
    // One 1x2 glyph in a set whose extent is widened by a 3x1 glyph: the
    // narrow glyph's bytes land at the start of each atlas row, not packed
    // back to back.
    let set = GlyphRasterSet::from_glyphs(vec![
        glyph(1, 1, 2, vec![7, 8]),
        glyph(2, 3, 1, vec![1, 2, 3]),
    ])
    .unwrap();
    assert_eq!(set.extent.width, 3);
    assert_eq!(set.extent.height, 2);
    let buf = build_atlas_buffer(&set);
    assert_eq!(
        buf,
        vec![
            7, 0, 0, // layer 0, row 0
            8, 0, 0, // layer 0, row 1
            1, 2, 3, // layer 1, row 0
            0, 0, 0, // layer 1, row 1
        ]
    );
}
