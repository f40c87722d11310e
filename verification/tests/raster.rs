use glyph_atlas::error::TextError;
use glyph_atlas::glyph::{CharacterSet, GlyphRasterSet, RasterizedGlyph, RawGlyphBitmap};

fn glyph(id: u32, width: u32, rows: u32, left: i32, top: i32) -> RasterizedGlyph {
    RasterizedGlyph {
        glyph_id: id,
        pixels: vec![0u8; (width * rows) as usize],
        left,
        top,
        width,
        rows,
    }
}

#[test]
fn from_raw_drops_pitch_padding() {
    let raw = RawGlyphBitmap {
        bytes: vec![1, 2, 3, 9, 4, 5, 6, 9],
        width: 3,
        rows: 2,
        pitch: 4,
        left: 7,
        top: 11,
    };
    let g = RasterizedGlyph::from_raw(42, &raw).unwrap();
    assert_eq!(g.glyph_id, 42);
    assert_eq!(g.left, 7);
    assert_eq!(g.top, 11);
    assert_eq!(g.width, 3);
    assert_eq!(g.rows, 2);
    assert_eq!(g.pixels, vec![1, 2, 3, 4, 5, 6]);
}

#[test]
fn from_raw_tight_pitch() {
    let raw = RawGlyphBitmap {
        bytes: vec![10, 20, 30, 40],
        width: 2,
        rows: 2,
        pitch: 2,
        left: 0,
        top: 0,
    };
    let g = RasterizedGlyph::from_raw(1, &raw).unwrap();
    assert_eq!(g.pixels, vec![10, 20, 30, 40]);
}

#[test]
fn from_raw_rejects_bad_shapes() {
    let narrow_pitch = RawGlyphBitmap {
        bytes: vec![0; 4],
        width: 3,
        rows: 2,
        pitch: 2,
        left: 0,
        top: 0,
    };
    assert_eq!(
        RasterizedGlyph::from_raw(1, &narrow_pitch).unwrap_err(),
        TextError::Rasterization
    );

    let negative_width = RawGlyphBitmap {
        bytes: vec![],
        width: -1,
        rows: 2,
        pitch: 2,
        left: 0,
        top: 0,
    };
    assert_eq!(
        RasterizedGlyph::from_raw(1, &negative_width).unwrap_err(),
        TextError::Rasterization
    );

    let wrong_count = RawGlyphBitmap {
        bytes: vec![0; 5],
        width: 2,
        rows: 2,
        pitch: 2,
        left: 0,
        top: 0,
    };
    assert_eq!(
        RasterizedGlyph::from_raw(1, &wrong_count).unwrap_err(),
        TextError::Rasterization
    );
}

#[test]
fn empty_character_set_is_rejected() {
    let r = GlyphRasterSet::from_glyphs(Vec::new());
    assert_eq!(r.unwrap_err(), TextError::EmptyCharacterSet);
}

#[test]
fn extent_is_maxima_and_count() {
    let set = GlyphRasterSet::from_glyphs(vec![
        glyph(1, 3, 2, 0, 0),
        glyph(2, 1, 5, 0, 0),
        glyph(3, 2, 4, 0, 0),
    ])
    .unwrap();
    assert_eq!(set.extent.width, 3);
    assert_eq!(set.extent.height, 5);
    assert_eq!(set.extent.depth, 3);
}

#[test]
fn extent_of_single_glyph() {
    let set = GlyphRasterSet::from_glyphs(vec![glyph(9, 4, 7, 1, 2)]).unwrap();
    assert_eq!(set.extent.width, 4);
    assert_eq!(set.extent.height, 7);
    assert_eq!(set.extent.depth, 1);
}

#[test]
fn english_character_set() {
    let chars = CharacterSet::english();
    assert_eq!(chars.len(), 0x7f);
    assert_eq!(chars[0], '\0');
    assert_eq!(chars[65], 'A');
    assert_eq!(chars[0x7e], '~');
}
