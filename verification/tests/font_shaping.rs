use glyph_atlas::engine::{FontLibrary, ShapeFont};
use glyph_atlas::error::TextError;
use glyph_atlas::font::{Font, FontAtlas};
use glyph_atlas::glyph::{GlyphRasterSet, RasterizedGlyph};

fn test_font() -> Font {
    let set = GlyphRasterSet::from_glyphs(vec![RasterizedGlyph {
        glyph_id: 123456,
        pixels: vec![0u8; 6],
        left: 1,
        top: 2,
        width: 2,
        rows: 3,
    }])
    .unwrap();
    let atlas = FontAtlas::new(768, set);
    let face = harfbuzz_rs::Face::empty().to_shared();
    let shaper = ShapeFont {
        inner: harfbuzz_rs::Font::new(face),
    };
    Font { atlas, shaper }
}

#[test]
fn create_library() {
    let _lib = FontLibrary::new().unwrap();
}

#[test]
fn font_size_is_kept() {
    let font = test_font();
    assert_eq!(font.size(), 768);
}

#[test]
fn glyph_info_returns_the_entry() {
    let font = test_font();
    let e = font.glyph_info(&123456);
    assert_eq!((e.index_begin, e.index_end), (0, 6));
    assert_eq!((e.bearing_x, e.bearing_y), (1, -2));
}

#[test]
fn mesh_buffers_are_exposed() {
    let font = test_font();
    assert_eq!(font.vertex_buffer().len(), 4);
    assert_eq!(font.index_buffer().len(), 6);
}

#[test]
fn shaping_the_empty_string_yields_no_glyphs() {
    let font = test_font();
    assert!(font.shape_text("").is_empty());
}

#[test]
fn drawing_the_empty_string_issues_no_draws() {
    let font = test_font();
    let plan = font.draw_text("");
    assert!(plan.commands.is_empty());
    assert!(plan.error.is_none());
    assert_eq!((plan.pen_x, plan.pen_y), (0, 0));
}

#[test]
fn drawing_unrasterized_characters_is_a_lookup_error() {
    // The atlas only holds glyph id 123456, which no shaped run of this
    // face produces, so the walk must stop at the first glyph.
    let font = test_font();
    let shaped = font.shape_text("ab");
    assert!(!shaped.is_empty());
    let plan = font.draw_text("ab");
    assert!(matches!(plan.error, Some(TextError::GlyphLookup(_))));
    assert!(plan.commands.is_empty());
}
