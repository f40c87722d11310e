use vstd::prelude::*;

use crate::draw::ShapedGlyph;
use crate::glyph::RawGlyphBitmap;

verus! {

#[verifier::external_type_specification]
#[verifier::external_body]
pub struct ExFtLibrary(freetype::library::Library);

#[verifier::external_type_specification]
#[verifier::external_body]
#[verifier::reject_recursive_types(BYTES)]
pub struct ExFtFace<BYTES>(freetype::face::Face<BYTES>);

#[verifier::external_type_specification]
#[verifier::external_body]
pub struct ExFtError(freetype::error::Error);

/// The handle to the rasterization library's context. Faces opened from it
/// must not outlive it; the embedder manages its lifetime.
pub struct FontLibrary {
    pub ft_lib: freetype::library::Library,
}

impl FontLibrary {
    /// Relies on freetype Library::init: brings up the rasterization
    /// library's context.
    #[verifier::external_body]
    pub fn new() -> Result<FontLibrary, freetype::error::Error> {
        let ft_lib = freetype::Library::init()?;
        Ok(FontLibrary { ft_lib })
    }
}

/// Handle to a shaping-engine face. The refcounted harfbuzz face inside is
/// opaque to verification; the embedder builds it when it opens the font
/// file.
#[verifier::external_body]
pub struct ShapeFace {
    pub inner: harfbuzz_rs::Shared<harfbuzz_rs::Face<'static>>,
}

/// Handle to a shaping-engine font scaled for one rasterization; opaque to
/// verification.
#[verifier::external_body]
pub struct ShapeFont {
    pub inner: harfbuzz_rs::Owned<harfbuzz_rs::Font<'static>>,
}

/// A font face opened by the embedder: the rasterizer's face handle and the
/// shaping engine's face handle for the same font file and face index.
pub struct FontFace {
    pub ft_face: freetype::face::Face,
    pub hb_face: ShapeFace,
}

/// Relies on freetype Face::set_char_size(0, size, 0, resolution): sets the
/// face's character height to `size26` 26.6 fixed-point points at the given
/// vertical resolution, from which the rasterizer derives its pixel-per-em
/// scale.
#[verifier::external_body]
pub(crate) fn ft_set_char_size(
    face: &freetype::face::Face,
    size26: i32,
    resolution: u32,
) -> Result<(), freetype::error::Error> {
    face.set_char_size(0, size26 as isize, 0, resolution)
}

/// Relies on freetype Face::load_char with the RENDER flag: loads the glyph
/// for the character and renders it into the face's glyph slot.
#[verifier::external_body]
pub(crate) fn ft_load_and_render(
    face: &freetype::face::Face,
    c: char,
) -> Result<(), freetype::error::Error> {
    face.load_char(c as usize, freetype::face::LoadFlag::RENDER)
}

/// Relies on freetype Face::get_char_index: the face's native glyph id for a
/// character, None when the font does not define the character.
#[verifier::external_body]
pub(crate) fn ft_char_index(face: &freetype::face::Face, c: char) -> Option<u32> {
    face.get_char_index(c as usize)
}

/// Relies on the freetype glyph-slot accessors Face::glyph,
/// GlyphSlot::bitmap, GlyphSlot::bitmap_left, GlyphSlot::bitmap_top and
/// Bitmap::buffer/width/rows/pitch: reads the bitmap and bearings of the
/// glyph most recently rendered into the face's slot, as one plain-value
/// record. What the values mean is validated downstream for every outcome.
#[verifier::external_body]
pub(crate) fn ft_rendered_bitmap(face: &freetype::face::Face) -> RawGlyphBitmap {
    let slot = face.glyph();
    let bitmap = slot.bitmap();
    RawGlyphBitmap {
        bytes: bitmap.buffer().to_vec(),
        width: bitmap.width(),
        rows: bitmap.rows(),
        pitch: bitmap.pitch(),
        left: slot.bitmap_left(),
        top: slot.bitmap_top(),
    }
}

/// Relies on harfbuzz_rs Font::new and Font::set_scale: makes a shaping font
/// for the face and scales it to `x_ppem` / `y_ppem`.
#[verifier::external_body]
pub(crate) fn make_shape_font(face: &ShapeFace, x_ppem: i32, y_ppem: i32) -> ShapeFont {
    let mut font = harfbuzz_rs::Font::new(face.inner.clone());
    font.set_scale(x_ppem, y_ppem);
    ShapeFont { inner: font }
}

/// Relies on harfbuzz_rs UnicodeBuffer::new/add_str, shape, and the
/// GlyphBuffer accessors get_glyph_positions/get_glyph_infos: shapes the
/// text with no extra features and hands the run back as plain values, in
/// shaping order. Shaping an empty buffer yields no glyphs; that case is
/// answered without touching the position arrays, which the crate reads
/// through a raw pointer that is null when the buffer is empty.
#[verifier::external_body]
pub(crate) fn hb_shape_text(font: &ShapeFont, text: &str) -> (r: Vec<ShapedGlyph>)
    ensures
        text@.len() == 0 ==> r@.len() == 0,
{
    let buffer = harfbuzz_rs::UnicodeBuffer::new().add_str(text);
    let out = harfbuzz_rs::shape(&font.inner, buffer, &[]);
    if out.is_empty() {
        return Vec::new();
    }
    let run = out.get_glyph_positions().iter().zip(out.get_glyph_infos());
    run.map(|(p, i)| ShapedGlyph {
        glyph_id: i.codepoint,
        x_advance: p.x_advance,
        y_advance: p.y_advance,
        x_offset: p.x_offset,
        y_offset: p.y_offset,
    }).collect()
}

} // verus!
