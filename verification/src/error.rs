use vstd::prelude::*;

verus! {

/// Error kinds surfaced by font construction and text drawing.
///
/// - `FontLoad`: a face could not be opened (bad path or face index).
/// - `Rasterization`: a requested character failed to load or render, or the
///   rasterizer handed back a bitmap whose shape does not describe its bytes;
///   the whole construction is aborted and no partial atlas is produced.
/// - `EmptyCharacterSet`: construction was requested with zero characters.
/// - `InvalidSize`: construction was requested with a size that is not
///   positive.
/// - `GlyphLookup`: at draw time, a shaped glyph id had no atlas entry; the
///   payload is the offending glyph id. This is a content defect, never a
///   transient condition.
#[derive(Clone, Copy, Debug, PartialEq, Eq, Structural)]
pub enum TextError {
    FontLoad,
    Rasterization,
    EmptyCharacterSet,
    InvalidSize,
    GlyphLookup(u32),
}

} // verus!
