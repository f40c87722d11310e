use vstd::prelude::*;

use crate::error::TextError;

verus! {

/// The most glyphs one atlas may hold: the shared mesh is indexed with 16-bit
/// indices and glyph number 16383 uses vertex indices up to 4 * 16383 + 3 =
/// 65535.
pub const MAX_GLYPHS: usize = 16384;

/// What the rasterization collaborator reports for one rendered glyph, taken
/// as it stands: `bytes` is the rasterizer's own buffer, whose rows lie
/// `pitch` bytes apart, and `width`, `rows`, `left` and `top` are its bitmap
/// metrics, all in its native signed format.
#[derive(Debug)]
pub struct RawGlyphBitmap {
    pub bytes: Vec<u8>,
    pub width: i32,
    pub rows: i32,
    pub pitch: i32,
    pub left: i32,
    pub top: i32,
}

/// A raw bitmap whose shape describes its bytes: nonnegative dimensions, a
/// nonnegative pitch no smaller than the row width (a "down" row flow), and a
/// buffer of exactly `pitch * rows` bytes. `top` must be negatable for the
/// bearing computation.
pub open spec fn raw_shape_ok(raw: RawGlyphBitmap) -> bool {
    &&& 0 <= raw.width
    &&& 0 <= raw.rows
    &&& raw.width <= raw.pitch
    &&& raw.top > i32::MIN
    &&& raw.bytes@.len() == raw.pitch * raw.rows
}

/// A cell in a row strictly before `rbound` lies strictly before the
/// row-major offset of row `rbound`.
proof fn lemma_cell_in_row_prefix(rr: int, cc: int, rbound: int, w: int)
    requires
        0 <= rr < rbound,
        0 <= cc < w,
    ensures
        rr * w + cc < rbound * w,
{
    assert(rr * w + cc < rbound * w) by (nonlinear_arith)
        requires
            0 <= rr < rbound,
            0 <= cc < w,
    {}
}

/// One rasterized glyph: the glyph id the shaping engine names (not a Unicode
/// code point), an 8-bit coverage bitmap packed tightly at `width` bytes per
/// row, and the left/top bearings of the bitmap's top-left corner.
#[derive(Debug)]
pub struct RasterizedGlyph {
    pub glyph_id: u32,
    pub pixels: Vec<u8>,
    pub left: i32,
    pub top: i32,
    pub width: u32,
    pub rows: u32,
}

impl RasterizedGlyph {
    /// The pixel buffer holds exactly one byte per covered cell, and `top`
    /// can be negated.
    pub open spec fn wf(self) -> bool {
        &&& self.pixels@.len() == self.width * self.rows
        &&& self.top > i32::MIN
    }

    /// Repacks a raw collaborator bitmap into a tight `width`-stride pixel
    /// buffer, dropping the pitch padding, and records the given glyph id.
    /// Fails with a rasterization error when the raw shape does not describe
    /// its bytes.
    pub fn from_raw(glyph_id: u32, raw: &RawGlyphBitmap) -> (r: Result<RasterizedGlyph, TextError>)
        ensures
            r is Ok <==> raw_shape_ok(*raw),
            r is Err ==> r == Err::<RasterizedGlyph, TextError>(TextError::Rasterization),
            r matches Ok(g) ==> {
                &&& g.wf()
                &&& g.glyph_id == glyph_id
                &&& g.left == raw.left
                &&& g.top == raw.top
                &&& g.width == raw.width
                &&& g.rows == raw.rows
                &&& forall|rr: int, cc: int|
                    0 <= rr < raw.rows && 0 <= cc < raw.width
                        ==> #[trigger] g.pixels@[rr * raw.width + cc] == raw.bytes@[rr * raw.pitch
                            + cc]
            },
    {
        if !(0 <= raw.width && 0 <= raw.rows && raw.width <= raw.pitch && raw.top > i32::MIN) {
            return Err(TextError::Rasterization);
        }
        let width = raw.width as usize;
        let rows = raw.rows as usize;
        let pitch = raw.pitch as usize;
        proof {
            assert(pitch * rows <= 0x4000_0000_0000_0000) by (nonlinear_arith)
                requires
                    0 <= pitch < 0x8000_0000,
                    0 <= rows < 0x8000_0000,
            {}
        }
        let byte_count = raw.bytes.len();
        if !(byte_count as u64 == pitch as u64 * rows as u64) {
            return Err(TextError::Rasterization);
        }
        assert(raw.bytes@.len() == pitch * rows && raw.bytes@.len() <= usize::MAX);
        let mut pixels: Vec<u8> = Vec::new();
        let mut r: usize = 0;
        while r < rows
            invariant
                width == raw.width,
                rows == raw.rows,
                pitch == raw.pitch,
                width <= pitch,
                r <= rows,
                raw.bytes@.len() == pitch * rows,
                raw.bytes@.len() <= usize::MAX,
                pixels@.len() == r * width,
                forall|rr: int, cc: int|
                    0 <= rr < r && 0 <= cc < width
                        ==> #[trigger] pixels@[rr * width + cc] == raw.bytes@[rr * pitch + cc],
            decreases rows - r,
        {
            let mut c: usize = 0;
            while c < width
                invariant
                    width == raw.width,
                    rows == raw.rows,
                    pitch == raw.pitch,
                    width <= pitch,
                    r < rows,
                    c <= width,
                    raw.bytes@.len() == pitch * rows,
                    raw.bytes@.len() <= usize::MAX,
                    pixels@.len() == r * width + c,
                    forall|rr: int, cc: int|
                        0 <= rr < r && 0 <= cc < width
                            ==> #[trigger] pixels@[rr * width + cc] == raw.bytes@[rr * pitch + cc],
                    forall|cc: int|
                        0 <= cc < c
                            ==> #[trigger] pixels@[r * width + cc] == raw.bytes@[r * pitch + cc],
                decreases width - c,
            {
                proof {
                    assert(r * pitch + c < pitch * rows) by (nonlinear_arith)
                        requires
                            0 <= r < rows,
                            0 <= c < width,
                            width <= pitch,
                    {}
                }
                let byte = raw.bytes[r * pitch + c];
                pixels.push(byte);
                proof {
                    assert forall|rr: int, cc: int|
                        0 <= rr < r && 0 <= cc
                            < width implies #[trigger] pixels@[rr * width + cc] == raw.bytes@[rr
                        * pitch + cc] by {
                        lemma_cell_in_row_prefix(rr, cc, r as int, width as int);
                    };
                }
                c = c + 1;
            }
            proof {
                assert((r + 1) * width == r * width + width) by (nonlinear_arith);
            }
            r = r + 1;
        }
        proof {
            assert(pixels@.len() == raw.width * raw.rows) by (nonlinear_arith)
                requires
                    pixels@.len() == rows * width,
                    width == raw.width,
                    rows == raw.rows,
            {}
        }
        Ok(RasterizedGlyph {
            glyph_id,
            pixels,
            left: raw.left,
            top: raw.top,
            width: raw.width as u32,
            rows: raw.rows as u32,
        })
    }
}

/// The atlas extent: `width` and `height` are the maxima of the glyph bitmap
/// widths and rows, `depth` the glyph count; glyph number i occupies array
/// layer i.
#[derive(Clone, Copy, Debug, PartialEq, Eq, Structural)]
pub struct AtlasExtent {
    pub width: u32,
    pub height: u32,
    pub depth: u32,
}

/// The largest bitmap width in a glyph sequence, 0 when it is empty.
pub open spec fn max_glyph_width(s: Seq<RasterizedGlyph>) -> int
    decreases s.len(),
{
    if s.len() == 0 {
        0
    } else {
        let rest = max_glyph_width(s.drop_last());
        if s.last().width > rest {
            s.last().width as int
        } else {
            rest
        }
    }
}

/// The largest bitmap row count in a glyph sequence, 0 when it is empty.
pub open spec fn max_glyph_rows(s: Seq<RasterizedGlyph>) -> int
    decreases s.len(),
{
    if s.len() == 0 {
        0
    } else {
        let rest = max_glyph_rows(s.drop_last());
        if s.last().rows > rest {
            s.last().rows as int
        } else {
            rest
        }
    }
}

/// The maxima are bounds: every glyph's bitmap fits inside the extent they
/// give.
pub proof fn lemma_max_bounds(s: Seq<RasterizedGlyph>)
    ensures
        0 <= max_glyph_width(s) <= u32::MAX,
        0 <= max_glyph_rows(s) <= u32::MAX,
        forall|i: int|
            0 <= i < s.len()
                ==> #[trigger] s[i].width <= max_glyph_width(s) && s[i].rows <= max_glyph_rows(s),
    decreases s.len(),
{
    if s.len() > 0 {
        lemma_max_bounds(s.drop_last());
        assert(forall|i: int| 0 <= i < s.len() - 1 ==> s[i] == s.drop_last()[i]);
    }
}

/// The glyphs rasterized for one font at one size, with the derived atlas
/// extent.
#[derive(Debug)]
pub struct GlyphRasterSet {
    pub glyphs: Vec<RasterizedGlyph>,
    pub extent: AtlasExtent,
}

impl GlyphRasterSet {
    /// Non-empty, bounded by the mesh index format, well-formed glyphs, and
    /// an extent that is exactly the maxima and the count.
    pub open spec fn wf(self) -> bool {
        &&& 1 <= self.glyphs@.len() <= MAX_GLYPHS
        &&& forall|i: int| 0 <= i < self.glyphs@.len() ==> #[trigger] self.glyphs@[i].wf()
        &&& self.extent.depth == self.glyphs@.len()
        &&& self.extent.width == max_glyph_width(self.glyphs@)
        &&& self.extent.height == max_glyph_rows(self.glyphs@)
    }

    /// Assembles a raster set from already-rasterized glyphs and computes its
    /// extent: width and height are the maxima over the glyph bitmaps, depth
    /// is the glyph count. An empty sequence is rejected before anything else
    /// is computed.
    pub fn from_glyphs(glyphs: Vec<RasterizedGlyph>) -> (r: Result<GlyphRasterSet, TextError>)
        requires
            glyphs@.len() <= MAX_GLYPHS,
            forall|i: int| 0 <= i < glyphs@.len() ==> #[trigger] glyphs@[i].wf(),
        ensures
            glyphs@.len() == 0 ==> r == Err::<GlyphRasterSet, TextError>(
                TextError::EmptyCharacterSet,
            ),
            glyphs@.len() > 0 ==> {
                &&& r is Ok
                &&& r->Ok_0.glyphs@ == glyphs@
                &&& r->Ok_0.wf()
            },
    {
        if glyphs.len() == 0 {
            return Err(TextError::EmptyCharacterSet);
        }
        let mut max_w: u32 = 0;
        let mut max_h: u32 = 0;
        let n = glyphs.len();
        for i in 0..n
            invariant
                n == glyphs@.len(),
                max_w == max_glyph_width(glyphs@.take(i as int)),
                max_h == max_glyph_rows(glyphs@.take(i as int)),
        {
            proof {
                assert(glyphs@.take(i + 1).drop_last() =~= glyphs@.take(i as int));
                assert(glyphs@.take(i + 1).last() == glyphs@[i as int]);
            }
            if glyphs[i].width > max_w {
                max_w = glyphs[i].width;
            }
            if glyphs[i].rows > max_h {
                max_h = glyphs[i].rows;
            }
        }
        proof {
            assert(glyphs@.take(n as int) =~= glyphs@);
        }
        let extent = AtlasExtent { width: max_w, height: max_h, depth: n as u32 };
        Ok(GlyphRasterSet { glyphs, extent })
    }
}

/// The character-set presets offered to callers.
pub struct CharacterSet {}

impl CharacterSet {
    /// The code points 0 through 0x7e: the ASCII range an English text needs.
    pub fn english() -> (r: Vec<char>)
        ensures
            r@.len() == 0x7f,
            forall|i: int| 0 <= i < r@.len() ==> #[trigger] r@[i] as u32 == i,
    {
        let mut v: Vec<char> = Vec::new();
        for x in 0..0x7fu8
            invariant
                v@.len() == x,
                forall|i: int| 0 <= i < v@.len() ==> #[trigger] v@[i] as u32 == i,
        {
            v.push(x as char);
        }
        v
    }
}

} // verus!
