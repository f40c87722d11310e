use vstd::prelude::*;

use crate::glyph::{AtlasExtent, GlyphRasterSet, RasterizedGlyph};

verus! {

/// The row-major offset of cell (layer, row, col) in the atlas byte buffer.
pub open spec fn atlas_cell_index(e: AtlasExtent, layer: int, row: int, col: int) -> int {
    layer * (e.width * e.height) + row * e.width + col
}

/// The byte the atlas holds at (row, col) of a glyph's layer: the glyph's own
/// pixel when its bitmap covers the cell, 0 otherwise.
pub open spec fn atlas_byte(g: RasterizedGlyph, row: int, col: int) -> u8 {
    if row < g.rows && col < g.width {
        g.pixels@[row * g.width + col]
    } else {
        0u8
    }
}

/// A cell of a layer strictly before `layer` lies strictly before that
/// layer's first offset.
proof fn lemma_cell_before_layer(i2: int, row2: int, col2: int, layer: int, w: int, h: int)
    requires
        0 <= i2 < layer,
        0 <= row2 < h,
        0 <= col2 < w,
    ensures
        0 <= i2 * (w * h) + row2 * w + col2 < layer * (w * h),
{
    assert(0 <= i2 * (w * h) + row2 * w + col2 < layer * (w * h)) by (nonlinear_arith)
        requires
            0 <= i2 < layer,
            0 <= row2 < h,
            0 <= col2 < w,
    {}
}

/// A cell of a row strictly before `row` lies strictly before that row's
/// first offset.
proof fn lemma_cell_before_row(row2: int, col2: int, row: int, w: int)
    requires
        0 <= row2 < row,
        0 <= col2 < w,
    ensures
        0 <= row2 * w + col2 < row * w,
{
    assert(0 <= row2 * w + col2 < row * w) by (nonlinear_arith)
        requires
            0 <= row2 < row,
            0 <= col2 < w,
    {}
}

/// Builds the zero-padded, row-major atlas byte buffer: glyph number i fills
/// array layer i, copied row by row at the atlas width stride; cells a
/// glyph's bitmap does not cover are 0. A whole-glyph copy at the glyph's own
/// stride would be wrong whenever the glyph is narrower than the atlas.
pub fn build_atlas_buffer(set: &GlyphRasterSet) -> (buf: Vec<u8>)
    requires
        set.wf(),
        set.extent.width * set.extent.height * set.extent.depth <= usize::MAX,
    ensures
        buf@.len() == set.extent.width * set.extent.height * set.extent.depth,
        forall|i: int, row: int, col: int|
            0 <= i < set.extent.depth && 0 <= row < set.extent.height && 0 <= col
                < set.extent.width
                ==> #[trigger] buf@[atlas_cell_index(set.extent, i, row, col)] == atlas_byte(
                set.glyphs@[i],
                row,
                col,
            ),
{
    let w = set.extent.width as usize;
    let h = set.extent.height as usize;
    let d = set.extent.depth as usize;
    let ghost e = set.extent;
    proof {
        assert(d * (w * h) == w * h * d) by (nonlinear_arith);
    }
    let mut buf: Vec<u8> = Vec::new();
    let mut i: usize = 0;
    while i < d
        invariant
            set.wf(),
            w == e.width,
            h == e.height,
            d == e.depth,
            e == set.extent,
            w * h * d <= usize::MAX,
            d * (w * h) == w * h * d,
            i <= d,
            buf@.len() == i * (w * h),
            forall|i2: int, row2: int, col2: int|
                0 <= i2 < i && 0 <= row2 < h && 0 <= col2 < w
                    ==> #[trigger] buf@[atlas_cell_index(e, i2, row2, col2)] == atlas_byte(
                    set.glyphs@[i2],
                    row2,
                    col2,
                ),
        decreases d - i,
    {
        proof {
            assert((i + 1) * (w * h) <= d * (w * h)) by (nonlinear_arith)
                requires
                    0 <= i < d,
                    0 <= w * h,
            {}
        }
        let g = &set.glyphs[i];
        let gw = g.width as usize;
        let gh = g.rows as usize;
        let mut row: usize = 0;
        while row < h
            invariant
                set.wf(),
                w == e.width,
                h == e.height,
                d == e.depth,
                e == set.extent,
                w * h * d <= usize::MAX,
                d * (w * h) == w * h * d,
                i < d,
                row <= h,
                (i + 1) * (w * h) <= d * (w * h),
                g == set.glyphs@[i as int],
                gw == g.width,
                gh == g.rows,
                buf@.len() == i * (w * h) + row * w,
                forall|i2: int, row2: int, col2: int|
                    0 <= i2 < i && 0 <= row2 < h && 0 <= col2 < w
                        ==> #[trigger] buf@[atlas_cell_index(e, i2, row2, col2)] == atlas_byte(
                        set.glyphs@[i2],
                        row2,
                        col2,
                    ),
                forall|row2: int, col2: int|
                    0 <= row2 < row && 0 <= col2 < w
                        ==> #[trigger] buf@[atlas_cell_index(e, i as int, row2, col2)]
                        == atlas_byte(set.glyphs@[i as int], row2, col2),
            decreases h - row,
        {
            let mut col: usize = 0;
            while col < w
                invariant
                    set.wf(),
                    w == e.width,
                    h == e.height,
                    d == e.depth,
                    e == set.extent,
                    w * h * d <= usize::MAX,
                    d * (w * h) == w * h * d,
                    i < d,
                    row < h,
                    col <= w,
                    (i + 1) * (w * h) <= d * (w * h),
                    g == set.glyphs@[i as int],
                    gw == g.width,
                    gh == g.rows,
                    buf@.len() == i * (w * h) + row * w + col,
                    forall|i2: int, row2: int, col2: int|
                        0 <= i2 < i && 0 <= row2 < h && 0 <= col2 < w
                            ==> #[trigger] buf@[atlas_cell_index(e, i2, row2, col2)] == atlas_byte(
                            set.glyphs@[i2],
                            row2,
                            col2,
                        ),
                    forall|row2: int, col2: int|
                        0 <= row2 < row && 0 <= col2 < w
                            ==> #[trigger] buf@[atlas_cell_index(e, i as int, row2, col2)]
                            == atlas_byte(set.glyphs@[i as int], row2, col2),
                    forall|col2: int|
                        0 <= col2 < col
                            ==> #[trigger] buf@[atlas_cell_index(e, i as int, row as int, col2)]
                            == atlas_byte(set.glyphs@[i as int], row as int, col2),
                decreases w - col,
            {
                let byte: u8 = if row < gh && col < gw {
                    let pixel_count = g.pixels.len();
                    proof {
                        assert(row * gw + col < gw * gh) by (nonlinear_arith)
                            requires
                                0 <= row < gh,
                                0 <= col < gw,
                        {}
                        assert(set.glyphs@[i as int].wf());
                        assert(gw * gh == pixel_count);
                    }
                    g.pixels[row * gw + col]
                } else {
                    0u8
                };
                proof {
                    assert(byte == atlas_byte(set.glyphs@[i as int], row as int, col as int));
                    assert(row * w + col < w * h) by (nonlinear_arith)
                        requires
                            0 <= row < h,
                            0 <= col < w,
                    {}
                    assert(buf@.len() < (i + 1) * (w * h)) by (nonlinear_arith)
                        requires
                            buf@.len() == i * (w * h) + row * w + col,
                            row * w + col < w * h,
                    {}
                }
                buf.push(byte);
                proof {
                    assert forall|i2: int, row2: int, col2: int|
                        0 <= i2 < i && 0 <= row2 < h && 0 <= col2
                            < w implies #[trigger] buf@[atlas_cell_index(e, i2, row2, col2)]
                        == atlas_byte(set.glyphs@[i2], row2, col2) by {
                        lemma_cell_before_layer(i2, row2, col2, i as int, w as int, h as int);
                        assert(i2 * (w * h) + row2 * w + col2 < i * (w * h));
                    };
                    assert forall|row2: int, col2: int|
                        0 <= row2 < row && 0 <= col2
                            < w implies #[trigger] buf@[atlas_cell_index(e, i as int, row2, col2)]
                        == atlas_byte(set.glyphs@[i as int], row2, col2) by {
                        lemma_cell_before_row(row2, col2, row as int, w as int);
                    };
                }
                col = col + 1;
            }
            proof {
                assert((row + 1) * w == row * w + w) by (nonlinear_arith);
            }
            row = row + 1;
        }
        proof {
            assert((i + 1) * (w * h) == i * (w * h) + h * w) by (nonlinear_arith);
        }
        i = i + 1;
    }
    buf
}

} // verus!
