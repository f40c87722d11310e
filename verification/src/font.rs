use vstd::prelude::*;

use crate::atlas::{atlas_byte, atlas_cell_index, build_atlas_buffer};
use crate::draw::{draw_command_at, plan_matches, plan_shaped, DrawCommand, DrawPlan, ShapedGlyph};
use crate::engine::{
    ft_char_index, ft_load_and_render, ft_rendered_bitmap, ft_set_char_size, hb_shape_text,
    make_shape_font, FontFace, ShapeFont,
};
use crate::error::TextError;
use crate::fixed::i26dot6_to_ppem;
use crate::glyph::{
    max_glyph_rows, max_glyph_width, AtlasExtent, GlyphRasterSet, RasterizedGlyph, MAX_GLYPHS,
};
use crate::mesh::{
    build_atlas_map, build_atlas_mesh, lemma_map_of_entry_ranges, map_of, quad_index, quad_vertex,
    AtlasMesh, GlyphEntry, Vertex,
};
use std::collections::HashMap;

verus! {

/// The fixed rasterization resolution in dots per inch. Both the rasterizer
/// and the shaping engine are scaled from the same 26.6 size at this
/// resolution, so their measurements agree.
pub const RESOLUTION: u32 = 300;

/// The largest 26.6 size whose pixel-per-em computation at `RESOLUTION`
/// stays within the rasterizer's 32-bit size type.
pub const MAX_SIZE_I26DOT6: i32 = 7158278;

impl GlyphRasterSet {
    /// Sets the face's character size to `size26` at the given resolution,
    /// then rasterizes every requested character once, in order (duplicates
    /// are rasterized independently), recording for each the face's native
    /// glyph id — the id the shaping engine will later emit for the same
    /// character. Rejects a non-positive size, then an empty character list,
    /// before touching the rasterizer; any character that fails to load or
    /// render aborts the whole operation.
    pub fn rasterize(
        face: &FontFace,
        characters: &Vec<char>,
        size26: i32,
        resolution: u32,
    ) -> (r: Result<GlyphRasterSet, TextError>)
        requires
            characters@.len() <= MAX_GLYPHS,
        ensures
            r == Err::<GlyphRasterSet, TextError>(TextError::InvalidSize) <==> size26 <= 0,
            r == Err::<GlyphRasterSet, TextError>(TextError::EmptyCharacterSet) <==> (0 < size26
                && characters@.len() == 0),
            r matches Ok(s) ==> {
                &&& s.wf()
                &&& s.glyphs@.len() == characters@.len()
                &&& 0 < size26
            },
            r matches Err(e) ==> (e == TextError::InvalidSize || e == TextError::EmptyCharacterSet
                || e == TextError::Rasterization),
    {
        if size26 <= 0 {
            return Err(TextError::InvalidSize);
        }
        if characters.len() == 0 {
            return Err(TextError::EmptyCharacterSet);
        }
        match ft_set_char_size(&face.ft_face, size26, resolution) {
            Ok(()) => (),
            Err(_) => {
                return Err(TextError::Rasterization);
            },
        }
        let n = characters.len();
        let mut glyphs: Vec<RasterizedGlyph> = Vec::new();
        let mut i: usize = 0;
        while i < n
            invariant
                0 < size26,
                0 < n,
                n == characters@.len(),
                n <= MAX_GLYPHS,
                i <= n,
                glyphs@.len() == i,
                forall|j: int| 0 <= j < i ==> #[trigger] glyphs@[j].wf(),
            decreases n - i,
        {
            let c = characters[i];
            match ft_load_and_render(&face.ft_face, c) {
                Ok(()) => (),
                Err(_) => {
                    return Err(TextError::Rasterization);
                },
            }
            // The rasterizer names its missing-glyph slot with id 0, so a
            // character the font does not define keeps that id.
            let glyph_id = match ft_char_index(&face.ft_face, c) {
                Some(id) => id,
                None => 0,
            };
            let raw = ft_rendered_bitmap(&face.ft_face);
            let g = match RasterizedGlyph::from_raw(glyph_id, &raw) {
                Ok(g) => g,
                Err(e) => {
                    return Err(e);
                },
            };
            glyphs.push(g);
            i = i + 1;
        }
        match GlyphRasterSet::from_glyphs(glyphs) {
            Ok(s) => Ok(s),
            Err(e) => Err(e),
        }
    }
}

/// The CPU-side atlas a font draws from: the point size in 26.6 units, the
/// atlas extent, the shared quad mesh, and the lookup table from glyph id to
/// index range and bearing. Immutable once built; the glyph sequence it was
/// built from is kept as ghost state so the contracts can speak about it.
pub struct FontAtlas {
    pub size26: i32,
    pub extent: AtlasExtent,
    pub mesh: AtlasMesh,
    pub map: HashMap<u32, GlyphEntry>,
    pub glyphs: Ghost<Seq<RasterizedGlyph>>,
}

impl FontAtlas {
    /// Everything agrees with the ghost glyph sequence: the extent is its
    /// maxima and count, the mesh holds its quads, the table is its lookup
    /// map.
    pub open spec fn wf(self) -> bool {
        &&& 0 < self.size26
        &&& 1 <= self.glyphs@.len() <= MAX_GLYPHS
        &&& forall|i: int| 0 <= i < self.glyphs@.len() ==> #[trigger] self.glyphs@[i].wf()
        &&& self.extent.depth == self.glyphs@.len()
        &&& self.extent.width == max_glyph_width(self.glyphs@)
        &&& self.extent.height == max_glyph_rows(self.glyphs@)
        &&& self.mesh.vertices@.len() == 4 * self.glyphs@.len()
        &&& self.mesh.indices@.len() == 6 * self.glyphs@.len()
        &&& forall|i: int, k: int|
            0 <= i < self.glyphs@.len() && 0 <= k < 4
                ==> #[trigger] self.mesh.vertices@[4 * i + k] == quad_vertex(
                self.glyphs@[i],
                i as u32,
                k,
            )
        &&& forall|i: int, k: int|
            0 <= i < self.glyphs@.len() && 0 <= k < 6 ==> #[trigger] self.mesh.indices@[6 * i + k]
                == quad_index(i, k)
        &&& self.map@ == map_of(self.glyphs@)
    }

    /// Builds the mesh and lookup table over a raster set, consuming it.
    pub fn new(size26: i32, set: GlyphRasterSet) -> (r: FontAtlas)
        requires
            set.wf(),
            0 < size26,
        ensures
            r.wf(),
            r.size26 == size26,
            r.glyphs@ == set.glyphs@,
            r.extent == set.extent,
    {
        let mesh = build_atlas_mesh(&set);
        let map = build_atlas_map(&set);
        let ghost glyphs = set.glyphs@;
        FontAtlas { size26, extent: set.extent, mesh, map, glyphs: Ghost(glyphs) }
    }
}

/// A font ready to draw with: the CPU-side atlas and a shaping-engine font
/// scaled to the same pixel-per-em value the rasterizer derived. The
/// embedder owns the GPU twins (texture, buffers, bindings) built from the
/// atlas.
pub struct Font {
    pub atlas: FontAtlas,
    pub shaper: ShapeFont,
}

impl Font {
    pub open spec fn wf(self) -> bool {
        self.atlas.wf()
    }

    /// Builds a font from an opened face: rasterize the character set at
    /// `RESOLUTION`, scale a shaping font to the matching pixel-per-em
    /// value, pack the atlas byte buffer, and build the quad mesh and the
    /// lookup table. Returns the font together with the atlas byte buffer,
    /// which the embedder uploads as an 8-bit single-channel array texture
    /// of the atlas extent, with row stride `extent.width` and image stride
    /// `extent.height`. Construction is all-or-nothing; an atlas byte count
    /// beyond the address space is reported as a rasterization failure.
    pub fn new(face: &FontFace, size26: i32, characters: &Vec<char>) -> (r: Result<
        (Font, Vec<u8>),
        TextError,
    >)
        requires
            characters@.len() <= MAX_GLYPHS,
            size26 <= MAX_SIZE_I26DOT6,
        ensures
            r == Err::<(Font, Vec<u8>), TextError>(TextError::InvalidSize) <==> size26 <= 0,
            r == Err::<(Font, Vec<u8>), TextError>(TextError::EmptyCharacterSet) <==> (0 < size26
                && characters@.len() == 0),
            r matches Ok(p) ==> {
                &&& p.0.wf()
                &&& p.0.atlas.size26 == size26
                &&& p.0.atlas.glyphs@.len() == characters@.len()
                &&& p.1@.len() == p.0.atlas.extent.width * p.0.atlas.extent.height
                    * p.0.atlas.extent.depth
                &&& forall|i: int, row: int, col: int|
                    0 <= i < p.0.atlas.extent.depth && 0 <= row < p.0.atlas.extent.height && 0
                        <= col < p.0.atlas.extent.width ==> #[trigger] p.1@[atlas_cell_index(
                        p.0.atlas.extent,
                        i,
                        row,
                        col,
                    )] == atlas_byte(p.0.atlas.glyphs@[i], row, col)
            },
            r matches Err(e) ==> (e == TextError::InvalidSize || e == TextError::EmptyCharacterSet
                || e == TextError::Rasterization),
    {
        let set = match GlyphRasterSet::rasterize(face, characters, size26, RESOLUTION) {
            Ok(s) => s,
            Err(e) => {
                return Err(e);
            },
        };
        let ppem = i26dot6_to_ppem(size26, RESOLUTION);
        let shaper = make_shape_font(&face.hb_face, ppem, ppem);
        proof {
            assert((set.extent.width as int) * (set.extent.height as int)
                < 0x1_0000_0000_0000_0000) by (nonlinear_arith)
                requires
                    0 <= set.extent.width < 0x1_0000_0000,
                    0 <= set.extent.height < 0x1_0000_0000,
            {}
            assert((set.extent.width as int) * (set.extent.height as int)
                * (set.extent.depth as int) < 0x1_0000_0000_0000_0000_0000_0000)
                by (nonlinear_arith)
                requires
                    0 <= (set.extent.width as int) * (set.extent.height as int)
                        < 0x1_0000_0000_0000_0000,
                    0 <= set.extent.depth < 0x1_0000_0000,
            {}
        }
        let wh: u128 = (set.extent.width as u128) * (set.extent.height as u128);
        let vol: u128 = wh * (set.extent.depth as u128);
        if vol > usize::MAX as u128 {
            return Err(TextError::Rasterization);
        }
        let buffer = build_atlas_buffer(&set);
        let ghost set_extent = set.extent;
        let ghost set_glyphs = set.glyphs@;
        let atlas = FontAtlas::new(size26, set);
        proof {
            assert(atlas.extent == set_extent && atlas.glyphs@ == set_glyphs);
            assert forall|i: int, row: int, col: int|
                0 <= i < atlas.extent.depth && 0 <= row < atlas.extent.height && 0 <= col
                    < atlas.extent.width implies #[trigger] buffer@[atlas_cell_index(
                atlas.extent,
                i,
                row,
                col,
            )] == atlas_byte(atlas.glyphs@[i], row, col) by {
                assert(buffer@[atlas_cell_index(set_extent, i, row, col)] == atlas_byte(
                    set_glyphs[i],
                    row,
                    col,
                ));
            };
        }
        Ok((Font { atlas, shaper }, buffer))
    }

    /// The font's point size in 26.6 fixed-point units.
    pub fn size(&self) -> (r: i32)
        ensures
            r == self.atlas.size26,
    {
        self.atlas.size26
    }

    /// Shapes a string with the font's scaled shaping font and returns the
    /// run as plain values, in shaping order. The run is the shaping
    /// engine's to decide; an empty string shapes to an empty run.
    pub fn shape_text(&self, text: &str) -> (r: Vec<ShapedGlyph>)
        ensures
            text@.len() == 0 ==> r@.len() == 0,
    {
        hb_shape_text(&self.shaper, text)
    }

    /// The lookup entry of a glyph id. The character set used at build time
    /// must cover everything ever shaped: asking for an id that was never
    /// rasterized into this font is a caller error, ruled out by the
    /// precondition.
    pub fn glyph_info(&self, char_index: &u32) -> (r: &GlyphEntry)
        requires
            self.atlas.map@.contains_key(*char_index),
        ensures
            *r == self.atlas.map@[*char_index],
    {
        broadcast use vstd::std_specs::hash::group_hash_axioms;

        match self.atlas.map.get(char_index) {
            Some(e) => e,
            None => vstd::pervasive::unreached(),
        }
    }

    /// The shared index buffer of the atlas mesh.
    pub fn index_buffer(&self) -> (r: &Vec<u16>)
        ensures
            r@ == self.atlas.mesh.indices@,
    {
        &self.atlas.mesh.indices
    }

    /// The shared vertex buffer of the atlas mesh.
    pub fn vertex_buffer(&self) -> (r: &Vec<Vertex>)
        ensures
            r@ == self.atlas.mesh.vertices@,
    {
        &self.atlas.mesh.vertices
    }

    /// Shapes a string and plans its draws: one indexed draw per shaped
    /// glyph, walked strictly in shaping order with the pen starting at the
    /// origin. The plan matches the run the shaping engine returned; an
    /// empty string plans no draw and leaves the pen at the origin.
    pub fn draw_text(&self, text: &str) -> (r: DrawPlan)
        ensures
            exists|shaped: Seq<ShapedGlyph>|
                #[trigger] plan_matches(
                    shaped,
                    self.atlas.map@,
                    r.commands@,
                    r.error,
                    r.pen_x as int,
                    r.pen_y as int,
                ) && (text@.len() == 0 ==> shaped.len() == 0),
            text@.len() == 0 ==> {
                &&& r.commands@.len() == 0
                &&& r.error is None
                &&& r.pen_x == 0
                &&& r.pen_y == 0
            },
    {
        let shaped = self.shape_text(text);
        let plan = plan_shaped(&shaped, &self.atlas.map);
        plan
    }
}

/// Every planned draw references an index range of exactly six indices that
/// lies wholly inside the font's shared index buffer: the plan never asks
/// the embedder to read past the mesh.
pub proof fn lemma_plan_ranges_valid(
    atlas: FontAtlas,
    shaped: Seq<ShapedGlyph>,
    commands: Seq<DrawCommand>,
    error: Option<TextError>,
    pen_x: int,
    pen_y: int,
)
    requires
        atlas.wf(),
        plan_matches(shaped, atlas.map@, commands, error, pen_x, pen_y),
    ensures
        forall|k: int|
            0 <= k < commands.len() ==> (#[trigger] commands[k]).index_begin + 6
                == commands[k].index_end && commands[k].index_end <= atlas.mesh.indices@.len(),
{
    lemma_map_of_entry_ranges(atlas.glyphs@);
    assert forall|k: int|
        0 <= k < commands.len() implies (#[trigger] commands[k]).index_begin + 6
        == commands[k].index_end && commands[k].index_end <= atlas.mesh.indices@.len() by {
        assert(commands[k] == draw_command_at(shaped, atlas.map@, k));
        assert(atlas.map@.contains_key(shaped[k].glyph_id));
    };
}

} // verus!
