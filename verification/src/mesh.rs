use vstd::prelude::*;

use crate::glyph::{GlyphRasterSet, RasterizedGlyph, MAX_GLYPHS};
use std::collections::HashMap;

verus! {

/// One mesh vertex in exact integer form. `x` and `y` are the local
/// glyph-space position in pixels; `u_num` and `v_num` are the texture
/// coordinate numerators whose denominators are the atlas width and height;
/// `layer` is the atlas array layer the quad samples (the third texture
/// coordinate).
#[derive(Clone, Copy, Debug, PartialEq, Eq, Structural)]
pub struct Vertex {
    pub x: u32,
    pub y: u32,
    pub u_num: u32,
    pub v_num: u32,
    pub layer: u32,
}

/// The shared quad mesh: 4 vertices and 6 indices per glyph, all glyphs in
/// one vertex buffer and one index buffer.
#[derive(Debug)]
pub struct AtlasMesh {
    pub vertices: Vec<Vertex>,
    pub indices: Vec<u16>,
}

/// Where a glyph is drawn from: its half-open range of indices into the
/// shared index buffer and its bearing vector (left, -top). `top` is negated
/// because bitmap top is measured upward from the baseline while the pen
/// convention here grows downward; this sign flip places glyphs correctly
/// relative to the pen.
#[derive(Clone, Copy, Debug, PartialEq, Eq, Structural)]
pub struct GlyphEntry {
    pub index_begin: u32,
    pub index_end: u32,
    pub bearing_x: i32,
    pub bearing_y: i32,
}

/// Corner `k` of the quad of the glyph on layer `layer`: positions run
/// (0,0), (0,gh), (gw,gh), (gw,0) with texture numerators equal to the
/// position, so the quad spans the glyph's own bitmap area of its layer.
pub open spec fn quad_vertex(g: RasterizedGlyph, layer: u32, k: int) -> Vertex {
    if k == 0 {
        Vertex { x: 0, y: 0, u_num: 0, v_num: 0, layer }
    } else if k == 1 {
        Vertex { x: 0, y: g.rows, u_num: 0, v_num: g.rows, layer }
    } else if k == 2 {
        Vertex { x: g.width, y: g.rows, u_num: g.width, v_num: g.rows, layer }
    } else {
        Vertex { x: g.width, y: 0, u_num: g.width, v_num: 0, layer }
    }
}

/// Entry `k` of the six indices of glyph number `i`: two
/// counter-clockwise-wound triangles over the quad's corners, split along
/// the diagonal from corner 0 to corner 2.
pub open spec fn quad_index(i: int, k: int) -> int {
    if k == 0 {
        4 * i
    } else if k == 1 {
        4 * i + 1
    } else if k == 2 {
        4 * i + 2
    } else if k == 3 {
        4 * i
    } else if k == 4 {
        4 * i + 2
    } else {
        4 * i + 3
    }
}

/// The lookup entry of the glyph stored at position `i`: index range
/// [6i, 6i + 6) and bearing (left, -top).
pub open spec fn glyph_entry(g: RasterizedGlyph, i: int) -> GlyphEntry {
    GlyphEntry {
        index_begin: (6 * i) as u32,
        index_end: (6 * i + 6) as u32,
        bearing_x: g.left,
        bearing_y: (-(g.top as int)) as i32,
    }
}

/// The lookup table a glyph sequence induces, keyed by glyph id. When two
/// positions hold the same glyph id (two characters sharing one glyph), the
/// later position wins; this mirrors plain insertion order and is the
/// documented behaviour, not an error.
pub open spec fn map_of(glyphs: Seq<RasterizedGlyph>) -> Map<u32, GlyphEntry>
    decreases glyphs.len(),
{
    if glyphs.len() == 0 {
        Map::empty()
    } else {
        map_of(glyphs.drop_last()).insert(
            glyphs.last().glyph_id,
            glyph_entry(glyphs.last(), glyphs.len() - 1),
        )
    }
}

/// Distinct glyph numbers own disjoint index ranges [6i, 6i + 6) and
/// disjoint vertex ranges [4i, 4i + 4): no buffer position serves two
/// glyphs.
pub proof fn lemma_glyph_ranges_disjoint(i: int, j: int, k: int)
    requires
        0 <= i,
        0 <= j,
        i != j,
    ensures
        !(6 * i <= k < 6 * i + 6 && 6 * j <= k < 6 * j + 6),
        !(4 * i <= k < 4 * i + 4 && 4 * j <= k < 4 * j + 4),
{
}

/// The lookup table holds an id exactly when some position holds it.
pub proof fn lemma_map_of_domain(glyphs: Seq<RasterizedGlyph>, id: u32)
    ensures
        map_of(glyphs).contains_key(id) <==> exists|i: int|
            0 <= i < glyphs.len() && #[trigger] glyphs[i].glyph_id == id,
    decreases glyphs.len(),
{
    if glyphs.len() > 0 {
        let dl = glyphs.drop_last();
        lemma_map_of_domain(dl, id);
        assert(forall|i: int| 0 <= i < dl.len() ==> #[trigger] dl[i] == glyphs[i]);
        if map_of(glyphs).contains_key(id) {
            if glyphs.last().glyph_id == id {
                assert(glyphs[glyphs.len() - 1].glyph_id == id);
            } else {
                let i0 = choose|i: int| 0 <= i < dl.len() && #[trigger] dl[i].glyph_id == id;
                assert(glyphs[i0].glyph_id == id);
            }
        }
        if exists|i: int| 0 <= i < glyphs.len() && #[trigger] glyphs[i].glyph_id == id {
            let i0 = choose|i: int| 0 <= i < glyphs.len() && #[trigger] glyphs[i].glyph_id == id;
            if i0 < glyphs.len() - 1 {
                assert(dl[i0].glyph_id == id);
                assert(map_of(dl).contains_key(id));
            }
            assert(map_of(glyphs).contains_key(id));
        }
    }
}

/// The lookup table has finitely many entries, at most one per glyph.
pub proof fn lemma_map_of_len(glyphs: Seq<RasterizedGlyph>)
    ensures
        map_of(glyphs).dom().finite(),
        map_of(glyphs).len() <= glyphs.len(),
    decreases glyphs.len(),
{
    if glyphs.len() > 0 {
        lemma_map_of_len(glyphs.drop_last());
    }
}

/// Every entry of the lookup table spans exactly six indices and lies
/// within the shared index buffer of a mesh over these glyphs.
pub proof fn lemma_map_of_entry_ranges(glyphs: Seq<RasterizedGlyph>)
    requires
        glyphs.len() <= MAX_GLYPHS,
    ensures
        forall|id: u32| #[trigger] map_of(glyphs).contains_key(id) ==> map_of(
            glyphs,
        )[id].index_begin + 6 == map_of(glyphs)[id].index_end && map_of(glyphs)[id].index_end <= 6
            * glyphs.len(),
    decreases glyphs.len(),
{
    if glyphs.len() > 0 {
        let dl = glyphs.drop_last();
        lemma_map_of_entry_ranges(dl);
        let last = glyphs.last();
        let n = glyphs.len() as int;
        assert forall|id: u32| #[trigger] map_of(glyphs).contains_key(id) implies map_of(
            glyphs,
        )[id].index_begin + 6 == map_of(glyphs)[id].index_end && map_of(glyphs)[id].index_end <= 6
            * glyphs.len() by {
            if id == last.glyph_id {
                assert(map_of(glyphs)[id] == glyph_entry(last, n - 1));
                assert(0 <= 6 * (n - 1) && 6 * (n - 1) + 6 <= 0xffff_ffff);
            } else {
                assert(map_of(glyphs)[id] == map_of(dl)[id]);
                assert(map_of(dl).contains_key(id));
            }
        };
    }
}

/// Last write wins: the entry stored for an id is the one of the last
/// position holding that id.
pub proof fn lemma_map_of_last_write(glyphs: Seq<RasterizedGlyph>, i: int)
    requires
        0 <= i < glyphs.len(),
        forall|j: int| i < j < glyphs.len() ==> #[trigger] glyphs[j].glyph_id != glyphs[i].glyph_id,
    ensures
        map_of(glyphs).contains_key(glyphs[i].glyph_id),
        map_of(glyphs)[glyphs[i].glyph_id] == glyph_entry(glyphs[i], i),
    decreases glyphs.len(),
{
    if i < glyphs.len() - 1 {
        assert(forall|j: int|
            0 <= j < glyphs.len() - 1 ==> #[trigger] glyphs.drop_last()[j] == glyphs[j]);
        lemma_map_of_last_write(glyphs.drop_last(), i);
        assert(glyphs.last().glyph_id != glyphs[i].glyph_id);
    }
}

/// Builds the shared quad mesh: for glyph number i, 4 vertices at positions
/// [4i, 4i + 4) and 6 indices at positions [6i, 6i + 6) referring to those
/// vertices.
pub fn build_atlas_mesh(set: &GlyphRasterSet) -> (mesh: AtlasMesh)
    requires
        set.wf(),
    ensures
        mesh.vertices@.len() == 4 * set.glyphs@.len(),
        mesh.indices@.len() == 6 * set.glyphs@.len(),
        forall|i: int, k: int|
            0 <= i < set.glyphs@.len() && 0 <= k < 4
                ==> #[trigger] mesh.vertices@[4 * i + k] == quad_vertex(
                set.glyphs@[i],
                i as u32,
                k,
            ),
        forall|i: int, k: int|
            0 <= i < set.glyphs@.len() && 0 <= k < 6 ==> #[trigger] mesh.indices@[6 * i + k]
                == quad_index(i, k),
{
    let n = set.glyphs.len();
    let mut vertices: Vec<Vertex> = Vec::new();
    let mut indices: Vec<u16> = Vec::new();
    let mut i: usize = 0;
    while i < n
        invariant
            set.wf(),
            n == set.glyphs@.len(),
            n <= MAX_GLYPHS,
            i <= n,
            vertices@.len() == 4 * i,
            indices@.len() == 6 * i,
            forall|i2: int, k: int|
                0 <= i2 < i && 0 <= k < 4 ==> #[trigger] vertices@[4 * i2 + k] == quad_vertex(
                    set.glyphs@[i2],
                    i2 as u32,
                    k,
                ),
            forall|i2: int, k: int|
                0 <= i2 < i && 0 <= k < 6 ==> #[trigger] indices@[6 * i2 + k] == quad_index(i2, k),
        decreases n - i,
    {
        let g = &set.glyphs[i];
        let gw = g.width;
        let gh = g.rows;
        let layer = i as u32;
        vertices.push(Vertex { x: 0, y: 0, u_num: 0, v_num: 0, layer });
        vertices.push(Vertex { x: 0, y: gh, u_num: 0, v_num: gh, layer });
        vertices.push(Vertex { x: gw, y: gh, u_num: gw, v_num: gh, layer });
        vertices.push(Vertex { x: gw, y: 0, u_num: gw, v_num: 0, layer });
        let base = (i * 4) as u16;
        indices.push(base);
        indices.push(base + 1);
        indices.push(base + 2);
        indices.push(base);
        indices.push(base + 2);
        indices.push(base + 3);
        proof {
            assert(vertices@[4 * (i as int)] == quad_vertex(set.glyphs@[i as int], i as u32, 0));
            assert(vertices@[4 * (i as int) + 1] == quad_vertex(set.glyphs@[i as int], i as u32, 1));
            assert(vertices@[4 * (i as int) + 2] == quad_vertex(set.glyphs@[i as int], i as u32, 2));
            assert(vertices@[4 * (i as int) + 3] == quad_vertex(set.glyphs@[i as int], i as u32, 3));
            assert(indices@[6 * (i as int)] == quad_index(i as int, 0));
            assert(indices@[6 * (i as int) + 1] == quad_index(i as int, 1));
            assert(indices@[6 * (i as int) + 2] == quad_index(i as int, 2));
            assert(indices@[6 * (i as int) + 3] == quad_index(i as int, 3));
            assert(indices@[6 * (i as int) + 4] == quad_index(i as int, 4));
            assert(indices@[6 * (i as int) + 5] == quad_index(i as int, 5));
        }
        i = i + 1;
    }
    AtlasMesh { vertices, indices }
}

/// Builds the lookup table from glyph id to index range and bearing. The
/// bearing is (left, -top); see `GlyphEntry` for why top is negated. A later
/// glyph with the same id overwrites an earlier one.
pub fn build_atlas_map(set: &GlyphRasterSet) -> (m: HashMap<u32, GlyphEntry>)
    requires
        set.wf(),
    ensures
        m@ == map_of(set.glyphs@),
{
    broadcast use vstd::std_specs::hash::group_hash_axioms;

    let n = set.glyphs.len();
    let mut m: HashMap<u32, GlyphEntry> = HashMap::new();
    let mut i: usize = 0;
    while i < n
        invariant
            set.wf(),
            n == set.glyphs@.len(),
            n <= MAX_GLYPHS,
            i <= n,
            m@ == map_of(set.glyphs@.take(i as int)),
            vstd::std_specs::hash::obeys_key_model::<u32>(),
            vstd::std_specs::hash::builds_valid_hashers::<std::hash::RandomState>(),
        decreases n - i,
    {
        let g = &set.glyphs[i];
        proof {
            assert(set.glyphs@[i as int].wf());
        }
        let entry = GlyphEntry {
            index_begin: (i * 6) as u32,
            index_end: (i * 6 + 6) as u32,
            bearing_x: g.left,
            bearing_y: -g.top,
        };
        m.insert(g.glyph_id, entry);
        proof {
            assert(set.glyphs@.take(i + 1).drop_last() =~= set.glyphs@.take(i as int));
            assert(set.glyphs@.take(i + 1).last() == set.glyphs@[i as int]);
            assert(entry == glyph_entry(set.glyphs@[i as int], i as int));
        }
        i = i + 1;
    }
    proof {
        assert(set.glyphs@.take(n as int) =~= set.glyphs@);
    }
    m
}

} // verus!
