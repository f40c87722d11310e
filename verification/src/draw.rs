use vstd::prelude::*;

use crate::error::TextError;
use crate::mesh::GlyphEntry;
use std::collections::HashMap;

verus! {

/// One glyph of a shaped run, as the shaping engine reports it: the glyph id
/// (not a Unicode code point), and advances and offsets in 26.6 fixed-point
/// units. Transient: regenerated from the shaping engine on every draw.
#[derive(Clone, Copy, Debug, PartialEq, Eq, Structural)]
pub struct ShapedGlyph {
    pub glyph_id: u32,
    pub x_advance: i32,
    pub y_advance: i32,
    pub x_offset: i32,
    pub y_offset: i32,
}

/// One indexed draw: the glyph's index range into the shared mesh and the
/// glyph's offset from the text origin, in 26.6 fixed-point units
/// (the embedder divides by 64 to reach pixel space).
#[derive(Clone, Copy, Debug, PartialEq, Eq, Structural)]
pub struct DrawCommand {
    pub index_begin: u32,
    pub index_end: u32,
    pub offset_x: i128,
    pub offset_y: i128,
}

/// A planned walk over a shaped run: one command per glyph up to the first
/// glyph whose id has no atlas entry, the error for that glyph if there was
/// one, and the final pen position in 26.6 units. Commands already planned
/// before the error stand; nothing is rolled back.
#[derive(Debug)]
pub struct DrawPlan {
    pub commands: Vec<DrawCommand>,
    pub error: Option<TextError>,
    pub pen_x: i128,
    pub pen_y: i128,
}

/// The pen's x position, in 26.6 units, before glyph number `k`: the sum of
/// the first `k` x advances.
pub open spec fn pen_x_at(shaped: Seq<ShapedGlyph>, k: int) -> int
    decreases k,
{
    if k <= 0 {
        0
    } else {
        pen_x_at(shaped, k - 1) + shaped[k - 1].x_advance
    }
}

/// The pen's y position, in 26.6 units, before glyph number `k`.
pub open spec fn pen_y_at(shaped: Seq<ShapedGlyph>, k: int) -> int
    decreases k,
{
    if k <= 0 {
        0
    } else {
        pen_y_at(shaped, k - 1) + shaped[k - 1].y_advance
    }
}

/// The command issued for glyph number `k`: its entry's index range, and the
/// pen position plus the bearing (a pixel value, scaled by 64 into 26.6
/// units) plus the shaped offset.
pub open spec fn draw_command_at(
    shaped: Seq<ShapedGlyph>,
    m: Map<u32, GlyphEntry>,
    k: int,
) -> DrawCommand {
    let g = shaped[k];
    let e = m[g.glyph_id];
    DrawCommand {
        index_begin: e.index_begin,
        index_end: e.index_end,
        offset_x: (pen_x_at(shaped, k) + 64 * e.bearing_x + g.x_offset) as i128,
        offset_y: (pen_y_at(shaped, k) + 64 * e.bearing_y + g.y_offset) as i128,
    }
}

/// What a correct draw plan looks like: commands cover exactly the longest
/// prefix of the run whose glyph ids all have entries; each command is the
/// one `draw_command_at` gives; the walk stops at the first missing id with
/// a lookup error naming it, or runs to the end with no error; and the pen
/// ends where the covered prefix's advances put it.
pub open spec fn plan_matches(
    shaped: Seq<ShapedGlyph>,
    m: Map<u32, GlyphEntry>,
    commands: Seq<DrawCommand>,
    error: Option<TextError>,
    pen_x: int,
    pen_y: int,
) -> bool {
    let j = commands.len() as int;
    &&& j <= shaped.len()
    &&& forall|k: int| 0 <= k < j ==> m.contains_key(#[trigger] shaped[k].glyph_id)
    &&& forall|k: int| 0 <= k < j ==> #[trigger] commands[k] == draw_command_at(shaped, m, k)
    &&& if j == shaped.len() {
        error is None
    } else {
        &&& !m.contains_key(shaped[j].glyph_id)
        &&& error == Some(TextError::GlyphLookup(shaped[j].glyph_id))
    }
    &&& pen_x == pen_x_at(shaped, j)
    &&& pen_y == pen_y_at(shaped, j)
}

/// The pen never strays further than one maximal advance per glyph walked.
pub proof fn lemma_pen_bound(shaped: Seq<ShapedGlyph>, k: int)
    requires
        0 <= k <= shaped.len(),
    ensures
        -(k * 0x8000_0000) <= pen_x_at(shaped, k) <= k * 0x8000_0000,
        -(k * 0x8000_0000) <= pen_y_at(shaped, k) <= k * 0x8000_0000,
    decreases k,
{
    if k > 0 {
        lemma_pen_bound(shaped, k - 1);
        assert((k - 1) * 0x8000_0000 + 0x8000_0000 == k * 0x8000_0000) by (nonlinear_arith);
    }
}

/// Walks a shaped run against a lookup table and plans one indexed draw per
/// glyph: look the glyph id up, offset the quad by pen + bearing + shaped
/// offset, then advance the pen. A missing id ends the walk at that glyph
/// with a lookup error; the commands already planned stand.
pub fn plan_shaped(shaped: &Vec<ShapedGlyph>, map: &HashMap<u32, GlyphEntry>) -> (r: DrawPlan)
    ensures
        plan_matches(shaped@, map@, r.commands@, r.error, r.pen_x as int, r.pen_y as int),
{
    broadcast use vstd::std_specs::hash::group_hash_axioms;

    let n = shaped.len();
    let mut commands: Vec<DrawCommand> = Vec::new();
    let mut pen_x: i128 = 0;
    let mut pen_y: i128 = 0;
    let mut k: usize = 0;
    while k < n
        invariant
            n == shaped@.len(),
            k <= n,
            commands@.len() == k,
            forall|k2: int| 0 <= k2 < k ==> map@.contains_key(#[trigger] shaped@[k2].glyph_id),
            forall|k2: int|
                0 <= k2 < k ==> #[trigger] commands@[k2] == draw_command_at(shaped@, map@, k2),
            pen_x == pen_x_at(shaped@, k as int),
            pen_y == pen_y_at(shaped@, k as int),
            vstd::std_specs::hash::obeys_key_model::<u32>(),
            vstd::std_specs::hash::builds_valid_hashers::<std::hash::RandomState>(),
        decreases n - k,
    {
        let g = &shaped[k];
        proof {
            lemma_pen_bound(shaped@, k as int);
            assert(k * 0x8000_0000 < 0x1_0000_0000_0000_0000_0000_0000) by (nonlinear_arith)
                requires
                    0 <= k < 0x1_0000_0000_0000_0000,
            {}
            lemma_pen_bound(shaped@, k + 1);
            assert((k + 1) * 0x8000_0000 < 0x2_0000_0000_0000_0000_0000_0000) by (nonlinear_arith)
                requires
                    0 <= k < 0x1_0000_0000_0000_0000,
            {}
        }
        match map.get(&g.glyph_id) {
            None => {
                return DrawPlan {
                    commands,
                    error: Some(TextError::GlyphLookup(g.glyph_id)),
                    pen_x,
                    pen_y,
                };
            },
            Some(e) => {
                let off_x: i128 = pen_x + 64 * (e.bearing_x as i128) + (g.x_offset as i128);
                let off_y: i128 = pen_y + 64 * (e.bearing_y as i128) + (g.y_offset as i128);
                commands.push(
                    DrawCommand {
                        index_begin: e.index_begin,
                        index_end: e.index_end,
                        offset_x: off_x,
                        offset_y: off_y,
                    },
                );
                pen_x = pen_x + (g.x_advance as i128);
                pen_y = pen_y + (g.y_advance as i128);
                proof {
                    assert(commands@[k as int] == draw_command_at(shaped@, map@, k as int));
                }
            },
        }
        k = k + 1;
    }
    DrawPlan { commands, error: None, pen_x, pen_y }
}

/// Planning is a function of the shaped run and the lookup table alone: any
/// two plans that match the same run and table have the same commands (and
/// so the same per-glyph transforms), the same error, and the same pen
/// trajectory. Walking the same text twice therefore accumulates the pen
/// identically both times.
pub proof fn lemma_plan_unique(
    shaped: Seq<ShapedGlyph>,
    m: Map<u32, GlyphEntry>,
    c1: Seq<DrawCommand>,
    e1: Option<TextError>,
    px1: int,
    py1: int,
    c2: Seq<DrawCommand>,
    e2: Option<TextError>,
    px2: int,
    py2: int,
)
    requires
        plan_matches(shaped, m, c1, e1, px1, py1),
        plan_matches(shaped, m, c2, e2, px2, py2),
    ensures
        c1 == c2,
        e1 == e2,
        px1 == px2,
        py1 == py2,
{
    let j1 = c1.len() as int;
    let j2 = c2.len() as int;
    if j1 < j2 {
        assert(m.contains_key(shaped[j1].glyph_id));
        assert(false);
    }
    if j2 < j1 {
        assert(m.contains_key(shaped[j2].glyph_id));
        assert(false);
    }
    assert(c1 =~= c2);
}

/// The empty run plans no draw at all: no commands, no error, and the pen
/// still at the origin.
pub proof fn lemma_plan_empty(
    m: Map<u32, GlyphEntry>,
    commands: Seq<DrawCommand>,
    error: Option<TextError>,
    pen_x: int,
    pen_y: int,
)
    requires
        plan_matches(Seq::empty(), m, commands, error, pen_x, pen_y),
    ensures
        commands == Seq::<DrawCommand>::empty(),
        error is None,
        pen_x == 0,
        pen_y == 0,
{
    assert(commands =~= Seq::<DrawCommand>::empty());
}

} // verus!
