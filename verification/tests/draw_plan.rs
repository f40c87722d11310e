use std::collections::HashMap;

use glyph_atlas::draw::{plan_shaped, ShapedGlyph};
use glyph_atlas::error::TextError;
use glyph_atlas::glyph::{GlyphRasterSet, RasterizedGlyph};
use glyph_atlas::mesh::{build_atlas_map, GlyphEntry};

fn entry(begin: u32, end: u32, bx: i32, by: i32) -> GlyphEntry {
    GlyphEntry {
        index_begin: begin,
        index_end: end,
        bearing_x: bx,
        bearing_y: by,
    }
}

fn shaped(id: u32, xa: i32, ya: i32, xo: i32, yo: i32) -> ShapedGlyph {
    ShapedGlyph {
        glyph_id: id,
        x_advance: xa,
        y_advance: ya,
        x_offset: xo,
        y_offset: yo,
    }
}

#[test]
fn single_glyph_offsets() {
    let mut map: HashMap<u32, GlyphEntry> = HashMap::new();
    map.insert(3, entry(0, 6, 2, -5));
    let run = vec![shaped(3, 64, 0, 1, 2)];
    let plan = plan_shaped(&run, &map);
    assert!(plan.error.is_none());
    assert_eq!(plan.commands.len(), 1);
    let c = &plan.commands[0];
    assert_eq!((c.index_begin, c.index_end), (0, 6));
    // pen 0 + 64 * bearing + shaped offset.
    assert_eq!(c.offset_x, 0 + 64 * 2 + 1);
    assert_eq!(c.offset_y, 0 + 64 * -5 + 2);
    assert_eq!((plan.pen_x, plan.pen_y), (64, 0));
}

#[test]
fn pen_accumulates_across_glyphs() {
    let mut map: HashMap<u32, GlyphEntry> = HashMap::new();
    map.insert(3, entry(0, 6, 2, -5));
    map.insert(4, entry(6, 12, 0, 0));
    let run = vec![shaped(3, 64, 10, 1, 2), shaped(4, 32, 0, 0, 0)];
    let plan = plan_shaped(&run, &map);
    assert!(plan.error.is_none());
    assert_eq!(plan.commands.len(), 2);
    assert_eq!(plan.commands[0].offset_x, 129);
    assert_eq!(plan.commands[0].offset_y, -318);
    // The second glyph starts from the advanced pen (64, 10).
    assert_eq!(plan.commands[1].offset_x, 64);
    assert_eq!(plan.commands[1].offset_y, 10);
    assert_eq!((plan.pen_x, plan.pen_y), (96, 10));
}

#[test]
fn empty_run_plans_nothing() {
    let mut map: HashMap<u32, GlyphEntry> = HashMap::new();
    map.insert(3, entry(0, 6, 2, -5));
    let plan = plan_shaped(&Vec::new(), &map);
    assert!(plan.error.is_none());
    assert!(plan.commands.is_empty());
    assert_eq!((plan.pen_x, plan.pen_y), (0, 0));
}

#[test]
fn missing_glyph_stops_the_walk_and_keeps_the_prefix() {
    let mut map: HashMap<u32, GlyphEntry> = HashMap::new();
    map.insert(3, entry(0, 6, 0, 0));
    let run = vec![
        shaped(3, 64, 10, 0, 0),
        shaped(99, 7, 7, 0, 0),
        shaped(3, 5, 5, 0, 0),
    ];
    let plan = plan_shaped(&run, &map);
    assert_eq!(plan.error, Some(TextError::GlyphLookup(99)));
    // The command already planned stands; nothing is rolled back.
    assert_eq!(plan.commands.len(), 1);
    assert_eq!((plan.commands[0].offset_x, plan.commands[0].offset_y), (0, 0));
    // The pen stops where the missing glyph was found.
    assert_eq!((plan.pen_x, plan.pen_y), (64, 10));
}

#[test]
fn planning_twice_is_identical() {
    let mut map: HashMap<u32, GlyphEntry> = HashMap::new();
    map.insert(3, entry(0, 6, 2, -5));
    map.insert(4, entry(6, 12, 1, 1));
    let run = vec![shaped(3, 64, 0, 1, 2), shaped(4, 32, 8, 3, 4)];
    let plan_a = plan_shaped(&run, &map);
    let plan_b = plan_shaped(&run, &map);
    assert_eq!(plan_a.commands, plan_b.commands);
    assert_eq!(plan_a.error, plan_b.error);
    assert_eq!((plan_a.pen_x, plan_a.pen_y), (plan_b.pen_x, plan_b.pen_y));
}

#[test]
fn plan_against_built_lookup_table() {
    let set = GlyphRasterSet::from_glyphs(vec![RasterizedGlyph {
        glyph_id: 5,
        pixels: vec![0u8; 4],
        left: 3,
        top: 8,
        width: 2,
        rows: 2,
    }])
    .unwrap();
    let map = build_atlas_map(&set);
    let run = vec![shaped(5, 100, 0, 0, 0)];
    let plan = plan_shaped(&run, &map);
    assert!(plan.error.is_none());
    let c = &plan.commands[0];
    assert_eq!((c.index_begin, c.index_end), (0, 6));
    // Bearing (left, -top) scaled by 64 into 26.6 units.
    assert_eq!(c.offset_x, 64 * 3);
    assert_eq!(c.offset_y, 64 * -8);
}
