use glyph_atlas::fixed::{i26dot6_to_ppem, ppem_to_i26dot6};

#[test]
fn ppem_of_twelve_points() {
    // 12pt = 768 units of 26.6; 768 * 300 / 72 = 3200.
    assert_eq!(i26dot6_to_ppem(768, 300), 3200);
}

#[test]
fn ppem_identity_at_72_dpi() {
    assert_eq!(i26dot6_to_ppem(100, 72), 100);
    assert_eq!(ppem_to_i26dot6(100, 72), 100);
}

#[test]
fn ppem_round_trip_twelve_points() {
    let size26: i32 = 768;
    let ppem = i26dot6_to_ppem(size26, 300);
    assert_eq!(ppem_to_i26dot6(ppem, 300), size26);
}

#[test]
fn ppem_truncates() {
    // 100 * 300 / 72 = 416.66... truncated to 416.
    assert_eq!(i26dot6_to_ppem(100, 300), 416);
}
