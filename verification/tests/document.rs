use raptor::document::{
    document_line_advance, glyph_budgets, glyph_pixel_lit, glyph_pixels, line_glyphs,
    DOCUMENT_HEADING_GLYPHS, DOCUMENT_MAX_GLYPHS, DOCUMENT_PARAGRAPH_GLYPHS,
};

/// Column 0 of a glyph is the left of the letter, which only holds while
/// font8x8 packs rows least-significant bit first. 'F' pins the order down: its
/// top bar runs from the left edge and stops short of the right, so bit 0 is
/// set and bit 7 is not.
#[test]
fn font_rows_pack_the_leftmost_pixel_in_the_lowest_bit() {
    let top_bar = glyph_pixels('F')[0];
    assert!(top_bar & 1 != 0, "the top bar must start at bit 0");
    assert!(top_bar & (1 << 7) == 0, "and stop short of bit 7");
    assert!(glyph_pixel_lit(top_bar, 0));
    assert!(!glyph_pixel_lit(top_bar, 7));
}

#[test]
fn characters_past_basic_latin_draw_the_diamond() {
    assert_eq!(
        glyph_pixels('é'),
        [0b00011000, 0b00111100, 0b01111110, 0b11111111, 0b01111110, 0b00111100, 0b00011000, 0]
    );
    assert_eq!(glyph_pixels(' '), [0; 8]);
}

/// Text reads toward screen right for a reader standing on the open side of a
/// paragraph's ink wall: `+X` seen from `+Z`, and `-Z` seen from `+X`.
#[test]
fn text_reads_from_the_side_its_wall_leaves_open() {
    for (along_x, viewer_forward, expected) in [(true, (0, 0, -1), (1, 0, 0)), (false, (-1, 0, 0), (0, 0, -1))] {
        let advance = document_line_advance(along_x);
        assert_eq!(advance, expected);
        // Screen right is forward x up.
        let (fx, fy, fz): (i32, i32, i32) = viewer_forward;
        let right = (fy * 0 - fz * 1, fz * 0 - fx * 0, fx * 1 - fy * 0);
        assert_eq!(right, advance, "reading direction must be screen right for that viewpoint");
    }
}

#[test]
fn glyph_budget_caps_characters_per_line_and_overall() {
    assert_eq!(line_glyphs(true, DOCUMENT_MAX_GLYPHS, 80), DOCUMENT_HEADING_GLYPHS);
    assert_eq!(line_glyphs(false, DOCUMENT_MAX_GLYPHS, 80), DOCUMENT_PARAGRAPH_GLYPHS);
    assert_eq!(line_glyphs(true, 3, 80), 3);
    assert_eq!(line_glyphs(true, 24, 5), 5);
}

#[test]
fn the_document_budget_runs_out_block_by_block() {
    let blocks = vec![(false, 1_000); 20];
    let used = glyph_budgets(&blocks);
    assert_eq!(used.len(), 20);
    assert_eq!(used.iter().sum::<usize>(), DOCUMENT_MAX_GLYPHS);
    assert_eq!(used[0], DOCUMENT_PARAGRAPH_GLYPHS);
    assert_eq!(*used.last().unwrap(), 0);
    assert_eq!(glyph_budgets(&[(true, 5), (false, 0)]), vec![5, 0]);
}
