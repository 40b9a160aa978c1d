//! Document arenas: the bitmap font their text is drawn in, the way a line of
//! text reads, and how the glyph budget is shared out between the blocks.

use vstd::prelude::*;

verus! {

/// Most characters a heading line draws.
pub const DOCUMENT_HEADING_GLYPHS: usize = 24;

/// Most characters a paragraph line draws.
pub const DOCUMENT_PARAGRAPH_GLYPHS: usize = 40;

/// Most characters a whole document draws.
pub const DOCUMENT_MAX_GLYPHS: usize = 600;

/// The 8x8 bitmap the legacy basic-latin font table holds for code point
/// `code`: one byte per row from the top, the leftmost pixel in the lowest bit.
pub uninterp spec fn basic_legacy_glyph(code: u8) -> Seq<u8>;

/// Looks up code point `code` (below 128) in `font8x8::legacy::BASIC_LEGACY`.
/// Trusted: the result is the table's entry for `code`, named
/// [`basic_legacy_glyph`]; nothing is claimed about the bitmaps themselves.
#[verifier::external_body]
fn legacy_glyph(code: u8) -> (rows: [u8; 8])
    requires
        code < 128,
    ensures
        rows@ == basic_legacy_glyph(code),
{
    font8x8::legacy::BASIC_LEGACY[code as usize]
}

/// The diamond drawn for a character the font does not cover.
pub open spec fn placeholder_glyph() -> Seq<u8> {
    seq![0b00011000u8, 0b00111100u8, 0b01111110u8, 0b11111111u8, 0b01111110u8, 0b00111100u8, 0b00011000u8, 0b00000000u8]
}

/// The bitmap of `character`: the font's own for basic latin, a diamond
/// placeholder for everything else.
pub fn glyph_pixels(character: char) -> (rows: [u8; 8])
    ensures
        (character as u32) < 128 ==> rows@ == basic_legacy_glyph(character as u8),
        (character as u32) >= 128 ==> rows@ == placeholder_glyph(),
{
    let code = character as u32;
    if code < 128 {
        legacy_glyph(code as u8)
    } else {
        // Unsupported glyphs keep a diamond placeholder; the folio panel shows
        // the original Unicode.
        let rows = [
            0b00011000, 0b00111100, 0b01111110, 0b11111111, 0b01111110, 0b00111100, 0b00011000,
            0b00000000,
        ];
        assert(rows@ =~= placeholder_glyph());
        rows
    }
}

/// True when column `col` (0 is the leftmost) of a glyph row is lit.
pub fn glyph_pixel_lit(row_bits: u8, col: u32) -> (lit: bool)
    requires
        col < 8,
    ensures
        lit == ((row_bits >> col) & 1u8 == 1u8),
{
    let lit = row_bits & (1u8 << col) != 0;
    assert(((row_bits & (1u8 << col)) != 0u8) == ((row_bits >> col) & 1u8 == 1u8)) by (bit_vector)
        requires col < 8u32;
    lit
}

/// Direction a block's text reads in, which is also the axis its glyph columns
/// run along, as a unit step on the ground grid `(x, y, z)`.
///
/// A paragraph walls off one side of its spine cells, so the reader always
/// arrives from the other side: `+Z` for a row laid along X, `+X` for one laid
/// along Z. Screen right for those two viewpoints is `+X` and `-Z`, and text has
/// to read toward screen right.
pub fn document_line_advance(along_x: bool) -> (advance: (i32, i32, i32))
    ensures
        along_x ==> advance == (1i32, 0i32, 0i32),
        !along_x ==> advance == (0i32, 0i32, -1i32),
{
    if along_x { (1, 0, 0) } else { (0, 0, -1) }
}

/// The cap one line of a block draws: headings and paragraphs differ.
pub open spec fn line_cap(heading: bool) -> int {
    if heading { DOCUMENT_HEADING_GLYPHS as int } else { DOCUMENT_PARAGRAPH_GLYPHS as int }
}

/// How many characters a line draws: its text, cut at its own cap and at what
/// is left of the document's budget.
pub open spec fn spec_line_glyphs(heading: bool, remaining: int, chars: int) -> int {
    let cap = if remaining <= line_cap(heading) { remaining } else { line_cap(heading) };
    if chars <= cap { chars } else { cap }
}

/// How many characters one line draws.
pub fn line_glyphs(heading: bool, remaining: usize, chars: usize) -> (used: usize)
    ensures
        used == spec_line_glyphs(heading, remaining as int, chars as int),
        used <= remaining,
{
    let cap = if heading { DOCUMENT_HEADING_GLYPHS } else { DOCUMENT_PARAGRAPH_GLYPHS };
    let max_chars = if remaining <= cap { remaining } else { cap };
    if chars <= max_chars { chars } else { max_chars }
}

/// The characters each block draws, in order, for blocks given as (heading?,
/// characters in its preview), sharing `budget` between them: each line takes
/// what it can, and once the budget is spent the rest draw nothing.
pub open spec fn spec_glyph_budgets(blocks: Seq<(bool, usize)>, budget: int) -> Seq<int>
    decreases blocks.len(),
{
    if blocks.len() == 0 {
        Seq::empty()
    } else {
        let used = if budget == 0 { 0 } else { spec_line_glyphs(blocks[0].0, budget, blocks[0].1 as int) };
        seq![used].add(spec_glyph_budgets(blocks.drop_first(), budget - used))
    }
}

/// A budget list has one entry per block.
pub proof fn lemma_glyph_budgets_len(blocks: Seq<(bool, usize)>, budget: int)
    ensures
        spec_glyph_budgets(blocks, budget).len() == blocks.len(),
    decreases blocks.len(),
{
    if blocks.len() > 0 {
        let used = if budget == 0 { 0 } else { spec_line_glyphs(blocks[0].0, budget, blocks[0].1 as int) };
        lemma_glyph_budgets_len(blocks.drop_first(), budget - used);
    }
}

/// The sum of a list of counts.
pub open spec fn total(counts: Seq<int>) -> int
    decreases counts.len(),
{
    if counts.len() == 0 {
        0
    } else {
        counts[0] + total(counts.drop_first())
    }
}

/// The glyph budget caps what is drawn per line and overall: no block draws
/// more than its line cap or its own characters, and all blocks together draw
/// no more than the budget.
pub proof fn law_glyph_budget_caps(blocks: Seq<(bool, usize)>, budget: int)
    requires
        budget >= 0,
    ensures
        total(spec_glyph_budgets(blocks, budget)) <= budget,
        forall|i: int|
            0 <= i < blocks.len() ==> 0 <= #[trigger] spec_glyph_budgets(blocks, budget)[i] <= line_cap(blocks[i].0)
                && spec_glyph_budgets(blocks, budget)[i] <= blocks[i].1,
    decreases blocks.len(),
{
    lemma_glyph_budgets_len(blocks, budget);
    if blocks.len() > 0 {
        let used = if budget == 0 { 0 } else { spec_line_glyphs(blocks[0].0, budget, blocks[0].1 as int) };
        let rest = spec_glyph_budgets(blocks.drop_first(), budget - used);
        law_glyph_budget_caps(blocks.drop_first(), budget - used);
        let all = spec_glyph_budgets(blocks, budget);
        assert(all.drop_first() =~= rest);
        assert forall|i: int| 0 <= i < blocks.len() implies 0 <= #[trigger] all[i] <= line_cap(blocks[i].0)
            && all[i] <= blocks[i].1 by {
            if i > 0 {
                assert(all[i] == rest[i - 1]);
                assert(blocks[i] == blocks.drop_first()[i - 1]);
            }
        }
    }
}

/// The budget is charged only what is drawn: each block draws as many of its
/// characters as its line cap allows and as the budget still holds after the
/// glyphs the blocks before it actually drew. So when every block fits its
/// cap and all of them fit the budget together, every block draws all of
/// its characters.
pub proof fn law_glyph_budget_charges_only_what_is_drawn(blocks: Seq<(bool, usize)>, budget: int)
    requires
        budget >= 0,
    ensures
        spec_glyph_budgets(blocks, budget).len() == blocks.len(),
        forall|i: int|
            0 <= i < blocks.len() ==> {
                let drawn = #[trigger] spec_glyph_budgets(blocks, budget)[i];
                let left = budget - total(spec_glyph_budgets(blocks, budget).subrange(0, i));
                let chars = blocks[i].1 as int;
                let cap = line_cap(blocks[i].0);
                &&& drawn <= chars && drawn <= cap && drawn <= left
                &&& (drawn == chars || drawn == cap || drawn == left)
            },
    decreases blocks.len(),
{
    lemma_glyph_budgets_len(blocks, budget);
    if blocks.len() > 0 {
        let used = if budget == 0 { 0 } else { spec_line_glyphs(blocks[0].0, budget, blocks[0].1 as int) };
        let rest = spec_glyph_budgets(blocks.drop_first(), budget - used);
        law_glyph_budget_charges_only_what_is_drawn(blocks.drop_first(), budget - used);
        let all = spec_glyph_budgets(blocks, budget);
        assert(all.drop_first() =~= rest);
        assert(all.subrange(0, 0) =~= Seq::<int>::empty());
        assert forall|i: int| 0 <= i < blocks.len() implies {
            let drawn = #[trigger] all[i];
            let left = budget - total(all.subrange(0, i));
            let chars = blocks[i].1 as int;
            let cap = line_cap(blocks[i].0);
            &&& drawn <= chars && drawn <= cap && drawn <= left
            &&& (drawn == chars || drawn == cap || drawn == left)
        } by {
            if i > 0 {
                assert(all[i] == rest[i - 1]);
                assert(blocks[i] == blocks.drop_first()[i - 1]);
                let pre = all.subrange(0, i);
                assert(pre[0] == used);
                assert(pre.drop_first() =~= rest.subrange(0, i - 1));
                assert(total(pre) == used + total(rest.subrange(0, i - 1)));
            }
        }
    }
}

/// Shares the document's glyph budget out between its blocks, in order.
pub fn glyph_budgets(blocks: &[(bool, usize)]) -> (used: Vec<usize>)
    ensures
        used@.len() == blocks@.len(),
        forall|i: int| 0 <= i < used@.len() ==> used@[i] as int == #[trigger] spec_glyph_budgets(blocks@, DOCUMENT_MAX_GLYPHS as int)[i],
{
    let ghost all = spec_glyph_budgets(blocks@, DOCUMENT_MAX_GLYPHS as int);
    proof {
        lemma_glyph_budgets_len(blocks@, DOCUMENT_MAX_GLYPHS as int);
        assert(blocks@.subrange(0, blocks@.len() as int) =~= blocks@);
        assert(all.subrange(0, all.len() as int) =~= all);
    }
    let mut used: Vec<usize> = Vec::new();
    let mut remaining: usize = DOCUMENT_MAX_GLYPHS;
    let mut i: usize = 0;
    while i < blocks.len()
        invariant
            i <= blocks@.len(),
            used@.len() == i,
            all == spec_glyph_budgets(blocks@, DOCUMENT_MAX_GLYPHS as int),
            all.len() == blocks@.len(),
            all.subrange(i as int, all.len() as int) == spec_glyph_budgets(blocks@.subrange(i as int, blocks@.len() as int), remaining as int),
            forall|j: int| 0 <= j < i ==> used@[j] as int == #[trigger] all[j],
        decreases blocks@.len() - i,
    {
        let ghost rest = blocks@.subrange(i as int, blocks@.len() as int);
        let (heading, chars) = blocks[i];
        let taken = if remaining == 0 { 0 } else { line_glyphs(heading, remaining, chars) };
        proof {
            assert(rest[0] == blocks@[i as int]);
            assert(rest.drop_first() =~= blocks@.subrange(i + 1, blocks@.len() as int));
            let tail = all.subrange(i as int, all.len() as int);
            assert(tail[0] == all[i as int]);
            assert(tail == seq![taken as int].add(spec_glyph_budgets(rest.drop_first(), remaining - taken)));
            assert(all.subrange(i + 1, all.len() as int) =~= tail.drop_first());
            assert(tail.drop_first() =~= spec_glyph_budgets(rest.drop_first(), remaining - taken));
        }
        used.push(taken);
        remaining = remaining - taken;
        i += 1;
    }
    used
}

} // verus!
