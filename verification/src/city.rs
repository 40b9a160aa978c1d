//! The directory city on the grid: where towers stand, which road cells carry
//! markings toward their neighbours, and where a path turns.

use vstd::prelude::*;

verus! {

/// Cells between two towers along each axis.
pub const LIGHTCYCLE_TOWER_STRIDE: i32 = 4;

/// The grid cell a directory entry's tower stands on: its layout position
/// spread out by the tower stride.
pub fn tower_position(grid_pos: (i32, i32)) -> (cell: (i32, i32))
    requires
        i32::MIN <= grid_pos.0 * LIGHTCYCLE_TOWER_STRIDE <= i32::MAX,
        i32::MIN <= grid_pos.1 * LIGHTCYCLE_TOWER_STRIDE <= i32::MAX,
    ensures
        cell.0 == grid_pos.0 * LIGHTCYCLE_TOWER_STRIDE,
        cell.1 == grid_pos.1 * LIGHTCYCLE_TOWER_STRIDE,
{
    (grid_pos.0 * LIGHTCYCLE_TOWER_STRIDE, grid_pos.1 * LIGHTCYCLE_TOWER_STRIDE)
}

/// True when the path `a -> b -> c` turns at `b`: the step in and the step out
/// are perpendicular.
pub open spec fn spec_is_path_turn(a: (int, int), b: (int, int), c: (int, int)) -> bool {
    (b.0 - a.0) * (c.0 - b.0) + (b.1 - a.1) * (c.1 - b.1) == 0
}

/// True when the path `a -> b -> c` turns at `b`. The cells are neighbours on
/// a trail, so every coordinate difference is small.
pub fn is_path_turn(a: (i32, i32), b: (i32, i32), c: (i32, i32)) -> (turn: bool)
    requires
        -0x4000 <= b.0 - a.0 <= 0x4000,
        -0x4000 <= b.1 - a.1 <= 0x4000,
        -0x4000 <= c.0 - b.0 <= 0x4000,
        -0x4000 <= c.1 - b.1 <= 0x4000,
    ensures
        turn == spec_is_path_turn((a.0 as int, a.1 as int), (b.0 as int, b.1 as int), (c.0 as int, c.1 as int)),
{
    let incoming = (b.0 - a.0, b.1 - a.1);
    let outgoing = (c.0 - b.0, c.1 - b.1);
    assert(-0x1000_0000 <= incoming.0 * outgoing.0 <= 0x1000_0000) by (nonlinear_arith)
        requires -0x4000 <= incoming.0 <= 0x4000, -0x4000 <= outgoing.0 <= 0x4000;
    assert(-0x1000_0000 <= incoming.1 * outgoing.1 <= 0x1000_0000) by (nonlinear_arith)
        requires -0x4000 <= incoming.1 <= 0x4000, -0x4000 <= outgoing.1 <= 0x4000;
    incoming.0 * outgoing.0 + incoming.1 * outgoing.1 == 0
}

/// Grid order: by X, then by Z, as an ordered set of cells holds them.
pub open spec fn cell_before(a: (i32, i32), b: (i32, i32)) -> bool {
    a.0 < b.0 || (a.0 == b.0 && a.1 < b.1)
}

/// True when `cells` is in strictly increasing grid order.
pub open spec fn cells_sorted(cells: Seq<(i32, i32)>) -> bool {
    forall|i: int, j: int| 0 <= i < j < cells.len() ==> cell_before(#[trigger] cells[i], #[trigger] cells[j])
}

/// True when `cell` is one of the sorted `cells`, by binary search.
pub fn contains_cell(cells: &[(i32, i32)], cell: (i32, i32)) -> (found: bool)
    requires
        cells_sorted(cells@),
    ensures
        found == cells@.contains(cell),
{
    let mut lo: usize = 0;
    let mut hi: usize = cells.len();
    while lo < hi
        invariant
            0 <= lo <= hi <= cells@.len(),
            cells_sorted(cells@),
            forall|i: int| 0 <= i < lo ==> cell_before(#[trigger] cells@[i], cell),
            forall|i: int| hi <= i < cells@.len() ==> cell_before(cell, #[trigger] cells@[i]),
        decreases hi - lo,
    {
        let mid = lo + (hi - lo) / 2;
        let probe = cells[mid];
        if probe.0 == cell.0 && probe.1 == cell.1 {
            assert(cells@[mid as int] == cell);
            return true;
        } else if probe.0 < cell.0 || (probe.0 == cell.0 && probe.1 < cell.1) {
            lo = mid + 1;
        } else {
            hi = mid;
        }
    }
    proof {
        if cells@.contains(cell) {
            let k = choose|k: int| 0 <= k < cells@.len() && cells@[k] == cell;
        }
    }
    false
}

/// Distance of `cell` from `center` in whole steps along the grid.
pub open spec fn manhattan(cell: (i32, i32), center: (i32, i32)) -> int {
    let dx = cell.0 - center.0;
    let dz = cell.1 - center.1;
    (if dx < 0 { -dx } else { dx }) + (if dz < 0 { -dz } else { dz })
}

/// The order in which road cells earn a marking when a district has too many:
/// nearer the middle first, and by grid order between cells equally far.
pub open spec fn marked_before(a: (i32, i32), b: (i32, i32), center: (i32, i32)) -> bool {
    manhattan(a, center) < manhattan(b, center) || (manhattan(a, center) == manhattan(b, center) && cell_before(a, b))
}

/// True when `marked` is what a district of `roads` marks under a ceiling of
/// `limit` cells: every road when they fit under it, in their own order;
/// otherwise the `limit` cells nearest `center`, nearest first.
pub open spec fn marks_nearest(roads: Seq<(i32, i32)>, center: (i32, i32), limit: int, marked: Seq<(i32, i32)>) -> bool {
    if roads.len() <= limit {
        marked == roads
    } else {
        &&& marked.len() == limit
        &&& forall|i: int, j: int| 0 <= i < j < marked.len() ==> marked_before(#[trigger] marked[i], #[trigger] marked[j], center)
        &&& forall|i: int| 0 <= i < marked.len() ==> roads.contains(#[trigger] marked[i])
        &&& forall|k: int|
            0 <= k < roads.len() ==> marked.contains(#[trigger] roads[k]) || forall|i: int|
                0 <= i < marked.len() ==> marked_before(#[trigger] marked[i], roads[k], center)
    }
}

/// `marked_before` is a strict order.
proof fn lemma_marked_before_transitive(a: (i32, i32), b: (i32, i32), c: (i32, i32), center: (i32, i32))
    requires
        marked_before(a, b, center),
        marked_before(b, c, center),
    ensures
        marked_before(a, c, center),
        !marked_before(b, a, center),
{
}

/// A sorted list of cells holds each cell once.
proof fn lemma_sorted_cells_distinct(cells: Seq<(i32, i32)>)
    requires
        cells_sorted(cells),
    ensures
        cells.no_duplicates(),
{
    assert forall|i: int, j: int| 0 <= i < cells.len() && 0 <= j < cells.len() && i != j implies cells[i] != cells[j] by {
        if i < j {
            assert(cell_before(cells[i], cells[j]));
        } else {
            assert(cell_before(cells[j], cells[i]));
        }
    }
}

/// Fewer picks than distinct roads leave some road unpicked.
proof fn lemma_some_road_unpicked(roads: Seq<(i32, i32)>, picked: Seq<(i32, i32)>)
    requires
        roads.no_duplicates(),
        picked.len() < roads.len(),
    ensures
        exists|k: int| 0 <= k < roads.len() && !picked.contains(#[trigger] roads[k]),
{
    if forall|k: int| 0 <= k < roads.len() ==> picked.contains(#[trigger] roads[k]) {
        roads.unique_seq_to_set();
        picked.lemma_cardinality_of_set();
        assert(roads.to_set().subset_of(picked.to_set())) by {
            assert forall|c: (i32, i32)| roads.to_set().contains(c) implies picked.to_set().contains(c) by {
                let k = choose|k: int| 0 <= k < roads.len() && roads[k] == c;
                assert(picked.contains(roads[k]));
            }
        }
        vstd::seq_lib::seq_to_set_is_finite(picked);
        vstd::set_lib::lemma_len_subset(roads.to_set(), picked.to_set());
    }
}

/// Whether `a` earns a marking before `b`.
fn marks_before(a: (i32, i32), b: (i32, i32), center: (i32, i32)) -> (before: bool)
    ensures
        before == marked_before(a, b, center),
{
    let adx = if (a.0 as i64) < (center.0 as i64) { center.0 as i64 - a.0 as i64 } else { a.0 as i64 - center.0 as i64 };
    let adz = if (a.1 as i64) < (center.1 as i64) { center.1 as i64 - a.1 as i64 } else { a.1 as i64 - center.1 as i64 };
    let bdx = if (b.0 as i64) < (center.0 as i64) { center.0 as i64 - b.0 as i64 } else { b.0 as i64 - center.0 as i64 };
    let bdz = if (b.1 as i64) < (center.1 as i64) { center.1 as i64 - b.1 as i64 } else { b.1 as i64 - center.1 as i64 };
    let da = adx + adz;
    let db = bdx + bdz;
    da < db || (da == db && (a.0 < b.0 || (a.0 == b.0 && a.1 < b.1)))
}

/// The road cells a district marks: every road, unless there are more than
/// `limit`, in which case the `limit` cells nearest `center` are kept, nearest
/// first (grid order breaks ties). Distances are counted as `i32`, so each
/// must fit in one.
pub fn marked_road_cells(roads: &[(i32, i32)], center: (i32, i32), limit: usize) -> (marked: Vec<(i32, i32)>)
    requires
        cells_sorted(roads@),
        roads@.len() > limit ==> forall|k: int| 0 <= k < roads@.len() ==> manhattan(#[trigger] roads@[k], center) <= i32::MAX,
    ensures
        marks_nearest(roads@, center, limit as int, marked@),
{
    let n = roads.len();
    let mut marked: Vec<(i32, i32)> = Vec::new();
    if n <= limit {
        let mut i: usize = 0;
        while i < n
            invariant
                n == roads@.len(),
                i <= n,
                marked@ == roads@.subrange(0, i as int),
            decreases n - i,
        {
            marked.push(roads[i]);
            i = i + 1;
            assert(marked@ =~= roads@.subrange(0, i as int));
        }
        assert(roads@.subrange(0, n as int) =~= roads@);
        return marked;
    }
    proof {
        lemma_sorted_cells_distinct(roads@);
    }
    while marked.len() < limit
        invariant
            n == roads@.len(),
            limit < n,
            marked@.len() <= limit,
            roads@.no_duplicates(),
            forall|i: int, j: int| 0 <= i < j < marked@.len() ==> marked_before(#[trigger] marked@[i], #[trigger] marked@[j], center),
            forall|i: int| 0 <= i < marked@.len() ==> roads@.contains(#[trigger] marked@[i]),
            forall|k: int|
                0 <= k < n ==> (marked@.contains(#[trigger] roads@[k]) <==> (marked@.len() > 0 && !marked_before(
                    marked@.last(),
                    roads@[k],
                    center,
                ))),
        decreases limit - marked@.len(),
    {
        let count = marked.len();
        let has_last = count > 0;
        let last = if has_last { marked[count - 1] } else { (0, 0) };
        proof {
            lemma_some_road_unpicked(roads@, marked@);
        }
        let mut best: usize = n;
        let mut j: usize = 0;
        while j < n
            invariant
                n == roads@.len(),
                j <= n,
                count == marked@.len(),
                has_last == (count > 0),
                has_last ==> last == marked@.last(),
                best == n || best < j,
                best < n ==> !marked@.contains(roads@[best as int]),
                forall|k: int|
                    0 <= k < j && !marked@.contains(#[trigger] roads@[k]) ==> best < n && (roads@[k] == roads@[best as int]
                        || marked_before(roads@[best as int], roads@[k], center)),
                roads@.no_duplicates(),
                forall|k: int|
                    0 <= k < n ==> (marked@.contains(#[trigger] roads@[k]) <==> (marked@.len() > 0 && !marked_before(
                        marked@.last(),
                        roads@[k],
                        center,
                    ))),
            decreases n - j,
        {
            let candidate = roads[j];
            let eligible = !has_last || marks_before(last, candidate, center);
            if eligible && (best == n || marks_before(candidate, roads[best], center)) {
                best = j;
            }
            j = j + 1;
        }
        let ghost witness = choose|k: int| 0 <= k < n && !marked@.contains(#[trigger] roads@[k]);
        assert(best < n);
        let pick = roads[best];
        let ghost before_push = marked@;
        marked.push(pick);
        proof {
            assert(marked@.last() == pick);
            assert forall|i: int, j2: int| 0 <= i < j2 < marked@.len() implies marked_before(#[trigger] marked@[i], #[trigger] marked@[j2], center) by {
                if j2 == marked@.len() - 1 && i < before_push.len() {
                    assert(before_push.contains(before_push[i]));
                    assert(roads@.contains(before_push[i]));
                    let k = choose|k: int| 0 <= k < n && roads@[k] == before_push[i];
                    assert(marked@[i] == before_push[i]);
                    if before_push.len() > 0 && i < before_push.len() - 1 {
                        assert(marked_before(before_push[i], before_push.last(), center));
                        lemma_marked_before_transitive(before_push[i], before_push.last(), pick, center);
                    }
                }
            }
            assert forall|i: int| 0 <= i < marked@.len() implies roads@.contains(#[trigger] marked@[i]) by {
                if i == marked@.len() - 1 {
                    assert(roads@[best as int] == pick);
                } else {
                    assert(marked@[i] == before_push[i]);
                }
            }
            assert forall|k: int| 0 <= k < n implies (marked@.contains(#[trigger] roads@[k]) <==> (marked@.len() > 0
                && !marked_before(marked@.last(), roads@[k], center))) by {
                let r = roads@[k];
                if before_push.contains(r) {
                    let i = choose|i: int| 0 <= i < before_push.len() && before_push[i] == r;
                    assert(marked@[i] == r);
                    if marked_before(pick, r, center) {
                        if i < before_push.len() - 1 {
                            assert(marked_before(before_push[i], before_push.last(), center));
                            lemma_marked_before_transitive(pick, r, before_push.last(), center);
                        }
                    }
                } else if r == pick {
                    assert(marked@[marked@.len() - 1] == r);
                } else {
                    assert(marked_before(pick, r, center));
                    if marked@.contains(r) {
                        let i = choose|i: int| 0 <= i < marked@.len() && marked@[i] == r;
                        assert(before_push[i] == r);
                    }
                }
            }
        }
    }
    proof {
        assert forall|k: int| 0 <= k < n implies marked@.contains(#[trigger] roads@[k]) || forall|i: int|
            0 <= i < marked@.len() ==> marked_before(#[trigger] marked@[i], roads@[k], center) by {
            if !marked@.contains(roads@[k]) && marked@.len() > 0 {
                assert forall|i: int| 0 <= i < marked@.len() implies marked_before(#[trigger] marked@[i], roads@[k], center) by {
                    if i < marked@.len() - 1 {
                        lemma_marked_before_transitive(marked@[i], marked@.last(), roads@[k], center);
                    }
                }
            }
        }
    }
    marked
}

/// One flat piece of ground marking a road cell contributes.
#[derive(Debug, Clone, Copy, PartialEq, Eq)]
pub enum MarkingPiece {
    /// The junction pad on the cell itself.
    Pad { cell: (i32, i32) },
    /// A lane from the cell to its +X neighbour.
    LaneX { cell: (i32, i32) },
    /// A lane from the cell to its +Z neighbour.
    LaneZ { cell: (i32, i32) },
}

/// The pieces a road cell contributes, in order: its junction pad, then a lane
/// out to each marked neighbour, +X before +Z.
pub open spec fn spec_marking_pieces(cell: (i32, i32), roads: Seq<(i32, i32)>) -> Seq<MarkingPiece> {
    let pad = seq![MarkingPiece::Pad { cell }];
    let with_x = if roads.contains(((cell.0 + 1) as i32, cell.1)) { pad.push(MarkingPiece::LaneX { cell }) } else { pad };
    if roads.contains((cell.0, (cell.1 + 1) as i32)) { with_x.push(MarkingPiece::LaneZ { cell }) } else { with_x }
}

/// Appends the pieces one road cell contributes. Takes the buffer rather than
/// returning one, because a big district asks this for every road cell at once.
pub fn push_marking_pieces(cell: (i32, i32), roads: &[(i32, i32)], pieces: &mut Vec<MarkingPiece>)
    requires
        cells_sorted(roads@),
        cell.0 < i32::MAX,
        cell.1 < i32::MAX,
    ensures
        final(pieces)@ == old(pieces)@ + spec_marking_pieces(cell, roads@),
{
    let ghost start = pieces@;
    pieces.push(MarkingPiece::Pad { cell });
    if contains_cell(roads, (cell.0 + 1, cell.1)) {
        pieces.push(MarkingPiece::LaneX { cell });
    }
    if contains_cell(roads, (cell.0, cell.1 + 1)) {
        pieces.push(MarkingPiece::LaneZ { cell });
    }
    assert(pieces@ =~= start + spec_marking_pieces(cell, roads@));
}

/// Every road cell keeps its junction pad, and contributes at most three pieces.
pub proof fn law_every_road_cell_has_a_pad(cell: (i32, i32), roads: Seq<(i32, i32)>)
    ensures
        spec_marking_pieces(cell, roads)[0] == (MarkingPiece::Pad { cell }),
        1 <= spec_marking_pieces(cell, roads).len() <= 3,
{
}

} // verus!
