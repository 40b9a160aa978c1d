use raptor::city::{
    contains_cell, is_path_turn, marked_road_cells, push_marking_pieces, tower_position, MarkingPiece,
};
use std::collections::BTreeSet;

fn pieces(cell: (i32, i32), roads: &BTreeSet<(i32, i32)>) -> Vec<MarkingPiece> {
    let sorted: Vec<(i32, i32)> = roads.iter().copied().collect();
    let mut out = Vec::new();
    push_marking_pieces(cell, &sorted, &mut out);
    out
}

#[test]
fn road_markings_join_neighboring_cells() {
    let isolated = BTreeSet::from([(0, 0)]);
    let one_way = BTreeSet::from([(0, 0), (1, 0)]);
    let both_ways = BTreeSet::from([(0, 0), (1, 0), (0, 1)]);
    // A junction pad, plus a lane out to each marked neighbour.
    assert_eq!(pieces((0, 0), &isolated).len(), 1);
    assert_eq!(pieces((0, 0), &one_way).len(), 2);
    assert_eq!(pieces((0, 0), &both_ways).len(), 3);
    assert_eq!(
        pieces((0, 0), &both_ways),
        vec![
            MarkingPiece::Pad { cell: (0, 0) },
            MarkingPiece::LaneX { cell: (0, 0) },
            MarkingPiece::LaneZ { cell: (0, 0) },
        ]
    );
}

/// No cell may be dropped for being far from the middle.
#[test]
fn lane_markings_cover_a_whole_district() {
    for span in [8_i32, 40, 160] {
        let mut roads = BTreeSet::new();
        for x in 0..span {
            for z in 0..span {
                if x % 4 == 0 || z % 4 == 0 {
                    roads.insert((x, z));
                }
            }
        }
        let sorted: Vec<(i32, i32)> = roads.iter().copied().collect();
        let mut out = Vec::new();
        for cell in &roads {
            push_marking_pieces(*cell, &sorted, &mut out);
        }
        let pads = out.iter().filter(|piece| matches!(piece, MarkingPiece::Pad { .. })).count();
        assert_eq!(pads, roads.len(), "every road cell keeps its junction pad");
        assert!(out.len() >= roads.len());
    }
}

#[test]
fn binary_search_finds_exactly_the_members() {
    let cells = vec![(-3, 5), (0, 0), (0, 2), (4, -1)];
    for cell in &cells {
        assert!(contains_cell(&cells, *cell));
    }
    assert!(!contains_cell(&cells, (0, 1)));
    assert!(!contains_cell(&cells, (5, 0)));
    assert!(!contains_cell(&[], (0, 0)));
}

#[test]
fn towers_stand_a_stride_apart_and_paths_turn_at_right_angles() {
    assert_eq!(tower_position((2, -3)), (8, -12));
    assert!(is_path_turn((0, 0), (1, 0), (1, 1)));
    assert!(!is_path_turn((0, 0), (1, 0), (2, 0)));
}

#[test]
fn a_district_under_the_ceiling_marks_every_road() {
    let roads = [(0, 0), (0, 1), (3, 2)];
    assert_eq!(marked_road_cells(&roads, (0, 0), 3), roads.to_vec());
    assert_eq!(marked_road_cells(&roads, (9, 9), 10), roads.to_vec());
}

#[test]
fn past_the_ceiling_the_cells_nearest_the_middle_are_kept() {
    let roads = [(-2, 0), (-1, 0), (0, -1), (0, 0), (0, 1), (1, 0), (5, 5)];
    assert_eq!(
        marked_road_cells(&roads, (0, 0), 4),
        vec![(0, 0), (-1, 0), (0, -1), (0, 1)]
    );
    assert_eq!(marked_road_cells(&roads, (5, 5), 1), vec![(5, 5)]);
    assert!(marked_road_cells(&roads, (0, 0), 0).is_empty());
}
