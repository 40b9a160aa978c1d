//! Tetris on a small board: falling indentation blocks cleared in lines.
//!
//! The board is [`TETRIS_COLS`] wide and [`TETRIS_ROWS`] tall, stored row-major
//! with row 0 at the top. Seven tetrominoes fall, rotate, and lock; a full line
//! clears and everything above drops. Clearing [`TETRIS_TARGET_LINES`] lines
//! wins; a piece that cannot spawn loses.
//!
//! Time is counted in whole microseconds, so the fall clock is exact.

use crate::minigame::{GameSound, GameTick};
use crate::rng::{Rng, pick_index, lcg_next, draw_of, scaled_index};
use crate::text::{decimal, push_decimal};
use vstd::prelude::*;

verus! {

/// Width of the board, in cells.
pub const TETRIS_COLS: usize = 10;

/// Height of the board, in cells.
pub const TETRIS_ROWS: usize = 20;

/// Number of cells on the board.
pub const TETRIS_CELLS: usize = 200;

/// Lines to clear to win.
pub const TETRIS_TARGET_LINES: u32 = 10;

/// Time between two gravity steps, in microseconds.
pub const TETRIS_FALL_MICROS: i64 = 500_000;

/// Time between two gravity steps while soft drop is held: a fifth of the normal one.
pub const TETRIS_SOFT_FALL_MICROS: i64 = 100_000;

/// Number of distinct tetrominoes.
pub const TETROMINO_COUNT: usize = 7;

/// Column every piece spawns in: one left of the middle.
pub const TETRIS_SPAWN_X: i32 = 4;

/// Offset `k` of tetromino `piece`, as (column, row-up) from the piece origin:
/// O, I, L, J, S, Z, T in that order.
pub open spec fn tetromino_cell(piece: int, k: int) -> (int, int) {
    let cells: Seq<(int, int)> = if piece == 0 {
        seq![(0, 0), (1, 0), (0, 1), (1, 1)]
    } else if piece == 1 {
        seq![(0, 0), (0, 1), (0, 2), (0, 3)]
    } else if piece == 2 {
        seq![(0, 0), (0, 1), (0, 2), (1, 2)]
    } else if piece == 3 {
        seq![(1, 0), (1, 1), (1, 2), (0, 2)]
    } else if piece == 4 {
        seq![(0, 0), (1, 0), (1, 1), (2, 1)]
    } else if piece == 5 {
        seq![(1, 0), (2, 0), (0, 1), (1, 1)]
    } else {
        seq![(0, 0), (1, 0), (2, 0), (1, 1)]
    };
    cells[k]
}

/// The offsets of tetromino `piece`.
pub fn tetromino(piece: usize) -> (cells: [(i32, i32); 4])
    requires
        piece < TETROMINO_COUNT,
    ensures
        forall|k: int| 0 <= k < 4 ==> (cells@[k].0 as int, cells@[k].1 as int) == #[trigger] tetromino_cell(piece as int, k),
{
    let cells = if piece == 0 {
        [(0, 0), (1, 0), (0, 1), (1, 1)]
    } else if piece == 1 {
        [(0, 0), (0, 1), (0, 2), (0, 3)]
    } else if piece == 2 {
        [(0, 0), (0, 1), (0, 2), (1, 2)]
    } else if piece == 3 {
        [(1, 0), (1, 1), (1, 2), (0, 2)]
    } else if piece == 4 {
        [(0, 0), (1, 0), (1, 1), (2, 1)]
    } else if piece == 5 {
        [(1, 0), (2, 0), (0, 1), (1, 1)]
    } else {
        [(0, 0), (1, 0), (2, 0), (1, 1)]
    };
    assert forall|k: int| 0 <= k < 4 implies (cells@[k].0 as int, cells@[k].1 as int) == #[trigger] tetromino_cell(piece as int, k) by {
        assert(cells@ =~= cells@);
    }
    cells
}

/// An offset turned `rotation` quarter turns clockwise about the piece origin;
/// one quarter turn maps `(x, y)` to `(-y, x)`.
pub open spec fn rotate_offset(c: (int, int), rotation: int) -> (int, int) {
    let r = rotation % 4;
    if r == 0 {
        c
    } else if r == 1 {
        (-c.1, c.0)
    } else if r == 2 {
        (-c.0, -c.1)
    } else {
        (c.1, -c.0)
    }
}

/// Board cell `k` of a piece placed with its origin at column `x`, row `y`.
/// Offsets point up the board, which is toward row 0.
pub open spec fn piece_cell(piece: int, rotation: int, x: int, y: int, k: int) -> (int, int) {
    let c = rotate_offset(tetromino_cell(piece, k), rotation);
    (x + c.0, y - c.1)
}

/// True when `c` lies on the board.
pub open spec fn on_board(c: (int, int)) -> bool {
    0 <= c.0 < TETRIS_COLS && 0 <= c.1 < TETRIS_ROWS
}

/// Row-major index of board cell `c`.
pub open spec fn cell_index(c: (int, int)) -> int {
    c.0 + c.1 * TETRIS_COLS
}

/// True when every cell of the placed piece is on the board.
pub open spec fn piece_on_board(piece: int, rotation: int, x: int, y: int) -> bool {
    forall|k: int| 0 <= k < 4 ==> on_board(#[trigger] piece_cell(piece, rotation, x, y, k))
}

/// True when the placed piece lies on the board over empty cells only.
pub open spec fn piece_fits(board: Seq<Option<u8>>, piece: int, rotation: int, x: int, y: int) -> bool {
    forall|k: int|
        0 <= k < 4 ==> {
            let c = #[trigger] piece_cell(piece, rotation, x, y, k);
            on_board(c) && board[cell_index(c)] is None
        }
}

/// Row a piece spawns at: one below its highest offset, so every piece can still
/// rotate without poking above the rim.
pub open spec fn spawn_row(piece: int) -> int {
    let a = tetromino_cell(piece, 0).1;
    let b = tetromino_cell(piece, 1).1;
    let c = tetromino_cell(piece, 2).1;
    let d = tetromino_cell(piece, 3).1;
    let ab = if a >= b { a } else { b };
    let cd = if c >= d { c } else { d };
    (if ab >= cd { ab } else { cd }) + 1
}

/// The tetromino a draw of the generator picks.
pub open spec fn piece_for_draw(bits: u32) -> int {
    scaled_index(bits as nat, TETROMINO_COUNT as nat) as int % TETROMINO_COUNT as int
}

/// Phase of a Tetris run.
#[derive(Debug, Clone, Copy, PartialEq, Eq, Structural)]
pub enum TetrisPhase {
    Falling,
    Won,
    Lost,
}

/// The text a phase shows as.
pub open spec fn phase_label(phase: TetrisPhase) -> &'static str {
    match phase {
        TetrisPhase::Falling => "FALLING",
        TetrisPhase::Won => "CLEARED",
        TetrisPhase::Lost => "TOPPED OUT",
    }
}

impl TetrisPhase {
    /// The phase as the status line shows it.
    pub fn label(self) -> (label: &'static str)
        ensures
            label == phase_label(self),
            self == TetrisPhase::Falling ==> label@ == "FALLING"@,
            self == TetrisPhase::Won ==> label@ == "CLEARED"@,
            self == TetrisPhase::Lost ==> label@ == "TOPPED OUT"@,
    {
        match self {
            TetrisPhase::Falling => "FALLING",
            TetrisPhase::Won => "CLEARED",
            TetrisPhase::Lost => "TOPPED OUT",
        }
    }
}

/// What one frame produced, for sound and labels.
#[derive(Debug, Clone, Copy, PartialEq, Eq, Structural)]
pub struct TetrisEvents {
    pub rotated: bool,
    pub locked: bool,
    pub lines: u32,
    pub cleared: bool,
    pub lost: bool,
}

impl TetrisEvents {
    /// A frame in which nothing happened.
    pub open spec fn none() -> TetrisEvents {
        TetrisEvents { rotated: false, locked: false, lines: 0, cleared: false, lost: false }
    }
}

impl Default for TetrisEvents {
    fn default() -> (events: Self)
        ensures
            events == TetrisEvents::none(),
    {
        TetrisEvents { rotated: false, locked: false, lines: 0, cleared: false, lost: false }
    }
}

/// One input frame: edge left/right, edge rotate, held soft drop, edge hard drop.
#[derive(Debug, Clone, Copy, PartialEq, Eq, Structural)]
pub struct TetrisInput {
    pub slide: i32,
    pub rotate: bool,
    pub soft: bool,
    pub drop: bool,
}

impl TetrisInput {
    /// No input at all.
    pub open spec fn idle() -> TetrisInput {
        TetrisInput { slide: 0, rotate: false, soft: false, drop: false }
    }
}

impl Default for TetrisInput {
    fn default() -> (input: Self)
        ensures
            input == TetrisInput::idle(),
    {
        TetrisInput { slide: 0, rotate: false, soft: false, drop: false }
    }
}


/// True when every cell of board row `row` is filled.
pub open spec fn row_full(board: Seq<Option<u8>>, row: int) -> bool {
    forall|col: int| 0 <= col < TETRIS_COLS ==> #[trigger] board[col + row * TETRIS_COLS] is Some
}

/// The rows at or below `from` that are not full, top to bottom.
pub open spec fn kept_rows(board: Seq<Option<u8>>, from: int) -> Seq<int>
    decreases TETRIS_ROWS - from,
{
    if from >= TETRIS_ROWS || from < 0 {
        Seq::empty()
    } else if row_full(board, from) {
        kept_rows(board, from + 1)
    } else {
        seq![from].add(kept_rows(board, from + 1))
    }
}

/// How many full rows the board holds.
pub open spec fn full_row_count(board: Seq<Option<u8>>) -> int {
    TETRIS_ROWS - kept_rows(board, 0).len()
}

/// The board once its full rows are removed: the rows that were not full keep
/// their order and settle at the bottom, and empty rows refill the top.
pub open spec fn cleared_board(board: Seq<Option<u8>>) -> Seq<Option<u8>> {
    let kept = kept_rows(board, 0);
    let empty = TETRIS_ROWS - kept.len();
    Seq::new(
        TETRIS_CELLS as nat,
        |i: int|
            {
                let row = i / TETRIS_COLS as int;
                let col = i % TETRIS_COLS as int;
                if row < empty {
                    None
                } else {
                    board[col + kept[row - empty] * TETRIS_COLS]
                }
            },
    )
}

/// True when one of the cells of the placed piece is on the board at index `i`.
pub open spec fn piece_covers(piece: int, rotation: int, x: int, y: int, i: int) -> bool {
    exists|k: int|
        0 <= k < 4 && on_board(#[trigger] piece_cell(piece, rotation, x, y, k)) && cell_index(
            piece_cell(piece, rotation, x, y, k),
        ) == i
}

/// The board with the placed piece drawn over it in its own colour, wherever
/// its cells are on the board.
pub open spec fn stamped(board: Seq<Option<u8>>, piece: int, rotation: int, x: int, y: int) -> Seq<Option<u8>> {
    Seq::new(
        board.len(),
        |i: int|
            if piece_covers(piece, rotation, x, y, i) {
                Some(piece as u8)
            } else {
                board[i]
            },
    )
}

/// Index `col + row * TETRIS_COLS` names one cell only.
pub proof fn lemma_cell_index_unique(c1: int, r1: int, c2: int, r2: int)
    requires
        0 <= c1 < TETRIS_COLS,
        0 <= c2 < TETRIS_COLS,
        c1 + r1 * TETRIS_COLS == c2 + r2 * TETRIS_COLS,
    ensures
        c1 == c2,
        r1 == r2,
{
}

/// The cell of a row-major index.
pub proof fn lemma_cell_index_split(i: int)
    requires
        0 <= i,
    ensures
        i == i % TETRIS_COLS as int + (i / TETRIS_COLS as int) * TETRIS_COLS,
        0 <= (i % (TETRIS_COLS as int)) < TETRIS_COLS,
{
}

/// True when `row` of the board is full.
fn row_is_full(board: &Vec<Option<u8>>, row: usize) -> (full: bool)
    requires
        board@.len() == TETRIS_CELLS,
        row < TETRIS_ROWS,
    ensures
        full == row_full(board@, row as int),
{
    let mut col: usize = 0;
    while col < TETRIS_COLS
        invariant
            board@.len() == TETRIS_CELLS,
            row < TETRIS_ROWS,
            col <= TETRIS_COLS,
            forall|c: int| 0 <= c < col ==> #[trigger] board@[c + row * TETRIS_COLS] is Some,
        decreases TETRIS_COLS - col,
    {
        if board[col + row * TETRIS_COLS].is_none() {
            return false;
        }
        col += 1;
    }
    true
}

/// Moves rows `0..row` down by one, onto rows `1..=row`, and empties row 0.
/// Rows below `row` keep their contents.
fn shift_rows_down(board: &mut Vec<Option<u8>>, row: usize)
    requires
        old(board)@.len() == TETRIS_CELLS,
        row < TETRIS_ROWS,
    ensures
        final(board)@.len() == TETRIS_CELLS,
        forall|c: int, r: int|
            0 <= c < TETRIS_COLS && 0 <= r < TETRIS_ROWS ==> #[trigger] final(board)@[c + r * TETRIS_COLS] == if r == 0 {
                None
            } else if r <= row {
                old(board)@[c + (r - 1) * TETRIS_COLS]
            } else {
                old(board)@[c + r * TETRIS_COLS]
            },
{
    let ghost start = board@;
    let mut shift = row;
    while shift > 0
        invariant
            board@.len() == TETRIS_CELLS,
            row < TETRIS_ROWS,
            shift <= row,
            start.len() == TETRIS_CELLS,
            forall|c: int, r: int|
                0 <= c < TETRIS_COLS && 0 <= r < TETRIS_ROWS ==> #[trigger] board@[c + r * TETRIS_COLS] == if shift < r <= row {
                    start[c + (r - 1) * TETRIS_COLS]
                } else {
                    start[c + r * TETRIS_COLS]
                },
        decreases shift,
    {
        shift -= 1;
        let ghost before = board@;
        let mut col: usize = 0;
        while col < TETRIS_COLS
            invariant
                board@.len() == TETRIS_CELLS,
                shift < row < TETRIS_ROWS,
                col <= TETRIS_COLS,
                before.len() == TETRIS_CELLS,
                forall|c: int, r: int|
                    0 <= c < TETRIS_COLS && 0 <= r < TETRIS_ROWS ==> #[trigger] board@[c + r * TETRIS_COLS] == if r == shift + 1 && c < col {
                        before[c + shift * TETRIS_COLS]
                    } else {
                        before[c + r * TETRIS_COLS]
                    },
            decreases TETRIS_COLS - col,
        {
            let value = board[col + shift * TETRIS_COLS];
            board.set(col + (shift + 1) * TETRIS_COLS, value);
            proof {
                assert forall|c: int, r: int|
                    0 <= c < TETRIS_COLS && 0 <= r < TETRIS_ROWS implies #[trigger] board@[c + r * TETRIS_COLS] == if r == shift + 1 && c < col + 1 {
                        before[c + shift * TETRIS_COLS]
                    } else {
                        before[c + r * TETRIS_COLS]
                    } by {
                    if c + r * TETRIS_COLS == col + (shift + 1) * TETRIS_COLS {
                        lemma_cell_index_unique(c, r, col as int, shift + 1);
                    }
                }
            }
            col += 1;
        }
    }
    let mut col: usize = 0;
    let ghost shifted = board@;
    while col < TETRIS_COLS
        invariant
            board@.len() == TETRIS_CELLS,
            col <= TETRIS_COLS,
            shifted.len() == TETRIS_CELLS,
            forall|c: int, r: int|
                0 <= c < TETRIS_COLS && 0 <= r < TETRIS_ROWS ==> #[trigger] board@[c + r * TETRIS_COLS] == if r == 0 && c < col {
                    None
                } else {
                    shifted[c + r * TETRIS_COLS]
                },
        decreases TETRIS_COLS - col,
    {
        board.set(col, None);
        proof {
            assert forall|c: int, r: int|
                0 <= c < TETRIS_COLS && 0 <= r < TETRIS_ROWS implies #[trigger] board@[c + r * TETRIS_COLS] == if r == 0 && c < col + 1 {
                    None
                } else {
                    shifted[c + r * TETRIS_COLS]
                } by {
                if c + r * TETRIS_COLS == col {
                    lemma_cell_index_unique(c, r, col as int, 0);
                }
            }
        }
        col += 1;
    }
}


/// The cells of a placed piece, as board coordinates.
fn placed_cells(piece: usize, rotation: usize, x: i64, y: i64) -> (cells: [(i64, i64); 4])
    requires
        piece < TETROMINO_COUNT,
        -0x1_0000_0000 <= x <= 0x1_0000_0000,
        -0x1_0000_0000 <= y <= 0x1_0000_0000,
    ensures
        forall|k: int| 0 <= k < 4 ==> (cells@[k].0 as int, cells@[k].1 as int) == #[trigger] piece_cell(piece as int, rotation as int, x as int, y as int, k),
{
    let offsets = tetromino(piece);
    let turns = rotation % 4;
    let mut cells = [(0i64, 0i64); 4];
    let mut k: usize = 0;
    while k < 4
        invariant
            k <= 4,
            turns == rotation % 4,
            piece < TETROMINO_COUNT,
            -0x1_0000_0000 <= x <= 0x1_0000_0000,
            -0x1_0000_0000 <= y <= 0x1_0000_0000,
            forall|j: int| 0 <= j < 4 ==> (offsets@[j].0 as int, offsets@[j].1 as int) == #[trigger] tetromino_cell(piece as int, j),
            forall|j: int| 0 <= j < k ==> (cells@[j].0 as int, cells@[j].1 as int) == #[trigger] piece_cell(piece as int, rotation as int, x as int, y as int, j),
        decreases 4 - k,
    {
        let (px, py) = offsets[k];
        assert((px as int, py as int) == tetromino_cell(piece as int, k as int));
        assert(-3 <= px <= 3 && -3 <= py <= 3);
        let (rx, ry): (i64, i64) = if turns == 0 {
            (px as i64, py as i64)
        } else if turns == 1 {
            (-(py as i64), px as i64)
        } else if turns == 2 {
            (-(px as i64), -(py as i64))
        } else {
            (py as i64, -(px as i64))
        };
        cells[k] = (x + rx, y - ry);
        k += 1;
    }
    cells
}

/// Every offset of a tetromino lies in `0..=3` on both axes.
pub proof fn lemma_tetromino_cell_range(piece: int, k: int)
    requires
        0 <= piece < TETROMINO_COUNT,
        0 <= k < 4,
    ensures
        0 <= tetromino_cell(piece, k).0 <= 3,
        0 <= tetromino_cell(piece, k).1 <= 3,
{
}

/// A piece on the board has its origin within three cells of the board.
pub proof fn lemma_on_board_origin(piece: int, rotation: int, x: int, y: int)
    requires
        0 <= piece < TETROMINO_COUNT,
        piece_on_board(piece, rotation, x, y),
    ensures
        -3 <= x <= TETRIS_COLS + 2,
        -3 <= y <= TETRIS_ROWS + 2,
{
    lemma_tetromino_cell_range(piece, 0);
    assert(on_board(piece_cell(piece, rotation, x, y, 0)));
}

/// A piece that fits is on the board.
pub proof fn lemma_fits_on_board(board: Seq<Option<u8>>, piece: int, rotation: int, x: int, y: int)
    requires
        piece_fits(board, piece, rotation, x, y),
    ensures
        piece_on_board(piece, rotation, x, y),
{
    assert forall|k: int| 0 <= k < 4 implies on_board(#[trigger] piece_cell(piece, rotation, x, y, k)) by {
        let c = piece_cell(piece, rotation, x, y, k);
    }
}

/// The row a hard drop lands the piece on: it falls while the next row down
/// still fits.
pub open spec fn drop_row(board: Seq<Option<u8>>, piece: int, rotation: int, x: int, y: int) -> int
    decreases TETRIS_ROWS + 4 - y,
{
    if y + 1 >= TETRIS_ROWS + 4 {
        y
    } else if piece_fits(board, piece, rotation, x, y + 1) {
        drop_row(board, piece, rotation, x, y + 1)
    } else {
        y
    }
}

/// The tetromino the next draw of generator state `rng` picks.
pub open spec fn next_spawn_piece(rng: u64) -> int {
    piece_for_draw(draw_of(lcg_next(rng)))
}

/// The run once the next piece is placed at the top, whether or not it fits.
pub open spec fn spawned(v: TetrisView) -> TetrisView {
    let piece = next_spawn_piece(v.rng);
    TetrisView {
        rng: lcg_next(v.rng),
        piece,
        rotation: 0,
        x: TETRIS_SPAWN_X as int,
        y: spawn_row(piece),
        ..v
    }
}

/// True when the next piece fits where it spawns.
pub open spec fn spawn_fits(v: TetrisView) -> bool {
    piece_fits(v.board, next_spawn_piece(v.rng), 0, TETRIS_SPAWN_X as int, spawn_row(next_spawn_piece(v.rng)))
}

/// The run after a spawn: the next piece placed, and the run lost if it does
/// not fit.
pub open spec fn after_spawn(v: TetrisView) -> TetrisView {
    if spawn_fits(v) {
        spawned(v)
    } else {
        TetrisView { phase: TetrisPhase::Lost, ..spawned(v) }
    }
}

/// The run after a slide by `slide` columns, taken only when the piece still fits.
pub open spec fn slid(v: TetrisView, slide: int) -> TetrisView {
    if slide != 0 && piece_fits(v.board, v.piece, v.rotation, v.x + slide, v.y) {
        TetrisView { x: v.x + slide, ..v }
    } else {
        v
    }
}

/// True when a requested quarter turn is taken: the turned piece fits.
pub open spec fn turn_taken(v: TetrisView, rotate: bool) -> bool {
    rotate && piece_fits(v.board, v.piece, (v.rotation + 1) % 4, v.x, v.y)
}

/// The run after a requested quarter turn, taken only when it fits.
pub open spec fn turned(v: TetrisView, rotate: bool) -> TetrisView {
    if turn_taken(v, rotate) {
        TetrisView { rotation: (v.rotation + 1) % 4, ..v }
    } else {
        v
    }
}

/// The run after a requested hard drop: the piece falls as far as it fits and
/// gravity is due at once.
pub open spec fn dropped(v: TetrisView, drop: bool) -> TetrisView {
    if drop {
        TetrisView { y: drop_row(v.board, v.piece, v.rotation, v.x, v.y), fall_clock: 0, ..v }
    } else {
        v
    }
}

/// The win check that ends every live frame.
pub open spec fn won_check(v: TetrisView, events: TetrisEvents) -> (TetrisView, TetrisEvents) {
    if v.lines >= TETRIS_TARGET_LINES {
        (TetrisView { phase: TetrisPhase::Won, ..v }, TetrisEvents { cleared: true, ..events })
    } else {
        (v, events)
    }
}

/// One frame of play, `dt` microseconds long. The latched input is consumed;
/// a finished run only drops its input. Otherwise the piece slides, turns and
/// hard-drops as asked, each only where it fits; when the fall clock runs out
/// the piece falls a row, or, resting on the stack, locks into the board, the
/// next piece spawns (losing if it cannot) and full lines clear. The fall clock
/// then restarts at the normal or soft-drop interval. Reaching the target line
/// count wins.
pub open spec fn frame(v: TetrisView, dt: int) -> (TetrisView, TetrisEvents) {
    let input = v.input;
    let idle = TetrisView { input: TetrisInput::idle(), ..v };
    if v.phase != TetrisPhase::Falling {
        (idle, TetrisEvents::none())
    } else {
        let v1 = slid(idle, input.slide as int);
        let rotated = turn_taken(v1, input.rotate);
        let v2 = turned(v1, input.rotate);
        let v3 = dropped(v2, input.drop);
        let interval: int = if input.soft { TETRIS_SOFT_FALL_MICROS as int } else { TETRIS_FALL_MICROS as int };
        let clock = v3.fall_clock - dt;
        let events = TetrisEvents { rotated, ..TetrisEvents::none() };
        if clock > 0 {
            won_check(TetrisView { fall_clock: clock, ..v3 }, events)
        } else if piece_fits(v3.board, v3.piece, v3.rotation, v3.x, v3.y + 1) {
            won_check(TetrisView { y: v3.y + 1, fall_clock: interval, ..v3 }, events)
        } else {
            let locked = TetrisView {
                board: stamped(v3.board, v3.piece, v3.rotation, v3.x, v3.y),
                fall_clock: clock,
                ..v3
            };
            let next = after_spawn(locked);
            if !spawn_fits(locked) {
                (next, TetrisEvents { lost: true, ..events })
            } else {
                let cleared = full_row_count(next.board);
                won_check(
                    TetrisView {
                        board: cleared_board(next.board),
                        lines: next.lines + cleared,
                        fall_clock: interval,
                        ..next
                    },
                    TetrisEvents { locked: true, lines: cleared as u32, ..events },
                )
            }
        }
    }
}

/// A fresh run for `seed` and a source file of `file_lines` lines: an empty
/// board, no lines, the generator seeded from `seed | 1`, the first piece at
/// its spawn cell and a full fall interval ahead.
pub open spec fn fresh(seed: u64, file_lines: int) -> TetrisView {
    let rng = lcg_next(seed | 1);
    let piece = piece_for_draw(draw_of(rng));
    TetrisView {
        board: Seq::new(TETRIS_CELLS as nat, |i: int| None),
        piece,
        rotation: 0,
        x: TETRIS_SPAWN_X as int,
        y: spawn_row(piece),
        lines: 0,
        phase: TetrisPhase::Falling,
        input: TetrisInput::idle(),
        fall_clock: TETRIS_FALL_MICROS as int,
        rng,
        seed,
        file_lines,
    }
}

/// The sounds a frame's events ask for, in order: a cleared line, a lock, a win.
pub open spec fn tick_sounds(events: TetrisEvents) -> Seq<GameSound> {
    let a: Seq<GameSound> = if events.lines > 0 { seq![GameSound::Portal] } else { Seq::empty() };
    let b: Seq<GameSound> = if events.locked { a.push(GameSound::Beam) } else { a };
    if events.cleared { b.push(GameSound::Victory) } else { b }
}

/// The latched input after one more frame of keys: a nonzero slide replaces
/// the pending one, rotate and hard drop accumulate, soft drop follows the key.
pub open spec fn latch(input: TetrisInput, slide: i32, rotate: bool, soft: bool, drop: bool) -> TetrisInput {
    TetrisInput {
        slide: if slide != 0 { slide } else { input.slide },
        rotate: input.rotate || rotate,
        soft,
        drop: input.drop || drop,
    }
}

#[derive(Debug, Clone, PartialEq)]
pub struct TetrisSim {
    /// Row-major `cols * rows`; `None` is empty, `Some(colour)` a landed block.
    pub board: Vec<Option<u8>>,
    pub piece: usize,
    pub rotation: usize,
    pub x: i32,
    pub y: i32,
    pub lines: u32,
    pub phase: TetrisPhase,
    pub input: TetrisInput,
    fall_clock: i64,
    rng: Rng,
    seed: u64,
    file_lines: usize,
}

/// The abstract state of a run: the board as a sequence of cells, the
/// falling piece, the progress made, and the clock and generator that drive
/// the next frames.
#[verifier::ext_equal]
pub struct TetrisView {
    pub board: Seq<Option<u8>>,
    pub piece: int,
    pub rotation: int,
    pub x: int,
    pub y: int,
    pub lines: int,
    pub phase: TetrisPhase,
    pub input: TetrisInput,
    /// Microseconds left until the next gravity step.
    pub fall_clock: int,
    /// State of the generator that picks the pieces.
    pub rng: u64,
    pub seed: u64,
    pub file_lines: int,
}

impl View for TetrisSim {
    type V = TetrisView;

    closed spec fn view(&self) -> TetrisView {
        TetrisView {
            board: self.board@,
            piece: self.piece as int,
            rotation: self.rotation as int,
            x: self.x as int,
            y: self.y as int,
            lines: self.lines as int,
            phase: self.phase,
            input: self.input,
            fall_clock: self.fall_clock as int,
            rng: self.rng@,
            seed: self.seed,
            file_lines: self.file_lines as int,
        }
    }
}

impl TetrisView {
    /// The falling piece lies on the board.
    pub open spec fn piece_in_play(self) -> bool {
        piece_on_board(self.piece, self.rotation, self.x, self.y)
    }

    /// Well-formedness: the board has every cell, the piece and its rotation
    /// exist, and while the run is live the piece is on the board, the fall
    /// clock is within one interval, and the line count leaves room for one
    /// more clear.
    pub open spec fn wf(self) -> bool {
        &&& self.board.len() == TETRIS_CELLS
        &&& 0 <= self.piece < TETROMINO_COUNT
        &&& 0 <= self.rotation < 4
        &&& self.phase == TetrisPhase::Falling ==> {
            &&& self.piece_in_play()
            &&& 0 <= self.fall_clock <= TETRIS_FALL_MICROS
            &&& self.lines <= u32::MAX - TETRIS_ROWS
        }
    }
}

impl TetrisSim {
    /// True when `piece` at `rotation`, with its origin at column `x`, row `y`,
    /// lies on the board over empty cells only.
    pub fn fits(&self, piece: usize, rotation: usize, x: i32, y: i32) -> (fits: bool)
        requires
            self@.board.len() == TETRIS_CELLS,
            piece < TETROMINO_COUNT,
        ensures
            fits == piece_fits(self@.board, piece as int, rotation as int, x as int, y as int),
    {
        self.fits_wide(piece, rotation, x as i64, y as i64)
    }

    /// [`Self::fits`] for an origin that may lie far off the board.
    fn fits_wide(&self, piece: usize, rotation: usize, x: i64, y: i64) -> (fits: bool)
        requires
            self.board@.len() == TETRIS_CELLS,
            piece < TETROMINO_COUNT,
            -0x1_0000_0000 <= x <= 0x1_0000_0000,
            -0x1_0000_0000 <= y <= 0x1_0000_0000,
        ensures
            fits == piece_fits(self.board@, piece as int, rotation as int, x as int, y as int),
    {
        let cells = placed_cells(piece, rotation, x, y);
        let mut k: usize = 0;
        while k < 4
            invariant
                k <= 4,
                self.board@.len() == TETRIS_CELLS,
                forall|j: int| 0 <= j < 4 ==> (cells@[j].0 as int, cells@[j].1 as int) == #[trigger] piece_cell(piece as int, rotation as int, x as int, y as int, j),
                forall|j: int|
                    0 <= j < k ==> {
                        let c = #[trigger] piece_cell(piece as int, rotation as int, x as int, y as int, j);
                        on_board(c) && self.board@[cell_index(c)] is None
                    },
            decreases 4 - k,
        {
            let (cx, cy) = cells[k];
            assert((cx as int, cy as int) == piece_cell(piece as int, rotation as int, x as int, y as int, k as int));
            if cx < 0 || cx >= TETRIS_COLS as i64 || cy < 0 || cy >= TETRIS_ROWS as i64 {
                return false;
            }
            if self.board[cx as usize + cy as usize * TETRIS_COLS].is_some() {
                return false;
            }
            k += 1;
        }
        true
    }

    /// Draws the next tetromino from the generator.
    fn next_piece(&mut self) -> (piece: usize)
        ensures
            final(self)@ == (TetrisView { rng: lcg_next(old(self)@.rng), ..old(self)@ }),
            piece as int == piece_for_draw(draw_of(lcg_next(old(self)@.rng))),
            piece < TETROMINO_COUNT,
    {
        let bits = self.rng.unit_bits();
        pick_index(bits, TETROMINO_COUNT as u32) % TETROMINO_COUNT
    }

    /// Places the next piece at the top of the board; losing happens here if
    /// the stack already reaches the spawn rows.
    fn spawn_piece(&mut self) -> (spawned: bool)
        requires
            old(self)@.board.len() == TETRIS_CELLS,
        ensures
            spawned == spawn_fits(old(self)@),
            final(self)@ == after_spawn(old(self)@),
    {
        let piece = self.next_piece();
        self.piece = piece;
        self.rotation = 0;
        self.x = TETRIS_SPAWN_X;
        let offsets = tetromino(piece);
        let mut top = offsets[0].1;
        if offsets[1].1 > top {
            top = offsets[1].1;
        }
        let mut top_cd = offsets[2].1;
        if offsets[3].1 > top_cd {
            top_cd = offsets[3].1;
        }
        if top_cd > top {
            top = top_cd;
        }
        assert(top + 1 == spawn_row(piece as int)) by {
            assert((offsets@[0].0 as int, offsets@[0].1 as int) == tetromino_cell(piece as int, 0));
            assert((offsets@[1].0 as int, offsets@[1].1 as int) == tetromino_cell(piece as int, 1));
            assert((offsets@[2].0 as int, offsets@[2].1 as int) == tetromino_cell(piece as int, 2));
            assert((offsets@[3].0 as int, offsets@[3].1 as int) == tetromino_cell(piece as int, 3));
        }
        self.y = top + 1;
        if !self.fits(self.piece, self.rotation, self.x, self.y) {
            self.phase = TetrisPhase::Lost;
            return false;
        }
        true
    }

    /// Latches a frame's input. `soft` is held; the rest are edges, so they
    /// accumulate until a step consumes them rather than being overwritten by a
    /// frame that ran no step.
    pub fn set_input(&mut self, slide: i32, rotate: bool, soft: bool, drop: bool)
        ensures
            final(self)@ == (TetrisView { input: latch(old(self)@.input, slide, rotate, soft, drop), ..old(self)@ }),
    {
        if slide != 0 {
            self.input.slide = slide;
        }
        self.input.rotate = self.input.rotate || rotate;
        self.input.soft = soft;
        self.input.drop = self.input.drop || drop;
    }

    /// A fresh run: an empty board, the generator seeded from `seed | 1`, and
    /// the first piece in play. `lines` is the line count of the source file
    /// the run stands for; a restart rebuilds from it and `seed`.
    pub fn new(seed: u64, lines: usize) -> (sim: Self)
        ensures
            sim@.wf(),
            sim@ == fresh(seed, lines as int),
    {
        let mut board: Vec<Option<u8>> = Vec::new();
        while board.len() < TETRIS_CELLS
            invariant
                board@.len() <= TETRIS_CELLS,
                forall|i: int| 0 <= i < board@.len() ==> #[trigger] board@[i] is None,
            decreases TETRIS_CELLS - board@.len(),
        {
            board.push(None);
        }
        let mut sim = Self {
            board,
            piece: 0,
            rotation: 0,
            x: TETRIS_SPAWN_X,
            y: 0,
            lines: 0,
            phase: TetrisPhase::Falling,
            input: TetrisInput { slide: 0, rotate: false, soft: false, drop: false },
            fall_clock: TETRIS_FALL_MICROS,
            rng: Rng::from_state(seed | 1),
            seed,
            file_lines: lines,
        };
        assert(sim@.board =~= Seq::new(TETRIS_CELLS as nat, |i: int| None));
        proof {
            let piece = piece_for_draw(draw_of(lcg_next(seed | 1)));
            law_every_piece_fits_at_spawn(piece);
        }
        let spawned = sim.spawn_piece();
        sim
    }

    /// Clears full lines and drops everything above them, returning how many
    /// lines went.
    pub fn clear_lines(&mut self) -> (cleared: u32)
        requires
            old(self)@.board.len() == TETRIS_CELLS,
            old(self)@.lines <= u32::MAX - TETRIS_ROWS,
        ensures
            cleared == full_row_count(old(self)@.board),
            final(self)@ == (TetrisView {
                board: cleared_board(old(self)@.board),
                lines: old(self)@.lines + cleared,
                ..old(self)@
            }),
    {
        let ghost orig = self.board@;
        let mut cleared: u32 = 0;
        let mut row: i32 = TETRIS_ROWS as i32 - 1;
        let ghost mut e: int = 0;
        let ghost mut p: int = TETRIS_ROWS as int;
        proof {
            lemma_kept_rows_bounds(orig, TETRIS_ROWS as int);
        }
        while row >= 0
            invariant
                orig == old(self)@.board,
                orig.len() == TETRIS_CELLS,
                self.board@.len() == TETRIS_CELLS,
                self@ == (TetrisView { board: self.board@, ..old(self)@ }),
                -1 <= row < TETRIS_ROWS,
                0 <= e,
                0 <= p <= TETRIS_ROWS,
                e + p == row + 1,
                e <= cleared,
                p > 0 ==> e == cleared,
                cleared + kept_rows(orig, p).len() == TETRIS_ROWS - p,
                forall|j: int| 0 <= j < kept_rows(orig, p).len() ==> p <= #[trigger] kept_rows(orig, p)[j] < TETRIS_ROWS,
                forall|c: int, r: int|
                    0 <= c < TETRIS_COLS && 0 <= r <= row ==> #[trigger] self.board@[c + r * TETRIS_COLS] == if r < e {
                        None
                    } else {
                        orig[c + (r - e) * TETRIS_COLS]
                    },
                forall|c: int, r: int|
                    0 <= c < TETRIS_COLS && row < r < TETRIS_ROWS ==> #[trigger] self.board@[c + r * TETRIS_COLS] == if r - (row + 1) < cleared - e {
                        None
                    } else {
                        orig[c + kept_rows(orig, p)[r - (row + 1) - (cleared - e)] * TETRIS_COLS]
                    },
            decreases row + 1 + p,
        {
            let full = row_is_full(&self.board, row as usize);
            if full {
                proof {
                    if p == 0 {
                        assert(self.board@[0 + row * TETRIS_COLS] is None);
                        assert(false);
                    }
                    assert forall|col: int| 0 <= col < TETRIS_COLS implies #[trigger] orig[col + (p - 1) * TETRIS_COLS] is Some by {
                        assert(self.board@[col + row * TETRIS_COLS] is Some);
                    }
                    assert(row_full(orig, p - 1));
                    assert(kept_rows(orig, p - 1) == kept_rows(orig, p));
                }
                let ghost before = self.board@;
                cleared += 1;
                shift_rows_down(&mut self.board, row as usize);
                proof {
                    e = e + 1;
                    p = p - 1;
                    assert forall|c: int, r: int|
                        0 <= c < TETRIS_COLS && 0 <= r <= row implies #[trigger] self.board@[c + r * TETRIS_COLS] == if r < e {
                            None
                        } else {
                            orig[c + (r - e) * TETRIS_COLS]
                        } by {
                        if r > 0 {
                            assert(self.board@[c + r * TETRIS_COLS] == before[c + (r - 1) * TETRIS_COLS]);
                        }
                    }
                    assert forall|c: int, r: int|
                        0 <= c < TETRIS_COLS && row < r < TETRIS_ROWS implies #[trigger] self.board@[c + r * TETRIS_COLS] == if r - (row + 1) < cleared - e {
                            None
                        } else {
                            orig[c + kept_rows(orig, p)[r - (row + 1) - (cleared - e)] * TETRIS_COLS]
                        } by {
                        assert(self.board@[c + r * TETRIS_COLS] == before[c + r * TETRIS_COLS]);
                    }
                }
            } else {
                proof {
                    if p > 0 {
                        assert(!row_full(orig, p - 1)) by {
                            let col = choose|col: int| 0 <= col < TETRIS_COLS && !(#[trigger] self.board@[col + row * TETRIS_COLS] is Some);
                            assert(self.board@[col + row * TETRIS_COLS] == orig[col + (p - 1) * TETRIS_COLS]);
                        }
                        assert(kept_rows(orig, p - 1) == seq![p - 1].add(kept_rows(orig, p)));
                        lemma_kept_rows_bounds(orig, p - 1);
                        p = p - 1;
                    } else {
                        e = e - 1;
                    }
                }
                row -= 1;
            }
        }
        proof {
            assert(e == 0 && p == 0);
            let kept = kept_rows(orig, 0);
            assert(self.board@ =~= cleared_board(orig)) by {
                assert forall|i: int| 0 <= i < TETRIS_CELLS implies #[trigger] self.board@[i] == cleared_board(orig)[i] by {
                    lemma_cell_index_split(i);
                    let c = i % TETRIS_COLS as int;
                    let r = i / TETRIS_COLS as int;
                    assert(self.board@[c + r * TETRIS_COLS] == self.board@[i]);
                }
            }
        }
        self.lines += cleared;
        cleared
    }

    /// Draws the falling piece into the board.
    fn stamp_piece(&mut self)
        requires
            old(self)@.board.len() == TETRIS_CELLS,
            old(self)@.piece < TETROMINO_COUNT,
            old(self)@.piece_in_play(),
        ensures
            final(self)@ == (TetrisView {
                board: stamped(old(self)@.board, old(self)@.piece, old(self)@.rotation, old(self)@.x, old(self)@.y),
                ..old(self)@
            }),
    {
        proof {
            lemma_on_board_origin(self.piece as int, self.rotation as int, self.x as int, self.y as int);
        }
        let cells = placed_cells(self.piece, self.rotation, self.x as i64, self.y as i64);
        let ghost orig = self.board@;
        let ghost (piece, rotation, x, y) = (self.piece as int, self.rotation as int, self.x as int, self.y as int);
        let mut k: usize = 0;
        while k < 4
            invariant
                k <= 4,
                self@ == (TetrisView { board: self.board@, ..old(self)@ }),
                orig == old(self)@.board,
                orig.len() == TETRIS_CELLS,
                self.board@.len() == TETRIS_CELLS,
                piece == self.piece,
                rotation == self.rotation,
                x == self.x,
                y == self.y,
                self.piece < TETROMINO_COUNT,
                piece_on_board(piece, rotation, x, y),
                forall|j: int| 0 <= j < 4 ==> (cells@[j].0 as int, cells@[j].1 as int) == #[trigger] piece_cell(piece, rotation, x, y, j),
                forall|i: int|
                    0 <= i < TETRIS_CELLS ==> #[trigger] self.board@[i] == if exists|j: int|
                        0 <= j < k && cell_index(#[trigger] piece_cell(piece, rotation, x, y, j)) == i {
                        Some(self.piece as u8)
                    } else {
                        orig[i]
                    },
            decreases 4 - k,
        {
            let (cx, cy) = cells[k];
            assert((cx as int, cy as int) == piece_cell(piece, rotation, x, y, k as int));
            assert(on_board(piece_cell(piece, rotation, x, y, k as int)));
            let index = cx as usize + cy as usize * TETRIS_COLS;
            let colour = self.piece as u8;
            self.board.set(index, Some(colour));
            proof {
                assert forall|i: int| 0 <= i < TETRIS_CELLS implies #[trigger] self.board@[i] == if exists|j: int|
                    0 <= j < k + 1 && cell_index(#[trigger] piece_cell(piece, rotation, x, y, j)) == i {
                    Some(self.piece as u8)
                } else {
                    orig[i]
                } by {
                    if i == index as int {
                        assert(cell_index(piece_cell(piece, rotation, x, y, k as int)) == i);
                    } else if exists|j: int| 0 <= j < k + 1 && cell_index(#[trigger] piece_cell(piece, rotation, x, y, j)) == i {
                        let j = choose|j: int| 0 <= j < k + 1 && cell_index(#[trigger] piece_cell(piece, rotation, x, y, j)) == i;
                        assert(j < k);
                    }
                }
            }
            k += 1;
        }
        assert(self.board@ =~= stamped(orig, piece, rotation, x, y)) by {
            assert forall|i: int| 0 <= i < TETRIS_CELLS implies #[trigger] self.board@[i] == stamped(orig, piece, rotation, x, y)[i] by {
                if piece_covers(piece, rotation, x, y, i) {
                    let j = choose|j: int|
                        0 <= j < 4 && on_board(#[trigger] piece_cell(piece, rotation, x, y, j)) && cell_index(piece_cell(piece, rotation, x, y, j)) == i;
                }
                if exists|j: int| 0 <= j < 4 && cell_index(#[trigger] piece_cell(piece, rotation, x, y, j)) == i {
                    let j = choose|j: int| 0 <= j < 4 && cell_index(#[trigger] piece_cell(piece, rotation, x, y, j)) == i;
                    assert(on_board(piece_cell(piece, rotation, x, y, j)));
                }
            }
        }
    }

    /// Locks the falling piece into the board and spawns the next one; false
    /// when the run is lost.
    fn lock(&mut self) -> (spawned: bool)
        requires
            old(self)@.board.len() == TETRIS_CELLS,
            old(self)@.piece < TETROMINO_COUNT,
            old(self)@.piece_in_play(),
        ensures
            ({
                let locked = TetrisView {
                    board: stamped(old(self)@.board, old(self)@.piece, old(self)@.rotation, old(self)@.x, old(self)@.y),
                    ..old(self)@
                };
                &&& spawned == spawn_fits(locked)
                &&& final(self)@ == after_spawn(locked)
            }),
    {
        self.stamp_piece();
        self.spawn_piece()
    }

    /// The board with the falling piece overlaid, for the renderer.
    pub fn render_board(&self) -> (rendered: Vec<Option<u8>>)
        requires
            self@.board.len() == TETRIS_CELLS,
            self@.piece < TETROMINO_COUNT,
        ensures
            rendered@ == stamped(self@.board, self@.piece, self@.rotation, self@.x, self@.y),
    {
        let mut rendered: Vec<Option<u8>> = Vec::new();
        let mut i: usize = 0;
        while i < TETRIS_CELLS
            invariant
                i <= TETRIS_CELLS,
                self.board@.len() == TETRIS_CELLS,
                rendered@ == self.board@.subrange(0, i as int),
            decreases TETRIS_CELLS - i,
        {
            rendered.push(self.board[i]);
            i += 1;
        }
        assert(rendered@ =~= self.board@);
        let ghost (piece, rotation, x, y) = (self.piece as int, self.rotation as int, self.x as int, self.y as int);
        let cells = placed_cells(self.piece, self.rotation, self.x as i64, self.y as i64);
        let mut k: usize = 0;
        while k < 4
            invariant
                k <= 4,
                self.board@.len() == TETRIS_CELLS,
                rendered@.len() == TETRIS_CELLS,
                piece == self.piece,
                rotation == self.rotation,
                x == self.x,
                y == self.y,
                self.piece < TETROMINO_COUNT,
                forall|j: int| 0 <= j < 4 ==> (cells@[j].0 as int, cells@[j].1 as int) == #[trigger] piece_cell(piece, rotation, x, y, j),
                forall|i: int|
                    0 <= i < TETRIS_CELLS ==> #[trigger] rendered@[i] == if exists|j: int|
                        0 <= j < k && on_board(#[trigger] piece_cell(piece, rotation, x, y, j)) && cell_index(piece_cell(piece, rotation, x, y, j)) == i {
                        Some(self.piece as u8)
                    } else {
                        self.board@[i]
                    },
            decreases 4 - k,
        {
            let (cx, cy) = cells[k];
            assert((cx as int, cy as int) == piece_cell(piece, rotation, x, y, k as int));
            if cx >= 0 && cx < TETRIS_COLS as i64 && cy >= 0 && cy < TETRIS_ROWS as i64 {
                let index = cx as usize + cy as usize * TETRIS_COLS;
                rendered.set(index, Some(self.piece as u8));
                proof {
                    assert forall|i: int| 0 <= i < TETRIS_CELLS implies #[trigger] rendered@[i] == if exists|j: int|
                        0 <= j < k + 1 && on_board(#[trigger] piece_cell(piece, rotation, x, y, j)) && cell_index(piece_cell(piece, rotation, x, y, j)) == i {
                        Some(self.piece as u8)
                    } else {
                        self.board@[i]
                    } by {
                        if i == index as int {
                            assert(on_board(piece_cell(piece, rotation, x, y, k as int)));
                            assert(cell_index(piece_cell(piece, rotation, x, y, k as int)) == i);
                        } else if exists|j: int| 0 <= j < k + 1 && on_board(#[trigger] piece_cell(piece, rotation, x, y, j)) && cell_index(piece_cell(piece, rotation, x, y, j)) == i {
                            let j = choose|j: int| 0 <= j < k + 1 && on_board(#[trigger] piece_cell(piece, rotation, x, y, j)) && cell_index(piece_cell(piece, rotation, x, y, j)) == i;
                            assert(j < k);
                        }
                    }
                }
            } else {
                proof {
                    assert forall|i: int| 0 <= i < TETRIS_CELLS implies #[trigger] rendered@[i] == if exists|j: int|
                        0 <= j < k + 1 && on_board(#[trigger] piece_cell(piece, rotation, x, y, j)) && cell_index(piece_cell(piece, rotation, x, y, j)) == i {
                        Some(self.piece as u8)
                    } else {
                        self.board@[i]
                    } by {
                        if exists|j: int| 0 <= j < k + 1 && on_board(#[trigger] piece_cell(piece, rotation, x, y, j)) && cell_index(piece_cell(piece, rotation, x, y, j)) == i {
                            let j = choose|j: int| 0 <= j < k + 1 && on_board(#[trigger] piece_cell(piece, rotation, x, y, j)) && cell_index(piece_cell(piece, rotation, x, y, j)) == i;
                            assert(j < k);
                        }
                    }
                }
            }
            k += 1;
        }
        assert(rendered@ =~= stamped(self.board@, piece, rotation, x, y));
        rendered
    }

    /// Lets the falling piece drop row by row while it still fits.
    fn hard_drop(&mut self)
        requires
            old(self)@.wf(),
            old(self)@.phase == TetrisPhase::Falling,
        ensures
            final(self)@ == (TetrisView {
                y: drop_row(old(self)@.board, old(self)@.piece, old(self)@.rotation, old(self)@.x, old(self)@.y),
                ..old(self)@
            }),
            final(self)@.piece_in_play(),
    {
        let ghost start = self@;
        proof {
            lemma_on_board_origin(self.piece as int, self.rotation as int, self.x as int, self.y as int);
        }
        while self.fits(self.piece, self.rotation, self.x, self.y + 1)
            invariant
                self@ == (TetrisView { y: self@.y, ..start }),
                start.wf(),
                self@.piece_in_play(),
                -3 <= self.y <= TETRIS_ROWS + 2,
                drop_row(start.board, start.piece, start.rotation, start.x, start.y) == drop_row(
                    start.board,
                    start.piece,
                    start.rotation,
                    start.x,
                    self.y as int,
                ),
            decreases TETRIS_ROWS + 4 - self.y,
        {
            proof {
                lemma_fits_on_board(self@.board, self@.piece, self@.rotation, self@.x, self@.y + 1);
                lemma_on_board_origin(self.piece as int, self.rotation as int, self.x as int, self.y + 1);
            }
            self.y = self.y + 1;
        }
    }

    /// Runs one frame of `dt` microseconds, consuming the latched input; see
    /// [`frame`] for what a frame does.
    pub fn update(&mut self, dt: u32) -> (events: TetrisEvents)
        requires
            old(self)@.wf(),
        ensures
            (final(self)@, events) == frame(old(self)@, dt as int),
            final(self)@.wf(),
    {
        let ghost v = self@;
        let input = self.input;
        self.input = TetrisInput { slide: 0, rotate: false, soft: false, drop: false };
        let mut events = TetrisEvents { rotated: false, locked: false, lines: 0, cleared: false, lost: false };
        if self.phase != TetrisPhase::Falling {
            return events;
        }
        proof {
            lemma_on_board_origin(self.piece as int, self.rotation as int, self.x as int, self.y as int);
        }
        if input.slide != 0 && self.fits_wide(self.piece, self.rotation, self.x as i64 + input.slide as i64, self.y as i64) {
            proof {
                lemma_fits_on_board(self@.board, self@.piece, self@.rotation, self@.x + input.slide, self@.y);
                lemma_on_board_origin(self.piece as int, self.rotation as int, self.x + input.slide, self.y as int);
            }
            self.x = self.x + input.slide;
        }
        if input.rotate {
            let rotation = (self.rotation + 1) % 4;
            if self.fits(self.piece, rotation, self.x, self.y) {
                proof {
                    lemma_fits_on_board(self@.board, self@.piece, rotation as int, self@.x, self@.y);
                }
                self.rotation = rotation;
                events.rotated = true;
            }
        }
        if input.drop {
            self.hard_drop();
            self.fall_clock = 0;
        }
        let interval = if input.soft {
            TETRIS_SOFT_FALL_MICROS
        } else {
            TETRIS_FALL_MICROS
        };
        self.fall_clock = self.fall_clock - dt as i64;
        if self.fall_clock <= 0 {
            proof {
                lemma_on_board_origin(self.piece as int, self.rotation as int, self.x as int, self.y as int);
            }
            if self.fits(self.piece, self.rotation, self.x, self.y + 1) {
                proof {
                    lemma_fits_on_board(self@.board, self@.piece, self@.rotation, self@.x, self@.y + 1);
                }
                self.y = self.y + 1;
            } else {
                if !self.lock() {
                    events.lost = true;
                    return events;
                }
                proof {
                    let next = self@;
                    lemma_fits_on_board(next.board, next.piece, 0, TETRIS_SPAWN_X as int, spawn_row(next.piece));
                }
                events.locked = true;
                let lines = self.clear_lines();
                proof {
                    lemma_kept_rows_bounds(old(self)@.board, 0);
                }
                events.lines = lines;
            }
            self.fall_clock = interval;
        }
        if self.lines >= TETRIS_TARGET_LINES {
            self.phase = TetrisPhase::Won;
            events.cleared = true;
        }
        events
    }

    /// Starts the run over from its own seed, so it lays out exactly the same game.
    pub fn restart(&mut self)
        ensures
            final(self)@ == fresh(old(self)@.seed, old(self)@.file_lines),
            final(self)@.wf(),
    {
        *self = Self::new(self.seed, self.file_lines);
    }

    /// One step of the run as the arena drives it: the frame's sounds, whether
    /// the board was cleared, and the loss with what caused it.
    pub fn tick(&mut self, dt: u32) -> (tick: GameTick)
        requires
            old(self)@.wf(),
        ensures
            ({
                let (after, events) = frame(old(self)@, dt as int);
                &&& final(self)@ == after
                &&& tick.sounds@ == tick_sounds(events)
                &&& tick.cleared == events.cleared
                &&& tick.lost == (after.phase == TetrisPhase::Lost)
                &&& tick.lost ==> (tick.label matches Some(label) && label@ == "the stack of indentation"@)
                &&& !tick.lost ==> tick.label is None
            }),
            final(self)@.wf(),
    {
        let events = self.update(dt);
        let mut tick = GameTick::new();
        if events.lines > 0 {
            tick.sound(GameSound::Portal);
        }
        if events.locked {
            tick.sound(GameSound::Beam);
        }
        if events.cleared {
            tick.sound(GameSound::Victory);
        }
        tick.cleared = events.cleared;
        if self.phase == TetrisPhase::Lost {
            tick.lost = true;
            tick.label = Some(String::from_str("the stack of indentation"));
        }
        tick
    }

    /// The status line: lines against the target, the ring, language and inner
    /// labels, and the phase.
    pub fn status_line(&self, ring: &str, language: &str, inner: &str) -> (status: String)
        ensures
            status@ == "TETRIS "@ + decimal(self@.lines as nat) + " / "@ + decimal(TETRIS_TARGET_LINES as nat)
                + " LINES | RING: "@ + ring@ + " | "@ + language@ + " | "@ + inner@ + " | "@
                + phase_label(self@.phase)@,
    {
        let mut status = String::from_str("TETRIS ");
        push_decimal(&mut status, self.lines as u64);
        status.append(" / ");
        push_decimal(&mut status, TETRIS_TARGET_LINES as u64);
        status.append(" LINES | RING: ");
        status.append(ring);
        status.append(" | ");
        status.append(language);
        status.append(" | ");
        status.append(inner);
        status.append(" | ");
        status.append(self.phase.label());
        status
    }
}

/// The kept rows from `from` on are rows in `from..TETRIS_ROWS`.
pub proof fn lemma_kept_rows_bounds(board: Seq<Option<u8>>, from: int)
    requires
        0 <= from <= TETRIS_ROWS,
    ensures
        kept_rows(board, from).len() <= TETRIS_ROWS - from,
        forall|j: int| 0 <= j < kept_rows(board, from).len() ==> from <= #[trigger] kept_rows(board, from)[j] < TETRIS_ROWS,
    decreases TETRIS_ROWS - from,
{
    if from < TETRIS_ROWS {
        lemma_kept_rows_bounds(board, from + 1);
        let rest = kept_rows(board, from + 1);
        if !row_full(board, from) {
            assert forall|j: int| 0 <= j < kept_rows(board, from).len() implies from <= #[trigger] kept_rows(board, from)[j] < TETRIS_ROWS by {
                if j > 0 {
                    assert(kept_rows(board, from)[j] == rest[j - 1]);
                }
            }
        }
    }
}

/// Every tetromino fits at its spawn cell on an empty board.
pub proof fn law_every_piece_fits_at_spawn(piece: int)
    requires
        0 <= piece < TETROMINO_COUNT,
    ensures
        piece_fits(Seq::new(TETRIS_CELLS as nat, |i: int| None), piece, 0, TETRIS_SPAWN_X as int, spawn_row(piece)),
        piece_on_board(piece, 0, TETRIS_SPAWN_X as int, spawn_row(piece)),
{
    let board = Seq::new(TETRIS_CELLS as nat, |i: int| None::<u8>);
    assert forall|k: int| 0 <= k < 4 implies {
        let c = #[trigger] piece_cell(piece, 0, TETRIS_SPAWN_X as int, spawn_row(piece), k);
        on_board(c) && board[cell_index(c)] is None
    } by {
        let c = piece_cell(piece, 0, TETRIS_SPAWN_X as int, spawn_row(piece), k);
        assert(on_board(c));
    }
}

/// An edge press survives a later frame that presses nothing: the slide and
/// the rotate stay latched until a step consumes them.
pub proof fn law_edges_survive_an_idle_frame(input: TetrisInput, slide: i32, rotate: bool, soft: bool, drop: bool, later_soft: bool)
    ensures
        ({
            let pressed = latch(input, slide, rotate, soft, drop);
            let after = latch(pressed, 0, false, later_soft, false);
            &&& after.slide == pressed.slide
            &&& after.rotate == pressed.rotate
            &&& after.drop == pressed.drop
            &&& (slide != 0 ==> after.slide == slide)
            &&& (rotate ==> after.rotate)
        }),
{
}

/// Four quarter turns bring a piece back to where it started, and each turn
/// maps an offset `(x, y)` to `(-y, x)`.
pub proof fn law_quarter_turns(c: (int, int), rotation: int)
    requires
        0 <= rotation,
    ensures
        rotate_offset(c, rotation + 4) == rotate_offset(c, rotation),
        rotate_offset(c, rotation + 1) == (-rotate_offset(c, rotation).1, rotate_offset(c, rotation).0),
{
}

/// Every row the clear keeps was not full.
pub proof fn lemma_kept_rows_not_full(board: Seq<Option<u8>>, from: int)
    requires
        0 <= from <= TETRIS_ROWS,
    ensures
        forall|j: int| 0 <= j < kept_rows(board, from).len() ==> !row_full(board, #[trigger] kept_rows(board, from)[j]),
    decreases TETRIS_ROWS - from,
{
    if from < TETRIS_ROWS {
        lemma_kept_rows_not_full(board, from + 1);
        let rest = kept_rows(board, from + 1);
        if !row_full(board, from) {
            assert forall|j: int| 0 <= j < kept_rows(board, from).len() implies !row_full(board, #[trigger] kept_rows(board, from)[j]) by {
                if j > 0 {
                    assert(kept_rows(board, from)[j] == rest[j - 1]);
                }
            }
        }
    }
}

/// After a clear no row of the board is full, and the number of full rows the
/// clear removed is between zero and the board height.
pub proof fn law_clear_leaves_no_full_row(board: Seq<Option<u8>>)
    requires
        board.len() == TETRIS_CELLS,
    ensures
        0 <= full_row_count(board) <= TETRIS_ROWS,
        cleared_board(board).len() == TETRIS_CELLS,
        forall|row: int| 0 <= row < TETRIS_ROWS ==> !row_full(cleared_board(board), row),
{
    lemma_kept_rows_bounds(board, 0);
    lemma_kept_rows_not_full(board, 0);
    let kept = kept_rows(board, 0);
    let empty = TETRIS_ROWS - kept.len();
    let after = cleared_board(board);
    assert forall|row: int| 0 <= row < TETRIS_ROWS implies !row_full(after, row) by {
        if row < empty {
            assert(after[0 + row * TETRIS_COLS] is None);
        } else {
            let source = kept[row - empty];
            assert(!row_full(board, source));
            let col = choose|col: int| 0 <= col < TETRIS_COLS && !(#[trigger] board[col + source * TETRIS_COLS] is Some);
            assert((col + row * TETRIS_COLS) / (TETRIS_COLS as int) == row);
            assert((col + row * TETRIS_COLS) % (TETRIS_COLS as int) == col);
            assert(after[col + row * TETRIS_COLS] == board[col + source * TETRIS_COLS]);
        }
    }
}

/// A finished run stays as it is: a frame only drops its latched input.
pub proof fn law_finished_run_is_frozen(v: TetrisView, dt: int)
    requires
        v.phase != TetrisPhase::Falling,
    ensures
        frame(v, dt).0 == (TetrisView { input: TetrisInput::idle(), ..v }),
        frame(v, dt).1 == TetrisEvents::none(),
{
}

/// The line count only grows, by exactly the lines a frame reports, and the
/// frame always consumes the latched input.
pub proof fn law_lines_grow_by_reported_lines(v: TetrisView, dt: int)
    requires
        v.wf(),
    ensures
        frame(v, dt).0.lines == v.lines + frame(v, dt).1.lines,
        frame(v, dt).0.input == TetrisInput::idle(),
        frame(v, dt).1.lines <= TETRIS_ROWS,
{
    if v.phase == TetrisPhase::Falling {
        let input = v.input;
        let idle = TetrisView { input: TetrisInput::idle(), ..v };
        let v1 = slid(idle, input.slide as int);
        let v2 = turned(v1, input.rotate);
        let v3 = dropped(v2, input.drop);
        let locked = TetrisView { board: stamped(v3.board, v3.piece, v3.rotation, v3.x, v3.y), fall_clock: v3.fall_clock - dt, ..v3 };
        let next = after_spawn(locked);
        lemma_kept_rows_bounds(next.board, 0);
    }
}

/// The fall clock restarts at the right interval. Whenever gravity acts in a
/// frame (the clock ran out, or a hard drop made it due) and the run goes on,
/// the clock restarts at the soft-drop interval exactly when the consumed
/// input held soft drop, and at the normal interval otherwise. A frame in
/// which the clock has not run out and no hard drop was asked moves no piece
/// down and touches no cell: it only counts the clock down, so without soft
/// drop a piece that just fell waits a full normal interval before it falls
/// again.
pub proof fn law_fall_clock_restarts_at_its_interval(v: TetrisView, dt: int)
    requires
        v.wf(),
        v.phase == TetrisPhase::Falling,
        dt >= 0,
    ensures
        ({
            let after = frame(v, dt).0;
            after.phase == TetrisPhase::Falling && (v.input.drop || v.fall_clock <= dt) ==> after.fall_clock == (if v.input.soft {
                TETRIS_SOFT_FALL_MICROS as int
            } else {
                TETRIS_FALL_MICROS as int
            })
        }),
        ({
            let after = frame(v, dt).0;
            !v.input.drop && v.fall_clock > dt ==> after.fall_clock == v.fall_clock - dt && after.y == v.y
                && after.board == v.board && after.lines == v.lines
        }),
        TETRIS_SOFT_FALL_MICROS * 5 == TETRIS_FALL_MICROS,
{
}

/// `kept_rows` keeps every row from `from` on when none of them is full.
proof fn lemma_kept_rows_all(board: Seq<Option<u8>>, from: int)
    requires
        0 <= from <= TETRIS_ROWS,
        forall|r: int| from <= r < TETRIS_ROWS ==> !row_full(board, r),
    ensures
        kept_rows(board, from) == Seq::new((TETRIS_ROWS - from) as nat, |k: int| from + k),
    decreases TETRIS_ROWS - from,
{
    if from < TETRIS_ROWS {
        lemma_kept_rows_all(board, from + 1);
        assert(kept_rows(board, from) =~= Seq::new((TETRIS_ROWS - from) as nat, |k: int| from + k));
    } else {
        assert(kept_rows(board, from) =~= Seq::new(0, |k: int| from + k));
    }
}

/// True when row `row` of the board has an empty cell in some column.
pub open spec fn row_has_empty_cell(board: Seq<Option<u8>>, row: int) -> bool {
    exists|c: int| 0 <= c < TETRIS_COLS && #[trigger] board[c + row * TETRIS_COLS] is None
}

/// A row is cleared only if every one of its cells is filled: when each row
/// has an empty cell in some column, clearing removes nothing, counts no
/// lines, and leaves the board exactly as it was.
pub proof fn law_rows_with_a_hole_are_never_cleared(board: Seq<Option<u8>>)
    requires
        board.len() == TETRIS_CELLS,
        forall|r: int| 0 <= r < TETRIS_ROWS ==> #[trigger] row_has_empty_cell(board, r),
    ensures
        full_row_count(board) == 0,
        cleared_board(board) == board,
{
    assert forall|r: int| 0 <= r < TETRIS_ROWS implies !row_full(board, r) by {
        assert(row_has_empty_cell(board, r));
        let c = choose|c: int| 0 <= c < TETRIS_COLS && #[trigger] board[c + r * TETRIS_COLS] is None;
        assert(!(board[c + r * TETRIS_COLS] is Some));
    }
    lemma_kept_rows_all(board, 0);
    let kept = kept_rows(board, 0);
    assert forall|i: int| 0 <= i < TETRIS_CELLS implies #[trigger] cleared_board(board)[i] == board[i] by {
        lemma_cell_index_split(i);
        let row = i / TETRIS_COLS as int;
        assert(0 <= row < TETRIS_ROWS);
        assert(kept[row] == row);
    }
    assert(cleared_board(board) =~= board);
}

} // verus!
