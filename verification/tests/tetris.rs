use raptor::minigame::GameSound;
use raptor::tetris::{
    tetromino, TetrisPhase, TetrisSim, TETRIS_COLS, TETRIS_FALL_MICROS, TETRIS_ROWS,
    TETRIS_SPAWN_X, TETRIS_TARGET_LINES, TETROMINO_COUNT,
};

/// One rendered frame at 60 Hz, in microseconds.
const FRAME: u32 = 16_667;

fn sim() -> TetrisSim {
    TetrisSim::new(5, 200)
}

#[test]
fn edge_presses_survive_a_frame_that_runs_no_step() {
    // Input is latched once per rendered frame but consumed on a 1/60
    // accumulator, so a press has to outlive the release that follows it
    // on a frame that ran no step.
    let mut game = sim();
    let x = game.x;
    game.set_input(1, true, false, false);
    game.set_input(0, false, false, false);
    let events = game.update(FRAME);
    assert_eq!(game.x, x + 1, "the slide was swallowed");
    assert!(events.rotated, "the rotate was swallowed");
    assert_eq!(game.rotation, 1);
}

#[test]
fn the_same_seed_builds_the_same_board() {
    assert_eq!(sim(), sim());
}

#[test]
fn all_seven_pieces_fit_at_spawn() {
    for piece in 0..TETROMINO_COUNT {
        let offsets = tetromino(piece);
        let game = sim();
        let y = offsets.iter().map(|&(_, cy)| cy).max().unwrap_or(0) + 1;
        assert!(
            game.fits(piece, 0, game.x, y),
            "piece {piece} should fit at its spawn row"
        );
    }
}

#[test]
fn sliding_and_rotating_move_the_piece() {
    let mut game = sim();
    let x = game.x;
    game.set_input(1, false, false, false);
    game.update(FRAME);
    assert_eq!(game.x, x + 1);
    game.set_input(0, true, false, false);
    let events = game.update(FRAME);
    assert!(events.rotated);
    assert_eq!(game.rotation, 1);
}

#[test]
fn a_full_line_clears() {
    let mut game = sim();
    let cols = TETRIS_COLS;
    for col in 0..cols {
        game.board[col + (TETRIS_ROWS - 1) * cols] = Some(1);
    }
    assert_eq!(game.clear_lines(), 1);
    assert_eq!(game.lines, 1);
    assert!((0..cols).all(|col| game.board[col].is_none()));
}

#[test]
fn hard_drop_locks_the_piece() {
    let mut game = sim();
    game.set_input(0, false, false, true);
    let events = game.update(FRAME);
    assert!(events.locked);
    assert!(game.board.iter().any(|cell| cell.is_some()));
}

#[test]
fn reaching_the_target_wins() {
    let mut game = sim();
    game.lines = TETRIS_TARGET_LINES;
    let events = game.update(FRAME);
    assert!(events.cleared);
    assert_eq!(game.phase, TetrisPhase::Won);
}

#[test]
fn restarting_relays_the_board() {
    let mut game = sim();
    game.board.clear();
    game.restart();
    assert_eq!(game.board, sim().board);
    assert_eq!(game.phase, TetrisPhase::Falling);
}

#[test]
fn clearing_keeps_the_rows_that_were_not_full_in_order() {
    let mut game = sim();
    let cols = TETRIS_COLS;
    let rows = TETRIS_ROWS;
    // Bottom row full, the one above it holds a marker, the one above that is
    // full again, and one more marker above.
    for col in 0..cols {
        game.board[col + (rows - 1) * cols] = Some(1);
        game.board[col + (rows - 3) * cols] = Some(2);
    }
    game.board[(rows - 2) * cols] = Some(5);
    game.board[3 + (rows - 4) * cols] = Some(6);
    assert_eq!(game.clear_lines(), 2);
    assert_eq!(game.board[(rows - 1) * cols], Some(5));
    assert_eq!(game.board[3 + (rows - 2) * cols], Some(6));
    assert_eq!(game.board.iter().filter(|cell| cell.is_some()).count(), 2);
}

#[test]
fn the_board_keeps_running_until_a_piece_cannot_spawn() {
    let mut game = sim();
    let mut lost = false;
    for _ in 0..2_000 {
        game.set_input(0, false, false, true);
        let events = game.update(FRAME);
        if events.lost {
            lost = true;
            break;
        }
    }
    assert!(lost, "hard-dropping in one column must top out");
    assert_eq!(game.phase, TetrisPhase::Lost);
    // A finished run ignores further input.
    let board = game.board.clone();
    game.set_input(1, true, true, true);
    let events = game.update(FRAME);
    assert!(!events.locked && !events.rotated && !events.lost);
    assert_eq!(game.board, board);
}

#[test]
fn gravity_waits_for_the_fall_interval() {
    let mut game = sim();
    let y = game.y;
    game.update(TETRIS_FALL_MICROS as u32 - 1);
    assert_eq!(game.y, y);
    game.update(1);
    assert_eq!(game.y, y + 1);
}

#[test]
fn the_render_overlays_the_falling_piece() {
    let game = sim();
    let rendered = game.render_board();
    assert_eq!(rendered.len(), TETRIS_COLS * TETRIS_ROWS);
    assert_eq!(rendered.iter().filter(|cell| cell.is_some()).count(), 4);
    assert!(rendered.iter().flatten().all(|&colour| colour as usize == game.piece));
    assert_eq!(game.x, TETRIS_SPAWN_X);
}

#[test]
fn a_tick_reports_the_lock_sound_and_the_loss_label() {
    let mut game = sim();
    game.set_input(0, false, false, true);
    let tick = game.tick(FRAME);
    assert_eq!(tick.sounds, vec![GameSound::Beam]);
    assert!(!tick.lost && tick.label.is_none());

    let mut topped = sim();
    let mut last = None;
    for _ in 0..2_000 {
        topped.set_input(0, false, false, true);
        let tick = topped.tick(FRAME);
        if tick.lost {
            last = Some(tick);
            break;
        }
    }
    let tick = last.expect("the stack tops out");
    assert_eq!(tick.label.as_deref(), Some("the stack of indentation"));
}

#[test]
fn the_status_line_counts_lines_against_the_target() {
    let mut game = sim();
    game.lines = 7;
    assert_eq!(
        game.status_line("ring", "Rust", "inner"),
        "TETRIS 7 / 10 LINES | RING: ring | Rust | inner | FALLING"
    );
    assert_eq!(TetrisPhase::Won.label(), "CLEARED");
    assert_eq!(TetrisPhase::Lost.label(), "TOPPED OUT");
}
