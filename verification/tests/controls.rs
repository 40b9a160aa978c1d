use raptor::controls::{
    bomberman_controls, columns_controls, drives_grid, frogger_hop, game_at, game_controls,
    qbert_hop, read_ride_keys, tetris_controls, PauseState, RideCommand, RideKeys, SourceGame,
    SOURCE_GAME_COUNT,
};
use raptor::tetris::TetrisInput;

fn keys() -> RideKeys {
    RideKeys {
        pause_pressed: false,
        up_pressed: false,
        down_pressed: false,
        left_pressed: false,
        right_pressed: false,
        enter_pressed: false,
        space_pressed: false,
        click_pressed: false,
        rewind_pressed: false,
        redo_pressed: false,
        restart_pressed: false,
        go_up_pressed: false,
        recall_pressed: false,
        up_held: false,
        down_held: false,
        left_held: false,
        right_held: false,
        space_held: false,
        shift_held: false,
    }
}

#[test]
fn the_warp_list_wraps_both_ways_and_warps_on_enter() {
    let mut pause = PauseState { paused: true, warp_index: 0 };
    read_ride_keys(false, &mut pause, RideKeys { up_pressed: true, ..keys() });
    assert_eq!(pause.warp_index, SOURCE_GAME_COUNT - 1);
    read_ride_keys(false, &mut pause, RideKeys { down_pressed: true, ..keys() });
    assert_eq!(pause.warp_index, 0);
    let command = read_ride_keys(false, &mut pause, RideKeys { enter_pressed: true, ..keys() });
    assert_eq!(command, RideCommand::PauseMenu { warp: Some(SourceGame::DiscWars) });
    assert_eq!(game_at(10), SourceGame::Tetris);
}

#[test]
fn escape_pauses_and_resumes() {
    let mut pause = PauseState { paused: false, warp_index: 3 };
    assert_eq!(read_ride_keys(false, &mut pause, RideKeys { pause_pressed: true, ..keys() }), RideCommand::Paused);
    assert!(pause.paused);
    read_ride_keys(false, &mut pause, RideKeys { pause_pressed: true, ..keys() });
    assert!(!pause.paused);
}

#[test]
fn a_flight_holds_the_controls_and_history_keys_win_over_riding() {
    let mut pause = PauseState { paused: false, warp_index: 0 };
    assert_eq!(read_ride_keys(true, &mut pause, RideKeys { pause_pressed: true, ..keys() }), RideCommand::Held);
    assert!(!pause.paused);
    assert_eq!(read_ride_keys(false, &mut pause, RideKeys { rewind_pressed: true, ..keys() }), RideCommand::Rewind);
    assert_eq!(read_ride_keys(false, &mut pause, RideKeys { redo_pressed: true, ..keys() }), RideCommand::Redo);
    assert_eq!(
        read_ride_keys(false, &mut pause, RideKeys { shift_held: true, ..keys() }),
        RideCommand::Ride { slow_motion: true }
    );
}

#[test]
fn each_game_reads_its_own_controls() {
    let controls = game_controls(RideKeys {
        right_pressed: true,
        up_pressed: true,
        down_held: true,
        space_pressed: true,
        right_held: true,
        ..keys()
    });
    assert_eq!(controls.steer, 1);
    assert_eq!(controls.move_z, 1);
    assert_eq!(controls.hop_z, 1);
    assert!(controls.throw);
    assert_eq!(
        tetris_controls(controls),
        TetrisInput { slide: 1, rotate: true, soft: true, drop: true }
    );
    assert_eq!(columns_controls(controls), (1, true, true));
    assert_eq!(frogger_hop(controls), (1, -1));
    assert_eq!(qbert_hop(controls), (-1, 1));
    assert_eq!(bomberman_controls(controls, true), (Some((1, 1)), true));
    assert_eq!(bomberman_controls(controls, false), (None, true));
}

#[test]
fn only_grid_games_steer_the_bike() {
    assert!(drives_grid(None, false));
    assert!(drives_grid(Some(SourceGame::Snake), true));
    assert!(drives_grid(Some(SourceGame::Asteroids), false));
    assert!(!drives_grid(Some(SourceGame::Asteroids), true));
    assert!(!drives_grid(Some(SourceGame::Tetris), false));
}
