//! What the keys do during a ride: the pause menu that warps between the
//! minigames, the history keys, and the controls each minigame reads.
//!
//! The caller samples the keyboard and mouse into [`RideKeys`], applies the
//! [`RideCommand`] a frame yields, and hands each minigame the controls that
//! [`GameControls`] maps out for it.

use crate::tetris::TetrisInput;
use vstd::prelude::*;

verus! {

/// The minigames a source file can hold.
#[derive(Debug, Clone, Copy, PartialEq, Eq, Structural)]
pub enum SourceGame {
    DiscWars,
    Asteroids,
    Snake,
    Platformer,
    Breaker,
    Stealth,
    RiverSurfer,
    Galaga,
    PacMan,
    Columns,
    Tetris,
    Frogger,
    Qbert,
    Bomberman,
    Plinko,
}

/// How many minigames there are.
pub const SOURCE_GAME_COUNT: usize = 15;

/// The minigames in warp-menu order.
pub open spec fn spec_game_at(index: int) -> SourceGame {
    if index == 0 { SourceGame::DiscWars }
    else if index == 1 { SourceGame::Asteroids }
    else if index == 2 { SourceGame::Snake }
    else if index == 3 { SourceGame::Platformer }
    else if index == 4 { SourceGame::Breaker }
    else if index == 5 { SourceGame::Stealth }
    else if index == 6 { SourceGame::RiverSurfer }
    else if index == 7 { SourceGame::Galaga }
    else if index == 8 { SourceGame::PacMan }
    else if index == 9 { SourceGame::Columns }
    else if index == 10 { SourceGame::Tetris }
    else if index == 11 { SourceGame::Frogger }
    else if index == 12 { SourceGame::Qbert }
    else if index == 13 { SourceGame::Bomberman }
    else { SourceGame::Plinko }
}

/// The minigame at `index` in warp-menu order.
pub fn game_at(index: usize) -> (game: SourceGame)
    requires
        index < SOURCE_GAME_COUNT,
    ensures
        game == spec_game_at(index as int),
{
    match index {
        0 => SourceGame::DiscWars,
        1 => SourceGame::Asteroids,
        2 => SourceGame::Snake,
        3 => SourceGame::Platformer,
        4 => SourceGame::Breaker,
        5 => SourceGame::Stealth,
        6 => SourceGame::RiverSurfer,
        7 => SourceGame::Galaga,
        8 => SourceGame::PacMan,
        9 => SourceGame::Columns,
        10 => SourceGame::Tetris,
        11 => SourceGame::Frogger,
        12 => SourceGame::Qbert,
        13 => SourceGame::Bomberman,
        _ => SourceGame::Plinko,
    }
}

/// The pause menu: whether the ride is paused, and which minigame the warp
/// list has selected.
#[derive(Debug, Clone, Copy, PartialEq, Eq, Structural)]
pub struct PauseState {
    pub paused: bool,
    pub warp_index: usize,
}

/// One frame of ride keys. `..._pressed` are edges of this frame, `..._held`
/// are keys down this frame.
#[derive(Debug, Clone, Copy, PartialEq, Eq, Structural)]
pub struct RideKeys {
    /// Escape or P.
    pub pause_pressed: bool,
    /// W or Up.
    pub up_pressed: bool,
    /// S or Down.
    pub down_pressed: bool,
    /// A or Left.
    pub left_pressed: bool,
    /// D or Right.
    pub right_pressed: bool,
    /// Enter.
    pub enter_pressed: bool,
    /// Space.
    pub space_pressed: bool,
    /// The left mouse button.
    pub click_pressed: bool,
    /// Z.
    pub rewind_pressed: bool,
    /// Y.
    pub redo_pressed: bool,
    /// R.
    pub restart_pressed: bool,
    /// U or Minus.
    pub go_up_pressed: bool,
    /// Q.
    pub recall_pressed: bool,
    /// W or Up.
    pub up_held: bool,
    /// S or Down.
    pub down_held: bool,
    /// A or Left.
    pub left_held: bool,
    /// D or Right.
    pub right_held: bool,
    /// Space.
    pub space_held: bool,
    /// Either Shift.
    pub shift_held: bool,
}

/// What a frame of ride keys asks for, before the run itself reads them.
#[derive(Debug, Clone, Copy, PartialEq, Eq, Structural)]
pub enum RideCommand {
    /// The camera is still flying in: no control, and no bullet time.
    Held,
    /// The pause menu owns the keys; when set, warp to this minigame.
    PauseMenu { warp: Option<SourceGame> },
    /// The pause menu just opened.
    Paused,
    /// Ride back to the previous directory (Z).
    Rewind,
    /// Ride forward to the next directory again (Y).
    Redo,
    /// The ride reads its controls; bullet time while Shift is held.
    Ride { slow_motion: bool },
}

/// The decision the ride keys make, and the pause menu after them: in the
/// pause menu, up and down walk the warp list (wrapping both ways), escape or
/// P resumes, and Enter, Space or a click warps to the selected minigame.
/// Outside it, escape or P pauses, Z rewinds, Y redoes, and otherwise the ride
/// reads its controls.
pub open spec fn ride_frame(transition_active: bool, pause: PauseState, keys: RideKeys) -> (PauseState, RideCommand) {
    if transition_active {
        (pause, RideCommand::Held)
    } else if pause.paused {
        let count = SOURCE_GAME_COUNT as int;
        let after_up = if keys.up_pressed { ((pause.warp_index + count - 1) % count) } else { pause.warp_index as int };
        let after_down = if keys.down_pressed { (after_up + 1) % count } else { after_up };
        let warp = keys.enter_pressed || keys.space_pressed || keys.click_pressed;
        (
            PauseState { paused: !keys.pause_pressed, warp_index: after_down as usize },
            RideCommand::PauseMenu { warp: if warp { Some(spec_game_at(after_down)) } else { None } },
        )
    } else if keys.pause_pressed {
        (PauseState { paused: true, ..pause }, RideCommand::Paused)
    } else if keys.rewind_pressed {
        (pause, RideCommand::Rewind)
    } else if keys.redo_pressed {
        (pause, RideCommand::Redo)
    } else {
        (pause, RideCommand::Ride { slow_motion: keys.shift_held })
    }
}

/// Routes one frame of ride keys; see [`ride_frame`].
pub fn read_ride_keys(transition_active: bool, pause: &mut PauseState, keys: RideKeys) -> (command: RideCommand)
    requires
        old(pause).warp_index < SOURCE_GAME_COUNT,
    ensures
        (*final(pause), command) == ride_frame(transition_active, *old(pause), keys),
        final(pause).warp_index < SOURCE_GAME_COUNT,
{
    if transition_active {
        return RideCommand::Held;
    }
    if pause.paused {
        if keys.up_pressed {
            pause.warp_index = (pause.warp_index + SOURCE_GAME_COUNT - 1) % SOURCE_GAME_COUNT;
        }
        if keys.down_pressed {
            pause.warp_index = (pause.warp_index + 1) % SOURCE_GAME_COUNT;
        }
        if keys.pause_pressed {
            pause.paused = false;
        }
        let warp = keys.enter_pressed || keys.space_pressed || keys.click_pressed;
        let target = if warp {
            Some(game_at(pause.warp_index))
        } else {
            None
        };
        return RideCommand::PauseMenu { warp: target };
    }
    if keys.pause_pressed {
        pause.paused = true;
        return RideCommand::Paused;
    }
    if keys.rewind_pressed {
        return RideCommand::Rewind;
    }
    if keys.redo_pressed {
        return RideCommand::Redo;
    }
    RideCommand::Ride { slow_motion: keys.shift_held }
}

/// `1` for a key that is down, `0` for one that is up.
pub open spec fn key_value(down: bool) -> int {
    if down { 1 } else { 0 }
}

/// The controls a ride frame hands the minigames: a grid turn left or right,
/// the held east/west steer and north/south walk axes, the tapped hop axis
/// (positive for W or Up), held boost, and the throw, recall, restart and
/// go-up taps.
#[derive(Debug, Clone, Copy, PartialEq, Eq, Structural)]
pub struct GameControls {
    pub turn_left: bool,
    pub turn_right: bool,
    pub steer: i32,
    pub move_z: i32,
    pub hop_z: i32,
    pub boost: bool,
    pub throw: bool,
    pub recall: bool,
    pub restart: bool,
    pub go_up: bool,
}

/// The controls a frame of ride keys maps to.
pub open spec fn spec_game_controls(keys: RideKeys) -> GameControls {
    GameControls {
        turn_left: keys.left_pressed,
        turn_right: keys.right_pressed,
        steer: (key_value(keys.right_held) - key_value(keys.left_held)) as i32,
        move_z: (key_value(keys.down_held) - key_value(keys.up_held)) as i32,
        hop_z: (key_value(keys.up_pressed) - key_value(keys.down_pressed)) as i32,
        boost: keys.space_held || keys.up_held,
        throw: keys.space_pressed || keys.click_pressed,
        recall: keys.recall_pressed,
        restart: keys.restart_pressed,
        go_up: keys.go_up_pressed,
    }
}

fn key(down: bool) -> (value: i32)
    ensures
        value == key_value(down),
{
    if down { 1 } else { 0 }
}

/// Maps a frame of ride keys to the controls the minigames read.
pub fn game_controls(keys: RideKeys) -> (controls: GameControls)
    ensures
        controls == spec_game_controls(keys),
{
    GameControls {
        turn_left: keys.left_pressed,
        turn_right: keys.right_pressed,
        steer: key(keys.right_held) - key(keys.left_held),
        move_z: key(keys.down_held) - key(keys.up_held),
        hop_z: key(keys.up_pressed) - key(keys.down_pressed),
        boost: keys.space_held || keys.up_held,
        throw: keys.space_pressed || keys.click_pressed,
        recall: keys.recall_pressed,
        restart: keys.restart_pressed,
        go_up: keys.go_up_pressed,
    }
}

/// True when a run steers the shared bike grid: directories and documents
/// (no minigame), disc wars and snake always, the asteroid field only once it
/// has handed the bike back, and the off-grid games never.
pub open spec fn spec_drives_grid(game: Option<SourceGame>, field_active: bool) -> bool {
    match game {
        None => true,
        Some(SourceGame::DiscWars) | Some(SourceGame::Snake) => true,
        Some(SourceGame::Asteroids) => !field_active,
        _ => false,
    }
}

/// True when a run steers the shared bike grid.
pub fn drives_grid(game: Option<SourceGame>, field_active: bool) -> (drives: bool)
    ensures
        drives == spec_drives_grid(game, field_active),
{
    match game {
        Some(SourceGame::DiscWars) | Some(SourceGame::Snake) | None => true,
        Some(SourceGame::Asteroids) => !field_active,
        Some(SourceGame::Platformer) | Some(SourceGame::Breaker) | Some(SourceGame::Stealth)
        | Some(SourceGame::RiverSurfer) | Some(SourceGame::Galaga) | Some(SourceGame::PacMan)
        | Some(SourceGame::Columns) | Some(SourceGame::Tetris) | Some(SourceGame::Frogger)
        | Some(SourceGame::Qbert) | Some(SourceGame::Bomberman) | Some(SourceGame::Plinko) => false,
    }
}

/// Tetris reads A/D to slide, W to rotate, S held to soft-drop and Space or a
/// click to hard-drop: the arguments of `TetrisSim::set_input`.
pub fn tetris_controls(controls: GameControls) -> (input: TetrisInput)
    requires
        -1 <= controls.hop_z <= 1,
        -1 <= controls.move_z <= 1,
    ensures
        input == (TetrisInput {
            slide: (key_value(controls.turn_right) - key_value(controls.turn_left)) as i32,
            rotate: controls.hop_z > 0,
            soft: controls.move_z > 0,
            drop: controls.throw,
        }),
{
    TetrisInput {
        slide: key(controls.turn_right) - key(controls.turn_left),
        rotate: controls.hop_z > 0,
        soft: controls.move_z > 0,
        drop: controls.throw,
    }
}

/// Columns reads A/D to slide, W to rotate and Space or a click to drop.
pub fn columns_controls(controls: GameControls) -> (input: (i32, bool, bool))
    ensures
        input == ((key_value(controls.turn_right) - key_value(controls.turn_left)) as i32, controls.hop_z > 0, controls.throw),
{
    (key(controls.turn_right) - key(controls.turn_left), controls.hop_z > 0, controls.throw)
}

/// Frogger hops one cell per tap in any of the four directions; its rows count
/// from the start row, so a hop toward W is a step back in its Z.
pub fn frogger_hop(controls: GameControls) -> (hop: (i32, i32))
    requires
        -1 <= controls.hop_z <= 1,
    ensures
        hop == ((key_value(controls.turn_right) - key_value(controls.turn_left)) as i32, (-controls.hop_z) as i32),
{
    (key(controls.turn_right) - key(controls.turn_left), -controls.hop_z)
}

/// Q*bert hops diagonally; the camera looks down -Z, which mirrors X, so the
/// east and west taps swap.
pub fn qbert_hop(controls: GameControls) -> (hop: (i32, i32))
    ensures
        hop == ((key_value(controls.turn_left) - key_value(controls.turn_right)) as i32, controls.hop_z),
{
    (key(controls.turn_left) - key(controls.turn_right), controls.hop_z)
}

/// Bomberman walks while a direction is held (and only while it is walking),
/// and plants a bomb on Space or a click.
pub fn bomberman_controls(controls: GameControls, walking: bool) -> (act: (Option<(i32, i32)>, bool))
    ensures
        act.0 == (if (controls.steer != 0 || controls.move_z != 0) && walking {
            Some((controls.steer, controls.move_z))
        } else {
            None
        }),
        act.1 == controls.throw,
{
    let step = if (controls.steer != 0 || controls.move_z != 0) && walking {
        Some((controls.steer, controls.move_z))
    } else {
        None
    };
    (step, controls.throw)
}

/// The pause menu's warp list goes round: up then down (or down then up)
/// leaves the selection where it was, and the selection always names a game.
pub proof fn law_warp_list_wraps(pause: PauseState, keys: RideKeys)
    requires
        pause.paused,
        pause.warp_index < SOURCE_GAME_COUNT,
    ensures
        ride_frame(false, pause, keys).0.warp_index < SOURCE_GAME_COUNT,
        keys.up_pressed && keys.down_pressed ==> ride_frame(false, pause, keys).0.warp_index == pause.warp_index,
        keys.pause_pressed ==> !ride_frame(false, pause, keys).0.paused,
{
}

/// Pausing and resuming are one key: escape or P opens the pause menu from a
/// ride, and the same key in the menu closes it.
pub proof fn law_pause_key_toggles(pause: PauseState, keys: RideKeys)
    requires
        keys.pause_pressed,
        !pause.paused,
        pause.warp_index < SOURCE_GAME_COUNT,
    ensures
        ride_frame(false, pause, keys).0.paused,
        !ride_frame(false, ride_frame(false, pause, keys).0, keys).0.paused,
{
}

/// R restarts and Q recalls: the restart tap is exactly a press of R and the
/// recall tap exactly a press of Q, so pressing one of them never fires the
/// other, and changing either key alone leaves every other control as it was.
pub proof fn law_r_restarts_and_q_recalls(keys: RideKeys)
    ensures
        spec_game_controls(keys).restart == keys.restart_pressed,
        spec_game_controls(keys).recall == keys.recall_pressed,
        ({
            let flipped_r = RideKeys { restart_pressed: !keys.restart_pressed, ..keys };
            &&& spec_game_controls(flipped_r).restart != spec_game_controls(keys).restart
            &&& spec_game_controls(flipped_r) == (GameControls { restart: !spec_game_controls(keys).restart, ..spec_game_controls(keys) })
        }),
        ({
            let flipped_q = RideKeys { recall_pressed: !keys.recall_pressed, ..keys };
            &&& spec_game_controls(flipped_q).recall != spec_game_controls(keys).recall
            &&& spec_game_controls(flipped_q) == (GameControls { recall: !spec_game_controls(keys).recall, ..spec_game_controls(keys) })
        }),
{
}

} // verus!
