//! The main menu: which screen is up, which row is selected, what the keys do
//! to the render, interface and music settings, and the text of every row.
//!
//! The menu's decisions live here; the caller reads the keys, applies the
//! commands a frame returns (starting a ride, opening the explorer, quitting,
//! stepping the music volume) and draws the rows.

use vstd::prelude::*;

verus! {

/// What the program is showing.
#[derive(Debug, Clone, Copy, PartialEq, Eq, Structural)]
pub enum InteractionMode {
    MainMenu,
    Explorer,
    Lightcycle,
}

/// Active screen within the main menu.
#[derive(Debug, Clone, Copy, PartialEq, Eq, Structural)]
pub enum MenuScreen {
    Main,
    Settings,
    Controls,
}

impl Default for MenuScreen {
    fn default() -> (screen: Self)
        ensures
            screen == MenuScreen::Main,
    {
        MenuScreen::Main
    }
}

/// Navigation cursor state.
#[derive(Debug, Clone, Copy, PartialEq, Eq, Structural)]
pub struct MenuNavigationState {
    pub selected_index: usize,
    pub last_screen: MenuScreen,
}

impl Default for MenuNavigationState {
    fn default() -> (state: Self)
        ensures
            state.selected_index == 0,
            state.last_screen == MenuScreen::Main,
    {
        MenuNavigationState { selected_index: 0, last_screen: MenuScreen::Main }
    }
}

/// What a menu row does.
#[derive(Debug, Clone, Copy, PartialEq, Eq, Structural)]
pub enum MenuAction {
    // Main screen
    RideTheGrid,
    ExploreDirectory,
    OpenSettings,
    OpenControls,
    ExitProgram,
    // Settings screen
    ToggleMsaa,
    ToggleBloom,
    ToggleScanlines,
    ToggleVignette,
    ToggleMusic,
    VolumeDown,
    VolumeUp,
    ToggleLabels,
    ToggleFps,
    BackToMain,
}

/// The keys pressed this frame, as the menu reads them: up (Up or W), down
/// (Down or S), escape, left (Left or A), right (Right or D), and activate
/// (Enter or Space).
#[derive(Debug, Clone, Copy, PartialEq, Eq, Structural)]
pub struct MenuKeys {
    pub up: bool,
    pub down: bool,
    pub escape: bool,
    pub left: bool,
    pub right: bool,
    pub activate: bool,
}

/// The settings the menu edits: multisampling, the post effects, the music
/// switch and the two overlays.
#[derive(Debug, Clone, Copy, PartialEq, Eq, Structural)]
pub struct MenuSettings {
    pub msaa: u32,
    pub bloom: bool,
    pub scanlines: bool,
    pub vignette: bool,
    pub music_enabled: bool,
    pub show_labels: bool,
    pub show_fps: bool,
}

/// A change to the music volume, which the caller applies to its level in
/// `0.0..=1.0`.
#[derive(Debug, Clone, Copy, PartialEq, Eq, Structural)]
pub enum VolumeChange {
    /// A tenth quieter, stopping at silence.
    Lower,
    /// A tenth louder, stopping at full.
    Raise,
    /// A fifth louder, wrapping to silence once past full.
    Cycle,
}

/// What a frame of menu input asks the caller to do, beyond the state it
/// changed: quit, start riding, open the explorer, and up to two volume steps
/// in order.
#[derive(Debug, Clone, Copy, PartialEq, Eq, Structural)]
pub struct MenuCommands {
    pub exit: bool,
    pub ride: bool,
    pub explore: bool,
    pub volume_adjust: Option<VolumeChange>,
    pub volume_cycle: bool,
}

impl MenuCommands {
    /// A frame that asks for nothing.
    pub open spec fn none() -> MenuCommands {
        MenuCommands { exit: false, ride: false, explore: false, volume_adjust: None, volume_cycle: false }
    }
}

/// The menu state one frame edits.
#[derive(Debug, Clone, Copy, PartialEq, Eq, Structural)]
pub struct MenuState {
    pub mode: InteractionMode,
    pub screen: MenuScreen,
    pub nav: MenuNavigationState,
    pub settings: MenuSettings,
}

/// Number of rows on a screen.
pub open spec fn spec_item_count(screen: MenuScreen) -> int {
    match screen {
        MenuScreen::Main => 5,
        MenuScreen::Settings => 9,
        MenuScreen::Controls => 1,
    }
}

/// Number of rows on a screen.
pub fn item_count(screen: MenuScreen) -> (count: usize)
    ensures
        count == spec_item_count(screen),
{
    match screen {
        MenuScreen::Main => 5,
        MenuScreen::Settings => 9,
        MenuScreen::Controls => 1,
    }
}

/// The selection after the up and down keys: up steps back and wraps from the
/// first row to the last, down steps on and wraps from the last row to the first.
pub open spec fn navigated(selected: int, count: int, keys: MenuKeys) -> int {
    let after_up = if keys.up { if selected > 0 { selected - 1 } else { count - 1 } } else { selected };
    if keys.down { if after_up + 1 < count { after_up + 1 } else { 0 } } else { after_up }
}

/// Multisampling after a left or right press: right walks 1, 2, 4, 8 and back
/// to 1, left walks it the other way, and any other level resets to 1.
pub open spec fn msaa_stepped(msaa: u32, right: bool) -> u32 {
    if msaa == 1 {
        if right { 2 } else { 8 }
    } else if msaa == 2 {
        if right { 4 } else { 1 }
    } else if msaa == 4 {
        if right { 8 } else { 2 }
    } else if msaa == 8 {
        if right { 1 } else { 4 }
    } else {
        1
    }
}

/// Multisampling after activating its row: 1, 2, 4, 8 and back to 1.
pub open spec fn msaa_cycled(msaa: u32) -> u32 {
    if msaa == 1 {
        2
    } else if msaa == 2 {
        4
    } else if msaa == 4 {
        8
    } else {
        1
    }
}

/// The settings after toggling settings row `index`; rows without a switch
/// leave them as they are.
pub open spec fn toggled(s: MenuSettings, index: int) -> MenuSettings {
    if index == 1 {
        MenuSettings { bloom: !s.bloom, ..s }
    } else if index == 2 {
        MenuSettings { scanlines: !s.scanlines, ..s }
    } else if index == 3 {
        MenuSettings { vignette: !s.vignette, ..s }
    } else if index == 4 {
        MenuSettings { music_enabled: !s.music_enabled, ..s }
    } else if index == 6 {
        MenuSettings { show_labels: !s.show_labels, ..s }
    } else if index == 7 {
        MenuSettings { show_fps: !s.show_fps, ..s }
    } else {
        s
    }
}

/// True when left or right adjust the selected row this frame: only on the
/// settings screen.
pub open spec fn adjusting(screen: MenuScreen, keys: MenuKeys) -> bool {
    screen == MenuScreen::Settings && (keys.left || keys.right)
}

/// The settings after left or right on settings row `selected`: multisampling
/// steps, a switch flips, the volume row leaves them to the volume command.
pub open spec fn adjusted(s: MenuSettings, screen: MenuScreen, selected: int, keys: MenuKeys) -> MenuSettings {
    if !adjusting(screen, keys) {
        s
    } else if selected == 0 {
        MenuSettings { msaa: msaa_stepped(s.msaa, keys.right), ..s }
    } else {
        toggled(s, selected)
    }
}

/// The volume step left or right asks for on the volume row: left lowers
/// (and wins when both are pressed), right raises.
pub open spec fn volume_adjust(screen: MenuScreen, selected: int, keys: MenuKeys) -> Option<VolumeChange> {
    if adjusting(screen, keys) && selected == 5 {
        Some(if keys.left { VolumeChange::Lower } else { VolumeChange::Raise })
    } else {
        None
    }
}

/// Running row `selected` of the menu's current screen. Main: ride, explore,
/// open the settings or the controls screen at their first row, or quit.
/// Settings: cycle multisampling, cycle the volume, go back to the main
/// screen with its settings row selected, or flip the row's switch. Controls:
/// back to the main screen with its controls row selected.
pub open spec fn activated(state: MenuState, commands: MenuCommands) -> (MenuState, MenuCommands) {
    let selected = state.nav.selected_index as int;
    let at = |screen: MenuScreen, row: usize|
        MenuState { screen, nav: MenuNavigationState { selected_index: row, ..state.nav }, ..state };
    if state.screen == MenuScreen::Main {
        if selected == 0 {
            (MenuState { mode: InteractionMode::Lightcycle, ..state }, MenuCommands { ride: true, ..commands })
        } else if selected == 1 {
            (MenuState { mode: InteractionMode::Explorer, ..state }, MenuCommands { explore: true, ..commands })
        } else if selected == 2 {
            (at(MenuScreen::Settings, 0), commands)
        } else if selected == 3 {
            (at(MenuScreen::Controls, 0), commands)
        } else if selected == 4 {
            (state, MenuCommands { exit: true, ..commands })
        } else {
            (state, commands)
        }
    } else if state.screen == MenuScreen::Settings {
        if selected == 0 {
            (MenuState { settings: MenuSettings { msaa: msaa_cycled(state.settings.msaa), ..state.settings }, ..state }, commands)
        } else if selected == 5 {
            (state, MenuCommands { volume_cycle: true, ..commands })
        } else if selected == 8 {
            (at(MenuScreen::Main, 2), commands)
        } else {
            (MenuState { settings: toggled(state.settings, selected), ..state }, commands)
        }
    } else {
        (at(MenuScreen::Main, 3), commands)
    }
}

/// One frame of menu input. Outside the menu nothing happens. Otherwise the
/// selection moves with up and down; escape goes back to the main screen (its
/// first row) or, on the main screen, quits, and ends the frame; left and
/// right adjust the selected settings row; activate runs the selected row.
pub open spec fn menu_frame(state: MenuState, keys: MenuKeys) -> (MenuState, MenuCommands) {
    let none = MenuCommands::none();
    if state.mode != InteractionMode::MainMenu {
        (state, none)
    } else {
        let count = spec_item_count(state.screen);
        let selected = navigated(state.nav.selected_index as int, count, keys);
        let moved = MenuState { nav: MenuNavigationState { selected_index: selected as usize, ..state.nav }, ..state };
        if keys.escape {
            if state.screen != MenuScreen::Main {
                (MenuState { screen: MenuScreen::Main, nav: MenuNavigationState { selected_index: 0, ..state.nav }, ..state }, none)
            } else {
                (moved, MenuCommands { exit: true, ..none })
            }
        } else {
            let after = MenuState { settings: adjusted(state.settings, state.screen, selected, keys), ..moved };
            let commands = MenuCommands { volume_adjust: volume_adjust(state.screen, selected, keys), ..none };
            if keys.activate {
                activated(after, commands)
            } else {
                (after, commands)
            }
        }
    }
}

/// The settings after toggling settings row `index`.
fn toggle_setting(settings: &mut MenuSettings, index: usize)
    ensures
        *final(settings) == toggled(*old(settings), index as int),
{
    match index {
        1 => settings.bloom = !settings.bloom,
        2 => settings.scanlines = !settings.scanlines,
        3 => settings.vignette = !settings.vignette,
        4 => settings.music_enabled = !settings.music_enabled,
        6 => settings.show_labels = !settings.show_labels,
        7 => settings.show_fps = !settings.show_fps,
        _ => {},
    }
}

/// Moves the selection for the up and down keys.
fn navigate(nav: &mut MenuNavigationState, count: usize, keys: MenuKeys)
    requires
        old(nav).selected_index < usize::MAX,
        count >= 1,
    ensures
        final(nav).selected_index == navigated(old(nav).selected_index as int, count as int, keys),
        final(nav).last_screen == old(nav).last_screen,
{
    // Up / W
    if keys.up {
        if nav.selected_index > 0 {
            nav.selected_index = nav.selected_index - 1;
        } else {
            nav.selected_index = count - 1;
        }
    }
    // Down / S
    if keys.down {
        if nav.selected_index + 1 < count {
            nav.selected_index = nav.selected_index + 1;
        } else {
            nav.selected_index = 0;
        }
    }
}

/// Applies left and right to the selected row, returning the volume step they ask for.
fn adjust(settings: &mut MenuSettings, screen: MenuScreen, selected: usize, keys: MenuKeys) -> (volume: Option<VolumeChange>)
    ensures
        *final(settings) == adjusted(*old(settings), screen, selected as int, keys),
        volume == volume_adjust(screen, selected as int, keys),
{
    if screen == MenuScreen::Settings && (keys.left || keys.right) {
        if selected == 0 {
            settings.msaa = match settings.msaa {
                1 => if keys.right { 2 } else { 8 },
                2 => if keys.right { 4 } else { 1 },
                4 => if keys.right { 8 } else { 2 },
                8 => if keys.right { 1 } else { 4 },
                _ => 1,
            };
            None
        } else if selected == 5 {
            Some(if keys.left { VolumeChange::Lower } else { VolumeChange::Raise })
        } else {
            toggle_setting(settings, selected);
            None
        }
    } else {
        None
    }
}

/// Runs the selected row.
fn activate(state: &mut MenuState, commands: &mut MenuCommands)
    ensures
        (*final(state), *final(commands)) == activated(*old(state), *old(commands)),
{
    let selected = state.nav.selected_index;
    match state.screen {
        MenuScreen::Main => {
            if selected == 0 {
                commands.ride = true;
                state.mode = InteractionMode::Lightcycle;
            } else if selected == 1 {
                commands.explore = true;
                state.mode = InteractionMode::Explorer;
            } else if selected == 2 {
                state.screen = MenuScreen::Settings;
                state.nav.selected_index = 0;
            } else if selected == 3 {
                state.screen = MenuScreen::Controls;
                state.nav.selected_index = 0;
            } else if selected == 4 {
                commands.exit = true;
            }
        },
        MenuScreen::Settings => {
            if selected == 0 {
                state.settings.msaa = match state.settings.msaa {
                    1 => 2,
                    2 => 4,
                    4 => 8,
                    _ => 1,
                };
            } else if selected == 5 {
                commands.volume_cycle = true;
            } else if selected == 8 {
                state.screen = MenuScreen::Main;
                state.nav.selected_index = 2;
            } else {
                toggle_setting(&mut state.settings, selected);
            }
        },
        MenuScreen::Controls => {
            state.screen = MenuScreen::Main;
            state.nav.selected_index = 3;
        },
    }
}

/// Handles one frame of keyboard navigation and runs the selected row; see
/// [`menu_frame`].
pub fn handle_menu_input(state: &mut MenuState, keys: MenuKeys) -> (commands: MenuCommands)
    requires
        old(state).nav.selected_index < usize::MAX,
    ensures
        (*final(state), commands) == menu_frame(*old(state), keys),
{
    let mut commands = MenuCommands { exit: false, ride: false, explore: false, volume_adjust: None, volume_cycle: false };
    if state.mode != InteractionMode::MainMenu {
        return commands;
    }
    let count = item_count(state.screen);
    navigate(&mut state.nav, count, keys);

    if keys.escape {
        if state.screen != MenuScreen::Main {
            state.screen = MenuScreen::Main;
            state.nav.selected_index = 0;
        } else {
            commands.exit = true;
        }
        return commands;
    }

    let selected = state.nav.selected_index;
    let screen = state.screen;
    commands.volume_adjust = adjust(&mut state.settings, screen, selected, keys);
    if keys.activate {
        activate(state, &mut commands);
    }
    commands
}

/// The text of a switch's state.
pub open spec fn switch_text(on: bool) -> Seq<char> {
    if on { "ENABLED"@ } else { "DISABLED"@ }
}

/// The text of a multisampling level.
pub open spec fn msaa_text(msaa: u32) -> Seq<char> {
    if msaa == 1 {
        "OFF (1x)"@
    } else if msaa == 2 {
        "2x"@
    } else if msaa == 4 {
        "4x"@
    } else if msaa == 8 {
        "8x"@
    } else if msaa == 0 {
        "OFF"@
    } else {
        "CUSTOM"@
    }
}

/// The label of a row: what it does and, for a setting, its current value.
/// `volume` is the volume already written as a whole percentage.
pub open spec fn label_text(action: MenuAction, s: MenuSettings, volume: Seq<char>) -> Seq<char> {
    match action {
        MenuAction::RideTheGrid => "RIDE THE GRID (LIGHTCYCLE)"@,
        MenuAction::ExploreDirectory => "EXPLORE DIRECTORY (3D TREE)"@,
        MenuAction::OpenSettings => "SYSTEM CONFIGURATION"@,
        MenuAction::OpenControls => "FLIGHT MANUAL & CONTROLS"@,
        MenuAction::ExitProgram => "TERMINATE PROGRAM"@,
        MenuAction::ToggleMsaa => "MSAA ANTI-ALIASING: [ "@ + msaa_text(s.msaa) + " ]"@,
        MenuAction::ToggleBloom => "HDR BLOOM GLOW: [ "@ + switch_text(s.bloom) + " ]"@,
        MenuAction::ToggleScanlines => "CRT SCANLINES: [ "@ + switch_text(s.scanlines) + " ]"@,
        MenuAction::ToggleVignette => "VIGNETTE POST-PROCESS: [ "@ + switch_text(s.vignette) + " ]"@,
        MenuAction::ToggleMusic => "PROCEDURAL SYNTH MUSIC: [ "@ + switch_text(s.music_enabled) + " ]"@,
        MenuAction::VolumeDown | MenuAction::VolumeUp => "AUDIO VOLUME: [ < "@ + volume + "% > ]"@,
        MenuAction::ToggleLabels => "FILE LABELS: [ "@ + switch_text(s.show_labels) + " ]"@,
        MenuAction::ToggleFps => "FPS COUNTER: [ "@ + switch_text(s.show_fps) + " ]"@,
        MenuAction::BackToMain => "< BACK TO MAIN MENU"@,
    }
}

fn switch_label(on: bool) -> (text: &'static str)
    ensures
        text@ == switch_text(on),
{
    if on { "ENABLED" } else { "DISABLED" }
}

fn msaa_label(msaa: u32) -> (text: &'static str)
    ensures
        text@ == msaa_text(msaa),
{
    match msaa {
        1 => "OFF (1x)",
        2 => "2x",
        4 => "4x",
        8 => "8x",
        n => if n == 0 { "OFF" } else { "CUSTOM" },
    }
}

/// `head`, the text of `value`, then `tail`.
fn bracketed(head: &str, value: &str, tail: &str) -> (text: String)
    ensures
        text@ == head@ + value@ + tail@,
{
    let mut text = String::from_str(head);
    text.append(value);
    text.append(tail);
    text
}

/// The label of a row, given the volume already written as a whole percentage.
pub fn menu_item_label(action: MenuAction, settings: &MenuSettings, volume_percent: &str) -> (label: String)
    ensures
        label@ == label_text(action, *settings, volume_percent@),
{
    match action {
        MenuAction::RideTheGrid => String::from_str("RIDE THE GRID (LIGHTCYCLE)"),
        MenuAction::ExploreDirectory => String::from_str("EXPLORE DIRECTORY (3D TREE)"),
        MenuAction::OpenSettings => String::from_str("SYSTEM CONFIGURATION"),
        MenuAction::OpenControls => String::from_str("FLIGHT MANUAL & CONTROLS"),
        MenuAction::ExitProgram => String::from_str("TERMINATE PROGRAM"),
        MenuAction::ToggleMsaa => bracketed("MSAA ANTI-ALIASING: [ ", msaa_label(settings.msaa), " ]"),
        MenuAction::ToggleBloom => bracketed("HDR BLOOM GLOW: [ ", switch_label(settings.bloom), " ]"),
        MenuAction::ToggleScanlines => bracketed("CRT SCANLINES: [ ", switch_label(settings.scanlines), " ]"),
        MenuAction::ToggleVignette => bracketed("VIGNETTE POST-PROCESS: [ ", switch_label(settings.vignette), " ]"),
        MenuAction::ToggleMusic => bracketed("PROCEDURAL SYNTH MUSIC: [ ", switch_label(settings.music_enabled), " ]"),
        MenuAction::VolumeDown | MenuAction::VolumeUp => bracketed("AUDIO VOLUME: [ < ", volume_percent, "% > ]"),
        MenuAction::ToggleLabels => bracketed("FILE LABELS: [ ", switch_label(settings.show_labels), " ]"),
        MenuAction::ToggleFps => bracketed("FPS COUNTER: [ ", switch_label(settings.show_fps), " ]"),
        MenuAction::BackToMain => String::from_str("< BACK TO MAIN MENU"),
    }
}

/// The line a row shows: marked with `> ` and ` <` when selected, indented
/// by two spaces otherwise.
pub fn menu_line(label: &str, selected: bool) -> (line: String)
    ensures
        selected ==> line@ == "> "@ + label@ + " <"@,
        !selected ==> line@ == "  "@ + label@,
{
    if selected {
        bracketed("> ", label, " <")
    } else {
        let mut line = String::from_str("  ");
        line.append(label);
        line
    }
}

/// The rows of a screen, top to bottom: the text a row is spawned with, and
/// what it does. The controls screen's manual is text, not a row; its only row
/// leads back.
pub open spec fn spec_screen_items(screen: MenuScreen) -> Seq<(Seq<char>, MenuAction)> {
    match screen {
        MenuScreen::Main => seq![
            ("RIDE THE GRID (LIGHTCYCLE)"@, MenuAction::RideTheGrid),
            ("EXPLORE DIRECTORY (3D TREE)"@, MenuAction::ExploreDirectory),
            ("SYSTEM CONFIGURATION"@, MenuAction::OpenSettings),
            ("FLIGHT MANUAL & CONTROLS"@, MenuAction::OpenControls),
            ("TERMINATE PROGRAM"@, MenuAction::ExitProgram),
        ],
        MenuScreen::Settings => seq![
            ("MSAA ANTI-ALIASING"@, MenuAction::ToggleMsaa),
            ("HDR BLOOM GLOW"@, MenuAction::ToggleBloom),
            ("CRT SCANLINES"@, MenuAction::ToggleScanlines),
            ("VIGNETTE POST-PROCESS"@, MenuAction::ToggleVignette),
            ("PROCEDURAL SYNTH MUSIC"@, MenuAction::ToggleMusic),
            ("AUDIO VOLUME"@, MenuAction::VolumeUp),
            ("FILE LABELS"@, MenuAction::ToggleLabels),
            ("FPS COUNTER"@, MenuAction::ToggleFps),
            ("< BACK TO MAIN MENU"@, MenuAction::BackToMain),
        ],
        MenuScreen::Controls => seq![("< BACK TO MAIN MENU"@, MenuAction::BackToMain)],
    }
}

/// The rows of a screen, top to bottom.
pub fn screen_items(screen: MenuScreen) -> (items: Vec<(&'static str, MenuAction)>)
    ensures
        items@.len() == spec_screen_items(screen).len(),
        items@.len() == spec_item_count(screen),
        forall|i: int| 0 <= i < items@.len() ==> (#[trigger] items@[i]).0@ == spec_screen_items(screen)[i].0 && items@[i].1 == spec_screen_items(screen)[i].1,
{
    let mut items: Vec<(&'static str, MenuAction)> = Vec::new();
    match screen {
        MenuScreen::Main => {
            items.push(("RIDE THE GRID (LIGHTCYCLE)", MenuAction::RideTheGrid));
            items.push(("EXPLORE DIRECTORY (3D TREE)", MenuAction::ExploreDirectory));
            items.push(("SYSTEM CONFIGURATION", MenuAction::OpenSettings));
            items.push(("FLIGHT MANUAL & CONTROLS", MenuAction::OpenControls));
            items.push(("TERMINATE PROGRAM", MenuAction::ExitProgram));
        },
        MenuScreen::Settings => {
            items.push(("MSAA ANTI-ALIASING", MenuAction::ToggleMsaa));
            items.push(("HDR BLOOM GLOW", MenuAction::ToggleBloom));
            items.push(("CRT SCANLINES", MenuAction::ToggleScanlines));
            items.push(("VIGNETTE POST-PROCESS", MenuAction::ToggleVignette));
            items.push(("PROCEDURAL SYNTH MUSIC", MenuAction::ToggleMusic));
            items.push(("AUDIO VOLUME", MenuAction::VolumeUp));
            items.push(("FILE LABELS", MenuAction::ToggleLabels));
            items.push(("FPS COUNTER", MenuAction::ToggleFps));
            items.push(("< BACK TO MAIN MENU", MenuAction::BackToMain));
        },
        MenuScreen::Controls => {
            items.push(("< BACK TO MAIN MENU", MenuAction::BackToMain));
        },
    }
    items
}

/// What the display does when the screen has changed since it last drew: it
/// starts the new screen at its first row and remembers the screen.
pub fn note_screen(nav: &mut MenuNavigationState, screen: MenuScreen) -> (changed: bool)
    ensures
        changed == (screen != old(nav).last_screen),
        changed ==> *final(nav) == (MenuNavigationState { selected_index: 0, last_screen: screen }),
        !changed ==> *final(nav) == *old(nav),
{
    if screen != nav.last_screen {
        nav.last_screen = screen;
        nav.selected_index = 0;
        true
    } else {
        false
    }
}

/// The selection stays on a row of the screen shown: a frame that starts on a
/// row of its screen ends on a row of the screen it shows.
pub proof fn law_selection_stays_on_the_screen(state: MenuState, keys: MenuKeys)
    requires
        (state.nav.selected_index as int) < spec_item_count(state.screen),
    ensures
        (menu_frame(state, keys).0.nav.selected_index as int) < spec_item_count(menu_frame(state, keys).0.screen),
{
}

/// Up then down, on one screen, comes back to the same row.
pub proof fn law_up_then_down_returns(selected: int, count: int)
    requires
        0 <= selected < count,
    ensures
        navigated(
            navigated(selected, count, MenuKeys { up: true, down: false, escape: false, left: false, right: false, activate: false }),
            count,
            MenuKeys { up: false, down: true, escape: false, left: false, right: false, activate: false },
        ) == selected,
{
}

/// Multisampling only ever takes the levels 1, 2, 4 and 8, and a right press
/// undoes a left one and the other way round.
pub proof fn law_msaa_steps_are_inverse(msaa: u32, right: bool)
    ensures
        msaa_stepped(msaa, right) == 1 || msaa_stepped(msaa, right) == 2 || msaa_stepped(msaa, right) == 4 || msaa_stepped(msaa, right) == 8,
        msaa_cycled(msaa) == 1 || msaa_cycled(msaa) == 2 || msaa_cycled(msaa) == 4 || msaa_cycled(msaa) == 8,
        (msaa == 1 || msaa == 2 || msaa == 4 || msaa == 8) ==> msaa_stepped(msaa_stepped(msaa, right), !right) == msaa,
        (msaa == 1 || msaa == 2 || msaa == 4 || msaa == 8) ==> msaa_cycled(msaa) == msaa_stepped(msaa, true),
{
}

/// Outside the menu a frame of menu input changes nothing and asks for nothing.
pub proof fn law_menu_is_inert_outside_the_menu(state: MenuState, keys: MenuKeys)
    requires
        state.mode != InteractionMode::MainMenu,
    ensures
        menu_frame(state, keys) == (state, MenuCommands::none()),
{
}

/// Every switch row of the settings screen flips the switch its own label
/// names: activating it, or pressing left or right on it, changes that row's
/// label and leaves the label of every other row, and so every other setting
/// it shows, as it was.
pub proof fn law_switch_rows_flip_the_switch_they_name(state: MenuState, keys: MenuKeys, volume: Seq<char>)
    requires
        state.mode == InteractionMode::MainMenu,
        state.screen == MenuScreen::Settings,
        1 <= state.nav.selected_index <= 7,
        state.nav.selected_index != 5,
        !keys.up,
        !keys.down,
        !keys.escape,
        keys.activate != (keys.left || keys.right),
    ensures
        ({
            let rows = spec_screen_items(MenuScreen::Settings);
            let after = menu_frame(state, keys).0.settings;
            let row = state.nav.selected_index as int;
            &&& label_text(rows[row].1, after, volume) != label_text(rows[row].1, state.settings, volume)
            &&& forall|j: int|
                0 <= j < rows.len() && j != row ==> label_text(#[trigger] rows[j].1, after, volume) == label_text(
                    rows[j].1,
                    state.settings,
                    volume,
                )
            &&& after.msaa == state.settings.msaa
        }),
{
    reveal_strlit("ENABLED");
    reveal_strlit("DISABLED");
    let rows = spec_screen_items(MenuScreen::Settings);
    let after = menu_frame(state, keys).0.settings;
    let row = state.nav.selected_index as int;
    assert(switch_text(true).len() != switch_text(false).len());
    assert(label_text(rows[row].1, after, volume).len() != label_text(rows[row].1, state.settings, volume).len());
}

} // verus!
