use raptor::menu::{
    handle_menu_input, menu_item_label, menu_line, note_screen, screen_items, InteractionMode,
    MenuAction, MenuKeys, MenuNavigationState, MenuScreen, MenuSettings, MenuState, VolumeChange,
};

fn keys() -> MenuKeys {
    MenuKeys { up: false, down: false, escape: false, left: false, right: false, activate: false }
}

fn settings() -> MenuSettings {
    MenuSettings {
        msaa: 4,
        bloom: true,
        scanlines: false,
        vignette: true,
        music_enabled: true,
        show_labels: true,
        show_fps: false,
    }
}

fn menu() -> MenuState {
    MenuState {
        mode: InteractionMode::MainMenu,
        screen: MenuScreen::Main,
        nav: MenuNavigationState::default(),
        settings: settings(),
    }
}

#[test]
fn up_from_the_first_row_wraps_to_the_last() {
    let mut state = menu();
    handle_menu_input(&mut state, MenuKeys { up: true, ..keys() });
    assert_eq!(state.nav.selected_index, 4);
    handle_menu_input(&mut state, MenuKeys { down: true, ..keys() });
    assert_eq!(state.nav.selected_index, 0);
}

#[test]
fn activating_the_first_row_rides_the_grid() {
    let mut state = menu();
    let commands = handle_menu_input(&mut state, MenuKeys { activate: true, ..keys() });
    assert!(commands.ride);
    assert_eq!(state.mode, InteractionMode::Lightcycle);
}

#[test]
fn the_second_row_opens_the_explorer_and_the_last_quits() {
    let mut state = menu();
    state.nav.selected_index = 1;
    let commands = handle_menu_input(&mut state, MenuKeys { activate: true, ..keys() });
    assert!(commands.explore && !commands.ride);
    assert_eq!(state.mode, InteractionMode::Explorer);

    let mut state = menu();
    state.nav.selected_index = 4;
    assert!(handle_menu_input(&mut state, MenuKeys { activate: true, ..keys() }).exit);
}

#[test]
fn escape_quits_from_main_and_backs_out_of_settings() {
    let mut state = menu();
    assert!(handle_menu_input(&mut state, MenuKeys { escape: true, ..keys() }).exit);

    let mut state = menu();
    state.screen = MenuScreen::Settings;
    state.nav.selected_index = 6;
    let commands = handle_menu_input(&mut state, MenuKeys { escape: true, ..keys() });
    assert!(!commands.exit);
    assert_eq!(state.screen, MenuScreen::Main);
    assert_eq!(state.nav.selected_index, 0);
}

#[test]
fn settings_rows_adjust_and_back_returns_to_their_row() {
    let mut state = menu();
    state.nav.selected_index = 2;
    handle_menu_input(&mut state, MenuKeys { activate: true, ..keys() });
    assert_eq!(state.screen, MenuScreen::Settings);
    assert_eq!(state.nav.selected_index, 0);

    // Right steps multisampling 4 -> 8, left walks it back.
    handle_menu_input(&mut state, MenuKeys { right: true, ..keys() });
    assert_eq!(state.settings.msaa, 8);
    handle_menu_input(&mut state, MenuKeys { left: true, ..keys() });
    assert_eq!(state.settings.msaa, 4);
    // Activating the row cycles it.
    handle_menu_input(&mut state, MenuKeys { activate: true, ..keys() });
    assert_eq!(state.settings.msaa, 8);
    handle_menu_input(&mut state, MenuKeys { activate: true, ..keys() });
    assert_eq!(state.settings.msaa, 1);

    state.nav.selected_index = 1;
    handle_menu_input(&mut state, MenuKeys { right: true, ..keys() });
    assert!(!state.settings.bloom);

    state.nav.selected_index = 5;
    let commands = handle_menu_input(&mut state, MenuKeys { left: true, activate: true, ..keys() });
    assert_eq!(commands.volume_adjust, Some(VolumeChange::Lower));
    assert!(commands.volume_cycle);

    state.nav.selected_index = 8;
    handle_menu_input(&mut state, MenuKeys { activate: true, ..keys() });
    assert_eq!(state.screen, MenuScreen::Main);
    assert_eq!(state.nav.selected_index, 2);
}

#[test]
fn the_controls_screen_leads_back_to_its_row() {
    let mut state = menu();
    state.nav.selected_index = 3;
    handle_menu_input(&mut state, MenuKeys { activate: true, ..keys() });
    assert_eq!(state.screen, MenuScreen::Controls);
    handle_menu_input(&mut state, MenuKeys { activate: true, ..keys() });
    assert_eq!(state.screen, MenuScreen::Main);
    assert_eq!(state.nav.selected_index, 3);
}

#[test]
fn menu_input_is_ignored_outside_the_menu() {
    let mut state = menu();
    state.mode = InteractionMode::Lightcycle;
    let before = state;
    let commands = handle_menu_input(&mut state, MenuKeys { activate: true, escape: true, up: true, ..keys() });
    assert_eq!(state, before);
    assert!(!commands.exit && !commands.ride);
}

#[test]
fn labels_show_the_current_settings() {
    let s = settings();
    assert_eq!(menu_item_label(MenuAction::ToggleMsaa, &s, "70"), "MSAA ANTI-ALIASING: [ 4x ]");
    assert_eq!(menu_item_label(MenuAction::ToggleBloom, &s, "70"), "HDR BLOOM GLOW: [ ENABLED ]");
    assert_eq!(menu_item_label(MenuAction::ToggleScanlines, &s, "70"), "CRT SCANLINES: [ DISABLED ]");
    assert_eq!(menu_item_label(MenuAction::VolumeUp, &s, "70"), "AUDIO VOLUME: [ < 70% > ]");
    let off = MenuSettings { msaa: 1, ..s };
    assert_eq!(menu_item_label(MenuAction::ToggleMsaa, &off, "0"), "MSAA ANTI-ALIASING: [ OFF (1x) ]");
    let odd = MenuSettings { msaa: 3, ..s };
    assert_eq!(menu_item_label(MenuAction::ToggleMsaa, &odd, "0"), "MSAA ANTI-ALIASING: [ CUSTOM ]");
    assert_eq!(menu_line("TERMINATE PROGRAM", true), "> TERMINATE PROGRAM <");
    assert_eq!(menu_line("TERMINATE PROGRAM", false), "  TERMINATE PROGRAM");
}

#[test]
fn each_screen_lists_its_rows() {
    assert_eq!(screen_items(MenuScreen::Main).len(), 5);
    let settings = screen_items(MenuScreen::Settings);
    assert_eq!(settings.len(), 9);
    assert_eq!(settings[5], ("AUDIO VOLUME", MenuAction::VolumeUp));
    assert_eq!(screen_items(MenuScreen::Controls), vec![("< BACK TO MAIN MENU", MenuAction::BackToMain)]);
}

#[test]
fn a_new_screen_starts_at_its_first_row() {
    let mut nav = MenuNavigationState { selected_index: 3, last_screen: MenuScreen::Main };
    assert!(!note_screen(&mut nav, MenuScreen::Main));
    assert_eq!(nav.selected_index, 3);
    assert!(note_screen(&mut nav, MenuScreen::Settings));
    assert_eq!(nav, MenuNavigationState { selected_index: 0, last_screen: MenuScreen::Settings });
}
