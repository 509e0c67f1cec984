use acso7::history::{DEFAULT_TIER, TIER_COUNT};
use acso7::input::Input;
use acso7::nav::{
    menu, ColonistsScreen, DebugScreen, LoadScreen, MenuItem, NewWorldScreen, PodsScreen,
    ReactorScreen, Request, ResourceScreen, ScreenId, ShipFocus, TitleScreen, UiState,
};
use acso7::popup::{route_input, PopupState};
use acso7::reactor::ReactorMode;
use acso7::theme::Theme;

fn key(c: char) -> Input {
    Input::Char(c)
}

#[test]
fn renders_resource_screen_with_history() {
    let mut ui = UiState::new();
    ui.enter_ship();
    assert_eq!(ui.current_screen, ScreenId::Pods);
    assert_eq!(ui.on_input(Input::Tab, 0, 1000), Request::Nothing);
    assert_eq!(ui.ship_focus, ShipFocus::Resources);
    ui.on_input(Input::ArrowDown, 0, 1000);
    assert_eq!(ui.current_screen, ScreenId::Resource);
    assert_eq!(ui.resource_selected, 1);
    ui.on_input(key('-'), 0, 1000);
    assert_eq!(ui.history_tier, DEFAULT_TIER + 1);
}

#[test]
fn console_starts_on_the_title() {
    let ui = UiState::new();
    assert_eq!(ui.current_screen, ScreenId::Title);
    assert_eq!(ui.ship_focus, ShipFocus::Systems);
    assert_eq!(ui.history_tier, DEFAULT_TIER);
    assert!(ui.new_world_name.is_empty());
}

#[test]
fn title_menu_offers_continue_only_with_saves() {
    assert_eq!(menu(false), vec![MenuItem::New, MenuItem::Quit]);
    assert_eq!(menu(true), vec![MenuItem::Continue, MenuItem::Load, MenuItem::New, MenuItem::Quit]);
    assert_eq!(MenuItem::Load.label(), "LOAD GAME");
}

#[test]
fn title_menu_wraps_and_enters_screens() {
    let mut ui = UiState::new();
    assert_eq!(TitleScreen::on_input(&mut ui, Input::ArrowUp, 2), Request::Nothing);
    assert_eq!(ui.menu_selected, 3);
    TitleScreen::on_input(&mut ui, Input::ArrowDown, 2);
    assert_eq!(ui.menu_selected, 0);
    assert_eq!(TitleScreen::on_input(&mut ui, Input::Enter, 2), Request::ContinueLatest);
    ui.menu_selected = 1;
    assert_eq!(TitleScreen::on_input(&mut ui, Input::Enter, 2), Request::RefreshWorlds);
    assert_eq!(ui.current_screen, ScreenId::Load);
    assert_eq!(ui.menu_selected, 0);
    assert_eq!(TitleScreen::on_input(&mut ui, key('q'), 2), Request::Quit);
}

#[test]
fn new_game_clears_the_name_and_quit_quits() {
    let mut ui = UiState::new();
    ui.new_world_name = "old".to_string();
    assert_eq!(TitleScreen::on_input(&mut ui, Input::Enter, 0), Request::Nothing);
    assert_eq!(ui.current_screen, ScreenId::NewWorld);
    assert!(ui.new_world_name.is_empty());
    let mut ui = UiState::new();
    ui.menu_selected = 1;
    assert_eq!(TitleScreen::on_input(&mut ui, Input::Enter, 0), Request::Quit);
}

#[test]
fn load_screen_selects_and_loads() {
    let mut ui = UiState::new();
    ui.current_screen = ScreenId::Load;
    assert_eq!(LoadScreen::on_input(&mut ui, Input::ArrowUp, 3), Request::Nothing);
    assert_eq!(ui.menu_selected, 2);
    assert_eq!(LoadScreen::on_input(&mut ui, Input::Enter, 3), Request::LoadWorld(2));
    assert_eq!(LoadScreen::on_input(&mut ui, Input::Esc, 3), Request::RefreshWorldsWithIntro);
    assert_eq!(ui.current_screen, ScreenId::Title);
    assert_eq!(ui.menu_selected, 0);
}

#[test]
fn empty_load_screen_only_goes_back() {
    let mut ui = UiState::new();
    ui.current_screen = ScreenId::Load;
    assert_eq!(LoadScreen::on_input(&mut ui, Input::Enter, 0), Request::Nothing);
    assert_eq!(ui.current_screen, ScreenId::Load);
    assert_eq!(LoadScreen::on_input(&mut ui, Input::Esc, 0), Request::RefreshWorldsWithIntro);
    assert_eq!(ui.current_screen, ScreenId::Title);
}

#[test]
fn naming_a_ship() {
    let mut ui = UiState::new();
    ui.current_screen = ScreenId::NewWorld;
    assert_eq!(NewWorldScreen::on_input(&mut ui, Input::Enter, ), Request::Nothing);
    for c in "  Nostromo ".chars() {
        NewWorldScreen::on_input(&mut ui, key(c));
    }
    assert_eq!(ui.new_world_name, "  Nostromo ");
    NewWorldScreen::on_input(&mut ui, Input::Backspace);
    assert_eq!(ui.new_world_name, "  Nostromo");
    assert_eq!(NewWorldScreen::on_input(&mut ui, Input::Enter), Request::CreateWorld);
    assert_eq!(ui.entered_world_name(), "Nostromo");
    ui.enter_ship();
    assert_eq!(ui.current_screen, ScreenId::Pods);
    assert_eq!(ui.system_selected, 1);
}

#[test]
fn ship_names_stop_at_thirty_two_characters() {
    let mut ui = UiState::new();
    ui.current_screen = ScreenId::NewWorld;
    for _ in 0..40 {
        NewWorldScreen::on_input(&mut ui, key('é'));
    }
    assert_eq!(ui.new_world_name.chars().count(), 32);
    let mut ui = UiState::new();
    NewWorldScreen::on_input(&mut ui, Input::Backspace);
    assert!(ui.new_world_name.is_empty());
}

#[test]
fn blank_names_create_nothing() {
    let mut ui = UiState::new();
    ui.current_screen = ScreenId::NewWorld;
    NewWorldScreen::on_input(&mut ui, key(' '));
    NewWorldScreen::on_input(&mut ui, key('\t'));
    assert_eq!(NewWorldScreen::on_input(&mut ui, Input::Enter), Request::Nothing);
    assert_eq!(ui.entered_world_name(), "");
}

#[test]
fn shell_keys() {
    let mut ui = UiState::new();
    ui.enter_ship();
    assert_eq!(ui.on_input(key(' '), 0, 10), Request::TogglePause);
    assert_eq!(ui.on_input(key('?'), 0, 10), Request::ShowHelp(ScreenId::Pods));
    assert_eq!(ui.on_input(key('q'), 0, 10), Request::Quit);
    assert_eq!(ui.on_input(key('r'), 0, 10), Request::Nothing);
    assert_eq!(ui.current_screen, ScreenId::Reactor);
    assert_eq!(ui.system_selected, 0);
    assert_eq!(ui.on_input(key('m'), 0, 10), Request::ReactorInput(key('m')));
    ui.on_input(Input::ArrowDown, 0, 10);
    assert_eq!(ui.current_screen, ScreenId::Pods);
    ui.on_input(Input::ArrowDown, 0, 10);
    assert_eq!(ui.current_screen, ScreenId::Reactor);
    ui.on_input(Input::ArrowUp, 0, 10);
    assert_eq!(ui.current_screen, ScreenId::Pods);
    assert_eq!(ui.on_input(Input::Esc, 0, 10), Request::ExitToTitle);
    assert_eq!(ui.current_screen, ScreenId::Pods);
}

#[test]
fn resource_panel_wraps_and_returns() {
    let mut ui = UiState::new();
    ui.enter_ship();
    ui.on_input(Input::ArrowRight, 0, 10);
    assert_eq!(ui.current_screen, ScreenId::Resource);
    assert_eq!(ui.ship_focus, ShipFocus::Resources);
    ui.on_input(Input::ArrowUp, 0, 10);
    assert_eq!(ui.resource_selected, 15);
    ui.on_input(Input::ArrowDown, 0, 10);
    assert_eq!(ui.resource_selected, 0);
    ui.on_input(Input::ArrowLeft, 0, 10);
    assert_eq!(ui.current_screen, ScreenId::Pods);
    assert_eq!(ui.ship_focus, ShipFocus::Systems);
}

#[test]
fn debug_toggle_and_keys() {
    let mut ui = UiState::new();
    ui.enter_ship();
    ui.on_input(key('d'), 0, 10);
    assert_eq!(ui.current_screen, ScreenId::Debug);
    assert_eq!(ui.ship_focus, ShipFocus::Content);
    ui.on_input(Input::ArrowUp, 0, 10);
    assert_eq!(ui.debug_selected, 15);
    assert_eq!(ui.on_input(key('+'), 0, 10), Request::DebugInput(key('+')));
    assert_eq!(ui.on_input(Input::ArrowRight, 0, 10), Request::DebugInput(Input::ArrowRight));
    ui.on_input(key('d'), 0, 10);
    assert_eq!(ui.current_screen, ScreenId::Pods);
    assert_eq!(ui.ship_focus, ShipFocus::Systems);
    let mut ui = UiState::new();
    ui.enter_ship();
    ui.on_input(key('d'), 0, 10);
    ui.on_input(Input::Esc, 0, 10);
    assert_eq!(ui.current_screen, ScreenId::Pods);
    assert_eq!(ui.ship_focus, ShipFocus::Systems);
}

#[test]
fn pods_open_the_colonist_list() {
    let mut ui = UiState::new();
    ui.enter_ship();
    ui.colonist_selected = 7;
    assert_eq!(PodsScreen::on_input(&mut ui, Input::Enter), Request::Nothing);
    assert_eq!(ui.current_screen, ScreenId::Colonists);
    assert_eq!(ui.colonist_selected, 0);
    ui.ship_focus = ShipFocus::Content;
    ui.on_input(Input::Esc, 0, 10);
    assert_eq!(ui.current_screen, ScreenId::Pods);
    assert_eq!(ui.ship_focus, ShipFocus::Systems);
}

#[test]
fn colonist_list_moves() {
    let mut ui = UiState::new();
    ColonistsScreen::on_input(&mut ui, Input::ArrowUp, 25);
    assert_eq!(ui.colonist_selected, 24);
    ColonistsScreen::on_input(&mut ui, Input::ArrowDown, 25);
    assert_eq!(ui.colonist_selected, 0);
    ColonistsScreen::on_input(&mut ui, key('.'), 25);
    assert_eq!(ui.colonist_selected, 10);
    ColonistsScreen::on_input(&mut ui, key('.'), 25);
    ColonistsScreen::on_input(&mut ui, key('.'), 25);
    assert_eq!(ui.colonist_selected, 24);
    ColonistsScreen::on_input(&mut ui, key(','), 25);
    assert_eq!(ui.colonist_selected, 14);
    ColonistsScreen::on_input(&mut ui, Input::Home, 25);
    assert_eq!(ui.colonist_selected, 0);
    ColonistsScreen::on_input(&mut ui, Input::End, 25);
    assert_eq!(ui.colonist_selected, 24);
    ColonistsScreen::on_input(&mut ui, Input::End, 0);
    assert_eq!(ui.colonist_selected, 24);
}

#[test]
fn history_range_stays_within_tiers() {
    let mut ui = UiState::new();
    for _ in 0..20 {
        ResourceScreen::on_input(&mut ui, key('-'));
    }
    assert_eq!(ui.history_tier, TIER_COUNT - 1);
    for _ in 0..20 {
        ResourceScreen::on_input(&mut ui, key('='));
    }
    assert_eq!(ui.history_tier, 0);
}

#[test]
fn debug_selection_wraps() {
    let mut ui = UiState::new();
    assert_eq!(DebugScreen::on_input(&mut ui, Input::ArrowUp), Request::Nothing);
    assert_eq!(ui.debug_selected, 15);
    DebugScreen::on_input(&mut ui, Input::ArrowDown);
    assert_eq!(ui.debug_selected, 0);
    assert_eq!(DebugScreen::on_input(&mut ui, key('x')), Request::Nothing);
}

#[test]
fn reactor_keys_cycle_modes() {
    assert_eq!(ReactorScreen::on_input(ReactorMode::DHe3, key('m')), ReactorMode::DD);
    assert_eq!(ReactorScreen::on_input(ReactorMode::DHe3, key('N')), ReactorMode::CatDD);
    assert_eq!(ReactorScreen::on_input(ReactorMode::DD, key('x')), ReactorMode::DD);
}

#[test]
fn screen_properties() {
    assert!(ScreenId::Colonists.in_shell());
    assert!(!ScreenId::Title.in_shell());
    assert!(ScreenId::Colonists.shows_system());
    assert!(!ScreenId::Resource.shows_system());
    assert_eq!(ScreenId::Reactor.hotkey(), 'R');
    assert_eq!(ScreenId::Load.hotkey(), ' ');
    assert_eq!(ScreenId::from_hotkey('p'), Some(ScreenId::Pods));
    assert_eq!(ScreenId::from_hotkey('x'), None);
    assert_eq!(ScreenId::Pods.system_label(), "LIFE PODS");
    assert_eq!(ScreenId::Title.system_label(), "");
    assert_eq!(ScreenId::Title.footer(ShipFocus::Systems), "[ ↑↓ SELECT │ ⏎ CONFIRM ]");
    assert_eq!(
        ScreenId::Reactor.footer(ShipFocus::Content),
        "[ ↑↓ SCROLL │ ␣ PAUSE │ ? HELP │ ESC BACK │ Q QUIT ]"
    );
}

#[test]
fn popups_scroll_and_close() {
    let theme = Theme::default();
    let mut popup: Option<PopupState<&str>> =
        Some(PopupState::new(&theme, "HELP".to_string()).line("a").line("b").line("c"));
    let mut ui = UiState::new();
    assert_eq!(route_input(&mut popup, &mut ui, Input::End, 0, 0), Request::Nothing);
    assert_eq!(popup.as_ref().unwrap().scroll, 2);
    route_input(&mut popup, &mut ui, Input::ArrowDown, 0, 0);
    assert_eq!(popup.as_ref().unwrap().scroll, 2);
    route_input(&mut popup, &mut ui, key(','), 0, 0);
    assert_eq!(popup.as_ref().unwrap().scroll, 0);
    route_input(&mut popup, &mut ui, key('q'), 0, 0);
    assert!(popup.is_none());
    assert_eq!(route_input(&mut popup, &mut ui, key('q'), 0, 0), Request::Quit);
}

#[test]
fn tab_toggles_between_panels() {
    let mut ui = UiState::new();
    ui.enter_ship();
    ui.on_input(key('r'), 0, 10);
    assert_eq!(ui.on_input(Input::Tab, 0, 10), Request::Nothing);
    assert_eq!(ui.current_screen, ScreenId::Resource);
    assert_eq!(ui.ship_focus, ShipFocus::Resources);
    assert_eq!(ui.on_input(Input::Tab, 0, 10), Request::Nothing);
    assert_eq!(ui.current_screen, ScreenId::Reactor);
    assert_eq!(ui.ship_focus, ShipFocus::Systems);
    ui.on_input(Input::Tab, 0, 10);
    assert_eq!(ui.on_input(Input::Esc, 0, 10), Request::ExitToTitle);
}

#[test]
fn colonist_keys_from_a_large_selection() {
    let mut ui = UiState::new();
    ui.colonist_selected = usize::MAX - 1;
    ColonistsScreen::on_input(&mut ui, Input::ArrowDown, usize::MAX);
    assert_eq!(ui.colonist_selected, 0);
    ui.colonist_selected = usize::MAX - 1;
    ColonistsScreen::on_input(&mut ui, key(','), usize::MAX);
    assert_eq!(ui.colonist_selected, usize::MAX - 11);
    ColonistsScreen::on_input(&mut ui, Input::ArrowUp, usize::MAX);
    assert_eq!(ui.colonist_selected, usize::MAX - 12);
}
