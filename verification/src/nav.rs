use vstd::prelude::*;
use crate::history::{TIER_COUNT, DEFAULT_TIER};
use crate::input::Input;
use crate::reactor::ReactorMode;
use crate::resources::RESOURCE_COUNT;
use crate::text::{trim, trimmed, push_char, pop_char};
use vstd::string::StrSliceExecFns;

verus! {

/// Longest ship name, in characters, that the new-world screen accepts.
pub const MAX_NAME_LEN: usize = 32;

/// How far `,` and `.` move the colonist selection.
pub const COLONIST_PAGE: usize = 10;

/// The screens of the operator console.
#[derive(Debug, Clone, Copy, PartialEq, Eq, Structural)]
pub enum ScreenId {
    Title,
    NewWorld,
    Load,
    Reactor,
    Pods,
    Colonists,
    Resource,
    Debug,
}

/// Which panel of the ship shell has the keyboard.
#[derive(Debug, Clone, Copy, PartialEq, Eq, Structural)]
pub enum ShipFocus {
    Systems,
    Content,
    Resources,
}

/// Keys of the one-shot visual effects.
#[derive(Debug, Clone, Copy, PartialEq, Eq, PartialOrd, Ord, Structural)]
pub enum FxKey {
    TitleIntro,
    PauseToggle,
}

/// The ship systems listed in the sidebar, in order.
pub open spec fn ship_systems() -> Seq<ScreenId> {
    seq![ScreenId::Reactor, ScreenId::Pods]
}

/// Number of ship systems in the sidebar.
pub const SHIP_SYSTEM_COUNT: usize = 2;

/// The ship system at sidebar row `i`.
pub fn ship_system(i: usize) -> (s: ScreenId)
    requires
        i < SHIP_SYSTEM_COUNT,
    ensures
        s == ship_systems()[i as int],
{
    if i == 0 { ScreenId::Reactor } else { ScreenId::Pods }
}

impl Default for ScreenId {
    fn default() -> (s: ScreenId)
        ensures
            s == ScreenId::Title,
    {
        ScreenId::Title
    }
}

impl Default for ShipFocus {
    fn default() -> (f: ShipFocus)
        ensures
            f == ShipFocus::Systems,
    {
        ShipFocus::Systems
    }
}

impl Default for FxKey {
    fn default() -> (k: FxKey)
        ensures
            k == FxKey::TitleIntro,
    {
        FxKey::TitleIntro
    }
}

/// Whether the screen lives inside the ship shell (sidebar, resources, log).
pub open spec fn spec_in_shell(s: ScreenId) -> bool {
    s == ScreenId::Reactor || s == ScreenId::Pods || s == ScreenId::Colonists
        || s == ScreenId::Resource || s == ScreenId::Debug
}

/// The screen that a hotkey selects, in either case.
pub open spec fn spec_from_hotkey(c: char) -> Option<ScreenId> {
    if c == 'R' || c == 'r' {
        Some(ScreenId::Reactor)
    } else if c == 'P' || c == 'p' {
        Some(ScreenId::Pods)
    } else {
        None
    }
}

/// The sidebar row of a ship system.
pub open spec fn system_position(s: ScreenId) -> usize {
    if s == ScreenId::Reactor { 0 } else if s == ScreenId::Pods { 1 } else { 0 }
}

impl ScreenId {
    pub fn in_shell(self) -> (b: bool)
        ensures
            b == spec_in_shell(self),
    {
        match self {
            ScreenId::Reactor | ScreenId::Pods | ScreenId::Colonists | ScreenId::Resource
            | ScreenId::Debug => true,
            _ => false,
        }
    }

    /// Whether the screen shows one of the sidebar's systems, so that the
    /// sidebar marks its row.
    pub fn shows_system(self) -> (b: bool)
        ensures
            b == (self == ScreenId::Reactor || self == ScreenId::Pods || self == ScreenId::Colonists),
    {
        match self {
            ScreenId::Reactor | ScreenId::Pods | ScreenId::Colonists => true,
            _ => false,
        }
    }

    pub fn hotkey(self) -> (c: char)
        ensures
            self == ScreenId::Reactor ==> c == 'R',
            self == ScreenId::Pods ==> c == 'P',
            self != ScreenId::Reactor && self != ScreenId::Pods ==> c == ' ',
    {
        match self {
            ScreenId::Reactor => 'R',
            ScreenId::Pods => 'P',
            _ => ' ',
        }
    }

    pub fn from_hotkey(c: char) -> (s: Option<ScreenId>)
        ensures
            s == spec_from_hotkey(c),
    {
        match c {
            'R' | 'r' => Some(ScreenId::Reactor),
            'P' | 'p' => Some(ScreenId::Pods),
            _ => None,
        }
    }

    pub fn system_label(self) -> (s: &'static str)
        ensures
            self == ScreenId::Reactor ==> s@ == "REACTOR"@,
            self == ScreenId::Pods ==> s@ == "LIFE PODS"@,
            self != ScreenId::Reactor && self != ScreenId::Pods ==> s@ == ""@,
    {
        match self {
            ScreenId::Reactor => "REACTOR",
            ScreenId::Pods => "LIFE PODS",
            _ => "",
        }
    }

    /// The key help in the footer; inside the ship shell it depends on the
    /// focused panel.
    pub fn footer(self, focus: ShipFocus) -> (s: &'static str)
        ensures
            self == ScreenId::Title ==> s@ == "[ ↑↓ SELECT │ ⏎ CONFIRM ]"@,
            self == ScreenId::NewWorld ==> s@ == "[ TYPE NAME │ ⏎ CREATE │ ESC BACK ]"@,
            self == ScreenId::Load ==> s@ == "[ ↑↓ SELECT │ ⏎ LOAD │ ESC BACK ]"@,
            self == ScreenId::Debug ==> s@ == "[ ␣ PAUSE │ ESC CLOSE │ Q QUIT ]"@,
            self == ScreenId::Colonists ==> s@
                == "[ ↑↓ SCROLL │ ←→ PAGE │ ␣ PAUSE │ ? HELP │ ESC BACK │ Q QUIT ]"@,
            (self == ScreenId::Reactor || self == ScreenId::Pods || self == ScreenId::Resource)
                ==> {
                &&& focus == ShipFocus::Systems ==> s@
                    == "[ ↑↓ SYSTEM │ →/⇥ RESOURCES │ ␣ PAUSE │ D DEBUG │ ? HELP │ ESC EXIT │ Q QUIT ]"@
                &&& focus == ShipFocus::Resources ==> s@
                    == "[ ↑↓ RESOURCE │ - + RANGE │ ␣ PAUSE │ D DEBUG │ ? HELP │ ESC EXIT │ Q ]"@
                &&& focus == ShipFocus::Content ==> s@
                    == "[ ↑↓ SCROLL │ ␣ PAUSE │ ? HELP │ ESC BACK │ Q QUIT ]"@
            },
    {
        match self {
            ScreenId::Title => "[ ↑↓ SELECT │ ⏎ CONFIRM ]",
            ScreenId::NewWorld => "[ TYPE NAME │ ⏎ CREATE │ ESC BACK ]",
            ScreenId::Load => "[ ↑↓ SELECT │ ⏎ LOAD │ ESC BACK ]",
            ScreenId::Debug => "[ ␣ PAUSE │ ESC CLOSE │ Q QUIT ]",
            ScreenId::Colonists => "[ ↑↓ SCROLL │ ←→ PAGE │ ␣ PAUSE │ ? HELP │ ESC BACK │ Q QUIT ]",
            _ => match focus {
                ShipFocus::Systems => "[ ↑↓ SYSTEM │ →/⇥ RESOURCES │ ␣ PAUSE │ D DEBUG │ ? HELP │ ESC EXIT │ Q QUIT ]",
                ShipFocus::Resources => "[ ↑↓ RESOURCE │ - + RANGE │ ␣ PAUSE │ D DEBUG │ ? HELP │ ESC EXIT │ Q ]",
                ShipFocus::Content => "[ ↑↓ SCROLL │ ␣ PAUSE │ ? HELP │ ESC BACK │ Q QUIT ]",
            },
        }
    }
}

/// An entry of the title menu.
#[derive(Debug, Clone, Copy, PartialEq, Eq, Structural)]
pub enum MenuItem {
    Continue,
    Load,
    New,
    Quit,
}

impl MenuItem {
    pub fn label(self) -> (s: &'static str)
        ensures
            self == MenuItem::Continue ==> s@ == "CONTINUE"@,
            self == MenuItem::Load ==> s@ == "LOAD GAME"@,
            self == MenuItem::New ==> s@ == "NEW GAME"@,
            self == MenuItem::Quit ==> s@ == "QUIT"@,
    {
        match self {
            MenuItem::Continue => "CONTINUE",
            MenuItem::Load => "LOAD GAME",
            MenuItem::New => "NEW GAME",
            MenuItem::Quit => "QUIT",
        }
    }
}

/// The title menu: continuing and loading are offered only when a saved
/// colony exists.
pub open spec fn spec_menu(has_saves: bool) -> Seq<MenuItem> {
    if has_saves {
        seq![MenuItem::Continue, MenuItem::Load, MenuItem::New, MenuItem::Quit]
    } else {
        seq![MenuItem::New, MenuItem::Quit]
    }
}

/// The entries of the title menu.
pub fn menu(has_saves: bool) -> (items: Vec<MenuItem>)
    ensures
        items@ == spec_menu(has_saves),
{
    let mut items: Vec<MenuItem> = Vec::new();
    if has_saves {
        items.push(MenuItem::Continue);
        items.push(MenuItem::Load);
    }
    items.push(MenuItem::New);
    items.push(MenuItem::Quit);
    items
}

/// What the console asks of the rest of the program after a key press.
#[derive(Debug, Clone, Copy, PartialEq, Eq, Structural)]
pub enum Request {
    /// Nothing beyond the change of screen state.
    Nothing,
    /// Leave the program.
    Quit,
    /// Pause or resume the simulation.
    TogglePause,
    /// Open the help popup of the screen.
    ShowHelp(ScreenId),
    /// Resume, save the colony, then go to the title screen.
    ExitToTitle,
    /// Re-read the list of saved colonies (the load screen was entered).
    RefreshWorlds,
    /// Re-read the list of saved colonies and play the title intro (the title
    /// screen was entered).
    RefreshWorldsWithIntro,
    /// Load the most recently played colony, then enter the ship.
    ContinueLatest,
    /// Load the saved colony at this row of the list, then enter the ship.
    LoadWorld(usize),
    /// Found a colony named after the trimmed entry, then enter the ship.
    CreateWorld,
    /// A key for the reactor screen, which changes the reactor mode.
    ReactorInput(Input),
    /// A key for the debug screen that changes the grant step or grants stock.
    DebugInput(Input),
}

/// The navigation state of the console, as a value.
pub struct UiView {
    pub screen: ScreenId,
    pub focus: ShipFocus,
    pub menu_selected: usize,
    pub colonist_selected: usize,
    pub system_selected: usize,
    pub resource_selected: usize,
    pub debug_selected: usize,
    pub history_tier: usize,
    pub name: Seq<char>,
}

/// The console's navigation state: current screen, focused panel, the
/// selections of the lists, the history resolution and the name being typed.
pub struct UiState {
    pub current_screen: ScreenId,
    pub ship_focus: ShipFocus,
    pub menu_selected: usize,
    pub colonist_selected: usize,
    pub system_selected: usize,
    pub resource_selected: usize,
    pub debug_selected: usize,
    pub history_tier: usize,
    pub new_world_name: String,
}

impl View for UiState {
    type V = UiView;

    open spec fn view(&self) -> UiView {
        UiView {
            screen: self.current_screen,
            focus: self.ship_focus,
            menu_selected: self.menu_selected,
            colonist_selected: self.colonist_selected,
            system_selected: self.system_selected,
            resource_selected: self.resource_selected,
            debug_selected: self.debug_selected,
            history_tier: self.history_tier,
            name: self.new_world_name@,
        }
    }
}

impl UiView {
    /// Selections stay inside their lists and the history tier names a tier.
    pub open spec fn wf(self) -> bool {
        &&& self.system_selected < SHIP_SYSTEM_COUNT
        &&& self.resource_selected < RESOURCE_COUNT
        &&& self.debug_selected < RESOURCE_COUNT
        &&& self.history_tier < TIER_COUNT
    }

    /// Entering a screen: what its entry resets, and what it asks for.
    pub open spec fn goto(self, s: ScreenId) -> (UiView, Request) {
        let v = UiView { screen: s, ..self };
        match s {
            ScreenId::Title => (UiView { menu_selected: 0, ..v }, Request::RefreshWorldsWithIntro),
            ScreenId::Load => (UiView { menu_selected: 0, ..v }, Request::RefreshWorlds),
            ScreenId::NewWorld => (UiView { name: Seq::empty(), ..v }, Request::Nothing),
            ScreenId::Colonists => (UiView { colonist_selected: 0, ..v }, Request::Nothing),
            _ => (v, Request::Nothing),
        }
    }

    /// Entering the ship on the life-pod system, with the sidebar focused.
    pub open spec fn enter_ship(self) -> UiView {
        UiView { focus: ShipFocus::Systems, system_selected: 1, screen: ScreenId::Pods, ..self }
    }

    /// Focusing a panel of the shell, and the screen it brings up.
    pub open spec fn focus_panel(self, p: ShipFocus) -> UiView {
        let v = UiView { focus: p, ..self };
        match p {
            ShipFocus::Systems => {
                let i = if v.system_selected < SHIP_SYSTEM_COUNT {
                    v.system_selected as int
                } else {
                    SHIP_SYSTEM_COUNT - 1
                };
                UiView { screen: ship_systems()[i], ..v }
            },
            ShipFocus::Resources => UiView { screen: ScreenId::Resource, ..v },
            ShipFocus::Content => v,
        }
    }

    /// Moving the system selection `step` rows down, wrapping around.
    pub open spec fn select_system(self, step: usize) -> UiView {
        let i = ((self.system_selected + step) % (SHIP_SYSTEM_COUNT as int)) as usize;
        UiView { system_selected: i, screen: ship_systems()[i as int], ..self }
    }

    /// Moving the resource selection `step` rows down, wrapping around.
    pub open spec fn select_resource(self, step: usize) -> UiView {
        let i = ((self.resource_selected + step) % (RESOURCE_COUNT as int)) as usize;
        UiView { resource_selected: i, screen: ScreenId::Resource, ..self }
    }

    /// Opening the debug screen, or closing it back to the systems.
    pub open spec fn toggle_debug(self) -> UiView {
        if self.screen == ScreenId::Debug {
            self.focus_panel(ShipFocus::Systems)
        } else {
            UiView { screen: ScreenId::Debug, focus: ShipFocus::Content, ..self }
        }
    }

    /// `Esc` with the content panel focused.
    pub open spec fn content_back(self, screen: ScreenId) -> UiView {
        match screen {
            ScreenId::Colonists => UiView { screen: ScreenId::Pods, focus: ShipFocus::Systems, ..self },
            ScreenId::Debug => self.focus_panel(ShipFocus::Systems),
            _ => UiView { focus: ShipFocus::Systems, ..self },
        }
    }

    /// A key for the resource screen itself.
    pub open spec fn resource_input(self, input: Input) -> UiView {
        match input {
            Input::ArrowUp => UiView {
                resource_selected: ((self.resource_selected + RESOURCE_COUNT - 1) % (RESOURCE_COUNT as int)) as usize,
                ..self
            },
            Input::ArrowDown => UiView {
                resource_selected: ((self.resource_selected + 1) % (RESOURCE_COUNT as int)) as usize,
                ..self
            },
            Input::Char('-') => UiView {
                history_tier: if self.history_tier + 1 < TIER_COUNT { (self.history_tier + 1) as usize } else { (TIER_COUNT - 1) as usize },
                ..self
            },
            Input::Char('+') | Input::Char('=') => UiView {
                history_tier: if self.history_tier > 0 { (self.history_tier - 1) as usize } else { 0 },
                ..self
            },
            _ => self,
        }
    }

    /// A key for the colonist list, with `pods` colonists aboard.
    pub open spec fn colonists_input(self, input: Input, pods: usize) -> UiView {
        if pods == 0 {
            self
        } else {
            let last = (pods - 1) as usize;
            let sel = self.colonist_selected;
            match input {
                Input::ArrowUp => UiView {
                    colonist_selected: if sel > 0 { (sel - 1) as usize } else { last },
                    ..self
                },
                Input::ArrowDown => UiView { colonist_selected: ((sel + 1) % (pods as int)) as usize, ..self },
                Input::Char(',') => UiView {
                    colonist_selected: if sel >= COLONIST_PAGE { (sel - COLONIST_PAGE) as usize } else { 0 },
                    ..self
                },
                Input::Char('.') => UiView {
                    colonist_selected: if sel + COLONIST_PAGE < last { (sel + COLONIST_PAGE) as usize } else { last },
                    ..self
                },
                Input::Home => UiView { colonist_selected: 0, ..self },
                Input::End => UiView { colonist_selected: last, ..self },
                _ => self,
            }
        }
    }

    /// A key handed to the screen of the shell itself.
    pub open spec fn dispatch(self, screen: ScreenId, input: Input, pods: usize) -> (UiView, Request) {
        match screen {
            ScreenId::Reactor => (self, Request::ReactorInput(input)),
            ScreenId::Pods => match input {
                Input::Enter => self.goto(ScreenId::Colonists),
                Input::Esc | Input::ArrowLeft => (UiView { focus: ShipFocus::Systems, ..self }, Request::Nothing),
                _ => (self, Request::Nothing),
            },
            ScreenId::Colonists => (self.colonists_input(input, pods), Request::Nothing),
            ScreenId::Resource => (self.resource_input(input), Request::Nothing),
            ScreenId::Debug => match input {
                Input::ArrowUp => (UiView {
                    debug_selected: ((self.debug_selected + RESOURCE_COUNT - 1) % (RESOURCE_COUNT as int)) as usize,
                    ..self
                }, Request::Nothing),
                Input::ArrowDown => (UiView {
                    debug_selected: ((self.debug_selected + 1) % (RESOURCE_COUNT as int)) as usize,
                    ..self
                }, Request::Nothing),
                Input::ArrowLeft | Input::ArrowRight | Input::Char('+') | Input::Char('=')
                | Input::Char('-') => (self, Request::DebugInput(input)),
                _ => (self, Request::Nothing),
            },
            _ => (self, Request::Nothing),
        }
    }

    /// A key pressed on a screen of the ship shell.
    pub open spec fn shell_input(self, screen: ScreenId, input: Input, pods: usize) -> (UiView, Request) {
        match input {
            Input::Char(' ') => (self, Request::TogglePause),
            Input::Char('d') => (self.toggle_debug(), Request::Nothing),
            Input::Char('?') => (self, Request::ShowHelp(screen)),
            Input::Char('q') => (self, Request::Quit),
            Input::Char(c) if spec_from_hotkey(c) is Some => (
                UiView { system_selected: system_position(spec_from_hotkey(c)->0), ..self }.focus_panel(ShipFocus::Systems),
                Request::Nothing,
            ),
            Input::Tab => (
                self.focus_panel(if self.focus == ShipFocus::Resources { ShipFocus::Systems } else { ShipFocus::Resources }),
                Request::Nothing,
            ),
            _ => match self.focus {
                ShipFocus::Systems => match input {
                    Input::ArrowUp => (self.select_system(1), Request::Nothing),
                    Input::ArrowDown => (self.select_system(1), Request::Nothing),
                    Input::ArrowRight => (self.focus_panel(ShipFocus::Resources), Request::Nothing),
                    Input::Esc => (self, Request::ExitToTitle),
                    _ => self.dispatch(screen, input, pods),
                },
                ShipFocus::Resources => match input {
                    Input::ArrowUp => (self.select_resource((RESOURCE_COUNT - 1) as usize), Request::Nothing),
                    Input::ArrowDown => (self.select_resource(1), Request::Nothing),
                    Input::ArrowLeft => (self.focus_panel(ShipFocus::Systems), Request::Nothing),
                    Input::Esc => (self, Request::ExitToTitle),
                    _ => (self.resource_input(input), Request::Nothing),
                },
                ShipFocus::Content => match input {
                    Input::Esc => (self.content_back(screen), Request::Nothing),
                    _ => self.dispatch(screen, input, pods),
                },
            },
        }
    }

    /// A key on the title screen, with `saves` saved colonies listed.
    pub open spec fn title_input(self, input: Input, saves: usize) -> (UiView, Request) {
        let items = spec_menu(saves > 0);
        let last = (items.len() - 1) as usize;
        match input {
            Input::Char('q') => (self, Request::Quit),
            Input::ArrowUp => (UiView {
                menu_selected: if self.menu_selected > 0 { (self.menu_selected - 1) as usize } else { last },
                ..self
            }, Request::Nothing),
            Input::ArrowDown => (UiView {
                menu_selected: ((self.menu_selected + 1) % (items.len() as int)) as usize,
                ..self
            }, Request::Nothing),
            Input::Enter => match items[self.menu_selected as int] {
                MenuItem::Continue => (self, Request::ContinueLatest),
                MenuItem::Load => self.goto(ScreenId::Load),
                MenuItem::New => self.goto(ScreenId::NewWorld),
                MenuItem::Quit => (self, Request::Quit),
            },
            _ => (self, Request::Nothing),
        }
    }

    /// A key on the load screen, with `saves` saved colonies listed.
    pub open spec fn load_input(self, input: Input, saves: usize) -> (UiView, Request) {
        if saves == 0 {
            match input {
                Input::Esc => self.goto(ScreenId::Title),
                _ => (self, Request::Nothing),
            }
        } else {
            let last = (saves - 1) as usize;
            match input {
                Input::ArrowUp => (UiView {
                    menu_selected: if self.menu_selected > 0 { (self.menu_selected - 1) as usize } else { last },
                    ..self
                }, Request::Nothing),
                Input::ArrowDown => (UiView {
                    menu_selected: ((self.menu_selected + 1) % (saves as int)) as usize,
                    ..self
                }, Request::Nothing),
                Input::Enter => (self, Request::LoadWorld(self.menu_selected)),
                Input::Esc => self.goto(ScreenId::Title),
                _ => (self, Request::Nothing),
            }
        }
    }

    /// A key on the new-world screen.
    pub open spec fn new_world_input(self, input: Input) -> (UiView, Request) {
        match input {
            Input::Char(c) => (
                if self.name.len() < MAX_NAME_LEN { UiView { name: self.name.push(c), ..self } } else { self },
                Request::Nothing,
            ),
            Input::Backspace => (
                if self.name.len() > 0 { UiView { name: self.name.drop_last(), ..self } } else { self },
                Request::Nothing,
            ),
            Input::Enter => (self, if trim(self.name).len() > 0 { Request::CreateWorld } else { Request::Nothing }),
            Input::Esc => self.goto(ScreenId::Title),
            _ => (self, Request::Nothing),
        }
    }

    /// What the current screen may be handed: the title menu selection must
    /// name an entry, so must the load selection when colonies are listed, and
    /// the colonist selection must move a page down (`.`) without overflow.
    pub open spec fn input_ok(self, input: Input, saves: usize) -> bool {
        &&& self.screen == ScreenId::Title ==> self.menu_selected < spec_menu(saves > 0).len()
        &&& self.screen == ScreenId::Load && saves > 0 ==> self.menu_selected < saves
        &&& self.screen == ScreenId::Colonists && input == Input::Char('.') ==> self.colonist_selected <= usize::MAX - COLONIST_PAGE
    }

    /// A key pressed with no popup open.
    pub open spec fn on_input(self, input: Input, saves: usize, pods: usize) -> (UiView, Request) {
        if spec_in_shell(self.screen) {
            self.shell_input(self.screen, input, pods)
        } else {
            match self.screen {
                ScreenId::Title => self.title_input(input, saves),
                ScreenId::NewWorld => self.new_world_input(input),
                ScreenId::Load => self.load_input(input, saves),
                _ => (self, Request::Nothing),
            }
        }
    }
}


impl UiState {
    /// The console as it starts: title screen, sidebar focus, every selection
    /// at the top, the one-second history tier, no name typed.
    pub fn new() -> (ui: UiState)
        ensures
            ui@ == (UiView {
                screen: ScreenId::Title,
                focus: ShipFocus::Systems,
                menu_selected: 0,
                colonist_selected: 0,
                system_selected: 0,
                resource_selected: 0,
                debug_selected: 0,
                history_tier: DEFAULT_TIER,
                name: Seq::empty(),
            }),
            ui@.wf(),
    {
        UiState {
            current_screen: ScreenId::Title,
            ship_focus: ShipFocus::Systems,
            menu_selected: 0,
            colonist_selected: 0,
            system_selected: 0,
            resource_selected: 0,
            debug_selected: 0,
            history_tier: DEFAULT_TIER,
            new_world_name: String::new(),
        }
    }

    /// Switches to `screen` and runs what entering it resets.
    pub fn goto(&mut self, screen: ScreenId) -> (r: Request)
        ensures
            (final(self)@, r) == old(self)@.goto(screen),
    {
        self.current_screen = screen;
        match screen {
            ScreenId::Title => {
                self.menu_selected = 0;
                Request::RefreshWorldsWithIntro
            },
            ScreenId::Load => {
                self.menu_selected = 0;
                Request::RefreshWorlds
            },
            ScreenId::NewWorld => {
                self.new_world_name = String::new();
                Request::Nothing
            },
            ScreenId::Colonists => {
                self.colonist_selected = 0;
                Request::Nothing
            },
            _ => Request::Nothing,
        }
    }

    /// Enters the ship on the life-pod system with the sidebar focused.
    pub fn enter_ship(&mut self)
        ensures
            final(self)@ == old(self)@.enter_ship(),
    {
        self.ship_focus = ShipFocus::Systems;
        self.system_selected = 1;
        self.current_screen = ScreenId::Pods;
    }

    /// The name typed on the new-world screen, trimmed.
    pub fn entered_world_name(&self) -> (name: String)
        ensures
            name@ == trim(self.new_world_name@),
    {
        String::from_str(trimmed(self.new_world_name.as_str()))
    }

    fn focus_panel(&mut self, panel: ShipFocus)
        ensures
            final(self)@ == old(self)@.focus_panel(panel),
    {
        self.ship_focus = panel;
        match panel {
            ShipFocus::Systems => {
                let i = if self.system_selected < SHIP_SYSTEM_COUNT {
                    self.system_selected
                } else {
                    SHIP_SYSTEM_COUNT - 1
                };
                self.current_screen = ship_system(i);
            },
            ShipFocus::Resources => {
                self.current_screen = ScreenId::Resource;
            },
            ShipFocus::Content => {},
        }
    }

    fn select_system(&mut self, step: usize)
        requires
            old(self).system_selected < SHIP_SYSTEM_COUNT,
            step < SHIP_SYSTEM_COUNT,
        ensures
            final(self)@ == old(self)@.select_system(step),
    {
        self.system_selected = (self.system_selected + step) % SHIP_SYSTEM_COUNT;
        self.current_screen = ship_system(self.system_selected);
    }

    fn select_resource(&mut self, step: usize)
        requires
            old(self).resource_selected < RESOURCE_COUNT,
            step < RESOURCE_COUNT,
        ensures
            final(self)@ == old(self)@.select_resource(step),
    {
        self.resource_selected = (self.resource_selected + step) % RESOURCE_COUNT;
        self.current_screen = ScreenId::Resource;
    }

    fn toggle_debug(&mut self)
        ensures
            final(self)@ == old(self)@.toggle_debug(),
    {
        if self.current_screen == ScreenId::Debug {
            self.focus_panel(ShipFocus::Systems);
        } else {
            self.current_screen = ScreenId::Debug;
            self.ship_focus = ShipFocus::Content;
        }
    }

    fn content_back(&mut self, screen: ScreenId)
        ensures
            final(self)@ == old(self)@.content_back(screen),
    {
        match screen {
            ScreenId::Colonists => {
                self.current_screen = ScreenId::Pods;
                self.ship_focus = ShipFocus::Systems;
            },
            ScreenId::Debug => self.focus_panel(ShipFocus::Systems),
            _ => {
                self.ship_focus = ShipFocus::Systems;
            },
        }
    }

    fn dispatch(&mut self, screen: ScreenId, input: Input, pods: usize) -> (r: Request)
        requires
            old(self)@.wf(),
            screen == ScreenId::Colonists && input == Input::Char('.') ==> old(self).colonist_selected <= usize::MAX - COLONIST_PAGE,
        ensures
            (final(self)@, r) == old(self)@.dispatch(screen, input, pods),
    {
        match screen {
            ScreenId::Reactor => Request::ReactorInput(input),
            ScreenId::Pods => PodsScreen::on_input(self, input),
            ScreenId::Colonists => {
                ColonistsScreen::on_input(self, input, pods);
                Request::Nothing
            },
            ScreenId::Resource => {
                ResourceScreen::on_input(self, input);
                Request::Nothing
            },
            ScreenId::Debug => DebugScreen::on_input(self, input),
            _ => Request::Nothing,
        }
    }

    fn shell_input(&mut self, screen: ScreenId, input: Input, pods: usize) -> (r: Request)
        requires
            old(self)@.wf(),
            screen == ScreenId::Colonists && input == Input::Char('.') ==> old(self).colonist_selected <= usize::MAX - COLONIST_PAGE,
        ensures
            (final(self)@, r) == old(self)@.shell_input(screen, input, pods),
    {
        match input {
            Input::Char(' ') => return Request::TogglePause,
            Input::Char('d') => {
                self.toggle_debug();
                return Request::Nothing;
            },
            Input::Char('?') => return Request::ShowHelp(screen),
            Input::Char('q') => return Request::Quit,
            _ => {},
        }
        if let Input::Char(c) = input {
            if let Some(sys) = ScreenId::from_hotkey(c) {
                self.system_selected = if sys == ScreenId::Reactor { 0 } else { 1 };
                self.focus_panel(ShipFocus::Systems);
                return Request::Nothing;
            }
        }
        if let Input::Tab = input {
            let next = match self.ship_focus {
                ShipFocus::Resources => ShipFocus::Systems,
                _ => ShipFocus::Resources,
            };
            self.focus_panel(next);
            return Request::Nothing;
        }
        match self.ship_focus {
            ShipFocus::Systems => match input {
                Input::ArrowUp => {
                    self.select_system(SHIP_SYSTEM_COUNT - 1);
                    Request::Nothing
                },
                Input::ArrowDown => {
                    self.select_system(1);
                    Request::Nothing
                },
                Input::ArrowRight => {
                    self.focus_panel(ShipFocus::Resources);
                    Request::Nothing
                },
                Input::Esc => Request::ExitToTitle,
                _ => self.dispatch(screen, input, pods),
            },
            ShipFocus::Resources => match input {
                Input::ArrowUp => {
                    self.select_resource(RESOURCE_COUNT - 1);
                    Request::Nothing
                },
                Input::ArrowDown => {
                    self.select_resource(1);
                    Request::Nothing
                },
                Input::ArrowLeft => {
                    self.focus_panel(ShipFocus::Systems);
                    Request::Nothing
                },
                Input::Esc => Request::ExitToTitle,
                _ => {
                    ResourceScreen::on_input(self, input);
                    Request::Nothing
                },
            },
            ShipFocus::Content => match input {
                Input::Esc => {
                    self.content_back(screen);
                    Request::Nothing
                },
                _ => self.dispatch(screen, input, pods),
            },
        }
    }

    /// Hands a key to the current screen (no popup is open). `saves` is the
    /// number of saved colonies listed, `pods` the number of colonists aboard.
    pub fn on_input(&mut self, input: Input, saves: usize, pods: usize) -> (r: Request)
        requires
            old(self)@.wf(),
            old(self)@.input_ok(input, saves),
        ensures
            (final(self)@, r) == old(self)@.on_input(input, saves, pods),
            final(self)@.wf(),
    {
        let ghost v = self@;
        let screen = self.current_screen;
        let r = if screen.in_shell() {
            self.shell_input(screen, input, pods)
        } else {
            match screen {
                ScreenId::Title => TitleScreen::on_input(self, input, saves),
                ScreenId::NewWorld => NewWorldScreen::on_input(self, input),
                ScreenId::Load => LoadScreen::on_input(self, input, saves),
                _ => Request::Nothing,
            }
        };
        proof {
            lemma_on_input_keeps_wf(v, input, saves, pods);
        }
        r
    }
}

/// The title screen and its menu.
pub struct TitleScreen;

impl TitleScreen {
    pub fn on_input(ui: &mut UiState, input: Input, saves: usize) -> (r: Request)
        requires
            old(ui).menu_selected < spec_menu(saves > 0).len(),
        ensures
            (final(ui)@, r) == old(ui)@.title_input(input, saves),
    {
        let items = menu(saves > 0);
        let last = items.len() - 1;
        match input {
            Input::Char('q') => Request::Quit,
            Input::ArrowUp => {
                ui.menu_selected = if ui.menu_selected > 0 { ui.menu_selected - 1 } else { last };
                Request::Nothing
            },
            Input::ArrowDown => {
                ui.menu_selected = (ui.menu_selected + 1) % items.len();
                Request::Nothing
            },
            Input::Enter => match items[ui.menu_selected] {
                MenuItem::Continue => Request::ContinueLatest,
                MenuItem::Load => ui.goto(ScreenId::Load),
                MenuItem::New => ui.goto(ScreenId::NewWorld),
                MenuItem::Quit => Request::Quit,
            },
            _ => Request::Nothing,
        }
    }
}

/// The list of saved colonies.
pub struct LoadScreen;

impl LoadScreen {
    pub fn on_input(ui: &mut UiState, input: Input, saves: usize) -> (r: Request)
        requires
            saves > 0 ==> old(ui).menu_selected < saves,
        ensures
            (final(ui)@, r) == old(ui)@.load_input(input, saves),
    {
        if saves == 0 {
            return match input {
                Input::Esc => ui.goto(ScreenId::Title),
                _ => Request::Nothing,
            };
        }
        let last = saves - 1;
        match input {
            Input::ArrowUp => {
                ui.menu_selected = if ui.menu_selected > 0 { ui.menu_selected - 1 } else { last };
                Request::Nothing
            },
            Input::ArrowDown => {
                ui.menu_selected = (ui.menu_selected + 1) % saves;
                Request::Nothing
            },
            Input::Enter => Request::LoadWorld(ui.menu_selected),
            Input::Esc => ui.goto(ScreenId::Title),
            _ => Request::Nothing,
        }
    }
}

/// Naming a new colony ship.
pub struct NewWorldScreen;

impl NewWorldScreen {
    pub fn on_input(ui: &mut UiState, input: Input) -> (r: Request)
        ensures
            (final(ui)@, r) == old(ui)@.new_world_input(input),
    {
        match input {
            Input::Char(c) => {
                if ui.new_world_name.as_str().unicode_len() < MAX_NAME_LEN {
                    push_char(&mut ui.new_world_name, c);
                }
                Request::Nothing
            },
            Input::Backspace => {
                pop_char(&mut ui.new_world_name);
                Request::Nothing
            },
            Input::Enter => {
                let name = trimmed(ui.new_world_name.as_str());
                if name.unicode_len() > 0 {
                    Request::CreateWorld
                } else {
                    Request::Nothing
                }
            },
            Input::Esc => ui.goto(ScreenId::Title),
            _ => Request::Nothing,
        }
    }
}

/// The life-pod overview.
pub struct PodsScreen;

impl PodsScreen {
    pub fn on_input(ui: &mut UiState, input: Input) -> (r: Request)
        ensures
            (final(ui)@, r) == old(ui)@.dispatch(ScreenId::Pods, input, 0),
    {
        match input {
            Input::Enter => ui.goto(ScreenId::Colonists),
            Input::Esc | Input::ArrowLeft => {
                ui.ship_focus = ShipFocus::Systems;
                Request::Nothing
            },
            _ => Request::Nothing,
        }
    }
}

/// The list of colonists in their pods.
pub struct ColonistsScreen;

impl ColonistsScreen {
    pub fn on_input(ui: &mut UiState, input: Input, pods: usize)
        requires
            input == Input::Char('.') ==> old(ui).colonist_selected <= usize::MAX - COLONIST_PAGE,
        ensures
            final(ui)@ == old(ui)@.colonists_input(input, pods),
    {
        if pods == 0 {
            return;
        }
        let last = pods - 1;
        match input {
            Input::ArrowUp => {
                ui.colonist_selected = if ui.colonist_selected > 0 {
                    ui.colonist_selected - 1
                } else {
                    last
                };
            },
            Input::ArrowDown => {
                let sel = ui.colonist_selected;
                proof {
                    vstd::arithmetic::div_mod::lemma_add_mod_noop(sel as int, 1, pods as int);
                    if pods > 1 {
                        vstd::arithmetic::div_mod::lemma_small_mod(1, pods as nat);
                    } else {
                        assert((sel as int + 1) % 1 == 0) by (nonlinear_arith);
                        assert((sel as int % 1 + 1) % 1 == 0) by (nonlinear_arith);
                    }
                }
                ui.colonist_selected = (sel % pods + 1) % pods;
            },
            Input::Char(',') => {
                ui.colonist_selected = if ui.colonist_selected >= COLONIST_PAGE {
                    ui.colonist_selected - COLONIST_PAGE
                } else {
                    0
                };
            },
            Input::Char('.') => {
                ui.colonist_selected = if ui.colonist_selected + COLONIST_PAGE < last {
                    ui.colonist_selected + COLONIST_PAGE
                } else {
                    last
                };
            },
            Input::Home => {
                ui.colonist_selected = 0;
            },
            Input::End => {
                ui.colonist_selected = last;
            },
            _ => {},
        }
    }
}

/// The history charts of one resource.
pub struct ResourceScreen;

impl ResourceScreen {
    pub fn on_input(ui: &mut UiState, input: Input)
        requires
            old(ui).resource_selected < RESOURCE_COUNT,
            old(ui).history_tier < TIER_COUNT,
        ensures
            final(ui)@ == old(ui)@.resource_input(input),
    {
        match input {
            Input::ArrowUp => {
                ui.resource_selected = (ui.resource_selected + RESOURCE_COUNT - 1) % RESOURCE_COUNT;
            },
            Input::ArrowDown => {
                ui.resource_selected = (ui.resource_selected + 1) % RESOURCE_COUNT;
            },
            Input::Char('-') => {
                ui.history_tier = if ui.history_tier + 1 < TIER_COUNT {
                    ui.history_tier + 1
                } else {
                    TIER_COUNT - 1
                };
            },
            Input::Char('+') | Input::Char('=') => {
                ui.history_tier = if ui.history_tier > 0 { ui.history_tier - 1 } else { 0 };
            },
            _ => {},
        }
    }
}

/// The debug console: timings and stock grants.
pub struct DebugScreen;

impl DebugScreen {
    pub fn on_input(ui: &mut UiState, input: Input) -> (r: Request)
        requires
            old(ui).debug_selected < RESOURCE_COUNT,
        ensures
            (final(ui)@, r) == old(ui)@.dispatch(ScreenId::Debug, input, 0),
    {
        match input {
            Input::ArrowUp => {
                ui.debug_selected = (ui.debug_selected + RESOURCE_COUNT - 1) % RESOURCE_COUNT;
                Request::Nothing
            },
            Input::ArrowDown => {
                ui.debug_selected = (ui.debug_selected + 1) % RESOURCE_COUNT;
                Request::Nothing
            },
            Input::ArrowLeft | Input::ArrowRight | Input::Char('+') | Input::Char('=')
            | Input::Char('-') => Request::DebugInput(input),
            _ => Request::Nothing,
        }
    }
}

/// The reactor's mode selector.
pub struct ReactorScreen;

impl ReactorScreen {
    /// `m` steps to the next mode and `n` to the previous one, in either case.
    pub fn on_input(mode: ReactorMode, input: Input) -> (m: ReactorMode)
        ensures
            (input == Input::Char('m') || input == Input::Char('M')) ==> m == mode.spec_next(),
            (input == Input::Char('n') || input == Input::Char('N')) ==> m == mode.spec_prev(),
            !(input == Input::Char('m') || input == Input::Char('M') || input == Input::Char('n')
                || input == Input::Char('N')) ==> m == mode,
    {
        match input {
            Input::Char('m') | Input::Char('M') => mode.next(),
            Input::Char('n') | Input::Char('N') => mode.prev(),
            _ => mode,
        }
    }
}

/// Every key press keeps the navigation state well formed.
pub proof fn lemma_on_input_keeps_wf(v: UiView, input: Input, saves: usize, pods: usize)
    requires
        v.wf(),
    ensures
        v.on_input(input, saves, pods).0.wf(),
{
}

/// A system's hotkey selects that system again, in either case, and a
/// screen that shows a system lies inside the ship shell.
pub proof fn lemma_hotkeys_select_their_system(i: int, s: ScreenId)
    requires
        0 <= i < SHIP_SYSTEM_COUNT,
    ensures
        ship_systems()[i] == ScreenId::Reactor ==> spec_from_hotkey('R') == Some(ship_systems()[i])
            && spec_from_hotkey('r') == Some(ship_systems()[i]),
        ship_systems()[i] == ScreenId::Pods ==> spec_from_hotkey('P') == Some(ship_systems()[i])
            && spec_from_hotkey('p') == Some(ship_systems()[i]),
        system_position(ship_systems()[i]) == i,
        (s == ScreenId::Reactor || s == ScreenId::Pods || s == ScreenId::Colonists) ==> spec_in_shell(s),
{
}

/// Moving the colonist selection down and then up returns to the same
/// colonist.
pub proof fn lemma_colonist_down_then_up(v: UiView, pods: usize)
    requires
        0 < pods,
        v.colonist_selected < pods,
    ensures
        v.colonists_input(Input::ArrowDown, pods).colonists_input(Input::ArrowUp, pods).colonist_selected
            == v.colonist_selected,
{
    let sel = v.colonist_selected;
    if sel + 1 < pods {
        vstd::arithmetic::div_mod::lemma_small_mod((sel + 1) as nat, pods as nat);
    } else {
        vstd::arithmetic::div_mod::lemma_mod_self_0(pods as int);
    }
}

/// The load list's arrow keys, with colonies listed and the selection inside
/// the list: Down moves one row down and wraps from the last row to the first,
/// Up moves one row up and wraps from the first to the last, each leaves the
/// selection inside the list, asks for nothing and changes nothing else, and
/// Down then Up (or Up then Down) returns to the same row.
pub proof fn lemma_load_list_moves(v: UiView, saves: usize)
    requires
        0 < saves,
        v.menu_selected < saves,
    ensures
        ({
            let s = v.menu_selected as int;
            let (down, rd) = v.load_input(Input::ArrowDown, saves);
            let (up, ru) = v.load_input(Input::ArrowUp, saves);
            &&& down.menu_selected == (s + 1) % (saves as int)
            &&& down.menu_selected == if s + 1 == saves { 0 } else { s + 1 }
            &&& up.menu_selected == if s == 0 { saves - 1 } else { s - 1 }
            &&& down.menu_selected < saves && up.menu_selected < saves
            &&& down == UiView { menu_selected: down.menu_selected, ..v } && rd == Request::Nothing
            &&& up == UiView { menu_selected: up.menu_selected, ..v } && ru == Request::Nothing
            &&& down.load_input(Input::ArrowUp, saves).0 == v
            &&& up.load_input(Input::ArrowDown, saves).0 == v
        }),
{
    let s = v.menu_selected;
    if s + 1 < saves {
        vstd::arithmetic::div_mod::lemma_small_mod((s + 1) as nat, saves as nat);
    } else {
        vstd::arithmetic::div_mod::lemma_mod_self_0(saves as int);
    }
    if s == 0 {
        vstd::arithmetic::div_mod::lemma_mod_self_0(saves as int);
    } else {
        vstd::arithmetic::div_mod::lemma_small_mod(s as nat, saves as nat);
    }
}

/// The title menu's arrow keys, with the selection on an entry: Down moves
/// one entry down and wraps from the last to the first, Up moves one entry up
/// and wraps from the first to the last, and Down then Up returns to the same
/// entry.
pub proof fn lemma_title_menu_moves(v: UiView, saves: usize)
    requires
        v.menu_selected < spec_menu(saves > 0).len(),
    ensures
        ({
            let n = spec_menu(saves > 0).len() as int;
            let s = v.menu_selected as int;
            let down = v.title_input(Input::ArrowDown, saves).0;
            let up = v.title_input(Input::ArrowUp, saves).0;
            &&& down.menu_selected == if s + 1 == n { 0 } else { s + 1 }
            &&& up.menu_selected == if s == 0 { n - 1 } else { s - 1 }
            &&& down == UiView { menu_selected: down.menu_selected, ..v }
            &&& up == UiView { menu_selected: up.menu_selected, ..v }
            &&& down.title_input(Input::ArrowUp, saves).0 == v
            &&& up.title_input(Input::ArrowDown, saves).0 == v
        }),
{
    let n = spec_menu(saves > 0).len();
    let s = v.menu_selected;
    if s + 1 < n {
        vstd::arithmetic::div_mod::lemma_small_mod((s + 1) as nat, n);
    } else {
        vstd::arithmetic::div_mod::lemma_mod_self_0(n as int);
    }
    if s == 0 {
        vstd::arithmetic::div_mod::lemma_mod_self_0(n as int);
    } else {
        vstd::arithmetic::div_mod::lemma_small_mod(s as nat, n);
    }
}

/// The colonist list's keys: with no colonist aboard nothing changes;
/// otherwise, from a selection inside the list, the selection stays inside
/// it: up wraps to the last, down wraps to the first, `,` and `.` move a
/// page and stop at the ends, Home and End jump to the ends, and any other
/// key leaves it. Nothing but the selection changes.
pub proof fn lemma_colonist_keys(v: UiView, input: Input, pods: usize)
    requires
        pods == 0 || v.colonist_selected < pods,
    ensures
        pods == 0 ==> v.colonists_input(input, pods) == v,
        pods > 0 ==> {
            let w = v.colonists_input(input, pods);
            let s = v.colonist_selected as int;
            let last = pods - 1;
            &&& w == UiView { colonist_selected: w.colonist_selected, ..v }
            &&& w.colonist_selected < pods
            &&& match input {
                Input::ArrowUp => w.colonist_selected == if s == 0 { last } else { s - 1 },
                Input::ArrowDown => w.colonist_selected == if s == last { 0 } else { s + 1 },
                Input::Char(',') => w.colonist_selected == if s >= COLONIST_PAGE { s - COLONIST_PAGE } else { 0 },
                Input::Char('.') => w.colonist_selected == if s + COLONIST_PAGE < last { s + COLONIST_PAGE } else { last },
                Input::Home => w.colonist_selected == 0,
                Input::End => w.colonist_selected == last,
                _ => w.colonist_selected == s,
            }
        },
{
    if pods > 0 {
        let sel = v.colonist_selected;
        if sel + 1 < pods {
            vstd::arithmetic::div_mod::lemma_small_mod((sel + 1) as nat, pods as nat);
        } else {
            vstd::arithmetic::div_mod::lemma_mod_self_0(pods as int);
        }
    }
}

/// Moving the resource selection down and then up returns to the same
/// resource; a coarser history range and then a finer one returns to the
/// same tier, short of the coarsest.
pub proof fn lemma_resource_moves_undo(v: UiView)
    requires
        v.wf(),
    ensures
        v.resource_input(Input::ArrowDown).resource_input(Input::ArrowUp).resource_selected
            == v.resource_selected,
        v.history_tier + 1 < TIER_COUNT ==> v.resource_input(Input::Char('-')).resource_input(
            Input::Char('+'),
        ).history_tier == v.history_tier,
{
}

/// Opening the debug screen from a system and closing it again brings back
/// the selected system with the sidebar focused.
pub proof fn lemma_debug_toggle_returns(v: UiView)
    requires
        v.wf(),
        v.screen != ScreenId::Debug,
    ensures
        v.toggle_debug().toggle_debug().screen == ship_systems()[v.system_selected as int],
        v.toggle_debug().toggle_debug().focus == ShipFocus::Systems,
{
}

/// Tab from the sidebar brings up the resource screen with its panel
/// focused, and Tab again returns to the selected system.
pub proof fn lemma_tab_toggles_panels(v: UiView, pods: usize)
    requires
        v.wf(),
        v.focus == ShipFocus::Systems,
    ensures
        ({
            let (w, r1) = v.shell_input(v.screen, Input::Tab, pods);
            let (u, r2) = w.shell_input(w.screen, Input::Tab, pods);
            &&& r1 == Request::Nothing && r2 == Request::Nothing
            &&& w.focus == ShipFocus::Resources && w.screen == ScreenId::Resource
            &&& u.focus == ShipFocus::Systems && u.screen == ship_systems()[v.system_selected as int]
            &&& u.system_selected == v.system_selected
        }),
{
}

} // verus!
