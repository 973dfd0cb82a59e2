//! The interface's modes and how keys and mouse events move between them.
//!
//! The event loop reads an event, hands it to `AppState::process_event`,
//! and performs the actions that come back, in order.
use vstd::prelude::*;

verus! {

/// The screen the user is looking at.
#[derive(Debug, Clone, Copy, PartialEq, Eq, Structural)]
pub enum CurrentScreen {
    Reading,
    Opening,
    Editing,
}

/// A window shown over the screen.
#[derive(Debug, Clone, Copy, PartialEq, Eq, Structural)]
pub enum Popup {
    Help,
    Exit,
}

impl CurrentScreen {
    /// The name of the screen.
    pub open spec fn name(self) -> Seq<char> {
        match self {
            CurrentScreen::Reading => "Reading"@,
            CurrentScreen::Opening => "Opening"@,
            CurrentScreen::Editing => "Editing"@,
        }
    }

    /// The name of the screen, as shown in the title bar.
    pub fn to_string(&self) -> (r: String)
        ensures
            r@ == self.name(),
    {
        proof {
            reveal_strlit("Reading");
            reveal_strlit("Opening");
            reveal_strlit("Editing");
        }
        match self {
            CurrentScreen::Reading => String::from_str("Reading"),
            CurrentScreen::Opening => String::from_str("Opening"),
            CurrentScreen::Editing => String::from_str("Editing"),
        }
    }
}

impl Popup {
    /// The name of the popup.
    pub fn to_string(&self) -> (r: String)
        ensures
            r@ == (match *self {
                Popup::Help => "Help"@,
                Popup::Exit => "Exit"@,
            }),
    {
        proof {
            reveal_strlit("Help");
            reveal_strlit("Exit");
        }
        match self {
            Popup::Help => String::from_str("Help"),
            Popup::Exit => String::from_str("Exit"),
        }
    }
}

/// The key of a key event.
#[derive(Debug, Clone, Copy, PartialEq, Eq, Structural)]
pub enum KeyCode {
    Char(char),
    Esc,
    Enter,
    Left,
    Right,
    Up,
    Down,
    PageUp,
    PageDown,
    Home,
    End,
    Backspace,
    Other,
}

/// A key event: the key, whether Control or Shift was held, and whether
/// the key was pressed (rather than repeated or released).
#[derive(Debug, Clone, Copy, PartialEq, Eq, Structural)]
pub struct KeyEvent {
    pub code: KeyCode,
    pub ctrl: bool,
    pub shift: bool,
    pub press: bool,
}

/// An input event.
#[derive(Debug, Clone, Copy, PartialEq, Eq, Structural)]
pub enum UiEvent {
    Key(KeyEvent),
    ScrollDown,
    ScrollUp,
    /// A mouse button went down at (column, row).
    Click(u16, u16),
    Other,
}

/// What the event loop does in answer to an event.
#[derive(Debug, Clone, Copy, PartialEq, Eq, Structural)]
pub enum UiAction {
    ScrollDown,
    ScrollUp,
    ClickAt(u16, u16),
    MarkCurrentAsRead,
    SendMessage,
    /// Hand the key to the text input.
    InputKey,
    SelectorLeft,
    SelectorRight,
    SelectorUp,
    SelectorDown,
    /// Move the selection nine entries down.
    SelectorPageDown,
    /// Move the selection nine entries up.
    SelectorPageUp,
    SelectorToggle,
    SelectorFirst,
    SelectorLast,
    SelectRoom,
    ClickSelector(u16, u16),
    WriteLogFiles,
    Exit,
}

/// The state of the interface's modes.
#[derive(Debug, Clone, Copy, PartialEq, Eq, Structural)]
pub struct AppState {
    pub current_screen: CurrentScreen,
    pub popup: Option<Popup>,
    pub user_sidebar_visible: bool,
}

/// A key in the help popup.
pub open spec fn help_key(s: AppState, code: KeyCode) -> AppState {
    match code {
        KeyCode::Char('q') => AppState { popup: Some(Popup::Exit), ..s },
        KeyCode::Esc => AppState { popup: None, ..s },
        KeyCode::Char('o') => AppState {
            popup: None,
            current_screen: CurrentScreen::Opening,
            ..s
        },
        _ => s,
    }
}

/// A key in the exit popup: the state after it and whether the program
/// ends.
pub open spec fn exit_key(s: AppState, code: KeyCode) -> (AppState, bool) {
    match code {
        KeyCode::Char('?') => (AppState { popup: Some(Popup::Help), ..s }, false),
        KeyCode::Char('y') => (s, true),
        KeyCode::Char('n') => (AppState { popup: None, ..s }, false),
        _ => (s, false),
    }
}

/// A key on the reading screen.
pub open spec fn reading_key(s: AppState, k: KeyEvent) -> (AppState, Seq<UiAction>) {
    match k.code {
        KeyCode::Char('c') if k.ctrl => (AppState { popup: Some(Popup::Exit), ..s }, seq![]),
        KeyCode::Char('e') | KeyCode::Char('i') => (
            AppState { current_screen: CurrentScreen::Editing, ..s },
            seq![],
        ),
        KeyCode::Char('j') if k.press => (s, seq![UiAction::ScrollDown]),
        KeyCode::Down if k.press => (s, seq![UiAction::ScrollDown]),
        KeyCode::Char('k') if k.press => (s, seq![UiAction::ScrollUp]),
        KeyCode::Up if k.press => (s, seq![UiAction::ScrollUp]),
        KeyCode::Char('m') => (s, seq![UiAction::MarkCurrentAsRead]),
        KeyCode::Char('o') => (AppState { current_screen: CurrentScreen::Opening, ..s }, seq![]),
        KeyCode::Char('q') => (AppState { popup: Some(Popup::Exit), ..s }, seq![]),
        KeyCode::Char('?') => (AppState { popup: Some(Popup::Help), ..s }, seq![]),
        KeyCode::Char('u') => (
            AppState { user_sidebar_visible: !s.user_sidebar_visible, ..s },
            seq![],
        ),
        _ => (s, seq![]),
    }
}

/// A key on the conversation selection screen.
pub open spec fn opening_key(s: AppState, k: KeyEvent) -> (AppState, Seq<UiAction>) {
    match k.code {
        KeyCode::Esc => (AppState { current_screen: CurrentScreen::Reading, ..s }, seq![]),
        KeyCode::Char('h') | KeyCode::Left => (s, seq![UiAction::SelectorLeft]),
        KeyCode::Char('j') | KeyCode::Down => (s, seq![UiAction::SelectorDown]),
        KeyCode::Char('k') | KeyCode::Up => (s, seq![UiAction::SelectorUp]),
        KeyCode::Char('l') | KeyCode::Right => (s, seq![UiAction::SelectorRight]),
        KeyCode::Char('d') | KeyCode::PageDown => (s, seq![UiAction::SelectorPageDown]),
        KeyCode::Char('u') | KeyCode::PageUp => (s, seq![UiAction::SelectorPageUp]),
        KeyCode::Char('q') => (AppState { popup: Some(Popup::Exit), ..s }, seq![]),
        KeyCode::Char('?') => (AppState { popup: Some(Popup::Help), ..s }, seq![]),
        KeyCode::Char(' ') => (s, seq![UiAction::SelectorToggle]),
        KeyCode::Enter => (s, seq![UiAction::SelectRoom]),
        KeyCode::Home => (s, seq![UiAction::SelectorFirst]),
        KeyCode::End => (s, seq![UiAction::SelectorLast]),
        _ => (s, seq![]),
    }
}

/// A key on the editing screen: Escape leaves it, Enter (without Shift)
/// leaves it, marks the conversation as read and sends the message, and
/// every other key goes to the text input.
pub open spec fn editing_key(s: AppState, k: KeyEvent) -> (AppState, Seq<UiAction>) {
    match k.code {
        KeyCode::Esc => (AppState { current_screen: CurrentScreen::Reading, ..s }, seq![]),
        KeyCode::Enter if !k.shift => (
            AppState { current_screen: CurrentScreen::Reading, ..s },
            seq![UiAction::MarkCurrentAsRead, UiAction::SendMessage],
        ),
        _ => (s, seq![UiAction::InputKey]),
    }
}

/// The state and actions after a key: an open popup sees the key first
/// (the exit popup may end the program), then the current screen does.
pub open spec fn key_step(s: AppState, k: KeyEvent) -> (AppState, Seq<UiAction>) {
    let (s1, exit) = match s.popup {
        Some(Popup::Help) => (help_key(s, k.code), false),
        Some(Popup::Exit) => exit_key(s, k.code),
        None => (s, false),
    };
    if exit {
        (s1, seq![UiAction::WriteLogFiles, UiAction::Exit])
    } else {
        match s1.current_screen {
            CurrentScreen::Reading => reading_key(s1, k),
            CurrentScreen::Editing => editing_key(s1, k),
            CurrentScreen::Opening => opening_key(s1, k),
        }
    }
}

/// The state and actions after an event.
pub open spec fn event_step(s: AppState, e: UiEvent) -> (AppState, Seq<UiAction>) {
    match e {
        UiEvent::Key(k) => key_step(s, k),
        UiEvent::ScrollDown => (s, seq![UiAction::ScrollDown]),
        UiEvent::ScrollUp => (s, seq![UiAction::ScrollUp]),
        UiEvent::Click(x, y) => (s, seq![
            match s.current_screen {
                CurrentScreen::Opening => UiAction::ClickSelector(x, y),
                _ => UiAction::ClickAt(x, y),
            },
        ]),
        UiEvent::Other => (s, seq![]),
    }
}

/// What the screen shows.
#[derive(Debug, Clone, Copy, PartialEq, Eq, Structural)]
pub struct UiLayout {
    /// The conversation selector fills the screen below the title.
    pub show_selector: bool,
    /// The user list is shown beside the conversation.
    pub show_users: bool,
    /// The size of the popup, if one is open.
    pub popup_size: Option<PopupSize>,
}

/// The width and height of a popup, in cells.
#[derive(Debug, Clone, Copy, PartialEq, Eq, Structural)]
pub struct PopupSize {
    pub width: u16,
    pub height: u16,
}

impl AppState {
    /// The start-up state: reading, no popup, the user list as configured.
    pub fn new(user_sidebar_default: bool) -> (r: AppState)
        ensures
            r == (AppState {
                current_screen: CurrentScreen::Reading,
                popup: None,
                user_sidebar_visible: user_sidebar_default,
            }),
    {
        AppState {
            current_screen: CurrentScreen::Reading,
            popup: None,
            user_sidebar_visible: user_sidebar_default,
        }
    }

    /// Shows or hides the user list.
    pub fn toggle_user_sidebar(&mut self)
        ensures
            final(self).user_sidebar_visible == !old(self).user_sidebar_visible,
            final(self).current_screen == old(self).current_screen,
            final(self).popup == old(self).popup,
    {
        self.user_sidebar_visible = !self.user_sidebar_visible;
    }

    /// Returns to the reading screen once a conversation was opened.
    pub fn enter_reading(&mut self)
        ensures
            *final(self) == (AppState { current_screen: CurrentScreen::Reading, ..*old(self) }),
    {
        self.current_screen = CurrentScreen::Reading;
    }

    fn handle_key_in_help(&mut self, code: KeyCode)
        ensures
            *final(self) == help_key(*old(self), code),
    {
        match code {
            KeyCode::Char('q') => self.popup = Some(Popup::Exit),
            KeyCode::Esc => self.popup = None,
            KeyCode::Char('o') => {
                self.popup = None;
                self.current_screen = CurrentScreen::Opening;
            },
            _ => {},
        }
    }

    fn handle_key_in_exit(&mut self, code: KeyCode) -> (r: bool)
        ensures
            (*final(self), r) == exit_key(*old(self), code),
    {
        match code {
            KeyCode::Char('?') => {
                self.popup = Some(Popup::Help);
                false
            },
            KeyCode::Char('y') => true,
            KeyCode::Char('n') => {
                self.popup = None;
                false
            },
            _ => false,
        }
    }

    fn handle_key_in_reading(&mut self, k: KeyEvent) -> (r: Vec<UiAction>)
        ensures
            (*final(self), r@) == reading_key(*old(self), k),
    {
        let mut actions: Vec<UiAction> = Vec::new();
        match k.code {
            KeyCode::Char('c') if k.ctrl => self.popup = Some(Popup::Exit),
            KeyCode::Char('e') | KeyCode::Char('i') => self.current_screen = CurrentScreen::Editing,
            KeyCode::Char('j') if k.press => actions.push(UiAction::ScrollDown),
            KeyCode::Down if k.press => actions.push(UiAction::ScrollDown),
            KeyCode::Char('k') if k.press => actions.push(UiAction::ScrollUp),
            KeyCode::Up if k.press => actions.push(UiAction::ScrollUp),
            KeyCode::Char('m') => actions.push(UiAction::MarkCurrentAsRead),
            KeyCode::Char('o') => self.current_screen = CurrentScreen::Opening,
            KeyCode::Char('q') => self.popup = Some(Popup::Exit),
            KeyCode::Char('?') => self.popup = Some(Popup::Help),
            KeyCode::Char('u') => self.toggle_user_sidebar(),
            _ => {},
        }
        assert(actions@ =~= reading_key(*old(self), k).1);
        actions
    }

    fn handle_key_in_opening(&mut self, k: KeyEvent) -> (r: Vec<UiAction>)
        ensures
            (*final(self), r@) == opening_key(*old(self), k),
    {
        let mut actions: Vec<UiAction> = Vec::new();
        match k.code {
            KeyCode::Esc => self.current_screen = CurrentScreen::Reading,
            KeyCode::Char('h') | KeyCode::Left => actions.push(UiAction::SelectorLeft),
            KeyCode::Char('j') | KeyCode::Down => actions.push(UiAction::SelectorDown),
            KeyCode::Char('k') | KeyCode::Up => actions.push(UiAction::SelectorUp),
            KeyCode::Char('l') | KeyCode::Right => actions.push(UiAction::SelectorRight),
            KeyCode::Char('d') | KeyCode::PageDown => actions.push(UiAction::SelectorPageDown),
            KeyCode::Char('u') | KeyCode::PageUp => actions.push(UiAction::SelectorPageUp),
            KeyCode::Char('q') => self.popup = Some(Popup::Exit),
            KeyCode::Char('?') => self.popup = Some(Popup::Help),
            KeyCode::Char(' ') => actions.push(UiAction::SelectorToggle),
            KeyCode::Enter => actions.push(UiAction::SelectRoom),
            KeyCode::Home => actions.push(UiAction::SelectorFirst),
            KeyCode::End => actions.push(UiAction::SelectorLast),
            _ => {},
        }
        assert(actions@ =~= opening_key(*old(self), k).1);
        actions
    }

    fn handle_key_in_editing(&mut self, k: KeyEvent) -> (r: Vec<UiAction>)
        ensures
            (*final(self), r@) == editing_key(*old(self), k),
    {
        let mut actions: Vec<UiAction> = Vec::new();
        let leaves = match k.code {
            KeyCode::Esc => true,
            KeyCode::Enter => !k.shift,
            _ => false,
        };
        if leaves {
            self.current_screen = CurrentScreen::Reading;
            if k.code != KeyCode::Esc {
                actions.push(UiAction::MarkCurrentAsRead);
                actions.push(UiAction::SendMessage);
            }
        } else {
            actions.push(UiAction::InputKey);
        }
        assert(actions@ =~= editing_key(*old(self), k).1);
        actions
    }

    /// Handles one event: updates the modes and returns the actions to
    /// perform, in order. `UiAction::Exit` ends the program.
    pub fn process_event(&mut self, event: UiEvent) -> (r: Vec<UiAction>)
        ensures
            (*final(self), r@) == event_step(*old(self), event),
    {
        match event {
            UiEvent::Key(k) => {
                let exit = match self.popup {
                    Some(Popup::Help) => {
                        self.handle_key_in_help(k.code);
                        false
                    },
                    Some(Popup::Exit) => self.handle_key_in_exit(k.code),
                    None => false,
                };
                if exit {
                    let mut actions: Vec<UiAction> = Vec::new();
                    actions.push(UiAction::WriteLogFiles);
                    actions.push(UiAction::Exit);
                    assert(actions@ =~= seq![UiAction::WriteLogFiles, UiAction::Exit]);
                    return actions;
                }
                match self.current_screen {
                    CurrentScreen::Reading => self.handle_key_in_reading(k),
                    CurrentScreen::Editing => self.handle_key_in_editing(k),
                    CurrentScreen::Opening => self.handle_key_in_opening(k),
                }
            },
            UiEvent::ScrollDown => {
                let mut actions: Vec<UiAction> = Vec::new();
                actions.push(UiAction::ScrollDown);
                assert(actions@ =~= seq![UiAction::ScrollDown]);
                actions
            },
            UiEvent::ScrollUp => {
                let mut actions: Vec<UiAction> = Vec::new();
                actions.push(UiAction::ScrollUp);
                assert(actions@ =~= seq![UiAction::ScrollUp]);
                actions
            },
            UiEvent::Click(x, y) => {
                let mut actions: Vec<UiAction> = Vec::new();
                let action = match self.current_screen {
                    CurrentScreen::Opening => UiAction::ClickSelector(x, y),
                    _ => UiAction::ClickAt(x, y),
                };
                actions.push(action);
                assert(actions@ =~= event_step(*old(self), event).1);
                actions
            },
            UiEvent::Other => Vec::new(),
        }
    }

    /// What the screen shows, given whether the current conversation is a
    /// group conversation.
    pub fn layout(&self, current_is_group: bool) -> (r: UiLayout)
        ensures
            r.show_selector == (self.current_screen == CurrentScreen::Opening),
            r.show_users == (self.current_screen != CurrentScreen::Opening
                && self.user_sidebar_visible && current_is_group),
            r.popup_size == (match self.popup {
                Some(Popup::Help) => Some(PopupSize { width: 130, height: 12 }),
                Some(Popup::Exit) => Some(PopupSize { width: 40, height: 3 }),
                None => None,
            }),
    {
        let show_selector = match self.current_screen {
            CurrentScreen::Opening => true,
            _ => false,
        };
        let popup_size = match self.popup {
            Some(Popup::Help) => Some(PopupSize { width: 130, height: 12 }),
            Some(Popup::Exit) => Some(PopupSize { width: 40, height: 3 }),
            None => None,
        };
        UiLayout {
            show_selector,
            show_users: !show_selector && self.user_sidebar_visible && current_is_group,
            popup_size,
        }
    }
}

/// On the reading screen with no popup, pressing 'u' twice shows or hides
/// the user list and then restores the state as it was.
pub proof fn law_toggle_sidebar_twice(s: AppState, k: KeyEvent)
    requires
        s.current_screen == CurrentScreen::Reading,
        s.popup is None,
        k.code == KeyCode::Char('u'),
    ensures
        key_step(s, k).0.user_sidebar_visible == !s.user_sidebar_visible,
        key_step(key_step(s, k).0, k).0 == s,
{
}

/// The controls: from reading, 'e' or 'i' edit, 'o' opens the selection,
/// 'q' asks whether to quit and '?' shows the help; while editing, Enter
/// (without Shift) marks the conversation read, sends the message and
/// returns to reading; in the selection, Enter opens the chosen
/// conversation and Escape returns to reading. All with no popup open.
pub proof fn law_controls(s: AppState, k: KeyEvent)
    requires
        s.popup is None,
    ensures
        s.current_screen == CurrentScreen::Reading && (k.code == KeyCode::Char('e') || k.code
            == KeyCode::Char('i')) ==> key_step(s, k).0.current_screen == CurrentScreen::Editing,
        s.current_screen == CurrentScreen::Reading && k.code == KeyCode::Char('o') ==> key_step(
            s,
            k,
        ).0.current_screen == CurrentScreen::Opening,
        s.current_screen == CurrentScreen::Reading && k.code == KeyCode::Char('q') ==> key_step(
            s,
            k,
        ).0.popup == Some(Popup::Exit),
        s.current_screen == CurrentScreen::Reading && k.code == KeyCode::Char('?') ==> key_step(
            s,
            k,
        ).0.popup == Some(Popup::Help),
        s.current_screen == CurrentScreen::Editing && k.code == KeyCode::Enter && !k.shift ==> (
        key_step(s, k).0.current_screen == CurrentScreen::Reading && key_step(s, k).1 == seq![
            UiAction::MarkCurrentAsRead,
            UiAction::SendMessage,
        ]),
        s.current_screen == CurrentScreen::Opening && k.code == KeyCode::Enter ==> key_step(
            s,
            k,
        ).1 == seq![UiAction::SelectRoom],
        s.current_screen == CurrentScreen::Opening && k.code == KeyCode::Esc ==> key_step(
            s,
            k,
        ).0.current_screen == CurrentScreen::Reading,
{
}

/// Escape always leads from the editing screen back to reading, without
/// any action, when no popup is open.
pub proof fn law_escape_leaves_editing(s: AppState, k: KeyEvent)
    requires
        s.current_screen == CurrentScreen::Editing,
        s.popup is None,
        k.code == KeyCode::Esc,
    ensures
        key_step(s, k).0.current_screen == CurrentScreen::Reading,
        key_step(s, k).1.len() == 0,
{
}

/// In the exit popup, 'y' writes the logs and ends the program, and 'n'
/// closes the popup without any action on the reading screen.
pub proof fn law_exit_popup_answers(s: AppState, k: KeyEvent)
    requires
        s.popup == Some(Popup::Exit),
    ensures
        k.code == KeyCode::Char('y') ==> key_step(s, k).1 == seq![
            UiAction::WriteLogFiles,
            UiAction::Exit,
        ],
        k.code == KeyCode::Char('n') && s.current_screen == CurrentScreen::Reading ==> (key_step(
            s,
            k,
        ).0 == (AppState { popup: None, ..s }) && key_step(s, k).1.len() == 0),
{
}

/// Only the exit popup's 'y' ends the program.
pub proof fn law_only_exit_popup_ends(s: AppState, e: UiEvent)
    ensures
        event_step(s, e).1.contains(UiAction::Exit) ==> (s.popup == Some(Popup::Exit) && (e matches UiEvent::Key(k) && k.code == KeyCode::Char('y'))),
{
    let (s2, acts) = event_step(s, e);
    if acts.contains(UiAction::Exit) {
        let i = choose|i: int| 0 <= i < acts.len() && acts[i] == UiAction::Exit;
        match e {
            UiEvent::Key(k) => {
                let (s1, exit) = match s.popup {
                    Some(Popup::Help) => (help_key(s, k.code), false),
                    Some(Popup::Exit) => exit_key(s, k.code),
                    None => (s, false),
                };
                if !exit {
                    match s1.current_screen {
                        CurrentScreen::Reading => {
                            assert(acts == reading_key(s1, k).1);
                        },
                        CurrentScreen::Editing => {
                            assert(acts == editing_key(s1, k).1);
                        },
                        CurrentScreen::Opening => {
                            assert(acts == opening_key(s1, k).1);
                        },
                    }
                }
            },
            _ => {},
        }
    }
}

/// The navigation keys with no popup open: in the conversation selection
/// 'j' or Down moves the selection down, 'k' or Up up, 'h' or Left and 'l'
/// or Right collapse and expand, 'd' or Page Down and 'u' or Page Up move
/// nine entries, Home and End go to the first and last entry and Space
/// toggles, each leaving the modes as they are; on the reading screen a
/// pressed 'j' or Down scrolls down and a pressed 'k' or Up scrolls up.
pub proof fn law_navigation_keys(s: AppState, k: KeyEvent)
    requires
        s.popup is None,
    ensures
        s.current_screen == CurrentScreen::Opening && (k.code == KeyCode::Char('j') || k.code
            == KeyCode::Down) ==> key_step(s, k) == (s, seq![UiAction::SelectorDown]),
        s.current_screen == CurrentScreen::Opening && (k.code == KeyCode::Char('k') || k.code
            == KeyCode::Up) ==> key_step(s, k) == (s, seq![UiAction::SelectorUp]),
        s.current_screen == CurrentScreen::Opening && (k.code == KeyCode::Char('h') || k.code
            == KeyCode::Left) ==> key_step(s, k) == (s, seq![UiAction::SelectorLeft]),
        s.current_screen == CurrentScreen::Opening && (k.code == KeyCode::Char('l') || k.code
            == KeyCode::Right) ==> key_step(s, k) == (s, seq![UiAction::SelectorRight]),
        s.current_screen == CurrentScreen::Opening && (k.code == KeyCode::Char('d') || k.code
            == KeyCode::PageDown) ==> key_step(s, k) == (s, seq![UiAction::SelectorPageDown]),
        s.current_screen == CurrentScreen::Opening && (k.code == KeyCode::Char('u') || k.code
            == KeyCode::PageUp) ==> key_step(s, k) == (s, seq![UiAction::SelectorPageUp]),
        s.current_screen == CurrentScreen::Opening && k.code == KeyCode::Home ==> key_step(s, k)
            == (s, seq![UiAction::SelectorFirst]),
        s.current_screen == CurrentScreen::Opening && k.code == KeyCode::End ==> key_step(s, k)
            == (s, seq![UiAction::SelectorLast]),
        s.current_screen == CurrentScreen::Opening && k.code == KeyCode::Char(' ') ==> key_step(
            s,
            k,
        ) == (s, seq![UiAction::SelectorToggle]),
        s.current_screen == CurrentScreen::Reading && k.press && (k.code == KeyCode::Char('j')
            || k.code == KeyCode::Down) ==> key_step(s, k) == (s, seq![UiAction::ScrollDown]),
        s.current_screen == CurrentScreen::Reading && k.press && (k.code == KeyCode::Char('k')
            || k.code == KeyCode::Up) ==> key_step(s, k) == (s, seq![UiAction::ScrollUp]),
{
}

/// The remaining keys with no popup open: in the selection 'q' asks whether
/// to quit and '?' opens the help, without an action; on the reading screen
/// 'm' marks the conversation as read and Control-C asks whether to quit;
/// while editing every key but Escape and Enter goes to the text input,
/// and a shifted Enter too.
pub proof fn law_other_keys(s: AppState, k: KeyEvent)
    requires
        s.popup is None,
    ensures
        s.current_screen == CurrentScreen::Opening && k.code == KeyCode::Char('q') ==> key_step(
            s,
            k,
        ) == (AppState { popup: Some(Popup::Exit), ..s }, Seq::<UiAction>::empty()),
        s.current_screen == CurrentScreen::Opening && k.code == KeyCode::Char('?') ==> key_step(
            s,
            k,
        ) == (AppState { popup: Some(Popup::Help), ..s }, Seq::<UiAction>::empty()),
        s.current_screen == CurrentScreen::Reading && k.code == KeyCode::Char('m') ==> key_step(
            s,
            k,
        ) == (s, seq![UiAction::MarkCurrentAsRead]),
        s.current_screen == CurrentScreen::Reading && k.code == KeyCode::Char('c') && k.ctrl
            ==> key_step(s, k) == (AppState { popup: Some(Popup::Exit), ..s }, Seq::<
            UiAction,
        >::empty()),
        s.current_screen == CurrentScreen::Editing && k.code != KeyCode::Esc && (k.code
            != KeyCode::Enter || k.shift) ==> key_step(s, k) == (s, seq![UiAction::InputKey]),
{
}

/// The popups: in the help, Escape closes it, 'q' turns it into the exit
/// question and 'o' closes it and opens the selection; in the exit
/// question '?' turns it into the help. None of these ends the program.
pub proof fn law_popup_keys(s: AppState, k: KeyEvent)
    ensures
        s.popup == Some(Popup::Help) && k.code == KeyCode::Esc ==> key_step(s, k).0.popup is None
            && !key_step(s, k).1.contains(UiAction::Exit),
        s.popup == Some(Popup::Help) && k.code == KeyCode::Char('q') ==> key_step(s, k).0.popup
            == Some(Popup::Exit),
        s.popup == Some(Popup::Help) && k.code == KeyCode::Char('o') ==> key_step(s, k).0.popup
            is None && key_step(s, k).0.current_screen == CurrentScreen::Opening,
        s.popup == Some(Popup::Exit) && k.code == KeyCode::Char('?') ==> key_step(s, k).0.popup
            == Some(Popup::Help),
{
    if s.popup == Some(Popup::Help) && k.code == KeyCode::Esc {
        let acts = key_step(s, k).1;
        if acts.contains(UiAction::Exit) {
            let i = choose|i: int| 0 <= i < acts.len() && acts[i] == UiAction::Exit;
            assert(acts[i] == UiAction::Exit);
        }
    }
}

} // verus!
