//! The log view: which keys steer it and the help shown below it.
use vstd::prelude::*;

use crate::app_state::KeyCode;
use crate::config::{colored, Config, Style};

verus! {

/// What a key does to the log view.
#[derive(Debug, Clone, Copy, PartialEq, Eq, Structural)]
pub enum LogWidgetEvent {
    SpaceKey,
    PrevPageKey,
    NextPageKey,
    UpKey,
    DownKey,
    LeftKey,
    RightKey,
    PlusKey,
    MinusKey,
    HideKey,
    FocusKey,
    EscapeKey,
}

/// The event a key stands for in the log view, if any.
pub open spec fn log_event_of(code: KeyCode) -> Option<LogWidgetEvent> {
    match code {
        KeyCode::Char(' ') => Some(LogWidgetEvent::SpaceKey),
        KeyCode::PageUp => Some(LogWidgetEvent::PrevPageKey),
        KeyCode::PageDown => Some(LogWidgetEvent::NextPageKey),
        KeyCode::Up => Some(LogWidgetEvent::UpKey),
        KeyCode::Down => Some(LogWidgetEvent::DownKey),
        KeyCode::Left => Some(LogWidgetEvent::LeftKey),
        KeyCode::Right => Some(LogWidgetEvent::RightKey),
        KeyCode::Char('+') => Some(LogWidgetEvent::PlusKey),
        KeyCode::Char('-') => Some(LogWidgetEvent::MinusKey),
        KeyCode::Char('h') => Some(LogWidgetEvent::HideKey),
        KeyCode::Char('f') => Some(LogWidgetEvent::FocusKey),
        KeyCode::Char('s') => Some(LogWidgetEvent::EscapeKey),
        _ => None,
    }
}

/// The log view.
#[derive(Debug)]
pub struct LogBox {
    pub style: Style,
}

impl LogBox {
    /// The log view in the theme's default style.
    pub fn new(config: &Config) -> (r: LogBox)
        ensures
            r.style == colored(config.theme.data.foreground, config.theme.data.background),
    {
        LogBox { style: config.theme.default_style() }
    }

    /// The event a key stands for in the log view, if any.
    pub fn handle_ui_event(&self, code: KeyCode) -> (r: Option<LogWidgetEvent>)
        ensures
            r == log_event_of(code),
    {
        match code {
            KeyCode::Char(' ') => Some(LogWidgetEvent::SpaceKey),
            KeyCode::PageUp => Some(LogWidgetEvent::PrevPageKey),
            KeyCode::PageDown => Some(LogWidgetEvent::NextPageKey),
            KeyCode::Up => Some(LogWidgetEvent::UpKey),
            KeyCode::Down => Some(LogWidgetEvent::DownKey),
            KeyCode::Left => Some(LogWidgetEvent::LeftKey),
            KeyCode::Right => Some(LogWidgetEvent::RightKey),
            KeyCode::Char('+') => Some(LogWidgetEvent::PlusKey),
            KeyCode::Char('-') => Some(LogWidgetEvent::MinusKey),
            KeyCode::Char('h') => Some(LogWidgetEvent::HideKey),
            KeyCode::Char('f') => Some(LogWidgetEvent::FocusKey),
            KeyCode::Char('s') => Some(LogWidgetEvent::EscapeKey),
            _ => None,
        }
    }

    /// The help below the log, shown when the view is wider than 40 cells.
    pub fn help_lines(&self, width: u16) -> (r: Vec<String>)
        ensures
            width <= 40 ==> r@.len() == 0,
            width > 40 ==> r@.len() == 3 && r@[0]@
                == "s: Cancel Scroll | Tab: Switch state | ↑/↓: Select target | f: Focus target"@
                && r@[1]@ == "←/→: Display level | +/-: Filter level | Space: Toggle hidden targets"@
                && r@[2]@ == "h: Hide target selector | PageUp/Down: Scroll | Esc: Exit this screen"@,
    {
        let mut r: Vec<String> = Vec::new();
        if width > 40 {
            r.push(String::from_str(
                "s: Cancel Scroll | Tab: Switch state | ↑/↓: Select target | f: Focus target",
            ));
            r.push(String::from_str(
                "←/→: Display level | +/-: Filter level | Space: Toggle hidden targets",
            ));
            r.push(String::from_str(
                "h: Hide target selector | PageUp/Down: Scroll | Esc: Exit this screen",
            ));
        }
        r
    }
}

} // verus!
