//! The configuration: account, notification and interface settings, and
//! the colour theme with the styles derived from it.
use etcetera::app_strategy::AppStrategy;
use vstd::prelude::*;

verus! {

/// Account settings.
#[derive(Debug)]
pub struct General {
    /// The name used for storage and display.
    pub chat_server_name: String,
    /// The base address of the Nextcloud instance.
    pub url: String,
    /// The user name.
    pub user: String,
    /// The app password generated by Nextcloud.
    pub app_pw: String,
    /// Whether a log file is written into the data directory.
    pub log_to_file: bool,
    /// Whether answers that cannot be read are dumped into files.
    pub dump_failed_requests_to_file: bool,
}

impl Default for General {
    fn default() -> (r: Self)
        ensures
            r.chat_server_name@.len() == 0,
            r.url@.len() == 0,
            r.user@.len() == 0,
            r.app_pw@.len() == 0,
            !r.log_to_file,
            !r.dump_failed_requests_to_file,
    {
        General {
            chat_server_name: String::new(),
            url: String::new(),
            user: String::new(),
            app_pw: String::new(),
            log_to_file: false,
            dump_failed_requests_to_file: false,
        }
    }
}

/// Notification settings.
#[derive(Debug)]
pub struct Notifications {
    /// How long a notification is shown, in milliseconds.
    pub timeout_ms: u32,
    /// Whether notifications stay until dismissed.
    pub persistent: bool,
    /// Whether notifications make no sound.
    pub silent: bool,
}

impl Default for Notifications {
    fn default() -> (r: Self)
        ensures
            r.timeout_ms == 0,
            !r.persistent,
            !r.silent,
    {
        Notifications { timeout_ms: 0, persistent: false, silent: false }
    }
}

/// Interface settings.
#[derive(Debug)]
pub struct Ui {
    /// The conversation shown at start-up.
    pub default_room: String,
    pub categories: Vec<String>,
    pub categories_separator: String,
    /// Whether the user list is shown in conversations by default.
    pub user_sidebar_default: bool,
    pub use_mouse: bool,
    pub use_paste: bool,
    /// The name of the colour theme.
    pub theme: String,
    /// The `strftime` pattern of the date lines in a conversation.
    pub date_format: String,
}

impl Default for Ui {
    fn default() -> (r: Self)
        ensures
            r.default_room@.len() == 0,
            r.categories@.len() == 0,
            r.categories_separator@.len() == 0,
            !r.user_sidebar_default,
            !r.use_mouse,
            !r.use_paste,
            r.theme@.len() == 0,
            r.date_format@.len() == 0,
    {
        Ui {
            default_room: String::new(),
            categories: Vec::new(),
            categories_separator: String::new(),
            user_sidebar_default: false,
            use_mouse: false,
            use_paste: false,
            theme: String::new(),
            date_format: String::new(),
        }
    }
}

/// All settings of the configuration file.
#[derive(Debug)]
pub struct Data {
    pub general: General,
    pub notifications: Notifications,
    pub ui: Ui,
}

/// The settings read from the configuration file.
pub type ConfigOptions = Data;

/// The settings before a configuration file is read: every text and list
/// empty, every switch off, the notification timeout zero.
pub open spec fn is_default_data(d: Data) -> bool {
    &&& d.general.chat_server_name@.len() == 0
    &&& d.general.url@.len() == 0
    &&& d.general.user@.len() == 0
    &&& d.general.app_pw@.len() == 0
    &&& !d.general.log_to_file
    &&& !d.general.dump_failed_requests_to_file
    &&& d.notifications.timeout_ms == 0
    &&& !d.notifications.persistent
    &&& !d.notifications.silent
    &&& d.ui.default_room@.len() == 0
    &&& d.ui.categories@.len() == 0
    &&& d.ui.categories_separator@.len() == 0
    &&& !d.ui.user_sidebar_default
    &&& !d.ui.use_mouse
    &&& !d.ui.use_paste
    &&& d.ui.theme@.len() == 0
    &&& d.ui.date_format@.len() == 0
}

impl Default for Data {
    fn default() -> (r: Self)
        ensures
            is_default_data(r),
    {
        Data { general: General::default(), notifications: Notifications::default(), ui: Ui::default() }
    }
}

/// A terminal colour.
#[derive(Debug, Clone, Copy, PartialEq, Eq, Structural)]
pub enum Color {
    Reset,
    Black,
    Red,
    Green,
    Yellow,
    Blue,
    Magenta,
    Cyan,
    Gray,
    DarkGray,
    LightRed,
    LightGreen,
    LightYellow,
    LightBlue,
    LightMagenta,
    LightCyan,
    White,
    Rgb(u8, u8, u8),
    Indexed(u8),
}

/// A text style: foreground and background colours, if set, and the
/// modifiers this program uses.
#[derive(Debug, Clone, Copy, PartialEq, Eq, Structural)]
pub struct Style {
    pub fg: Option<Color>,
    pub bg: Option<Color>,
    pub bold: bool,
    pub rapid_blink: bool,
}

impl Style {
    /// The empty style.
    pub fn new() -> (r: Style)
        ensures
            r == (Style { fg: None, bg: None, bold: false, rapid_blink: false }),
    {
        Style { fg: None, bg: None, bold: false, rapid_blink: false }
    }

    /// The style with the foreground colour `c`.
    pub fn fg(self, c: Color) -> (r: Style)
        ensures
            r == (Style { fg: Some(c), ..self }),
    {
        Style { fg: Some(c), ..self }
    }

    /// The style with the background colour `c`.
    pub fn bg(self, c: Color) -> (r: Style)
        ensures
            r == (Style { bg: Some(c), ..self }),
    {
        Style { bg: Some(c), ..self }
    }

    /// The style in bold.
    pub fn bold(self) -> (r: Style)
        ensures
            r == (Style { bold: true, ..self }),
    {
        Style { bold: true, ..self }
    }

    /// The style blinking rapidly.
    pub fn rapid_blink(self) -> (r: Style)
        ensures
            r == (Style { rapid_blink: true, ..self }),
    {
        Style { rapid_blink: true, ..self }
    }
}

/// A style with the given colours and no modifier.
pub open spec fn colored(fg: Color, bg: Color) -> Style {
    Style { fg: Some(fg), bg: Some(bg), bold: false, rapid_blink: false }
}


/// The colours of a theme.
#[derive(Debug, Clone, Copy, PartialEq, Eq, Structural)]
pub struct ColorPalette {
    /// Default background.
    pub background: Color,
    /// Default text colour.
    pub foreground: Color,
    /// Background of highlighted lines.
    pub background_highlight: Color,
    /// Foreground of highlighted lines.
    pub foreground_highlight: Color,
    /// Background of the unread-message marker.
    pub background_unread_message: Color,
    /// Foreground of the unread-message marker.
    pub foreground_unread_message: Color,
    /// Text colour of chat and user table headers.
    pub table_header: Color,
    /// Text colour of the title bar.
    pub foreground_titlebar: Color,
    /// Background of highlighted title bar contents.
    pub background_important_titlebar: Color,
    /// Text colour of highlighted title bar contents.
    pub foreground_important_titlebar: Color,
    /// Foreground of users who are away.
    pub user_away: Color,
    /// Foreground of users who do not want to be disturbed.
    pub user_dnd: Color,
    /// Foreground of users who are offline.
    pub user_offline: Color,
    /// Foreground of users who are online.
    pub user_online: Color,
    /// Borders of popup windows.
    pub popup_border: Color,
}

/// The palette in which every colour is the terminal's own.
pub open spec fn reset_palette() -> ColorPalette {
    ColorPalette {
        background: Color::Reset,
        foreground: Color::Reset,
        background_highlight: Color::Reset,
        foreground_highlight: Color::Reset,
        background_unread_message: Color::Reset,
        foreground_unread_message: Color::Reset,
        table_header: Color::Reset,
        foreground_titlebar: Color::Reset,
        background_important_titlebar: Color::Reset,
        foreground_important_titlebar: Color::Reset,
        user_away: Color::Reset,
        user_dnd: Color::Reset,
        user_offline: Color::Reset,
        user_online: Color::Reset,
        popup_border: Color::Reset,
    }
}

impl Default for ColorPalette {
    fn default() -> (r: Self)
        ensures
            r == reset_palette(),
    {
        ColorPalette {
            background: Color::Reset,
            foreground: Color::Reset,
            background_highlight: Color::Reset,
            foreground_highlight: Color::Reset,
            background_unread_message: Color::Reset,
            foreground_unread_message: Color::Reset,
            table_header: Color::Reset,
            foreground_titlebar: Color::Reset,
            background_important_titlebar: Color::Reset,
            foreground_important_titlebar: Color::Reset,
            user_away: Color::Reset,
            user_dnd: Color::Reset,
            user_offline: Color::Reset,
            user_online: Color::Reset,
            popup_border: Color::Reset,
        }
    }
}

/// The colour theme.
#[derive(Debug, Clone, Copy, PartialEq, Eq, Structural)]
pub struct Theme {
    pub data: ColorPalette,
}

impl Default for Theme {
    fn default() -> (r: Self)
        ensures
            r.data == reset_palette(),
    {
        Theme { data: ColorPalette::default() }
    }
}

impl Theme {
    /// Takes a new palette.
    pub fn set_theme(&mut self, data: ColorPalette)
        ensures
            final(self).data == data,
    {
        self.data = data;
    }

    /// The style of ordinary text.
    pub fn default_style(&self) -> (r: Style)
        ensures
            r == (colored(self.data.foreground, self.data.background)),
    {
        Style::new().fg(self.data.foreground).bg(self.data.background)
    }

    /// The style of a highlighted line.
    pub fn default_highlight_style(&self) -> (r: Style)
        ensures
            r == (colored(self.data.foreground_highlight, self.data.background_highlight)),
    {
        Style::new().fg(self.data.foreground_highlight).bg(self.data.background_highlight)
    }

    /// The style of a user who is away.
    pub fn user_away_style(&self) -> (r: Style)
        ensures
            r == (colored(self.data.user_away, self.data.background)),
    {
        Style::new().fg(self.data.user_away).bg(self.data.background)
    }

    /// The style of a user who does not want to be disturbed.
    pub fn user_dnd_style(&self) -> (r: Style)
        ensures
            r == (colored(self.data.user_dnd, self.data.background)),
    {
        Style::new().fg(self.data.user_dnd).bg(self.data.background)
    }

    /// The style of a user who is offline.
    pub fn user_offline_style(&self) -> (r: Style)
        ensures
            r == (colored(self.data.user_offline, self.data.background)),
    {
        Style::new().fg(self.data.user_offline).bg(self.data.background)
    }

    /// The style of a user who is online.
    pub fn user_online_style(&self) -> (r: Style)
        ensures
            r == (colored(self.data.user_online, self.data.background)),
    {
        Style::new().fg(self.data.user_online).bg(self.data.background)
    }

    /// The style of the unread-message marker.
    pub fn unread_message_style(&self) -> (r: Style)
        ensures
            r == (colored(self.data.foreground_unread_message, self.data.background_unread_message)),
    {
        Style::new().fg(self.data.foreground_unread_message).bg(self.data.background_unread_message)
    }

    /// The style of table headers: bold.
    pub fn table_header_style(&self) -> (r: Style)
        ensures
            r == (Style { bold: true, ..colored(self.data.table_header, self.data.background) }),
    {
        Style::new().bold().fg(self.data.table_header).bg(self.data.background)
    }

    /// The style of the title bar.
    pub fn title_status_style(&self) -> (r: Style)
        ensures
            r == (colored(self.data.foreground_titlebar, self.data.background)),
    {
        Style::new().bg(self.data.background).fg(self.data.foreground_titlebar)
    }

    /// The style of highlighted title bar contents: bold.
    pub fn title_important_style(&self) -> (r: Style)
        ensures
            r == (Style { bold: true, ..colored(self.data.foreground_important_titlebar, self.data.background_important_titlebar) }),
    {
        Style::new().bold().bg(self.data.background_important_titlebar).fg(self.data.foreground_important_titlebar)
    }

    /// The style of popup borders.
    pub fn popup_border_style(&self) -> (r: Style)
        ensures
            r == (Style { fg: Some(self.data.popup_border), bg: None, bold: false, rapid_blink: false }),
    {
        Style::new().fg(self.data.popup_border)
    }

}

/// The configuration: the settings, the theme and the data directory.
#[derive(Debug)]
pub struct Config {
    pub data: ConfigOptions,
    pub theme: Theme,
    /// The directory for logs and conversation history.
    pub data_dir: String,
}

/// Calls `etcetera::app_strategy::choose_app_strategy` for the application
/// `app_name` of `author` under the domain `top_level_domain` and renders its
/// `data_dir()`; `None` when no strategy can be chosen (no home directory).
/// The directory depends on the environment and is not stated.
#[verifier::external_body]
fn platform_data_dir(top_level_domain: &str, author: &str, app_name: &str) -> (r: Option<String>) {
    let args = etcetera::app_strategy::AppStrategyArgs {
        top_level_domain: top_level_domain.to_string(),
        author: author.to_string(),
        app_name: app_name.to_string(),
    };
    match etcetera::app_strategy::choose_app_strategy(args) {
        Ok(strategy) => Some(strategy.data_dir().to_string_lossy().into_owned()),
        Err(_) => None,
    }
}

/// `base` with `name` appended as a path component, as `Path::join` does on
/// Unix: an absolute `name` replaces `base`, and a separator is put between
/// the two unless `base` is empty or already ends with one.
pub open spec fn path_join(base: Seq<char>, name: Seq<char>) -> Seq<char> {
    if name.len() > 0 && name[0] == '/' {
        name
    } else if base.len() == 0 {
        name
    } else if base.last() == '/' {
        base + name
    } else {
        base + "/"@ + name
    }
}

/// `base` with `name` appended as a path component (see `path_join`).
pub fn join_path(base: &str, name: &str) -> (r: String)
    ensures
        r@ == path_join(base@, name@),
{
    let name_len = name.unicode_len();
    let base_len = base.unicode_len();
    proof {
        reveal_strlit("/");
    }
    if name_len > 0 && name.get_char(0) == '/' {
        String::from_str(name)
    } else if base_len == 0 {
        String::from_str(name)
    } else if base.get_char(base_len - 1) == '/' {
        let mut r = String::from_str(base);
        r.append(name);
        r
    } else {
        let mut r = String::from_str(base);
        r.append("/");
        r.append(name);
        r
    }
}

impl Default for Config {
    /// Empty settings, the default theme and the data directory of the
    /// platform's strategy for `org.emlix.sechat-rs` (empty when the
    /// platform has none, for want of a home directory).
    fn default() -> (r: Self)
        ensures
            is_default_data(r.data),
            r.theme.data == reset_palette(),
    {
        let data_dir = match platform_data_dir("org", "emlix", "sechat-rs") {
            Some(dir) => dir,
            None => String::new(),
        };
        Config::new(data_dir)
    }
}

impl Config {
    /// A configuration with empty settings, the default theme and the data
    /// directory `data_dir`.
    pub fn new(data_dir: String) -> (r: Config)
        ensures
            r.data_dir == data_dir,
            is_default_data(r.data),
            r.theme.data == reset_palette(),
    {
        Config { data: Data::default(), theme: Theme::default(), data_dir }
    }

    /// Takes the settings read from the configuration file.
    pub fn set_config_data(&mut self, data: ConfigOptions)
        ensures
            final(self).data == data,
            final(self).theme == old(self).theme,
            final(self).data_dir == old(self).data_dir,
    {
        self.data = data;
    }

    /// Takes the palette read from the theme file.
    pub fn set_theme(&mut self, data: ColorPalette)
        ensures
            final(self).theme.data == data,
            final(self).data == old(self).data,
            final(self).data_dir == old(self).data_dir,
    {
        self.theme.set_theme(data);
    }

    /// Takes the data directory of the platform's directory strategy.
    pub fn set_data_dir(&mut self, data_dir: String)
        ensures
            final(self).data_dir == data_dir,
            final(self).data == old(self).data,
            final(self).theme == old(self).theme,
    {
        self.data_dir = data_dir;
    }

    /// The data directory.
    pub fn get_data_dir(&self) -> (r: String)
        ensures
            r == self.data_dir,
    {
        self.data_dir.clone()
    }

    /// The directory of the chat server's data: the server's name joined to
    /// the data directory.
    pub fn get_server_data_dir(&self) -> (r: String)
        ensures
            r@ == path_join(self.data_dir@, self.data.general.chat_server_name@),
    {
        join_path(self.data_dir.as_str(), self.data.general.chat_server_name.as_str())
    }

    /// The directory for dumps of failed answers: the data directory when
    /// dumping is enabled.
    pub fn get_http_dump_dir(&self) -> (r: Option<String>)
        ensures
            self.data.general.dump_failed_requests_to_file ==> r == Some(self.data_dir),
            !self.data.general.dump_failed_requests_to_file ==> r is None,
    {
        if self.data.general.dump_failed_requests_to_file {
            Some(self.get_data_dir())
        } else {
            None
        }
    }

    /// Whether mouse input is enabled.
    pub fn get_enable_mouse(&self) -> (r: bool)
        ensures
            r == self.data.ui.use_mouse,
    {
        self.data.ui.use_mouse
    }

    /// Whether bracketed paste is enabled.
    pub fn get_enable_paste(&self) -> (r: bool)
        ensures
            r == self.data.ui.use_paste,
    {
        self.data.ui.use_paste
    }

    /// Whether the log is also written to a file.
    pub fn logs_to_file(&self) -> (r: bool)
        ensures
            r == self.data.general.log_to_file,
    {
        self.data.general.log_to_file
    }
}

} // verus!
