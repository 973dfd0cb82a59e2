//! The help popup: a table of the keys and what they do.
use vstd::prelude::*;

use crate::config::{colored, Config, Style};

verus! {

/// The rows of the help table: key, name and behaviour.
pub open spec fn help_rows() -> Seq<(Seq<char>, Seq<char>, Seq<char>)> {
    seq![
        ("q"@, "quit"@, "enter the quit screen."@),
        ("o"@, "open"@, "enter the chat selection screen."@),
        ("u"@, "users sidebar"@, "Toggle whether the users are shown in a chat sidebar. Available in reading mode."@),
        ("?"@, "help"@, "enter this help screen."@),
        ("m"@, "mark as read"@, "mark current chat as read, when in reading mode."@),
        ("(e|i)"@, "edit"@, "enter the editing screen, when in reading mode."@),
        ("ESC"@, "leave Mode"@, "leave help, opening, or editing mode to return to reading mode"@),
        ("Enter"@, "send/select"@, "Send Message, when in edit mode. Select chat when in opening mode."@),
    ]
}

/// The header of the help table.
pub open spec fn help_header() -> (Seq<char>, Seq<char>, Seq<char>) {
    ("Key"@, "Name"@, "Behavior"@)
}

/// The texts of a row.
pub open spec fn row_texts(r: (String, String, String)) -> (Seq<char>, Seq<char>, Seq<char>) {
    (r.0@, r.1@, r.2@)
}

fn help_row(key: &str, name: &str, behavior: &str) -> (r: (String, String, String))
    ensures
        row_texts(r) == (key@, name@, behavior@),
{
    (String::from_str(key), String::from_str(name), String::from_str(behavior))
}

/// The help popup with the theme's styles.
#[derive(Debug)]
pub struct HelpBox {
    pub default: Style,
    pub default_highlight: Style,
    pub table_header: Style,
}

impl HelpBox {
    /// The help popup with the theme's styles.
    pub fn new(config: &Config) -> (r: HelpBox)
        ensures
            r.default == colored(config.theme.data.foreground, config.theme.data.background),
            r.default_highlight == colored(
                config.theme.data.foreground_highlight,
                config.theme.data.background_highlight,
            ),
            r.table_header == (Style {
                bold: true,
                ..colored(config.theme.data.table_header, config.theme.data.background)
            }),
    {
        HelpBox {
            default: config.theme.default_style(),
            default_highlight: config.theme.default_highlight_style(),
            table_header: config.theme.table_header_style(),
        }
    }

    /// The header of the table.
    pub fn header(&self) -> (r: (String, String, String))
        ensures
            row_texts(r) == help_header(),
    {
        proof {
            reveal_strlit("Key");
            reveal_strlit("Name");
            reveal_strlit("Behavior");
        }
        help_row("Key", "Name", "Behavior")
    }

    /// The rows of the table, one per key.
    pub fn rows(&self) -> (r: Vec<(String, String, String)>)
        ensures
            r@.map_values(|row: (String, String, String)| row_texts(row)) == help_rows(),
    {
        proof {
            reveal_strlit("q");
            reveal_strlit("quit");
            reveal_strlit("enter the quit screen.");
            reveal_strlit("o");
            reveal_strlit("open");
            reveal_strlit("enter the chat selection screen.");
            reveal_strlit("u");
            reveal_strlit("users sidebar");
            reveal_strlit("Toggle whether the users are shown in a chat sidebar. Available in reading mode.");
            reveal_strlit("?");
            reveal_strlit("help");
            reveal_strlit("enter this help screen.");
            reveal_strlit("m");
            reveal_strlit("mark as read");
            reveal_strlit("mark current chat as read, when in reading mode.");
            reveal_strlit("(e|i)");
            reveal_strlit("edit");
            reveal_strlit("enter the editing screen, when in reading mode.");
            reveal_strlit("ESC");
            reveal_strlit("leave Mode");
            reveal_strlit("leave help, opening, or editing mode to return to reading mode");
            reveal_strlit("Enter");
            reveal_strlit("send/select");
            reveal_strlit("Send Message, when in edit mode. Select chat when in opening mode.");
        }
        let mut r: Vec<(String, String, String)> = Vec::new();
        r.push(help_row("q", "quit", "enter the quit screen."));
        r.push(help_row("o", "open", "enter the chat selection screen."));
        r.push(help_row("u", "users sidebar", "Toggle whether the users are shown in a chat sidebar. Available in reading mode."));
        r.push(help_row("?", "help", "enter this help screen."));
        r.push(help_row("m", "mark as read", "mark current chat as read, when in reading mode."));
        r.push(help_row("(e|i)", "edit", "enter the editing screen, when in reading mode."));
        r.push(help_row("ESC", "leave Mode", "leave help, opening, or editing mode to return to reading mode"));
        r.push(help_row("Enter", "send/select", "Send Message, when in edit mode. Select chat when in opening mode."));
        assert(r@.map_values(|row: (String, String, String)| row_texts(row)) =~= help_rows());
        r
    }
}

} // verus!
