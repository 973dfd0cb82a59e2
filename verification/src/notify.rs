//! Desktop notifications: what is announced for unread messages and new
//! conversations, and how long it stays.
use vstd::prelude::*;

use crate::config::Config;
use crate::text::{decimal, push_decimal};

verus! {

/// How long a notification is shown.
#[derive(Debug, Clone, Copy, PartialEq, Eq, Structural)]
pub enum NotifyTimeout {
    /// As long as the notification server decides.
    Default,
    /// Until it is dismissed.
    Never,
    /// For this many milliseconds.
    Milliseconds(u32),
}

/// A notification to be shown.
#[derive(Debug)]
pub struct NotificationContent {
    pub summary: String,
    pub body: String,
    pub icon: String,
    pub app_name: String,
    /// The "resident" hint, when one is given.
    pub resident: Option<bool>,
    pub timeout: NotifyTimeout,
    /// The "suppress sound" hint.
    pub suppress_sound: bool,
}

/// The summary line of an unread-messages notification.
pub open spec fn unread_summary(room: Seq<char>) -> Seq<char> {
    "Unread: "@ + room
}

/// The body of an unread-messages notification.
pub open spec fn unread_body(room: Seq<char>, count: nat) -> Seq<char> {
    "You have "@ + decimal(count) + " new Messages in "@ + room
}

/// The summary line of a new-conversation notification.
pub open spec fn new_room_summary(room: Seq<char>) -> Seq<char> {
    "New Room: "@ + room
}

/// The body of a new-conversation notification.
pub open spec fn new_room_body(room: Seq<char>) -> Seq<char> {
    "You have been added to a new Room "@ + room
}

/// The icon of every notification.
pub open spec fn notification_icon() -> Seq<char> {
    "dialog-information"@
}

fn unread_texts(room_name: &str, number_of_unread: usize) -> (r: (String, String))
    ensures
        r.0@ == unread_summary(room_name@),
        r.1@ == unread_body(room_name@, number_of_unread as nat),
{
    proof {
        reveal_strlit("Unread: ");
        reveal_strlit("You have ");
        reveal_strlit(" new Messages in ");
    }
    let mut summary = String::from_str("Unread: ");
    summary.append(room_name);
    let mut body = String::from_str("You have ");
    push_decimal(&mut body, number_of_unread as u64);
    body.append(" new Messages in ");
    body.append(room_name);
    (summary, body)
}

fn new_room_texts(room_name: &str) -> (r: (String, String))
    ensures
        r.0@ == new_room_summary(room_name@),
        r.1@ == new_room_body(room_name@),
{
    proof {
        reveal_strlit("New Room: ");
        reveal_strlit("You have been added to a new Room ");
    }
    let mut summary = String::from_str("New Room: ");
    summary.append(room_name);
    let mut body = String::from_str("You have been added to a new Room ");
    body.append(room_name);
    (summary, body)
}

fn icon() -> (r: String)
    ensures
        r@ == notification_icon(),
{
    proof {
        reveal_strlit("dialog-information");
    }
    String::from_str("dialog-information")
}

/// Notification settings taken from the configuration.
#[derive(Debug, Default)]
pub struct NCNotify {
    pub app_name: String,
    pub timeout_ms: u32,
    pub persistent: bool,
    pub silent: bool,
}

impl NCNotify {
    /// The notification settings of the configuration.
    pub fn new(config: &Config) -> (r: NCNotify)
        ensures
            r.app_name == config.data.general.chat_server_name,
            r.timeout_ms == config.data.notifications.timeout_ms,
            r.persistent == config.data.notifications.persistent,
            r.silent == config.data.notifications.silent,
    {
        NCNotify {
            app_name: config.data.general.chat_server_name.clone(),
            timeout_ms: config.data.notifications.timeout_ms,
            persistent: config.data.notifications.persistent,
            silent: config.data.notifications.silent,
        }
    }

    /// The notification that `number_of_unread` messages are new in
    /// `room_name`: persistent ones are resident and never time out.
    pub fn unread_message(&self, room_name: &str, number_of_unread: usize) -> (r:
        NotificationContent)
        ensures
            r.summary@ == unread_summary(room_name@),
            r.body@ == unread_body(room_name@, number_of_unread as nat),
            r.icon@ == notification_icon(),
            r.app_name == self.app_name,
            r.resident == (if self.persistent { Some(true) } else { None }),
            r.timeout == (if self.persistent {
                NotifyTimeout::Never
            } else {
                NotifyTimeout::Milliseconds(self.timeout_ms)
            }),
            r.suppress_sound == self.silent,
    {
        let (summary, body) = unread_texts(room_name, number_of_unread);
        self.content(summary, body)
    }

    /// The notification that the user was added to `room_name`.
    pub fn new_room(&self, room_name: &str) -> (r: NotificationContent)
        ensures
            r.summary@ == new_room_summary(room_name@),
            r.body@ == new_room_body(room_name@),
            r.icon@ == notification_icon(),
            r.app_name == self.app_name,
            r.resident == (if self.persistent { Some(true) } else { None }),
            r.timeout == (if self.persistent {
                NotifyTimeout::Never
            } else {
                NotifyTimeout::Milliseconds(self.timeout_ms)
            }),
            r.suppress_sound == self.silent,
    {
        let (summary, body) = new_room_texts(room_name);
        self.content(summary, body)
    }

    fn content(&self, summary: String, body: String) -> (r: NotificationContent)
        ensures
            r.summary == summary,
            r.body == body,
            r.icon@ == notification_icon(),
            r.app_name == self.app_name,
            r.resident == (if self.persistent { Some(true) } else { None }),
            r.timeout == (if self.persistent {
                NotifyTimeout::Never
            } else {
                NotifyTimeout::Milliseconds(self.timeout_ms)
            }),
            r.suppress_sound == self.silent,
    {
        NotificationContent {
            summary,
            body,
            icon: icon(),
            app_name: self.app_name.clone(),
            resident: if self.persistent { Some(true) } else { None },
            timeout: if self.persistent {
                NotifyTimeout::Never
            } else {
                NotifyTimeout::Milliseconds(self.timeout_ms)
            },
            suppress_sound: self.silent,
        }
    }
}

/// Notification settings of the interface.
#[derive(Debug)]
pub struct NotifyWrapper {
    pub app_name: String,
    pub timeout: NotifyTimeout,
    pub silent: bool,
}

impl NotifyWrapper {
    /// The notification settings of the configuration: persistent
    /// notifications never time out.
    pub fn new(config: &Config) -> (r: NotifyWrapper)
        ensures
            r.app_name == config.data.general.chat_server_name,
            r.timeout == (if config.data.notifications.persistent {
                NotifyTimeout::Never
            } else {
                NotifyTimeout::Milliseconds(config.data.notifications.timeout_ms)
            }),
            r.silent == config.data.notifications.silent,
    {
        NotifyWrapper {
            app_name: config.data.general.chat_server_name.clone(),
            timeout: if config.data.notifications.persistent {
                NotifyTimeout::Never
            } else {
                NotifyTimeout::Milliseconds(config.data.notifications.timeout_ms)
            },
            silent: config.data.notifications.silent,
        }
    }

    /// Notifications are persistent when they never time out.
    pub fn is_persistent(&self) -> (r: bool)
        ensures
            r == (self.timeout == NotifyTimeout::Never),
    {
        match self.timeout {
            NotifyTimeout::Never => true,
            _ => false,
        }
    }

    fn content(&self, summary: String, body: String) -> (r: NotificationContent)
        ensures
            r.summary == summary,
            r.body == body,
            r.icon@ == notification_icon(),
            r.app_name == self.app_name,
            r.resident == Some(self.timeout == NotifyTimeout::Never),
            r.timeout == self.timeout,
            r.suppress_sound == self.silent,
    {
        NotificationContent {
            summary,
            body,
            icon: icon(),
            app_name: self.app_name.clone(),
            resident: Some(self.is_persistent()),
            timeout: self.timeout,
            suppress_sound: self.silent,
        }
    }

    /// The notification that `number_of_unread` messages are new in
    /// `room_name`.
    pub fn unread_message(&self, room_name: &str, number_of_unread: usize) -> (r:
        NotificationContent)
        ensures
            r.summary@ == unread_summary(room_name@),
            r.body@ == unread_body(room_name@, number_of_unread as nat),
            r.icon@ == notification_icon(),
            r.app_name == self.app_name,
            r.resident == Some(self.timeout == NotifyTimeout::Never),
            r.timeout == self.timeout,
            r.suppress_sound == self.silent,
    {
        let (summary, body) = unread_texts(room_name, number_of_unread);
        self.content(summary, body)
    }

    /// The notification that the user was added to `room_name`.
    pub fn new_room(&self, room_name: &str) -> (r: NotificationContent)
        ensures
            r.summary@ == new_room_summary(room_name@),
            r.body@ == new_room_body(room_name@),
            r.icon@ == notification_icon(),
            r.app_name == self.app_name,
            r.resident == Some(self.timeout == NotifyTimeout::Never),
            r.timeout == self.timeout,
            r.suppress_sound == self.silent,
    {
        let (summary, body) = new_room_texts(room_name);
        self.content(summary, body)
    }

    /// The notification for new messages reported by an update, if any.
    pub fn maybe_notify_new_message(&self, input: Option<(String, usize)>) -> (r: Option<
        NotificationContent,
    >)
        ensures
            input is None ==> r is None,
            input matches Some(p) ==> (r matches Some(n) && n.summary@ == unread_summary(p.0@)
                && n.body@ == unread_body(p.0@, p.1 as nat) && n.timeout == self.timeout),
    {
        match input {
            Some((display_name, size)) => Some(self.unread_message(display_name.as_str(), size)),
            None => None,
        }
    }

    /// One notification for each newly added conversation, in order.
    pub fn maybe_notify_new_rooms(&self, input: Vec<String>) -> (r: Vec<NotificationContent>)
        ensures
            r@.len() == input@.len(),
            forall|i: int|
                0 <= i < r@.len() ==> (#[trigger] r@[i]).summary@ == new_room_summary(input@[i]@)
                    && r@[i].body@ == new_room_body(input@[i]@) && r@[i].timeout == self.timeout,
    {
        let mut r: Vec<NotificationContent> = Vec::new();
        let n = input.len();
        let mut i: usize = 0;
        while i < n
            invariant
                n == input@.len(),
                i <= n,
                r@.len() == i,
                forall|k: int|
                    0 <= k < i ==> (#[trigger] r@[k]).summary@ == new_room_summary(input@[k]@)
                        && r@[k].body@ == new_room_body(input@[k]@) && r@[k].timeout
                        == self.timeout,
            decreases n - i,
        {
            r.push(self.new_room(input[i].as_str()));
            i = i + 1;
        }
        r
    }
}

/// A notification of the interface stays until dismissed exactly when the
/// configuration asks for persistent notifications.
pub proof fn law_persistent_iff_configured(config: Config, w: NotifyWrapper)
    requires
        w.timeout == (if config.data.notifications.persistent {
            NotifyTimeout::Never
        } else {
            NotifyTimeout::Milliseconds(config.data.notifications.timeout_ms)
        }),
    ensures
        (w.timeout == NotifyTimeout::Never) == config.data.notifications.persistent,
{
}

} // verus!
