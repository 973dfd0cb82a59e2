//! The title bar: the current conversation with its unread count and, for a
//! direct conversation, the other user's status; the conversations with
//! unread messages; and the current screen.
use vstd::prelude::*;

use crate::app_state::CurrentScreen;
use crate::config::{colored, Config, Style};
use crate::data::NCReqDataParticipants;
use crate::room::NCRoom;
use crate::sorting::stable_rearrangement;
use crate::talk::{
    entry_tokens, group_entries, has_token, in_group, is_sorted_group, lemma_group_entries_empty,
    lemma_sorted_group_held, name_of, room_with_token, NCTalk, RoomGroup,
};
use crate::text::{decimal, join, join_strings, text_eq, texts, usize_to_decimal};

verus! {

/// The first participant whose display name is `name`.
pub open spec fn participant_named(ps: Seq<NCReqDataParticipants>, name: Seq<char>) -> Option<
    NCReqDataParticipants,
>
    decreases ps.len(),
{
    if ps.len() == 0 {
        None
    } else if ps[0].displayName@ == name {
        Some(ps[0])
    } else {
        participant_named(ps.drop_first(), name)
    }
}

/// The text of an optional string.
pub open spec fn opt_text(o: Option<String>) -> Option<Seq<char>> {
    match o {
        Some(s) => Some(s@),
        None => None,
    }
}

/// The status text shown for a user: the icon and the message, separated
/// by a space when both are set.
pub open spec fn status_text_of(icon: Option<String>, message: Option<String>) -> Option<
    Seq<char>,
> {
    match (icon, message) {
        (None, None) => None,
        (None, Some(m)) => Some(m@),
        (Some(i), None) => Some(i@),
        (Some(i), Some(m)) => Some(i@ + " "@ + m@),
    }
}

/// The label of a conversation with unread messages: `<name>: <count>`.
pub open spec fn unread_label(rooms: Seq<NCRoom>, t: Seq<char>) -> Seq<char> {
    let r = room_with_token(rooms, t);
    name_of(r) + ": "@ + decimal((r.room_data.unreadMessages as usize) as nat)
}

/// The list of conversations with unread messages shown in the title: empty
/// when there is none, else `UNREAD: ` and their labels separated by `, `.
pub open spec fn unread_summary(rooms: Seq<NCRoom>, tokens: Seq<String>) -> Seq<char> {
    if tokens.len() == 0 {
        Seq::empty()
    } else {
        "UNREAD: "@ + join(tokens.map_values(|t: String| unread_label(rooms, t@)), ", "@)
    }
}

/// The title bar.
#[derive(Debug)]
pub struct TitleBar {
    /// The name of the current conversation.
    pub room: String,
    /// The other user's status, in a direct conversation.
    pub status: Option<String>,
    /// The other user's status icon and message, in a direct conversation.
    pub status_text: Option<String>,
    /// The name of the current screen.
    pub mode: String,
    /// The unread messages of the current conversation.
    pub unread: usize,
    /// The conversations with unread messages.
    pub unread_rooms: String,
    pub user_away_style: Style,
    pub user_dnd_style: Style,
    pub user_online_style: Style,
    pub user_offline_style: Style,
    /// The style of the unread list: bold and blinking.
    pub title_important_style: Style,
    pub title_style: Style,
    pub default_style: Style,
}

impl TitleBar {
    /// A title bar for the conversation named `room` on the screen
    /// `initial_state`, with no status and nothing unread.
    pub fn new(initial_state: CurrentScreen, room: String, config: &Config) -> (r: TitleBar)
        ensures
            r.room@ == room@,
            r.status is None,
            r.status_text is None,
            r.mode@ == initial_state.name(),
            r.unread == 0,
            r.unread_rooms@.len() == 0,
            r.user_away_style == colored(config.theme.data.user_away, config.theme.data.background),
            r.user_dnd_style == colored(config.theme.data.user_dnd, config.theme.data.background),
            r.user_online_style == colored(
                config.theme.data.user_online,
                config.theme.data.background,
            ),
            r.user_offline_style == colored(
                config.theme.data.user_offline,
                config.theme.data.background,
            ),
            r.title_important_style == (Style {
                bold: true,
                rapid_blink: true,
                ..colored(
                    config.theme.data.foreground_important_titlebar,
                    config.theme.data.background_important_titlebar,
                )
            }),
            r.title_style == colored(
                config.theme.data.foreground_titlebar,
                config.theme.data.background,
            ),
            r.default_style == colored(config.theme.data.foreground, config.theme.data.background),
    {
        TitleBar {
            room,
            status: None,
            status_text: None,
            mode: initial_state.to_string(),
            unread: 0,
            unread_rooms: String::new(),
            user_away_style: config.theme.user_away_style(),
            user_dnd_style: config.theme.user_dnd_style(),
            user_online_style: config.theme.user_online_style(),
            user_offline_style: config.theme.user_offline_style(),
            title_important_style: config.theme.title_important_style().rapid_blink(),
            title_style: config.theme.title_status_style(),
            default_style: config.theme.default_style(),
        }
    }

    /// Takes the current screen and conversation: its name and unread
    /// count, the other user's status in a direct conversation (kept as it
    /// was otherwise), and the conversations with unread messages, ordered
    /// by name.
    pub fn update(&mut self, screen: CurrentScreen, backend: &NCTalk, current_room: &str)
        requires
            backend.well_formed(),
            has_token(backend.rooms@, current_room@),
        ensures
            ({
                let room = room_with_token(backend.rooms@, current_room@);
                &&& final(self).mode@ == screen.name()
                &&& final(self).room@ == name_of(room)
                &&& final(self).unread == room.room_data.unreadMessages as usize
                &&& room.room_type.spec_is_dm() ==> {
                    let user = participant_named(room.participants@, name_of(room));
                    &&& final(self).status == (match user {
                        Some(u) => u.status,
                        None => None,
                    })
                    &&& opt_text(final(self).status_text) == (match user {
                        Some(u) => status_text_of(u.statusIcon, u.statusMessage),
                        None => None,
                    })
                }
                &&& !room.room_type.spec_is_dm() ==> final(self).status == old(self).status
                    && final(self).status_text == old(self).status_text
            }),
            exists|s: Seq<(String, String)>, perm: Seq<int>|
                is_sorted_group(s, backend.rooms@, RoomGroup::Unread) && stable_rearrangement(
                    s,
                    group_entries(backend.rooms@, RoomGroup::Unread),
                    perm,
                ) && final(self).unread_rooms@ == unread_summary(backend.rooms@, entry_tokens(s)),
            final(self).user_away_style == old(self).user_away_style,
            final(self).user_dnd_style == old(self).user_dnd_style,
            final(self).user_online_style == old(self).user_online_style,
            final(self).user_offline_style == old(self).user_offline_style,
            final(self).title_important_style == old(self).title_important_style,
            final(self).title_style == old(self).title_style,
            final(self).default_style == old(self).default_style,
    {
        self.mode = screen.to_string();
        let room = backend.get_room(current_room);
        self.room = String::from_str(room.get_display_name());
        if room.is_dm() {
            match find_participant(room.get_users(), room.get_display_name()) {
                Some(i) => {
                    let user = &room.participants[i];
                    self.status = match &user.status {
                        Some(s) => Some(s.clone()),
                        None => None,
                    };
                    self.status_text = status_text(&user.statusIcon, &user.statusMessage);
                },
                None => {
                    self.status = None;
                    self.status_text = None;
                },
            }
        }
        self.unread = room.get_unread();
        let tokens = backend.get_unread_rooms();
        let ghost (s, perm) = choose|s: Seq<(String, String)>, perm: Seq<int>|
            is_sorted_group(s, backend.rooms@, RoomGroup::Unread) && stable_rearrangement(
                s,
                group_entries(backend.rooms@, RoomGroup::Unread),
                perm,
            ) && tokens@ == entry_tokens(s);
        proof {
            lemma_sorted_group_held(s, backend.rooms@, RoomGroup::Unread);
        }
        let mut labels: Vec<String> = Vec::new();
        let n = tokens.len();
        let mut i: usize = 0;
        while i < n
            invariant
                n == tokens@.len(),
                tokens@ == entry_tokens(s),
                backend.well_formed(),
                forall|k: int| 0 <= k < s.len() ==> has_token(backend.rooms@, (#[trigger] s[k]).0@),
                i <= n,
                labels@.len() == i,
                forall|k: int|
                    0 <= k < i ==> #[trigger] labels@[k]@ == unread_label(
                        backend.rooms@,
                        tokens@[k]@,
                    ),
            decreases n - i,
        {
            assert(tokens@[i as int] == s[i as int].0);
            let unread_room = backend.get_room(tokens[i].as_str());
            proof {
                reveal_strlit(": ");
            }
            let mut label = String::from_str(unread_room.get_display_name());
            label.append(": ");
            let count = usize_to_decimal(unread_room.get_unread());
            label.append(count.as_str());
            labels.push(label);
            i = i + 1;
        }
        proof {
            assert(texts(labels@) =~= tokens@.map_values(|t: String| unread_label(backend.rooms@, t@)));
            reveal_strlit("UNREAD: ");
        }
        if n == 0 {
            self.unread_rooms = String::new();
        } else {
            let mut summary = String::from_str("UNREAD: ");
            let joined = join_strings(&labels, ", ");
            summary.append(joined.as_str());
            self.unread_rooms = summary;
        }
        proof {
            assert(self.unread_rooms@ =~= unread_summary(backend.rooms@, entry_tokens(s)));
        }
    }

    /// The start of the title: `Current(<count>): ` when the conversation
    /// has unread messages, else `Current: `.
    pub fn header(&self) -> (r: String)
        ensures
            r@ == (if self.unread > 0 {
                "Current("@ + decimal(self.unread as nat) + "): "@
            } else {
                "Current: "@
            }),
    {
        proof {
            reveal_strlit("Current(");
            reveal_strlit("): ");
            reveal_strlit("Current: ");
        }
        if self.unread > 0 {
            let mut r = String::from_str("Current(");
            let count = usize_to_decimal(self.unread);
            r.append(count.as_str());
            r.append("): ");
            r
        } else {
            String::from_str("Current: ")
        }
    }

    /// The style of the conversation's name: by the other user's status in a
    /// direct conversation, the default style for an unknown status, the
    /// title style when there is no status.
    pub fn room_style(&self) -> (r: Style)
        ensures
            r == (match self.status {
                Some(st) => if st@ == "away"@ {
                    self.user_away_style
                } else if st@ == "offline"@ {
                    self.user_offline_style
                } else if st@ == "dnd"@ {
                    self.user_dnd_style
                } else if st@ == "online"@ {
                    self.user_online_style
                } else {
                    self.default_style
                },
                None => self.title_style,
            }),
    {
        match &self.status {
            Some(st) => {
                if text_eq(st.as_str(), "away") {
                    self.user_away_style
                } else if text_eq(st.as_str(), "offline") {
                    self.user_offline_style
                } else if text_eq(st.as_str(), "dnd") {
                    self.user_dnd_style
                } else if text_eq(st.as_str(), "online") {
                    self.user_online_style
                } else {
                    self.default_style
                }
            },
            None => self.title_style,
        }
    }

    /// The status shown after the name: ` (<status text>)`, if any.
    pub fn status_suffix(&self) -> (r: Option<String>)
        ensures
            opt_text(r) == (match self.status_text {
                Some(t) => Some(" ("@ + t@ + ")"@),
                None => None,
            }),
    {
        proof {
            reveal_strlit(" (");
            reveal_strlit(")");
        }
        match &self.status_text {
            Some(t) => {
                let mut r = String::from_str(" (");
                r.append(t.as_str());
                r.append(")");
                Some(r)
            },
            None => None,
        }
    }

    /// The style of the unread list: the important style when it is not
    /// empty.
    pub fn unread_rooms_style(&self) -> (r: Option<Style>)
        ensures
            r == (if self.unread_rooms@.len() == 0 {
                None::<Style>
            } else {
                Some(self.title_important_style)
            }),
    {
        if self.unread_rooms.as_str().is_empty() {
            None
        } else {
            Some(self.title_important_style)
        }
    }
}

/// The title lists no conversation exactly when none has unread messages.
pub proof fn law_unread_list_empty_iff_all_read(rooms: Seq<NCRoom>, s: Seq<(String, String)>)
    requires
        is_sorted_group(s, rooms, RoomGroup::Unread),
    ensures
        unread_summary(rooms, entry_tokens(s)).len() == 0 <==> forall|i: int|
            0 <= i < rooms.len() ==> (#[trigger] rooms[i]).room_data.unreadMessages <= 0,
{
    reveal_strlit("UNREAD: ");
    lemma_group_entries_empty(rooms, RoomGroup::Unread);
    vstd::seq_lib::to_multiset_len(s);
    vstd::seq_lib::to_multiset_len(group_entries(rooms, RoomGroup::Unread));
    assert forall|i: int| 0 <= i < rooms.len() implies (!in_group(RoomGroup::Unread, #[trigger] rooms[i])
        <==> rooms[i].room_data.unreadMessages <= 0) by {}
}

/// The position of the first participant named `name`.
fn find_participant(ps: &Vec<NCReqDataParticipants>, name: &str) -> (r: Option<usize>)
    ensures
        match r {
            Some(i) => i < ps@.len() && participant_named(ps@, name@) == Some(ps@[i as int]),
            None => participant_named(ps@, name@) is None,
        },
{
    let n = ps.len();
    let mut i: usize = 0;
    assert(ps@.skip(0) =~= ps@);
    while i < n
        invariant
            n == ps@.len(),
            i <= n,
            participant_named(ps@.skip(i as int), name@) == participant_named(ps@, name@),
        decreases n - i,
    {
        assert(ps@.skip(i as int)[0] == ps@[i as int]);
        if text_eq(ps[i].displayName.as_str(), name) {
            return Some(i);
        }
        assert(ps@.skip(i as int).drop_first() =~= ps@.skip(i + 1));
        i = i + 1;
    }
    None
}

/// The status text of a user with the status icon `icon` and the status
/// message `message`.
fn status_text(icon: &Option<String>, message: &Option<String>) -> (r: Option<String>)
    ensures
        opt_text(r) == status_text_of(*icon, *message),
{
    proof {
        reveal_strlit(" ");
    }
    match (icon, message) {
        (None, None) => None,
        (None, Some(m)) => Some(m.clone()),
        (Some(i), None) => Some(i.clone()),
        (Some(i), Some(m)) => {
            let mut t = i.clone();
            t.append(" ");
            t.append(m.as_str());
            Some(t)
        },
    }
}

/// The status text of a user shows their status message whenever there is
/// one, at its end, after the icon and a space when an icon is set; with no
/// icon it is the message alone; with no message it is the icon, if any.
pub proof fn law_status_text_shows_message(icon: Option<String>, message: Option<String>)
    ensures
        message is Some ==> ({
            let t = status_text_of(icon, message);
            let m = message->0@;
            &&& t is Some
            &&& t->0.len() >= m.len()
            &&& t->0.subrange(t->0.len() - m.len(), t->0.len() as int) == m
        }),
        icon is None ==> status_text_of(icon, message) == opt_text(message),
        message is None ==> status_text_of(icon, message) == opt_text(icon),
        icon is Some && message is Some ==> status_text_of(icon, message) == Some(
            icon->0@ + " "@ + message->0@,
        ),
{
    if message is Some {
        let t = status_text_of(icon, message);
        let m = message->0@;
        if icon is Some {
            let full = icon->0@ + " "@ + m;
            assert(full.subrange(full.len() - m.len(), full.len() as int) =~= m);
        } else {
            assert(m.subrange(0, m.len() as int) =~= m);
        }
    }
}

} // verus!
