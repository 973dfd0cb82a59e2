//! The conversation selector: four sections (unread, favorite, direct and
//! group conversations), each listing (token, name) entries ordered by
//! name.
use vstd::prelude::*;

use crate::config::{colored, Config, Style};
use crate::data::Token;
use crate::room::NCRoom;
use crate::sorting::stable_rearrangement;
use crate::talk::{
    entry_tokens, entry_tokens_distinct, group_entries, has_token, is_sorted_group,
    lemma_sorted_group_distinct,
    lemma_sorted_group_held, tokens_unique, NCTalk, RoomGroup,
};
use crate::text::pair_texts;

verus! {

/// Calls `tui_tree_widget::TreeItem::new` for an item `identifier` titled
/// `title` whose children are leaves made of the entries (token as the
/// identifier, name as the text), and reports whether it was accepted.
/// `TreeItem::new` refuses children with duplicate identifiers and accepts
/// all others.
#[verifier::external_body]
fn tree_item_accepts(identifier: &str, title: &str, entries: &Vec<(Token, String)>) -> (r: bool)
    ensures
        r == entry_tokens_distinct(entries@),
{
    let leaves: Vec<tui_tree_widget::TreeItem<'_, String>> = entries
        .iter()
        .map(|(token, name)| tui_tree_widget::TreeItem::new_leaf(token.clone(), name.clone()))
        .collect();
    tui_tree_widget::TreeItem::new(identifier.to_string(), title.to_string(), leaves).is_ok()
}

/// Why the selector could not be built.
#[derive(Debug, Clone, Copy, PartialEq, Eq, Structural)]
pub enum SelectorError {
    /// Two entries of a section share a token.
    DuplicateIdentifier,
}

/// A section of the selector.
#[derive(Debug)]
pub struct ChatSection {
    pub identifier: String,
    pub title: String,
    pub entries: Vec<(Token, String)>,
}

/// A section made of its identifier, its title and its entries; refused
/// when two entries share a token.
pub fn section(identifier: String, title: String, entries: Vec<(Token, String)>) -> (r: Result<
    ChatSection,
    SelectorError,
>)
    ensures
        r is Ok <==> entry_tokens_distinct(entries@),
        r matches Ok(c) ==> c.identifier == identifier && c.title == title && c.entries == entries,
        r matches Err(e) ==> e == SelectorError::DuplicateIdentifier,
{
    if tree_item_accepts(identifier.as_str(), title.as_str(), &entries) {
        Ok(ChatSection { identifier, title, entries })
    } else {
        Err(SelectorError::DuplicateIdentifier)
    }
}

/// The section holds the group's conversations, ordered by name, under the
/// given identifier and title.
pub open spec fn section_shows(
    c: ChatSection,
    identifier: Seq<char>,
    title: Seq<char>,
    rooms: Seq<NCRoom>,
    g: RoomGroup,
) -> bool {
    &&& c.identifier@ == identifier
    &&& c.title@ == title
    &&& exists|s: Seq<(String, String)>, perm: Seq<int>|
        is_sorted_group(s, rooms, g) && stable_rearrangement(s, group_entries(rooms, g), perm)
            && #[trigger] pair_texts(c.entries@) == pair_texts(s)
}

/// The sections show the conversations: unread, favorite, direct, group.
pub open spec fn sections_show(items: Seq<ChatSection>, rooms: Seq<NCRoom>) -> bool {
    &&& items.len() == 4
    &&& section_shows(items[0], "unread"@, "Unread Chats"@, rooms, RoomGroup::Unread)
    &&& section_shows(items[1], "favorites"@, "Favorite Chats"@, rooms, RoomGroup::Favorite)
    &&& section_shows(items[2], "direct"@, "DMs"@, rooms, RoomGroup::Direct)
    &&& section_shows(items[3], "group"@, "Group"@, rooms, RoomGroup::Group)
}

/// The (token, name) entries of the conversations with the given tokens.
fn entries_of_tokens(backend: &NCTalk, tokens: &Vec<Token>, g: RoomGroup) -> (r: Vec<(Token, String)>)
    requires
        backend.well_formed(),
        exists|s: Seq<(String, String)>, perm: Seq<int>|
            is_sorted_group(s, backend.rooms@, g) && stable_rearrangement(
                s,
                group_entries(backend.rooms@, g),
                perm,
            ) && tokens@ == entry_tokens(s),
    ensures
        exists|s: Seq<(String, String)>, perm: Seq<int>|
            is_sorted_group(s, backend.rooms@, g) && stable_rearrangement(
                s,
                group_entries(backend.rooms@, g),
                perm,
            ) && #[trigger] pair_texts(r@) == pair_texts(s),
{
    let ghost (s, perm) = choose|s: Seq<(String, String)>, perm: Seq<int>|
        is_sorted_group(s, backend.rooms@, g) && stable_rearrangement(
            s,
            group_entries(backend.rooms@, g),
            perm,
        ) && tokens@ == entry_tokens(s);
    proof {
        lemma_sorted_group_held(s, backend.rooms@, g);
    }
    let mut r: Vec<(Token, String)> = Vec::new();
    let n = tokens.len();
    let mut i: usize = 0;
    while i < n
        invariant
            n == tokens@.len(),
            tokens@ == entry_tokens(s),
            backend.well_formed(),
            forall|k: int| 0 <= k < s.len() ==> has_token(backend.rooms@, (#[trigger] s[k]).0@),
            forall|k: int|
                0 <= k < s.len() ==> crate::talk::name_of(
                    crate::talk::room_with_token(backend.rooms@, (#[trigger] s[k]).0@),
                ) == s[k].1@,
            i <= n,
            r@.len() == i,
            pair_texts(r@) == pair_texts(s).take(i as int),
        decreases n - i,
    {
        assert(tokens@[i as int] == s[i as int].0);
        let room = backend.get_room(tokens[i].as_str());
        let entry = (tokens[i].clone(), String::from_str(room.get_display_name()));
        let ghost before = r@;
        r.push(entry);
        assert(r@ == before.push(entry));
        assert(pair_texts(r@) =~= pair_texts(s).take(i + 1)) by {
            assert(pair_texts(r@).len() == i + 1);
            assert forall|k: int| 0 <= k < i + 1 implies pair_texts(r@)[k] == pair_texts(s).take(
                i + 1,
            )[k] by {
                if k < i {
                    assert(pair_texts(r@)[k] == pair_texts(before)[k]);
                }
            }
        }
        i = i + 1;
    }
    assert(pair_texts(s).take(n as int) =~= pair_texts(s));
    r
}

/// Entries that show the same texts as entries with pairwise different
/// tokens have pairwise different tokens too.
proof fn lemma_entries_distinct(e: Seq<(String, String)>, s: Seq<(String, String)>)
    requires
        pair_texts(e) == pair_texts(s),
        entry_tokens_distinct(s),
    ensures
        entry_tokens_distinct(e),
{
    assert(e.len() == pair_texts(e).len());
    assert forall|i: int, j: int|
        0 <= i < e.len() && 0 <= j < e.len() && i != j implies (#[trigger] e[i]).0@ != (
        #[trigger] e[j]).0@ by {
        assert(pair_texts(e)[i] == pair_texts(s)[i]);
        assert(pair_texts(e)[j] == pair_texts(s)[j]);
        assert(s[i].0@ != s[j].0@);
    }
}

/// The section `identifier` titled `title` of the group's conversations.
fn group_section(
    backend: &NCTalk,
    identifier: &str,
    title: &str,
    entries: Vec<(Token, String)>,
    g: RoomGroup,
) -> (r: Result<ChatSection, SelectorError>)
    requires
        backend.well_formed(),
        exists|s: Seq<(String, String)>, perm: Seq<int>|
            is_sorted_group(s, backend.rooms@, g) && stable_rearrangement(
                s,
                group_entries(backend.rooms@, g),
                perm,
            ) && #[trigger] pair_texts(entries@) == pair_texts(s),
    ensures
        r matches Ok(c) && section_shows(c, identifier@, title@, backend.rooms@, g),
{
    let ghost (s, perm) = choose|s: Seq<(String, String)>, perm: Seq<int>|
        is_sorted_group(s, backend.rooms@, g) && stable_rearrangement(
            s,
            group_entries(backend.rooms@, g),
            perm,
        ) && #[trigger] pair_texts(entries@) == pair_texts(s);
    proof {
        lemma_sorted_group_distinct(s, backend.rooms@, g);
        lemma_entries_distinct(entries@, s);
    }
    section(String::from_str(identifier), String::from_str(title), entries)
}

/// The four sections of the selector for the held conversations.
fn build_sections(backend: &NCTalk) -> (r: Result<Vec<ChatSection>, SelectorError>)
    requires
        backend.well_formed(),
    ensures
        r matches Ok(items) && sections_show(items@, backend.rooms@),
{
    proof {
        reveal_strlit("unread");
        reveal_strlit("Unread Chats");
        reveal_strlit("favorites");
        reveal_strlit("Favorite Chats");
        reveal_strlit("direct");
        reveal_strlit("DMs");
        reveal_strlit("group");
        reveal_strlit("Group");
    }
    let unread = entries_of_tokens(backend, &backend.get_unread_rooms(), RoomGroup::Unread);
    let favorites = entries_of_tokens(backend, &backend.get_favorite_rooms(), RoomGroup::Favorite);
    let direct = backend.get_dm_keys_display_name_mapping();
    let group = backend.get_group_keys_display_name_mapping();
    assert(pair_texts(direct@) == pair_texts(direct@));
    assert(pair_texts(group@) == pair_texts(group@));
    let mut items: Vec<ChatSection> = Vec::new();
    match group_section(backend, "unread", "Unread Chats", unread, RoomGroup::Unread) {
        Ok(c) => items.push(c),
        Err(e) => return Err(e),
    }
    match group_section(backend, "favorites", "Favorite Chats", favorites, RoomGroup::Favorite) {
        Ok(c) => items.push(c),
        Err(e) => return Err(e),
    }
    match group_section(backend, "direct", "DMs", direct, RoomGroup::Direct) {
        Ok(c) => items.push(c),
        Err(e) => return Err(e),
    }
    match group_section(backend, "group", "Group", group, RoomGroup::Group) {
        Ok(c) => items.push(c),
        Err(e) => return Err(e),
    }
    Ok(items)
}

/// The conversation selector.
#[derive(Debug)]
pub struct ChatSelector {
    pub items: Vec<ChatSection>,
    pub default_style: Style,
    pub default_highlight_style: Style,
}

impl ChatSelector {
    /// The selector for the held conversations, with the theme's styles.
    pub fn new(backend: &NCTalk, config: &Config) -> (r: ChatSelector)
        requires
            backend.well_formed(),
        ensures
            sections_show(r.items@, backend.rooms@),
            r.default_style == colored(config.theme.data.foreground, config.theme.data.background),
            r.default_highlight_style == colored(
                config.theme.data.foreground_highlight,
                config.theme.data.background_highlight,
            ),
    {
        let items = match build_sections(backend) {
            Ok(items) => items,
            Err(_) => {
                assert(false);
                Vec::new()
            },
        };
        ChatSelector {
            items,
            default_style: config.theme.default_style(),
            default_highlight_style: config.theme.default_highlight_style(),
        }
    }

    /// Rebuilds the sections for the held conversations. A section with two
    /// entries of the same token would be refused; none is, as the tokens
    /// of held conversations are unique.
    pub fn update(&mut self, backend: &NCTalk) -> (r: Result<(), SelectorError>)
        requires
            backend.well_formed(),
        ensures
            r is Ok,
            sections_show(final(self).items@, backend.rooms@),
            final(self).default_style == old(self).default_style,
            final(self).default_highlight_style == old(self).default_highlight_style,
    {
        match build_sections(backend) {
            Ok(items) => {
                self.items = items;
            },
            Err(e) => return Err(e),
        }
        Ok(())
    }
}

/// With unique tokens, no section of the selector lists a token twice, so
/// every section is accepted.
pub proof fn law_sections_have_unique_tokens(items: Seq<ChatSection>, rooms: Seq<NCRoom>)
    requires
        tokens_unique(rooms),
        sections_show(items, rooms),
    ensures
        forall|k: int| 0 <= k < items.len() ==> entry_tokens_distinct(#[trigger] items[k].entries@),
{
    assert forall|k: int| 0 <= k < items.len() implies entry_tokens_distinct(
        #[trigger] items[k].entries@,
    ) by {
        let g = if k == 0 {
            RoomGroup::Unread
        } else if k == 1 {
            RoomGroup::Favorite
        } else if k == 2 {
            RoomGroup::Direct
        } else {
            RoomGroup::Group
        };
        assert(section_shows(items[k], items[k].identifier@, items[k].title@, rooms, g));
        let (s, perm) = choose|s: Seq<(String, String)>, perm: Seq<int>|
            is_sorted_group(s, rooms, g) && stable_rearrangement(s, group_entries(rooms, g), perm)
                && #[trigger] pair_texts(items[k].entries@) == pair_texts(s);
        lemma_sorted_group_distinct(s, rooms, g);
        lemma_entries_distinct(items[k].entries@, s);
    }
}

} // verus!
