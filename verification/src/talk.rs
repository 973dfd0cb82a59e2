//! The set of conversations of one account and the decisions taken when it
//! is loaded and refreshed.
use vstd::prelude::*;

use crate::data::{NCReqDataMessage, NCReqDataParticipants, NCReqDataRoom, Token};
use crate::room::{messages_of, NCRoom, NCRoomTypes};
use crate::sorting::{sort_by_display_name, sorted_by_display_name, sorted_by_name, stable_rearrangement};
use crate::text::text_eq;

verus! {

broadcast use vstd::seq_lib::group_to_multiset_ensures;

/// The token of a conversation.
pub open spec fn token_of(r: NCRoom) -> Seq<char> {
    r.room_data.token@
}

/// The display name of a conversation.
pub open spec fn name_of(r: NCRoom) -> Seq<char> {
    r.room_data.displayName@
}

/// No two conversations share a token.
pub open spec fn tokens_unique(rooms: Seq<NCRoom>) -> bool {
    forall|i: int, j: int|
        0 <= i < rooms.len() && 0 <= j < rooms.len() && i != j ==> token_of(#[trigger] rooms[i])
            != token_of(#[trigger] rooms[j])
}

/// Some conversation has the token `t`.
pub open spec fn has_token(rooms: Seq<NCRoom>, t: Seq<char>) -> bool {
    exists|i: int| 0 <= i < rooms.len() && token_of(#[trigger] rooms[i]) == t
}

/// The conversations after holding `room` under its token: a held
/// conversation with that token is replaced, otherwise `room` is added.
pub open spec fn rooms_with(rooms: Seq<NCRoom>, room: NCRoom) -> Seq<NCRoom> {
    if has_token(rooms, token_of(room)) {
        let i = choose|i: int| 0 <= i < rooms.len() && token_of(#[trigger] rooms[i]) == token_of(room);
        rooms.update(i, room)
    } else {
        rooms.push(room)
    }
}

/// The held conversation with the token `t`; with unique tokens there is
/// only one.
pub open spec fn room_with_token(rooms: Seq<NCRoom>, t: Seq<char>) -> NCRoom {
    rooms[choose|i: int| 0 <= i < rooms.len() && token_of(#[trigger] rooms[i]) == t]
}

/// With unique tokens, the conversation at a position is the one held
/// under its token.
pub proof fn lemma_room_with_token(rooms: Seq<NCRoom>, i: int)
    requires
        tokens_unique(rooms),
        0 <= i < rooms.len(),
    ensures
        room_with_token(rooms, token_of(rooms[i])) == rooms[i],
{
    let t = token_of(rooms[i]);
    assert(token_of(rooms[i]) == t);
    let j = choose|j: int| 0 <= j < rooms.len() && token_of(#[trigger] rooms[j]) == t;
    assert(0 <= j < rooms.len() && token_of(rooms[j]) == t);
    assert(i == j);
}

/// The groups of conversations that the conversation selector lists.
#[derive(Debug, Clone, Copy, PartialEq, Eq, Structural)]
pub enum RoomGroup {
    /// Conversations with unread messages.
    Unread,
    /// Conversations the user marked as favorite.
    Favorite,
    /// One-to-one conversations, notes to self and the change log.
    Direct,
    /// Group and public conversations.
    Group,
}

/// The conversation belongs to the group.
pub open spec fn in_group(g: RoomGroup, r: NCRoom) -> bool {
    match g {
        RoomGroup::Unread => r.room_data.unreadMessages > 0,
        RoomGroup::Favorite => r.room_data.isFavorite,
        RoomGroup::Direct => r.room_type == NCRoomTypes::OneToOne || r.room_type
            == NCRoomTypes::NoteToSelf || r.room_type == NCRoomTypes::ChangeLog,
        RoomGroup::Group => r.room_type == NCRoomTypes::Group || r.room_type
            == NCRoomTypes::Public,
    }
}

/// The (token, display name) entry of a conversation.
pub open spec fn room_entry(r: NCRoom) -> (String, String) {
    (r.room_data.token, r.room_data.displayName)
}

/// The entries of the conversations in the group, in storage order.
pub open spec fn group_entries(rooms: Seq<NCRoom>, g: RoomGroup) -> Seq<(String, String)>
    decreases rooms.len(),
{
    if rooms.len() == 0 {
        Seq::empty()
    } else {
        let prev = group_entries(rooms.drop_last(), g);
        if in_group(g, rooms.last()) {
            prev.push(room_entry(rooms.last()))
        } else {
            prev
        }
    }
}

/// The tokens of a list of entries.
pub open spec fn entry_tokens(entries: Seq<(String, String)>) -> Seq<String> {
    entries.map_values(|e: (String, String)| e.0)
}

/// Every entry of a group is the entry of a held conversation of the group.
pub proof fn lemma_group_entries_held(rooms: Seq<NCRoom>, g: RoomGroup, k: int)
    requires
        0 <= k < group_entries(rooms, g).len(),
    ensures
        exists|j: int|
            0 <= j < rooms.len() && group_entries(rooms, g)[k] == room_entry(#[trigger] rooms[j])
                && in_group(g, rooms[j]),
    decreases rooms.len(),
{
    let prev = group_entries(rooms.drop_last(), g);
    if k < prev.len() {
        lemma_group_entries_held(rooms.drop_last(), g, k);
        let j = choose|j: int|
            0 <= j < rooms.drop_last().len() && prev[k] == room_entry(
                #[trigger] rooms.drop_last()[j],
            ) && in_group(g, rooms.drop_last()[j]);
        assert(rooms.drop_last()[j] == rooms[j]);
    } else {
        assert(group_entries(rooms, g)[k] == room_entry(rooms[rooms.len() - 1]));
    }
}

/// The entries hold exactly the group's conversations, ordered by name.
pub open spec fn is_sorted_group(
    entries: Seq<(String, String)>,
    rooms: Seq<NCRoom>,
    g: RoomGroup,
) -> bool {
    &&& entries.to_multiset() == group_entries(rooms, g).to_multiset()
    &&& sorted_by_name(entries)
}

/// Each entry of a sorted group names a held conversation of the group; with
/// unique tokens that conversation is the one held under the entry's token
/// and carries the entry's name.
pub proof fn lemma_sorted_group_held(s: Seq<(String, String)>, rooms: Seq<NCRoom>, g: RoomGroup)
    requires
        is_sorted_group(s, rooms, g),
    ensures
        forall|k: int| 0 <= k < s.len() ==> has_token(rooms, (#[trigger] s[k]).0@),
        tokens_unique(rooms) ==> forall|k: int|
            0 <= k < s.len() ==> in_group(g, room_with_token(rooms, (#[trigger] s[k]).0@))
                && name_of(room_with_token(rooms, s[k].0@)) == s[k].1@,
{
    assert forall|k: int| 0 <= k < s.len() implies has_token(rooms, (#[trigger] s[k]).0@) && (
    tokens_unique(rooms) ==> in_group(g, room_with_token(rooms, s[k].0@)) && name_of(
        room_with_token(rooms, s[k].0@),
    ) == s[k].1@) by {
        let e = s[k];
        assert(s.contains(e));
        assert(s.to_multiset().count(e) > 0);
        assert(group_entries(rooms, g).to_multiset().count(e) > 0);
        assert(group_entries(rooms, g).contains(e));
        let m = choose|m: int|
            0 <= m < group_entries(rooms, g).len() && group_entries(rooms, g)[m] == e;
        lemma_group_entries_held(rooms, g, m);
        let j = choose|j: int|
            0 <= j < rooms.len() && group_entries(rooms, g)[m] == room_entry(#[trigger] rooms[j])
                && in_group(g, rooms[j]);
        assert(token_of(rooms[j]) == e.0@);
        if tokens_unique(rooms) {
            lemma_room_with_token(rooms, j);
        }
    }
}

/// A group has no entry exactly when no held conversation belongs to it.
pub proof fn lemma_group_entries_empty(rooms: Seq<NCRoom>, g: RoomGroup)
    ensures
        group_entries(rooms, g).len() == 0 <==> forall|i: int|
            0 <= i < rooms.len() ==> !in_group(g, #[trigger] rooms[i]),
    decreases rooms.len(),
{
    if rooms.len() > 0 {
        let front = rooms.drop_last();
        lemma_group_entries_empty(front, g);
        if group_entries(rooms, g).len() == 0 {
            assert forall|i: int| 0 <= i < rooms.len() implies !in_group(g, #[trigger] rooms[i]) by {
                if i < front.len() {
                    assert(rooms[i] == front[i]);
                }
            }
        } else {
            if forall|i: int| 0 <= i < rooms.len() ==> !in_group(g, #[trigger] rooms[i]) {
                assert forall|i: int| 0 <= i < front.len() implies !in_group(g, #[trigger] front[i]) by {
                    assert(front[i] == rooms[i]);
                }
                assert(!in_group(g, rooms[rooms.len() - 1]));
            }
        }
    }
}

/// The entries have pairwise different tokens.
pub open spec fn entry_tokens_distinct(s: Seq<(String, String)>) -> bool {
    forall|i: int, j: int|
        0 <= i < s.len() && 0 <= j < s.len() && i != j ==> (#[trigger] s[i]).0@ != (
        #[trigger] s[j]).0@
}

/// With unique tokens, the entries of a group have pairwise different
/// tokens.
pub proof fn lemma_group_entries_distinct(rooms: Seq<NCRoom>, g: RoomGroup)
    requires
        tokens_unique(rooms),
    ensures
        entry_tokens_distinct(group_entries(rooms, g)),
    decreases rooms.len(),
{
    if rooms.len() > 0 {
        let front = rooms.drop_last();
        assert(tokens_unique(front)) by {
            assert forall|a: int, b: int|
                0 <= a < front.len() && 0 <= b < front.len() && a != b implies token_of(
                #[trigger] front[a],
            ) != token_of(#[trigger] front[b]) by {
                assert(front[a] == rooms[a]);
                assert(front[b] == rooms[b]);
            }
        }
        lemma_group_entries_distinct(front, g);
        let prev = group_entries(front, g);
        let all = group_entries(rooms, g);
        let last = rooms.len() - 1;
        assert forall|i: int, j: int|
            0 <= i < all.len() && 0 <= j < all.len() && i != j implies (#[trigger] all[i]).0@ != (
            #[trigger] all[j]).0@ by {
            if i < prev.len() && j < prev.len() {
                assert(all[i] == prev[i]);
                assert(all[j] == prev[j]);
            } else {
                let k = if i < prev.len() { i } else { j };
                assert(k < prev.len());
                lemma_group_entries_held(front, g, k);
                let a = choose|a: int|
                    0 <= a < front.len() && prev[k] == room_entry(#[trigger] front[a]) && in_group(
                        g,
                        front[a],
                    );
                assert(front[a] == rooms[a]);
                assert(token_of(rooms[a]) != token_of(rooms[last]));
            }
        }
    }
}

/// Two positions holding the same item make it count at least twice.
proof fn lemma_two_positions_count<A>(s: Seq<A>, i: int, j: int)
    requires
        0 <= i < s.len(),
        0 <= j < s.len(),
        i != j,
        s[i] == s[j],
    ensures
        s.to_multiset().count(s[i]) >= 2,
{
    broadcast use vstd::multiset::group_multiset_axioms;

    vstd::seq_lib::to_multiset_remove(s, j);
    let rest = s.remove(j);
    let k = if i < j { i } else { i - 1 };
    assert(rest[k] == s[i]);
    vstd::seq_lib::to_multiset_contains(rest, s[i]);
    vstd::seq_lib::to_multiset_contains(s, s[i]);
}

/// An item that counts at least twice sits at two positions.
proof fn lemma_count_two_positions<A>(s: Seq<A>, x: A)
    requires
        s.to_multiset().count(x) >= 2,
    ensures
        exists|p: int, q: int| 0 <= p < s.len() && 0 <= q < s.len() && p != q && s[p] == x && s[q] == x,
{
    broadcast use vstd::multiset::group_multiset_axioms;

    vstd::seq_lib::to_multiset_contains(s, x);
    let p = choose|p: int| 0 <= p < s.len() && s[p] == x;
    vstd::seq_lib::to_multiset_remove(s, p);
    let rest = s.remove(p);
    vstd::seq_lib::to_multiset_contains(rest, x);
    let q0 = choose|q: int| 0 <= q < rest.len() && rest[q] == x;
    let q = if q0 < p { q0 } else { q0 + 1 };
    assert(s[q] == x);
}

/// With unique tokens, the entries of a sorted group have pairwise
/// different tokens.
pub proof fn lemma_sorted_group_distinct(s: Seq<(String, String)>, rooms: Seq<NCRoom>, g: RoomGroup)
    requires
        is_sorted_group(s, rooms, g),
        tokens_unique(rooms),
    ensures
        entry_tokens_distinct(s),
{
    lemma_group_entries_distinct(rooms, g);
    let all = group_entries(rooms, g);
    assert forall|i: int, j: int|
        0 <= i < s.len() && 0 <= j < s.len() && i != j implies (#[trigger] s[i]).0@ != (
        #[trigger] s[j]).0@ by {
        if s[i].0@ == s[j].0@ {
            vstd::seq_lib::to_multiset_contains(s, s[i]);
            vstd::seq_lib::to_multiset_contains(s, s[j]);
            vstd::seq_lib::to_multiset_contains(all, s[i]);
            vstd::seq_lib::to_multiset_contains(all, s[j]);
            let p = choose|p: int| 0 <= p < all.len() && all[p] == s[i];
            let q = choose|q: int| 0 <= q < all.len() && all[q] == s[j];
            assert(p == q);
            lemma_two_positions_count(s, i, j);
            lemma_count_two_positions(all, s[i]);
            let (p2, q2) = choose|p2: int, q2: int|
                0 <= p2 < all.len() && 0 <= q2 < all.len() && p2 != q2 && all[p2] == s[i]
                    && all[q2] == s[i];
            assert(all[p2].0@ == all[q2].0@);
        }
    }
}

/// The direct-message listing and the group listing share no token, and a
/// deprecated conversation is listed in neither: every listed token is held
/// by a conversation of the listing's kind.
pub proof fn lemma_direct_and_group_listings_disjoint(
    direct: Seq<(String, String)>,
    groups: Seq<(String, String)>,
    rooms: Seq<NCRoom>,
)
    requires
        tokens_unique(rooms),
        is_sorted_group(direct, rooms, RoomGroup::Direct),
        is_sorted_group(groups, rooms, RoomGroup::Group),
    ensures
        forall|i: int, j: int|
            0 <= i < direct.len() && 0 <= j < groups.len() ==> (#[trigger] direct[i]).0@ != (
            #[trigger] groups[j]).0@,
        forall|i: int|
            0 <= i < direct.len() ==> room_with_token(rooms, (#[trigger] direct[i]).0@).room_type
                != NCRoomTypes::Deprecated,
        forall|j: int|
            0 <= j < groups.len() ==> room_with_token(rooms, (#[trigger] groups[j]).0@).room_type
                != NCRoomTypes::Deprecated,
{
    lemma_sorted_group_held(direct, rooms, RoomGroup::Direct);
    lemma_sorted_group_held(groups, rooms, RoomGroup::Group);
    assert forall|i: int, j: int|
        0 <= i < direct.len() && 0 <= j < groups.len() implies (#[trigger] direct[i]).0@ != (
        #[trigger] groups[j]).0@ by {
        assert(in_group(RoomGroup::Direct, room_with_token(rooms, direct[i].0@)));
        assert(in_group(RoomGroup::Group, room_with_token(rooms, groups[j].0@)));
    }
    assert forall|i: int| 0 <= i < direct.len() implies room_with_token(
        rooms,
        (#[trigger] direct[i]).0@,
    ).room_type != NCRoomTypes::Deprecated by {
        assert(in_group(RoomGroup::Direct, room_with_token(rooms, direct[i].0@)));
    }
    assert forall|j: int| 0 <= j < groups.len() implies room_with_token(
        rooms,
        (#[trigger] groups[j]).0@,
    ).room_type != NCRoomTypes::Deprecated by {
        assert(in_group(RoomGroup::Group, room_with_token(rooms, groups[j].0@)));
    }
}

/// What to do with one conversation that the server reported.
#[derive(Debug, Clone, Copy, PartialEq, Eq, Structural)]
pub enum RoomUpdateAction {
    /// Refresh the held conversation at this position with the new data.
    Update(usize),
    /// Refresh the held conversation at this position if the reported last
    /// message identifier is newer than the newest message held.
    UpdateIfNewer(usize, i32),
    /// The conversation is new: create it.
    Create,
}

/// A stored conversation at start-up and, if the server still reports it,
/// the position of its (last) report in the server's list.
#[derive(Debug, Clone, Copy, PartialEq, Eq, Structural)]
pub struct StoredRoomPlan {
    pub stored_index: usize,
    pub upstream_index: Option<usize>,
}

/// How the conversations are loaded at start-up: stored ones from their
/// logs (refreshed from the server's report, or dropped when the server no
/// longer reports them), the others fetched from the server.
#[derive(Debug)]
pub struct InitialLoadPlan {
    pub stored: Vec<StoredRoomPlan>,
    pub fetch: Vec<usize>,
}

/// The position of the last conversation in `rooms` whose token is `t`.
pub open spec fn last_index_with_token(rooms: Seq<NCReqDataRoom>, t: Seq<char>) -> Option<usize>
    decreases rooms.len(),
{
    if rooms.len() == 0 {
        None
    } else if rooms.last().token@ == t {
        Some((rooms.len() - 1) as usize)
    } else {
        last_index_with_token(rooms.drop_last(), t)
    }
}

/// Some stored key is `t`.
pub open spec fn key_stored(keys: Seq<String>, t: Seq<char>) -> bool {
    exists|i: int| 0 <= i < keys.len() && (#[trigger] keys[i])@ == t
}

/// The positions, in order, of the reported conversations that are not stored.
pub open spec fn unstored_indices(rooms: Seq<NCReqDataRoom>, keys: Seq<String>) -> Seq<usize>
    decreases rooms.len(),
{
    if rooms.len() == 0 {
        Seq::empty()
    } else {
        let prev = unstored_indices(rooms.drop_last(), keys);
        if key_stored(keys, rooms.last().token@) {
            prev
        } else {
            prev.push((rooms.len() - 1) as usize)
        }
    }
}

/// Decides, for the conversations stored under `stored_keys` and the list
/// the server reported, which stored conversation is refreshed from which
/// report and which reported conversations must be fetched anew.
pub fn plan_initial_load(response: &Vec<NCReqDataRoom>, stored_keys: &Vec<Token>) -> (r:
    InitialLoadPlan)
    ensures
        r.stored@.len() == stored_keys@.len(),
        forall|i: int|
            0 <= i < r.stored@.len() ==> (#[trigger] r.stored@[i]).stored_index == i
                && r.stored@[i].upstream_index == last_index_with_token(
                response@,
                stored_keys@[i]@,
            ),
        r.fetch@ == unstored_indices(response@, stored_keys@),
{
    let mut stored: Vec<StoredRoomPlan> = Vec::new();
    let m = stored_keys.len();
    let n = response.len();
    let mut i: usize = 0;
    while i < m
        invariant
            m == stored_keys@.len(),
            n == response@.len(),
            i <= m,
            stored@.len() == i,
            forall|k: int|
                0 <= k < i ==> (#[trigger] stored@[k]).stored_index == k
                    && stored@[k].upstream_index == last_index_with_token(
                    response@,
                    stored_keys@[k]@,
                ),
        decreases m - i,
    {
        let key = &stored_keys[i];
        let mut j = n;
        let mut found: Option<usize> = None;
        assert(response@.take(n as int) =~= response@);
        while j > 0 && found.is_none()
            invariant
                j <= n,
                n == response@.len(),
                found is None ==> last_index_with_token(response@, key@) == last_index_with_token(
                    response@.take(j as int),
                    key@,
                ),
                found is Some ==> last_index_with_token(response@, key@) == found,
            decreases j as int + (if found is None { 1int } else { 0int }),
        {
            let ghost prefix = response@.take(j as int);
            assert(prefix.drop_last() =~= response@.take(j - 1));
            if text_eq(response[j - 1].token.as_str(), key.as_str()) {
                found = Some(j - 1);
            } else {
                j = j - 1;
            }
        }
        assert(found == last_index_with_token(response@, key@)) by {
            if found is None {
                assert(response@.take(0) =~= Seq::<NCReqDataRoom>::empty());
            }
        }
        stored.push(StoredRoomPlan { stored_index: i, upstream_index: found });
        i = i + 1;
    }
    let mut fetch: Vec<usize> = Vec::new();
    let mut j: usize = 0;
    while j < n
        invariant
            n == response@.len(),
            m == stored_keys@.len(),
            j <= n,
            fetch@ == unstored_indices(response@.take(j as int), stored_keys@),
        decreases n - j,
    {
        let token = &response[j].token;
        let mut stored_here = false;
        let mut k: usize = 0;
        while k < m
            invariant
                m == stored_keys@.len(),
                k <= m,
                stored_here == exists|q: int| 0 <= q < k && (#[trigger] stored_keys@[q])@ == token@,
            decreases m - k,
        {
            if text_eq(stored_keys[k].as_str(), token.as_str()) {
                stored_here = true;
            }
            k = k + 1;
        }
        proof {
            let prefix = response@.take(j + 1);
            assert(prefix.drop_last() =~= response@.take(j as int));
            assert(prefix.last() == response@[j as int]);
        }
        if !stored_here {
            fetch.push(j);
        }
        j = j + 1;
    }
    assert(response@.take(n as int) =~= response@);
    InitialLoadPlan { stored, fetch }
}

/// The conversations of an account.
#[derive(Debug, Default)]
pub struct NCTalk {
    pub rooms: Vec<NCRoom>,
    pub last_requested: i64,
}

impl NCTalk {
    /// No two held conversations share a token.
    pub open spec fn well_formed(&self) -> bool {
        tokens_unique(self.rooms@)
    }

    /// An account with no conversation yet; `last_requested` is the server's
    /// time stamp of the conversation list.
    pub fn new(last_requested: i64) -> (r: NCTalk)
        ensures
            r.rooms@.len() == 0,
            r.last_requested == last_requested,
            r.well_formed(),
    {
        NCTalk { rooms: Vec::new(), last_requested }
    }

    /// The position of the conversation with the token `token`.
    pub fn find_room(&self, token: &str) -> (r: Option<usize>)
        ensures
            r matches Some(i) ==> i < self.rooms@.len() && token_of(self.rooms@[i as int])
                == token@,
            r is None ==> !has_token(self.rooms@, token@),
    {
        let n = self.rooms.len();
        let mut i: usize = 0;
        while i < n
            invariant
                n == self.rooms@.len(),
                i <= n,
                forall|k: int| 0 <= k < i ==> token_of(#[trigger] self.rooms@[k]) != token@,
            decreases n - i,
        {
            if text_eq(self.rooms[i].room_data.token.as_str(), token) {
                return Some(i);
            }
            i = i + 1;
        }
        None
    }

    /// Holds a conversation under its token, replacing a held one with the
    /// same token (as a map's insertion does).
    pub fn insert_room(&mut self, room: NCRoom)
        requires
            old(self).well_formed(),
        ensures
            final(self).well_formed(),
            final(self).last_requested == old(self).last_requested,
            final(self).rooms@ == rooms_with(old(self).rooms@, room),
    {
        match self.find_room(room.room_data.token.as_str()) {
            Some(i) => {
                proof {
                    let j = choose|j: int|
                        0 <= j < old(self).rooms@.len() && token_of(#[trigger] old(self).rooms@[j])
                            == token_of(room);
                    assert(old(self).rooms@[i as int] == old(self).rooms@[i as int]);
                    assert(j == i);
                }
                self.rooms.set(i, room);
                proof {
                    assert forall|a: int, b: int|
                        0 <= a < self.rooms@.len() && 0 <= b < self.rooms@.len() && a != b implies token_of(
                        #[trigger] self.rooms@[a],
                    ) != token_of(#[trigger] self.rooms@[b]) by {
                        if a != i && b != i {
                            assert(self.rooms@[a] == old(self).rooms@[a]);
                            assert(self.rooms@[b] == old(self).rooms@[b]);
                        } else if a == i {
                            assert(self.rooms@[b] == old(self).rooms@[b]);
                        } else {
                            assert(self.rooms@[a] == old(self).rooms@[a]);
                        }
                    }
                }
            },
            None => {
                self.rooms.push(room);
                proof {
                    assert forall|a: int, b: int|
                        0 <= a < self.rooms@.len() && 0 <= b < self.rooms@.len() && a != b implies token_of(
                        #[trigger] self.rooms@[a],
                    ) != token_of(#[trigger] self.rooms@[b]) by {
                        if a < old(self).rooms@.len() && b < old(self).rooms@.len() {
                            assert(self.rooms@[a] == old(self).rooms@[a]);
                            assert(self.rooms@[b] == old(self).rooms@[b]);
                        } else if a < old(self).rooms@.len() {
                            assert(self.rooms@[a] == old(self).rooms@[a]);
                        } else {
                            assert(self.rooms@[b] == old(self).rooms@[b]);
                        }
                    }
                }
            },
        }
    }

    /// The conversation with the token `token`.
    pub fn get_room(&self, token: &str) -> (r: &NCRoom)
        requires
            has_token(self.rooms@, token@),
        ensures
            token_of(*r) == token@,
            exists|i: int| 0 <= i < self.rooms@.len() && self.rooms@[i] == *r,
            tokens_unique(self.rooms@) ==> *r == room_with_token(self.rooms@, token@),
    {
        match self.find_room(token) {
            Some(i) => {
                proof {
                    if tokens_unique(self.rooms@) {
                        lemma_room_with_token(self.rooms@, i as int);
                    }
                }
                &self.rooms[i]
            },
            None => {
                assert(false);
                &self.rooms[0]
            },
        }
    }

    /// The entries of the held conversations of a group, in storage order.
    pub fn group_entries(&self, g: RoomGroup) -> (r: Vec<(Token, String)>)
        ensures
            r@ == group_entries(self.rooms@, g),
    {
        let mut r: Vec<(Token, String)> = Vec::new();
        let n = self.rooms.len();
        let mut i: usize = 0;
        while i < n
            invariant
                n == self.rooms@.len(),
                i <= n,
                r@ == group_entries(self.rooms@.take(i as int), g),
            decreases n - i,
        {
            let room = &self.rooms[i];
            let picked = match g {
                RoomGroup::Unread => room.has_unread(),
                RoomGroup::Favorite => room.room_data.isFavorite,
                RoomGroup::Direct => room.is_dm(),
                RoomGroup::Group => room.is_group(),
            };
            if picked {
                r.push((room.room_data.token.clone(), room.room_data.displayName.clone()));
            }
            proof {
                let prefix = self.rooms@.take(i + 1);
                assert(prefix.drop_last() =~= self.rooms@.take(i as int));
                assert(prefix.last() == self.rooms@[i as int]);
            }
            i = i + 1;
        }
        assert(self.rooms@.take(n as int) =~= self.rooms@);
        r
    }

    /// The tokens of the conversations with unread messages, ordered by name,
    /// conversations of equal names in the order they are held.
    pub fn get_unread_rooms(&self) -> (r: Vec<Token>)
        ensures
            exists|s: Seq<(String, String)>, perm: Seq<int>|
                is_sorted_group(s, self.rooms@, RoomGroup::Unread) && stable_rearrangement(
                    s,
                    group_entries(self.rooms@, RoomGroup::Unread),
                    perm,
                ) && r@ == entry_tokens(s),
    {
        let sorted = sorted_by_display_name(self.group_entries(RoomGroup::Unread));
        tokens_of(&sorted)
    }

    /// The tokens of the conversations marked as favorite, ordered by name,
    /// conversations of equal names in the order they are held.
    pub fn get_favorite_rooms(&self) -> (r: Vec<Token>)
        ensures
            exists|s: Seq<(String, String)>, perm: Seq<int>|
                is_sorted_group(s, self.rooms@, RoomGroup::Favorite) && stable_rearrangement(
                    s,
                    group_entries(self.rooms@, RoomGroup::Favorite),
                    perm,
                ) && r@ == entry_tokens(s),
    {
        let sorted = sorted_by_display_name(self.group_entries(RoomGroup::Favorite));
        tokens_of(&sorted)
    }

    /// The token of the first held conversation named `name`.
    pub fn get_room_by_displayname(&self, name: &str) -> (r: Token)
        requires
            exists|i: int| 0 <= i < self.rooms@.len() && name_of(#[trigger] self.rooms@[i]) == name@,
        ensures
            exists|i: int|
                0 <= i < self.rooms@.len() && name_of(self.rooms@[i]) == name@ && r@ == token_of(
                    self.rooms@[i],
                ) && forall|k: int| 0 <= k < i ==> name_of(#[trigger] self.rooms@[k]) != name@,
    {
        let n = self.rooms.len();
        let mut i: usize = 0;
        while i < n
            invariant
                n == self.rooms@.len(),
                i <= n,
                forall|k: int| 0 <= k < i ==> name_of(#[trigger] self.rooms@[k]) != name@,
            decreases n - i,
        {
            if text_eq(self.rooms[i].room_data.displayName.as_str(), name) {
                return self.rooms[i].to_token();
            }
            i = i + 1;
        }
        assert(false);
        String::new()
    }

    /// The (token, name) entries of the direct conversations, ordered by name,
    /// conversations of equal names in the order they are held.
    pub fn get_dm_keys_display_name_mapping(&self) -> (r: Vec<(Token, String)>)
        ensures
            is_sorted_group(r@, self.rooms@, RoomGroup::Direct),
            exists|perm: Seq<int>|
                stable_rearrangement(r@, group_entries(self.rooms@, RoomGroup::Direct), perm),
    {
        sorted_by_display_name(self.group_entries(RoomGroup::Direct))
    }

    /// The (token, name) entries of the group conversations, ordered by name,
    /// conversations of equal names in the order they are held.
    pub fn get_group_keys_display_name_mapping(&self) -> (r: Vec<(Token, String)>)
        ensures
            is_sorted_group(r@, self.rooms@, RoomGroup::Group),
            exists|perm: Seq<int>|
                stable_rearrangement(r@, group_entries(self.rooms@, RoomGroup::Group), perm),
    {
        let mut mapping = self.group_entries(RoomGroup::Group);
        sort_by_display_name(&mut mapping);
        mapping
    }

    /// The tokens of all held conversations, in storage order.
    pub fn get_room_keys(&self) -> (r: Vec<&Token>)
        ensures
            r@.len() == self.rooms@.len(),
            forall|i: int| 0 <= i < r@.len() ==> *r@[i] == self.rooms@[i].room_data.token,
    {
        let mut r: Vec<&Token> = Vec::new();
        let n = self.rooms.len();
        let mut i: usize = 0;
        while i < n
            invariant
                n == self.rooms@.len(),
                i <= n,
                r@.len() == i,
                forall|k: int| 0 <= k < i ==> *r@[k] == self.rooms@[k].room_data.token,
            decreases n - i,
        {
            r.push(&self.rooms[i].room_data.token);
            i = i + 1;
        }
        r
    }

    /// What to do with a conversation the server reported: refresh the held
    /// one with the same token (always when `force_update`, else only if its
    /// last message is newer), or create it.
    pub fn room_update_action(&self, data: &NCReqDataRoom, force_update: bool) -> (r:
        RoomUpdateAction)
        ensures
            !has_token(self.rooms@, data.token@) <==> r == RoomUpdateAction::Create,
            r matches RoomUpdateAction::Update(i) ==> force_update && i < self.rooms@.len()
                && token_of(self.rooms@[i as int]) == data.token@,
            r matches RoomUpdateAction::UpdateIfNewer(i, id) ==> !force_update && i
                < self.rooms@.len() && token_of(self.rooms@[i as int]) == data.token@ && id
                == data.lastMessage.id,
    {
        match self.find_room(data.token.as_str()) {
            Some(i) => if force_update {
                RoomUpdateAction::Update(i)
            } else {
                RoomUpdateAction::UpdateIfNewer(i, data.lastMessage.id)
            },
            None => RoomUpdateAction::Create,
        }
    }

    /// Starts refreshing the conversation at `index`: takes the new data, if
    /// any, and returns the token and the newest message identifier from
    /// which newer messages are asked for.
    pub fn begin_room_update(&mut self, index: usize, data_option: Option<NCReqDataRoom>) -> (r: (
        Token,
        i32,
    ))
        requires
            old(self).well_formed(),
            index < old(self).rooms@.len(),
            old(self).rooms@[index as int].messages@.len() > 0,
            data_option matches Some(d) ==> d.token@ == token_of(old(self).rooms@[index as int]),
        ensures
            final(self).well_formed(),
            final(self).last_requested == old(self).last_requested,
            final(self).rooms@.len() == old(self).rooms@.len(),
            forall|k: int|
                0 <= k < final(self).rooms@.len() && k != index ==> final(self).rooms@[k] == old(
                    self,
                ).rooms@[k],
            final(self).rooms@[index as int].room_data == (match data_option {
                Some(d) => d,
                None => old(self).rooms@[index as int].room_data,
            }),
            final(self).rooms@[index as int].messages == old(self).rooms@[index as int].messages,
            final(self).rooms@[index as int].participants == old(
                self,
            ).rooms@[index as int].participants,
            final(self).rooms@[index as int].room_type == old(self).rooms@[index as int].room_type,
            r.0@ == token_of(old(self).rooms@[index as int]),
            r.1 == old(self).rooms@[index as int].messages@.last().0.id,
    {
        let mut room = self.rooms.remove(index);
        room.set_room_data(data_option);
        let token = room.to_token();
        let last = room.last_message_id();
        self.rooms.insert(index, room);
        proof {
            assert forall|k: int|
                0 <= k < self.rooms@.len() && k != index implies self.rooms@[k] == old(
                self,
            ).rooms@[k] by {}
            assert(tokens_unique(self.rooms@)) by {
                assert forall|a: int, b: int|
                    0 <= a < self.rooms@.len() && 0 <= b < self.rooms@.len() && a != b implies token_of(
                    #[trigger] self.rooms@[a],
                ) != token_of(#[trigger] self.rooms@[b]) by {
                    assert(token_of(self.rooms@[a]) == token_of(old(self).rooms@[a]));
                    assert(token_of(self.rooms@[b]) == token_of(old(self).rooms@[b]));
                }
            }
        }
        (token, last)
    }

    /// Finishes refreshing the conversation at `index` with the messages and
    /// participants fetched; returns the announcement of new messages, if any.
    pub fn finish_room_update(
        &mut self,
        index: usize,
        response: Vec<NCReqDataMessage>,
        participants: Vec<NCReqDataParticipants>,
    ) -> (r: Option<(String, usize)>)
        requires
            old(self).well_formed(),
            index < old(self).rooms@.len(),
        ensures
            final(self).well_formed(),
            final(self).last_requested == old(self).last_requested,
            final(self).rooms@.len() == old(self).rooms@.len(),
            forall|k: int|
                0 <= k < final(self).rooms@.len() && k != index ==> final(self).rooms@[k] == old(
                    self,
                ).rooms@[k],
            final(self).rooms@[index as int].messages@ == old(self).rooms@[index as int].messages@
                + messages_of(response@),
            final(self).rooms@[index as int].participants == participants,
            final(self).rooms@[index as int].room_data == old(self).rooms@[index as int].room_data,
            final(self).rooms@[index as int].room_type == old(self).rooms@[index as int].room_type,
            r is Some <==> (old(self).rooms@[index as int].room_data.unreadMessages > 0
                && response@.len() > 0),
            r matches Some(note) ==> note.0@ == name_of(old(self).rooms@[index as int]) && note.1
                == response@.len(),
    {
        let mut room = self.rooms.remove(index);
        let note = room.apply_update(response, participants);
        self.rooms.insert(index, room);
        proof {
            assert forall|k: int|
                0 <= k < self.rooms@.len() && k != index implies self.rooms@[k] == old(
                self,
            ).rooms@[k] by {}
            assert(tokens_unique(self.rooms@)) by {
                assert forall|a: int, b: int|
                    0 <= a < self.rooms@.len() && 0 <= b < self.rooms@.len() && a != b implies token_of(
                    #[trigger] self.rooms@[a],
                ) != token_of(#[trigger] self.rooms@[b]) by {
                    assert(token_of(self.rooms@[a]) == token_of(old(self).rooms@[a]));
                    assert(token_of(self.rooms@[b]) == token_of(old(self).rooms@[b]));
                }
            }
        }
        note
    }
}

/// Holding a conversation keeps the tokens unique, and afterwards the
/// conversation held under its token is exactly the one that was held.
pub proof fn law_insert_then_lookup(rooms: Seq<NCRoom>, room: NCRoom)
    requires
        tokens_unique(rooms),
    ensures
        tokens_unique(rooms_with(rooms, room)),
        has_token(rooms_with(rooms, room), token_of(room)),
        forall|i: int|
            0 <= i < rooms_with(rooms, room).len() && token_of(#[trigger] rooms_with(rooms, room)[i])
                == token_of(room) ==> rooms_with(rooms, room)[i] == room,
{
    let after = rooms_with(rooms, room);
    if has_token(rooms, token_of(room)) {
        let j = choose|j: int| 0 <= j < rooms.len() && token_of(#[trigger] rooms[j]) == token_of(room);
        assert(after[j] == room);
        assert forall|a: int, b: int|
            0 <= a < after.len() && 0 <= b < after.len() && a != b implies token_of(
            #[trigger] after[a],
        ) != token_of(#[trigger] after[b]) by {
            if a != j && b != j {
                assert(after[a] == rooms[a]);
                assert(after[b] == rooms[b]);
            } else if a == j {
                assert(after[b] == rooms[b]);
            } else {
                assert(after[a] == rooms[a]);
            }
        }
        assert forall|i: int|
            0 <= i < after.len() && token_of(#[trigger] after[i]) == token_of(room) implies after[i]
            == room by {
            if i != j {
                assert(after[i] == rooms[i]);
            }
        }
    } else {
        assert(after[rooms.len() as int] == room);
        assert forall|a: int, b: int|
            0 <= a < after.len() && 0 <= b < after.len() && a != b implies token_of(
            #[trigger] after[a],
        ) != token_of(#[trigger] after[b]) by {
            if a < rooms.len() {
                assert(after[a] == rooms[a]);
            }
            if b < rooms.len() {
                assert(after[b] == rooms[b]);
            }
        }
        assert forall|i: int|
            0 <= i < after.len() && token_of(#[trigger] after[i]) == token_of(room) implies after[i]
            == room by {
            if i < rooms.len() {
                assert(after[i] == rooms[i]);
            }
        }
    }
}

/// The tokens of a list of entries.
pub fn tokens_of(entries: &Vec<(Token, String)>) -> (r: Vec<Token>)
    ensures
        r@ == entry_tokens(entries@),
{
    let mut r: Vec<Token> = Vec::new();
    let n = entries.len();
    let mut i: usize = 0;
    while i < n
        invariant
            n == entries@.len(),
            i <= n,
            r@ == entry_tokens(entries@.take(i as int)),
        decreases n - i,
    {
        r.push(entries[i].0.clone());
        assert(entry_tokens(entries@.take(i + 1)) =~= entry_tokens(entries@.take(i as int)).push(
            entries@[i as int].0,
        ));
        i = i + 1;
    }
    assert(entries@.take(n as int) =~= entries@);
    r
}

} // verus!
