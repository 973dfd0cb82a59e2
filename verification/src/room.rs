//! A conversation: its data, its messages and its participants, and the
//! decisions taken when it is refreshed from the server.
use vstd::prelude::*;

use crate::data::{NCReqDataMessage, NCReqDataParticipants, NCReqDataRoom, Token};
use crate::message::NCMessage;
use crate::text::{compare_text, lex_order};

verus! {

/// The kinds of conversation of the Talk API (its codes 1 to 6).
#[derive(Debug, Clone, Copy, PartialEq, Eq, Structural)]
pub enum NCRoomTypes {
    OneToOne,
    Group,
    Public,
    ChangeLog,
    Deprecated,
    NoteToSelf,
}

impl Default for NCRoomTypes {
    fn default() -> (r: Self)
        ensures
            r == NCRoomTypes::OneToOne,
    {
        NCRoomTypes::OneToOne
    }
}

impl NCRoomTypes {
    /// The kind of conversation that the API code `code` stands for.
    pub open spec fn spec_from_code(code: i32) -> Option<NCRoomTypes> {
        if code == 1 {
            Some(NCRoomTypes::OneToOne)
        } else if code == 2 {
            Some(NCRoomTypes::Group)
        } else if code == 3 {
            Some(NCRoomTypes::Public)
        } else if code == 4 {
            Some(NCRoomTypes::ChangeLog)
        } else if code == 5 {
            Some(NCRoomTypes::Deprecated)
        } else if code == 6 {
            Some(NCRoomTypes::NoteToSelf)
        } else {
            None
        }
    }

    /// Reads an API code; `None` for a code outside 1 to 6.
    pub fn from_i32(code: i32) -> (r: Option<NCRoomTypes>)
        ensures
            r == NCRoomTypes::spec_from_code(code),
    {
        if code == 1 {
            Some(NCRoomTypes::OneToOne)
        } else if code == 2 {
            Some(NCRoomTypes::Group)
        } else if code == 3 {
            Some(NCRoomTypes::Public)
        } else if code == 4 {
            Some(NCRoomTypes::ChangeLog)
        } else if code == 5 {
            Some(NCRoomTypes::Deprecated)
        } else if code == 6 {
            Some(NCRoomTypes::NoteToSelf)
        } else {
            None
        }
    }

    /// One-to-one conversations, notes to self and the change log are direct
    /// conversations.
    pub open spec fn spec_is_dm(self) -> bool {
        self == NCRoomTypes::OneToOne || self == NCRoomTypes::NoteToSelf || self
            == NCRoomTypes::ChangeLog
    }

    /// Group and public conversations are group conversations.
    pub open spec fn spec_is_group(self) -> bool {
        self == NCRoomTypes::Group || self == NCRoomTypes::Public
    }
}

/// What a newly reported last message identifier means for a conversation.
#[derive(Debug, Clone, Copy, PartialEq, Eq, Structural)]
pub enum MessageIdCheck {
    /// The server knows a newer message: the conversation is refreshed.
    Newer,
    /// The server reports an older message than the newest one held.
    Older,
    /// The server reports the newest message held.
    Same,
    /// No message that counts for the conversation is held yet.
    NothingHeld,
}

/// A message counts for the conversation's last-message identifier unless
/// it is a reaction or an edit note (the conversation endpoint does not
/// report those).
pub open spec fn is_room_level(m: NCMessage) -> bool {
    !m.spec_is_reaction() && !m.spec_is_edit_note()
}

/// The identifier of the last message that counts for the conversation.
pub open spec fn last_room_level_id(messages: Seq<NCMessage>) -> Option<i32>
    decreases messages.len(),
{
    if messages.len() == 0 {
        None
    } else if is_room_level(messages.last()) {
        Some(messages.last().0.id)
    } else {
        last_room_level_id(messages.drop_last())
    }
}

/// The messages of a list of API messages, in order.
pub open spec fn messages_of(data: Seq<NCReqDataMessage>) -> Seq<NCMessage> {
    data.map_values(|d: NCReqDataMessage| NCMessage(d))
}

/// A conversation.
#[derive(Debug, Default)]
pub struct NCRoom {
    pub messages: Vec<NCMessage>,
    pub room_data: NCReqDataRoom,
    pub room_type: NCRoomTypes,
    pub participants: Vec<NCReqDataParticipants>,
}

impl NCRoom {
    /// A conversation made of its API data, the messages held for it and its
    /// participants; its kind is read from the data's type code.
    pub fn new(
        room_data: NCReqDataRoom,
        messages: Vec<NCMessage>,
        participants: Vec<NCReqDataParticipants>,
    ) -> (r: Option<NCRoom>)
        requires
            NCRoomTypes::spec_from_code(room_data.roomtype) is Some,
        ensures
            r is Some,
            r->0.room_data == room_data,
            r->0.messages == messages,
            r->0.participants == participants,
            r->0.room_type == NCRoomTypes::spec_from_code(room_data.roomtype)->0,
    {
        let room_type = NCRoomTypes::from_i32(room_data.roomtype);
        match room_type {
            Some(room_type) => Some(NCRoom { messages, room_data, room_type, participants }),
            None => None,
        }
    }

    /// The messages of the API messages fetched for a conversation, in order.
    pub fn fetch_messages(response: Vec<NCReqDataMessage>) -> (r: Vec<NCMessage>)
        ensures
            r@ == messages_of(response@),
    {
        let mut messages: Vec<NCMessage> = Vec::new();
        let mut response = response;
        let ghost data = response@;
        let n = response.len();
        let mut rest: Vec<NCReqDataMessage> = Vec::new();
        // Take the messages from the back and put them back in order.
        while response.len() > 0
            invariant
                response@ == data.take(response@.len() as int),
                rest@.len() + response@.len() == n,
                n == data.len(),
                forall|k: int| 0 <= k < rest@.len() ==> #[trigger] rest@[k] == data[n - 1 - k],
            decreases response.len(),
        {
            let d = response.pop().unwrap();
            rest.push(d);
        }
        while rest.len() > 0
            invariant
                messages@.len() + rest@.len() == n,
                n == data.len(),
                forall|k: int| 0 <= k < rest@.len() ==> #[trigger] rest@[k] == data[n - 1 - k],
                forall|k: int|
                    0 <= k < messages@.len() ==> #[trigger] messages@[k] == NCMessage(data[k]),
            decreases rest.len(),
        {
            let d = rest.pop().unwrap();
            messages.push(NCMessage::from(d));
        }
        assert(messages@ =~= messages_of(data));
        messages
    }

    /// The identifier of the last message that is neither a reaction nor an
    /// edit note.
    pub fn get_last_room_level_message_id(&self) -> (r: Option<i32>)
        ensures
            r == last_room_level_id(self.messages@),
    {
        let mut i = self.messages.len();
        assert(self.messages@.take(i as int) =~= self.messages@);
        while i > 0
            invariant
                i <= self.messages@.len(),
                last_room_level_id(self.messages@) == last_room_level_id(
                    self.messages@.take(i as int),
                ),
            decreases i,
        {
            let m = &self.messages[i - 1];
            let ghost prefix = self.messages@.take(i as int);
            assert(prefix.last() == self.messages@[i - 1]);
            assert(prefix.drop_last() =~= self.messages@.take(i - 1));
            if !m.is_reaction() && !m.is_edit_note() {
                return Some(m.get_id());
            }
            i = i - 1;
        }
        None
    }

    /// The conversation has unread messages.
    pub fn has_unread(&self) -> (r: bool)
        ensures
            r == (self.room_data.unreadMessages > 0),
    {
        self.room_data.unreadMessages > 0
    }

    /// The conversation is a direct one.
    pub fn is_dm(&self) -> (r: bool)
        ensures
            r == self.room_type.spec_is_dm(),
    {
        match self.room_type {
            NCRoomTypes::OneToOne | NCRoomTypes::NoteToSelf | NCRoomTypes::ChangeLog => true,
            NCRoomTypes::Deprecated | NCRoomTypes::Group | NCRoomTypes::Public => false,
        }
    }

    /// The conversation is a group conversation.
    pub fn is_group(&self) -> (r: bool)
        ensures
            r == self.room_type.spec_is_group(),
    {
        match self.room_type {
            NCRoomTypes::Deprecated
            | NCRoomTypes::OneToOne
            | NCRoomTypes::NoteToSelf
            | NCRoomTypes::ChangeLog => false,
            NCRoomTypes::Group | NCRoomTypes::Public => true,
        }
    }

    /// The kind of conversation.
    pub fn get_room_type(&self) -> (r: &NCRoomTypes)
        ensures
            *r == self.room_type,
    {
        &self.room_type
    }

    /// The messages held, oldest first.
    pub fn get_messages(&self) -> (r: &Vec<NCMessage>)
        ensures
            r == &self.messages,
    {
        &self.messages
    }

    /// The number of unread messages (the API's count converted as Rust's
    /// `as usize` does).
    pub fn get_unread(&self) -> (r: usize)
        ensures
            r == self.room_data.unreadMessages as usize,
    {
        self.room_data.unreadMessages as usize
    }

    /// The name shown for the conversation.
    pub fn get_display_name(&self) -> (r: &str)
        ensures
            r@ == self.room_data.displayName@,
    {
        self.room_data.displayName.as_str()
    }

    /// The identifier of the last message the user has read.
    pub fn get_last_read(&self) -> (r: i32)
        ensures
            r == self.room_data.lastReadMessage,
    {
        self.room_data.lastReadMessage
    }

    /// The participants of the conversation.
    pub fn get_users(&self) -> (r: &Vec<NCReqDataParticipants>)
        ensures
            r == &self.participants,
    {
        &self.participants
    }

    /// A copy of the conversation's API data.
    pub fn to_data(&self) -> (r: NCReqDataRoom)
        ensures
            r.equiv(self.room_data),
    {
        self.room_data.clone()
    }

    /// The conversation's token.
    pub fn to_token(&self) -> (r: Token)
        ensures
            r@ == self.room_data.token@,
    {
        self.room_data.token.clone()
    }

    /// Takes newer API data for the conversation, if any is given.
    pub fn set_room_data(&mut self, data_option: Option<NCReqDataRoom>)
        ensures
            final(self).room_data == (match data_option {
                Some(data) => data,
                None => old(self).room_data,
            }),
            final(self).messages == old(self).messages,
            final(self).participants == old(self).participants,
            final(self).room_type == old(self).room_type,
    {
        if let Some(data) = data_option {
            self.room_data = data;
        }
    }

    /// The identifier of the newest message held, from which an update asks
    /// for newer messages.
    pub fn last_message_id(&self) -> (r: i32)
        requires
            self.messages@.len() > 0,
        ensures
            r == self.messages@.last().0.id,
    {
        self.messages[self.messages.len() - 1].get_id()
    }

    /// Adds the messages an update fetched and takes the participants it
    /// fetched. When the conversation has unread messages and the update
    /// brought new ones, returns the conversation's name and the number of
    /// new messages, to be announced.
    pub fn apply_update(
        &mut self,
        response: Vec<NCReqDataMessage>,
        participants: Vec<NCReqDataParticipants>,
    ) -> (r: Option<(String, usize)>)
        ensures
            final(self).messages@ == old(self).messages@ + messages_of(response@),
            final(self).participants == participants,
            final(self).room_data == old(self).room_data,
            final(self).room_type == old(self).room_type,
            r is Some <==> (old(self).room_data.unreadMessages > 0 && response@.len() > 0),
            r matches Some(note) ==> note.0@ == old(self).room_data.displayName@ && note.1
                == response@.len(),
    {
        let count = response.len();
        let note = if self.has_unread() && count != 0 {
            Some((self.room_data.displayName.clone(), count))
        } else {
            None
        };
        let mut new_messages = NCRoom::fetch_messages(response);
        self.messages.append(&mut new_messages);
        self.participants = participants;
        note
    }

    /// What a last message identifier reported by the server means for this
    /// conversation, compared with the newest message held that counts.
    pub fn check_message_id(&self, message_id: i32) -> (r: MessageIdCheck)
        ensures
            r == (match last_room_level_id(self.messages@) {
                None => MessageIdCheck::NothingHeld,
                Some(last) => if message_id > last {
                    MessageIdCheck::Newer
                } else if message_id < last {
                    MessageIdCheck::Older
                } else {
                    MessageIdCheck::Same
                },
            }),
    {
        match self.get_last_room_level_message_id() {
            None => MessageIdCheck::NothingHeld,
            Some(last) => if message_id > last {
                MessageIdCheck::Newer
            } else if message_id < last {
                MessageIdCheck::Older
            } else {
                MessageIdCheck::Same
            },
        }
    }

    /// The identifier up to which marking the conversation as read reaches:
    /// the newest message held, or `None` when none is held.
    pub fn mark_as_read(&self) -> (r: Option<i32>)
        ensures
            self.messages@.len() == 0 ==> r is None,
            self.messages@.len() > 0 ==> r == Some(self.messages@.last().0.id),
    {
        if self.messages.len() == 0 {
            None
        } else {
            Some(self.last_message_id())
        }
    }

    /// Orders conversations by their names.
    pub fn compare_by_name(&self, other: &NCRoom) -> (r: i8)
        ensures
            r as int == lex_order(self.room_data.displayName@, other.room_data.displayName@),
    {
        compare_text(self.room_data.displayName.as_str(), other.room_data.displayName.as_str())
    }

    /// Two conversations are equal when their names are.
    pub fn eq(&self, other: &NCRoom) -> (r: bool)
        ensures
            r == (self.room_data.displayName@ == other.room_data.displayName@),
    {
        self.room_data.displayName == other.room_data.displayName
    }
}

/// A conversation is never both a direct and a group conversation, and a
/// deprecated one is neither.
pub proof fn lemma_dm_group_exclusive(t: NCRoomTypes)
    ensures
        !(t.spec_is_dm() && t.spec_is_group()),
        t == NCRoomTypes::Deprecated <==> (!t.spec_is_dm() && !t.spec_is_group()),
{
}

} // verus!
