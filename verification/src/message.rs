//! A chat message and what the user interface reads of it.
use vstd::prelude::*;

use crate::data::{
    MessageParameter, NCReqDataMessage, NCReqDataMessageSystemMessage, NCReqDataMessageType,
    Reaction,
};
use crate::text::{join, join_strings, push_signed_decimal, signed_decimal, texts};
use crate::time_format::{
    earliest_date_rendering, is_literal_pattern, local_date_with_pattern, local_hour_minute,
    timestamp_in_range,
};

verus! {

/// A Nextcloud chat message.
#[derive(Debug, Default)]
pub struct NCMessage(pub NCReqDataMessage);

impl Clone for NCMessage {
    fn clone(&self) -> (r: Self)
        ensures
            r.0.equiv(self.0),
    {
        NCMessage(self.0.clone())
    }
}

impl From<NCReqDataMessage> for NCMessage {
    fn from(data: NCReqDataMessage) -> (r: Self)
        ensures
            r.0 == data,
    {
        NCMessage(data)
    }
}

impl vstd::std_specs::convert::FromSpecImpl<NCReqDataMessage> for NCMessage {
    open spec fn obeys_from_spec() -> bool {
        true
    }

    open spec fn from_spec(v: NCReqDataMessage) -> Self {
        NCMessage(v)
    }
}

/// The text shown for one reaction: `('<icon>' times <count>)`.
pub open spec fn reaction_text(r: Reaction) -> Seq<char> {
    "('"@ + r.icon@ + "' times "@ + signed_decimal(r.count as int) + ")"@
}

/// The texts of all reactions, in order.
pub open spec fn reaction_texts(reactions: Seq<Reaction>) -> Seq<Seq<char>> {
    reactions.map_values(|r: Reaction| reaction_text(r))
}

impl NCMessage {
    /// The message is a comment.
    pub open spec fn spec_is_comment(&self) -> bool {
        self.0.messageType == NCReqDataMessageType::Comment
    }

    /// The message is a deleted comment.
    pub open spec fn spec_is_comment_deleted(&self) -> bool {
        self.0.messageType == NCReqDataMessageType::CommentDeleted
    }

    /// The message is a system message.
    pub open spec fn spec_is_system(&self) -> bool {
        self.0.messageType == NCReqDataMessageType::System
    }

    /// The message is a command.
    pub open spec fn spec_is_command(&self) -> bool {
        self.0.messageType == NCReqDataMessageType::Command
    }

    /// The message is the note the server writes when a message was edited.
    pub open spec fn spec_is_edit_note(&self) -> bool {
        self.spec_is_system() && self.0.systemMessage
            == NCReqDataMessageSystemMessage::MessageEdited
    }

    /// The message records that a message or a reaction was taken back.
    pub open spec fn spec_is_revoked(&self) -> bool {
        self.spec_is_system() && (self.0.systemMessage
            == NCReqDataMessageSystemMessage::MessageDeleted || self.0.systemMessage
            == NCReqDataMessageSystemMessage::ReactionRevoked || self.0.systemMessage
            == NCReqDataMessageSystemMessage::ReactionDeleted)
    }

    /// The message is a reaction to another message.
    pub open spec fn spec_is_reaction(&self) -> bool {
        self.spec_is_system() && self.0.systemMessage == NCReqDataMessageSystemMessage::Reaction
    }

    /// The name shown as the author of the message.
    pub open spec fn spec_name(&self) -> Seq<char> {
        if !self.spec_is_comment() || self.spec_is_system() || self.spec_is_comment_deleted()
            || self.spec_is_command() {
            "System"@
        } else {
            self.0.actorDisplayName@
        }
    }

    /// The message's time stamp rendered as `HH:MM` in local time.
    pub fn get_time_str(&self) -> (r: String)
        requires
            timestamp_in_range(self.0.timestamp),
        ensures
            r@.len() == 5,
            r@[2] == ':',
    {
        local_hour_minute(self.0.timestamp)
    }

    /// The message's date rendered in local time with the `strftime`
    /// pattern `date_format`; `None` exactly when that pattern cannot be
    /// rendered. A pattern without `%` is rendered as itself.
    pub fn get_date_str(&self, date_format: &str) -> (r: Option<String>)
        requires
            timestamp_in_range(self.0.timestamp),
        ensures
            (r is Some) == (earliest_date_rendering(date_format@) is Some),
            is_literal_pattern(date_format@) ==> (r matches Some(t) && t@ == date_format@),
    {
        local_date_with_pattern(self.0.timestamp, date_format)
    }

    /// The name of the author, or "System" for anything but a comment.
    pub fn get_name(&self) -> (r: &str)
        ensures
            r@ == self.spec_name(),
    {
        proof {
            reveal_strlit("System");
        }
        if !self.is_comment() || self.is_system() || self.is_comment_deleted() || self.is_command() {
            "System"
        } else {
            self.0.actorDisplayName.as_str()
        }
    }

    /// The text of the message.
    pub fn get_message(&self) -> (r: &str)
        ensures
            r@ == self.0.message@,
    {
        self.0.message.as_str()
    }

    /// The rich-text parameters of the message, or `None` when it has none.
    pub fn get_message_params(&self) -> (r: Option<&Vec<MessageParameter>>)
        ensures
            self.0.messageParameters@.len() == 0 ==> r is None,
            self.0.messageParameters@.len() > 0 ==> r == Some(&self.0.messageParameters),
    {
        if self.0.messageParameters.len() == 0 {
            None
        } else {
            Some(&self.0.messageParameters)
        }
    }

    /// All reactions as a comma separated list, each as
    /// `('<icon>' times <count>)`.
    pub fn get_reactions_str(&self) -> (r: String)
        ensures
            r@ == join(reaction_texts(self.0.reactions@), ", "@),
    {
        let reactions = &self.0.reactions;
        let mut items: Vec<String> = Vec::new();
        let n = reactions.len();
        let mut i: usize = 0;
        while i < n
            invariant
                n == reactions@.len(),
                i <= n,
                items@.len() == i,
                forall|k: int| 0 <= k < i ==> #[trigger] items@[k]@ == reaction_text(reactions@[k]),
            decreases n - i,
        {
            let reaction = &reactions[i];
            let mut item = String::new();
            proof {
                reveal_strlit("('");
                reveal_strlit("' times ");
                reveal_strlit(")");
            }
            item.append("('");
            item.append(reaction.icon.as_str());
            item.append("' times ");
            push_signed_decimal(&mut item, reaction.count as i64);
            item.append(")");
            assert(item@ =~= reaction_text(reactions@[i as int]));
            items.push(item);
            i = i + 1;
        }
        let r = join_strings(&items, ", ");
        assert(texts(items@) =~= reaction_texts(self.0.reactions@));
        r
    }

    /// The identifier of the message.
    pub fn get_id(&self) -> (r: i32)
        ensures
            r == self.0.id,
    {
        self.0.id
    }

    /// The message as the API reported it.
    pub fn data(&self) -> (r: &NCReqDataMessage)
        ensures
            r == &self.0,
    {
        &self.0
    }

    /// `true` if the message is a comment.
    pub fn is_comment(&self) -> (r: bool)
        ensures
            r == self.spec_is_comment(),
    {
        self.0.messageType == NCReqDataMessageType::Comment
    }

    /// `true` if the message is a deleted comment.
    pub fn is_comment_deleted(&self) -> (r: bool)
        ensures
            r == self.spec_is_comment_deleted(),
    {
        self.0.messageType == NCReqDataMessageType::CommentDeleted
    }

    /// `true` if the message is a system message.
    pub fn is_system(&self) -> (r: bool)
        ensures
            r == self.spec_is_system(),
    {
        self.0.messageType == NCReqDataMessageType::System
    }

    /// `true` if the message notes that another message was edited.
    pub fn is_edit_note(&self) -> (r: bool)
        ensures
            r == self.spec_is_edit_note(),
    {
        self.is_system() && self.0.systemMessage == NCReqDataMessageSystemMessage::MessageEdited
    }

    /// `true` if the message notes that a message or reaction was taken back.
    pub fn is_revoked(&self) -> (r: bool)
        ensures
            r == self.spec_is_revoked(),
    {
        self.is_system() && (self.0.systemMessage == NCReqDataMessageSystemMessage::MessageDeleted
            || self.0.systemMessage == NCReqDataMessageSystemMessage::ReactionRevoked
            || self.0.systemMessage == NCReqDataMessageSystemMessage::ReactionDeleted)
    }

    /// `true` if the message is a reaction.
    pub fn is_reaction(&self) -> (r: bool)
        ensures
            r == self.spec_is_reaction(),
    {
        self.is_system() && self.0.systemMessage == NCReqDataMessageSystemMessage::Reaction
    }

    /// `true` if the message is a command.
    pub fn is_command(&self) -> (r: bool)
        ensures
            r == self.spec_is_command(),
    {
        self.0.messageType == NCReqDataMessageType::Command
    }

    /// `true` if the message has any reactions.
    pub fn has_reactions(&self) -> (r: bool)
        ensures
            r == (self.0.reactions@.len() > 0),
    {
        self.0.reactions.len() != 0
    }
}

/// The author shown for a message is its author's name exactly when the
/// message is a comment; every other kind of message is shown as "System".
pub proof fn lemma_name_is_author_iff_comment(m: NCMessage)
    ensures
        m.spec_is_comment() ==> m.spec_name() == m.0.actorDisplayName@,
        !m.spec_is_comment() ==> m.spec_name() == "System"@,
{
}

/// The kinds of message are exclusive: a message is at most one of a
/// comment, a deleted comment, a system message and a command; edit notes,
/// reactions and revocations are system messages.
pub proof fn lemma_message_kinds_exclusive(m: NCMessage)
    ensures
        m.spec_is_comment() ==> !m.spec_is_comment_deleted() && !m.spec_is_system()
            && !m.spec_is_command(),
        m.spec_is_comment_deleted() ==> !m.spec_is_system() && !m.spec_is_command(),
        m.spec_is_system() ==> !m.spec_is_command(),
        m.spec_is_edit_note() || m.spec_is_reaction() || m.spec_is_revoked() ==> m.spec_is_system(),
        !(m.spec_is_edit_note() && m.spec_is_reaction()),
{
}

} // verus!
