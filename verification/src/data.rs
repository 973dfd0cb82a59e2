//! The data records of the Nextcloud Talk API as this library holds them.
//!
//! Maps of the API (message parameters, reactions) are held as lists of
//! entries; the JSON layer turns them into and out of these lists.
use vstd::prelude::*;

use crate::text::text_eq;

verus! {

/// The identifier of a conversation.
pub type Token = String;


/// A placeholder of a rich message: its kind, identifier and display name.
#[derive(Debug, Default)]
pub struct NCReqDataMessageParameter {
    pub param_type: String,
    pub id: String,
    pub name: String,
}

impl Clone for NCReqDataMessageParameter {
    fn clone(&self) -> (r: Self)
        ensures
            r == *self,
    {
        NCReqDataMessageParameter {
            param_type: self.param_type.clone(),
            id: self.id.clone(),
            name: self.name.clone(),
        }
    }
}

/// One entry of a message's parameter map: the placeholder key and its value.
#[derive(Debug, Default)]
pub struct MessageParameter {
    pub key: String,
    pub value: NCReqDataMessageParameter,
}

impl Clone for MessageParameter {
    fn clone(&self) -> (r: Self)
        ensures
            r == *self,
    {
        MessageParameter { key: self.key.clone(), value: self.value.clone() }
    }
}

/// One entry of a message's reaction map: the reaction and how often it was given.
#[derive(Debug, Default)]
pub struct Reaction {
    pub icon: String,
    pub count: i32,
}

impl Clone for Reaction {
    fn clone(&self) -> (r: Self)
        ensures
            r == *self,
    {
        Reaction { icon: self.icon.clone(), count: self.count }
    }
}

/// No two reactions of a list share an icon, as in the API's reaction map.
pub open spec fn icons_unique(rs: Seq<Reaction>) -> bool {
    forall|i: int, j: int|
        0 <= i < j < rs.len() ==> (#[trigger] rs[i]).icon@ != (#[trigger] rs[j]).icon@
}

/// No two parameters of a list share a key, as in the API's parameter map.
pub open spec fn keys_unique(ps: Seq<MessageParameter>) -> bool {
    forall|i: int, j: int|
        0 <= i < j < ps.len() ==> (#[trigger] ps[i]).key@ != (#[trigger] ps[j]).key@
}

fn reaction_icons_unique(rs: &Vec<Reaction>) -> (r: bool)
    ensures
        r == icons_unique(rs@),
{
    let n = rs.len();
    let mut i: usize = 0;
    while i < n
        invariant
            n == rs@.len(),
            i <= n,
            forall|a: int, b: int|
                0 <= a < i && a < b < n ==> (#[trigger] rs@[a]).icon@ != (#[trigger] rs@[b]).icon@,
        decreases n - i,
    {
        let mut j: usize = i + 1;
        while j < n
            invariant
                n == rs@.len(),
                i < n,
                i < j <= n,
                forall|a: int, b: int|
                    0 <= a < i && a < b < n ==> (#[trigger] rs@[a]).icon@ != (
                    #[trigger] rs@[b]).icon@,
                forall|b: int| i < b < j ==> rs@[i as int].icon@ != (#[trigger] rs@[b]).icon@,
            decreases n - j,
        {
            if text_eq(rs[i].icon.as_str(), rs[j].icon.as_str()) {
                return false;
            }
            j = j + 1;
        }
        i = i + 1;
    }
    true
}

fn parameter_keys_unique(ps: &Vec<MessageParameter>) -> (r: bool)
    ensures
        r == keys_unique(ps@),
{
    let n = ps.len();
    let mut i: usize = 0;
    while i < n
        invariant
            n == ps@.len(),
            i <= n,
            forall|a: int, b: int|
                0 <= a < i && a < b < n ==> (#[trigger] ps@[a]).key@ != (#[trigger] ps@[b]).key@,
        decreases n - i,
    {
        let mut j: usize = i + 1;
        while j < n
            invariant
                n == ps@.len(),
                i < n,
                i < j <= n,
                forall|a: int, b: int|
                    0 <= a < i && a < b < n ==> (#[trigger] ps@[a]).key@ != (
                    #[trigger] ps@[b]).key@,
                forall|b: int| i < b < j ==> ps@[i as int].key@ != (#[trigger] ps@[b]).key@,
            decreases n - j,
        {
            if text_eq(ps[i].key.as_str(), ps[j].key.as_str()) {
                return false;
            }
            j = j + 1;
        }
        i = i + 1;
    }
    true
}

fn clone_parameters(v: &Vec<MessageParameter>) -> (r: Vec<MessageParameter>)
    ensures
        r@ == v@,
{
    let r = v.clone();
    assert(r@ =~= v@);
    r
}

fn clone_reactions(v: &Vec<Reaction>) -> (r: Vec<Reaction>)
    ensures
        r@ == v@,
{
    let r = v.clone();
    assert(r@ =~= v@);
    r
}

fn clone_strings(v: &Vec<String>) -> (r: Vec<String>)
    ensures
        r@ == v@,
{
    let r = v.clone();
    assert(r@ =~= v@);
    r
}


/// The kinds of system message the Talk API is known to send.
#[derive(Debug, Clone, Copy, PartialEq, Eq, Structural)]
pub enum NCReqDataMessageSystemMessage {
    Nomessage,
    MessageEdited,
    MessageDeleted,
    Reaction,
    ReactionRevoked,
    ReactionDeleted,
    HistoryCleared,
    PollVoted,
    PollClosed,
    CallStarted,
    CallEnded,
    CallEndedEveryone,
    CallMissed,
    CallJoined,
    CallLeft,
    UserRemoved,
    UserAdded,
    AvatarSet,
    ConversationRenamed,
    ConversationCreated,
    ReadOnly,
    ListableNone,
    GroupAdded,
    ModeratorPromoted,
    MatterbridgeConfigEnabled,
    MatterbridgeConfigDisabled,
    MatterbridgeConfigEdited,
    IAmTheSystem,
}

impl NCReqDataMessageSystemMessage {
    /// The name the Nextcloud API uses for this value.
    pub open spec fn api_name(self) -> Seq<char> {
        match self {
            NCReqDataMessageSystemMessage::Nomessage => ""@,
            NCReqDataMessageSystemMessage::MessageEdited => "message_edited"@,
            NCReqDataMessageSystemMessage::MessageDeleted => "message_deleted"@,
            NCReqDataMessageSystemMessage::Reaction => "reaction"@,
            NCReqDataMessageSystemMessage::ReactionRevoked => "reaction_revoked"@,
            NCReqDataMessageSystemMessage::ReactionDeleted => "reaction_deleted"@,
            NCReqDataMessageSystemMessage::HistoryCleared => "history_cleared"@,
            NCReqDataMessageSystemMessage::PollVoted => "poll_voted"@,
            NCReqDataMessageSystemMessage::PollClosed => "poll_closed"@,
            NCReqDataMessageSystemMessage::CallStarted => "call_started"@,
            NCReqDataMessageSystemMessage::CallEnded => "call_ended"@,
            NCReqDataMessageSystemMessage::CallEndedEveryone => "call_ended_everyone"@,
            NCReqDataMessageSystemMessage::CallMissed => "call_missed"@,
            NCReqDataMessageSystemMessage::CallJoined => "call_joined"@,
            NCReqDataMessageSystemMessage::CallLeft => "call_left"@,
            NCReqDataMessageSystemMessage::UserRemoved => "user_removed"@,
            NCReqDataMessageSystemMessage::UserAdded => "user_added"@,
            NCReqDataMessageSystemMessage::AvatarSet => "avatar_set"@,
            NCReqDataMessageSystemMessage::ConversationRenamed => "conversation_renamed"@,
            NCReqDataMessageSystemMessage::ConversationCreated => "conversation_created"@,
            NCReqDataMessageSystemMessage::ReadOnly => "read_only"@,
            NCReqDataMessageSystemMessage::ListableNone => "listable_none"@,
            NCReqDataMessageSystemMessage::GroupAdded => "group_added"@,
            NCReqDataMessageSystemMessage::ModeratorPromoted => "moderator_promoted"@,
            NCReqDataMessageSystemMessage::MatterbridgeConfigEnabled => "matterbridge_config_enabled"@,
            NCReqDataMessageSystemMessage::MatterbridgeConfigDisabled => "matterbridge_config_disabled"@,
            NCReqDataMessageSystemMessage::MatterbridgeConfigEdited => "matterbridge_config_edited"@,
            NCReqDataMessageSystemMessage::IAmTheSystem => "i_am_the_system"@,
        }
    }

    /// The value that the API names `s`, if any.
    pub open spec fn from_api_name(s: Seq<char>) -> Option<NCReqDataMessageSystemMessage> {
        if s == ""@ {
            Some(NCReqDataMessageSystemMessage::Nomessage)
        } else if s == "message_edited"@ {
            Some(NCReqDataMessageSystemMessage::MessageEdited)
        } else if s == "message_deleted"@ {
            Some(NCReqDataMessageSystemMessage::MessageDeleted)
        } else if s == "reaction"@ {
            Some(NCReqDataMessageSystemMessage::Reaction)
        } else if s == "reaction_revoked"@ {
            Some(NCReqDataMessageSystemMessage::ReactionRevoked)
        } else if s == "reaction_deleted"@ {
            Some(NCReqDataMessageSystemMessage::ReactionDeleted)
        } else if s == "history_cleared"@ {
            Some(NCReqDataMessageSystemMessage::HistoryCleared)
        } else if s == "poll_voted"@ {
            Some(NCReqDataMessageSystemMessage::PollVoted)
        } else if s == "poll_closed"@ {
            Some(NCReqDataMessageSystemMessage::PollClosed)
        } else if s == "call_started"@ {
            Some(NCReqDataMessageSystemMessage::CallStarted)
        } else if s == "call_ended"@ {
            Some(NCReqDataMessageSystemMessage::CallEnded)
        } else if s == "call_ended_everyone"@ {
            Some(NCReqDataMessageSystemMessage::CallEndedEveryone)
        } else if s == "call_missed"@ {
            Some(NCReqDataMessageSystemMessage::CallMissed)
        } else if s == "call_joined"@ {
            Some(NCReqDataMessageSystemMessage::CallJoined)
        } else if s == "call_left"@ {
            Some(NCReqDataMessageSystemMessage::CallLeft)
        } else if s == "user_removed"@ {
            Some(NCReqDataMessageSystemMessage::UserRemoved)
        } else if s == "user_added"@ {
            Some(NCReqDataMessageSystemMessage::UserAdded)
        } else if s == "avatar_set"@ {
            Some(NCReqDataMessageSystemMessage::AvatarSet)
        } else if s == "conversation_renamed"@ {
            Some(NCReqDataMessageSystemMessage::ConversationRenamed)
        } else if s == "conversation_created"@ {
            Some(NCReqDataMessageSystemMessage::ConversationCreated)
        } else if s == "read_only"@ {
            Some(NCReqDataMessageSystemMessage::ReadOnly)
        } else if s == "listable_none"@ {
            Some(NCReqDataMessageSystemMessage::ListableNone)
        } else if s == "group_added"@ {
            Some(NCReqDataMessageSystemMessage::GroupAdded)
        } else if s == "moderator_promoted"@ {
            Some(NCReqDataMessageSystemMessage::ModeratorPromoted)
        } else if s == "matterbridge_config_enabled"@ {
            Some(NCReqDataMessageSystemMessage::MatterbridgeConfigEnabled)
        } else if s == "matterbridge_config_disabled"@ {
            Some(NCReqDataMessageSystemMessage::MatterbridgeConfigDisabled)
        } else if s == "matterbridge_config_edited"@ {
            Some(NCReqDataMessageSystemMessage::MatterbridgeConfigEdited)
        } else if s == "i_am_the_system"@ {
            Some(NCReqDataMessageSystemMessage::IAmTheSystem)
        } else {
            None
        }
    }

    /// The API name of this value.
    pub fn to_api_str(&self) -> (r: &'static str)
        ensures
            r@ == self.api_name(),
    {
        match self {
            NCReqDataMessageSystemMessage::Nomessage => "",
            NCReqDataMessageSystemMessage::MessageEdited => "message_edited",
            NCReqDataMessageSystemMessage::MessageDeleted => "message_deleted",
            NCReqDataMessageSystemMessage::Reaction => "reaction",
            NCReqDataMessageSystemMessage::ReactionRevoked => "reaction_revoked",
            NCReqDataMessageSystemMessage::ReactionDeleted => "reaction_deleted",
            NCReqDataMessageSystemMessage::HistoryCleared => "history_cleared",
            NCReqDataMessageSystemMessage::PollVoted => "poll_voted",
            NCReqDataMessageSystemMessage::PollClosed => "poll_closed",
            NCReqDataMessageSystemMessage::CallStarted => "call_started",
            NCReqDataMessageSystemMessage::CallEnded => "call_ended",
            NCReqDataMessageSystemMessage::CallEndedEveryone => "call_ended_everyone",
            NCReqDataMessageSystemMessage::CallMissed => "call_missed",
            NCReqDataMessageSystemMessage::CallJoined => "call_joined",
            NCReqDataMessageSystemMessage::CallLeft => "call_left",
            NCReqDataMessageSystemMessage::UserRemoved => "user_removed",
            NCReqDataMessageSystemMessage::UserAdded => "user_added",
            NCReqDataMessageSystemMessage::AvatarSet => "avatar_set",
            NCReqDataMessageSystemMessage::ConversationRenamed => "conversation_renamed",
            NCReqDataMessageSystemMessage::ConversationCreated => "conversation_created",
            NCReqDataMessageSystemMessage::ReadOnly => "read_only",
            NCReqDataMessageSystemMessage::ListableNone => "listable_none",
            NCReqDataMessageSystemMessage::GroupAdded => "group_added",
            NCReqDataMessageSystemMessage::ModeratorPromoted => "moderator_promoted",
            NCReqDataMessageSystemMessage::MatterbridgeConfigEnabled => "matterbridge_config_enabled",
            NCReqDataMessageSystemMessage::MatterbridgeConfigDisabled => "matterbridge_config_disabled",
            NCReqDataMessageSystemMessage::MatterbridgeConfigEdited => "matterbridge_config_edited",
            NCReqDataMessageSystemMessage::IAmTheSystem => "i_am_the_system",
        }
    }

    /// Reads an API name; a name this library does not know maps to `Nomessage`.
    pub fn from_api_str(s: &str) -> (r: NCReqDataMessageSystemMessage)
        ensures
            r == (match NCReqDataMessageSystemMessage::from_api_name(s@) {
                Some(v) => v,
                None => NCReqDataMessageSystemMessage::Nomessage,
            }),
    {
        proof {
            reveal_strlit("");
            reveal_strlit("message_edited");
            reveal_strlit("message_deleted");
            reveal_strlit("reaction");
            reveal_strlit("reaction_revoked");
            reveal_strlit("reaction_deleted");
            reveal_strlit("history_cleared");
            reveal_strlit("poll_voted");
            reveal_strlit("poll_closed");
            reveal_strlit("call_started");
            reveal_strlit("call_ended");
            reveal_strlit("call_ended_everyone");
            reveal_strlit("call_missed");
            reveal_strlit("call_joined");
            reveal_strlit("call_left");
            reveal_strlit("user_removed");
            reveal_strlit("user_added");
            reveal_strlit("avatar_set");
            reveal_strlit("conversation_renamed");
            reveal_strlit("conversation_created");
            reveal_strlit("read_only");
            reveal_strlit("listable_none");
            reveal_strlit("group_added");
            reveal_strlit("moderator_promoted");
            reveal_strlit("matterbridge_config_enabled");
            reveal_strlit("matterbridge_config_disabled");
            reveal_strlit("matterbridge_config_edited");
            reveal_strlit("i_am_the_system");
        }
        if text_eq(s, "") {
            NCReqDataMessageSystemMessage::Nomessage
        } else if text_eq(s, "message_edited") {
            NCReqDataMessageSystemMessage::MessageEdited
        } else if text_eq(s, "message_deleted") {
            NCReqDataMessageSystemMessage::MessageDeleted
        } else if text_eq(s, "reaction") {
            NCReqDataMessageSystemMessage::Reaction
        } else if text_eq(s, "reaction_revoked") {
            NCReqDataMessageSystemMessage::ReactionRevoked
        } else if text_eq(s, "reaction_deleted") {
            NCReqDataMessageSystemMessage::ReactionDeleted
        } else if text_eq(s, "history_cleared") {
            NCReqDataMessageSystemMessage::HistoryCleared
        } else if text_eq(s, "poll_voted") {
            NCReqDataMessageSystemMessage::PollVoted
        } else if text_eq(s, "poll_closed") {
            NCReqDataMessageSystemMessage::PollClosed
        } else if text_eq(s, "call_started") {
            NCReqDataMessageSystemMessage::CallStarted
        } else if text_eq(s, "call_ended") {
            NCReqDataMessageSystemMessage::CallEnded
        } else if text_eq(s, "call_ended_everyone") {
            NCReqDataMessageSystemMessage::CallEndedEveryone
        } else if text_eq(s, "call_missed") {
            NCReqDataMessageSystemMessage::CallMissed
        } else if text_eq(s, "call_joined") {
            NCReqDataMessageSystemMessage::CallJoined
        } else if text_eq(s, "call_left") {
            NCReqDataMessageSystemMessage::CallLeft
        } else if text_eq(s, "user_removed") {
            NCReqDataMessageSystemMessage::UserRemoved
        } else if text_eq(s, "user_added") {
            NCReqDataMessageSystemMessage::UserAdded
        } else if text_eq(s, "avatar_set") {
            NCReqDataMessageSystemMessage::AvatarSet
        } else if text_eq(s, "conversation_renamed") {
            NCReqDataMessageSystemMessage::ConversationRenamed
        } else if text_eq(s, "conversation_created") {
            NCReqDataMessageSystemMessage::ConversationCreated
        } else if text_eq(s, "read_only") {
            NCReqDataMessageSystemMessage::ReadOnly
        } else if text_eq(s, "listable_none") {
            NCReqDataMessageSystemMessage::ListableNone
        } else if text_eq(s, "group_added") {
            NCReqDataMessageSystemMessage::GroupAdded
        } else if text_eq(s, "moderator_promoted") {
            NCReqDataMessageSystemMessage::ModeratorPromoted
        } else if text_eq(s, "matterbridge_config_enabled") {
            NCReqDataMessageSystemMessage::MatterbridgeConfigEnabled
        } else if text_eq(s, "matterbridge_config_disabled") {
            NCReqDataMessageSystemMessage::MatterbridgeConfigDisabled
        } else if text_eq(s, "matterbridge_config_edited") {
            NCReqDataMessageSystemMessage::MatterbridgeConfigEdited
        } else if text_eq(s, "i_am_the_system") {
            NCReqDataMessageSystemMessage::IAmTheSystem
        } else {
            NCReqDataMessageSystemMessage::Nomessage
        }
    }
}

impl Default for NCReqDataMessageSystemMessage {
    fn default() -> (r: Self)
        ensures
            r == NCReqDataMessageSystemMessage::Nomessage,
    {
        NCReqDataMessageSystemMessage::Nomessage
    }
}

/// Reading back the API name of a value gives the value again.
pub proof fn lemma_system_message_api_round_trip(v: NCReqDataMessageSystemMessage)
    ensures
        NCReqDataMessageSystemMessage::from_api_name(v.api_name()) == Some(v),
{
    reveal_strlit("");
    reveal_strlit("message_edited");
    reveal_strlit("message_deleted");
    reveal_strlit("reaction");
    reveal_strlit("reaction_revoked");
    reveal_strlit("reaction_deleted");
    reveal_strlit("history_cleared");
    reveal_strlit("poll_voted");
    reveal_strlit("poll_closed");
    reveal_strlit("call_started");
    reveal_strlit("call_ended");
    reveal_strlit("call_ended_everyone");
    reveal_strlit("call_missed");
    reveal_strlit("call_joined");
    reveal_strlit("call_left");
    reveal_strlit("user_removed");
    reveal_strlit("user_added");
    reveal_strlit("avatar_set");
    reveal_strlit("conversation_renamed");
    reveal_strlit("conversation_created");
    reveal_strlit("read_only");
    reveal_strlit("listable_none");
    reveal_strlit("group_added");
    reveal_strlit("moderator_promoted");
    reveal_strlit("matterbridge_config_enabled");
    reveal_strlit("matterbridge_config_disabled");
    reveal_strlit("matterbridge_config_edited");
    reveal_strlit("i_am_the_system");
    match v {
        NCReqDataMessageSystemMessage::Nomessage => {
            assert(v.api_name() =~= ""@);
            assert(NCReqDataMessageSystemMessage::from_api_name(v.api_name()) == Some(v));
        },
        NCReqDataMessageSystemMessage::MessageEdited => {
            assert(v.api_name() =~= "message_edited"@);
            assert(NCReqDataMessageSystemMessage::from_api_name(v.api_name()) == Some(v));
        },
        NCReqDataMessageSystemMessage::MessageDeleted => {
            assert(v.api_name() =~= "message_deleted"@);
            assert(NCReqDataMessageSystemMessage::from_api_name(v.api_name()) == Some(v));
        },
        NCReqDataMessageSystemMessage::Reaction => {
            assert(v.api_name() =~= "reaction"@);
            assert(NCReqDataMessageSystemMessage::from_api_name(v.api_name()) == Some(v));
        },
        NCReqDataMessageSystemMessage::ReactionRevoked => {
            assert(v.api_name() =~= "reaction_revoked"@);
            assert(NCReqDataMessageSystemMessage::from_api_name(v.api_name()) == Some(v));
        },
        NCReqDataMessageSystemMessage::ReactionDeleted => {
            assert(v.api_name() =~= "reaction_deleted"@);
            assert("reaction_deleted"@[9] != "reaction_revoked"@[9]);
            assert(NCReqDataMessageSystemMessage::from_api_name(v.api_name()) == Some(v));
        },
        NCReqDataMessageSystemMessage::HistoryCleared => {
            assert(v.api_name() =~= "history_cleared"@);
            assert("history_cleared"@[0] != "message_deleted"@[0]);
            assert(NCReqDataMessageSystemMessage::from_api_name(v.api_name()) == Some(v));
        },
        NCReqDataMessageSystemMessage::PollVoted => {
            assert(v.api_name() =~= "poll_voted"@);
            assert(NCReqDataMessageSystemMessage::from_api_name(v.api_name()) == Some(v));
        },
        NCReqDataMessageSystemMessage::PollClosed => {
            assert(v.api_name() =~= "poll_closed"@);
            assert(NCReqDataMessageSystemMessage::from_api_name(v.api_name()) == Some(v));
        },
        NCReqDataMessageSystemMessage::CallStarted => {
            assert(v.api_name() =~= "call_started"@);
            assert(NCReqDataMessageSystemMessage::from_api_name(v.api_name()) == Some(v));
        },
        NCReqDataMessageSystemMessage::CallEnded => {
            assert(v.api_name() =~= "call_ended"@);
            assert("call_ended"@[0] != "poll_voted"@[0]);
            assert(NCReqDataMessageSystemMessage::from_api_name(v.api_name()) == Some(v));
        },
        NCReqDataMessageSystemMessage::CallEndedEveryone => {
            assert(v.api_name() =~= "call_ended_everyone"@);
            assert(NCReqDataMessageSystemMessage::from_api_name(v.api_name()) == Some(v));
        },
        NCReqDataMessageSystemMessage::CallMissed => {
            assert(v.api_name() =~= "call_missed"@);
            assert("call_missed"@[0] != "poll_closed"@[0]);
            assert(NCReqDataMessageSystemMessage::from_api_name(v.api_name()) == Some(v));
        },
        NCReqDataMessageSystemMessage::CallJoined => {
            assert(v.api_name() =~= "call_joined"@);
            assert("call_joined"@[0] != "poll_closed"@[0]);
            assert("call_joined"@[5] != "call_missed"@[5]);
            assert(NCReqDataMessageSystemMessage::from_api_name(v.api_name()) == Some(v));
        },
        NCReqDataMessageSystemMessage::CallLeft => {
            assert(v.api_name() =~= "call_left"@);
            assert(NCReqDataMessageSystemMessage::from_api_name(v.api_name()) == Some(v));
        },
        NCReqDataMessageSystemMessage::UserRemoved => {
            assert(v.api_name() =~= "user_removed"@);
            assert("user_removed"@[0] != "call_started"@[0]);
            assert(NCReqDataMessageSystemMessage::from_api_name(v.api_name()) == Some(v));
        },
        NCReqDataMessageSystemMessage::UserAdded => {
            assert(v.api_name() =~= "user_added"@);
            assert("user_added"@[0] != "poll_voted"@[0]);
            assert("user_added"@[0] != "call_ended"@[0]);
            assert(NCReqDataMessageSystemMessage::from_api_name(v.api_name()) == Some(v));
        },
        NCReqDataMessageSystemMessage::AvatarSet => {
            assert(v.api_name() =~= "avatar_set"@);
            assert("avatar_set"@[0] != "poll_voted"@[0]);
            assert("avatar_set"@[0] != "call_ended"@[0]);
            assert("avatar_set"@[0] != "user_added"@[0]);
            assert(NCReqDataMessageSystemMessage::from_api_name(v.api_name()) == Some(v));
        },
        NCReqDataMessageSystemMessage::ConversationRenamed => {
            assert(v.api_name() =~= "conversation_renamed"@);
            assert(NCReqDataMessageSystemMessage::from_api_name(v.api_name()) == Some(v));
        },
        NCReqDataMessageSystemMessage::ConversationCreated => {
            assert(v.api_name() =~= "conversation_created"@);
            assert("conversation_created"@[13] != "conversation_renamed"@[13]);
            assert(NCReqDataMessageSystemMessage::from_api_name(v.api_name()) == Some(v));
        },
        NCReqDataMessageSystemMessage::ReadOnly => {
            assert(v.api_name() =~= "read_only"@);
            assert("read_only"@[0] != "call_left"@[0]);
            assert(NCReqDataMessageSystemMessage::from_api_name(v.api_name()) == Some(v));
        },
        NCReqDataMessageSystemMessage::ListableNone => {
            assert(v.api_name() =~= "listable_none"@);
            assert(NCReqDataMessageSystemMessage::from_api_name(v.api_name()) == Some(v));
        },
        NCReqDataMessageSystemMessage::GroupAdded => {
            assert(v.api_name() =~= "group_added"@);
            assert("group_added"@[0] != "poll_closed"@[0]);
            assert("group_added"@[0] != "call_missed"@[0]);
            assert("group_added"@[0] != "call_joined"@[0]);
            assert(NCReqDataMessageSystemMessage::from_api_name(v.api_name()) == Some(v));
        },
        NCReqDataMessageSystemMessage::ModeratorPromoted => {
            assert(v.api_name() =~= "moderator_promoted"@);
            assert(NCReqDataMessageSystemMessage::from_api_name(v.api_name()) == Some(v));
        },
        NCReqDataMessageSystemMessage::MatterbridgeConfigEnabled => {
            assert(v.api_name() =~= "matterbridge_config_enabled"@);
            assert(NCReqDataMessageSystemMessage::from_api_name(v.api_name()) == Some(v));
        },
        NCReqDataMessageSystemMessage::MatterbridgeConfigDisabled => {
            assert(v.api_name() =~= "matterbridge_config_disabled"@);
            assert(NCReqDataMessageSystemMessage::from_api_name(v.api_name()) == Some(v));
        },
        NCReqDataMessageSystemMessage::MatterbridgeConfigEdited => {
            assert(v.api_name() =~= "matterbridge_config_edited"@);
            assert(NCReqDataMessageSystemMessage::from_api_name(v.api_name()) == Some(v));
        },
        NCReqDataMessageSystemMessage::IAmTheSystem => {
            assert(v.api_name() =~= "i_am_the_system"@);
            assert("i_am_the_system"@[0] != "message_deleted"@[0]);
            assert("i_am_the_system"@[0] != "history_cleared"@[0]);
            assert(NCReqDataMessageSystemMessage::from_api_name(v.api_name()) == Some(v));
        },
    }
}

/// The kinds of chat message of the Talk API.
#[derive(Debug, Clone, Copy, PartialEq, Eq, Structural)]
pub enum NCReqDataMessageType {
    Comment,
    CommentDeleted,
    System,
    Command,
    VoiceMessage,
    RecordAudio,
    RecordVideo,
}

impl NCReqDataMessageType {
    /// The name the Nextcloud API uses for this value.
    pub open spec fn api_name(self) -> Seq<char> {
        match self {
            NCReqDataMessageType::Comment => "comment"@,
            NCReqDataMessageType::CommentDeleted => "comment_deleted"@,
            NCReqDataMessageType::System => "system"@,
            NCReqDataMessageType::Command => "command"@,
            NCReqDataMessageType::VoiceMessage => "voice-message"@,
            NCReqDataMessageType::RecordAudio => "record-audio"@,
            NCReqDataMessageType::RecordVideo => "record-video"@,
        }
    }

    /// The value that the API names `s`, if any.
    pub open spec fn from_api_name(s: Seq<char>) -> Option<NCReqDataMessageType> {
        if s == "comment"@ {
            Some(NCReqDataMessageType::Comment)
        } else if s == "comment_deleted"@ {
            Some(NCReqDataMessageType::CommentDeleted)
        } else if s == "system"@ {
            Some(NCReqDataMessageType::System)
        } else if s == "command"@ {
            Some(NCReqDataMessageType::Command)
        } else if s == "voice-message"@ {
            Some(NCReqDataMessageType::VoiceMessage)
        } else if s == "record-audio"@ {
            Some(NCReqDataMessageType::RecordAudio)
        } else if s == "record-video"@ {
            Some(NCReqDataMessageType::RecordVideo)
        } else {
            None
        }
    }

    /// The API name of this value.
    pub fn to_api_str(&self) -> (r: &'static str)
        ensures
            r@ == self.api_name(),
    {
        match self {
            NCReqDataMessageType::Comment => "comment",
            NCReqDataMessageType::CommentDeleted => "comment_deleted",
            NCReqDataMessageType::System => "system",
            NCReqDataMessageType::Command => "command",
            NCReqDataMessageType::VoiceMessage => "voice-message",
            NCReqDataMessageType::RecordAudio => "record-audio",
            NCReqDataMessageType::RecordVideo => "record-video",
        }
    }

    /// Reads an API name; `None` when the name is not known.
    pub fn from_api_str(s: &str) -> (r: Option<NCReqDataMessageType>)
        ensures
            r == NCReqDataMessageType::from_api_name(s@),
    {
        proof {
            reveal_strlit("comment");
            reveal_strlit("comment_deleted");
            reveal_strlit("system");
            reveal_strlit("command");
            reveal_strlit("voice-message");
            reveal_strlit("record-audio");
            reveal_strlit("record-video");
        }
        if text_eq(s, "comment") {
            Some(NCReqDataMessageType::Comment)
        } else if text_eq(s, "comment_deleted") {
            Some(NCReqDataMessageType::CommentDeleted)
        } else if text_eq(s, "system") {
            Some(NCReqDataMessageType::System)
        } else if text_eq(s, "command") {
            Some(NCReqDataMessageType::Command)
        } else if text_eq(s, "voice-message") {
            Some(NCReqDataMessageType::VoiceMessage)
        } else if text_eq(s, "record-audio") {
            Some(NCReqDataMessageType::RecordAudio)
        } else if text_eq(s, "record-video") {
            Some(NCReqDataMessageType::RecordVideo)
        } else {
            None
        }
    }
}

impl Default for NCReqDataMessageType {
    fn default() -> (r: Self)
        ensures
            r == NCReqDataMessageType::Comment,
    {
        NCReqDataMessageType::Comment
    }
}

/// Reading back the API name of a value gives the value again.
pub proof fn lemma_message_type_api_round_trip(v: NCReqDataMessageType)
    ensures
        NCReqDataMessageType::from_api_name(v.api_name()) == Some(v),
{
    reveal_strlit("comment");
    reveal_strlit("comment_deleted");
    reveal_strlit("system");
    reveal_strlit("command");
    reveal_strlit("voice-message");
    reveal_strlit("record-audio");
    reveal_strlit("record-video");
    match v {
        NCReqDataMessageType::Comment => {
            assert(v.api_name() =~= "comment"@);
            assert(NCReqDataMessageType::from_api_name(v.api_name()) == Some(v));
        },
        NCReqDataMessageType::CommentDeleted => {
            assert(v.api_name() =~= "comment_deleted"@);
            assert(NCReqDataMessageType::from_api_name(v.api_name()) == Some(v));
        },
        NCReqDataMessageType::System => {
            assert(v.api_name() =~= "system"@);
            assert(NCReqDataMessageType::from_api_name(v.api_name()) == Some(v));
        },
        NCReqDataMessageType::Command => {
            assert(v.api_name() =~= "command"@);
            assert("command"@[4] != "comment"@[4]);
            assert(NCReqDataMessageType::from_api_name(v.api_name()) == Some(v));
        },
        NCReqDataMessageType::VoiceMessage => {
            assert(v.api_name() =~= "voice-message"@);
            assert(NCReqDataMessageType::from_api_name(v.api_name()) == Some(v));
        },
        NCReqDataMessageType::RecordAudio => {
            assert(v.api_name() =~= "record-audio"@);
            assert(NCReqDataMessageType::from_api_name(v.api_name()) == Some(v));
        },
        NCReqDataMessageType::RecordVideo => {
            assert(v.api_name() =~= "record-video"@);
            assert("record-video"@[7] != "record-audio"@[7]);
            assert(NCReqDataMessageType::from_api_name(v.api_name()) == Some(v));
        },
    }
}

/// The message a chat message replies to.
#[derive(Debug, Default)]
pub struct NCReqDataMessageParent {
    pub id: i32,
    pub token: String,
    pub actorType: String,
    pub actorId: String,
    pub actorDisplayName: String,
    pub timestamp: i32,
    pub systemMessage: NCReqDataMessageSystemMessage,
    pub messageType: NCReqDataMessageType,
    pub isReplyable: bool,
    pub referenceId: String,
    pub message: String,
    pub messageParameters: Vec<MessageParameter>,
    pub expirationTimestamp: i32,
    pub reactions: Vec<Reaction>,
    pub reactionsSelf: Vec<String>,
    pub markdown: bool,
}

impl NCReqDataMessageParent {
    /// Field-wise equality, lists compared by their contents.
    pub open spec fn equiv(self, o: Self) -> bool {
        &&& self.id == o.id
        &&& self.token == o.token
        &&& self.actorType == o.actorType
        &&& self.actorId == o.actorId
        &&& self.actorDisplayName == o.actorDisplayName
        &&& self.timestamp == o.timestamp
        &&& self.systemMessage == o.systemMessage
        &&& self.messageType == o.messageType
        &&& self.isReplyable == o.isReplyable
        &&& self.referenceId == o.referenceId
        &&& self.message == o.message
        &&& self.messageParameters@ == o.messageParameters@
        &&& self.expirationTimestamp == o.expirationTimestamp
        &&& self.reactions@ == o.reactions@
        &&& self.reactionsSelf@ == o.reactionsSelf@
        &&& self.markdown == o.markdown
    }
}

impl Clone for NCReqDataMessageParent {
    fn clone(&self) -> (r: Self)
        ensures
            r.equiv(*self),
    {
        let messageParameters = clone_parameters(&self.messageParameters);
        let reactions = clone_reactions(&self.reactions);
        let reactionsSelf = clone_strings(&self.reactionsSelf);
        NCReqDataMessageParent {
            id: self.id,
            token: self.token.clone(),
            actorType: self.actorType.clone(),
            actorId: self.actorId.clone(),
            actorDisplayName: self.actorDisplayName.clone(),
            timestamp: self.timestamp,
            systemMessage: self.systemMessage,
            messageType: self.messageType,
            isReplyable: self.isReplyable,
            referenceId: self.referenceId.clone(),
            message: self.message.clone(),
            messageParameters,
            expirationTimestamp: self.expirationTimestamp,
            reactions,
            reactionsSelf,
            markdown: self.markdown,
        }
    }
}

/// A chat message as the Talk API reports it.
#[derive(Debug, Default)]
pub struct NCReqDataMessage {
    pub id: i32,
    pub token: String,
    pub actorType: String,
    pub actorId: String,
    pub actorDisplayName: String,
    pub timestamp: i64,
    pub systemMessage: NCReqDataMessageSystemMessage,
    pub messageType: NCReqDataMessageType,
    pub isReplyable: bool,
    pub referenceId: String,
    pub message: String,
    pub messageParameters: Vec<MessageParameter>,
    pub expirationTimestamp: i32,
    pub parent: NCReqDataMessageParent,
    pub reactions: Vec<Reaction>,
    pub reactionsSelf: Vec<String>,
    pub markdown: bool,
}

impl NCReqDataMessage {
    /// The reaction and parameter lists hold each icon and each key once,
    /// as the API's maps do.
    pub open spec fn well_formed(&self) -> bool {
        icons_unique(self.reactions@) && keys_unique(self.messageParameters@)
    }

    /// Whether each reaction icon and each parameter key occurs once.
    pub fn has_unique_keys(&self) -> (r: bool)
        ensures
            r == self.well_formed(),
    {
        reaction_icons_unique(&self.reactions) && parameter_keys_unique(&self.messageParameters)
    }

    /// Field-wise equality, lists compared by their contents.
    pub open spec fn equiv(self, o: Self) -> bool {
        &&& self.id == o.id
        &&& self.token == o.token
        &&& self.actorType == o.actorType
        &&& self.actorId == o.actorId
        &&& self.actorDisplayName == o.actorDisplayName
        &&& self.timestamp == o.timestamp
        &&& self.systemMessage == o.systemMessage
        &&& self.messageType == o.messageType
        &&& self.isReplyable == o.isReplyable
        &&& self.referenceId == o.referenceId
        &&& self.message == o.message
        &&& self.messageParameters@ == o.messageParameters@
        &&& self.expirationTimestamp == o.expirationTimestamp
        &&& self.parent.equiv(o.parent)
        &&& self.reactions@ == o.reactions@
        &&& self.reactionsSelf@ == o.reactionsSelf@
        &&& self.markdown == o.markdown
    }
}

impl Clone for NCReqDataMessage {
    fn clone(&self) -> (r: Self)
        ensures
            r.equiv(*self),
    {
        let messageParameters = clone_parameters(&self.messageParameters);
        let reactions = clone_reactions(&self.reactions);
        let reactionsSelf = clone_strings(&self.reactionsSelf);
        NCReqDataMessage {
            id: self.id,
            token: self.token.clone(),
            actorType: self.actorType.clone(),
            actorId: self.actorId.clone(),
            actorDisplayName: self.actorDisplayName.clone(),
            timestamp: self.timestamp,
            systemMessage: self.systemMessage,
            messageType: self.messageType,
            isReplyable: self.isReplyable,
            referenceId: self.referenceId.clone(),
            message: self.message.clone(),
            messageParameters,
            expirationTimestamp: self.expirationTimestamp,
            parent: self.parent.clone(),
            reactions,
            reactionsSelf,
            markdown: self.markdown,
        }
    }
}

/// A conversation as the Talk API reports it.
#[derive(Debug, Default)]
pub struct NCReqDataRoom {
    pub id: i32,
    pub token: String,
    pub roomtype: i32,
    pub name: String,
    pub displayName: String,
    pub description: String,
    pub participantType: i32,
    pub attendeeId: i32,
    pub attendeePin: String,
    pub actorType: String,
    pub actorId: String,
    pub permissions: i32,
    pub attendeePermissions: i32,
    pub callPermissions: i32,
    pub defaultPermissions: i32,
    pub participantFlags: i32,
    pub readOnly: i32,
    pub listable: i32,
    pub messageExpiration: i32,
    pub lastPing: i32,
    pub sessionId: String,
    pub hasPassword: bool,
    pub hasCall: bool,
    pub callFlag: i32,
    pub canStartCall: bool,
    pub canDeleteConversation: bool,
    pub canLeaveConversation: bool,
    pub lastActivity: i32,
    pub isFavorite: bool,
    pub notificationLevel: i32,
    pub lobbyState: i32,
    pub lobbyTimer: i32,
    pub sipEnabled: i32,
    pub canEnableSIP: bool,
    pub unreadMessages: i32,
    pub unreadMention: bool,
    pub unreadMentionDirect: bool,
    pub lastReadMessage: i32,
    pub lastCommonReadMessage: i32,
    pub lastMessage: NCReqDataMessage,
    pub objectType: String,
    pub objectId: String,
    pub breakoutRoomMode: i32,
    pub breakoutRoomStatus: i32,
    pub avatarVersion: String,
    pub isCustomAvatar: bool,
    pub callStartTime: i32,
    pub callRecording: i32,
    pub recordingConsent: i32,
}

impl NCReqDataRoom {
    /// Field-wise equality, lists compared by their contents.
    pub open spec fn equiv(self, o: Self) -> bool {
        &&& self.id == o.id
        &&& self.token == o.token
        &&& self.roomtype == o.roomtype
        &&& self.name == o.name
        &&& self.displayName == o.displayName
        &&& self.description == o.description
        &&& self.participantType == o.participantType
        &&& self.attendeeId == o.attendeeId
        &&& self.attendeePin == o.attendeePin
        &&& self.actorType == o.actorType
        &&& self.actorId == o.actorId
        &&& self.permissions == o.permissions
        &&& self.attendeePermissions == o.attendeePermissions
        &&& self.callPermissions == o.callPermissions
        &&& self.defaultPermissions == o.defaultPermissions
        &&& self.participantFlags == o.participantFlags
        &&& self.readOnly == o.readOnly
        &&& self.listable == o.listable
        &&& self.messageExpiration == o.messageExpiration
        &&& self.lastPing == o.lastPing
        &&& self.sessionId == o.sessionId
        &&& self.hasPassword == o.hasPassword
        &&& self.hasCall == o.hasCall
        &&& self.callFlag == o.callFlag
        &&& self.canStartCall == o.canStartCall
        &&& self.canDeleteConversation == o.canDeleteConversation
        &&& self.canLeaveConversation == o.canLeaveConversation
        &&& self.lastActivity == o.lastActivity
        &&& self.isFavorite == o.isFavorite
        &&& self.notificationLevel == o.notificationLevel
        &&& self.lobbyState == o.lobbyState
        &&& self.lobbyTimer == o.lobbyTimer
        &&& self.sipEnabled == o.sipEnabled
        &&& self.canEnableSIP == o.canEnableSIP
        &&& self.unreadMessages == o.unreadMessages
        &&& self.unreadMention == o.unreadMention
        &&& self.unreadMentionDirect == o.unreadMentionDirect
        &&& self.lastReadMessage == o.lastReadMessage
        &&& self.lastCommonReadMessage == o.lastCommonReadMessage
        &&& self.lastMessage.equiv(o.lastMessage)
        &&& self.objectType == o.objectType
        &&& self.objectId == o.objectId
        &&& self.breakoutRoomMode == o.breakoutRoomMode
        &&& self.breakoutRoomStatus == o.breakoutRoomStatus
        &&& self.avatarVersion == o.avatarVersion
        &&& self.isCustomAvatar == o.isCustomAvatar
        &&& self.callStartTime == o.callStartTime
        &&& self.callRecording == o.callRecording
        &&& self.recordingConsent == o.recordingConsent
    }
}

impl Clone for NCReqDataRoom {
    fn clone(&self) -> (r: Self)
        ensures
            r.equiv(*self),
    {
        NCReqDataRoom {
            id: self.id,
            token: self.token.clone(),
            roomtype: self.roomtype,
            name: self.name.clone(),
            displayName: self.displayName.clone(),
            description: self.description.clone(),
            participantType: self.participantType,
            attendeeId: self.attendeeId,
            attendeePin: self.attendeePin.clone(),
            actorType: self.actorType.clone(),
            actorId: self.actorId.clone(),
            permissions: self.permissions,
            attendeePermissions: self.attendeePermissions,
            callPermissions: self.callPermissions,
            defaultPermissions: self.defaultPermissions,
            participantFlags: self.participantFlags,
            readOnly: self.readOnly,
            listable: self.listable,
            messageExpiration: self.messageExpiration,
            lastPing: self.lastPing,
            sessionId: self.sessionId.clone(),
            hasPassword: self.hasPassword,
            hasCall: self.hasCall,
            callFlag: self.callFlag,
            canStartCall: self.canStartCall,
            canDeleteConversation: self.canDeleteConversation,
            canLeaveConversation: self.canLeaveConversation,
            lastActivity: self.lastActivity,
            isFavorite: self.isFavorite,
            notificationLevel: self.notificationLevel,
            lobbyState: self.lobbyState,
            lobbyTimer: self.lobbyTimer,
            sipEnabled: self.sipEnabled,
            canEnableSIP: self.canEnableSIP,
            unreadMessages: self.unreadMessages,
            unreadMention: self.unreadMention,
            unreadMentionDirect: self.unreadMentionDirect,
            lastReadMessage: self.lastReadMessage,
            lastCommonReadMessage: self.lastCommonReadMessage,
            lastMessage: self.lastMessage.clone(),
            objectType: self.objectType.clone(),
            objectId: self.objectId.clone(),
            breakoutRoomMode: self.breakoutRoomMode,
            breakoutRoomStatus: self.breakoutRoomStatus,
            avatarVersion: self.avatarVersion.clone(),
            isCustomAvatar: self.isCustomAvatar,
            callStartTime: self.callStartTime,
            callRecording: self.callRecording,
            recordingConsent: self.recordingConsent,
        }
    }
}

/// A participant of a conversation.
#[derive(Debug, Default)]
pub struct NCReqDataParticipants {
    pub attendeeId: i32,
    pub actorType: String,
    pub actorId: String,
    pub displayName: String,
    pub participantType: i32,
    pub lastPing: i32,
    pub inCall: i32,
    pub permissions: i32,
    pub attendeePermissions: i32,
    pub sessionIds: Vec<String>,
    pub status: Option<String>,
    pub statusIcon: Option<String>,
    pub statusMessage: Option<String>,
    pub statusClearAt: Option<i32>,
    pub roomToken: Option<String>,
    pub phoneNumber: Option<String>,
}

impl NCReqDataParticipants {
    /// Field-wise equality, lists compared by their contents.
    pub open spec fn equiv(self, o: Self) -> bool {
        &&& self.attendeeId == o.attendeeId
        &&& self.actorType == o.actorType
        &&& self.actorId == o.actorId
        &&& self.displayName == o.displayName
        &&& self.participantType == o.participantType
        &&& self.lastPing == o.lastPing
        &&& self.inCall == o.inCall
        &&& self.permissions == o.permissions
        &&& self.attendeePermissions == o.attendeePermissions
        &&& self.sessionIds@ == o.sessionIds@
        &&& self.status == o.status
        &&& self.statusIcon == o.statusIcon
        &&& self.statusMessage == o.statusMessage
        &&& self.statusClearAt == o.statusClearAt
        &&& self.roomToken == o.roomToken
        &&& self.phoneNumber == o.phoneNumber
    }
}

impl Clone for NCReqDataParticipants {
    fn clone(&self) -> (r: Self)
        ensures
            r.equiv(*self),
    {
        let sessionIds = clone_strings(&self.sessionIds);
        NCReqDataParticipants {
            attendeeId: self.attendeeId,
            actorType: self.actorType.clone(),
            actorId: self.actorId.clone(),
            displayName: self.displayName.clone(),
            participantType: self.participantType,
            lastPing: self.lastPing,
            inCall: self.inCall,
            permissions: self.permissions,
            attendeePermissions: self.attendeePermissions,
            sessionIds,
            status: self.status.clone(),
            statusIcon: self.statusIcon.clone(),
            statusMessage: self.statusMessage.clone(),
            statusClearAt: self.statusClearAt,
            roomToken: self.roomToken.clone(),
            phoneNumber: self.phoneNumber.clone(),
        }
    }
}

/// The status a user has set.
#[derive(Debug, Default)]
pub struct NCReqDataUserStatus {
    pub status: String,
    pub message: Option<String>,
    pub icon: Option<String>,
    pub clearAt: Option<i32>,
}

/// A user found by the autocompletion endpoint.
#[derive(Debug, Default)]
pub struct NCReqDataUser {
    pub id: String,
    pub label: String,
    pub icon: String,
    pub source: String,
    pub status: NCReqDataUserStatus,
    pub subline: String,
    pub shareWithDisplayNameUnique: String,
}

/// The metadata part of an OCS response.
#[derive(Debug, Default)]
pub struct NCReqMeta {
    pub status: String,
    pub statuscode: i32,
    pub message: String,
}

/// The inside of an OCS response: metadata and the data asked for.
#[derive(Debug, Default)]
pub struct NCReqOCS<T> {
    pub meta: NCReqMeta,
    pub data: T,
}

/// The envelope of every OCS response.
#[derive(Debug, Default)]
pub struct NCReqOCSWrapper<T> {
    pub ocs: NCReqOCS<T>,
}

impl<T> NCReqOCSWrapper<T> {
    /// The data an OCS response carries.
    pub fn into_data(self) -> (r: T)
        ensures
            r == self.ocs.data,
    {
        self.ocs.data
    }
}

/// Each kind of system message and the Talk API's name for it, in both
/// directions: the note the server writes for an edited message is
/// "message_edited", for a deleted one "message_deleted", a reaction
/// "reaction", and so on for every kind; a message without a kind has the
/// empty name.
pub proof fn law_system_message_api_names()
    ensures
        NCReqDataMessageSystemMessage::Nomessage.api_name() == ""@,
        NCReqDataMessageSystemMessage::from_api_name(""@) == Some(NCReqDataMessageSystemMessage::Nomessage),
        NCReqDataMessageSystemMessage::MessageEdited.api_name() == "message_edited"@,
        NCReqDataMessageSystemMessage::from_api_name("message_edited"@) == Some(NCReqDataMessageSystemMessage::MessageEdited),
        NCReqDataMessageSystemMessage::MessageDeleted.api_name() == "message_deleted"@,
        NCReqDataMessageSystemMessage::from_api_name("message_deleted"@) == Some(NCReqDataMessageSystemMessage::MessageDeleted),
        NCReqDataMessageSystemMessage::Reaction.api_name() == "reaction"@,
        NCReqDataMessageSystemMessage::from_api_name("reaction"@) == Some(NCReqDataMessageSystemMessage::Reaction),
        NCReqDataMessageSystemMessage::ReactionRevoked.api_name() == "reaction_revoked"@,
        NCReqDataMessageSystemMessage::from_api_name("reaction_revoked"@) == Some(NCReqDataMessageSystemMessage::ReactionRevoked),
        NCReqDataMessageSystemMessage::ReactionDeleted.api_name() == "reaction_deleted"@,
        NCReqDataMessageSystemMessage::from_api_name("reaction_deleted"@) == Some(NCReqDataMessageSystemMessage::ReactionDeleted),
        NCReqDataMessageSystemMessage::HistoryCleared.api_name() == "history_cleared"@,
        NCReqDataMessageSystemMessage::from_api_name("history_cleared"@) == Some(NCReqDataMessageSystemMessage::HistoryCleared),
        NCReqDataMessageSystemMessage::PollVoted.api_name() == "poll_voted"@,
        NCReqDataMessageSystemMessage::from_api_name("poll_voted"@) == Some(NCReqDataMessageSystemMessage::PollVoted),
        NCReqDataMessageSystemMessage::PollClosed.api_name() == "poll_closed"@,
        NCReqDataMessageSystemMessage::from_api_name("poll_closed"@) == Some(NCReqDataMessageSystemMessage::PollClosed),
        NCReqDataMessageSystemMessage::CallStarted.api_name() == "call_started"@,
        NCReqDataMessageSystemMessage::from_api_name("call_started"@) == Some(NCReqDataMessageSystemMessage::CallStarted),
        NCReqDataMessageSystemMessage::CallEnded.api_name() == "call_ended"@,
        NCReqDataMessageSystemMessage::from_api_name("call_ended"@) == Some(NCReqDataMessageSystemMessage::CallEnded),
        NCReqDataMessageSystemMessage::CallEndedEveryone.api_name() == "call_ended_everyone"@,
        NCReqDataMessageSystemMessage::from_api_name("call_ended_everyone"@) == Some(NCReqDataMessageSystemMessage::CallEndedEveryone),
        NCReqDataMessageSystemMessage::CallMissed.api_name() == "call_missed"@,
        NCReqDataMessageSystemMessage::from_api_name("call_missed"@) == Some(NCReqDataMessageSystemMessage::CallMissed),
        NCReqDataMessageSystemMessage::CallJoined.api_name() == "call_joined"@,
        NCReqDataMessageSystemMessage::from_api_name("call_joined"@) == Some(NCReqDataMessageSystemMessage::CallJoined),
        NCReqDataMessageSystemMessage::CallLeft.api_name() == "call_left"@,
        NCReqDataMessageSystemMessage::from_api_name("call_left"@) == Some(NCReqDataMessageSystemMessage::CallLeft),
        NCReqDataMessageSystemMessage::UserRemoved.api_name() == "user_removed"@,
        NCReqDataMessageSystemMessage::from_api_name("user_removed"@) == Some(NCReqDataMessageSystemMessage::UserRemoved),
        NCReqDataMessageSystemMessage::UserAdded.api_name() == "user_added"@,
        NCReqDataMessageSystemMessage::from_api_name("user_added"@) == Some(NCReqDataMessageSystemMessage::UserAdded),
        NCReqDataMessageSystemMessage::AvatarSet.api_name() == "avatar_set"@,
        NCReqDataMessageSystemMessage::from_api_name("avatar_set"@) == Some(NCReqDataMessageSystemMessage::AvatarSet),
        NCReqDataMessageSystemMessage::ConversationRenamed.api_name() == "conversation_renamed"@,
        NCReqDataMessageSystemMessage::from_api_name("conversation_renamed"@) == Some(NCReqDataMessageSystemMessage::ConversationRenamed),
        NCReqDataMessageSystemMessage::ConversationCreated.api_name() == "conversation_created"@,
        NCReqDataMessageSystemMessage::from_api_name("conversation_created"@) == Some(NCReqDataMessageSystemMessage::ConversationCreated),
        NCReqDataMessageSystemMessage::ReadOnly.api_name() == "read_only"@,
        NCReqDataMessageSystemMessage::from_api_name("read_only"@) == Some(NCReqDataMessageSystemMessage::ReadOnly),
        NCReqDataMessageSystemMessage::ListableNone.api_name() == "listable_none"@,
        NCReqDataMessageSystemMessage::from_api_name("listable_none"@) == Some(NCReqDataMessageSystemMessage::ListableNone),
        NCReqDataMessageSystemMessage::GroupAdded.api_name() == "group_added"@,
        NCReqDataMessageSystemMessage::from_api_name("group_added"@) == Some(NCReqDataMessageSystemMessage::GroupAdded),
        NCReqDataMessageSystemMessage::ModeratorPromoted.api_name() == "moderator_promoted"@,
        NCReqDataMessageSystemMessage::from_api_name("moderator_promoted"@) == Some(NCReqDataMessageSystemMessage::ModeratorPromoted),
        NCReqDataMessageSystemMessage::MatterbridgeConfigEnabled.api_name() == "matterbridge_config_enabled"@,
        NCReqDataMessageSystemMessage::from_api_name("matterbridge_config_enabled"@) == Some(NCReqDataMessageSystemMessage::MatterbridgeConfigEnabled),
        NCReqDataMessageSystemMessage::MatterbridgeConfigDisabled.api_name() == "matterbridge_config_disabled"@,
        NCReqDataMessageSystemMessage::from_api_name("matterbridge_config_disabled"@) == Some(NCReqDataMessageSystemMessage::MatterbridgeConfigDisabled),
        NCReqDataMessageSystemMessage::MatterbridgeConfigEdited.api_name() == "matterbridge_config_edited"@,
        NCReqDataMessageSystemMessage::from_api_name("matterbridge_config_edited"@) == Some(NCReqDataMessageSystemMessage::MatterbridgeConfigEdited),
        NCReqDataMessageSystemMessage::IAmTheSystem.api_name() == "i_am_the_system"@,
        NCReqDataMessageSystemMessage::from_api_name("i_am_the_system"@) == Some(NCReqDataMessageSystemMessage::IAmTheSystem),
{
    lemma_system_message_api_round_trip(NCReqDataMessageSystemMessage::Nomessage);
    lemma_system_message_api_round_trip(NCReqDataMessageSystemMessage::MessageEdited);
    lemma_system_message_api_round_trip(NCReqDataMessageSystemMessage::MessageDeleted);
    lemma_system_message_api_round_trip(NCReqDataMessageSystemMessage::Reaction);
    lemma_system_message_api_round_trip(NCReqDataMessageSystemMessage::ReactionRevoked);
    lemma_system_message_api_round_trip(NCReqDataMessageSystemMessage::ReactionDeleted);
    lemma_system_message_api_round_trip(NCReqDataMessageSystemMessage::HistoryCleared);
    lemma_system_message_api_round_trip(NCReqDataMessageSystemMessage::PollVoted);
    lemma_system_message_api_round_trip(NCReqDataMessageSystemMessage::PollClosed);
    lemma_system_message_api_round_trip(NCReqDataMessageSystemMessage::CallStarted);
    lemma_system_message_api_round_trip(NCReqDataMessageSystemMessage::CallEnded);
    lemma_system_message_api_round_trip(NCReqDataMessageSystemMessage::CallEndedEveryone);
    lemma_system_message_api_round_trip(NCReqDataMessageSystemMessage::CallMissed);
    lemma_system_message_api_round_trip(NCReqDataMessageSystemMessage::CallJoined);
    lemma_system_message_api_round_trip(NCReqDataMessageSystemMessage::CallLeft);
    lemma_system_message_api_round_trip(NCReqDataMessageSystemMessage::UserRemoved);
    lemma_system_message_api_round_trip(NCReqDataMessageSystemMessage::UserAdded);
    lemma_system_message_api_round_trip(NCReqDataMessageSystemMessage::AvatarSet);
    lemma_system_message_api_round_trip(NCReqDataMessageSystemMessage::ConversationRenamed);
    lemma_system_message_api_round_trip(NCReqDataMessageSystemMessage::ConversationCreated);
    lemma_system_message_api_round_trip(NCReqDataMessageSystemMessage::ReadOnly);
    lemma_system_message_api_round_trip(NCReqDataMessageSystemMessage::ListableNone);
    lemma_system_message_api_round_trip(NCReqDataMessageSystemMessage::GroupAdded);
    lemma_system_message_api_round_trip(NCReqDataMessageSystemMessage::ModeratorPromoted);
    lemma_system_message_api_round_trip(NCReqDataMessageSystemMessage::MatterbridgeConfigEnabled);
    lemma_system_message_api_round_trip(NCReqDataMessageSystemMessage::MatterbridgeConfigDisabled);
    lemma_system_message_api_round_trip(NCReqDataMessageSystemMessage::MatterbridgeConfigEdited);
    lemma_system_message_api_round_trip(NCReqDataMessageSystemMessage::IAmTheSystem);
}

/// Each kind of chat message and the Talk API's name for it, in both
/// directions: "comment", "comment_deleted", "system", "command",
/// "voice-message", "record-audio" and "record-video".
pub proof fn law_message_type_api_names()
    ensures
        NCReqDataMessageType::Comment.api_name() == "comment"@,
        NCReqDataMessageType::from_api_name("comment"@) == Some(NCReqDataMessageType::Comment),
        NCReqDataMessageType::CommentDeleted.api_name() == "comment_deleted"@,
        NCReqDataMessageType::from_api_name("comment_deleted"@) == Some(NCReqDataMessageType::CommentDeleted),
        NCReqDataMessageType::System.api_name() == "system"@,
        NCReqDataMessageType::from_api_name("system"@) == Some(NCReqDataMessageType::System),
        NCReqDataMessageType::Command.api_name() == "command"@,
        NCReqDataMessageType::from_api_name("command"@) == Some(NCReqDataMessageType::Command),
        NCReqDataMessageType::VoiceMessage.api_name() == "voice-message"@,
        NCReqDataMessageType::from_api_name("voice-message"@) == Some(NCReqDataMessageType::VoiceMessage),
        NCReqDataMessageType::RecordAudio.api_name() == "record-audio"@,
        NCReqDataMessageType::from_api_name("record-audio"@) == Some(NCReqDataMessageType::RecordAudio),
        NCReqDataMessageType::RecordVideo.api_name() == "record-video"@,
        NCReqDataMessageType::from_api_name("record-video"@) == Some(NCReqDataMessageType::RecordVideo),
{
    lemma_message_type_api_round_trip(NCReqDataMessageType::Comment);
    lemma_message_type_api_round_trip(NCReqDataMessageType::CommentDeleted);
    lemma_message_type_api_round_trip(NCReqDataMessageType::System);
    lemma_message_type_api_round_trip(NCReqDataMessageType::Command);
    lemma_message_type_api_round_trip(NCReqDataMessageType::VoiceMessage);
    lemma_message_type_api_round_trip(NCReqDataMessageType::RecordAudio);
    lemma_message_type_api_round_trip(NCReqDataMessageType::RecordVideo);
}

} // verus!
