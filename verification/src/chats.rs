use vstd::prelude::*;
use vstd::string::StringExecFns;
use crate::errors::Errors;

verus! {

/// The two kinds of chat the service serves.
#[derive(Clone, Copy, Debug, PartialEq, Eq, Structural, Hash)]
pub enum ChatType {
    Conversation,
    Channel,
}

impl ChatType {
    /// The kind's name as the message endpoint's `source` parameter spells
    /// it.
    pub fn as_source(&self) -> (r: String)
        ensures
            r@ == (if self is Channel {
                "channel"@
            } else {
                "conversation"@
            }),
    {
        match self {
            ChatType::Channel => String::from_str("channel"),
            ChatType::Conversation => String::from_str("conversation"),
        }
    }
}

/// What identifies a chat: its kind and its server-side id. The key cache
/// is keyed by this pair and nothing else.
#[derive(Clone, Debug, Eq, Hash)]
pub struct ChatID {
    pub kind: ChatType,
    pub id: String,
}

impl View for ChatID {
    type V = (ChatType, Seq<char>);

    open spec fn view(&self) -> (ChatType, Seq<char>) {
        (self.kind, self.id@)
    }
}

impl PartialEq for ChatID {
    fn eq(&self, other: &ChatID) -> bool {
        self.kind == other.kind && self.id == other.id
    }
}

impl vstd::std_specs::cmp::PartialEqSpecImpl for ChatID {
    open spec fn obeys_eq_spec() -> bool {
        true
    }

    open spec fn eq_spec(&self, other: &ChatID) -> bool {
        self.kind == other.kind && self.id@ == other.id@
    }
}

impl ChatID {
    pub fn new(kind: ChatType, id: String) -> (r: ChatID)
        ensures
            r.kind == kind,
            r.id@ == id@,
    {
        ChatID { kind, id }
    }

    pub fn from_channel(channel: Channel) -> (r: ChatID)
        ensures
            r.kind == ChatType::Channel,
            r.id@ == channel.id@,
    {
        Self::new(ChatType::Channel, channel.id)
    }

    pub fn from_conversation(conversation: Conversation) -> (r: ChatID)
        ensures
            r.kind == ChatType::Conversation,
            r.id@ == conversation.id@,
    {
        Self::new(ChatType::Conversation, conversation.id)
    }

    /// A copy whose fields are known to match.
    pub fn duplicate(&self) -> (r: ChatID)
        ensures
            r@ == self@,
    {
        ChatID { kind: self.kind, id: self.id.clone() }
    }
}

/// A channel's metadata as the directory needs it: whether its content is
/// encrypted and, where it is, the member's RSA-wrapped chat key.
pub struct Channel {
    pub id: String,
    pub name: String,
    pub encrypted: bool,
    pub key: Option<String>,
}

/// A conversation's metadata, same role as `Channel`.
pub struct Conversation {
    pub id: String,
    pub name: Option<String>,
    pub encrypted: bool,
    pub key: Option<String>,
}

/// The view of an optional string field.
pub open spec fn spec_opt_str(o: Option<String>) -> Option<Seq<char>> {
    match o {
        Some(s) => Some(s@),
        None => None,
    }
}

/// The first channel with the given id.
pub open spec fn spec_find_channel(channels: Seq<Channel>, id: Seq<char>) -> Option<Channel>
    decreases channels.len(),
{
    if channels.len() == 0 {
        None
    } else if channels[0].id@ == id {
        Some(channels[0])
    } else {
        spec_find_channel(channels.drop_first(), id)
    }
}

/// The first conversation with the given id.
pub open spec fn spec_find_conversation(conversations: Seq<Conversation>, id: Seq<char>) -> Option<
    Conversation,
>
    decreases conversations.len(),
{
    if conversations.len() == 0 {
        None
    } else if conversations[0].id@ == id {
        Some(conversations[0])
    } else {
        spec_find_conversation(conversations.drop_first(), id)
    }
}

/// The session's local index of chats, filled by the network layer once and
/// read by the decryptors to resolve a chat id to its metadata.
pub struct ChatDirectory {
    pub channels: Vec<Channel>,
    pub conversations: Vec<Conversation>,
}

impl ChatDirectory {
    pub fn new(channels: Vec<Channel>, conversations: Vec<Conversation>) -> (r: ChatDirectory)
        ensures
            r.channels@ == channels@,
            r.conversations@ == conversations@,
    {
        ChatDirectory { channels, conversations }
    }

    fn find_channel(&self, id: &String) -> (r: Option<&Channel>)
        ensures
            match spec_find_channel(self.channels@, id@) {
                Some(c) => r matches Some(x) && *x == c,
                None => r is None,
            },
    {
        let mut i: usize = 0;
        proof {
            assert(self.channels@.skip(0) =~= self.channels@);
        }
        while i < self.channels.len()
            invariant
                i <= self.channels@.len(),
                spec_find_channel(self.channels@, id@) == spec_find_channel(
                    self.channels@.skip(i as int),
                    id@,
                ),
            decreases self.channels@.len() - i,
        {
            proof {
                assert(self.channels@.skip(i as int)[0] == self.channels@[i as int]);
                assert(self.channels@.skip(i as int).drop_first() =~= self.channels@.skip(i + 1));
            }
            let c = &self.channels[i];
            if c.id == *id {
                return Some(c);
            }
            i = i + 1;
        }
        proof {
            assert(self.channels@.skip(i as int) =~= Seq::<Channel>::empty());
        }
        None
    }

    fn find_conversation(&self, id: &String) -> (r: Option<&Conversation>)
        ensures
            match spec_find_conversation(self.conversations@, id@) {
                Some(c) => r matches Some(x) && *x == c,
                None => r is None,
            },
    {
        let mut i: usize = 0;
        proof {
            assert(self.conversations@.skip(0) =~= self.conversations@);
        }
        while i < self.conversations.len()
            invariant
                i <= self.conversations@.len(),
                spec_find_conversation(self.conversations@, id@) == spec_find_conversation(
                    self.conversations@.skip(i as int),
                    id@,
                ),
            decreases self.conversations@.len() - i,
        {
            proof {
                assert(self.conversations@.skip(i as int)[0] == self.conversations@[i as int]);
                assert(self.conversations@.skip(i as int).drop_first() =~= self.conversations@.skip(
                    i + 1,
                ));
            }
            let c = &self.conversations[i];
            if c.id == *id {
                return Some(c);
            }
            i = i + 1;
        }
        proof {
            assert(self.conversations@.skip(i as int) =~= Seq::<Conversation>::empty());
        }
        None
    }

    /// What the decryptors need of a chat: whether it is encrypted, and its
    /// wrapped key. An id the directory does not know is a `ValueError`.
    pub fn chat_meta(&self, chat: &ChatID) -> (r: Result<(bool, Option<String>), Errors>)
        ensures
            match (if chat.kind is Channel {
                match spec_find_channel(self.channels@, chat.id@) {
                    Some(c) => Some((c.encrypted, spec_opt_str(c.key))),
                    None => None,
                }
            } else {
                match spec_find_conversation(self.conversations@, chat.id@) {
                    Some(c) => Some((c.encrypted, spec_opt_str(c.key))),
                    None => None,
                }
            }) {
                Some(meta) => r matches Ok(m) && m.0 == meta.0 && spec_opt_str(m.1) == meta.1,
                None => r matches Err(e) && e is ValueError,
            },
    {
        match chat.kind {
            ChatType::Channel => {
                match self.find_channel(&chat.id) {
                    None => Err(Errors::ValueError(String::from_str("Invalid channel id"))),
                    Some(c) => {
                        let key = match &c.key {
                            Some(k) => Some(k.clone()),
                            None => None,
                        };
                        Ok((c.encrypted, key))
                    },
                }
            },
            ChatType::Conversation => {
                match self.find_conversation(&chat.id) {
                    None => Err(Errors::ValueError(String::from_str("Invalid conversation id"))),
                    Some(c) => {
                        let key = match &c.key {
                            Some(k) => Some(k.clone()),
                            None => None,
                        };
                        Ok((c.encrypted, key))
                    },
                }
            },
        }
    }

    /// The chat's display name; a conversation may have none.
    pub fn get_chat_name(&self, chat: &ChatID) -> (r: Result<String, Errors>)
        ensures
            match chat.kind {
                ChatType::Conversation => match spec_find_conversation(
                    self.conversations@,
                    chat.id@,
                ) {
                    None => r matches Err(e) && e is ValueError,
                    Some(c) => match c.name {
                        Some(n) => r matches Ok(s) && s@ == n@,
                        None => r matches Err(e) && e is ValueError,
                    },
                },
                ChatType::Channel => match spec_find_channel(self.channels@, chat.id@) {
                    None => r matches Err(e) && e is ValueError,
                    Some(c) => r matches Ok(s) && s@ == c.name@,
                },
            },
    {
        match chat.kind {
            ChatType::Conversation => {
                match self.find_conversation(&chat.id) {
                    None => Err(
                        Errors::ValueError(String::from_str("No conversation found with this id")),
                    ),
                    Some(c) => match &c.name {
                        Some(s) => Ok(s.clone()),
                        None => Err(Errors::ValueError(String::from_str("Conversation has no name"))),
                    },
                }
            },
            ChatType::Channel => {
                match self.find_channel(&chat.id) {
                    None => Err(Errors::ValueError(String::from_str("No channel found with this id"))),
                    Some(c) => Ok(c.name.clone()),
                }
            },
        }
    }

    /// Every channel id, in directory order.
    pub fn get_channel_ids(&self) -> (r: Vec<String>)
        ensures
            r.deep_view() == self.channels@.map_values(|c: Channel| c.id@),
    {
        let mut out: Vec<String> = Vec::new();
        let mut i: usize = 0;
        while i < self.channels.len()
            invariant
                i <= self.channels@.len(),
                out.deep_view() =~= self.channels@.take(i as int).map_values(|c: Channel| c.id@),
            decreases self.channels@.len() - i,
        {
            out.push(self.channels[i].id.clone());
            proof {
                assert(self.channels@.take(i + 1).map_values(|c: Channel| c.id@)
                    =~= self.channels@.take(i as int).map_values(|c: Channel| c.id@) + seq![
                    self.channels@[i as int].id@,
                ]);
            }
            i = i + 1;
        }
        proof {
            assert(self.channels@.take(i as int) =~= self.channels@);
        }
        out
    }

    /// Every conversation id, in directory order.
    pub fn get_conversation_ids(&self) -> (r: Vec<String>)
        ensures
            r.deep_view() == self.conversations@.map_values(|c: Conversation| c.id@),
    {
        let mut out: Vec<String> = Vec::new();
        let mut i: usize = 0;
        while i < self.conversations.len()
            invariant
                i <= self.conversations@.len(),
                out.deep_view() =~= self.conversations@.take(i as int).map_values(
                    |c: Conversation| c.id@,
                ),
            decreases self.conversations@.len() - i,
        {
            out.push(self.conversations[i].id.clone());
            proof {
                assert(self.conversations@.take(i + 1).map_values(|c: Conversation| c.id@)
                    =~= self.conversations@.take(i as int).map_values(|c: Conversation| c.id@)
                    + seq![self.conversations@[i as int].id@]);
            }
            i = i + 1;
        }
        proof {
            assert(self.conversations@.take(i as int) =~= self.conversations@);
        }
        out
    }
}

} // verus!
