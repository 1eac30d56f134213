//! The values that pass between the platform, the library and the bot.

use vstd::prelude::*;
use crate::devices::DeviceMap;
use crate::errors::{BerylliumError, BerylliumResult};
use crate::members::{Member, MemberSet};
use crate::recipients::Recipients;
use crate::text::same_text;

verus! {

/// What the bot's own code is told about.
#[derive(Clone, Debug, PartialEq, Eq)]
pub enum Event {
    ConversationMemberJoin { members_joined: Vec<u128> },
    ConversationMemberLeave { members_left: Vec<u128> },
    ConversationRename,
    Message { text: String, from: String },
    Image,
}

/// An `Event` as a mathematical value.
pub enum EventView {
    ConversationMemberJoin { members_joined: Seq<u128> },
    ConversationMemberLeave { members_left: Seq<u128> },
    ConversationRename,
    Message { text: Seq<char>, from: Seq<char> },
    Image,
}

impl View for Event {
    type V = EventView;

    open spec fn view(&self) -> EventView {
        match self {
            Event::ConversationMemberJoin { members_joined } => EventView::ConversationMemberJoin {
                members_joined: members_joined@,
            },
            Event::ConversationMemberLeave { members_left } => EventView::ConversationMemberLeave {
                members_left: members_left@,
            },
            Event::ConversationRename => EventView::ConversationRename,
            Event::Message { text, from } => EventView::Message { text: text@, from: from@ },
            Event::Image => EventView::Image,
        }
    }
}

/// A conversation: its id, its name and its members.
#[derive(Debug, PartialEq, Eq)]
pub struct Conversation {
    pub id: u128,
    pub name: String,
    pub members: MemberSet,
}

/// A `Conversation` as a mathematical value.
pub struct ConversationView {
    pub id: u128,
    pub name: Seq<char>,
    pub members: Seq<Member>,
}

impl View for Conversation {
    type V = ConversationView;

    open spec fn view(&self) -> ConversationView {
        ConversationView { id: self.id, name: self.name@, members: self.members@ }
    }
}

impl Clone for Conversation {
    fn clone(&self) -> (r: Self)
        ensures
            r@ == self@,
    {
        Conversation { id: self.id, name: self.name.clone(), members: self.members.clone() }
    }
}

/// An event together with the bot it is for and the conversation as it is
/// once the event has been applied.
#[derive(Clone, Debug, PartialEq, Eq)]
pub struct EventData {
    pub bot_id: u128,
    pub conversation: Conversation,
    pub event: Event,
}

/// An `EventData` as a mathematical value.
pub struct EventDataView {
    pub bot_id: u128,
    pub conversation: ConversationView,
    pub event: EventView,
}

impl View for EventData {
    type V = EventDataView;

    open spec fn view(&self) -> EventDataView {
        EventDataView { bot_id: self.bot_id, conversation: self.conversation@, event: self.event@ }
    }
}

/// The user who created the bot.
#[derive(Clone, Debug, PartialEq, Eq)]
pub struct Origin {
    pub id: u128,
    pub name: String,
    pub handle: String,
    pub accent_id: i8,
}

/// What the platform sends when it creates a bot.
#[derive(Clone, Debug, PartialEq, Eq)]
pub struct BotCreationData {
    pub id: u128,
    pub client: String,
    pub origin: Origin,
    pub conversation: Conversation,
    pub token: String,
    pub locale: String,
}

/// The devices that the bot knows of, user by user.
#[derive(Clone, Debug, PartialEq, Eq)]
pub struct Devices {
    pub missing: DeviceMap,
}

impl Default for Devices {
    fn default() -> (r: Self)
        ensures
            r.missing@.len() == 0,
    {
        Devices { missing: DeviceMap::new() }
    }
}

/// The kinds of conversation event.
#[derive(Clone, Copy, Debug, PartialEq, Eq, Structural)]
pub enum ConversationEventType {
    MessageAdd,
    MemberJoin,
    MemberLeave,
    Rename,
}

/// The kind of event that the platform means by `name`.
pub open spec fn event_type_named(name: Seq<char>) -> Option<ConversationEventType> {
    if name == "conversation.otr-message-add"@ {
        Some(ConversationEventType::MessageAdd)
    } else if name == "conversation.member-join"@ {
        Some(ConversationEventType::MemberJoin)
    } else if name == "conversation.member-leave"@ {
        Some(ConversationEventType::MemberLeave)
    } else if name == "conversation.rename"@ {
        Some(ConversationEventType::Rename)
    } else {
        None
    }
}

/// Reads the kind of a conversation event from its name on the wire. Any
/// other name is an error of the JSON document that held it.
pub fn deserialize_conv_event_type(name: &str) -> (r: BerylliumResult<ConversationEventType>)
    ensures
        match event_type_named(name@) {
            Some(t) => r == Ok::<ConversationEventType, BerylliumError>(t),
            None => r matches Err(BerylliumError::Serde(m)) && m@
                == "Unexpected value for ConversationEventType"@,
        },
{
    if same_text(name, "conversation.otr-message-add") {
        Ok(ConversationEventType::MessageAdd)
    } else if same_text(name, "conversation.member-join") {
        Ok(ConversationEventType::MemberJoin)
    } else if same_text(name, "conversation.member-leave") {
        Ok(ConversationEventType::MemberLeave)
    } else if same_text(name, "conversation.rename") {
        Ok(ConversationEventType::Rename)
    } else {
        Err(BerylliumError::Serde("Unexpected value for ConversationEventType".to_owned()))
    }
}

impl ConversationEventType {
    /// The name of the kind on the wire.
    pub fn name(&self) -> (r: &'static str)
        ensures
            event_type_named(r@) == Some(*self),
    {
        proof {
            reveal_strlit("conversation.otr-message-add");
            reveal_strlit("conversation.member-join");
            reveal_strlit("conversation.member-leave");
            reveal_strlit("conversation.rename");
            assert("conversation.otr-message-add"@.len() == 28);
            assert("conversation.member-join"@.len() == 24);
            assert("conversation.member-leave"@.len() == 25);
            assert("conversation.rename"@.len() == 19);
        }
        match self {
            ConversationEventType::MessageAdd => "conversation.otr-message-add",
            ConversationEventType::MemberJoin => "conversation.member-join",
            ConversationEventType::MemberLeave => "conversation.member-leave",
            ConversationEventType::Rename => "conversation.rename",
        }
    }
}

/// What an event carries, by its shape.
#[derive(Clone, Debug, PartialEq, Eq)]
pub enum ConversationData {
    MessageAdd { sender: String, recipient: String, text: String },
    LeavingOrJoiningMembers { user_ids: Vec<u128> },
    Rename { name: String },
}

/// A conversation event as the platform sends it.
#[derive(Clone, Debug, PartialEq, Eq)]
pub struct MessageData {
    pub type_: ConversationEventType,
    pub conversation: String,
    pub from: String,
    pub data: ConversationData,
    pub time: String,
}

/// A prekey, serialised and written in base64, with its id.
#[derive(Clone, Debug, PartialEq, Eq)]
pub struct EncodedPreKey {
    pub id: u16,
    pub key: String,
}

impl DeepView for EncodedPreKey {
    type V = (u16, Seq<char>);

    open spec fn deep_view(&self) -> (u16, Seq<char>) {
        (self.id, self.key@)
    }
}

/// The prekey that the platform holds for one device of one user.
#[derive(Clone, Debug, PartialEq, Eq)]
pub struct DevicePreKey {
    pub user: String,
    pub client: String,
    pub prekey: EncodedPreKey,
}

impl DeepView for DevicePreKey {
    type V = (Seq<char>, Seq<char>, (u16, Seq<char>));

    open spec fn deep_view(&self) -> (Seq<char>, Seq<char>, (u16, Seq<char>)) {
        (self.user@, self.client@, self.prekey.deep_view())
    }
}

/// The prekeys that the platform returned, device by device.
pub type DevicePreKeys = Vec<DevicePreKey>;

/// The answer to the creation of a bot.
#[derive(Clone, Debug, PartialEq, Eq)]
pub struct BotCreationResponse {
    pub prekeys: Vec<EncodedPreKey>,
    pub last_prekey: EncodedPreKey,
}

/// An encrypted message on its way to the platform.
#[derive(Clone, Debug, PartialEq, Eq)]
pub struct MessageRequest {
    pub sender: String,
    pub recipients: Recipients,
}

/// The metadata that goes with an asset.
#[derive(Clone, Debug, PartialEq, Eq)]
pub struct AssetUploadRequest {
    pub public: bool,
    pub retention: String,
}

/// Where the platform keeps an asset.
#[derive(Clone, Debug, PartialEq, Eq)]
pub struct AssetData {
    pub key: String,
    pub token: String,
}

/// How the platform took a message.
#[derive(Clone, Debug, PartialEq, Eq)]
pub enum MessageStatus {
    Sent,
    Failed(Devices),
}

/// An encrypted asset: the key, the initialisation vector followed by the
/// ciphertext, and the SHA-256 digest of the ciphertext.
#[derive(Clone, Debug, PartialEq, Eq)]
pub struct EncryptData {
    pub key: Vec<u8>,
    pub data: Vec<u8>,
    pub hash: Vec<u8>,
}

} // verus!
