//! The messages that a bot exchanges with the other members of a
//! conversation, as far as the library looks into them. How a message is
//! laid out in bytes is the business of the codec around the library.

use vstd::prelude::*;

verus! {

/// What a confirmation says of the message it names.
#[derive(Clone, Copy, Debug, PartialEq, Eq, Structural)]
pub enum ConfirmationType {
    Delivered,
    Read,
}

/// What a message carries.
#[derive(Clone, Debug, PartialEq, Eq)]
pub enum Content {
    /// A text.
    Text(String),
    /// The confirmation of an earlier message, named by its id.
    Confirmation { message_id: String, kind: ConfirmationType },
    /// Anything else: an image, a location and so on.
    Other,
}

/// A message with its id.
#[derive(Clone, Debug, PartialEq, Eq)]
pub struct GenericMessage {
    pub message_id: String,
    pub content: Content,
}

impl GenericMessage {
    /// A text message with the given id.
    pub fn text(message_id: String, text: &str) -> (r: GenericMessage)
        ensures
            r.message_id@ == message_id@,
            r.content matches Content::Text(t) && t@ == text@,
    {
        GenericMessage { message_id, content: Content::Text(text.to_owned()) }
    }

    /// The message, with the given id of its own, that tells the sender of
    /// `received` that the message was delivered.
    pub fn confirmation(message_id: String, received: &str) -> (r: GenericMessage)
        ensures
            r.message_id@ == message_id@,
            r.content matches Content::Confirmation { message_id: m, kind } && m@ == received@
                && kind == ConfirmationType::Delivered,
    {
        GenericMessage {
            message_id,
            content: Content::Confirmation {
                message_id: received.to_owned(),
                kind: ConfirmationType::Delivered,
            },
        }
    }

    /// The text of the message, if it is a text message.
    pub fn text_content(&self) -> (r: Option<&str>)
        ensures
            match self.content {
                Content::Text(t) => r matches Some(s) && s@ == t@,
                _ => r.is_none(),
            },
    {
        match &self.content {
            Content::Text(t) => Some(t.as_str()),
            _ => None,
        }
    }
}

} // verus!
