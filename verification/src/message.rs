//! The updates that the messaging service delivers, as far as the bot reads them.

use vstd::prelude::*;

verus! {

/// What an entity marks in the text of a message.
#[derive(Debug, Clone, Copy, PartialEq, Eq, Structural)]
pub enum EntityKind {
    /// A command for a bot.
    BotCommand,
    /// Anything else: a mention, a link, a style.
    Other,
}

/// A marked part of the text of a message.  Offset and length count bytes.
#[derive(Debug, Clone, Copy, PartialEq, Eq)]
pub struct MessageEntity {
    pub kind: EntityKind,
    pub offset: u16,
    pub length: u16,
}

/// A poll attached to a message.
#[derive(Debug, Clone, Copy, PartialEq, Eq)]
pub struct Poll {
    pub total_voter_count: u32,
}

/// The message that another message replies to.
#[derive(Debug, Clone, Copy, PartialEq, Eq)]
pub struct RepliedMessage {
    pub poll: Option<Poll>,
}

/// A message in a chat.
#[derive(Debug, Clone, PartialEq, Eq)]
pub struct Message {
    pub message_id: i32,
    pub chat_id: i64,
    pub text: Option<String>,
    pub entities: Option<Vec<MessageEntity>>,
    pub reply_to_message: Option<RepliedMessage>,
}

/// What an update carries.
#[derive(Debug, Clone, PartialEq, Eq)]
pub enum UpdateContent {
    /// A new message.
    Message(Message),
    /// An update of another kind, which the bot passes over.
    Other,
}

/// One update from the service.
#[derive(Debug, Clone, PartialEq, Eq)]
pub struct Update {
    pub update_id: u32,
    pub content: UpdateContent,
}

impl Message {
    /// The poll of the message that this one replies to.
    pub open spec fn replied_poll(self) -> Option<Poll> {
        match self.reply_to_message {
            Some(replied) => replied.poll,
            None => None,
        }
    }
}

} // verus!
