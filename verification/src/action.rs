//! What the bot does in answer to an update.

use crate::decimal::{decimal, decimal_string};
use vstd::prelude::*;
use vstd::string::*;

verus! {

/// A reply of the bot.
#[derive(Debug, Clone, Copy, PartialEq, Eq)]
pub enum Reply {
    /// The token was addressed to the bot and names none of its commands.
    UnknownCommand,
    /// A count was asked for without a reply to a message with a poll.
    MissingPoll,
    /// The command has no effect yet.
    NotImplemented,
    /// The service did not give the number of members of the chat.
    CountFailed,
    /// So many of the members of the chat have voted.
    Tally { voters: u32, members: u32 },
}

/// Why an update gets no answer.
#[derive(Debug, Clone, Copy, PartialEq, Eq, Structural)]
pub enum Skipped {
    /// The update is no new message.
    NotAMessage,
    /// The message has no text or no entities.
    NoEntitiesOrText,
    /// No entity of the message marks a bot command.
    NoCommand,
    /// The entity does not mark a part of the text.
    BadEntity,
    /// The command is not meant for this bot.
    NotForMe,
    /// The marked text is no command token.
    Malformed,
}

/// What to do in answer to an update.
#[derive(Debug, Clone, Copy, PartialEq, Eq)]
pub enum Action {
    /// Send nothing.
    Skip(Skipped),
    /// Send `reply` to the chat, as a reply to the message `reply_to`.
    Reply { chat_id: i64, reply_to: i32, reply: Reply },
    /// Ask the service how many members the chat has, then send the reply
    /// that [`count_reply`] gives for its answer, to the chat and as a reply
    /// to the message `reply_to`.
    CountMembers { chat_id: i64, reply_to: i32, voters: u32 },
}

/// The text of a reply.
pub open spec fn reply_text(reply: Reply) -> Seq<char> {
    match reply {
        Reply::UnknownCommand => "Unknown command"@,
        Reply::MissingPoll => "Please reply to a message with a poll"@,
        Reply::NotImplemented => "Not implemented yet"@,
        Reply::CountFailed => "Error while getting chat members count"@,
        Reply::Tally { voters, members } => decimal(voters as nat) + " out of "@ + decimal(
            members as nat,
        ),
    }
}

/// The reply to a count of `voters`, given the number of members of the
/// chat, or `None` where the service failed to give it.
pub open spec fn counted(voters: u32, members: Option<u32>) -> Reply {
    match members {
        Some(members) => Reply::Tally { voters, members },
        None => Reply::CountFailed,
    }
}

impl Reply {
    /// The text to send.
    pub fn text(&self) -> (text: String)
        ensures
            text@ == reply_text(*self),
    {
        match self {
            Reply::UnknownCommand => "Unknown command".to_owned(),
            Reply::MissingPoll => "Please reply to a message with a poll".to_owned(),
            Reply::NotImplemented => "Not implemented yet".to_owned(),
            Reply::CountFailed => "Error while getting chat members count".to_owned(),
            Reply::Tally { voters, members } => {
                let mut text = decimal_string(*voters);
                text.append(" out of ");
                let members_text = decimal_string(*members);
                text.append(members_text.as_str());
                text
            },
        }
    }
}

/// The reply to a count of `voters`, once the service has answered the
/// question for the number of members of the chat.
pub fn count_reply(voters: u32, members: Option<u32>) -> (reply: Reply)
    ensures
        reply == counted(voters, members),
{
    match members {
        Some(members) => Reply::Tally { voters, members },
        None => Reply::CountFailed,
    }
}

} // verus!
