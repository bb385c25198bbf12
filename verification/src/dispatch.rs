//! From a message to the action that answers it.

use crate::action::{Action, Reply, Skipped};
use crate::command::{resolve, resolve_command, BotCommand, Command, CommandResolution};
use crate::message::{EntityKind, Message, MessageEntity};
use crate::text::{byte_range, substring};
use vstd::prelude::*;

verus! {

/// The first entity that marks a bot command.
pub open spec fn first_command(entities: Seq<MessageEntity>) -> Option<MessageEntity>
    decreases entities.len(),
{
    if entities.len() == 0 {
        None
    } else if entities[0].kind == EntityKind::BotCommand {
        Some(entities[0])
    } else {
        first_command(entities.drop_first())
    }
}

/// The first command entity is a command entity, no command entity comes
/// before it, and there is one whenever any entity marks a bot command.
pub proof fn lemma_first_command(entities: Seq<MessageEntity>)
    ensures
        match first_command(entities) {
            Some(entity) => exists|i: int|
                {
                    &&& 0 <= i < entities.len()
                    &&& #[trigger] entities[i] == entity
                    &&& entity.kind == EntityKind::BotCommand
                    &&& forall|j: int| 0 <= j < i ==> entities[j].kind != EntityKind::BotCommand
                },
            None => forall|j: int|
                0 <= j < entities.len() ==> entities[j].kind != EntityKind::BotCommand,
        },
    decreases entities.len(),
{
    if entities.len() > 0 && entities[0].kind != EntityKind::BotCommand {
        let rest = entities.drop_first();
        lemma_first_command(rest);
        match first_command(rest) {
            Some(entity) => {
                let i = choose|i: int|
                    {
                        &&& 0 <= i < rest.len()
                        &&& #[trigger] rest[i] == entity
                        &&& entity.kind == EntityKind::BotCommand
                        &&& forall|j: int| 0 <= j < i ==> rest[j].kind != EntityKind::BotCommand
                    };
                assert(entities[i + 1] == entity);
                assert forall|j: int| 0 <= j < i + 1 implies entities[j].kind
                    != EntityKind::BotCommand by {
                    if j > 0 {
                        assert(entities[j] == rest[j - 1]);
                    }
                }
            },
            None => {
                assert forall|j: int| 0 <= j < entities.len() implies entities[j].kind
                    != EntityKind::BotCommand by {
                    if j > 0 {
                        assert(entities[j] == rest[j - 1]);
                    }
                }
            },
        }
    } else if entities.len() > 0 {
        assert(entities[0] == entities[0]);
    }
}

/// The part of `text` that `entity` marks.
pub open spec fn marked_text(text: Seq<char>, entity: MessageEntity) -> Option<Seq<char>> {
    byte_range(text, entity.offset as int, entity.offset + entity.length)
}

/// The action for a command of this bot found in `msg`.
pub open spec fn command_action(msg: Message, command: BotCommand) -> Action {
    match command {
        BotCommand::Ping => Action::Reply {
            chat_id: msg.chat_id,
            reply_to: msg.message_id,
            reply: Reply::NotImplemented,
        },
        BotCommand::Count => match msg.replied_poll() {
            Some(poll) => Action::CountMembers {
                chat_id: msg.chat_id,
                reply_to: msg.message_id,
                voters: poll.total_voter_count,
            },
            None => Action::Reply {
                chat_id: msg.chat_id,
                reply_to: msg.message_id,
                reply: Reply::MissingPoll,
            },
        },
    }
}

/// The action for a verdict on the command token of `msg`.
pub open spec fn verdict_action(msg: Message, verdict: CommandResolution) -> Action {
    match verdict {
        CommandResolution::ForMe(Command::Defined(command)) => command_action(msg, command),
        CommandResolution::ForMe(Command::Unknown) => Action::Reply {
            chat_id: msg.chat_id,
            reply_to: msg.message_id,
            reply: Reply::UnknownCommand,
        },
        CommandResolution::NotForMe => Action::Skip(Skipped::NotForMe),
        CommandResolution::Error => Action::Skip(Skipped::Malformed),
    }
}

/// The action that answers `msg` for the bot called `bot`.
pub open spec fn message_action(msg: Message, bot: Seq<char>) -> Action {
    match (msg.entities, msg.text) {
        (Some(entities), Some(text)) => match first_command(entities@) {
            Some(entity) => match marked_text(text@, entity) {
                Some(token) => verdict_action(msg, resolve(token, bot)),
                None => Action::Skip(Skipped::BadEntity),
            },
            None => Action::Skip(Skipped::NoCommand),
        },
        _ => Action::Skip(Skipped::NoEntitiesOrText),
    }
}

/// Finds the first entity that marks a bot command.
pub fn find_command(entities: &Vec<MessageEntity>) -> (found: Option<MessageEntity>)
    ensures
        found == first_command(entities@),
{
    let mut i: usize = 0;
    proof {
        assert(entities@.skip(0) =~= entities@);
    }
    while i < entities.len()
        invariant
            i <= entities.len(),
            first_command(entities@) == first_command(entities@.skip(i as int)),
        decreases entities.len() - i,
    {
        let entity = entities[i];
        proof {
            let tail = entities@.skip(i as int);
            assert(tail[0] == entity);
            assert(tail.drop_first() =~= entities@.skip(i + 1));
        }
        match entity.kind {
            EntityKind::BotCommand => {
                return Some(entity);
            },
            EntityKind::Other => {},
        }
        i += 1;
    }
    proof {
        assert(entities@.skip(i as int).len() == 0);
    }
    None
}

/// Carries out a command of this bot found in `msg`.
pub fn handle_command(msg: &Message, cmd: BotCommand) -> (action: Action)
    ensures
        action == command_action(*msg, cmd),
{
    match cmd {
        BotCommand::Ping => Action::Reply {
            chat_id: msg.chat_id,
            reply_to: msg.message_id,
            reply: Reply::NotImplemented,
        },
        BotCommand::Count => {
            let poll = match &msg.reply_to_message {
                Some(replied) => replied.poll,
                None => None,
            };
            match poll {
                Some(poll) => Action::CountMembers {
                    chat_id: msg.chat_id,
                    reply_to: msg.message_id,
                    voters: poll.total_voter_count,
                },
                None => Action::Reply {
                    chat_id: msg.chat_id,
                    reply_to: msg.message_id,
                    reply: Reply::MissingPoll,
                },
            }
        },
    }
}

/// Decides how to answer `msg`: looks for the first bot command among its
/// entities, resolves the text that the entity marks, and acts on the verdict.
pub fn process_message(msg: &Message, bot_name: &str) -> (action: Action)
    ensures
        action == message_action(*msg, bot_name@),
{
    match (&msg.entities, &msg.text) {
        (Some(entities), Some(text)) => match find_command(entities) {
            Some(entity) => {
                let start: usize = entity.offset as usize;
                let end: usize = start + entity.length as usize;
                match substring(text.as_str(), start, end) {
                    Some(token) => match resolve_command(token, bot_name) {
                        CommandResolution::ForMe(Command::Defined(command)) => handle_command(
                            msg,
                            command,
                        ),
                        CommandResolution::ForMe(Command::Unknown) => Action::Reply {
                            chat_id: msg.chat_id,
                            reply_to: msg.message_id,
                            reply: Reply::UnknownCommand,
                        },
                        CommandResolution::NotForMe => Action::Skip(Skipped::NotForMe),
                        CommandResolution::Error => Action::Skip(Skipped::Malformed),
                    },
                    None => Action::Skip(Skipped::BadEntity),
                }
            },
            None => Action::Skip(Skipped::NoCommand),
        },
        _ => Action::Skip(Skipped::NoEntitiesOrText),
    }
}

} // verus!
