use poll_count_bot::action::{count_reply, Action, Reply, Skipped};
use poll_count_bot::command::BotCommand;
use poll_count_bot::dispatch::{find_command, handle_command, process_message};
use poll_count_bot::message::{EntityKind, Message, MessageEntity, Poll, RepliedMessage};

const BOT: &str = "poll_count_bot";

fn command_at(offset: u16, length: u16) -> MessageEntity {
    MessageEntity { kind: EntityKind::BotCommand, offset, length }
}

fn other_at(offset: u16, length: u16) -> MessageEntity {
    MessageEntity { kind: EntityKind::Other, offset, length }
}

fn message(text: &str, entities: Vec<MessageEntity>, poll: Option<Option<u32>>) -> Message {
    Message {
        message_id: 42,
        chat_id: -1001,
        text: Some(text.to_string()),
        entities: Some(entities),
        reply_to_message: poll.map(|poll| RepliedMessage {
            poll: poll.map(|total_voter_count| Poll { total_voter_count }),
        }),
    }
}

fn reply(reply: Reply) -> Action {
    Action::Reply { chat_id: -1001, reply_to: 42, reply }
}

#[test]
fn count_on_a_poll_reports_voters_out_of_members() {
    let msg = message("/count@poll_count_bot", vec![command_at(0, 21)], Some(Some(7)));
    let action = process_message(&msg, BOT);
    assert_eq!(action, Action::CountMembers { chat_id: -1001, reply_to: 42, voters: 7 });
    let answer = count_reply(7, Some(10));
    assert_eq!(answer, Reply::Tally { voters: 7, members: 10 });
    assert_eq!(answer.text(), "7 out of 10");
}

#[test]
fn count_without_a_replied_message_asks_for_a_poll() {
    let msg = message("/count@poll_count_bot", vec![command_at(0, 21)], None);
    let action = process_message(&msg, BOT);
    assert_eq!(action, reply(Reply::MissingPoll));
    assert_eq!(Reply::MissingPoll.text(), "Please reply to a message with a poll");
}

#[test]
fn count_on_a_reply_without_a_poll_asks_for_a_poll() {
    let msg = message("/count", vec![command_at(0, 6)], Some(None));
    assert_eq!(process_message(&msg, BOT), reply(Reply::MissingPoll));
}

#[test]
fn ping_is_not_implemented() {
    let msg = message("/ping", vec![command_at(0, 5)], None);
    let action = process_message(&msg, BOT);
    assert_eq!(action, reply(Reply::NotImplemented));
    assert_eq!(Reply::NotImplemented.text(), "Not implemented yet");
}

#[test]
fn ping_is_not_implemented_whatever_it_replies_to() {
    let with_poll = message("/ping", vec![command_at(0, 5)], Some(Some(3)));
    assert_eq!(process_message(&with_poll, BOT), reply(Reply::NotImplemented));
    let without_poll = message("/ping", vec![command_at(0, 5)], Some(None));
    assert_eq!(process_message(&without_poll, BOT), reply(Reply::NotImplemented));
    assert_eq!(handle_command(&with_poll, BotCommand::Ping), reply(Reply::NotImplemented));
}

#[test]
fn failed_member_count_is_reported() {
    assert_eq!(count_reply(7, None), Reply::CountFailed);
    assert_eq!(Reply::CountFailed.text(), "Error while getting chat members count");
}

#[test]
fn tally_text_holds_both_numbers() {
    assert_eq!(Reply::Tally { voters: 0, members: 0 }.text(), "0 out of 0");
    assert_eq!(Reply::Tally { voters: 12, members: 345 }.text(), "12 out of 345");
    assert_eq!(
        Reply::Tally { voters: 4294967295, members: 1000000 }.text(),
        "4294967295 out of 1000000"
    );
}

#[test]
fn unknown_command_for_me_is_answered() {
    let msg = message("/xyz@poll_count_bot", vec![command_at(0, 19)], None);
    assert_eq!(process_message(&msg, BOT), reply(Reply::UnknownCommand));
    assert_eq!(Reply::UnknownCommand.text(), "Unknown command");
}

#[test]
fn command_for_another_bot_is_skipped() {
    let msg = message("/count@other_bot", vec![command_at(0, 16)], Some(Some(7)));
    assert_eq!(process_message(&msg, BOT), Action::Skip(Skipped::NotForMe));
    let msg = message("/xyz", vec![command_at(0, 4)], None);
    assert_eq!(process_message(&msg, BOT), Action::Skip(Skipped::NotForMe));
}

#[test]
fn marked_text_without_slash_is_malformed() {
    let msg = message("say /count", vec![command_at(0, 3)], None);
    assert_eq!(process_message(&msg, BOT), Action::Skip(Skipped::Malformed));
    let msg = message("/count", vec![command_at(0, 0)], None);
    assert_eq!(process_message(&msg, BOT), Action::Skip(Skipped::Malformed));
}

#[test]
fn message_without_text_or_entities_is_skipped() {
    let mut msg = message("/count", vec![command_at(0, 6)], None);
    msg.text = None;
    assert_eq!(process_message(&msg, BOT), Action::Skip(Skipped::NoEntitiesOrText));
    let mut msg = message("/count", vec![command_at(0, 6)], None);
    msg.entities = None;
    assert_eq!(process_message(&msg, BOT), Action::Skip(Skipped::NoEntitiesOrText));
    msg.text = None;
    assert_eq!(process_message(&msg, BOT), Action::Skip(Skipped::NoEntitiesOrText));
}

#[test]
fn message_without_command_entity_is_skipped() {
    let msg = message("/count", vec![], None);
    assert_eq!(process_message(&msg, BOT), Action::Skip(Skipped::NoCommand));
    let msg = message("/count", vec![other_at(0, 6), other_at(1, 2)], None);
    assert_eq!(process_message(&msg, BOT), Action::Skip(Skipped::NoCommand));
}

#[test]
fn first_command_entity_decides() {
    let msg = message(
        "hi /ping and /count@other_bot",
        vec![other_at(0, 2), command_at(3, 5), command_at(13, 16)],
        None,
    );
    assert_eq!(process_message(&msg, BOT), reply(Reply::NotImplemented));
    let msg = message(
        "hi /count@other_bot and /ping",
        vec![other_at(0, 2), command_at(3, 16), command_at(24, 5)],
        None,
    );
    assert_eq!(process_message(&msg, BOT), Action::Skip(Skipped::NotForMe));
    assert_eq!(
        find_command(&vec![other_at(0, 2), command_at(3, 16), command_at(24, 5)]),
        Some(command_at(3, 16))
    );
    assert_eq!(find_command(&vec![other_at(0, 2)]), None);
    assert_eq!(find_command(&vec![]), None);
}

#[test]
fn entity_outside_the_text_is_skipped() {
    let msg = message("/count", vec![command_at(0, 7)], None);
    assert_eq!(process_message(&msg, BOT), Action::Skip(Skipped::BadEntity));
    let msg = message("/count", vec![command_at(7, 0)], None);
    assert_eq!(process_message(&msg, BOT), Action::Skip(Skipped::BadEntity));
    let msg = message("/count", vec![command_at(65535, 65535)], None);
    assert_eq!(process_message(&msg, BOT), Action::Skip(Skipped::BadEntity));
}

#[test]
fn entity_that_cuts_a_character_is_skipped() {
    // "é" takes two bytes.
    let msg = message("é/ping", vec![command_at(1, 6)], None);
    assert_eq!(process_message(&msg, BOT), Action::Skip(Skipped::BadEntity));
    let msg = message("é/ping", vec![command_at(2, 5)], None);
    assert_eq!(process_message(&msg, BOT), reply(Reply::NotImplemented));
}

#[test]
fn offsets_count_bytes() {
    let msg = message("да /count", vec![command_at(5, 6)], Some(Some(1)));
    assert_eq!(
        process_message(&msg, BOT),
        Action::CountMembers { chat_id: -1001, reply_to: 42, voters: 1 }
    );
}

#[test]
fn handle_command_counts_only_on_a_poll() {
    let with_poll = message("", vec![], Some(Some(250)));
    assert_eq!(
        handle_command(&with_poll, BotCommand::Count),
        Action::CountMembers { chat_id: -1001, reply_to: 42, voters: 250 }
    );
    let no_poll = message("", vec![], Some(None));
    assert_eq!(handle_command(&no_poll, BotCommand::Count), reply(Reply::MissingPoll));
    let no_reply = message("", vec![], None);
    assert_eq!(handle_command(&no_reply, BotCommand::Count), reply(Reply::MissingPoll));
}
