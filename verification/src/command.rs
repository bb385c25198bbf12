//! Command tokens and their resolution.
//!
//! A command token has the shape `/<name>` or `/<name>@<bot>`.  The name is
//! every character after the slash up to the first `@`; the bot is all that
//! follows that `@`.

use crate::text::{
    find_byte, lemma_boundary_after_ascii, lemma_decode_without, lemma_first_char,
    lemma_str_view, str_eq,
};
use vstd::prelude::*;
use vstd::string::*;
use vstd::utf8::*;

verus! {

/// A command that the bot carries out.
#[derive(Debug, Clone, Copy, PartialEq, Eq, Structural)]
pub enum BotCommand {
    Count,
    Ping,
}

/// The name in a token addressed to the bot: one of its commands, or not.
#[derive(Debug, Clone, Copy, PartialEq, Eq, Structural)]
pub enum Command {
    Defined(BotCommand),
    Unknown,
}

/// The verdict on a command token.
#[derive(Debug, Clone, Copy, PartialEq, Eq, Structural)]
pub enum CommandResolution {
    /// The token is meant for this bot.
    ForMe(Command),
    /// The token names another bot, or names no bot and no command of this one.
    NotForMe,
    /// The token does not start with a slash.
    Error,
}

/// The byte that encodes `/`.
pub const SLASH: u8 = 0x2f;

/// The byte that encodes `@`.
pub const AT_SIGN: u8 = 0x40;

/// The command with the given name, if there is one.
pub open spec fn command_named(name: Seq<char>) -> Option<BotCommand> {
    if name == "count"@ {
        Some(BotCommand::Count)
    } else if name == "ping"@ {
        Some(BotCommand::Ping)
    } else {
        None
    }
}

/// The number of characters of `s` before its first `@`, or its length where it has none.
pub open spec fn name_len(s: Seq<char>) -> nat
    decreases s.len(),
{
    if s.len() == 0 || s[0] == '@' {
        0
    } else {
        1 + name_len(s.drop_first())
    }
}

/// The name in a token that starts with a slash.
pub open spec fn token_name(token: Seq<char>) -> Seq<char> {
    let rest = token.skip(1);
    rest.take(name_len(rest) as int)
}

/// The bot that a token which starts with a slash is addressed to: what
/// follows the first `@`, if anything does.
pub open spec fn token_suffix(token: Seq<char>) -> Option<Seq<char>> {
    let rest = token.skip(1);
    let after = name_len(rest) as int + 1;
    if after < rest.len() {
        Some(rest.skip(after))
    } else {
        None
    }
}

/// The verdict on `token` for the bot called `bot`.
pub open spec fn resolve(token: Seq<char>, bot: Seq<char>) -> CommandResolution {
    if token.len() == 0 || token[0] != '/' {
        CommandResolution::Error
    } else {
        let named = command_named(token_name(token));
        match token_suffix(token) {
            None => match named {
                Some(command) => CommandResolution::ForMe(Command::Defined(command)),
                None => CommandResolution::NotForMe,
            },
            Some(suffix) => if suffix != bot {
                CommandResolution::NotForMe
            } else {
                match named {
                    Some(command) => CommandResolution::ForMe(Command::Defined(command)),
                    None => CommandResolution::ForMe(Command::Unknown),
                }
            },
        }
    }
}

/// A text made of a part without `@` and a part that is empty or starts
/// with `@` has its name end where the first part ends.
pub proof fn lemma_name_len(name: Seq<char>, tail: Seq<char>)
    requires
        forall|i: int| 0 <= i < name.len() ==> name[i] != '@',
        tail.len() == 0 || tail[0] == '@',
    ensures
        name_len(name + tail) == name.len(),
    decreases name.len(),
{
    let whole = name + tail;
    if name.len() == 0 {
        assert(whole =~= tail);
    } else {
        assert(whole[0] == name[0]);
        assert(whole.drop_first() =~= name.drop_first() + tail);
        lemma_name_len(name.drop_first(), tail);
    }
}

/// A token that does not start with a slash is malformed, whatever the bot
/// is called, and no other token is.
pub proof fn lemma_malformed_without_slash(token: Seq<char>, bot: Seq<char>)
    ensures
        resolve(token, bot) is Error <==> (token.len() == 0 || token[0] != '/'),
{
}

/// The verdict depends on the token and the name of the bot alone: two
/// resolutions of one token for one bot agree.
pub proof fn lemma_resolve_twice(
    token: Seq<char>,
    bot: Seq<char>,
    first: CommandResolution,
    second: CommandResolution,
)
    requires
        first == resolve(token, bot),
        second == resolve(token, bot),
    ensures
        first == second,
{
}

/// The token `/<name>`, and the token `/<name>@` after which nothing
/// follows, name no bot: a command of this bot is meant for it, any other
/// name is left to other bots.
pub proof fn lemma_resolve_unaddressed(name: Seq<char>, bot: Seq<char>)
    requires
        forall|i: int| 0 <= i < name.len() ==> name[i] != '@',
    ensures
        token_name(seq!['/'] + name) == name,
        token_suffix(seq!['/'] + name) is None,
        token_name(seq!['/'] + name + seq!['@']) == name,
        token_suffix(seq!['/'] + name + seq!['@']) is None,
        resolve(seq!['/'] + name, bot) == resolve(seq!['/'] + name + seq!['@'], bot),
        resolve(seq!['/'] + name, bot) == match command_named(name) {
            Some(command) => CommandResolution::ForMe(Command::Defined(command)),
            None => CommandResolution::NotForMe,
        },
{
    let bare = seq!['/'] + name;
    assert(bare.skip(1) =~= name + Seq::<char>::empty());
    lemma_name_len(name, Seq::<char>::empty());
    assert(token_name(bare) =~= name);
    let open = bare + seq!['@'];
    assert(open.skip(1) =~= name + seq!['@']);
    lemma_name_len(name, seq!['@']);
    assert(token_name(open) =~= name);
}

/// The token `/<name>@<suffix>` is meant for the bot that the suffix
/// names.  For this bot a name that is none of its commands is an unknown
/// command; for another bot the name does not matter.
pub proof fn lemma_resolve_addressed(name: Seq<char>, suffix: Seq<char>, bot: Seq<char>)
    requires
        forall|i: int| 0 <= i < name.len() ==> name[i] != '@',
        suffix.len() > 0,
    ensures
        token_name(seq!['/'] + name + seq!['@'] + suffix) == name,
        token_suffix(seq!['/'] + name + seq!['@'] + suffix) == Some(suffix),
        resolve(seq!['/'] + name + seq!['@'] + suffix, bot) == if suffix != bot {
            CommandResolution::NotForMe
        } else {
            match command_named(name) {
                Some(command) => CommandResolution::ForMe(Command::Defined(command)),
                None => CommandResolution::ForMe(Command::Unknown),
            }
        },
{
    let token = seq!['/'] + name + seq!['@'] + suffix;
    let tail = seq!['@'] + suffix;
    assert(token.skip(1) =~= name + tail);
    lemma_name_len(name, tail);
    assert(token_name(token) =~= name);
    assert(token.skip(1).skip(name.len() as int + 1) =~= suffix);
}

impl BotCommand {
    /// Looks a command up by its name.
    pub fn from_name(name: &str) -> (command: Option<BotCommand>)
        ensures
            command == command_named(name@),
    {
        if str_eq(name, "count") {
            Some(BotCommand::Count)
        } else if str_eq(name, "ping") {
            Some(BotCommand::Ping)
        } else {
            None
        }
    }
}

/// Resolves a command token against the name of this bot.
pub fn resolve_command(cmd: &str, bot_name: &str) -> (verdict: CommandResolution)
    ensures
        verdict == resolve(cmd@, bot_name@),
        verdict is Error <==> (cmd@.len() == 0 || cmd@[0] != '/'),
{
    let bytes = cmd.as_bytes();
    proof {
        lemma_str_view(cmd);
        if bytes@.len() > 0 {
            lemma_first_char(bytes@, '/');
        }
    }
    if bytes.len() == 0 || bytes[0] != SLASH {
        return CommandResolution::Error;
    }
    proof {
        lemma_boundary_after_ascii(bytes@);
    }
    let (_, rest) = cmd.split_at(1);
    let rest_bytes = rest.as_bytes();
    let at: usize = find_byte(rest_bytes, AT_SIGN);
    proof {
        lemma_str_view(rest);
        assert(rest_bytes@ =~= pop_first_scalar(bytes@));
        assert(cmd@.skip(1) =~= rest@);
        if at < rest_bytes@.len() {
            is_char_boundary_iff_is_leading_byte(rest_bytes@, at as int);
        } else {
            is_char_boundary_start_end_of_seq(rest_bytes@);
        }
        valid_utf8_split(rest_bytes@, at as int);
        decode_utf8_split(rest_bytes@, at as int);
    }
    let (name, tail) = rest.split_at(at);
    let tail_bytes = tail.as_bytes();
    proof {
        lemma_str_view(name);
        lemma_str_view(tail);
        assert(name.spec_bytes() =~= rest_bytes@.subrange(0, at as int));
        assert(tail_bytes@ =~= rest_bytes@.subrange(at as int, rest_bytes@.len() as int));
        assert(rest@ =~= name@ + tail@);
        lemma_decode_without(name.spec_bytes(), '@');
        if tail_bytes@.len() > 0 {
            lemma_first_char(tail_bytes@, '@');
            lemma_boundary_after_ascii(tail_bytes@);
        }
        lemma_name_len(name@, tail@);
        assert(token_name(cmd@) =~= name@);
    }
    let named = BotCommand::from_name(name);
    if tail_bytes.len() <= 1 {
        proof {
            if tail_bytes@.len() == 1 {
                let after = pop_first_scalar(tail_bytes@);
                assert(decode_utf8(after).len() == 0);
                assert(tail@ == seq![decode_first_scalar(tail_bytes@) as char] + decode_utf8(
                    after,
                ));
            }
            assert(tail@.len() <= 1);
            assert(token_suffix(cmd@) is None);
        }
        match named {
            Some(command) => CommandResolution::ForMe(Command::Defined(command)),
            None => CommandResolution::NotForMe,
        }
    } else {
        let (_, suffix) = tail.split_at(1);
        proof {
            lemma_str_view(suffix);
            assert(suffix.spec_bytes() =~= pop_first_scalar(tail_bytes@));
            lemma_first_char(suffix.spec_bytes(), '@');
            assert(tail@ =~= seq!['@'] + suffix@);
            assert(rest@.skip(name@.len() as int + 1) =~= suffix@);
            assert(token_suffix(cmd@) == Some(suffix@));
        }
        if !str_eq(suffix, bot_name) {
            CommandResolution::NotForMe
        } else {
            match named {
                Some(command) => CommandResolution::ForMe(Command::Defined(command)),
                None => CommandResolution::ForMe(Command::Unknown),
            }
        }
    }
}

} // verus!
