//! How the bot dispatches a message: commands by name, slot stickers to
//! the dice service.

use crate::telegram::types::{Dice, Message, User};
use vstd::prelude::*;
use vstd::string::*;

verus! {

/// The names under which the bot registers its commands.
pub const START_COMMAND: &'static str = "/start";
pub const BALANCE_COMMAND: &'static str = "/balance";

/// Where a message goes.
#[derive(Debug)]
pub enum MessageRoute<'a> {
    /// A command: its full text is looked up among the registered names.
    Command { text: &'a str, chat_id: i64 },
    /// A sticker from a known sender, for the dice service.
    Dice { from: &'a User, dice: &'a Dice },
    /// Nothing to do.
    Ignore,
}

/// The text is a command.
pub open spec fn is_command_text(s: Seq<char>) -> bool {
    s.len() > 0 && s[0] == '/'
}

/// The text starts with a slash.
pub fn starts_with_slash(s: &str) -> (b: bool)
    ensures
        b == is_command_text(s@),
        b == (s@.len() > 0 && s@[0] == '/'),
{
    s.unicode_len() > 0 && s.get_char(0) == '/'
}

/// A text is a command exactly when its first character is a slash,
/// whatever follows: every registered command name is one, and so is any
/// text that continues one.
pub proof fn lemma_command_texts(s: Seq<char>, rest: Seq<char>)
    ensures
        is_command_text(s) <==> (s.len() >= 1 && s[0] == '/'),
        is_command_text(seq!['/'] + rest),
        is_command_text(s) ==> is_command_text(s + rest),
        is_command_text(START_COMMAND@),
        is_command_text(BALANCE_COMMAND@),
{
    reveal_strlit("/start");
    reveal_strlit("/balance");
    assert((seq!['/'] + rest)[0] == '/');
    if is_command_text(s) {
        assert((s + rest)[0] == s[0]);
    }
}

/// Where a message goes: a text that starts with a slash is a command; else
/// a sticker with a sender goes to the dice service; else nothing.
pub fn route_message(msg: &Message) -> (r: MessageRoute<'_>)
    ensures
        msg.text is Some && is_command_text(msg.text->0@) ==> (r matches MessageRoute::Command {
            text,
            chat_id,
        } && text@ == msg.text->0@ && chat_id == msg.chat.id),
        !(msg.text is Some && is_command_text(msg.text->0@)) && msg.dice is Some && msg.from is Some
            ==> (r matches MessageRoute::Dice { from, dice } && *from == msg.from->0 && *dice
            == msg.dice->0),
        !(msg.text is Some && is_command_text(msg.text->0@)) && !(msg.dice is Some && msg.from is Some)
            ==> r is Ignore,
        msg.text is Some && msg.text->0@.len() > 0 && msg.text->0@[0] == '/' ==> (r matches MessageRoute::Command {
            text,
            chat_id,
        } && text@ == msg.text->0@ && chat_id == msg.chat.id),
{
    if let Some(text) = &msg.text {
        if starts_with_slash(text.as_str()) {
            return MessageRoute::Command { text: text.as_str(), chat_id: msg.chat.id };
        }
    }
    if let Some(dice) = &msg.dice {
        if let Some(from) = &msg.from {
            return MessageRoute::Dice { from, dice };
        }
    }
    MessageRoute::Ignore
}

} // verus!
