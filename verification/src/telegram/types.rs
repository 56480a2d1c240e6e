//! The Telegram Bot API objects that the bot reads and writes.

use vstd::prelude::*;
use vstd::string::*;

verus! {

/// How an update is to be handled: the one payload it carries, or `Unknown`.
#[derive(Debug)]
pub enum UpdateType<'a> {
    Message(&'a Message),
    EditedMessage(&'a Message),
    CallbackQuery(&'a CallbackQuery),
    Unknown,
}

/// The body of a `sendMessage` call.
#[derive(Debug)]
pub struct SendMessageRequest<'a> {
    pub chat_id: i64,
    pub text: &'a str,
    pub parse_mode: Option<String>,
}

/// The envelope of every Bot API answer.
#[derive(Debug)]
pub struct TelegramResponse<T> {
    pub ok: bool,
    pub result: Option<T>,
    pub description: Option<String>,
}

#[derive(Debug, Clone)]
pub struct Update {
    pub update_id: i64,
    pub message: Option<Message>,
    pub edited_message: Option<Message>,
    pub callback_query: Option<CallbackQuery>,
}

#[derive(Debug, Clone)]
pub struct Message {
    pub message_id: i64,
    pub date: i64,
    pub chat: Chat,
    pub from: Option<User>,
    pub text: Option<String>,
    pub dice: Option<Dice>,
}

#[derive(Debug, Clone)]
pub struct Chat {
    pub id: i64,
    pub chat_type: String,
    pub title: Option<String>,
    pub username: Option<String>,
    pub first_name: Option<String>,
    pub last_name: Option<String>,
}

#[derive(Debug, Clone)]
pub struct User {
    pub id: i64,
    pub is_bot: bool,
    pub first_name: String,
    pub last_name: Option<String>,
    pub username: Option<String>,
    pub language_code: Option<String>,
}

#[derive(Debug, Clone)]
pub struct CallbackQuery {
    pub id: String,
    pub from: User,
    pub message: Option<Message>,
    pub data: Option<String>,
}

/// An animated emoji sticker and the value it landed on.
#[derive(Debug, Clone)]
pub struct Dice {
    pub emoji: String,
    pub value: i32,
}

impl Update {
    /// The update carries a new message and nothing else.
    pub open spec fn is_plain_message(&self) -> bool {
        self.message is Some && self.edited_message is None && self.callback_query is None
    }

    /// The update carries an edited message and nothing else.
    pub open spec fn is_plain_edit(&self) -> bool {
        self.message is None && self.edited_message is Some && self.callback_query is None
    }

    /// The update carries a callback query and nothing else.
    pub open spec fn is_plain_callback(&self) -> bool {
        self.message is None && self.edited_message is None && self.callback_query is Some
    }

    /// Classifies the update by the single payload it carries; an update with
    /// none or with more than one is `Unknown`.
    pub fn get_type(&self) -> (t: UpdateType<'_>)
        ensures
            match t {
                UpdateType::Message(m) => self.is_plain_message() && *m == self.message->0,
                UpdateType::EditedMessage(m) => self.is_plain_edit() && *m == self.edited_message->0,
                UpdateType::CallbackQuery(c) => self.is_plain_callback() && *c == self.callback_query->0,
                UpdateType::Unknown => !self.is_plain_message() && !self.is_plain_edit()
                    && !self.is_plain_callback(),
            },
    {
        match (&self.message, &self.edited_message, &self.callback_query) {
            (Some(msg), None, None) => UpdateType::Message(msg),
            (None, Some(msg), None) => UpdateType::EditedMessage(msg),
            (None, None, Some(callback)) => UpdateType::CallbackQuery(callback),
            _ => UpdateType::Unknown,
        }
    }
}

/// The error text of a refused call: the description Telegram gave, or
/// `Unknown error` when it gave none.
pub open spec fn failure_text(description: Option<String>) -> Seq<char> {
    match description {
        Some(d) => d@,
        None => "Unknown error"@,
    }
}

impl<T> TelegramResponse<T> {
    /// What the answer means: on `ok`, the result it carries (if any); else
    /// the error text Telegram gave.
    pub fn outcome(self) -> (r: Result<Option<T>, String>)
        ensures
            self.ok ==> r == Ok::<Option<T>, String>(self.result),
            !self.ok ==> r is Err && r->Err_0@ == failure_text(self.description),
    {
        if self.ok {
            Ok(self.result)
        } else {
            match self.description {
                Some(d) => Err(d),
                None => Err(String::from_str("Unknown error")),
            }
        }
    }
}

impl<'a> SendMessageRequest<'a> {
    /// A plain-text message for a chat, with no parse mode.
    pub fn plain(chat_id: i64, text: &'a str) -> (r: SendMessageRequest<'a>)
        ensures
            r.chat_id == chat_id,
            r.text == text,
            r.parse_mode is None,
    {
        SendMessageRequest { chat_id, text, parse_mode: None }
    }
}

} // verus!
