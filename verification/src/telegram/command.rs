//! The replies of the bot commands.

use crate::telegram::types::Message;
use vstd::prelude::*;
use vstd::string::*;

verus! {

/// The greeting of `/start`.
pub open spec fn welcome_message() -> Seq<char> {
    "
🔥 Добро пожаловать, товарищ! 🔥

Ты зашел в слоты советского союза!

<b>Что ты тут можешь?</b>
└ Ставить талоны (🎟) на результат однорукого бандита! (🎰️️️️️️). Чтобы сыграть просто отправь смайлик 🎰️️️️️️ отдельным сообщением, чтобы запустился ролл.
└ Проверять свой баланс, выполнив команду /balance

🔥Хорошего отдыха, товрищь! 🔥   
"@
}

/// The greeting that `/start` sends.
pub fn welcome_text() -> (s: &'static str)
    ensures
        s@ == welcome_message(),
{
    "
🔥 Добро пожаловать, товарищ! 🔥

Ты зашел в слоты советского союза!

<b>Что ты тут можешь?</b>
└ Ставить талоны (🎟) на результат однорукого бандита! (🎰️️️️️️). Чтобы сыграть просто отправь смайлик 🎰️️️️️️ отдельным сообщением, чтобы запустился ролл.
└ Проверять свой баланс, выполнив команду /balance

🔥Хорошего отдыха, товрищь! 🔥   
"
}

pub open spec fn missing_user_text() -> Seq<char> {
    "User not found"@
}

pub open spec fn missing_balance_text() -> Seq<char> {
    "Ваш баланс не был найден :с"@
}

/// Whose balance `/balance` reports: the sender of the message, or the
/// error text when the message has no sender.
pub fn balance_command_user(msg: &Message) -> (r: Result<i64, String>)
    ensures
        msg.from is Some ==> r == Ok::<i64, String>(msg.from->0.id),
        msg.from is None ==> r is Err && r->Err_0@ == missing_user_text(),
{
    match &msg.from {
        Some(user) => Ok(user.id),
        None => Err(String::from_str("User not found")),
    }
}

/// The reply of `/balance`: the balance text, or a note that none was found.
pub fn balance_reply(found: Option<String>) -> (s: String)
    ensures
        s@ == match found {
            Some(b) => b@,
            None => missing_balance_text(),
        },
{
    match found {
        Some(b) => b,
        None => String::from_str("Ваш баланс не был найден :с"),
    }
}

} // verus!
