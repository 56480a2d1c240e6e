//! The Bot API addresses, and what the bot does with each HTTP answer.
//! The requests themselves are sent by the caller.

use crate::telegram::types::{TelegramResponse, Update, failure_text};
use crate::text::{decimal, push_decimal};
use vstd::prelude::*;
use vstd::string::*;

verus! {

/// How long to wait before asking again: after a refused send for too many
/// requests, and between two polls.
pub const RETRY_PAUSE_MS: u64 = 1000;
pub const POLL_INTERVAL_MS: u64 = 1000;

/// The HTTP status of too many requests.
pub const TOO_MANY_REQUESTS: u16 = 429;

/// What to do with an HTTP answer.
#[derive(Debug, Clone, Copy, PartialEq, Eq)]
pub enum ResponseStep {
    /// A success status: read the JSON body.
    ReadBody,
    /// Rate limited: pause, then send the same request again.
    RetryAfterPause,
    /// Any other status: fail with the HTTP error.
    Fail,
}

/// A status in the success class, as `StatusCode::is_success` of http tells it.
pub open spec fn is_success_status(status: u16) -> bool {
    200 <= status <= 299
}

pub open spec fn api_prefix() -> Seq<char> {
    "https://api.telegram.org/bot"@
}

/// The address of the updates poll, with the offset as a query when there is one.
pub open spec fn updates_url_text(base: Seq<char>, offset: Option<i64>) -> Seq<char> {
    match offset {
        Some(o) => base + "/getUpdates"@ + "?offset="@ + decimal(o as int),
        None => base + "/getUpdates"@,
    }
}

/// Every status from 200 to 299 is read, a rate-limited send (429) is
/// retried, and every other status fails.
pub proof fn lemma_status_classes(status: u16)
    ensures
        is_success_status(status) <==> (200 <= status && status < 300),
        TOO_MANY_REQUESTS == 429,
        !is_success_status(429),
{
}

/// The address that every call of the bot with this token starts with.
pub fn api_base_url(token: &str) -> (s: String)
    ensures
        s@ == api_prefix() + token@,
{
    let mut s = String::from_str("https://api.telegram.org/bot");
    s.append(token);
    s
}

/// The address of the updates poll.
pub fn updates_url(base: &str, offset: Option<i64>) -> (s: String)
    ensures
        s@ == updates_url_text(base@, offset),
{
    let mut s = String::from_str(base);
    s.append("/getUpdates");
    match offset {
        Some(o) => {
            s.append("?offset=");
            push_decimal(&mut s, o);
        },
        None => {},
    }
    s
}

/// The address of `sendMessage`.
pub fn send_message_url(base: &str) -> (s: String)
    ensures
        s@ == base@ + "/sendMessage"@,
{
    let mut s = String::from_str(base);
    s.append("/sendMessage");
    s
}

/// A status in the success class.
pub fn is_success(status: u16) -> (b: bool)
    ensures
        b == is_success_status(status),
{
    200 <= status && status <= 299
}

/// What to do with the answer to a poll: read a success, fail on any other status.
pub fn poll_step(status: u16) -> (step: ResponseStep)
    ensures
        is_success_status(status) ==> step == ResponseStep::ReadBody,
        !is_success_status(status) ==> step == ResponseStep::Fail,
{
    if is_success(status) {
        ResponseStep::ReadBody
    } else {
        ResponseStep::Fail
    }
}

/// What to do with the answer to a sent message: read a success, send again
/// after a pause when rate limited, fail on any other status.
pub fn send_step(status: u16) -> (step: ResponseStep)
    ensures
        is_success_status(status) ==> step == ResponseStep::ReadBody,
        status == TOO_MANY_REQUESTS ==> step == ResponseStep::RetryAfterPause,
        !is_success_status(status) && status != TOO_MANY_REQUESTS ==> step == ResponseStep::Fail,
{
    if is_success(status) {
        ResponseStep::ReadBody
    } else if status == TOO_MANY_REQUESTS {
        ResponseStep::RetryAfterPause
    } else {
        ResponseStep::Fail
    }
}

/// The updates of a poll's answer: the list it carries (none when it
/// carries no list), or the error text Telegram gave.
pub fn updates_of(response: TelegramResponse<Vec<Update>>) -> (r: Result<Vec<Update>, String>)
    ensures
        response.ok ==> r is Ok && r->Ok_0@ == match response.result {
            Some(v) => v@,
            None => Seq::<Update>::empty(),
        },
        !response.ok ==> r is Err && r->Err_0@ == failure_text(response.description),
{
    match response.outcome() {
        Ok(Some(v)) => Ok(v),
        Ok(None) => Ok(Vec::new()),
        Err(e) => Err(e),
    }
}

/// The offset of the next poll once `update` is handled: one past its id.
pub fn offset_after(update: &Update) -> (o: i64)
    requires
        update.update_id < i64::MAX,
    ensures
        o == update.update_id + 1,
        o > update.update_id,
{
    update.update_id + 1
}

} // verus!
