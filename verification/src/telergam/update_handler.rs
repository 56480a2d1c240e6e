//! The first version of the bot: every dice sticker is answered with its
//! score or its slot payout, and nothing else is answered.

use crate::gambling::dice::{dice_text, handle_dice};
use crate::telegram::types::Message;
use vstd::prelude::*;

verus! {

/// The reply to a message: the dice text when it carries a sticker.
pub fn reply_for_message(msg: &Message) -> (r: Option<String>)
    ensures
        msg.dice is None ==> r is None,
        msg.dice is Some ==> r is Some && r->0@ == dice_text(
            msg.dice->0.emoji@,
            msg.dice->0.value as int,
        ),
{
    match &msg.dice {
        Some(dice) => Some(handle_dice(dice)),
        None => None,
    }
}

} // verus!
