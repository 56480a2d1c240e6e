//! The reply to the balance request.

use crate::text::{decimal, push_decimal};
use vstd::prelude::*;
use vstd::string::*;

verus! {

/// The balance reply for an account that may not exist yet; a missing
/// account reads as a balance of zero.
pub open spec fn balance_reply(found: Option<i64>) -> Seq<char> {
    "Твой баласн: "@ + decimal(
        match found {
            Some(b) => b as int,
            None => 0,
        },
    )
}

/// The text that answers a balance request.
pub fn balance_text(found: Option<i64>) -> (s: String)
    ensures
        s@ == balance_reply(found),
{
    let balance = match found {
        Some(b) => b,
        None => 0,
    };
    let mut s = String::from_str("Твой баласн: ");
    push_decimal(&mut s, balance);
    s
}

} // verus!
