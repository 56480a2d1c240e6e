//! The account that the bot keeps for each Telegram user, and the queries
//! by which the store settles bets on it.

use crate::telegram::types::User as TelegramUser;
use mongodb::bson::oid::ObjectId;
use vstd::prelude::*;

verus! {

#[verifier::external_type_specification]
#[verifier::external_body]
pub struct ExObjectId(ObjectId);

/// A fresh document id from `ObjectId::new` of bson, which combines the
/// clock, a per-process random value and a counter. Nothing is stated of it:
/// it depends on the time and on the process. (bson's `new` panics when the
/// system clock reads before 1970 or after 2106.)
#[verifier::external_body]
fn new_object_id() -> ObjectId {
    ObjectId::new()
}

/// The balance a new account starts with, in tickets.
pub const STARTING_BALANCE: i64 = 200;

/// A stored account.
#[derive(Debug)]
pub struct User {
    pub id: ObjectId,
    pub telergam_id: i64,
    pub is_bot: bool,
    pub first_name: String,
    pub last_name: Option<String>,
    pub username: Option<String>,
    pub language_code: Option<String>,
    pub balance: i64,
}

fn clone_text(o: &Option<String>) -> (r: Option<String>)
    ensures
        r == *o,
{
    match o {
        Some(s) => Some(s.clone()),
        None => None,
    }
}

/// The stored account carries the profile of the Telegram user.
pub open spec fn same_profile(u: User, t: TelegramUser) -> bool {
    &&& u.telergam_id == t.id
    &&& u.is_bot == t.is_bot
    &&& u.first_name == t.first_name
    &&& u.last_name == t.last_name
    &&& u.username == t.username
    &&& u.language_code == t.language_code
}

impl<'a> From<&'a User> for TelegramUser {
    fn from(t: &'a User) -> (r: TelegramUser) {
        TelegramUser {
            id: t.telergam_id,
            first_name: t.first_name.clone(),
            last_name: clone_text(&t.last_name),
            username: clone_text(&t.username),
            is_bot: t.is_bot,
            language_code: clone_text(&t.language_code),
        }
    }
}

impl<'a> vstd::std_specs::convert::FromSpecImpl<&'a User> for TelegramUser {
    open spec fn obeys_from_spec() -> bool {
        true
    }

    open spec fn from_spec(t: &'a User) -> TelegramUser {
        TelegramUser {
            id: t.telergam_id,
            first_name: t.first_name,
            last_name: t.last_name,
            username: t.username,
            is_bot: t.is_bot,
            language_code: t.language_code,
        }
    }
}

impl User {
    /// An account for a Telegram user, under a fresh id, with a zero balance.
    pub fn from_telegram(t: &TelegramUser) -> (u: User)
        ensures
            same_profile(u, *t),
            u.balance == 0,
    {
        User {
            id: new_object_id(),
            telergam_id: t.id,
            first_name: t.first_name.clone(),
            last_name: clone_text(&t.last_name),
            username: clone_text(&t.username),
            is_bot: t.is_bot,
            language_code: clone_text(&t.language_code),
            balance: 0,
        }
    }

    /// The account that `create` stores for a new user: the user's profile,
    /// a fresh id and the starting balance.
    pub fn new_account(t: &TelegramUser) -> (u: User)
        ensures
            same_profile(u, *t),
            u.balance == STARTING_BALANCE,
    {
        let mut u = User::from_telegram(t);
        u.balance = STARTING_BALANCE;
        u
    }
}

/// The conditional update that settles a bet: it applies to the account of
/// `telegram_id` when its balance covers `min_balance`, and adds
/// `balance_change` to that balance.
#[derive(Debug, Clone, Copy)]
pub struct BetQuery {
    pub telegram_id: i64,
    pub min_balance: i64,
    pub balance_change: i64,
}

impl BetQuery {
    /// The query applies to an account with this balance.
    pub open spec fn admits(self, balance: int) -> bool {
        balance >= self.min_balance
    }

    /// The balance after the query applied.
    pub open spec fn balance_after(self, balance: int) -> int {
        balance + self.balance_change
    }

    /// The query for a bet of `bet_amount` that pays back `win_amount`: only
    /// a balance that covers the stake is touched, and it moves by the win
    /// less the stake.
    pub fn for_bet(telegram_id: i64, bet_amount: i64, win_amount: i64) -> (q: BetQuery)
        requires
            i64::MIN <= win_amount - bet_amount <= i64::MAX,
        ensures
            q.telegram_id == telegram_id,
            q.min_balance == bet_amount,
            q.balance_change == win_amount - bet_amount,
    {
        BetQuery { telegram_id, min_balance: bet_amount, balance_change: win_amount - bet_amount }
    }
}

/// A settled bet never leaves a balance that covered its stake below the
/// win paid back; with a stake and a win that are not negative, the balance
/// stays non-negative.
pub proof fn lemma_bet_keeps_balance(telegram_id: i64, bet: i64, win: i64, balance: int)
    requires
        i64::MIN <= win - bet <= i64::MAX,
        balance >= bet,
    ensures
        ({
            let q = BetQuery { telegram_id, min_balance: bet, balance_change: (win - bet) as i64 };
            &&& q.admits(balance)
            &&& q.balance_after(balance) >= win
            &&& (bet >= 0 && win >= 0 ==> q.balance_after(balance) >= 0)
        }),
{
}

/// A stored account read back as a Telegram user gives the user it was
/// made from.
pub proof fn lemma_profile_round_trip(u: User, t: TelegramUser)
    requires
        same_profile(u, t),
    ensures
        <TelegramUser as vstd::std_specs::convert::FromSpec<&User>>::from_spec(&u) == t,
{
}

} // verus!
