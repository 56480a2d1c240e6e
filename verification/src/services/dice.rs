//! What the bot does with a dice sticker: which stickers it answers, what a
//! slot spin stakes and pays, and what it replies once the bet is settled.
//! The reads and writes of the account store stand between these steps and
//! are made by the caller.

use crate::repository::user::BetQuery;
use crate::telegram::types::Dice;
use crate::text::{decimal, push_decimal};
use vstd::prelude::*;
use vstd::string::*;

verus! {

/// The stake of one slot spin, in tickets.
pub const DEFAULT_BET: i64 = 5;

/// The multipliers of the stake for the three winning combinations.
pub const LOW_WIN: i64 = 3;
pub const WIN: i64 = 7;
pub const BIG_WIN: i64 = 15;

/// What to do with a dice sticker.
#[derive(Debug)]
pub enum DicePlan {
    /// A sport sticker: no reply, no bet.
    Ignore,
    /// A sticker the bot does not know: reply at once.
    Reply(String),
    /// The slot machine: place the spin's bet, then reply.
    Spin(SlotSpin),
}

/// The bet that a slot spin places.
#[derive(Debug)]
pub struct SlotSpin {
    /// What is taken from the balance.
    pub bet: i64,
    /// What is paid back; zero for a losing spin.
    pub win: i64,
    /// The first lines of the reply to a winning spin; `None` for a loss.
    pub headline: Option<String>,
}

/// The value lines up three of a kind.
pub open spec fn is_triple(value: int) -> bool {
    value == 1 || value == 22 || value == 43
}

/// The value shows two axes.
pub open spec fn is_pair(value: int) -> bool {
    value == 16 || value == 32 || value == 48
}

/// The value shows three axes.
pub open spec fn is_jackpot(value: int) -> bool {
    value == 64
}

/// What a spin pays back.
pub open spec fn spin_win(value: int) -> int {
    if is_triple(value) {
        DEFAULT_BET * WIN
    } else if is_pair(value) {
        DEFAULT_BET * LOW_WIN
    } else if is_jackpot(value) {
        DEFAULT_BET * BIG_WIN
    } else {
        0
    }
}

pub open spec fn spin_base() -> Seq<char> {
    "Твоя ставка 5 🎟, Товарищ!\n"@
}

/// The first lines of the reply to a spin; `None` for a losing spin.
pub open spec fn spin_headline(value: int) -> Option<Seq<char>> {
    if is_triple(value) {
        Some(spin_base() + "3 в ряд! Партия будет гордится!\n"@)
    } else if is_pair(value) {
        Some(spin_base() + "Небольшая победа во имя коммунизма!\n"@)
    } else if is_jackpot(value) {
        Some(spin_base() + "Партия высоко ценит твое достижение, товарищ!\n"@)
    } else {
        None
    }
}

pub open spec fn insufficient_funds_text() -> Seq<char> {
    "У тебя недостаточно средств для ставки, товарищ! 😔"@
}

/// The reply to a sticker the bot does not know.
pub open spec fn unknown_sticker_text(emoji: Seq<char>, value: int) -> Seq<char> {
    "Товарищ, ты все поломал!\nРазжукивание: "@ + emoji + " "@ + decimal(value)
}

/// A sport sticker, answered by nothing.
pub open spec fn is_sport_emoji(emoji: Seq<char>) -> bool {
    emoji == "🎯"@ || emoji == "🏀"@ || emoji == "⚽"@ || emoji == "🎳"@ || emoji == "🎲"@
}

pub open spec fn is_slot_emoji(emoji: Seq<char>) -> bool {
    emoji == "🎰"@
}

/// The spin for a slot value, as a spec value.
pub open spec fn spin_matches(spin: SlotSpin, value: int) -> bool {
    &&& spin.bet == DEFAULT_BET
    &&& spin.win == spin_win(value)
    &&& match (spin.headline, spin_headline(value)) {
        (Some(h), Some(t)) => h@ == t,
        (None, None) => true,
        _ => false,
    }
}

/// The reply once the store has settled a spin: refused for want of funds,
/// the win announced, or nothing for an accepted losing spin.
pub open spec fn settled_text(spin: SlotSpin, accepted: bool) -> Option<Seq<char>> {
    if !accepted {
        Some(insufficient_funds_text())
    } else {
        match spin.headline {
            Some(h) => Some(h@ + "Ты выиграл: "@ + decimal(spin.win as int) + "🎟"@),
            None => None,
        }
    }
}

/// The spin that a slot value places: the default stake, and the win and
/// headline of its combination.
pub fn slot_spin(value: i32) -> (spin: SlotSpin)
    ensures
        spin_matches(spin, value as int),
        spin.bet == 5,
        value == 1 || value == 22 || value == 43 ==> spin.win == 35 && spin.headline is Some,
        value == 16 || value == 32 || value == 48 ==> spin.win == 15 && spin.headline is Some,
        value == 64 ==> spin.win == 75 && spin.headline is Some,
        !(value == 1 || value == 22 || value == 43 || value == 16 || value == 32 || value == 48
            || value == 64) ==> spin.win == 0 && spin.headline is None,
{
    let headline = if value == 1 || value == 22 || value == 43 {
        let mut h = String::from_str("Твоя ставка 5 🎟, Товарищ!\n");
        h.append("3 в ряд! Партия будет гордится!\n");
        Some((h, DEFAULT_BET * WIN))
    } else if value == 16 || value == 32 || value == 48 {
        let mut h = String::from_str("Твоя ставка 5 🎟, Товарищ!\n");
        h.append("Небольшая победа во имя коммунизма!\n");
        Some((h, DEFAULT_BET * LOW_WIN))
    } else if value == 64 {
        let mut h = String::from_str("Твоя ставка 5 🎟, Товарищ!\n");
        h.append("Партия высоко ценит твое достижение, товарищ!\n");
        Some((h, DEFAULT_BET * BIG_WIN))
    } else {
        None
    };
    match headline {
        Some((h, win)) => SlotSpin { bet: DEFAULT_BET, win, headline: Some(h) },
        None => SlotSpin { bet: DEFAULT_BET, win: 0, headline: None },
    }
}

/// The spin of a loss: the default stake and nothing paid back.
pub fn losing_spin() -> (spin: SlotSpin)
    ensures
        spin.bet == DEFAULT_BET,
        spin.win == 0,
        spin.headline is None,
{
    SlotSpin { bet: DEFAULT_BET, win: 0, headline: None }
}

/// What to do with a dice sticker.
pub fn plan_dice(dice: &Dice) -> (plan: DicePlan)
    ensures
        is_sport_emoji(dice.emoji@) ==> plan is Ignore,
        !is_sport_emoji(dice.emoji@) && is_slot_emoji(dice.emoji@) ==> (plan matches DicePlan::Spin(
            spin,
        ) && spin_matches(spin, dice.value as int)),
        !is_sport_emoji(dice.emoji@) && !is_slot_emoji(dice.emoji@) ==> (plan matches DicePlan::Reply(
            t,
        ) && t@ == unknown_sticker_text(dice.emoji@, dice.value as int)),
{
    let emoji = &dice.emoji;
    if *emoji == String::from_str("🎯") || *emoji == String::from_str("🏀") || *emoji
        == String::from_str("⚽") || *emoji == String::from_str("🎳") || *emoji
        == String::from_str("🎲") {
        DicePlan::Ignore
    } else if *emoji == String::from_str("🎰") {
        DicePlan::Spin(slot_spin(dice.value))
    } else {
        let mut t = String::from_str("Товарищ, ты все поломал!\nРазжукивание: ");
        t.append(emoji.as_str());
        t.append(" ");
        push_decimal(&mut t, dice.value as i64);
        assert(t@ =~= unknown_sticker_text(dice.emoji@, dice.value as int));
        DicePlan::Reply(t)
    }
}

/// The reply once the store has settled the spin's bet; `accepted` tells
/// whether the balance covered the stake.
pub fn spin_reply(spin: &SlotSpin, accepted: bool) -> (r: Option<String>)
    ensures
        match (r, settled_text(*spin, accepted)) {
            (Some(s), Some(t)) => s@ == t,
            (None, None) => true,
            _ => false,
        },
        !accepted ==> r is Some && r->0@ == "У тебя недостаточно средств для ставки, товарищ! 😔"@,
{
    if !accepted {
        Some(String::from_str("У тебя недостаточно средств для ставки, товарищ! 😔"))
    } else {
        match &spin.headline {
            Some(h) => {
                let mut s = h.clone();
                s.append("Ты выиграл: ");
                push_decimal(&mut s, spin.win);
                s.append("🎟");
                assert(s@ =~= h@ + "Ты выиграл: "@ + decimal(spin.win as int) + "🎟"@);
                Some(s)
            },
            None => None,
        }
    }
}

/// The balance of an account that may not exist yet: zero when it does not.
pub fn balance_or_zero(found: Option<i64>) -> (b: i64)
    ensures
        b == match found {
            Some(x) => x,
            None => 0,
        },
{
    match found {
        Some(x) => x,
        None => 0,
    }
}

/// A spin never costs more than its stake, and a winning spin pays back more
/// than it took.
pub proof fn lemma_spin_bounded_loss(value: int)
    ensures
        spin_win(value) - DEFAULT_BET >= -DEFAULT_BET,
        spin_headline(value) is Some ==> spin_win(value) > DEFAULT_BET,
        spin_headline(value) is None ==> spin_win(value) == 0,
{
}

/// The pay table of the slot machine, by the value the sticker landed on:
/// three of a kind (1, 22, 43) pays 35, two axes (16, 32, 48) pay 15, three
/// axes (64) pay 75, and every other value pays nothing and has no headline.
/// Every spin stakes 5.
pub proof fn lemma_slot_pay_table(value: int)
    ensures
        value == 1 || value == 22 || value == 43 ==> spin_win(value) == 35 && spin_headline(value)
            == Some(spin_base() + "3 в ряд! Партия будет гордится!\n"@),
        value == 16 || value == 32 || value == 48 ==> spin_win(value) == 15 && spin_headline(value)
            == Some(spin_base() + "Небольшая победа во имя коммунизма!\n"@),
        value == 64 ==> spin_win(value) == 75 && spin_headline(value) == Some(
            spin_base() + "Партия высоко ценит твое достижение, товарищ!\n"@,
        ),
        spin_win(value) > 0 <==> (value == 1 || value == 22 || value == 43 || value == 16 || value
            == 32 || value == 48 || value == 64),
        spin_headline(value) is Some <==> (value == 1 || value == 22 || value == 43 || value == 16
            || value == 32 || value == 48 || value == 64),
        !(value == 1 || value == 22 || value == 43 || value == 16 || value == 32 || value == 48
            || value == 64) ==> spin_win(value) == 0 && spin_headline(value) is None,
        DEFAULT_BET == 5,
{
}

/// The five sport stickers are ignored, the slot machine `🎰` spins, and
/// any other sticker gets the unknown-sticker reply.
pub proof fn lemma_sticker_kinds(emoji: Seq<char>)
    ensures
        is_sport_emoji("🎯"@) && is_sport_emoji("🏀"@) && is_sport_emoji("⚽"@) && is_sport_emoji(
            "🎳"@,
        ) && is_sport_emoji("🎲"@),
        is_slot_emoji("🎰"@) && !is_sport_emoji("🎰"@),
        emoji != "🎯"@ && emoji != "🏀"@ && emoji != "⚽"@ && emoji != "🎳"@ && emoji != "🎲"@
            && emoji != "🎰"@ ==> !is_sport_emoji(emoji) && !is_slot_emoji(emoji),
{
    reveal_strlit("🎰");
    reveal_strlit("🎯");
    reveal_strlit("🏀");
    reveal_strlit("⚽");
    reveal_strlit("🎳");
    reveal_strlit("🎲");
    assert("🎰"@[0] != "🎯"@[0] && "🎰"@[0] != "🏀"@[0] && "🎰"@[0] != "⚽"@[0] && "🎰"@[0]
        != "🎳"@[0] && "🎰"@[0] != "🎲"@[0]);
}

/// A refused bet is answered with the missing-funds text, whatever the spin
/// won or announced; an accepted spin never gets that text unless it has a
/// headline to announce.
pub proof fn lemma_refused_bet_reply(spin: SlotSpin)
    ensures
        settled_text(spin, false) == Some(
            "У тебя недостаточно средств для ставки, товарищ! 😔"@,
        ),
        spin.headline is None ==> settled_text(spin, true) is None,
{
}

/// The bet that settles any spin touches only a balance that covers the
/// stake, and leaves it non-negative.
pub proof fn lemma_spin_keeps_balance(telegram_id: i64, value: int, balance: int)
    ensures
        ({
            let q = BetQuery {
                telegram_id,
                min_balance: DEFAULT_BET,
                balance_change: (spin_win(value) - DEFAULT_BET) as i64,
            };
            q.admits(balance) ==> q.balance_after(balance) >= 0
        }),
{
}

} // verus!
