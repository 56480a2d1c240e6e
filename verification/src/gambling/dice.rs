//! The reply to a dice sticker in the first version of the bot: a score for
//! the sport emojis, a fixed payout for the slot machine.

use crate::telegram::types::Dice;
use crate::text::{decimal, digits, digit_char, push_decimal, push_digits};
use vstd::prelude::*;
use vstd::string::*;

verus! {

/// The stake of one slot spin, in flowers.
pub const DEFAULT_BET: u64 = 5;

/// The multipliers of the three winning combinations, in tenths.
pub const LOW_WIN_TENTHS: u64 = 15;
pub const WIN_TENTHS: u64 = 30;
pub const BIG_WIN_TENTHS: u64 = 70;

/// An amount given in tenths, written as `Display` writes the same `f32`:
/// whole amounts without a fraction, others with one decimal place.
pub open spec fn tenths_text(t: nat) -> Seq<char> {
    if t % 10 == 0 {
        digits(t / 10)
    } else {
        digits(t / 10) + seq!['.', digit_char(t % 10)]
    }
}

/// The payout of a slot value, in tenths of a flower; zero for a loss.
pub open spec fn payout_tenths(value: int) -> nat {
    if value == 1 || value == 22 || value == 43 {
        (DEFAULT_BET * WIN_TENTHS) as nat
    } else if value == 16 || value == 32 || value == 48 {
        (DEFAULT_BET * LOW_WIN_TENTHS) as nat
    } else if value == 64 {
        (DEFAULT_BET * BIG_WIN_TENTHS) as nat
    } else {
        0
    }
}

/// The reply to a slot-machine spin.
pub open spec fn slot_text(value: int) -> Seq<char> {
    let base = "Твоя ставка 5🌸!\n"@;
    if value == 1 || value == 22 || value == 43 {
        base + "3 в ряд!\nТы выиграл: "@ + tenths_text(payout_tenths(value)) + "🌸"@
    } else if value == 16 || value == 32 || value == 48 {
        base + "2 топора лучше, чем ничего\nТы выиграл: "@ + tenths_text(payout_tenths(value))
            + "🌸"@
    } else if value == 64 {
        base + "Ого, так этож 3 топора!\nТы выиграл: "@ + tenths_text(payout_tenths(value)) + "🌸"@
    } else {
        base + "Сори, сегодня я отбираю твои цветочки"@
    }
}

/// The reply to a dice sticker.
pub open spec fn dice_text(emoji: Seq<char>, value: int) -> Seq<char> {
    if emoji == "🎯"@ {
        "Bullseye! 🎯 \n Score: "@ + decimal(value)
    } else if emoji == "🏀"@ {
        "Scored! 🏀 \n Score: "@ + decimal(value)
    } else if emoji == "⚽"@ {
        "Goal! ⚽ \n Score: "@ + decimal(value)
    } else if emoji == "🎳"@ {
        "Strike! 🎳 \n Score: "@ + decimal(value)
    } else if emoji == "🎲"@ {
        "Dice! 🎲 \n Score: "@ + decimal(value)
    } else if emoji == "🎰"@ {
        slot_text(value)
    } else {
        "Ooops, something go wrong \n DEBUG: "@ + emoji + " "@ + decimal(value)
    }
}

/// The slot machine's replies, by the value it landed on: three of a kind
/// (1, 22, 43) wins 15 flowers, two axes (16, 32, 48) win 7.5, three axes
/// (64) win 35, and every other value is a loss. The sticker `🎰` gets the
/// slot reply.
pub proof fn lemma_slot_sticker_text(value: int)
    ensures
        dice_text("🎰"@, value) == slot_text(value),
        value == 1 || value == 22 || value == 43 ==> slot_text(value) == "Твоя ставка 5🌸!\n"@
            + "3 в ряд!\nТы выиграл: "@ + seq!['1', '5'] + "🌸"@,
        value == 16 || value == 32 || value == 48 ==> slot_text(value) == "Твоя ставка 5🌸!\n"@
            + "2 топора лучше, чем ничего\nТы выиграл: "@ + seq!['7', '.', '5'] + "🌸"@,
        value == 64 ==> slot_text(value) == "Твоя ставка 5🌸!\n"@
            + "Ого, так этож 3 топора!\nТы выиграл: "@ + seq!['3', '5'] + "🌸"@,
        !(value == 1 || value == 22 || value == 43 || value == 16 || value == 32 || value == 48
            || value == 64) ==> slot_text(value) == "Твоя ставка 5🌸!\n"@
            + "Сори, сегодня я отбираю твои цветочки"@ && payout_tenths(value) == 0,
{
    reveal_strlit("🎰");
    reveal_strlit("🎯");
    reveal_strlit("🏀");
    reveal_strlit("⚽");
    reveal_strlit("🎳");
    reveal_strlit("🎲");
    assert("🎰"@ != "🎯"@ && "🎰"@ != "🏀"@ && "🎰"@ != "⚽"@ && "🎰"@ != "🎳"@ && "🎰"@
        != "🎲"@) by {
        assert("🎰"@[0] != "🎯"@[0]);
        assert("🎰"@[0] != "🏀"@[0]);
        assert("🎰"@[0] != "⚽"@[0]);
        assert("🎰"@[0] != "🎳"@[0]);
        assert("🎰"@[0] != "🎲"@[0]);
    }
    assert(digits(15) == seq!['1', '5']) by {
        reveal_with_fuel(digits, 3);
    }
    assert(digits(7) == seq!['7']);
    assert(digits(35) == seq!['3', '5']) by {
        reveal_with_fuel(digits, 3);
    }
    assert(tenths_text(150) =~= seq!['1', '5']);
    assert(tenths_text(75) =~= seq!['7', '.', '5']);
    assert(tenths_text(350) =~= seq!['3', '5']);
}

/// The sport stickers report their score under their own headline, and any
/// other sticker is reported with its emoji and value.
pub proof fn lemma_sport_sticker_text(emoji: Seq<char>, value: int)
    ensures
        dice_text("🎯"@, value) == "Bullseye! 🎯 \n Score: "@ + decimal(value),
        dice_text("🏀"@, value) == "Scored! 🏀 \n Score: "@ + decimal(value),
        dice_text("⚽"@, value) == "Goal! ⚽ \n Score: "@ + decimal(value),
        dice_text("🎳"@, value) == "Strike! 🎳 \n Score: "@ + decimal(value),
        dice_text("🎲"@, value) == "Dice! 🎲 \n Score: "@ + decimal(value),
        emoji != "🎯"@ && emoji != "🏀"@ && emoji != "⚽"@ && emoji != "🎳"@ && emoji != "🎲"@
            && emoji != "🎰"@ ==> dice_text(emoji, value) == "Ooops, something go wrong \n DEBUG: "@
            + emoji + " "@ + decimal(value),
{
    reveal_strlit("🎰");
    reveal_strlit("🎯");
    reveal_strlit("🏀");
    reveal_strlit("⚽");
    reveal_strlit("🎳");
    reveal_strlit("🎲");
    assert("🏀"@[0] != "🎯"@[0]);
    assert("⚽"@[0] != "🎯"@[0] && "⚽"@[0] != "🏀"@[0]);
    assert("🎳"@[0] != "🎯"@[0] && "🎳"@[0] != "🏀"@[0] && "🎳"@[0] != "⚽"@[0]);
    assert("🎲"@[0] != "🎯"@[0] && "🎲"@[0] != "🏀"@[0] && "🎲"@[0] != "⚽"@[0] && "🎲"@[0]
        != "🎳"@[0]);
}

fn push_tenths(out: &mut String, t: u64)
    ensures
        final(out)@ == old(out)@ + tenths_text(t as nat),
{
    push_digits(out, t / 10);
    if t % 10 != 0 {
        proof {
            reveal_strlit(".");
        }
        out.append(".");
        let ghost before = out@;
        push_digits(out, t % 10);
        assert(digits((t % 10) as nat) == seq![digit_char((t % 10) as nat)]);
        assert(out@ =~= old(out)@ + tenths_text(t as nat));
    }
}

/// Appends `prefix`, the payout of a win and the flower.
fn push_win(out: &mut String, prefix: &str, tenths: u64)
    ensures
        final(out)@ == old(out)@ + prefix@ + tenths_text(tenths as nat) + "🌸"@,
{
    out.append(prefix);
    push_tenths(out, tenths);
    out.append("🌸");
    assert(out@ =~= old(out)@ + prefix@ + tenths_text(tenths as nat) + "🌸"@);
}

fn slot_reply(value: i32) -> (s: String)
    ensures
        s@ == slot_text(value as int),
{
    let mut s = String::from_str("Твоя ставка 5🌸!\n");
    if value == 1 || value == 22 || value == 43 {
        push_win(&mut s, "3 в ряд!\nТы выиграл: ", DEFAULT_BET * WIN_TENTHS);
    } else if value == 16 || value == 32 || value == 48 {
        push_win(&mut s, "2 топора лучше, чем ничего\nТы выиграл: ", DEFAULT_BET * LOW_WIN_TENTHS);
    } else if value == 64 {
        push_win(&mut s, "Ого, так этож 3 топора!\nТы выиграл: ", DEFAULT_BET * BIG_WIN_TENTHS);
    } else {
        s.append("Сори, сегодня я отбираю твои цветочки");
    }
    s
}

fn score_reply(prefix: &str, value: i32) -> (s: String)
    ensures
        s@ == prefix@ + decimal(value as int),
{
    let mut s = String::from_str(prefix);
    push_decimal(&mut s, value as i64);
    s
}

/// The text the bot answers a dice sticker with.
pub fn handle_dice(dice: &Dice) -> (s: String)
    ensures
        s@ == dice_text(dice.emoji@, dice.value as int),
        dice.emoji@ == "🎰"@ && !(dice.value == 1 || dice.value == 22 || dice.value == 43
            || dice.value == 16 || dice.value == 32 || dice.value == 48 || dice.value == 64) ==> s@
            == "Твоя ставка 5🌸!\n"@ + "Сори, сегодня я отбираю твои цветочки"@,
        dice.emoji@ == "🎰"@ && dice.value == 64 ==> s@ == "Твоя ставка 5🌸!\n"@
            + "Ого, так этож 3 топора!\nТы выиграл: "@ + seq!['3', '5'] + "🌸"@,
{
    proof {
        lemma_slot_sticker_text(dice.value as int);
    }
    let emoji = &dice.emoji;
    if *emoji == String::from_str("🎯") {
        score_reply("Bullseye! 🎯 \n Score: ", dice.value)
    } else if *emoji == String::from_str("🏀") {
        score_reply("Scored! 🏀 \n Score: ", dice.value)
    } else if *emoji == String::from_str("⚽") {
        score_reply("Goal! ⚽ \n Score: ", dice.value)
    } else if *emoji == String::from_str("🎳") {
        score_reply("Strike! 🎳 \n Score: ", dice.value)
    } else if *emoji == String::from_str("🎲") {
        score_reply("Dice! 🎲 \n Score: ", dice.value)
    } else if *emoji == String::from_str("🎰") {
        slot_reply(dice.value)
    } else {
        let mut s = String::from_str("Ooops, something go wrong \n DEBUG: ");
        s.append(emoji.as_str());
        s.append(" ");
        push_decimal(&mut s, dice.value as i64);
        assert(s@ =~= dice_text(dice.emoji@, dice.value as int));
        s
    }
}

} // verus!
