use usslot_bot::gambling::dice::handle_dice;
use usslot_bot::services::balance::balance_text;
use usslot_bot::services::dice::{
    balance_or_zero, losing_spin, plan_dice, slot_spin, spin_reply, DicePlan, DEFAULT_BET,
};
use usslot_bot::telegram::types::Dice;
use usslot_bot::text::decimal_string;

fn dice(emoji: &str, value: i32) -> Dice {
    Dice { emoji: emoji.to_string(), value }
}

#[test]
fn sport_stickers_report_their_score() {
    assert_eq!(handle_dice(&dice("🎯", 6)), "Bullseye! 🎯 \n Score: 6");
    assert_eq!(handle_dice(&dice("🏀", 4)), "Scored! 🏀 \n Score: 4");
    assert_eq!(handle_dice(&dice("⚽", 3)), "Goal! ⚽ \n Score: 3");
    assert_eq!(handle_dice(&dice("🎳", 1)), "Strike! 🎳 \n Score: 1");
    assert_eq!(handle_dice(&dice("🎲", 5)), "Dice! 🎲 \n Score: 5");
}

#[test]
fn slot_triple_pays_fifteen_flowers() {
    for v in [1, 22, 43] {
        assert_eq!(
            handle_dice(&dice("🎰", v)),
            "Твоя ставка 5🌸!\n3 в ряд!\nТы выиграл: 15🌸"
        );
    }
}

#[test]
fn slot_pair_pays_seven_and_a_half_flowers() {
    for v in [16, 32, 48] {
        assert_eq!(
            handle_dice(&dice("🎰", v)),
            "Твоя ставка 5🌸!\n2 топора лучше, чем ничего\nТы выиграл: 7.5🌸"
        );
    }
}

#[test]
fn slot_jackpot_pays_thirty_five_flowers() {
    assert_eq!(
        handle_dice(&dice("🎰", 64)),
        "Твоя ставка 5🌸!\nОго, так этож 3 топора!\nТы выиграл: 35🌸"
    );
}

#[test]
fn payouts_match_the_float_display() {
    assert_eq!(format!("{}", 5.0f32 * 3.0f32), "15");
    assert_eq!(format!("{}", 5.0f32 * 1.5f32), "7.5");
    assert_eq!(format!("{}", 5.0f32 * 7.0f32), "35");
}

#[test]
fn slot_loss_keeps_the_flowers() {
    assert_eq!(
        handle_dice(&dice("🎰", 2)),
        "Твоя ставка 5🌸!\nСори, сегодня я отбираю твои цветочки"
    );
}

#[test]
fn unknown_sticker_is_reported() {
    assert_eq!(
        handle_dice(&dice("🃏", -7)),
        "Ooops, something go wrong \n DEBUG: 🃏 -7"
    );
}

#[test]
fn sport_stickers_place_no_bet() {
    for e in ["🎯", "🏀", "⚽", "🎳", "🎲"] {
        assert!(matches!(plan_dice(&dice(e, 3)), DicePlan::Ignore));
    }
}

#[test]
fn unknown_sticker_gets_an_immediate_reply() {
    match plan_dice(&dice("x", 12)) {
        DicePlan::Reply(t) => assert_eq!(t, "Товарищ, ты все поломал!\nРазжукивание: x 12"),
        other => panic!("unexpected plan {:?}", other),
    }
}

#[test]
fn slot_sticker_places_the_spin_of_its_value() {
    match plan_dice(&dice("🎰", 64)) {
        DicePlan::Spin(spin) => {
            assert_eq!(spin.bet, 5);
            assert_eq!(spin.win, 75);
        }
        other => panic!("unexpected plan {:?}", other),
    }
}

#[test]
fn spins_stake_five_and_pay_by_combination() {
    let cases = [(1, 35), (22, 35), (43, 35), (16, 15), (32, 15), (48, 15), (64, 75), (0, 0), (5, 0)];
    for (value, win) in cases {
        let spin = slot_spin(value);
        assert_eq!(spin.bet, DEFAULT_BET);
        assert_eq!(spin.win, win);
        assert_eq!(spin.headline.is_some(), win > 0);
    }
}

#[test]
fn winning_spin_announces_the_win() {
    let spin = slot_spin(22);
    assert_eq!(
        spin_reply(&spin, true).unwrap(),
        "Твоя ставка 5 🎟, Товарищ!\n3 в ряд! Партия будет гордится!\nТы выиграл: 35🎟"
    );
    let spin = slot_spin(48);
    assert_eq!(
        spin_reply(&spin, true).unwrap(),
        "Твоя ставка 5 🎟, Товарищ!\nНебольшая победа во имя коммунизма!\nТы выиграл: 15🎟"
    );
    let spin = slot_spin(64);
    assert_eq!(
        spin_reply(&spin, true).unwrap(),
        "Твоя ставка 5 🎟, Товарищ!\nПартия высоко ценит твое достижение, товарищ!\nТы выиграл: 75🎟"
    );
}

#[test]
fn accepted_loss_is_silent() {
    assert_eq!(spin_reply(&losing_spin(), true), None);
    assert_eq!(spin_reply(&slot_spin(7), true), None);
}

#[test]
fn refused_spin_reports_missing_funds() {
    let text = "У тебя недостаточно средств для ставки, товарищ! 😔";
    assert_eq!(spin_reply(&slot_spin(64), false).unwrap(), text);
    assert_eq!(spin_reply(&losing_spin(), false).unwrap(), text);
}

#[test]
fn missing_account_reads_as_zero() {
    assert_eq!(balance_or_zero(None), 0);
    assert_eq!(balance_or_zero(Some(-3)), -3);
    assert_eq!(balance_text(None), "Твой баласн: 0");
    assert_eq!(balance_text(Some(195)), "Твой баласн: 195");
}

#[test]
fn decimals_match_to_string() {
    for n in [0i64, 7, -7, 10, 99, 100, 1234567890, i64::MAX, i64::MIN, -1] {
        assert_eq!(decimal_string(n), n.to_string());
    }
}
