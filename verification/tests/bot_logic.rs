use usslot_bot::errors::{error_description, ErrorKind};
use usslot_bot::logging::{choose_log_level, LogLevel};
use usslot_bot::repository::user::{BetQuery, User, STARTING_BALANCE};
use usslot_bot::telegram::bot::{
    api_base_url, is_success, offset_after, poll_step, send_message_url, send_step, updates_of,
    updates_url, ResponseStep,
};
use usslot_bot::telegram::command::{balance_command_user, balance_reply, welcome_text};
use usslot_bot::telegram::registry::CommandRegistry;
use usslot_bot::telegram::types::{
    CallbackQuery, Chat, Dice, Message, SendMessageRequest, TelegramResponse, Update, UpdateType,
    User as TelegramUser,
};
use usslot_bot::telegram::update_handler::{route_message, MessageRoute, BALANCE_COMMAND, START_COMMAND};
use usslot_bot::telergam::update_handler::reply_for_message;

fn chat(id: i64) -> Chat {
    Chat {
        id,
        chat_type: "private".to_string(),
        title: None,
        username: None,
        first_name: None,
        last_name: None,
    }
}

fn tg_user(id: i64) -> TelegramUser {
    TelegramUser {
        id,
        is_bot: false,
        first_name: "Ivan".to_string(),
        last_name: Some("Petrov".to_string()),
        username: None,
        language_code: Some("ru".to_string()),
    }
}

fn message(text: Option<&str>, dice: Option<(&str, i32)>, from: Option<i64>) -> Message {
    Message {
        message_id: 1,
        date: 0,
        chat: chat(42),
        from: from.map(tg_user),
        text: text.map(|t| t.to_string()),
        dice: dice.map(|(e, v)| Dice { emoji: e.to_string(), value: v }),
    }
}

fn update(id: i64, message: Option<Message>, edited: Option<Message>, callback: bool) -> Update {
    Update {
        update_id: id,
        message,
        edited_message: edited,
        callback_query: if callback {
            Some(CallbackQuery { id: "c".to_string(), from: tg_user(1), message: None, data: None })
        } else {
            None
        },
    }
}

#[test]
fn registering_a_name_again_replaces_its_handler() {
    let mut r: CommandRegistry<u32> = CommandRegistry::new();
    assert_eq!(r.get("/start"), None);
    r.register(START_COMMAND, 1);
    r.register(BALANCE_COMMAND, 2);
    assert_eq!(r.get("/start"), Some(&1));
    assert_eq!(r.get("/balance"), Some(&2));
    r.register("/start", 3);
    assert_eq!(r.get("/start"), Some(&3));
    assert_eq!(r.get("/balance"), Some(&2));
    assert_eq!(r.get("/help"), None);
    assert_eq!(r.get("start"), None);
}

#[test]
fn addresses_of_the_api() {
    let base = api_base_url("123:abc");
    assert_eq!(base, "https://api.telegram.org/bot123:abc");
    assert_eq!(updates_url(&base, None), "https://api.telegram.org/bot123:abc/getUpdates");
    assert_eq!(
        updates_url(&base, Some(815)),
        "https://api.telegram.org/bot123:abc/getUpdates?offset=815"
    );
    assert_eq!(updates_url("b", Some(-2)), "b/getUpdates?offset=-2");
    assert_eq!(send_message_url(&base), "https://api.telegram.org/bot123:abc/sendMessage");
}

#[test]
fn status_steps() {
    assert!(is_success(200) && is_success(299) && !is_success(300) && !is_success(199));
    assert_eq!(poll_step(200), ResponseStep::ReadBody);
    assert_eq!(poll_step(429), ResponseStep::Fail);
    assert_eq!(poll_step(500), ResponseStep::Fail);
    assert_eq!(send_step(204), ResponseStep::ReadBody);
    assert_eq!(send_step(429), ResponseStep::RetryAfterPause);
    assert_eq!(send_step(404), ResponseStep::Fail);
}

#[test]
fn poll_answers() {
    let ok = TelegramResponse { ok: true, result: Some(vec![update(5, None, None, false)]), description: None };
    assert_eq!(updates_of(ok).unwrap().len(), 1);
    let empty: TelegramResponse<Vec<Update>> = TelegramResponse { ok: true, result: None, description: None };
    assert_eq!(updates_of(empty).unwrap().len(), 0);
    let refused: TelegramResponse<Vec<Update>> =
        TelegramResponse { ok: false, result: None, description: Some("Unauthorized".to_string()) };
    assert_eq!(updates_of(refused).unwrap_err(), "Unauthorized");
    let silent: TelegramResponse<Vec<Update>> = TelegramResponse { ok: false, result: None, description: None };
    assert_eq!(updates_of(silent).unwrap_err(), "Unknown error");
}

#[test]
fn send_answers() {
    let ok: TelegramResponse<u8> = TelegramResponse { ok: true, result: Some(1), description: None };
    assert_eq!(ok.outcome(), Ok(Some(1)));
    let bad: TelegramResponse<u8> =
        TelegramResponse { ok: false, result: Some(1), description: Some("Bad Request".to_string()) };
    assert_eq!(bad.outcome(), Err("Bad Request".to_string()));
}

#[test]
fn the_next_poll_starts_past_the_update() {
    assert_eq!(offset_after(&update(41, None, None, false)), 42);
    assert_eq!(offset_after(&update(-1, None, None, false)), 0);
}

#[test]
fn request_is_plain_text() {
    let r = SendMessageRequest::plain(7, "hi");
    assert_eq!(r.chat_id, 7);
    assert_eq!(r.text, "hi");
    assert!(r.parse_mode.is_none());
}

#[test]
fn update_types() {
    let m = message(Some("hi"), None, Some(1));
    assert!(matches!(update(1, Some(m.clone()), None, false).get_type(), UpdateType::Message(x) if x.message_id == 1));
    assert!(matches!(update(1, None, Some(m.clone()), false).get_type(), UpdateType::EditedMessage(_)));
    assert!(matches!(update(1, None, None, true).get_type(), UpdateType::CallbackQuery(c) if c.id == "c"));
    assert!(matches!(update(1, None, None, false).get_type(), UpdateType::Unknown));
    assert!(matches!(update(1, Some(m.clone()), Some(m.clone()), false).get_type(), UpdateType::Unknown));
    assert!(matches!(update(1, Some(m), None, true).get_type(), UpdateType::Unknown));
}

#[test]
fn commands_route_by_their_text() {
    let m = message(Some("/balance"), Some(("🎰", 3)), Some(9));
    match route_message(&m) {
        MessageRoute::Command { text, chat_id } => {
            assert_eq!(text, "/balance");
            assert_eq!(chat_id, 42);
        }
        other => panic!("unexpected route {:?}", other),
    }
}

#[test]
fn stickers_route_to_the_dice_service() {
    let m = message(Some("hello"), Some(("🎰", 64)), Some(9));
    match route_message(&m) {
        MessageRoute::Dice { from, dice } => {
            assert_eq!(from.id, 9);
            assert_eq!(dice.value, 64);
        }
        other => panic!("unexpected route {:?}", other),
    }
}

#[test]
fn other_messages_are_ignored() {
    assert!(matches!(route_message(&message(Some("hello"), None, Some(9))), MessageRoute::Ignore));
    assert!(matches!(route_message(&message(None, Some(("🎰", 1)), None)), MessageRoute::Ignore));
    assert!(matches!(route_message(&message(Some(""), None, None)), MessageRoute::Ignore));
}

#[test]
fn first_bot_replies_to_stickers_only() {
    assert_eq!(reply_for_message(&message(Some("hi"), None, Some(1))), None);
    assert_eq!(
        reply_for_message(&message(None, Some(("🎲", 4)), None)).unwrap(),
        "Dice! 🎲 \n Score: 4"
    );
}

#[test]
fn balance_command_needs_a_sender() {
    assert_eq!(balance_command_user(&message(Some("/balance"), None, Some(77))), Ok(77));
    assert_eq!(
        balance_command_user(&message(Some("/balance"), None, None)),
        Err("User not found".to_string())
    );
    assert_eq!(balance_reply(Some("Твой баласн: 5".to_string())), "Твой баласн: 5");
    assert_eq!(balance_reply(None), "Ваш баланс не был найден :с");
}

#[test]
fn welcome_mentions_the_balance_command() {
    let t = welcome_text();
    assert!(t.starts_with("\n🔥 Добро пожаловать, товарищ! 🔥\n"));
    assert!(t.contains("/balance"));
}

#[test]
fn log_levels_ignore_case() {
    let c = choose_log_level("TRACE");
    assert_eq!((c.level, c.recognized), (LogLevel::Trace, true));
    let c = choose_log_level("Debug");
    assert_eq!((c.level, c.recognized), (LogLevel::Debug, true));
    let c = choose_log_level("info");
    assert_eq!((c.level, c.recognized), (LogLevel::Info, true));
    let c = choose_log_level("wArN");
    assert_eq!((c.level, c.recognized), (LogLevel::Warn, true));
    let c = choose_log_level("ERROR");
    assert_eq!((c.level, c.recognized), (LogLevel::Error, true));
    let c = choose_log_level("verbose");
    assert_eq!((c.level, c.recognized), (LogLevel::Info, false));
    let c = choose_log_level("");
    assert_eq!((c.level, c.recognized), (LogLevel::Info, false));
}

#[test]
fn error_messages_name_their_kind() {
    assert_eq!(error_description(ErrorKind::Config, "missing"), "Configuration error: missing");
    assert_eq!(error_description(ErrorKind::Http, "x"), "HTTP error: x");
    assert_eq!(error_description(ErrorKind::Database, "x"), "Database error: x");
    assert_eq!(error_description(ErrorKind::Telegram, "x"), "Telegram API error: x");
    assert_eq!(error_description(ErrorKind::Io, "x"), "IO error: x");
    assert_eq!(error_description(ErrorKind::Serde, "x"), "Serialization error: x");
}

#[test]
fn new_accounts_start_with_two_hundred() {
    let t = tg_user(555);
    let u = User::new_account(&t);
    assert_eq!(u.balance, STARTING_BALANCE);
    assert_eq!(u.balance, 200);
    assert_eq!(u.telergam_id, 555);
    let plain = User::from_telegram(&t);
    assert_eq!(plain.balance, 0);
    assert_ne!(plain.id, u.id);
}

#[test]
fn account_reads_back_as_the_same_user() {
    let t = tg_user(9);
    let u = User::new_account(&t);
    let back = TelegramUser::from(&u);
    assert_eq!(back.id, t.id);
    assert_eq!(back.first_name, t.first_name);
    assert_eq!(back.last_name, t.last_name);
    assert_eq!(back.username, t.username);
    assert_eq!(back.language_code, t.language_code);
    assert_eq!(back.is_bot, t.is_bot);
}

#[test]
fn bet_queries_cover_the_stake() {
    let q = BetQuery::for_bet(3, 5, 35);
    assert_eq!((q.telegram_id, q.min_balance, q.balance_change), (3, 5, 30));
    let q = BetQuery::for_bet(3, 5, 0);
    assert_eq!((q.min_balance, q.balance_change), (5, -5));
}
