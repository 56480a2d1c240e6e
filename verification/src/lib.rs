//! A Telegram bot that plays the slot-machine dice sticker: the message
//! routing, the replies, the bets and the command registry, verified.

pub mod text;
pub mod telegram;
pub mod gambling;
pub mod services;
pub mod repository;
pub mod telergam;
pub mod logging;
pub mod errors;
