pub mod types;
pub mod registry;
pub mod bot;
pub mod command;
pub mod update_handler;
