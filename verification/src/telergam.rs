pub mod update_handler;
