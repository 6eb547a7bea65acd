//! Verified core of a bot that watches Lightning nodes and reports on them
//! to their owners through Telegram.

pub mod text;
pub mod channels;
pub mod channel_handler;
pub mod config_wrapper;
pub mod client_wrapper;
pub mod pattern;
pub mod objects;
pub mod pickle_jar;
pub mod telegram_client;
pub mod lightning_client;
pub mod tor;
