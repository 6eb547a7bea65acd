//! The data that the bot receives from Telegram and from Lightning nodes.

pub mod telegram_objects;
pub mod lightning_objects;

pub use self::telegram_objects::SendMessage;
pub use self::lightning_objects::{ChainData, Feature, LnGetInfo};
