//! A bridge between a Telegram session and plain text: which incoming
//! messages are kept and how they are printed, how the session is configured,
//! how its errors are answered, and which lines of input are sent back.
pub mod config;
pub mod events;
pub mod message;
pub mod text;

pub use config::{TdlibSettings, TelegramConfig, TextMessageRequest};
pub use events::ErrorAction;
pub use message::{IncomingMessage, MessageContent, MessageSender, TelegramMessage};
