//! The tracker's configuration and what the session is set up with.
use vstd::prelude::*;

use crate::text::{decimal, decimal_of, parse_i64, parsed_i64};

verus! {

/// How the tracker is run: the account, the API credentials, and where
/// messages come from and go to.
#[derive(Debug, Clone)]
pub struct TelegramConfig {
    pub phone: String,
    pub telegram_api_id: String,
    pub telegram_api_hash: String,
    /// Whether messages sent from this account are printed too.
    pub print_outgoing: bool,
    /// The only chat whose messages are kept, if any.
    pub follow_channel: Option<i64>,
    /// The chat that notifications are sent to, if any.
    pub send_notifications_to_channel: Option<i64>,
}

/// The parameters that the session's library is started with.
#[derive(Debug, Clone)]
pub struct TdlibSettings {
    pub use_test_dc: bool,
    pub database_directory: String,
    pub use_message_database: bool,
    pub use_secret_chats: bool,
    pub api_id: i64,
    pub api_hash: String,
    pub system_language_code: String,
    pub device_model: String,
    pub system_version: String,
    pub application_version: String,
    pub enable_storage_optimizer: bool,
    pub use_chat_info_database: bool,
    pub files_directory: String,
}

/// A text message to be sent to a chat.
#[derive(Debug, Clone)]
pub struct TextMessageRequest {
    pub chat_id: i64,
    pub text: String,
    /// Whether the chat's draft is cleared when the message goes out.
    pub clear_draft: bool,
}

/// The version that the session reports for this application.
pub const APPLICATION_VERSION: &'static str = "0.1.6";

/// The prefix that turns a channel's public id into its chat id.
pub const CHANNEL_CHAT_PREFIX: &'static str = "-100";

/// The directory of the session's data, one per followed channel (0 when none).
pub open spec fn data_directory_of(follow_channel: Option<i64>) -> Seq<char> {
    "telegram_data-"@ + decimal_of(
        match follow_channel {
            Some(id) => id as int,
            None => 0,
        },
    )
}

/// Whether `s` holds the session parameters for these credentials and channel.
pub open spec fn is_settings_of(s: TdlibSettings, api_id: i64, api_hash: Seq<char>, follow_channel: Option<i64>) -> bool {
    &&& !s.use_test_dc
    &&& s.database_directory@ == data_directory_of(follow_channel)
    &&& !s.use_message_database
    &&& s.use_secret_chats
    &&& s.api_id == api_id
    &&& s.api_hash@ == api_hash
    &&& s.system_language_code@ == "en"@
    &&& s.device_model@ == "Android"@
    &&& s.system_version@ == "Unknown"@
    &&& s.application_version@ == APPLICATION_VERSION@
    &&& !s.enable_storage_optimizer
    &&& !s.use_chat_info_database
    &&& s.files_directory@ == data_directory_of(follow_channel) + "/files"@
}

/// Relies on `toolkit::number::as_i64`, which parses the text as an `i64`.
#[verifier::external_body]
fn api_id_number(s: &str) -> (r: Option<i64>)
    ensures
        r == parsed_i64(s@),
{
    toolkit::number::as_i64(s).ok()
}

/// The directory of the session's data for `follow_channel`.
pub fn data_directory(follow_channel: Option<i64>) -> (r: String)
    ensures
        r@ == data_directory_of(follow_channel),
{
    let id: i64 = match follow_channel {
        Some(id) => id,
        None => 0,
    };
    String::from_str("telegram_data-").concat(decimal(id).as_str())
}

/// The session parameters for the API credentials and the followed channel;
/// None where `api_id` is not a decimal `i64`.
pub fn tdlib_settings(api_id: &str, api_hash: &str, follow_channel: Option<i64>) -> (r: Option<TdlibSettings>)
    ensures
        r is Some <==> parsed_i64(api_id@) is Some,
        r matches Some(s) ==> is_settings_of(s, parsed_i64(api_id@)->0, api_hash@, follow_channel),
{
    match api_id_number(api_id) {
        None => None,
        Some(id) => {
            let dir = data_directory(follow_channel);
            let files = dir.clone().concat("/files");
            Some(TdlibSettings {
                use_test_dc: false,
                database_directory: dir,
                use_message_database: false,
                use_secret_chats: true,
                api_id: id,
                api_hash: String::from_str(api_hash),
                system_language_code: String::from_str("en"),
                device_model: String::from_str("Android"),
                system_version: String::from_str("Unknown"),
                application_version: String::from_str(APPLICATION_VERSION),
                enable_storage_optimizer: false,
                use_chat_info_database: false,
                files_directory: files,
            })
        },
    }
}

/// A text message for `chat_id` that clears the chat's draft.
pub fn text_request(chat_id: i64, text: &str) -> (r: TextMessageRequest)
    ensures
        r.chat_id == chat_id,
        r.text@ == text@,
        r.clear_draft,
{
    TextMessageRequest { chat_id, text: String::from_str(text), clear_draft: true }
}

/// The chat id of the channel with public id `id`: the number that "-100"
/// followed by `id` denotes; None where that is not a decimal `i64`.
pub fn follow_channel_chat_id(id: &str) -> (r: Option<i64>)
    ensures
        r == parsed_i64(CHANNEL_CHAT_PREFIX@ + id@),
{
    let full = String::from_str(CHANNEL_CHAT_PREFIX).concat(id);
    parse_i64(full.as_str())
}

impl TelegramConfig {
    /// The message that a notification with `text` becomes: one to the
    /// notification channel, or None where none is configured.
    pub fn notification_request(&self, text: &str) -> (r: Option<TextMessageRequest>)
        ensures
            r is Some <==> self.send_notifications_to_channel is Some,
            r matches Some(m) ==> m.chat_id == self.send_notifications_to_channel->0
                && m.text@ == text@ && m.clear_draft,
    {
        match self.send_notifications_to_channel {
            Some(chat_id) => Some(text_request(chat_id, text)),
            None => None,
        }
    }
}

} // verus!
