use telegram_tracker::config::{data_directory, follow_channel_chat_id, tdlib_settings, text_request};
use telegram_tracker::events::{
    error_action, is_followed_chat, marked_message, stdin_line_message, stdin_line_request,
};
use telegram_tracker::{ErrorAction, TelegramConfig};

#[test]
fn data_directory_names_the_channel() {
    assert_eq!(data_directory(None), "telegram_data-0");
    assert_eq!(data_directory(Some(-1001234)), "telegram_data--1001234");
}

#[test]
fn settings_from_credentials() {
    let s = tdlib_settings("12345", "hash", Some(7)).unwrap();
    assert_eq!(s.api_id, 12345);
    assert_eq!(s.api_hash, "hash");
    assert_eq!(s.database_directory, "telegram_data-7");
    assert_eq!(s.files_directory, "telegram_data-7/files");
    assert_eq!(s.system_language_code, "en");
    assert_eq!(s.device_model, "Android");
    assert_eq!(s.system_version, "Unknown");
    assert_eq!(s.application_version, "0.1.6");
    assert!(!s.use_test_dc);
    assert!(s.use_secret_chats);
    assert!(!s.use_message_database);
    assert!(!s.enable_storage_optimizer);
    assert!(!s.use_chat_info_database);
}

#[test]
fn settings_refuse_a_non_numeric_api_id() {
    assert!(tdlib_settings("12a", "hash", None).is_none());
    assert!(tdlib_settings("", "hash", None).is_none());
    assert!(tdlib_settings("99999999999999999999", "hash", None).is_none());
    assert_eq!(tdlib_settings("-3", "h", None).unwrap().api_id, -3);
}

#[test]
fn channel_id_gets_the_channel_prefix() {
    assert_eq!(follow_channel_chat_id("1234"), Some(-1001234));
    assert_eq!(follow_channel_chat_id("x"), None);
    assert_eq!(follow_channel_chat_id("-1"), None);
}

#[test]
fn errors_are_answered_by_code_and_message() {
    assert_eq!(error_action(8, "anything"), ErrorAction::RetypePhoneNumber);
    assert_eq!(error_action(400, "PHONE_NUMBER_INVALID"), ErrorAction::PhoneNumberInvalid);
    assert_eq!(error_action(400, "PHONE_CODE_INVALID"), ErrorAction::PhoneCodeInvalid);
    assert_eq!(error_action(400, "PHONE_CODE_EMPTY"), ErrorAction::PhoneCodeInvalid);
    assert_eq!(error_action(400, "OTHER"), ErrorAction::Ignore);
    assert_eq!(error_action(429, "Too Many Requests: retry after 10"), ErrorAction::WaitTooManyRequests);
    assert_eq!(error_action(3, "Chat not found"), ErrorAction::RefreshChats);
    assert_eq!(error_action(500, "x"), ErrorAction::Unknown);
}

#[test]
fn only_the_followed_chat_is_opened() {
    assert!(is_followed_chat(Some(3), 3));
    assert!(!is_followed_chat(Some(3), 4));
    assert!(!is_followed_chat(None, 3));
}

#[test]
fn marked_lines_lose_every_marker() {
    assert_eq!(marked_message("TELEGRAM BOT<<<hello"), Some("hello".to_string()));
    assert_eq!(
        marked_message("TELEGRAM BOT<<<a TELEGRAM BOT<<<b"),
        Some("a b".to_string())
    );
    assert_eq!(marked_message("hello TELEGRAM BOT<<<"), None);
    assert_eq!(marked_message(""), None);
}

#[test]
fn input_lines_are_trimmed_first() {
    assert_eq!(stdin_line_message("   TELEGRAM BOT<<<hi there \n"), Some("hi there".to_string()));
    assert_eq!(stdin_line_message("  plain"), None);
    let r = stdin_line_request(-1005, "\tTELEGRAM BOT<<<ping").unwrap();
    assert_eq!(r.chat_id, -1005);
    assert_eq!(r.text, "ping");
    assert!(r.clear_draft);
    assert!(stdin_line_request(-1005, "ping").is_none());
}

#[test]
fn notifications_go_to_the_configured_channel() {
    let mut config = TelegramConfig {
        phone: "+100".to_string(),
        telegram_api_id: "1".to_string(),
        telegram_api_hash: "h".to_string(),
        print_outgoing: false,
        follow_channel: None,
        send_notifications_to_channel: Some(-42),
    };
    let r = config.notification_request("note").unwrap();
    assert_eq!(r.chat_id, -42);
    assert_eq!(r.text, "note");
    assert!(r.clear_draft);
    config.send_notifications_to_channel = None;
    assert!(config.notification_request("note").is_none());
    let t = text_request(9, "x");
    assert_eq!((t.chat_id, t.text.as_str(), t.clear_draft), (9, "x", true));
}
