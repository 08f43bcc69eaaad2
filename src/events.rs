//! The decisions taken on the session's events: how an error is answered,
//! which chats are opened, and which lines of input are sent on.
use vstd::prelude::*;

use crate::config::{text_request, TextMessageRequest};
use crate::text::{replace_all, replaced, starts_with, trim, trimmed_of};

verus! {

/// What is done about an error that the session reports.
#[derive(Debug, Clone, Copy, PartialEq, Eq, Structural)]
pub enum ErrorAction {
    /// The phone number is asked for again.
    RetypePhoneNumber,
    /// The phone number was refused: a valid one is asked for.
    PhoneNumberInvalid,
    /// The authentication code was refused or empty: it is asked for again.
    PhoneCodeInvalid,
    /// Nothing is done.
    Ignore,
    /// Too many requests: wait, then ask for the phone number again.
    WaitTooManyRequests,
    /// A chat was not found: the list of chats is fetched again.
    RefreshChats,
    /// An error this tracker does not know: it is reported.
    Unknown,
}

/// The answer to the error with `code` and `message`.
pub open spec fn error_action_of(code: i64, message: Seq<char>) -> ErrorAction {
    if code == 8 {
        ErrorAction::RetypePhoneNumber
    } else if code == 400 {
        if message == "PHONE_NUMBER_INVALID"@ {
            ErrorAction::PhoneNumberInvalid
        } else if message == "PHONE_CODE_INVALID"@ || message == "PHONE_CODE_EMPTY"@ {
            ErrorAction::PhoneCodeInvalid
        } else {
            ErrorAction::Ignore
        }
    } else if code == 429 {
        ErrorAction::WaitTooManyRequests
    } else if code == 3 {
        ErrorAction::RefreshChats
    } else {
        ErrorAction::Unknown
    }
}

/// The marker that a line of input starts with when it is to be sent on.
pub const STDIN_MARKER: &'static str = "TELEGRAM BOT<<<";

/// The text that a trimmed line of input sends: the line without any marker,
/// where it starts with the marker; else nothing.
pub open spec fn marked_text(t: Seq<char>) -> Option<Seq<char>> {
    if STDIN_MARKER@.is_prefix_of(t) {
        Some(replaced(t, STDIN_MARKER@, Seq::empty()))
    } else {
        None
    }
}

/// Whether a new chat with `chat_id` is the followed channel.
pub open spec fn is_followed(follow_channel: Option<i64>, chat_id: i64) -> bool {
    follow_channel == Some(chat_id)
}

/// The answer to the error with `code` and `message`.
pub fn error_action(code: i64, message: &str) -> (r: ErrorAction)
    ensures
        r == error_action_of(code, message@),
{
    if code == 8 {
        ErrorAction::RetypePhoneNumber
    } else if code == 400 {
        let m = String::from_str(message);
        if m.eq(&String::from_str("PHONE_NUMBER_INVALID")) {
            ErrorAction::PhoneNumberInvalid
        } else if m.eq(&String::from_str("PHONE_CODE_INVALID")) || m.eq(
            &String::from_str("PHONE_CODE_EMPTY"),
        ) {
            ErrorAction::PhoneCodeInvalid
        } else {
            ErrorAction::Ignore
        }
    } else if code == 429 {
        ErrorAction::WaitTooManyRequests
    } else if code == 3 {
        ErrorAction::RefreshChats
    } else {
        ErrorAction::Unknown
    }
}

/// Whether a new chat with `chat_id` is the followed channel, to be opened.
pub fn is_followed_chat(follow_channel: Option<i64>, chat_id: i64) -> (r: bool)
    ensures
        r == is_followed(follow_channel, chat_id),
{
    match follow_channel {
        Some(id) => id == chat_id,
        None => false,
    }
}

/// The text that an already trimmed line of input sends, if any.
pub fn marked_message(trimmed: &str) -> (r: Option<String>)
    ensures
        match marked_text(trimmed@) {
            Some(t) => r matches Some(s) && s@ == t,
            None => r is None,
        },
{
    if starts_with(trimmed, STDIN_MARKER) {
        proof {
            reveal_strlit("TELEGRAM BOT<<<");
            reveal_strlit("");
            assert(""@ =~= Seq::<char>::empty());
        }
        Some(replace_all(trimmed, STDIN_MARKER, ""))
    } else {
        None
    }
}

/// The text that a line of input sends once trimmed, if any.
pub fn stdin_line_message(line: &str) -> (r: Option<String>)
    ensures
        match marked_text(trimmed_of(line@)) {
            Some(t) => r matches Some(s) && s@ == t,
            None => r is None,
        },
{
    let trimmed = trim(line);
    marked_message(trimmed.as_str())
}

/// The message that a line of input sends to `chat_id`, if any.
pub fn stdin_line_request(chat_id: i64, line: &str) -> (r: Option<TextMessageRequest>)
    ensures
        match marked_text(trimmed_of(line@)) {
            Some(t) => r matches Some(m) && m.chat_id == chat_id && m.text@ == t && m.clear_draft,
            None => r is None,
        },
{
    match stdin_line_message(line) {
        Some(text) => Some(text_request(chat_id, text.as_str())),
        None => None,
    }
}

} // verus!
