//! Incoming messages: which ones are kept, the record made of each, and the
//! line printed for it.
use vstd::prelude::*;

use crate::text::{decimal, decimal_of, lower_of, lowercase, replace_all, replaced};

verus! {

/// Who sent a message.
#[derive(Debug, Clone)]
pub enum MessageSender {
    /// A sender of a kind this library does not know.
    Unknown,
    /// A chat that posted the message.
    Chat(i64),
    /// A user who wrote the message.
    User(i64),
}

/// What a message carries, as far as its text is concerned.
#[derive(Debug, Clone)]
pub enum MessageContent {
    /// A text message.
    Text(String),
    /// A video, with its caption.
    Video(String),
    /// A photo, with its caption.
    Photo(String),
    /// A document, with its caption.
    Document(String),
    /// Any other content, which has no text of interest.
    Other,
}

/// A message as the session delivers it.
#[derive(Debug, Clone)]
pub struct IncomingMessage {
    pub chat_id: i64,
    pub id: i64,
    /// When it was sent, in seconds since the Unix epoch (UTC).
    pub date: i64,
    pub is_outgoing: bool,
    pub sender: MessageSender,
    pub content: MessageContent,
}

/// The record kept of a message that passed the filter.
#[derive(Debug, Clone)]
pub struct TelegramMessage {
    /// The kind of update that brought the message.
    pub event_info: String,
    /// The message's text on a single line.
    pub msg_text: String,
    pub chat_id: i64,
    pub message_id: i64,
    pub sender_id: i64,
    /// When it was sent, in seconds since the Unix epoch (UTC).
    pub sent_datetime: i64,
}

/// The label of messages that arrive as new-message updates.
pub const NEW_MESSAGE_EVENT: &'static str = "on_update_new_message";

/// The text of a message: its body, or its caption for media, else nothing.
pub open spec fn content_text(c: MessageContent) -> Seq<char> {
    match c {
        MessageContent::Text(t) => t@,
        MessageContent::Video(t) => t@,
        MessageContent::Photo(t) => t@,
        MessageContent::Document(t) => t@,
        MessageContent::Other => Seq::empty(),
    }
}

/// The sender's id: the chat's or the user's, and -1 when unknown.
pub open spec fn sender_id_of(s: MessageSender) -> i64 {
    match s {
        MessageSender::Unknown => -1i64,
        MessageSender::Chat(id) => id,
        MessageSender::User(id) => id,
    }
}

/// A text made to fit one line: each line break becomes "; ".
pub open spec fn one_line(t: Seq<char>) -> Seq<char> {
    replaced(t, seq!['\n'], seq![';', ' '])
}

/// A record's text never holds a line break, so each record prints as a
/// single line.
pub proof fn lemma_one_line_has_no_line_break(t: Seq<char>)
    ensures
        forall|i: int| 0 <= i < one_line(t).len() ==> one_line(t)[i] != '\n',
    decreases t.len(),
{
    if t.len() > 0 {
        if seq!['\n'].is_prefix_of(t) {
            let rest = t.subrange(1, t.len() as int);
            lemma_one_line_has_no_line_break(rest);
            assert(one_line(t) == seq![';', ' '] + one_line(rest));
        } else {
            let rest = t.drop_first();
            lemma_one_line_has_no_line_break(rest);
            if t[0] == '\n' {
                assert(t.subrange(0, 1) =~= seq!['\n']);
            }
            assert(one_line(t) == seq![t[0]] + one_line(rest));
        }
    }
}

/// Whether the channel filter lets a message of `chat_id` through: with no
/// filter every chat passes, else only the followed one.
pub open spec fn passes_filter(only_channel_id: Option<i64>, chat_id: i64) -> bool {
    only_channel_id is None || only_channel_id == Some(chat_id)
}

/// Whether `r` is the record of `m` under the label `event_info`.
pub open spec fn is_record_of(r: TelegramMessage, event_info: Seq<char>, m: IncomingMessage) -> bool {
    &&& r.event_info@ == event_info
    &&& r.msg_text@ == one_line(content_text(m.content))
    &&& r.chat_id == m.chat_id
    &&& r.message_id == m.id
    &&& r.sender_id == sender_id_of(m.sender)
    &&& r.sent_datetime == m.date
}

/// Whether a new-message update with `m` is kept, given whether outgoing
/// messages are printed and which channel is followed.
pub open spec fn keeps_new_message(m: IncomingMessage, print_outgoing: bool, follow_channel: Option<i64>) -> bool {
    (!m.is_outgoing || print_outgoing) && passes_filter(follow_channel, m.chat_id)
}

/// The printed line of a record, given the text of its time.
pub open spec fn line_of(m: TelegramMessage, time: Seq<char>) -> Seq<char> {
    "### chat: "@ + decimal_of(m.chat_id as int) + ";sender_id: "@ + decimal_of(m.sender_id as int)
        + ";message_id: "@ + decimal_of(m.message_id as int) + ";time: \""@ + time
        + "\";event_info: "@ + m.event_info@ + "; msg:==> "@ + m.msg_text@
}

/// The RFC 3339 text of a Unix time, or None where the calendar cannot hold it.
pub uninterp spec fn rfc3339_of(secs: int) -> Option<Seq<char>>;

/// Relies on chrono's `DateTime::<Utc>::from_timestamp` (None out of range)
/// and `DateTime::to_rfc3339`: the text depends on the time alone.
#[verifier::external_body]
fn rfc3339_utc(secs: i64) -> (r: Option<String>)
    ensures
        match r {
            Some(t) => rfc3339_of(secs as int) == Some(t@),
            None => rfc3339_of(secs as int) is None,
        },
{
    chrono::DateTime::<chrono::Utc>::from_timestamp(secs, 0).map(|d| d.to_rfc3339())
}

impl MessageSender {
    /// The id that a record keeps of this sender.
    pub fn id(&self) -> (r: i64)
        ensures
            r == sender_id_of(*self),
    {
        match self {
            MessageSender::Unknown => -1,
            MessageSender::Chat(id) => *id,
            MessageSender::User(id) => *id,
        }
    }
}

impl MessageContent {
    /// The text of the content, on a single line.
    pub fn single_line_text(&self) -> (r: String)
        ensures
            r@ == one_line(content_text(*self)),
    {
        let text: &str = match self {
            MessageContent::Text(t) => t.as_str(),
            MessageContent::Video(t) => t.as_str(),
            MessageContent::Photo(t) => t.as_str(),
            MessageContent::Document(t) => t.as_str(),
            MessageContent::Other => "",
        };
        proof {
            reveal_strlit("");
            reveal_strlit("\n");
            reveal_strlit("; ");
            assert("\n"@ =~= seq!['\n']);
            assert("; "@ =~= seq![';', ' ']);
            assert(""@ =~= Seq::<char>::empty());
        }
        replace_all(text, "\n", "; ")
    }
}

impl TelegramMessage {
    /// The message's text in lower case.
    pub fn msg_lower_case(&self) -> (r: String)
        ensures
            r@ == lower_of(self.msg_text@),
    {
        lowercase(self.msg_text.as_str())
    }
}

/// Whether the channel filter lets a message of `chat_id` through.
pub fn follows_chat(only_channel_id: Option<i64>, chat_id: i64) -> (r: bool)
    ensures
        r == passes_filter(only_channel_id, chat_id),
{
    match only_channel_id {
        None => true,
        Some(id) => id == chat_id,
    }
}

/// The record of `message` under the label `event_info`, or None where the
/// channel filter `only_channel_id` leaves the message out.
pub fn on_new_message(event_info: String, message: &IncomingMessage, only_channel_id: Option<i64>) -> (r: Option<TelegramMessage>)
    ensures
        r is Some <==> passes_filter(only_channel_id, message.chat_id),
        r matches Some(rec) ==> is_record_of(rec, event_info@, *message),
{
    if follows_chat(only_channel_id, message.chat_id) {
        let msg_text = message.content.single_line_text();
        let sender_id = message.sender.id();
        Some(TelegramMessage {
            event_info,
            msg_text,
            chat_id: message.chat_id,
            message_id: message.id,
            sender_id,
            sent_datetime: message.date,
        })
    } else {
        None
    }
}

/// The record of a message that came as a new-message update, or None where
/// it is left out: an outgoing one while `print_outgoing` is off, or one of a
/// chat other than the followed channel.
pub fn on_update_new_message(message: &IncomingMessage, print_outgoing: bool, follow_channel: Option<i64>) -> (r: Option<TelegramMessage>)
    ensures
        r is Some <==> keeps_new_message(*message, print_outgoing, follow_channel),
        r matches Some(rec) ==> is_record_of(rec, NEW_MESSAGE_EVENT@, *message),
{
    if message.is_outgoing && !print_outgoing {
        None
    } else {
        on_new_message(String::from_str(NEW_MESSAGE_EVENT), message, follow_channel)
    }
}

/// The line printed for `msg`, with `time` as the text of its time.
pub fn message_line(msg: &TelegramMessage, time: &str) -> (r: String)
    ensures
        r@ == line_of(*msg, time@),
{
    let mut r = String::from_str("### chat: ");
    r.append(decimal(msg.chat_id).as_str());
    r.append(";sender_id: ");
    r.append(decimal(msg.sender_id).as_str());
    r.append(";message_id: ");
    r.append(decimal(msg.message_id).as_str());
    r.append(";time: \"");
    r.append(time);
    r.append("\";event_info: ");
    r.append(msg.event_info.as_str());
    r.append("; msg:==> ");
    r.append(msg.msg_text.as_str());
    r
}

/// The line printed for `msg`, its time in RFC 3339; None where the time lies
/// outside the calendar.
pub fn format_message_line(msg: &TelegramMessage) -> (r: Option<String>)
    ensures
        match rfc3339_of(msg.sent_datetime as int) {
            Some(t) => r matches Some(line) && line@ == line_of(*msg, t),
            None => r is None,
        },
{
    match rfc3339_utc(msg.sent_datetime) {
        Some(t) => Some(message_line(msg, t.as_str())),
        None => None,
    }
}

} // verus!
