//! Envelopes from the message source, the choice of their canonical payload,
//! and the origin channel that a payload names.
use vstd::prelude::*;

use crate::decimal::{i64_of, parse_i64};

verus! {

/// One update from the message source. Each slot holds the raw JSON text of
/// the message as captured under one circumstance.
pub struct Envelope {
    pub id: i64,
    pub message: Option<String>,
    pub edited_message: Option<String>,
    pub channel_post: Option<String>,
    pub edited_channel_post: Option<String>,
}

/// The first present slot, in the order channel post, edited channel post,
/// message, edited message.
pub open spec fn canonical(e: Envelope) -> Option<String> {
    if e.channel_post is Some {
        e.channel_post
    } else if e.edited_channel_post is Some {
        e.edited_channel_post
    } else if e.message is Some {
        e.message
    } else {
        e.edited_message
    }
}

fn copy_slot(slot: &Option<String>) -> (r: Option<String>)
    ensures
        r == *slot,
{
    match slot {
        Some(s) => Some(s.clone()),
        None => None,
    }
}

/// The canonical payload of an envelope, if any slot is present.
pub fn primary_message(update: &Envelope) -> (r: Option<String>)
    ensures
        r == canonical(*update),
{
    if update.channel_post.is_some() {
        copy_slot(&update.channel_post)
    } else if update.edited_channel_post.is_some() {
        copy_slot(&update.edited_channel_post)
    } else if update.message.is_some() {
        copy_slot(&update.message)
    } else {
        copy_slot(&update.edited_message)
    }
}

/// The value found at `chat.id` of a JSON document, as far as the channel
/// logic reads it.
pub enum ChatIdField {
    /// A JSON number, with its value when it is an integer that fits `i64`.
    Number(Option<i64>),
    /// A JSON string.
    Text(String),
    /// Absent, another kind of value, or a document that does not parse.
    Other,
}

pub enum ChatIdFieldView {
    Number(Option<i64>),
    Text(Seq<char>),
    Other,
}

impl View for ChatIdField {
    type V = ChatIdFieldView;

    open spec fn view(&self) -> ChatIdFieldView {
        match self {
            ChatIdField::Number(n) => ChatIdFieldView::Number(*n),
            ChatIdField::Text(s) => ChatIdFieldView::Text(s@),
            ChatIdField::Other => ChatIdFieldView::Other,
        }
    }
}

/// What JSON parsing finds at `chat.id` of the document `raw`.
pub uninterp spec fn chat_id_field_of(raw: Seq<char>) -> ChatIdFieldView;

/// Relies on serde_json::from_str to parse `raw` as a JSON value, on
/// Value::get to look up `chat` and then `id`, and on Number::as_i64 to read
/// a number; the result depends on the text alone.
#[verifier::external_body]
fn read_chat_id(raw: &str) -> (r: ChatIdField)
    ensures
        r@ == chat_id_field_of(raw@),
{
    let parsed: Option<serde_json::Value> = serde_json::from_str(raw).ok();
    match parsed.as_ref().and_then(|v| v.get("chat")).and_then(|c| c.get("id")) {
        Some(serde_json::Value::Number(n)) => ChatIdField::Number(n.as_i64()),
        Some(serde_json::Value::String(s)) => ChatIdField::Text(s.clone()),
        _ => ChatIdField::Other,
    }
}

/// The channel identifier that a field denotes: an integer number, or a
/// string that reads as a decimal integer.
pub open spec fn channel_id_of(f: ChatIdFieldView) -> Option<i64> {
    match f {
        ChatIdFieldView::Number(n) => n,
        ChatIdFieldView::Text(s) => i64_of(s),
        ChatIdFieldView::Other => None,
    }
}

/// Reads a channel identifier from a native integer or a numeric string.
pub fn parse_channel_id(value: &ChatIdField) -> (r: Option<i64>)
    ensures
        r == channel_id_of(value@),
{
    match value {
        ChatIdField::Number(n) => *n,
        ChatIdField::Text(s) => parse_i64(s.as_str()),
        ChatIdField::Other => None,
    }
}

/// The origin channel of a raw payload; `None` when it is absent or unreadable.
pub fn message_chat_id(raw: &str) -> (r: Option<i64>)
    ensures
        r == channel_id_of(chat_id_field_of(raw@)),
{
    let field = read_chat_id(raw);
    parse_channel_id(&field)
}

/// The configured target channel is missing or not an integer.
pub enum ConfigError {
    InvalidChannelId,
}

/// Reads the configured target channel; an unreadable value is an error.
pub fn parse_channel_id_conf(value: &ChatIdField) -> (r: Result<i64, ConfigError>)
    ensures
        r matches Ok(c) ==> channel_id_of(value@) == Some(c),
        r is Err <==> channel_id_of(value@) is None,
{
    match parse_channel_id(value) {
        Some(c) => Ok(c),
        None => Err(ConfigError::InvalidChannelId),
    }
}

/// An envelope is relevant when its canonical payload comes from `channel`.
pub open spec fn relevant(e: Envelope, channel: i64) -> bool {
    &&& canonical(e) is Some
    &&& channel_id_of(chat_id_field_of(canonical(e)->0@)) == Some(channel)
}

/// Whether the payload `raw` comes from `channel`.
pub fn payload_in_channel(raw: &str, channel: i64) -> (r: bool)
    ensures
        r == (channel_id_of(chat_id_field_of(raw@)) == Some(channel)),
{
    match message_chat_id(raw) {
        Some(c) => c == channel,
        None => false,
    }
}

/// Whether an envelope is relevant to the target channel.
pub fn is_relevant(update: &Envelope, channel: i64) -> (r: bool)
    ensures
        r == relevant(*update, channel),
{
    match primary_message(update) {
        Some(raw) => payload_in_channel(raw.as_str(), channel),
        None => false,
    }
}

} // verus!
