//! From the text of a frame to a message.

use crate::json::{as_text, item, json, json_as_str, json_item, parse_json, parsed, Json};
use crate::message::{Message, MessageKind, MessageView};
use crate::text::{opt_text, same_text, shared};
use crate::types::ChannelId;
use serde_json::Error as JsonError;
use serde_json::Value;
use std::sync::Arc;
use vstd::prelude::*;

verus! {

/// How messages are written on a socket.
#[derive(Debug, Clone, Copy, PartialEq, Eq, Structural)]
pub enum ConnFormat {
    Phoenix,
}

/// Why a text is no message.
#[derive(Debug)]
pub enum ParseError {
    Json { source: JsonError },
    MissingChannelId,
    MissingEvent,
}

/// Why a text is no message, without the details.
pub enum Refusal {
    Json,
    MissingChannelId,
    MissingEvent,
}

impl View for ParseError {
    type V = Refusal;

    open spec fn view(&self) -> Refusal {
        match *self {
            ParseError::Json { .. } => Refusal::Json,
            ParseError::MissingChannelId => Refusal::MissingChannelId,
            ParseError::MissingEvent => Refusal::MissingEvent,
        }
    }
}

impl From<JsonError> for ParseError {
    fn from(source: JsonError) -> (error: Self) {
        ParseError::Json { source }
    }
}

impl vstd::std_specs::convert::FromSpecImpl<JsonError> for ParseError {
    open spec fn obeys_from_spec() -> bool {
        true
    }

    open spec fn from_spec(source: JsonError) -> Self {
        ParseError::Json { source }
    }
}

/// What a message with an event is for.
pub open spec fn kind_of(event: Seq<char>) -> MessageKind {
    if event == "join"@ || event == "phx_join"@ {
        MessageKind::JoinRequest
    } else if event == "heartbeat"@ {
        MessageKind::Heartbeat
    } else {
        MessageKind::Event
    }
}

/// The message in a JSON value: an array of the join reference, the message reference, the
/// channel, the event and the payload. A reference that is no string is none; a channel or
/// an event that is no string is missing; a payload that is not there is `null`.
pub open spec fn message_in(value: Json) -> Result<MessageView, Refusal> {
    match (as_text(item(value, 2)), as_text(item(value, 3))) {
        (Some(channel_id), Some(event)) => Ok(
            MessageView {
                kind: kind_of(event),
                channel_id,
                msg_ref: as_text(item(value, 1)),
                join_ref: as_text(item(value, 0)),
                payload: item(value, 4),
                event,
                channel_sender: None,
            },
        ),
        (Some(_), None) => Err(Refusal::MissingEvent),
        (None, _) => Err(Refusal::MissingChannelId),
    }
}

/// The message that a text is.
pub open spec fn message_from(text: Seq<char>) -> Result<MessageView, Refusal> {
    match parsed(text) {
        Some(value) => message_in(value),
        None => Err(Refusal::Json),
    }
}

/// What became of reading a message.
pub open spec fn read_view(result: Result<Message, ParseError>) -> Result<MessageView, Refusal> {
    match result {
        Ok(message) => Ok(message@),
        Err(error) => Err(error@),
    }
}

/// Reads messages as Phoenix clients write them.
pub struct PhoenixParser;

impl PhoenixParser {
    /// The message that a text is.
    pub fn from_str(input: &str) -> (result: Result<Message, ParseError>)
        ensures
            read_view(result) == message_from(input@),
    {
        match parse_json(input) {
            Ok(value) => Self::from_value(&value),
            Err(source) => Err(ParseError::from(source)),
        }
    }

    /// The message in a JSON value.
    pub fn from_value(value: &Value) -> (result: Result<Message, ParseError>)
        ensures
            read_view(result) == message_in(json(*value)),
    {
        let join_ref = Self::reference(json_item(value, 0));
        let msg_ref = Self::reference(json_item(value, 1));
        let channel_id = match json_as_str(json_item(value, 2)) {
            Some(text) => ChannelId::from(text),
            None => {
                return Err(ParseError::MissingChannelId);
            },
        };
        let event = match json_as_str(json_item(value, 3)) {
            Some(text) => shared(text),
            None => {
                return Err(ParseError::MissingEvent);
            },
        };
        let payload = json_item(value, 4).clone();
        let kind = if same_text(&*event, "join") || same_text(&*event, "phx_join") {
            MessageKind::JoinRequest
        } else if same_text(&*event, "heartbeat") {
            MessageKind::Heartbeat
        } else {
            MessageKind::Event
        };
        Ok(Message { kind, join_ref, msg_ref, channel_id, event, payload, channel_sender: None })
    }

    fn reference(value: &Value) -> (reference: Option<Arc<str>>)
        ensures
            opt_text(reference) == as_text(json(*value)),
    {
        match json_as_str(value) {
            Some(text) => Some(shared(text)),
            None => None,
        }
    }
}

/// The message that a text is, in the given format.
pub fn parse_message(message: &str, format: &ConnFormat) -> (result: Result<Message, ParseError>)
    ensures
        match *format {
            ConnFormat::Phoenix => read_view(result) == message_from(message@),
        },
{
    match *format {
        ConnFormat::Phoenix => PhoenixParser::from_str(message),
    }
}

} // verus!
