//! The messages that pass between sockets, channels and the registry, and the replies
//! that are written to a socket.

use crate::channel::{ContextView, MessageContext};
use crate::endpoint::{ChannelSender, MailboxSender};
use crate::json::{
    depth_limit, json, json_array, json_null, json_object, json_string, json_to_string, jsons,
    parsed, printed, reads_back, Json,
};
use crate::parser::{message_from, message_in};
use crate::text::{opt_text, share};
use crate::types::{ChannelId, Token};
use serde_json::Value;
use std::sync::Arc;
use vstd::prelude::*;

verus! {

/// What a message is for.
#[derive(Debug, Clone, Copy, PartialEq, Eq, Structural)]
pub enum MessageKind {
    Join,
    JoinRequest,
    DidJoin,
    Leave,
    Event,
    Broadcast,
    Heartbeat,
    BroadcastIntercept,
    /// A request and its response.
    Reply,
    /// A response only.
    Push,
    PresenceChange,
    BroadcastPresence,
    Closed,
}

/// The reference that a reply repeats. It is often shared and never changed.
pub type MsgRef = Arc<str>;

/// The reference of a join.
pub type JoinRef = Arc<str>;

/// The name of an event.
pub type Event = Arc<str>;

/// A message to or from a channel.
#[derive(Debug)]
pub struct Message {
    pub kind: MessageKind,
    pub channel_id: ChannelId,
    pub msg_ref: Option<MsgRef>,
    pub join_ref: Option<JoinRef>,
    pub payload: Value,
    pub event: Event,
    /// Where the channel takes messages; only a `DidJoin` carries it.
    pub channel_sender: Option<ChannelSender>,
}

/// What a message says.
#[verifier::ext_equal]
pub struct MessageView {
    pub kind: MessageKind,
    pub channel_id: Seq<char>,
    pub msg_ref: Option<Seq<char>>,
    pub join_ref: Option<Seq<char>>,
    pub payload: Json,
    pub event: Seq<char>,
    pub channel_sender: Option<ChannelSender>,
}

impl View for Message {
    type V = MessageView;

    open spec fn view(&self) -> MessageView {
        MessageView {
            kind: self.kind,
            channel_id: self.channel_id@,
            msg_ref: opt_text(self.msg_ref),
            join_ref: opt_text(self.join_ref),
            payload: json(self.payload),
            event: self.event@,
            channel_sender: self.channel_sender,
        }
    }
}

/// A message with nothing around it but its sender.
pub open spec fn decorated(message: MessageView, token: Token, reply_to: MailboxSender) -> ContextView {
    ContextView {
        token,
        inner: message,
        reply_to: Some(reply_to),
        ws_reply_to: None,
        broadcast: None,
        msg_ref: None,
    }
}

impl Message {
    /// The message in the context of the socket that sends it.
    pub fn decorate(self, token: Token, reply_to: MailboxSender) -> (context: MessageContext)
        ensures
            context@ == decorated(self@, token, reply_to),
            context.inner == self,
    {
        MessageContext {
            token,
            inner: self,
            reply_to: Some(reply_to),
            ws_reply_to: None,
            broadcast: None,
            msg_ref: None,
        }
    }
}

/// The channel that heartbeats are answered on.
pub fn phx_channel() -> (channel_id: ChannelId)
    ensures
        channel_id@ == "phoenix"@,
{
    ChannelId::new("phoenix")
}

/// What is written to a socket, or broadcast to the sockets of a channel.
#[derive(Debug)]
pub enum MessageReply {
    Reply(String),
    Broadcast { event: Event, payload: Value, channel_id: ChannelId },
    Pong(Vec<u8>),
    Event { event: Event, payload: Value, channel_id: ChannelId },
    Heartbeat { msg_ref: MsgRef },
    Join { msg_ref: MsgRef, channel_id: ChannelId },
    BroadcastIntercept { channel_id: ChannelId, event: Event, payload: Value },
    Push { channel_id: ChannelId, event: Event, payload: Value },
}

/// What a reply says.
#[verifier::ext_equal]
pub enum ReplyView {
    Reply(Seq<char>),
    Broadcast { event: Seq<char>, payload: Json, channel_id: Seq<char> },
    Pong(Seq<u8>),
    Event { event: Seq<char>, payload: Json, channel_id: Seq<char> },
    Heartbeat { msg_ref: Seq<char> },
    Join { msg_ref: Seq<char>, channel_id: Seq<char> },
    BroadcastIntercept { channel_id: Seq<char>, event: Seq<char>, payload: Json },
    Push { channel_id: Seq<char>, event: Seq<char>, payload: Json },
}

impl View for MessageReply {
    type V = ReplyView;

    open spec fn view(&self) -> ReplyView {
        match *self {
            MessageReply::Reply(text) => ReplyView::Reply(text@),
            MessageReply::Broadcast { event, payload, channel_id } => ReplyView::Broadcast {
                event: event@,
                payload: json(payload),
                channel_id: channel_id@,
            },
            MessageReply::Pong(data) => ReplyView::Pong(data@),
            MessageReply::Event { event, payload, channel_id } => ReplyView::Event {
                event: event@,
                payload: json(payload),
                channel_id: channel_id@,
            },
            MessageReply::Heartbeat { msg_ref } => ReplyView::Heartbeat { msg_ref: msg_ref@ },
            MessageReply::Join { msg_ref, channel_id } => ReplyView::Join {
                msg_ref: msg_ref@,
                channel_id: channel_id@,
            },
            MessageReply::BroadcastIntercept { channel_id, event, payload } =>
                ReplyView::BroadcastIntercept {
                channel_id: channel_id@,
                event: event@,
                payload: json(payload),
            },
            MessageReply::Push { channel_id, event, payload } => ReplyView::Push {
                channel_id: channel_id@,
                event: event@,
                payload: json(payload),
            },
        }
    }
}

impl Clone for MessageReply {
    fn clone(&self) -> (other: Self)
        ensures
            other@ == self@,
    {
        match self {
            MessageReply::Reply(text) => MessageReply::Reply(text.clone()),
            MessageReply::Broadcast { event, payload, channel_id } => MessageReply::Broadcast {
                event: share(event),
                payload: payload.clone(),
                channel_id: channel_id.clone(),
            },
            MessageReply::Pong(data) => {
                let copy = data.clone();
                assert(copy@ =~= data@);
                MessageReply::Pong(copy)
            },
            MessageReply::Event { event, payload, channel_id } => MessageReply::Event {
                event: share(event),
                payload: payload.clone(),
                channel_id: channel_id.clone(),
            },
            MessageReply::Heartbeat { msg_ref } => MessageReply::Heartbeat {
                msg_ref: share(msg_ref),
            },
            MessageReply::Join { msg_ref, channel_id } => MessageReply::Join {
                msg_ref: share(msg_ref),
                channel_id: channel_id.clone(),
            },
            MessageReply::BroadcastIntercept { channel_id, event, payload } =>
                MessageReply::BroadcastIntercept {
                channel_id: channel_id.clone(),
                event: share(event),
                payload: payload.clone(),
            },
            MessageReply::Push { channel_id, event, payload } => MessageReply::Push {
                channel_id: channel_id.clone(),
                event: share(event),
                payload: payload.clone(),
            },
        }
    }
}

/// A message that is not for every socket of a channel.
#[derive(Debug, Clone, Copy, PartialEq, Eq, Structural)]
pub struct NotBroadcast {
    pub kind: MessageKind,
}

/// The reply that a message for every socket of a channel becomes.
pub open spec fn broadcast_reply(message: MessageView) -> Option<ReplyView> {
    match message.kind {
        MessageKind::Broadcast => Some(
            ReplyView::Broadcast {
                event: message.event,
                payload: message.payload,
                channel_id: message.channel_id,
            },
        ),
        MessageKind::BroadcastIntercept => Some(
            ReplyView::BroadcastIntercept {
                channel_id: message.channel_id,
                event: message.event,
                payload: message.payload,
            },
        ),
        _ => None,
    }
}

impl TryFrom<Message> for MessageReply {
    type Error = NotBroadcast;

    fn try_from(msg: Message) -> (reply: Result<Self, Self::Error>)
        ensures
            match reply {
                Ok(r) => broadcast_reply(msg@) == Some(r@),
                Err(e) => broadcast_reply(msg@) is None && e.kind == msg.kind,
            },
    {
        match msg.kind {
            MessageKind::Broadcast => Ok(
                MessageReply::Broadcast {
                    event: msg.event,
                    payload: msg.payload,
                    channel_id: msg.channel_id,
                },
            ),
            MessageKind::BroadcastIntercept => Ok(
                MessageReply::BroadcastIntercept {
                    channel_id: msg.channel_id,
                    event: msg.event,
                    payload: msg.payload,
                },
            ),
            kind => Err(NotBroadcast { kind }),
        }
    }
}

impl vstd::std_specs::convert::TryFromSpecImpl<Message> for MessageReply {
    /// What `try_from` returns is said by its own `ensures`.
    open spec fn obeys_try_from_spec() -> bool {
        false
    }

    open spec fn try_from_spec(msg: Message) -> Result<Self, Self::Error> {
        arbitrary()
    }
}

impl MessageReply {
    /// Whether this is a reply that is written as it stands.
    pub fn is_reply(&self) -> (result: bool)
        ensures
            result == (self is Reply),
    {
        matches!(self, MessageReply::Reply(..))
    }

    /// Whether this is for every socket of a channel.
    pub fn is_broadcast(&self) -> (result: bool)
        ensures
            result == (self is Broadcast),
    {
        matches!(self, MessageReply::Broadcast { .. })
    }
}

/// What a websocket carries.
#[derive(Debug)]
pub enum Frame {
    Text(String),
    Binary(Vec<u8>),
    Ping(Vec<u8>),
    Pong(Vec<u8>),
    Close,
}

/// What a frame holds.
#[verifier::ext_equal]
pub enum FrameView {
    Text(Seq<char>),
    Binary(Seq<u8>),
    Ping(Seq<u8>),
    Pong(Seq<u8>),
    Close,
}

impl View for Frame {
    type V = FrameView;

    open spec fn view(&self) -> FrameView {
        match *self {
            Frame::Text(text) => FrameView::Text(text@),
            Frame::Binary(data) => FrameView::Binary(data@),
            Frame::Ping(data) => FrameView::Ping(data@),
            Frame::Pong(data) => FrameView::Pong(data@),
            Frame::Close => FrameView::Close,
        }
    }
}

/// An optional text as JSON: a string, or `null`.
pub open spec fn opt_json(text: Option<Seq<char>>) -> Json {
    match text {
        Some(t) => Json::String(t),
        None => Json::Null,
    }
}

/// The five fields of a frame: the join reference, the message reference, the channel,
/// the event and the payload.
pub open spec fn frame_json(
    join_ref: Option<Seq<char>>,
    msg_ref: Option<Seq<char>>,
    channel_id: Seq<char>,
    event: Seq<char>,
    payload: Json,
) -> Json {
    Json::Array(
        seq![
            opt_json(join_ref),
            opt_json(msg_ref),
            Json::String(channel_id),
            Json::String(event),
            payload,
        ],
    )
}

/// The payload of a reply that confirms: the status `ok` and an empty response.
pub open spec fn ok_json() -> Json {
    Json::Object(
        Map::<Seq<char>, Json>::empty().insert(
            "response"@,
            Json::Object(Map::<Seq<char>, Json>::empty()),
        ).insert("status"@, Json::String("ok"@)),
    )
}

/// The fields that a reply is written with, where it is written as JSON.
pub open spec fn reply_json(reply: ReplyView) -> Option<Json> {
    match reply {
        ReplyView::Broadcast { event, payload, channel_id } => Some(
            frame_json(None, None, channel_id, event, payload),
        ),
        ReplyView::Event { event, payload, channel_id } => Some(
            frame_json(None, None, channel_id, event, payload),
        ),
        ReplyView::Push { channel_id, event, payload } => Some(
            frame_json(None, None, channel_id, event, payload),
        ),
        ReplyView::Heartbeat { msg_ref } => Some(
            frame_json(None, Some(msg_ref), "phoenix"@, "phx_reply"@, ok_json()),
        ),
        ReplyView::Join { msg_ref, channel_id } => Some(
            frame_json(None, Some(msg_ref), channel_id, "phx_reply"@, ok_json()),
        ),
        ReplyView::Reply(_) => None,
        ReplyView::Pong(_) => None,
        ReplyView::BroadcastIntercept { .. } => None,
    }
}

/// The frame that a reply is written as. An intercept is for the channel's own hands and
/// has no frame.
pub open spec fn reply_frame(reply: ReplyView) -> Option<FrameView> {
    match reply {
        ReplyView::Reply(text) => Some(FrameView::Text(text)),
        ReplyView::Pong(data) => Some(FrameView::Pong(data)),
        _ => match reply_json(reply) {
            Some(fields) => Some(FrameView::Text(printed(fields))),
            None => None,
        },
    }
}

fn opt_value(text: Option<&str>) -> (value: Value)
    ensures
        json(value) == opt_json(
            match text {
                Some(t) => Some(t@),
                None => None,
            },
        ),
{
    match text {
        Some(t) => json_string(t),
        None => json_null(),
    }
}

fn ok_value() -> (value: Value)
    ensures
        json(value) == ok_json(),
{
    let none: Vec<(String, Value)> = Vec::new();
    let response = json_object(none);
    assert(json(response)->Object_0 =~= Map::<Seq<char>, Json>::empty());
    let mut entries: Vec<(String, Value)> = Vec::new();
    entries.push(("response".to_owned(), response));
    entries.push(("status".to_owned(), json_string("ok")));
    let ghost given = entries@;
    let value = json_object(entries);
    proof {
        reveal_strlit("response");
        reveal_strlit("status");
        assert("response"@.len() != "status"@.len());
        assert(given[0].0@ == "response"@ && given[1].0@ == "status"@);
        assert(json(value)->Object_0 =~= ok_json()->Object_0);
    }
    value
}

/// The text of a frame with the given fields; no reply has a join reference.
fn frame_text(msg_ref: Option<&str>, channel_id: &str, event: &str, payload: Value) -> (text: String)
    ensures
        text@ == printed(
            frame_json(
                None,
                match msg_ref {
                    Some(r) => Some(r@),
                    None => None,
                },
                channel_id@,
                event@,
                json(payload),
            ),
        ),
        ({
            let fields = frame_json(
                None,
                match msg_ref {
                    Some(r) => Some(r@),
                    None => None,
                },
                channel_id@,
                event@,
                json(payload),
            );
            reads_back(fields, depth_limit()) ==> parsed(text@) == Some(fields)
        }),
{
    let mut fields: Vec<Value> = Vec::new();
    fields.push(json_null());
    fields.push(opt_value(msg_ref));
    fields.push(json_string(channel_id));
    fields.push(json_string(event));
    fields.push(payload);
    proof {
        let ghost msg_ref = match msg_ref {
            Some(r) => Some(r@),
            None => None,
        };
        let ghost expected = frame_json(None, msg_ref, channel_id@, event@, json(payload));
        assert(jsons(fields@) =~= expected->Array_0);
    }
    let value = json_array(fields);
    json_to_string(&value)
}

impl Frame {
    /// The frame that a reply is written as.
    pub fn from_reply(msg: MessageReply) -> (frame: Self)
        requires
            !(msg is BroadcastIntercept),
        ensures
            reply_frame(msg@) == Some(frame@),
            reply_json(msg@) matches Some(fields) ==> frame@ matches FrameView::Text(text) && (
            reads_back(fields, depth_limit()) ==> parsed(text) == Some(fields) && message_from(text)
                == message_in(fields)),
    {
        match msg {
            MessageReply::Reply(text) => Frame::Text(text),
            MessageReply::Broadcast { event, payload, channel_id } => Frame::Text(
                frame_text(None, channel_id.id(), &*event, payload),
            ),
            MessageReply::Pong(data) => Frame::Pong(data),
            MessageReply::Heartbeat { msg_ref } => Frame::Text(
                frame_text(Some(&*msg_ref), phx_channel().id(), "phx_reply", ok_value()),
            ),
            MessageReply::Join { msg_ref, channel_id } => Frame::Text(
                frame_text(Some(&*msg_ref), channel_id.id(), "phx_reply", ok_value()),
            ),
            MessageReply::Event { event, payload, channel_id } => Frame::Text(
                frame_text(None, channel_id.id(), &*event, payload),
            ),
            MessageReply::Push { event, payload, channel_id } => Frame::Text(
                frame_text(None, channel_id.id(), &*event, payload),
            ),
            MessageReply::BroadcastIntercept { .. } => {
                assert(false);
                Frame::Close
            },
        }
    }
}

} // verus!
