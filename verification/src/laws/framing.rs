//! What is written and what is read.

use crate::conn::{
    acceptable, after_mailbox, mailbox_action, read_frame, ConnActionView, ConnView, IncomingView,
};
use crate::endpoint::SocketSender;
use crate::json::{depth_limit, printed, raw_key, reads_back, Json};
use crate::message::{
    broadcast_reply, frame_json, ok_json, reply_frame, reply_json, FrameView, MessageKind, MessageView, ReplyView,
};
use crate::parser::{kind_of, message_in, Refusal};
use vstd::prelude::*;

verus! {

/// The message with the given fields.
pub open spec fn framed(
    join_ref: Option<Seq<char>>,
    msg_ref: Option<Seq<char>>,
    channel_id: Seq<char>,
    event: Seq<char>,
    payload: Json,
) -> MessageView {
    MessageView {
        kind: kind_of(event),
        channel_id,
        msg_ref,
        join_ref,
        payload,
        event,
        channel_sender: None,
    }
}

/// What is written as the five fields of a frame is read as those five fields.
pub proof fn law_fields_read_back(
    join_ref: Option<Seq<char>>,
    msg_ref: Option<Seq<char>>,
    channel_id: Seq<char>,
    event: Seq<char>,
    payload: Json,
)
    ensures
        message_in(frame_json(join_ref, msg_ref, channel_id, event, payload)) == Ok::<
            MessageView,
            Refusal,
        >(framed(join_ref, msg_ref, channel_id, event, payload)),
{
}

/// The text of a frame with the given fields reads back, if its payload does.
proof fn lemma_frame_reads_back(
    msg_ref: Option<Seq<char>>,
    channel_id: Seq<char>,
    event: Seq<char>,
    payload: Json,
)
    requires
        reads_back(payload, (depth_limit() - 1) as nat),
    ensures
        reads_back(frame_json(None, msg_ref, channel_id, event, payload), depth_limit()),
{
    let fields = frame_json(None, msg_ref, channel_id, event, payload);
    let items = fields->Array_0;
    let depth = (depth_limit() - 1) as nat;
    assert forall|i: int| 0 <= i < items.len() implies reads_back(
        #[trigger] items[i],
        depth,
    ) by {
        if i == 4 {
            assert(items[i] == payload);
        }
    }
}

proof fn lemma_ok_reads_back()
    ensures
        reads_back(ok_json(), (depth_limit() - 1) as nat),
{
    reveal_with_fuel(reads_back, 3);
    reveal_strlit("response");
    reveal_strlit("status");
    reveal_strlit("$serde_json::private::RawValue");
    assert("response"@.len() != raw_key().len());
    assert("status"@.len() != raw_key().len());
}

/// The message that a client finds in what is written for a reply.
pub open spec fn read_as(reply: ReplyView) -> Option<MessageView> {
    match reply {
        ReplyView::Broadcast { event, payload, channel_id } => Some(
            framed(None, None, channel_id, event, payload),
        ),
        ReplyView::Event { event, payload, channel_id } => Some(
            framed(None, None, channel_id, event, payload),
        ),
        ReplyView::Push { channel_id, event, payload } => Some(
            framed(None, None, channel_id, event, payload),
        ),
        ReplyView::Heartbeat { msg_ref } => Some(
            framed(None, Some(msg_ref), "phoenix"@, "phx_reply"@, ok_json()),
        ),
        ReplyView::Join { msg_ref, channel_id } => Some(
            framed(None, Some(msg_ref), channel_id, "phx_reply"@, ok_json()),
        ),
        _ => None,
    }
}

/// A client that reads what is written for a reply finds the channel, the event and the
/// payload of the reply, and in a confirmation the reference of what is confirmed. Of
/// payloads this is said where they hold no fractions, no object in them has the one key
/// first that readers keep for themselves, and they are nested no deeper than readers follow.
pub proof fn law_reply_reads_back(reply: ReplyView)
    requires
        match reply {
            ReplyView::Broadcast { payload, .. } => reads_back(payload, (depth_limit() - 1) as nat),
            ReplyView::Event { payload, .. } => reads_back(payload, (depth_limit() - 1) as nat),
            ReplyView::Push { payload, .. } => reads_back(payload, (depth_limit() - 1) as nat),
            _ => true,
        },
    ensures
        match (reply_json(reply), read_as(reply)) {
            (Some(fields), Some(message)) => reads_back(fields, depth_limit()) && message_in(fields)
                == Ok::<MessageView, Refusal>(message),
            (None, None) => true,
            _ => false,
        },
{
    match reply {
        ReplyView::Broadcast { event, payload, channel_id } => {
            lemma_frame_reads_back(None, channel_id, event, payload);
        },
        ReplyView::Event { event, payload, channel_id } => {
            lemma_frame_reads_back(None, channel_id, event, payload);
        },
        ReplyView::Push { channel_id, event, payload } => {
            lemma_frame_reads_back(None, channel_id, event, payload);
        },
        ReplyView::Heartbeat { msg_ref } => {
            lemma_ok_reads_back();
            lemma_frame_reads_back(Some(msg_ref), "phoenix"@, "phx_reply"@, ok_json());
        },
        ReplyView::Join { msg_ref, channel_id } => {
            lemma_ok_reads_back();
            lemma_frame_reads_back(Some(msg_ref), channel_id, "phx_reply"@, ok_json());
        },
        _ => {},
    }
}

/// A client can ask to join, send a heartbeat or send an event. It can write no message that
/// the tasks send each other.
pub proof fn law_client_kinds(value: Json, message: MessageView)
    requires
        message_in(value) == Ok::<MessageView, Refusal>(message),
    ensures
        message.kind == MessageKind::JoinRequest || message.kind == MessageKind::Heartbeat
            || message.kind == MessageKind::Event,
        message.channel_sender is None,
{
}

/// A heartbeat with a reference is answered with that reference and changes nothing; one
/// without is not answered.
pub proof fn law_heartbeat_is_answered(
    conn: ConnView,
    join_ref: Option<Seq<char>>,
    msg_ref: Option<Seq<char>>,
    channel_id: Seq<char>,
    payload: Json,
    socket: SocketSender,
)
    ensures
        ({
            let message = framed(join_ref, msg_ref, channel_id, "heartbeat"@, payload);
            &&& acceptable(conn, message)
            &&& after_mailbox(conn, message) == conn
            &&& mailbox_action(conn, message, socket) == Some(
                match msg_ref {
                    Some(r) => ConnActionView::Reply(socket, ReplyView::Heartbeat { msg_ref: r }),
                    None => ConnActionView::Nothing,
                },
            )
            &&& msg_ref matches Some(r) ==> reply_json(ReplyView::Heartbeat { msg_ref: r })
                == Some(frame_json(None, msg_ref, "phoenix"@, "phx_reply"@, ok_json()))
        }),
{
    reveal_strlit("heartbeat");
    reveal_strlit("join");
    reveal_strlit("phx_join");
    assert("heartbeat"@.len() == 9);
    assert("join"@.len() == 4);
    assert("phx_join"@.len() == 8);
}

/// A ping is answered with a pong that carries the same data.
pub proof fn law_ping_is_answered(data: Seq<u8>)
    ensures
        read_frame(Some(FrameView::Ping(data))) matches Some(IncomingView::Reply(reply))
            && reply_frame(reply) == Some(FrameView::Pong(data)),
{
}

/// What is written for a reply: an array of `null`, the reference of what is confirmed or
/// `null`, the channel, the event and the payload. A heartbeat is confirmed on the channel
/// `phoenix`, a join on its own; both with the event `phx_reply`, the status `ok` and an empty
/// response.
pub proof fn law_fields_of_replies(
    event: Seq<char>,
    payload: Json,
    channel_id: Seq<char>,
    msg_ref: Seq<char>,
)
    ensures
        ({
            let fields = Json::Array(
                seq![
                    Json::Null,
                    Json::Null,
                    Json::String(channel_id),
                    Json::String(event),
                    payload,
                ],
            );
            &&& reply_json(ReplyView::Broadcast { event, payload, channel_id }) == Some(fields)
            &&& reply_json(ReplyView::Event { event, payload, channel_id }) == Some(fields)
            &&& reply_json(ReplyView::Push { channel_id, event, payload }) == Some(fields)
        }),
        ({
            let confirmed = |name: Seq<char>|
                Json::Array(
                    seq![
                        Json::Null,
                        Json::String(msg_ref),
                        Json::String(name),
                        Json::String("phx_reply"@),
                        ok_json(),
                    ],
                );
            &&& reply_json(ReplyView::Join { msg_ref, channel_id }) == Some(confirmed(channel_id))
            &&& reply_json(ReplyView::Heartbeat { msg_ref }) == Some(confirmed("phoenix"@))
        }),
        ok_json() matches Json::Object(members) && (forall|key: Seq<char>|
            #![trigger members.dom().contains(key)]
            members.dom().contains(key) <==> key == "response"@ || key == "status"@) && members[
            "status"@] == Json::String("ok"@) && (members["response"@] matches Json::Object(inner)
            && inner == Map::<Seq<char>, Json>::empty()),
{
    reveal_strlit("response");
    reveal_strlit("status");
    assert("response"@.len() != "status"@.len());
}

/// A reply is written as the text of its fields; a ready text and the data of a pong are
/// written as they are.
pub proof fn law_frames_of_replies(reply: ReplyView, text: Seq<char>, data: Seq<u8>)
    ensures
        reply_json(reply) matches Some(fields) ==> reply_frame(reply) == Some(
            FrameView::Text(printed(fields)),
        ),
        reply_frame(ReplyView::Reply(text)) == Some(FrameView::Text(text)),
        reply_frame(ReplyView::Pong(data)) == Some(FrameView::Pong(data)),
        reply_json(reply) is Some <==> !(reply is Reply) && !(reply is Pong) && !(reply
            is BroadcastIntercept),
{
}

/// A message for every socket becomes a reply with its channel, event and payload, and keeps
/// whether the channel is to look at it for each; no other message becomes one.
pub proof fn law_broadcast_replies(message: MessageView)
    ensures
        message.kind == MessageKind::Broadcast ==> broadcast_reply(message) == Some(
            ReplyView::Broadcast {
                event: message.event,
                payload: message.payload,
                channel_id: message.channel_id,
            },
        ),
        message.kind == MessageKind::BroadcastIntercept ==> broadcast_reply(message) == Some(
            ReplyView::BroadcastIntercept {
                channel_id: message.channel_id,
                event: message.event,
                payload: message.payload,
            },
        ),
        broadcast_reply(message) is Some <==> message.kind == MessageKind::Broadcast
            || message.kind == MessageKind::BroadcastIntercept,
{
}

/// Which values read back: what is no number, array or object; whole numbers; arrays and
/// objects of such, one level less deep, if no object has the one key first that readers keep
/// for themselves.
pub proof fn law_which_values_read_back(
    text: Seq<char>,
    items: Seq<Json>,
    members: Map<Seq<char>, Json>,
    depth: nat,
    truth: bool,
)
    requires
        forall|i: int| 0 <= i < items.len() ==> reads_back(#[trigger] items[i], depth),
        forall|key: Seq<char>| #[trigger]
            members.dom().contains(key) ==> reads_back(members[key], depth),
        !members.dom().contains("$serde_json::private::RawValue"@),
    ensures
        reads_back(Json::Null, depth),
        reads_back(Json::Bool(truth), depth),
        reads_back(Json::String(text), depth),
        !text.contains('.') && !text.contains('e') ==> reads_back(Json::Number(text), depth),
        reads_back(Json::Array(items), depth + 1),
        reads_back(Json::Object(members), depth + 1),
{
}

} // verus!
