//! What the tasks of a socket do with what they get.

use crate::channel::{
    callback_of, stepped, Callback, ContextView, EffectView, MessageContext, RunnerEventView,
    RunnerStepView, RunnerView,
};
use crate::conn::{
    acceptable, after_mailbox, closed_message, farewells, leave_message, mailbox_action,
    read_frame, writer_stepped, ConnActionView, ConnView, IncomingView, SubscriptionsView,
    WriterEvent, WriterStepView,
};
use crate::endpoint::{ChannelSender, MailboxSender, SocketSender};
use crate::json::{parsed, Json};
use crate::message::{
    decorated, reply_frame, reply_json, FrameView, MessageKind, MessageReply, MessageView,
    ReplyView,
};
use crate::parser::{message_from, message_in, Refusal};
use crate::registry::RequestView;
use crate::types::Token;
use vstd::prelude::*;

verus! {

/// The text of item `i` of a JSON array, where it is a string.
pub open spec fn string_at(value: Json, i: int) -> Option<Seq<char>> {
    match value {
        Json::Array(items) if 0 <= i < items.len() && items[i] is String => Some(
            items[i]->String_0,
        ),
        _ => None,
    }
}

/// The fields of a message stand in the array in this order: join reference, message
/// reference, channel, event, payload. A value is a message if and only if channel and event
/// are strings there; else the one is missed that comes first. A payload that is not there is
/// `null`.
pub proof fn law_message_fields(value: Json)
    ensures
        string_at(value, 2) is None ==> message_in(value) == Err::<MessageView, Refusal>(
            Refusal::MissingChannelId,
        ),
        string_at(value, 2) is Some && string_at(value, 3) is None ==> message_in(value) == Err::<
            MessageView,
            Refusal,
        >(Refusal::MissingEvent),
        string_at(value, 2) is Some && string_at(value, 3) is Some ==> {
            &&& message_in(value) matches Ok(message)
            &&& message.join_ref == string_at(value, 0)
            &&& message.msg_ref == string_at(value, 1)
            &&& Some(message.channel_id) == string_at(value, 2)
            &&& Some(message.event) == string_at(value, 3)
            &&& message.payload == if value->Array_0.len() > 4 {
                value->Array_0[4]
            } else {
                Json::Null
            }
            &&& message.channel_sender is None
            &&& message.kind == MessageKind::JoinRequest <==> message.event == "join"@
                || message.event == "phx_join"@
            &&& message.event == "heartbeat"@ ==> message.kind == MessageKind::Heartbeat
            &&& message.event != "join"@ && message.event != "phx_join"@ && message.event
                != "heartbeat"@ ==> message.kind == MessageKind::Event
        },
{
    reveal_strlit("heartbeat");
    reveal_strlit("join");
    reveal_strlit("phx_join");
    assert("heartbeat"@.len() == 9);
    assert("join"@.len() == 4);
    assert("phx_join"@.len() == 8);
}

/// A text is read by what JSON it holds, and refused if it holds none.
pub proof fn law_text_is_read(text: Seq<char>)
    ensures
        parsed(text) is None ==> message_from(text) == Err::<MessageView, Refusal>(Refusal::Json),
        parsed(text) matches Some(value) ==> message_from(text) == message_in(value),
{
}

/// What a frame comes to: a text to the mailbox if it is a message and to nothing else if it is
/// not, a ping to a pong with its data, the end of the socket to a last message.
pub proof fn law_frames_are_read(text: Seq<char>, data: Seq<u8>)
    ensures
        message_from(text) matches Ok(message) ==> read_frame(Some(FrameView::Text(text))) == Some(
            IncomingView::Mailbox(message),
        ),
        message_from(text) matches Err(refusal) ==> read_frame(Some(FrameView::Text(text)))
            == Some(IncomingView::Unreadable(refusal)),
        read_frame(Some(FrameView::Ping(data))) == Some(
            IncomingView::Reply(ReplyView::Pong(data)),
        ),
        read_frame(Some(FrameView::Close)) == Some(IncomingView::Close(closed_message())),
        read_frame(None) == Some(IncomingView::Close(closed_message())),
        read_frame(Some(FrameView::Binary(data))) is None,
        read_frame(Some(FrameView::Pong(data))) is None,
{
}

/// The messages that a socket's own tasks make.
pub proof fn law_own_messages(channel_id: Seq<char>)
    ensures
        closed_message() == (MessageView {
            kind: MessageKind::Closed,
            channel_id: "_closed"@,
            msg_ref: None,
            join_ref: None,
            payload: Json::Null,
            event: "closed"@,
            channel_sender: None,
        }),
        leave_message(channel_id) == (MessageView {
            kind: MessageKind::Leave,
            channel_id,
            msg_ref: None,
            join_ref: None,
            payload: Json::Null,
            event: "phx_leave"@,
            channel_sender: None,
        }),
{
}

/// A message in the context of a socket is that message, with the socket's token and mailbox
/// and nothing else.
pub proof fn law_decorated(message: MessageView, token: Token, mailbox: MailboxSender)
    ensures
        ({
            let context = decorated(message, token, mailbox);
            &&& context.token == token
            &&& context.inner == message
            &&& context.reply_to == Some(mailbox)
            &&& context.ws_reply_to is None
            &&& context.broadcast is None
            &&& context.msg_ref is None
        }),
{
}

/// Which messages can stand in a mailbox, and no others: requests to join and confirmations
/// that carry a reference, events, intercepts, heartbeats, pushes and the last message. A
/// confirmation also says where the channel takes messages, unless the socket knows.
pub proof fn law_mailbox_takes(conn: ConnView, message: MessageView)
    ensures
        acceptable(conn, message) <==> {
            ||| message.kind == MessageKind::JoinRequest && message.msg_ref is Some
            ||| message.kind == MessageKind::DidJoin && message.msg_ref is Some && (
            message.channel_sender is Some || conn.subscriptions.channels.contains_key(
                message.channel_id,
            ))
            ||| message.kind == MessageKind::Event
            ||| message.kind == MessageKind::BroadcastIntercept
            ||| message.kind == MessageKind::Heartbeat
            ||| message.kind == MessageKind::Push
            ||| message.kind == MessageKind::Closed
        },
{
}

/// A request to join in the mailbox goes to the registry with all that it says, and with the
/// socket's own token, mailbox and writer.
pub proof fn law_join_request_goes_on(
    conn: ConnView,
    message: MessageView,
    msg_ref: Seq<char>,
    socket: SocketSender,
)
    requires
        message.kind == MessageKind::JoinRequest,
        message.msg_ref == Some(msg_ref),
    ensures
        after_mailbox(conn, message) == conn,
        ({
            &&& mailbox_action(conn, message, socket) matches Some(
                ConnActionView::Registry(RequestView::JoinRequest(request)),
            )
            &&& request.token == conn.token
            &&& request.channel_id == message.channel_id
            &&& request.mailbox_tx == conn.mailbox_tx
            &&& request.reply_sender == socket
            &&& request.msg_ref == msg_ref
            &&& request.payload == message.payload
        }),
{
}

/// A confirmation in the mailbox is passed on with its channel and reference. The channel is
/// then joined: where it takes messages is what was known before, or else what the
/// confirmation says. No other channel is touched, nor anything else of the socket.
pub proof fn law_confirmation_is_noted(
    conn: ConnView,
    message: MessageView,
    msg_ref: Seq<char>,
    sender: ChannelSender,
    socket: SocketSender,
    other: Seq<char>,
)
    requires
        message.kind == MessageKind::DidJoin,
        message.msg_ref == Some(msg_ref),
        message.channel_sender == Some(sender),
        other != message.channel_id,
    ensures
        mailbox_action(conn, message, socket) == Some(
            ConnActionView::Reply(
                socket,
                ReplyView::Join { msg_ref, channel_id: message.channel_id },
            ),
        ),
        ({
            let before = conn.subscriptions.channels;
            let after = after_mailbox(conn, message);
            let name = message.channel_id;
            &&& after.subscriptions.channels.contains_key(name)
            &&& after.subscriptions.channels[name] == if before.contains_key(name) {
                before[name]
            } else {
                sender
            }
            &&& after.subscriptions.channels.contains_key(other) <==> before.contains_key(other)
            &&& before.contains_key(other) ==> after.subscriptions.channels[other] == before[other]
            &&& after.format == conn.format
            &&& after.token == conn.token
            &&& after.mailbox_tx == conn.mailbox_tx
            &&& after.subscriptions.token == conn.subscriptions.token
            &&& after.subscriptions.mailbox_tx == conn.subscriptions.mailbox_tx
        }),
{
}

/// A confirmation that does not say where the channel takes messages is passed on too; the
/// socket, which knows, goes by what it knows.
pub proof fn law_repeated_confirmation(
    conn: ConnView,
    message: MessageView,
    msg_ref: Seq<char>,
    socket: SocketSender,
)
    requires
        message.kind == MessageKind::DidJoin,
        message.msg_ref == Some(msg_ref),
        conn.subscriptions.channels.contains_key(message.channel_id),
    ensures
        after_mailbox(conn, message) == conn,
        mailbox_action(conn, message, socket) == Some(
            ConnActionView::Reply(
                socket,
                ReplyView::Join { msg_ref, channel_id: message.channel_id },
            ),
        ),
{
}

/// Of the other messages none changes what the socket has joined. Events and intercepts go to
/// the channel as they are, in the socket's context, if it is joined; a heartbeat with a
/// reference and a push are written; the last message ends the task.
pub proof fn law_other_messages_go_on(conn: ConnView, message: MessageView, socket: SocketSender)
    requires
        message.kind != MessageKind::DidJoin,
    ensures
        after_mailbox(conn, message) == conn,
        message.kind == MessageKind::Event || message.kind == MessageKind::BroadcastIntercept ==> {
            let channels = conn.subscriptions.channels;
            &&& channels.contains_key(message.channel_id) ==> mailbox_action(conn, message, socket)
                == Some(
                ConnActionView::Channel(
                    channels[message.channel_id],
                    ContextView {
                        token: conn.token,
                        inner: message,
                        reply_to: Some(conn.mailbox_tx),
                        ws_reply_to: None,
                        broadcast: None,
                        msg_ref: None,
                    },
                ),
            )
            &&& !channels.contains_key(message.channel_id) ==> mailbox_action(
                conn,
                message,
                socket,
            ) == Some(ConnActionView::Nothing)
        },
        message.kind == MessageKind::Heartbeat ==> mailbox_action(conn, message, socket) == Some(
            match message.msg_ref {
                Some(msg_ref) => ConnActionView::Reply(socket, ReplyView::Heartbeat { msg_ref }),
                None => ConnActionView::Nothing,
            },
        ),
        message.kind == MessageKind::Push ==> mailbox_action(conn, message, socket) == Some(
            ConnActionView::Reply(
                socket,
                ReplyView::Push {
                    channel_id: message.channel_id,
                    event: message.event,
                    payload: message.payload,
                },
            ),
        ),
        message.kind == MessageKind::Closed <==> mailbox_action(conn, message, socket) is None,
{
}

/// Each farewell goes to where the channel takes messages that it names; it says that the
/// socket leaves, in the socket's own context, and nothing else.
pub proof fn law_farewell_says(
    subscriptions: SubscriptionsView,
    messages: Seq<(ChannelSender, MessageContext)>,
    i: int,
)
    requires
        farewells(subscriptions, messages),
        0 <= i < messages.len(),
    ensures
        ({
            let context = messages[i].1@;
            let name = context.inner.channel_id;
            &&& subscriptions.channels.contains_key(name)
            &&& messages[i].0 == subscriptions.channels[name]
            &&& context.inner.kind == MessageKind::Leave
            &&& context.inner.event == "phx_leave"@
            &&& context.inner.payload == Json::Null
            &&& context.inner.msg_ref is None
            &&& context.inner.join_ref is None
            &&& context.inner.channel_sender is None
            &&& context.token == subscriptions.token
            &&& context.reply_to == Some(subscriptions.mailbox_tx)
            &&& context.ws_reply_to is None
            &&& context.broadcast is None
            &&& context.msg_ref is None
        }),
{
}

/// No two farewells of a socket name the same channel.
pub proof fn law_farewells_differ(
    subscriptions: SubscriptionsView,
    messages: Seq<(ChannelSender, MessageContext)>,
    i: int,
    j: int,
)
    requires
        farewells(subscriptions, messages),
        0 <= i < j < messages.len(),
    ensures
        messages[i].1@.inner.channel_id != messages[j].1@.inner.channel_id,
{
}

/// The task that writes a socket writes the frame of each reply, goes on once it is written,
/// closes the socket with the last message when it cannot be, and ends without one when no
/// reply can come.
pub proof fn law_writer_steps(reply: MessageReply)
    ensures
        reply_frame(reply@) matches Some(frame) ==> writer_stepped(WriterEvent::Reply(reply))
            == Some(WriterStepView::Write(frame)),
        writer_stepped(WriterEvent::Written) == Some(WriterStepView::Wait),
        writer_stepped(WriterEvent::Failed) == Some(WriterStepView::Close(closed_message())),
        writer_stepped(WriterEvent::Disconnected) == Some(WriterStepView::Stop),
{
}

/// A client's event, from what it writes to what it reads. A socket that has joined a channel
/// and writes an event for it has the channel's code for messages called with the socket's own
/// token, and with the references, the event and the payload that were written. If that code
/// answers with a push, the push goes back to this socket, and what is written there is the
/// channel, the event and the payload of the push.
pub proof fn law_event_is_answered(
    conn: ConnView,
    join_ref: Json,
    msg_ref: Json,
    name: Seq<char>,
    event: Seq<char>,
    payload: Json,
    socket: SocketSender,
    runner: RunnerView,
    timeout: bool,
    answer: MessageView,
    later: ConnView,
)
    requires
        event != "join"@ && event != "phx_join"@ && event != "heartbeat"@,
        conn.subscriptions.channels.contains_key(name),
        answer.kind == MessageKind::Push,
    ensures
        ({
            let written = Json::Array(
                seq![join_ref, msg_ref, Json::String(name), Json::String(event), payload],
            );
            &&& message_in(written) matches Ok(message)
            &&& acceptable(conn, message)
            &&& mailbox_action(conn, message, socket) matches Some(
                ConnActionView::Channel(to, context),
            )
            &&& to == conn.subscriptions.channels[name]
            &&& {
                let (first, step1) = stepped(runner, RunnerEventView::Incoming(context), timeout);
                &&& step1 matches RunnerStepView::Call(effects, turn)
                &&& effects.len() == 0
                &&& callback_of(turn.awaited) == Callback::HandleMessage
                &&& turn.context.token == conn.token
                &&& turn.context.inner.channel_id == name
                &&& turn.context.inner.event == event
                &&& turn.context.inner.payload == payload
                &&& turn.context.inner.msg_ref == string_at(written, 1)
                &&& turn.context.inner.join_ref == string_at(written, 0)
                &&& stepped(first, RunnerEventView::Answered(turn, Some(Some(answer))), timeout)
                    == (runner, RunnerStepView::Handled(
                    seq![EffectView::Mailbox(conn.mailbox_tx, answer)],
                ))
            }
            &&& acceptable(later, answer)
            &&& mailbox_action(later, answer, socket) matches Some(
                ConnActionView::Reply(writer, reply),
            )
            &&& writer == socket
            &&& reply_json(reply) == Some(
                Json::Array(
                    seq![
                        Json::Null,
                        Json::Null,
                        Json::String(answer.channel_id),
                        Json::String(answer.event),
                        answer.payload,
                    ],
                ),
            )
        }),
{
    let written = Json::Array(
        seq![join_ref, msg_ref, Json::String(name), Json::String(event), payload],
    );
    law_message_fields(written);
}

} // verus!
