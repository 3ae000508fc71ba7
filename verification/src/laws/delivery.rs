//! Where messages end up.

use crate::channel::{
    channel_message, forward_stepped, incoming, joined, resumable, resumed, routed, sent,
    AwaitedView, ContextView, EffectView, ForwardEventView, ForwardStepView, RoutedView,
    RunnerView, TurnView,
};
use crate::conn::{
    acceptable, after_mailbox, closed_message, mailbox_action, read_frame, ConnActionView,
    ConnView, IncomingView,
};
use crate::endpoint::{BroadcastSender, ChannelSender, MailboxSender, SocketSender};
use crate::json::Json;
use crate::message::{
    decorated, frame_json, reply_frame, reply_json, FrameView, MessageKind, MessageView, ReplyView,
};
use vstd::prelude::*;

verus! {

/// A broadcast is written to every socket that follows the channel: with its channel, event
/// and payload, and with no reference.
pub proof fn law_broadcast_is_written(
    context: ContextView,
    broadcast: BroadcastSender,
    event: Seq<char>,
    payload: Json,
    socket: SocketSender,
    mailbox: MailboxSender,
)
    requires
        context.broadcast == Some(broadcast),
    ensures
        ({
            let name = context.inner.channel_id;
            let message = channel_message(MessageKind::Broadcast, name, None, event, payload);
            sent(context, message) matches Some(EffectView::Broadcast(sender, reply)) && sender
                == broadcast && routed(socket, mailbox, reply) == RoutedView::Socket(socket, reply)
                && reply_json(reply) == Some(frame_json(None, None, name, event, payload))
        }),
{
}

/// A broadcast to be intercepted comes back to the channel once for each socket that follows
/// it and has joined it, in that socket's context, and as it was made: it is what the channel
/// is asked to look at. It is not written.
pub proof fn law_intercept_comes_back(
    context: ContextView,
    broadcast: BroadcastSender,
    event: Seq<char>,
    payload: Json,
    socket: SocketSender,
    conn: ConnView,
    runner: RunnerView,
)
    requires
        context.broadcast == Some(broadcast),
        conn.subscriptions.channels.contains_key(context.inner.channel_id),
    ensures
        ({
            let name = context.inner.channel_id;
            let message = channel_message(
                MessageKind::BroadcastIntercept,
                name,
                None,
                event,
                payload,
            );
            let asked = decorated(message, conn.token, conn.mailbox_tx);
            &&& sent(context, message) matches Some(EffectView::Broadcast(sender, reply))
            &&& sender == broadcast
            &&& reply_frame(reply) is None
            &&& routed(socket, conn.mailbox_tx, reply) == RoutedView::Mailbox(
                conn.mailbox_tx,
                message,
            )
            &&& acceptable(conn, message)
            &&& mailbox_action(conn, message, socket) == Some(
                ConnActionView::Channel(conn.subscriptions.channels[name], asked),
            )
            &&& incoming(runner, asked).1 == (TurnView {
                context: ContextView { broadcast: Some(runner.broadcast_sender), ..asked },
                awaited: AwaitedView::Out,
            })
        }),
{
}

/// A push goes to the socket alone that is answered, and is written there with its channel,
/// event and payload.
pub proof fn law_push_is_written(
    context: ContextView,
    msg_ref: Option<Seq<char>>,
    event: Seq<char>,
    payload: Json,
    conn: ConnView,
    socket: SocketSender,
)
    requires
        context.reply_to == Some(conn.mailbox_tx),
    ensures
        ({
            let name = context.inner.channel_id;
            let message = channel_message(MessageKind::Push, name, msg_ref, event, payload);
            &&& sent(context, message) == Some(EffectView::Mailbox(conn.mailbox_tx, message))
            &&& acceptable(conn, message)
            &&& after_mailbox(conn, message) == conn
            &&& mailbox_action(conn, message, socket) matches Some(
                ConnActionView::Reply(to, reply),
            )
            &&& to == socket
            &&& reply_json(reply) == Some(frame_json(None, None, name, event, payload))
        }),
{
}

/// Whatever is sent to the task that writes a socket can be written.
pub proof fn law_replies_have_frames(
    conn: ConnView,
    message: MessageView,
    frame: Option<FrameView>,
    reply: ReplyView,
    socket: SocketSender,
    mailbox: MailboxSender,
)
    ensures
        mailbox_action(conn, message, socket) matches Some(ConnActionView::Reply(_, reply))
            ==> reply_frame(reply) is Some,
        read_frame(frame) matches Some(IncomingView::Reply(reply)) ==> reply_frame(reply) is Some,
        routed(socket, mailbox, reply) matches RoutedView::Socket(_, reply) ==> reply_frame(
            reply,
        ) is Some,
{
}

/// What the tasks of a socket and of a broadcast put in the socket's mailbox can stand there;
/// so can what a client writes, but for a request to join without a reference.
pub proof fn law_mailbox_from_socket(
    conn: ConnView,
    frame: Option<FrameView>,
    reply: ReplyView,
    socket: SocketSender,
    mailbox: MailboxSender,
)
    ensures
        acceptable(conn, closed_message()),
        read_frame(frame) matches Some(IncomingView::Close(message)) ==> acceptable(conn, message),
        read_frame(frame) matches Some(IncomingView::Mailbox(message)) ==> (acceptable(
            conn,
            message,
        ) <==> !(message.kind == MessageKind::JoinRequest && message.msg_ref is None)),
        routed(socket, mailbox, reply) matches RoutedView::Mailbox(_, message) ==> acceptable(
            conn,
            message,
        ),
{
}

/// What a channel's turn puts in a socket's mailbox can stand there, if a join carries the
/// reference to confirm it with.
pub proof fn law_mailbox_from_channel(
    conn: ConnView,
    runner: RunnerView,
    turn: TurnView,
    outcome: Option<Option<MessageView>>,
    i: int,
)
    requires
        resumable(turn, outcome),
        turn.awaited is JoinPresence ==> turn.context.msg_ref is Some,
        0 <= i < resumed(runner, turn, outcome).1.len(),
    ensures
        resumed(runner, turn, outcome).1[i] matches EffectView::Mailbox(_, message) ==> acceptable(
            conn,
            message,
        ),
{
}

/// A channel gets from a socket only events and intercepted broadcasts, with a way to answer
/// that socket; it is the registry alone that hands it requests to join.
pub proof fn law_channel_gets(
    conn: ConnView,
    message: MessageView,
    socket: SocketSender,
    to: ChannelSender,
    context: ContextView,
)
    requires
        acceptable(conn, message),
        mailbox_action(conn, message, socket) == Some(ConnActionView::Channel(to, context)),
    ensures
        context.inner == message,
        message.kind == MessageKind::Event || message.kind == MessageKind::BroadcastIntercept,
        context.reply_to == Some(conn.mailbox_tx),
        context.token == conn.token,
{
}

/// What a socket's task knows after a number of messages.
pub open spec fn conn_run(conn: ConnView, messages: Seq<MessageView>) -> ConnView
    decreases messages.len(),
{
    if messages.len() == 0 {
        conn
    } else {
        after_mailbox(conn_run(conn, messages.drop_last()), messages.last())
    }
}

/// A channel that a socket has joined stays joined, and where it takes messages stays the
/// same, whatever comes; the socket keeps its token and its mailbox.
pub proof fn law_subscriptions_stay(conn: ConnView, messages: Seq<MessageView>)
    ensures
        conn.subscriptions.channels.submap_of(conn_run(conn, messages).subscriptions.channels),
        conn_run(conn, messages).token == conn.token,
        conn_run(conn, messages).mailbox_tx == conn.mailbox_tx,
        conn_run(conn, messages).format == conn.format,
        conn_run(conn, messages).subscriptions.token == conn.subscriptions.token,
        conn_run(conn, messages).subscriptions.mailbox_tx == conn.subscriptions.mailbox_tx,
    decreases messages.len(),
{
    if messages.len() > 0 {
        law_subscriptions_stay(conn, messages.drop_last());
    }
}

/// Once a join has been confirmed to a socket that had not joined the channel, its events for
/// the channel go to where the confirmation said, whatever came in between.
pub proof fn law_events_reach_joined_channel(
    conn: ConnView,
    name: Seq<char>,
    msg_ref: Seq<char>,
    sender: ChannelSender,
    messages: Seq<MessageView>,
    event: MessageView,
    socket: SocketSender,
)
    requires
        !conn.subscriptions.channels.contains_key(name),
        event.kind == MessageKind::Event,
        event.channel_id == name,
    ensures
        ({
            let confirmed = after_mailbox(conn, joined(name, Some(msg_ref), sender));
            mailbox_action(conn_run(confirmed, messages), event, socket) == Some(
                ConnActionView::Channel(sender, decorated(event, conn.token, conn.mailbox_tx)),
            )
        }),
{
    let confirmed = after_mailbox(conn, joined(name, Some(msg_ref), sender));
    law_subscriptions_stay(confirmed, messages);
    assert(confirmed.subscriptions.channels.dom().contains(name));
}

/// An event for a channel that the socket has not joined goes nowhere.
pub proof fn law_events_need_a_join(conn: ConnView, event: MessageView, socket: SocketSender)
    requires
        event.kind == MessageKind::Event,
        !conn.subscriptions.channels.contains_key(event.channel_id),
    ensures
        mailbox_action(conn, event, socket) == Some(ConnActionView::Nothing),
        after_mailbox(conn, event) == conn,
{
}

/// What the task that forwards broadcasts to one socket delivers, of a number of broadcasts,
/// where `taken` says of each whether it would be taken.
pub open spec fn forwarded(
    replies: Seq<ReplyView>,
    taken: Seq<bool>,
    ws_sender: SocketSender,
    mailbox_sender: MailboxSender,
) -> Seq<RoutedView>
    decreases replies.len(),
{
    if replies.len() == 0 {
        Seq::empty()
    } else {
        let event = ForwardEventView::Broadcast(replies.first());
        match forward_stepped(event, ws_sender, mailbox_sender) {
            Some(ForwardStepView::Send(route)) => {
                let (delivered, next) = if taken.first() {
                    (seq![route], ForwardEventView::Delivered)
                } else {
                    (Seq::empty(), ForwardEventView::Undelivered(route))
                };
                match forward_stepped(next, ws_sender, mailbox_sender) {
                    Some(ForwardStepView::Wait) => delivered + forwarded(
                        replies.drop_first(),
                        taken.drop_first(),
                        ws_sender,
                        mailbox_sender,
                    ),
                    _ => delivered,
                }
            },
            _ => Seq::empty(),
        }
    }
}

/// What of a number of routes goes to the task that writes the socket.
pub open spec fn to_socket(routes: Seq<RoutedView>) -> Seq<ReplyView> {
    routes.filter(|route: RoutedView| route is Socket).map_values(
        |route: RoutedView| route->Socket_1,
    )
}

/// `n` is where the first broadcast stands that is not taken, or the number of all.
pub open spec fn first_refused(taken: Seq<bool>, n: int) -> bool {
    &&& 0 <= n <= taken.len()
    &&& forall|i: int| 0 <= i < n ==> #[trigger] taken[i]
    &&& n < taken.len() ==> !taken[n]
}

/// Broadcasts are forwarded in order, each where it goes, up to the first that is not taken;
/// after that one nothing is.
pub proof fn law_broadcasts_are_forwarded(
    replies: Seq<ReplyView>,
    taken: Seq<bool>,
    n: int,
    ws_sender: SocketSender,
    mailbox_sender: MailboxSender,
)
    requires
        replies.len() == taken.len(),
        first_refused(taken, n),
    ensures
        forwarded(replies, taken, ws_sender, mailbox_sender) == replies.take(n).map_values(
            |reply: ReplyView| routed(ws_sender, mailbox_sender, reply),
        ),
    decreases replies.len(),
{
    let route = |reply: ReplyView| routed(ws_sender, mailbox_sender, reply);
    if replies.len() > 0 && n > 0 {
        let rest = taken.drop_first();
        assert(taken[0]);
        assert forall|i: int| 0 <= i < n - 1 implies #[trigger] rest[i] by {
            assert(taken[i + 1]);
        }
        law_broadcasts_are_forwarded(replies.drop_first(), rest, n - 1, ws_sender, mailbox_sender);
        assert(replies.take(n).map_values(route) =~= seq![route(replies[0])]
            + replies.drop_first().take(n - 1).map_values(route));
    } else {
        assert(replies.take(n).map_values(route) =~= Seq::<RoutedView>::empty());
    }
}

/// What reaches the task that writes a socket is, in order, all that was broadcast but the
/// intercepts, up to the first broadcast that is not taken.
pub proof fn law_socket_gets_broadcasts(
    replies: Seq<ReplyView>,
    taken: Seq<bool>,
    n: int,
    ws_sender: SocketSender,
    mailbox_sender: MailboxSender,
)
    requires
        replies.len() == taken.len(),
        first_refused(taken, n),
    ensures
        to_socket(forwarded(replies, taken, ws_sender, mailbox_sender)) == replies.take(n).filter(
            |reply: ReplyView| !(reply is BroadcastIntercept),
        ),
{
    law_broadcasts_are_forwarded(replies, taken, n, ws_sender, mailbox_sender);
    lemma_to_socket(replies.take(n), ws_sender, mailbox_sender);
}

proof fn lemma_to_socket(
    replies: Seq<ReplyView>,
    ws_sender: SocketSender,
    mailbox_sender: MailboxSender,
)
    ensures
        to_socket(
            replies.map_values(|reply: ReplyView| routed(ws_sender, mailbox_sender, reply)),
        ) == replies.filter(|reply: ReplyView| !(reply is BroadcastIntercept)),
    decreases replies.len(),
{
    reveal(Seq::filter);
    let route = |reply: ReplyView| routed(ws_sender, mailbox_sender, reply);
    let routes = replies.map_values(route);
    if replies.len() > 0 {
        lemma_to_socket(replies.drop_last(), ws_sender, mailbox_sender);
        assert(routes.drop_last() =~= replies.drop_last().map_values(route));
        assert(routes.last() == route(replies.last()));
    }
    assert(to_socket(routes) =~= replies.filter(
        |reply: ReplyView| !(reply is BroadcastIntercept),
    ));
}

} // verus!
