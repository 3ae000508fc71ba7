//! The decisions of each task, one at a time.

use axum_channels::channel::{
    forward_step, is_sendable, route_broadcast, unsent, Awaited, Callback, ChannelRunner, Effect,
    Error, ForwardEvent, ForwardStep, MessageContext, NewChannel, Presence, Routed, RunnerEvent,
    RunnerStep, Turn, BROADCAST_CAPACITY, INACTIVITY_PERIOD,
};
use axum_channels::conn::{undelivered, Conn, ConnAction, ReaderSubscriptions};
use axum_channels::endpoint::{
    AnswerSender, BroadcastSender, ChannelSender, MailboxSender, SocketSender,
};
use axum_channels::examples::PresenceChannel;
use axum_channels::message::{Message, MessageKind, MessageReply};
use axum_channels::pubsub::{LocalPubsub, SubscriberSender, Topic, TopicSender};
use axum_channels::registry::{self, Action, Registry, RegistryMessage, WIGGLE_ROOM};
use axum_channels::types::{ChannelId, Token};
use axum_channels::ConnFormat;
use serde_json::Value;

fn message(kind: MessageKind, channel: &str) -> Message {
    Message {
        kind,
        channel_id: channel.into(),
        msg_ref: Some("r".into()),
        join_ref: None,
        payload: Value::from("data"),
        event: "event".into(),
        channel_sender: None,
    }
}

fn context(kind: MessageKind) -> MessageContext {
    message(kind, "room").decorate(Token(5), MailboxSender(6))
}

fn join_context() -> MessageContext {
    let mut context = context(MessageKind::JoinRequest);
    context.ws_reply_to = Some(SocketSender(7));
    context.msg_ref = Some("r".into());
    context
}

fn runner() -> ChannelRunner {
    ChannelRunner::new("room".into(), ChannelSender(1), BroadcastSender(2))
}

fn conn() -> Conn {
    Conn::new(ConnFormat::Phoenix, MailboxSender(6), Token(5))
}

#[test]
fn presence_holds_what_was_joined_with_last() {
    let mut presence = Presence::default();
    assert!(presence.is_empty());
    presence.track(Token(1), &Value::from(1));
    presence.track(Token(2), &Value::from(2));
    presence.track(Token(1), &Value::from(3));
    assert_eq!(presence.data.len(), 2);
    assert_eq!(presence.data.get(&1), Some(&Value::from(3)));
    presence.leave(Token(1));
    presence.leave(Token(9));
    assert_eq!(presence.data.get(&1), None);
    assert!(!presence.is_empty());
    presence.leave(Token(2));
    assert!(presence.is_empty());
}

#[test]
fn a_context_says_what_its_message_is() {
    assert!(context(MessageKind::JoinRequest).is_join());
    assert!(!context(MessageKind::Join).is_join());
    assert!(context(MessageKind::Leave).is_leave());
    assert!(context(MessageKind::BroadcastIntercept).is_intercept());
    assert!(!context(MessageKind::Broadcast).is_intercept());
    let event = context(MessageKind::Event);
    assert!(!event.is_join() && !event.is_leave() && !event.is_intercept());
    assert_eq!(event.channel_id().id(), "room");
    assert_eq!(event.token, Token(5));
    assert_eq!(event.reply_to, Some(MailboxSender(6)));
    assert!(event.ws_reply_to.is_none() && event.broadcast.is_none() && event.msg_ref.is_none());
}

#[test]
fn a_context_makes_messages_of_its_channel() {
    let context = context(MessageKind::Event);
    let pushed = context.push(Some("9".into()), "out".into(), Value::from(1));
    assert_eq!(pushed.kind, MessageKind::Push);
    assert_eq!(pushed.msg_ref.as_deref(), Some("9"));
    assert_eq!(pushed.channel_id.id(), "room");
    assert_eq!(&*pushed.event, "out");
    assert_eq!(pushed.payload, Value::from(1));
    let broadcast = context.broadcast("out".into(), Value::from(1));
    assert_eq!(broadcast.kind, MessageKind::Broadcast);
    assert!(broadcast.msg_ref.is_none());
    let intercept = context.broadcast_intercept("out".into(), Value::from(1));
    assert_eq!(intercept.kind, MessageKind::BroadcastIntercept);
    let joined = context.did_join(Some("9".into()), ChannelSender(3));
    assert_eq!(joined.kind, MessageKind::DidJoin);
    assert_eq!(&*joined.event, "phx_join");
    assert_eq!(joined.payload, Value::Null);
    assert_eq!(joined.channel_sender, Some(ChannelSender(3)));
}

#[test]
fn a_channel_answers_with_pushes_and_broadcasts() {
    assert!(is_sendable(MessageKind::Push));
    assert!(is_sendable(MessageKind::Broadcast));
    assert!(is_sendable(MessageKind::BroadcastIntercept));
    assert!(!is_sendable(MessageKind::Reply));
    assert!(!is_sendable(MessageKind::Event));
}

#[test]
fn an_answer_goes_to_the_socket_or_to_all() {
    let mut context = context(MessageKind::Event);
    let broadcast = context.broadcast("out".into(), Value::Null);
    assert!(context.send(broadcast).is_none());
    context.broadcast = Some(BroadcastSender(2));
    match context.send(context.push(None, "out".into(), Value::Null)) {
        Some(Effect::Mailbox(to, message)) => {
            assert_eq!(to, MailboxSender(6));
            assert_eq!(message.kind, MessageKind::Push);
        }
        other => panic!("{:?}", other),
    }
    match context.send(context.broadcast("out".into(), Value::from(3))) {
        Some(Effect::Broadcast(to, MessageReply::Broadcast { event, payload, channel_id })) => {
            assert_eq!(to, BroadcastSender(2));
            assert_eq!(&*event, "out");
            assert_eq!(payload, Value::from(3));
            assert_eq!(channel_id.id(), "room");
        }
        other => panic!("{:?}", other),
    }
    match context.send(context.broadcast_intercept("out".into(), Value::Null)) {
        Some(Effect::Broadcast(_, MessageReply::BroadcastIntercept { .. })) => {}
        other => panic!("{:?}", other),
    }
    context.reply_to = None;
    assert!(context.send(context.push(None, "out".into(), Value::Null)).is_none());
}

#[test]
fn a_join_subscribes_then_announces_then_confirms_then_answers() {
    let mut runner = runner();
    let turn = runner.handle_incoming(join_context());
    assert_eq!(turn.callback(), Callback::HandleJoin);
    assert_eq!(turn.context.broadcast, Some(BroadcastSender(2)));
    let answer = turn.context.push(None, "hello".into(), Value::Null);
    let (effects, next) = runner.resume(turn, Ok(Some(answer)));
    assert_eq!(effects.len(), 1);
    match &effects[0] {
        Effect::Subscribe { ws_sender, mailbox_sender, broadcast, token, channel_id } => {
            assert_eq!(*ws_sender, SocketSender(7));
            assert_eq!(*mailbox_sender, MailboxSender(6));
            assert_eq!(*broadcast, BroadcastSender(2));
            assert_eq!(*token, Token(5));
            assert_eq!(channel_id.id(), "room");
        }
        other => panic!("{:?}", other),
    }
    assert_eq!(runner.presence().data.get(&5), Some(&Value::from("data")));
    let turn = next.unwrap();
    assert_eq!(turn.callback(), Callback::HandlePresence);
    let announcement = turn.context.broadcast("presence".into(), Value::Null);
    let (effects, next) = runner.resume(turn, Ok(Some(announcement)));
    assert!(next.is_none());
    assert_eq!(effects.len(), 3);
    assert!(matches!(&effects[0], Effect::Broadcast(BroadcastSender(2), _)));
    match &effects[1] {
        Effect::Mailbox(MailboxSender(6), message) => {
            assert_eq!(message.kind, MessageKind::DidJoin);
            assert_eq!(message.msg_ref.as_deref(), Some("r"));
            assert_eq!(message.channel_sender, Some(ChannelSender(1)));
        }
        other => panic!("{:?}", other),
    }
    match &effects[2] {
        Effect::Mailbox(_, message) => assert_eq!(&*message.event, "hello"),
        other => panic!("{:?}", other),
    }
}

#[test]
fn a_refused_join_ends_the_turn() {
    let mut runner = runner();
    let turn = runner.handle_incoming(join_context());
    let refusal = Err(Error::Join { reason: "no".to_string() });
    assert!(turn.accepts(&refusal));
    let (effects, next) = runner.resume(turn, refusal);
    assert!(effects.is_empty() && next.is_none());
    assert!(runner.presence().is_empty());
}

#[test]
fn a_leave_undoes_a_join() {
    let mut runner = runner();
    let turn = runner.handle_incoming(join_context());
    let (_, next) = runner.resume(turn, Ok(None));
    let (effects, _) = runner.resume(next.unwrap(), Ok(None));
    assert_eq!(effects.len(), 1);
    assert!(!runner.presence().is_empty());
    let turn = runner.handle_incoming(context(MessageKind::Leave));
    assert!(runner.presence().is_empty());
    assert_eq!(turn.callback(), Callback::HandleLeave);
    let (effects, next) = runner.resume(turn, Err(Error::Other("ignored".to_string())));
    assert!(effects.is_empty());
    let turn = next.unwrap();
    assert_eq!(turn.callback(), Callback::HandlePresence);
    let announcement = turn.context.broadcast("presence".into(), Value::Null);
    let (effects, next) = runner.resume(turn, Ok(Some(announcement)));
    assert!(next.is_none());
    assert!(matches!(effects[0], Effect::Broadcast(BroadcastSender(2), _)));
}

#[test]
fn a_turn_goes_on_only_with_what_can_be_sent() {
    let turn = |kind: MessageKind, awaited: Awaited| Turn { context: context(kind), awaited };
    let answer = |kind: MessageKind| Ok(Some(message(kind, "room")));
    let on_message = turn(MessageKind::Event, Awaited::Message);
    assert_eq!(on_message.callback(), Callback::HandleMessage);
    assert!(on_message.accepts(&Ok(None)));
    assert!(on_message.accepts(&answer(MessageKind::Push)));
    assert!(!on_message.accepts(&answer(MessageKind::Event)));
    let on_out = turn(MessageKind::BroadcastIntercept, Awaited::Out);
    assert_eq!(on_out.callback(), Callback::HandleOut);
    assert!(on_out.accepts(&answer(MessageKind::Broadcast)));
    assert!(!on_out.accepts(&answer(MessageKind::Reply)));
    let on_join = turn(MessageKind::JoinRequest, Awaited::Join);
    assert!(!on_join.accepts(&Ok(None)));
    assert!(on_join.accepts(&Err(Error::Send("x".to_string()))));
    let on_leave = turn(MessageKind::Leave, Awaited::Leave);
    assert!(on_leave.accepts(&answer(MessageKind::Closed)));
    let on_presence = turn(MessageKind::Leave, Awaited::LeavePresence);
    assert!(on_presence.accepts(&answer(MessageKind::Broadcast)));
    assert!(!on_presence.accepts(&answer(MessageKind::Push)));
    let response = Some(message(MessageKind::Closed, "room"));
    let on_joined = turn(MessageKind::JoinRequest, Awaited::JoinPresence { response });
    assert!(!on_joined.accepts(&Ok(None)));
}

#[test]
fn a_channel_ends_when_the_registry_agrees() {
    let mut runner = runner();
    match runner.step(RunnerEvent::Tick, true) {
        RunnerStep::Report(channel_id) => assert_eq!(channel_id.id(), "room"),
        other => panic!("{:?}", other),
    }
    assert!(matches!(runner.step(RunnerEvent::Tick, false), RunnerStep::Wait));
    let verdict = |answer| RunnerEvent::Verdict(answer);
    assert!(matches!(runner.step(verdict(None), true), RunnerStep::Wait));
    let step = runner.step(verdict(Some(RegistryMessage::Continue)), true);
    assert!(matches!(step, RunnerStep::Wait));
    let step = runner.step(verdict(Some(RegistryMessage::Close)), true);
    assert!(matches!(step, RunnerStep::Stop));
    assert!(matches!(runner.step(RunnerEvent::Disconnected, false), RunnerStep::Stop));
    match runner.step(RunnerEvent::Incoming(join_context()), true) {
        RunnerStep::Call(effects, turn) => {
            assert!(effects.is_empty());
            let step = runner.step(RunnerEvent::Answered(turn, Ok(None)), true);
            assert!(matches!(step, RunnerStep::Call(..)));
        }
        other => panic!("{:?}", other),
    }
    assert!(matches!(runner.step(RunnerEvent::Tick, true), RunnerStep::Wait));
}

#[test]
fn a_broadcast_is_written_and_an_intercept_comes_back() {
    let event = "out";
    let broadcast = MessageReply::Broadcast {
        event: event.into(),
        payload: Value::from(1),
        channel_id: "room".into(),
    };
    let route = route_broadcast(SocketSender(7), MailboxSender(6), broadcast);
    assert!(matches!(route, Routed::Socket(SocketSender(7), reply) if reply.is_broadcast()));
    let intercept = MessageReply::BroadcastIntercept {
        event: event.into(),
        payload: Value::from(1),
        channel_id: "room".into(),
    };
    match route_broadcast(SocketSender(7), MailboxSender(6), intercept) {
        Routed::Mailbox(MailboxSender(6), message) => {
            assert_eq!(message.kind, MessageKind::BroadcastIntercept);
            assert_eq!(message.payload, Value::from(1));
            assert_eq!(&*message.event, "out");
        }
        other => panic!("{:?}", other),
    }
}

fn forward(replies: Vec<MessageReply>, socket_takes: usize) -> (Vec<Value>, Vec<Value>) {
    let mut to_socket = Vec::new();
    let mut to_mailbox = Vec::new();
    let mut replies = replies.into_iter();
    let mut event = match replies.next() {
        Some(reply) => ForwardEvent::Broadcast(reply),
        None => ForwardEvent::Disconnected,
    };
    loop {
        event = match forward_step(event, SocketSender(7), MailboxSender(6)) {
            ForwardStep::Send(Routed::Mailbox(MailboxSender(6), message)) => {
                to_mailbox.push(message.payload);
                ForwardEvent::Delivered
            }
            ForwardStep::Send(Routed::Socket(SocketSender(7), reply)) => match reply {
                MessageReply::Broadcast { payload, .. } if to_socket.len() < socket_takes => {
                    to_socket.push(payload);
                    ForwardEvent::Delivered
                }
                reply => ForwardEvent::Undelivered(Routed::Socket(SocketSender(7), reply)),
            },
            ForwardStep::Send(other) => panic!("{:?}", other),
            ForwardStep::Wait => match replies.next() {
                Some(reply) => ForwardEvent::Broadcast(reply),
                None => ForwardEvent::Disconnected,
            },
            ForwardStep::Stop => return (to_socket, to_mailbox),
        };
    }
}

#[test]
fn broadcasts_are_forwarded_until_the_socket_takes_no_more() {
    let broadcast = |n: u64| MessageReply::Broadcast {
        event: "out".into(),
        payload: Value::from(n),
        channel_id: "room".into(),
    };
    let intercept = |n: u64| MessageReply::BroadcastIntercept {
        event: "out".into(),
        payload: Value::from(n),
        channel_id: "room".into(),
    };
    let all = || vec![broadcast(1), intercept(2), broadcast(3), broadcast(4), intercept(5)];
    let values = |numbers: Vec<u64>| numbers.into_iter().map(Value::from).collect::<Vec<Value>>();
    assert_eq!(forward(all(), 9), (values(vec![1, 3, 4]), values(vec![2, 5])));
    assert_eq!(forward(all(), 2), (values(vec![1, 3]), values(vec![2])));
    assert_eq!(forward(all(), 0), (values(vec![]), values(vec![])));
    assert_eq!(forward(vec![], 9), (values(vec![]), values(vec![])));
}

#[test]
fn channels_wait_a_minute_and_hold_a_thousand_broadcasts() {
    assert_eq!(INACTIVITY_PERIOD, 60);
    assert_eq!(BROADCAST_CAPACITY, 1024);
}

#[test]
fn subscriptions_keep_the_first_sender() {
    let mut subscriptions = ReaderSubscriptions::new(Token(5), MailboxSender(6));
    let room: ChannelId = "room".into();
    assert_eq!(subscriptions.get(&room), None);
    subscriptions.insert(room.clone(), ChannelSender(1));
    subscriptions.insert(room.clone(), ChannelSender(2));
    assert_eq!(subscriptions.get(&room), Some(ChannelSender(1)));
    let farewells = subscriptions.leave();
    assert_eq!(farewells.len(), 1);
    let (to, context) = &farewells[0];
    assert_eq!(*to, ChannelSender(1));
    assert_eq!(context.inner.kind, MessageKind::Leave);
    assert_eq!(context.inner.payload, Value::Null);
    assert_eq!(context.reply_to, Some(MailboxSender(6)));
}

#[test]
fn a_request_to_join_goes_to_the_registry() {
    let mut conn = conn();
    let request = message(MessageKind::JoinRequest, "room");
    match conn.handle_mailbox_message(request, SocketSender(7)) {
        Ok(ConnAction::Registry(RegistryMessage::JoinRequest {
            token,
            channel_id,
            mailbox_tx,
            reply_sender,
            msg_ref,
            payload,
        })) => {
            assert_eq!(token, Token(5));
            assert_eq!(channel_id.id(), "room");
            assert_eq!(mailbox_tx, MailboxSender(6));
            assert_eq!(reply_sender, SocketSender(7));
            assert_eq!(&*msg_ref, "r");
            assert_eq!(payload, Value::from("data"));
        }
        other => panic!("{:?}", other),
    }
}

#[test]
fn a_confirmed_join_is_noted_and_passed_on() {
    let mut conn = conn();
    let mut confirmation = message(MessageKind::DidJoin, "room");
    confirmation.channel_sender = Some(ChannelSender(1));
    match conn.handle_mailbox_message(confirmation, SocketSender(7)) {
        Ok(ConnAction::Reply(SocketSender(7), MessageReply::Join { msg_ref, channel_id })) => {
            assert_eq!(&*msg_ref, "r");
            assert_eq!(channel_id.id(), "room");
        }
        other => panic!("{:?}", other),
    }
    // A second confirmation changes nothing, with or without a sender.
    let mut again = message(MessageKind::DidJoin, "room");
    again.channel_sender = Some(ChannelSender(2));
    assert!(conn.handle_mailbox_message(again, SocketSender(7)).is_ok());
    let bare = message(MessageKind::DidJoin, "room");
    assert!(conn.accepts(&bare));
    assert!(conn.handle_mailbox_message(bare, SocketSender(7)).is_ok());
    let event = message(MessageKind::Event, "room");
    match conn.handle_mailbox_message(event, SocketSender(7)) {
        Ok(ConnAction::Channel(to, context)) => {
            assert_eq!(to, ChannelSender(1));
            assert_eq!(context.token, Token(5));
            assert_eq!(context.inner.payload, Value::from("data"));
        }
        other => panic!("{:?}", other),
    }
    let elsewhere = message(MessageKind::Event, "other");
    let action = conn.handle_mailbox_message(elsewhere, SocketSender(7));
    assert!(matches!(action, Ok(ConnAction::Nothing)));
}

#[test]
fn a_mailbox_takes_the_messages_that_are_for_it() {
    let conn = conn();
    for kind in [
        MessageKind::JoinRequest,
        MessageKind::Event,
        MessageKind::BroadcastIntercept,
        MessageKind::Heartbeat,
        MessageKind::Push,
        MessageKind::Closed,
    ] {
        assert!(conn.accepts(&message(kind, "room")));
    }
    for kind in [
        MessageKind::Join,
        MessageKind::DidJoin,
        MessageKind::Leave,
        MessageKind::Broadcast,
        MessageKind::Reply,
        MessageKind::PresenceChange,
        MessageKind::BroadcastPresence,
    ] {
        assert!(!conn.accepts(&message(kind, "room")));
    }
    let mut bare = message(MessageKind::JoinRequest, "room");
    bare.msg_ref = None;
    assert!(!conn.accepts(&bare));
}

#[test]
fn a_push_is_written_and_a_close_ends() {
    let mut conn = conn();
    let pushed = message(MessageKind::Push, "room");
    match conn.handle_mailbox_message(pushed, SocketSender(7)) {
        Ok(ConnAction::Reply(_, MessageReply::Push { channel_id, event, payload })) => {
            assert_eq!(channel_id.id(), "room");
            assert_eq!(&*event, "event");
            assert_eq!(payload, Value::from("data"));
        }
        other => panic!("{:?}", other),
    }
    let closed = message(MessageKind::Closed, "_closed");
    let end = conn.handle_mailbox_message(closed, SocketSender(7));
    assert!(matches!(end, Err(axum_channels::Error::Closed)));
}

#[test]
fn an_action_that_fails_is_an_error_unless_a_channel_is_gone() {
    let failed = undelivered(ConnAction::Registry(RegistryMessage::Continue));
    assert!(matches!(
        failed,
        Err(axum_channels::Error::RegistrySend { source: RegistryMessage::Continue })
    ));
    let failed = undelivered(ConnAction::Reply(SocketSender(7), MessageReply::Pong(vec![1])));
    assert!(matches!(
        failed,
        Err(axum_channels::Error::ReplySend { source: MessageReply::Pong(data) }) if data == vec![1]
    ));
    let gone = undelivered(ConnAction::Channel(ChannelSender(1), context(MessageKind::Event)));
    assert!(gone.is_ok());
    assert!(undelivered(ConnAction::Nothing).is_ok());
}

#[test]
fn a_join_that_cannot_be_confirmed_has_failed() {
    let context = join_context();
    let confirmation = context.did_join(Some("r".into()), ChannelSender(1));
    let lost = Effect::Mailbox(MailboxSender(6), confirmation);
    let failed = unsent(lost, "channel closed".to_string());
    assert!(matches!(failed, Err(Error::Send(reason)) if reason == "channel closed"));
    let pushed = context.push(None, "out".into(), Value::Null);
    assert!(unsent(Effect::Mailbox(MailboxSender(6), pushed), String::new()).is_ok());
    let reply = MessageReply::Pong(vec![]);
    assert!(unsent(Effect::Broadcast(BroadcastSender(2), reply), String::new()).is_ok());
    let subscription = Effect::Subscribe {
        ws_sender: SocketSender(7),
        mailbox_sender: MailboxSender(6),
        broadcast: BroadcastSender(2),
        token: Token(5),
        channel_id: "room".into(),
    };
    assert!(unsent(subscription, String::new()).is_ok());
}

#[derive(Debug)]
struct Numbered(u32);

impl NewChannel for Numbered {
    type Channel = (u32, String);

    fn new_channel(&self, channel_id: ChannelId) -> (u32, String) {
        (self.0, channel_id.id().to_string())
    }
}

fn join(
    registry: &mut Registry<Numbered>,
    name: &str,
    fresh: u64,
    now: u128,
) -> Result<(Option<(u32, String)>, u64), registry::Error> {
    let outcome = registry.handle_join_request(
        Token(5),
        name.into(),
        MailboxSender(6),
        SocketSender(7),
        "r".into(),
        Value::from("data"),
        ChannelSender(fresh),
        now,
    );
    let dispatch = outcome?;
    assert!(dispatch.message.is_join());
    assert_eq!(dispatch.message.token, Token(5));
    assert_eq!(dispatch.message.reply_to, Some(MailboxSender(6)));
    assert_eq!(dispatch.message.ws_reply_to, Some(SocketSender(7)));
    assert_eq!(dispatch.message.msg_ref.as_deref(), Some("r"));
    assert_eq!(dispatch.message.inner.msg_ref.as_deref(), Some("r"));
    assert_eq!(&*dispatch.message.inner.event, "phx_join");
    assert_eq!(dispatch.message.inner.payload, Value::from("data"));
    assert_eq!(dispatch.message.channel_id().id(), name);
    let spawned = dispatch.spawn.map(|spawn| {
        assert!(spawn.inactivity_timeout);
        assert_eq!(spawn.sender, ChannelSender(fresh));
        spawn.channel
    });
    Ok((spawned, dispatch.sender.0))
}

fn report(registry: &mut Registry<Numbered>, name: &str, now: u128) -> bool {
    let message = RegistryMessage::Inactivity(name.into(), AnswerSender(3));
    match registry.handle_message(message, ChannelSender(0), now) {
        Ok(Action::Answer(AnswerSender(3), RegistryMessage::Close)) => true,
        Ok(Action::Answer(AnswerSender(3), RegistryMessage::Continue)) => false,
        other => panic!("{:?}", other),
    }
}

#[test]
fn a_template_makes_channels_with_its_key() {
    let mut registry: Registry<Numbered> = Registry::default();
    registry.register_template("room", Numbered(1));
    registry.register_template("room", Numbered(2));
    assert_eq!(join(&mut registry, "room", 10, 0), Err(registry::Error::NoTemplate));
    assert_eq!(join(&mut registry, "hall:a", 11, 0), Err(registry::Error::NoTemplate));
    let made = Some((1, "room:a".to_string()));
    assert_eq!(join(&mut registry, "room:a", 12, 0), Ok((made, 12)));
    assert_eq!(join(&mut registry, "room:a", 13, 0), Ok((None, 12)));
    let made = Some((1, "room:".to_string()));
    assert_eq!(join(&mut registry, "room:", 14, 0), Ok((made, 14)));
}

#[test]
fn an_added_channel_is_the_first_of_its_name() {
    let mut registry: Registry<Numbered> = Registry::default();
    let spawn = registry
        .add_channel("hall".into(), (1, String::new()), ChannelSender(1))
        .unwrap();
    assert!(!spawn.inactivity_timeout);
    assert_eq!(spawn.sender, ChannelSender(1));
    assert_eq!(spawn.channel_id.id(), "hall");
    let spawn = registry
        .add_channel("hall".into(), (2, String::new()), ChannelSender(2))
        .unwrap();
    assert_eq!(spawn.sender, ChannelSender(2));
    assert_eq!(join(&mut registry, "hall", 3, 0), Ok((None, 1)));
}

#[test]
fn a_channel_is_closed_five_seconds_after_the_last_join() {
    let mut registry: Registry<Numbered> = Registry::default();
    registry.register_template("room", Numbered(1));
    assert!(join(&mut registry, "room:a", 1, 100).is_ok());
    assert!(!report(&mut registry, "room:a", 100));
    assert!(!report(&mut registry, "room:a", 100 + WIGGLE_ROOM));
    assert_eq!(join(&mut registry, "room:a", 2, 200), Ok((None, 1)));
    assert!(!report(&mut registry, "room:a", 101 + WIGGLE_ROOM));
    assert!(report(&mut registry, "room:a", 201 + WIGGLE_ROOM));
    let made = Some((1, "room:a".to_string()));
    assert_eq!(join(&mut registry, "room:a", 3, 300 + WIGGLE_ROOM), Ok((made, 3)));
    assert_eq!(WIGGLE_ROOM, 5 * 1_000_000_000);
}

#[test]
fn a_channel_that_nobody_joined_is_closed_at_once() {
    let mut registry: Registry<Numbered> = Registry::default();
    assert!(registry.add_channel("hall".into(), (1, String::new()), ChannelSender(1)).is_ok());
    assert!(report(&mut registry, "hall", 0));
    let message = context(MessageKind::Event);
    assert_eq!(registry.dispatch(&message), Err(registry::Error::NoChannel));
}

#[test]
fn a_dead_channel_leaves_the_registry() {
    let mut registry: Registry<Numbered> = Registry::default();
    assert!(registry.add_channel("room".into(), (1, String::new()), ChannelSender(1)).is_ok());
    let message = context(MessageKind::Event);
    assert_eq!(registry.dispatch(&message), Ok(ChannelSender(1)));
    assert_eq!(registry.channel_dead(&message), registry::Error::ChannelDead);
    assert_eq!(registry.dispatch(&message), Err(registry::Error::NoChannel));
}

#[test]
fn the_registry_can_be_described() {
    let mut registry: Registry<Numbered> = Registry::default();
    registry.register_template("room", Numbered(41));
    let action = registry.handle_message(
        RegistryMessage::Debug(AnswerSender(4)),
        ChannelSender(0),
        0,
    );
    assert!(matches!(action, Ok(Action::Describe(AnswerSender(4)))));
    assert!(format!("{:#?}", registry).contains("41"));
}

#[test]
fn presence_changes_are_announced() {
    let mut channel = PresenceChannel;
    let context = context(MessageKind::Event);
    assert!(channel.handle_message(&context).is_none());
    assert!(channel.handle_out(&context).is_none());
    assert!(matches!(channel.handle_join(&context), Ok(None)));
    assert!(matches!(channel.handle_leave(&context), Ok(None)));
    let change = message(MessageKind::PresenceChange, "room");
    let answer = channel.handle_info(&change).unwrap().unwrap();
    assert_eq!(answer.kind, MessageKind::BroadcastPresence);
    assert_eq!(answer.channel_id.id(), "room");
    assert_eq!(&*answer.event, "event");
    assert_eq!(answer.payload, Value::Null);
    let other = message(MessageKind::Event, "room");
    assert!(matches!(channel.handle_info(&other), Ok(None)));
}

#[test]
fn subscribers_of_a_topic_share_it() {
    let mut pubsub = LocalPubsub::new("behavior");
    let first = Topic::new(BroadcastSender(1), TopicSender(2));
    let second = Topic::new(BroadcastSender(3), TopicSender(4));
    let subscription = pubsub.subscribe("test_topic", Token(1), SubscriberSender(1), first);
    assert_eq!(subscription.unwrap(), (TopicSender(2), BroadcastSender(1)));
    let subscription = pubsub.subscribe("test_topic", Token(2), SubscriberSender(2), second);
    assert_eq!(subscription.unwrap(), (TopicSender(2), BroadcastSender(1)));
    let subscription = pubsub.subscribe("other", Token(1), SubscriberSender(1), second);
    assert_eq!(subscription.unwrap(), (TopicSender(4), BroadcastSender(3)));
}
