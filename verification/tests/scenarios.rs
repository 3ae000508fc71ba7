//! Whole conversations, with every task of the server played in turn.

use axum_channels::channel::{
    route_broadcast, Callback, ChannelRunner, Effect, Error, MessageContext, NewChannel, Presence,
    Routed, RunnerEvent, RunnerStep, Turn,
};
use axum_channels::conn::{map_frame, Conn, ConnAction, Incoming};
use axum_channels::endpoint::{
    AnswerSender, BroadcastSender, ChannelSender, MailboxSender, SocketSender,
};
use axum_channels::message::{Frame, Message, MessageKind, MessageReply};
use axum_channels::registry::{self, Action, Registry, RegistryMessage, Spawn};
use axum_channels::types::{get_token, ChannelId};
use axum_channels::ConnFormat;
use serde_json::Value;
use std::collections::{HashMap, HashSet, VecDeque};

trait Channel {
    fn handle_message(&mut self, _context: &MessageContext) -> Option<Message> {
        None
    }

    fn handle_out(&mut self, _context: &MessageContext) -> Option<Message> {
        None
    }

    fn handle_join(&mut self, _context: &MessageContext) -> Result<Option<Message>, Error> {
        Ok(None)
    }

    fn handle_presence(
        &mut self,
        _channel_id: &ChannelId,
        _presence: &Presence,
    ) -> Result<Option<Message>, Error> {
        Ok(None)
    }

    fn handle_leave(&mut self, _context: &MessageContext) -> Result<Option<Message>, Error> {
        Ok(None)
    }
}

struct Template {
    make: fn() -> Box<dyn Channel>,
}

impl std::fmt::Debug for Template {
    fn fmt(&self, f: &mut std::fmt::Formatter<'_>) -> std::fmt::Result {
        f.write_str("Template")
    }
}

impl NewChannel for Template {
    type Channel = Box<dyn Channel>;

    fn new_channel(&self, _channel_id: ChannelId) -> Box<dyn Channel> {
        (self.make)()
    }
}

struct Task {
    runner: ChannelRunner,
    channel: Box<dyn Channel>,
    inactivity_timeout: bool,
}

struct Socket {
    conn: Option<Conn>,
    written: VecDeque<Frame>,
}

enum Job {
    Mailbox(MailboxSender, Message),
    Registry(RegistryMessage),
    Channel(ChannelSender, MessageContext),
}

/// The server: a task is a value, a queue is a number.
struct Server {
    registry: Registry<Template>,
    tasks: HashMap<u64, Task>,
    followers: HashMap<u64, Vec<(SocketSender, MailboxSender)>>,
    sockets: Vec<Socket>,
    jobs: VecDeque<Job>,
    counter: usize,
    queues: u64,
    now: u128,
    refusals: Vec<registry::Error>,
    answers: Vec<(AnswerSender, RegistryMessage)>,
}

impl Server {
    fn new() -> Self {
        Server {
            registry: Registry::default(),
            tasks: HashMap::new(),
            followers: HashMap::new(),
            sockets: Vec::new(),
            jobs: VecDeque::new(),
            counter: 1,
            queues: 0,
            now: 0,
            refusals: Vec::new(),
            answers: Vec::new(),
        }
    }

    fn queue(&mut self) -> u64 {
        self.queues += 1;
        self.queues
    }

    fn add_channel(&mut self, name: &str, channel: Box<dyn Channel>) {
        let fresh = ChannelSender(self.queue());
        let spawn = self.registry.add_channel(name.into(), channel, fresh).unwrap();
        self.spawn(spawn);
    }

    fn spawn(&mut self, spawn: Spawn<Box<dyn Channel>>) {
        let broadcast = BroadcastSender(self.queue());
        let runner = ChannelRunner::new(spawn.channel_id, spawn.sender, broadcast);
        let task = Task {
            runner,
            channel: spawn.channel,
            inactivity_timeout: spawn.inactivity_timeout,
        };
        self.tasks.insert(spawn.sender.0, task);
    }

    fn connect(&mut self) -> usize {
        let index = self.sockets.len();
        let token = get_token(&mut self.counter);
        let conn = Conn::new(ConnFormat::Phoenix, MailboxSender(index as u64), token);
        self.sockets.push(Socket { conn: Some(conn), written: VecDeque::new() });
        index
    }

    fn send(&mut self, socket: usize, text: &str) {
        self.read(socket, Some(Frame::Text(text.to_string())));
    }

    fn disconnect(&mut self, socket: usize) {
        self.read(socket, None);
    }

    fn read(&mut self, socket: usize, frame: Option<Frame>) {
        let mailbox = MailboxSender(socket as u64);
        let format = self.sockets[socket].conn.as_ref().unwrap().format();
        match map_frame(frame, &format) {
            Incoming::Mailbox(message) => self.jobs.push_back(Job::Mailbox(mailbox, message)),
            Incoming::Close(message) => self.jobs.push_back(Job::Mailbox(mailbox, message)),
            Incoming::Reply(reply) => self.write(SocketSender(socket as u64), reply),
            Incoming::Unreadable(_) => {}
        }
        self.work();
    }

    fn write(&mut self, socket: SocketSender, reply: MessageReply) {
        let socket = &mut self.sockets[socket.0 as usize];
        if socket.conn.is_some() {
            socket.written.push_back(Frame::from_reply(reply));
        }
    }

    fn work(&mut self) {
        while let Some(job) = self.jobs.pop_front() {
            match job {
                Job::Mailbox(mailbox, message) => self.mailbox(mailbox, message),
                Job::Registry(message) => self.ask_registry(message),
                Job::Channel(sender, context) => {
                    self.step(sender, RunnerEvent::Incoming(context));
                }
            }
        }
    }

    fn mailbox(&mut self, mailbox: MailboxSender, message: Message) {
        let index = mailbox.0 as usize;
        let Some(conn) = self.sockets[index].conn.as_mut() else {
            return;
        };
        assert!(conn.accepts(&message));
        match conn.handle_mailbox_message(message, SocketSender(mailbox.0)) {
            Ok(ConnAction::Registry(message)) => self.jobs.push_back(Job::Registry(message)),
            Ok(ConnAction::Reply(socket, reply)) => self.write(socket, reply),
            Ok(ConnAction::Channel(sender, context)) => {
                self.jobs.push_back(Job::Channel(sender, context));
            }
            Ok(ConnAction::Nothing) => {}
            Err(axum_channels::Error::Closed) => {
                let conn = self.sockets[index].conn.take().unwrap();
                for (sender, context) in conn.subscriptions().leave() {
                    self.jobs.push_back(Job::Channel(sender, context));
                }
            }
            Err(e) => panic!("{:?}", e),
        }
    }

    fn ask_registry(&mut self, message: RegistryMessage) {
        let fresh = ChannelSender(self.queue());
        match self.registry.handle_message(message, fresh, self.now) {
            Ok(Action::Dispatch(dispatch)) => {
                if let Some(spawn) = dispatch.spawn {
                    self.spawn(spawn);
                }
                if self.tasks.contains_key(&dispatch.sender.0) {
                    self.jobs.push_back(Job::Channel(dispatch.sender, dispatch.message));
                } else {
                    let error = self.registry.channel_dead(&dispatch.message);
                    self.refusals.push(error);
                }
            }
            Ok(Action::Answer(to, answer)) => self.answers.push((to, answer)),
            Ok(Action::Describe(_)) => {}
            Err(error) => self.refusals.push(error),
        }
    }

    fn step(&mut self, sender: ChannelSender, event: RunnerEvent) {
        let Some(mut task) = self.tasks.remove(&sender.0) else {
            return;
        };
        let mut event = event;
        loop {
            match task.runner.step(event, task.inactivity_timeout) {
                RunnerStep::Call(effects, turn) => {
                    self.carry_out(effects);
                    let outcome = call(&mut task, &turn);
                    assert!(turn.accepts(&outcome));
                    event = RunnerEvent::Answered(turn, outcome);
                }
                RunnerStep::Handled(effects) => {
                    self.carry_out(effects);
                    break;
                }
                RunnerStep::Report(channel_id) => {
                    let answer = AnswerSender(self.queue());
                    self.ask_registry(RegistryMessage::Inactivity(channel_id, answer));
                    let (to, verdict) = self.answers.pop().unwrap();
                    assert_eq!(to, answer);
                    event = RunnerEvent::Verdict(Some(verdict));
                }
                RunnerStep::Wait => break,
                RunnerStep::Stop => return,
            }
        }
        self.tasks.insert(sender.0, task);
    }

    fn carry_out(&mut self, effects: Vec<Effect>) {
        for effect in effects {
            match effect {
                Effect::Mailbox(mailbox, message) => {
                    self.jobs.push_back(Job::Mailbox(mailbox, message));
                }
                Effect::Subscribe { ws_sender, mailbox_sender, broadcast, .. } => {
                    let followers = self.followers.entry(broadcast.0).or_default();
                    followers.push((ws_sender, mailbox_sender));
                }
                Effect::Broadcast(broadcast, reply) => {
                    let followers = self.followers.get(&broadcast.0).cloned().unwrap_or_default();
                    for (ws_sender, mailbox_sender) in followers {
                        match route_broadcast(ws_sender, mailbox_sender, reply.clone()) {
                            Routed::Socket(socket, reply) => self.write(socket, reply),
                            Routed::Mailbox(mailbox, message) => {
                                self.jobs.push_back(Job::Mailbox(mailbox, message));
                            }
                        }
                    }
                }
            }
        }
    }

    /// A minute without messages passes in every channel.
    fn tick(&mut self) {
        let senders: Vec<u64> = self.tasks.keys().copied().collect();
        for sender in senders {
            self.step(ChannelSender(sender), RunnerEvent::Tick);
        }
        self.work();
    }

    fn next(&mut self, socket: usize) -> Option<String> {
        match self.sockets[socket].written.pop_front() {
            Some(Frame::Text(text)) => Some(text),
            Some(other) => panic!("{:?}", other),
            None => None,
        }
    }

    fn next_value(&mut self, socket: usize) -> Value {
        serde_json::from_str(&self.next(socket).unwrap()).unwrap()
    }
}

fn call(task: &mut Task, turn: &Turn) -> Result<Option<Message>, Error> {
    let context = &turn.context;
    match turn.callback() {
        Callback::HandleMessage => Ok(task.channel.handle_message(context)),
        Callback::HandleOut => Ok(task.channel.handle_out(context)),
        Callback::HandleJoin => task.channel.handle_join(context),
        Callback::HandleLeave => task.channel.handle_leave(context),
        Callback::HandlePresence => {
            task.channel.handle_presence(context.channel_id(), task.runner.presence())
        }
    }
}

fn object(entries: Vec<(&str, Value)>) -> Value {
    entries.into_iter().map(|(key, value)| (key.to_string(), value)).collect()
}

struct PresentChannel;

impl Channel for PresentChannel {
    fn handle_presence(
        &mut self,
        channel_id: &ChannelId,
        presence: &Presence,
    ) -> Result<Option<Message>, Error> {
        let data = serde_json::to_value(&presence.data).unwrap();
        Ok(Some(Message {
            channel_id: channel_id.clone(),
            event: "presence".into(),
            payload: object(vec![("presence", data)]),
            kind: MessageKind::Broadcast,
            msg_ref: None,
            join_ref: None,
            channel_sender: None,
        }))
    }
}

fn present_args(frame: &Value) -> HashSet<&str> {
    frame
        .get(4)
        .and_then(|v| v.get("presence"))
        .and_then(|v| v.as_object())
        .unwrap()
        .iter()
        .map(|(_, obj)| obj.get("arg").unwrap().as_str().unwrap())
        .collect::<HashSet<&str>>()
}

#[test]
fn test_presence_join_leave() {
    let mut server = Server::new();
    server.add_channel("default", Box::new(PresentChannel));

    let first = server.connect();
    server.send(first, r#"["1", "1-join", "default", "phx_join", {"arg": "foo1"}]"#);

    let second = server.connect();
    server.send(second, r#"["2", "2-join", "default", "phx_join", {"arg": "foo2"}]"#);

    let _presence1 = server.next_value(first);
    let _join_confirm = server.next_value(first);
    let decoded2 = server.next_value(first);

    let expected = ["foo1", "foo2"].into_iter().collect::<HashSet<&str>>();
    assert_eq!(present_args(&decoded2), expected);

    server.disconnect(second);

    let decoded3 = server.next_value(first);
    let expected2 = ["foo1"].into_iter().collect::<HashSet<&str>>();
    assert_eq!(present_args(&decoded3), expected2);
}

struct StatefulChannel;

impl Channel for StatefulChannel {
    fn handle_join(&mut self, context: &MessageContext) -> Result<Option<Message>, Error> {
        Ok(Some(context.build_push(
            None,
            "join_info".into(),
            object(vec![("token", Value::from(context.token.0))]),
        )))
    }
}

struct TemplateWithDefault;

impl Channel for TemplateWithDefault {}

fn stateful() -> Box<dyn Channel> {
    Box::new(StatefulChannel)
}

fn defaultable() -> Box<dyn Channel> {
    Box::new(TemplateWithDefault)
}

fn with_templates() -> Server {
    let mut server = Server::new();
    server.registry.register_template("stateful", Template { make: stateful });
    server.registry.register_template("defaultable", Template { make: defaultable });
    server
}

#[test]
fn test_channel_templates() {
    let mut server = with_templates();
    let socket = server.connect();

    server.send(socket, r#"["1", "1-join", "defaultable", "phx_join", {"arg": "foo1"}]"#);
    assert!(server.next(socket).is_none());

    server.send(socket, r#"["1", "1-join", "stateful:inst_a", "phx_join", {"arg": "foo1"}]"#);

    let decoded = server.next_value(socket);
    let status = decoded
        .get(4)
        .and_then(|payload| payload.get("status"))
        .and_then(|status| status.as_str());
    assert_eq!(status, Some("ok"));

    let decoded = server.next_value(socket);
    let token = decoded.get(4).and_then(|payload| payload.get("token"));
    assert!(matches!(token, Some(Value::Number(..))));
}

struct EchoChannel;

impl Channel for EchoChannel {
    fn handle_message(&mut self, message: &MessageContext) -> Option<Message> {
        match &message.inner.kind {
            MessageKind::Event => Some(Message {
                msg_ref: None,
                join_ref: None,
                kind: MessageKind::Broadcast,
                event: message.inner.event.clone(),
                payload: message.inner.payload.clone(),
                channel_id: message.channel_id().clone(),
                channel_sender: None,
            }),
            _ => None,
        }
    }

    fn handle_join(&mut self, _message: &MessageContext) -> Result<Option<Message>, Error> {
        Ok(None)
    }
}

fn confirmation(msg_ref: &str, channel: &str) -> String {
    let ok = object(vec![("response", object(vec![])), ("status", "ok".into())]);
    let fields: Vec<Value> =
        vec![Value::Null, msg_ref.into(), channel.into(), "phx_reply".into(), ok];
    Value::Array(fields).to_string()
}

#[test]
fn test_websocket_lifecycle() {
    let mut server = Server::new();
    let name: ChannelId = "default:*".parse().unwrap();
    server.add_channel(name.id(), Box::new(EchoChannel));

    let first = server.connect();
    server.send(first, r#"["1", "1", "default:*", "phx_join", {}]"#);
    let msg1_1 = server.next(first).unwrap();
    assert_eq!(msg1_1, confirmation("1", "default:*"));

    let second = server.connect();
    server.send(second, r#"["2", "2", "default:*", "phx_join", {}]"#);
    let msg2_1 = server.next(second).unwrap();
    assert_eq!(msg2_1, confirmation("2", "default:*"));

    server.send(second, r#"["1", "1", "default:*", "msg", { "text": "hello world"}]"#);
    let msg1_2 = server.next(first).unwrap();
    let msg2_2 = server.next(second).unwrap();
    assert_eq!(msg1_2, r#"[null,null,"default:*","msg",{"text":"hello world"}]"#);
    assert_eq!(msg1_2, msg2_2);
}

#[test]
fn a_refused_join_is_not_answered() {
    struct Closed;
    impl Channel for Closed {
        fn handle_join(&mut self, _context: &MessageContext) -> Result<Option<Message>, Error> {
            Err(Error::Join { reason: "full".to_string() })
        }
    }
    let mut server = Server::new();
    server.add_channel("room", Box::new(Closed));
    let socket = server.connect();
    server.send(socket, r#"[null, "1", "room", "phx_join", {}]"#);
    assert!(server.next(socket).is_none());
    server.send(socket, r#"[null, "2", "room", "msg", {}]"#);
    assert!(server.next(socket).is_none());
    for task in server.tasks.values() {
        assert!(task.runner.presence().is_empty());
    }
}

#[test]
fn an_event_needs_a_join() {
    let mut server = Server::new();
    server.add_channel("room", Box::new(EchoChannel));
    let member = server.connect();
    let stranger = server.connect();
    server.send(member, r#"[null, "1", "room", "join", null]"#);
    assert_eq!(server.next(member).unwrap(), confirmation("1", "room"));
    server.send(stranger, r#"[null, "1", "room", "msg", 1]"#);
    assert!(server.next(member).is_none());
    server.send(member, r#"[null, "1", "room", "msg", 2]"#);
    assert_eq!(server.next(member).unwrap(), r#"[null,null,"room","msg",2]"#);
    assert!(server.next(stranger).is_none());
}

#[test]
fn an_intercepted_broadcast_is_looked_at_for_each_socket() {
    struct Filter;
    impl Channel for Filter {
        fn handle_message(&mut self, context: &MessageContext) -> Option<Message> {
            let event = context.inner.event.clone();
            Some(context.broadcast_intercept(event, context.inner.payload.clone()))
        }

        fn handle_out(&mut self, context: &MessageContext) -> Option<Message> {
            assert_eq!(&*context.inner.event, "news");
            assert_eq!(context.inner.payload, Value::from(7));
            if context.token.0 == 1 {
                Some(context.push(None, "for_one".into(), Value::from(context.token.0)))
            } else {
                None
            }
        }
    }
    let mut server = Server::new();
    server.add_channel("room", Box::new(Filter));
    let first = server.connect();
    let second = server.connect();
    server.send(first, r#"[null, "1", "room", "phx_join", {}]"#);
    server.send(second, r#"[null, "2", "room", "phx_join", {}]"#);
    assert_eq!(server.next(first).unwrap(), confirmation("1", "room"));
    assert_eq!(server.next(second).unwrap(), confirmation("2", "room"));
    server.send(second, r#"[null, "3", "room", "news", 7]"#);
    assert_eq!(server.next(first).unwrap(), r#"[null,null,"room","for_one",1]"#);
    assert!(server.next(first).is_none());
    assert!(server.next(second).is_none());
}

#[test]
fn a_heartbeat_is_answered_with_its_reference() {
    let mut server = Server::new();
    let socket = server.connect();
    server.send(socket, r#"[null, "8", "phoenix", "heartbeat", {}]"#);
    assert_eq!(
        server.next(socket).unwrap(),
        r#"[null,"8","phoenix","phx_reply",{"response":{},"status":"ok"}]"#
    );
    server.send(socket, r#"[null, null, "phoenix", "heartbeat", {}]"#);
    assert!(server.next(socket).is_none());
}

#[test]
fn an_idle_channel_of_a_template_is_closed_and_made_anew() {
    let mut server = with_templates();
    let socket = server.connect();
    server.now = 1_000_000_000;
    server.send(socket, r#"[null, "1", "stateful:a", "phx_join", {}]"#);
    assert_eq!(server.next(socket).unwrap(), confirmation("1", "stateful:a"));
    assert_eq!(server.next(socket).unwrap(), r#"[null,null,"stateful:a","join_info",{"token":1}]"#);
    assert_eq!(server.tasks.len(), 1);

    // Somebody is there.
    server.now = 61_000_000_000;
    server.tick();
    assert_eq!(server.tasks.len(), 1);

    // Nobody is there, but somebody asked to join just now.
    server.disconnect(socket);
    let late = server.connect();
    server.send(late, r#"[null, "1", "stateful:a", "phx_join", {}]"#);
    server.disconnect(late);
    server.now = 66_000_000_000;
    server.tick();
    assert_eq!(server.tasks.len(), 1);

    server.now = 66_000_000_001;
    server.tick();
    assert_eq!(server.tasks.len(), 0);

    let third = server.connect();
    server.send(third, r#"[null, "9", "stateful:a", "phx_join", {}]"#);
    assert_eq!(server.next(third).unwrap(), confirmation("9", "stateful:a"));
    assert_eq!(server.next(third).unwrap(), r#"[null,null,"stateful:a","join_info",{"token":3}]"#);
    assert_eq!(server.tasks.len(), 1);
}

#[test]
fn an_idle_channel_that_was_added_stays() {
    let mut server = Server::new();
    server.add_channel("room", Box::new(EchoChannel));
    server.now = 600_000_000_000;
    server.tick();
    assert_eq!(server.tasks.len(), 1);
}

#[test]
fn a_dead_channel_is_forgotten_and_made_anew() {
    let mut server = with_templates();
    let socket = server.connect();
    server.send(socket, r#"[null, "1", "defaultable:a", "phx_join", {}]"#);
    assert_eq!(server.next(socket).unwrap(), confirmation("1", "defaultable:a"));
    server.tasks.clear();
    let other = server.connect();
    server.send(other, r#"[null, "2", "defaultable:a", "phx_join", {}]"#);
    assert!(server.next(other).is_none());
    assert_eq!(server.refusals, vec![registry::Error::ChannelDead]);
    server.send(other, r#"[null, "3", "defaultable:a", "phx_join", {}]"#);
    assert_eq!(server.next(other).unwrap(), confirmation("3", "defaultable:a"));
}

#[test]
fn a_text_that_is_no_message_is_passed_over() {
    let mut server = Server::new();
    let socket = server.connect();
    server.send(socket, "not json");
    server.send(socket, "{}");
    server.send(socket, r#"[null, "8", "phoenix", "heartbeat"]"#);
    assert_eq!(server.next(socket).unwrap(), confirmation("8", "phoenix"));
}

#[test]
fn a_socket_says_farewell_to_every_channel_once() {
    let mut server = Server::new();
    server.add_channel("a", Box::new(EchoChannel));
    server.add_channel("b", Box::new(EchoChannel));
    let socket = server.connect();
    for text in [
        r#"[null, "1", "a", "phx_join", {}]"#,
        r#"[null, "2", "b", "phx_join", {}]"#,
        r#"[null, "3", "a", "phx_join", {}]"#,
    ] {
        server.send(socket, text);
    }
    let conn = server.sockets[socket].conn.as_ref().unwrap();
    let farewells = conn.subscriptions().leave();
    let mut names: Vec<String> =
        farewells.iter().map(|(_, context)| context.channel_id().id().to_string()).collect();
    names.sort();
    assert_eq!(names, vec!["a", "b"]);
    for (_, context) in &farewells {
        assert!(context.is_leave());
        assert_eq!(context.token.0, 1);
        assert_eq!(&*context.inner.event, "phx_leave");
    }
    server.disconnect(socket);
    for task in server.tasks.values() {
        assert!(task.runner.presence().is_empty());
    }
}
