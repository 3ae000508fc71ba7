//! A connected socket: what is read from it, what it has joined, and what it does with the
//! messages in its mailbox.

use crate::channel::{ContextView, MessageContext};
use crate::endpoint::{ChannelSender, MailboxSender, SocketSender};
use crate::json::{depth_limit, json_null, reads_back, Json};
use crate::message::{
    decorated, reply_frame, reply_json, Frame, FrameView, Message, MessageKind, MessageReply,
    MessageView, ReplyView,
};
use crate::parser::{
    message_from, message_in, parse_message, ConnFormat, ParseError, Refusal,
};
use crate::registry;
use crate::registry::{with_default, JoinView, RegistryMessage, RequestView};
use crate::table::Table;
use crate::text::shared;
use crate::types::{ChannelId, Token};
use vstd::prelude::*;

verus! {

/// The channels that a socket has joined, with where each takes messages, so that the
/// socket sends to a channel directly.
#[derive(Debug)]
pub struct ReaderSubscriptions {
    channels: Table<ChannelSender>,
    token: Token,
    mailbox_tx: MailboxSender,
}

/// The channels that a socket has joined.
#[verifier::ext_equal]
pub struct SubscriptionsView {
    pub channels: Map<Seq<char>, ChannelSender>,
    pub token: Token,
    pub mailbox_tx: MailboxSender,
}

impl View for ReaderSubscriptions {
    type V = SubscriptionsView;

    closed spec fn view(&self) -> SubscriptionsView {
        SubscriptionsView {
            channels: self.channels@,
            token: self.token,
            mailbox_tx: self.mailbox_tx,
        }
    }
}

/// The message by which a socket leaves a channel.
pub open spec fn leave_message(channel_id: Seq<char>) -> MessageView {
    MessageView {
        kind: MessageKind::Leave,
        channel_id,
        msg_ref: None,
        join_ref: None,
        payload: Json::Null,
        event: "phx_leave"@,
        channel_sender: None,
    }
}

/// The farewells of a socket that is gone: one to each channel that it has joined, where
/// that channel takes messages.
pub open spec fn farewells(
    subscriptions: SubscriptionsView,
    messages: Seq<(ChannelSender, MessageContext)>,
) -> bool {
    &&& forall|i: int|
        0 <= i < messages.len() ==> {
            let name = (#[trigger] messages[i]).1@.inner.channel_id;
            &&& subscriptions.channels.contains_key(name)
            &&& messages[i].0 == subscriptions.channels[name]
            &&& messages[i].1@ == decorated(
                leave_message(name),
                subscriptions.token,
                subscriptions.mailbox_tx,
            )
        }
    &&& forall|i: int, j: int|
        0 <= i < j < messages.len() ==> (#[trigger] messages[i]).1@.inner.channel_id != (
        #[trigger] messages[j]).1@.inner.channel_id
    &&& forall|name: Seq<char>| #[trigger]
        subscriptions.channels.contains_key(name) ==> exists|i: int|
            0 <= i < messages.len() && (#[trigger] messages[i]).1@.inner.channel_id == name
}

impl ReaderSubscriptions {
    /// A socket that has joined no channel.
    pub fn new(token: Token, mailbox_tx: MailboxSender) -> (subscriptions: Self)
        ensures
            subscriptions@ == (SubscriptionsView { channels: Map::empty(), token, mailbox_tx }),
    {
        ReaderSubscriptions { channels: Table::new(), token, mailbox_tx }
    }

    /// Notes that the socket has joined a channel. Where the channel took messages when it
    /// was first joined stays.
    pub fn insert(&mut self, channel_id: ChannelId, sender: ChannelSender)
        ensures
            final(self)@ == (SubscriptionsView {
                channels: with_default(old(self)@.channels, channel_id@, sender),
                ..old(self)@
            }),
    {
        self.channels.or_insert(channel_id.shared_id(), sender);
    }

    /// Where a channel that the socket has joined takes messages.
    pub fn get(&self, channel_id: &ChannelId) -> (sender: Option<ChannelSender>)
        ensures
            match sender {
                Some(s) => self@.channels.contains_key(channel_id@) && s
                    == self@.channels[channel_id@],
                None => !self@.channels.contains_key(channel_id@),
            },
    {
        match self.channels.get(channel_id.id()) {
            Some(sender) => Some(*sender),
            None => None,
        }
    }

    /// What the socket sends when it is gone.
    pub fn leave(&self) -> (messages: Vec<(ChannelSender, MessageContext)>)
        ensures
            farewells(self@, messages@),
    {
        let mut messages: Vec<(ChannelSender, MessageContext)> = Vec::new();
        let len = self.channels.len();
        let ghost keys = self.channels.keys();
        let mut i: usize = 0;
        while i < len
            invariant
                i <= len,
                keys == self.channels.keys(),
                len == keys.len(),
                messages@.len() == i,
                forall|j: int|
                    0 <= j < i ==> {
                        let name = keys[j];
                        &&& (#[trigger] messages@[j]).1@.inner.channel_id == name
                        &&& self@.channels.contains_key(name)
                        &&& messages@[j].0 == self@.channels[name]
                        &&& messages@[j].1@ == decorated(
                            leave_message(name),
                            self@.token,
                            self@.mailbox_tx,
                        )
                    },
            decreases len - i,
        {
            let (name, sender) = self.channels.entry(i);
            let message = Message {
                kind: MessageKind::Leave,
                channel_id: ChannelId::new(&**name),
                channel_sender: None,
                event: shared("phx_leave"),
                join_ref: None,
                msg_ref: None,
                payload: json_null(),
            };
            messages.push((*sender, message.decorate(self.token, self.mailbox_tx)));
            i = i + 1;
        }
        proof {
            assert forall|name: Seq<char>| #[trigger]
                self@.channels.contains_key(name) implies exists|j: int|
                0 <= j < messages@.len() && (#[trigger] messages@[j]).1@.inner.channel_id
                    == name by {
                assert(keys.to_set().contains(name));
                let j = choose|j: int| 0 <= j < keys.len() && keys[j] == name;
                assert(messages@[j].1@.inner.channel_id == name);
            }
        }
        messages
    }
}

/// Why a socket's task did not go on.
#[derive(Debug)]
pub enum Error {
    Registry { source: registry::Error },
    /// A message that the registry did not take.
    RegistrySend { source: RegistryMessage },
    /// A reply that the task that writes the socket did not take.
    ReplySend { source: MessageReply },
    Closed,
}

/// The message by which a socket's own tasks say that it is closed.
pub open spec fn closed_message() -> MessageView {
    MessageView {
        kind: MessageKind::Closed,
        channel_id: "_closed"@,
        msg_ref: None,
        join_ref: None,
        payload: Json::Null,
        event: "closed"@,
        channel_sender: None,
    }
}

/// What the tasks of a socket put in its mailbox when they find it closed.
pub fn handle_close() -> (message: Message)
    ensures
        message@ == closed_message(),
{
    Message {
        kind: MessageKind::Closed,
        channel_id: ChannelId::new("_closed"),
        msg_ref: None,
        join_ref: None,
        payload: json_null(),
        event: shared("closed"),
        channel_sender: None,
    }
}

/// What a frame that was read comes to.
#[derive(Debug)]
pub enum Incoming {
    /// Put a message in the socket's mailbox.
    Mailbox(Message),
    /// Write a reply.
    Reply(MessageReply),
    /// Nothing: the text is no message.
    Unreadable(ParseError),
    /// Put a last message in the socket's mailbox and stop reading.
    Close(Message),
}

/// What a frame that was read comes to.
#[verifier::ext_equal]
pub enum IncomingView {
    Mailbox(MessageView),
    Reply(ReplyView),
    Unreadable(Refusal),
    Close(MessageView),
}

impl View for Incoming {
    type V = IncomingView;

    open spec fn view(&self) -> IncomingView {
        match *self {
            Incoming::Mailbox(message) => IncomingView::Mailbox(message@),
            Incoming::Reply(reply) => IncomingView::Reply(reply@),
            Incoming::Unreadable(error) => IncomingView::Unreadable(error@),
            Incoming::Close(message) => IncomingView::Close(message@),
        }
    }
}

/// What a frame comes to. A text becomes its message, a ping is answered with its own data.
/// The close of a socket and a failure to read end the reading. There is nothing for binary
/// data and pongs.
pub open spec fn read_frame(frame: Option<FrameView>) -> Option<IncomingView> {
    match frame {
        Some(FrameView::Text(text)) => Some(
            match message_from(text) {
                Ok(message) => IncomingView::Mailbox(message),
                Err(refusal) => IncomingView::Unreadable(refusal),
            },
        ),
        Some(FrameView::Ping(data)) => Some(IncomingView::Reply(ReplyView::Pong(data))),
        Some(FrameView::Close) => Some(IncomingView::Close(closed_message())),
        None => Some(IncomingView::Close(closed_message())),
        Some(FrameView::Binary(_)) => None,
        Some(FrameView::Pong(_)) => None,
    }
}

/// What an optional frame holds.
pub open spec fn opt_frame(frame: Option<Frame>) -> Option<FrameView> {
    match frame {
        Some(f) => Some(f@),
        None => None,
    }
}

/// What a frame comes to that was read from a socket, or a failure to read one.
pub fn map_frame(frame: Option<Frame>, format: &ConnFormat) -> (incoming: Incoming)
    requires
        !(frame matches Some(f) && (f is Binary || f is Pong)),
    ensures
        read_frame(opt_frame(frame)) == Some(incoming@),
{
    match frame {
        Some(Frame::Text(text)) => match parse_message(text.as_str(), format) {
            Ok(message) => Incoming::Mailbox(message),
            Err(error) => Incoming::Unreadable(error),
        },
        Some(Frame::Ping(data)) => Incoming::Reply(MessageReply::Pong(data)),
        Some(Frame::Close) => Incoming::Close(handle_close()),
        None => Incoming::Close(handle_close()),
        Some(Frame::Binary(_)) | Some(Frame::Pong(_)) => {
            assert(false);
            Incoming::Close(handle_close())
        },
    }
}

/// Something for the task that reads a socket to do.
#[derive(Debug)]
pub enum ConnAction {
    /// Send a message to the registry.
    Registry(RegistryMessage),
    /// Send a reply to the task that writes the socket.
    Reply(SocketSender, MessageReply),
    /// Send a message to a channel.
    Channel(ChannelSender, MessageContext),
    Nothing,
}

/// Something for the task that reads a socket to do.
#[verifier::ext_equal]
pub enum ConnActionView {
    Registry(RequestView),
    Reply(SocketSender, ReplyView),
    Channel(ChannelSender, ContextView),
    Nothing,
}

impl View for ConnAction {
    type V = ConnActionView;

    open spec fn view(&self) -> ConnActionView {
        match *self {
            ConnAction::Registry(message) => ConnActionView::Registry(message@),
            ConnAction::Reply(sender, reply) => ConnActionView::Reply(sender, reply@),
            ConnAction::Channel(sender, context) => ConnActionView::Channel(sender, context@),
            ConnAction::Nothing => ConnActionView::Nothing,
        }
    }
}

/// A connected socket.
#[derive(Debug)]
pub struct Conn {
    format: ConnFormat,
    mailbox_tx: MailboxSender,
    token: Token,
    subscriptions: ReaderSubscriptions,
}

/// What the task that reads a socket knows.
#[verifier::ext_equal]
pub struct ConnView {
    pub format: ConnFormat,
    pub mailbox_tx: MailboxSender,
    pub token: Token,
    pub subscriptions: SubscriptionsView,
}

impl View for Conn {
    type V = ConnView;

    closed spec fn view(&self) -> ConnView {
        ConnView {
            format: self.format,
            mailbox_tx: self.mailbox_tx,
            token: self.token,
            subscriptions: self.subscriptions@,
        }
    }
}

/// Whether a message can stand in a socket's mailbox: a request to join carries a reference
/// to answer with, a confirmation carries that and, if the channel has not been joined
/// before, where the channel takes messages; the kinds that are for channels alone, or for
/// nobody, do not come here.
pub open spec fn acceptable(conn: ConnView, message: MessageView) -> bool {
    match message.kind {
        MessageKind::JoinRequest => message.msg_ref is Some,
        MessageKind::DidJoin => message.msg_ref is Some && (message.channel_sender is Some
            || conn.subscriptions.channels.contains_key(message.channel_id)),
        MessageKind::Event => true,
        MessageKind::BroadcastIntercept => true,
        MessageKind::Heartbeat => true,
        MessageKind::Push => true,
        MessageKind::Closed => true,
        _ => false,
    }
}

/// What the task knows once it has handled a message: a confirmed join is noted.
pub open spec fn after_mailbox(conn: ConnView, message: MessageView) -> ConnView {
    match message.kind {
        MessageKind::DidJoin => ConnView {
            subscriptions: SubscriptionsView {
                channels: with_default(
                    conn.subscriptions.channels,
                    message.channel_id,
                    message.channel_sender->0,
                ),
                ..conn.subscriptions
            },
            ..conn
        },
        _ => conn,
    }
}

/// What a message in the mailbox comes to: `None` where it says that the socket is closed.
pub open spec fn mailbox_action(
    conn: ConnView,
    message: MessageView,
    reply_sender: SocketSender,
) -> Option<ConnActionView> {
    match message.kind {
        MessageKind::JoinRequest => Some(
            ConnActionView::Registry(
                RequestView::JoinRequest(
                    JoinView {
                        token: conn.token,
                        channel_id: message.channel_id,
                        mailbox_tx: conn.mailbox_tx,
                        reply_sender,
                        msg_ref: message.msg_ref->0,
                        payload: message.payload,
                    },
                ),
            ),
        ),
        MessageKind::DidJoin => Some(
            ConnActionView::Reply(
                reply_sender,
                ReplyView::Join {
                    msg_ref: message.msg_ref->0,
                    channel_id: message.channel_id,
                },
            ),
        ),
        MessageKind::Heartbeat => Some(
            match message.msg_ref {
                Some(msg_ref) => ConnActionView::Reply(
                    reply_sender,
                    ReplyView::Heartbeat { msg_ref },
                ),
                None => ConnActionView::Nothing,
            },
        ),
        MessageKind::Push => Some(
            ConnActionView::Reply(
                reply_sender,
                ReplyView::Push {
                    channel_id: message.channel_id,
                    event: message.event,
                    payload: message.payload,
                },
            ),
        ),
        MessageKind::Closed => None,
        _ => Some(
            if conn.subscriptions.channels.contains_key(message.channel_id) {
                ConnActionView::Channel(
                    conn.subscriptions.channels[message.channel_id],
                    decorated(message, conn.token, conn.mailbox_tx),
                )
            } else {
                ConnActionView::Nothing
            },
        ),
    }
}

impl Conn {
    /// A socket that has just connected.
    pub fn new(format: ConnFormat, mailbox_tx: MailboxSender, token: Token) -> (conn: Self)
        ensures
            conn@ == (ConnView {
                format,
                mailbox_tx,
                token,
                subscriptions: SubscriptionsView { channels: Map::empty(), token, mailbox_tx },
            }),
    {
        let subscriptions = ReaderSubscriptions::new(token, mailbox_tx);
        Conn { format, mailbox_tx, token, subscriptions }
    }

    /// The channels that the socket has joined.
    pub fn subscriptions(&self) -> (subscriptions: &ReaderSubscriptions)
        ensures
            subscriptions@ == self@.subscriptions,
    {
        &self.subscriptions
    }

    /// How messages are written on the socket.
    pub fn format(&self) -> (format: ConnFormat)
        ensures
            format == self@.format,
    {
        self.format
    }

    /// Whether a message can stand in the mailbox.
    pub fn accepts(&self, msg: &Message) -> (result: bool)
        ensures
            result == acceptable(self@, msg@),
    {
        match msg.kind {
            MessageKind::JoinRequest => msg.msg_ref.is_some(),
            MessageKind::DidJoin => msg.msg_ref.is_some() && (msg.channel_sender.is_some()
                || self.subscriptions.get(&msg.channel_id).is_some()),
            MessageKind::Event
            | MessageKind::BroadcastIntercept
            | MessageKind::Heartbeat
            | MessageKind::Push
            | MessageKind::Closed => true,
            _ => false,
        }
    }

    /// Handles a message in the mailbox.
    pub fn handle_mailbox_message(&mut self, msg: Message, reply_sender: SocketSender) -> (action:
        Result<ConnAction, Error>)
        requires
            acceptable(old(self)@, msg@),
        ensures
            final(self)@ == after_mailbox(old(self)@, msg@),
            match action {
                Ok(a) => mailbox_action(old(self)@, msg@, reply_sender) == Some(a@),
                Err(error) => mailbox_action(old(self)@, msg@, reply_sender) is None && error
                    is Closed,
            },
    {
        match msg.kind {
            MessageKind::JoinRequest => Ok(
                ConnAction::Registry(
                    RegistryMessage::JoinRequest {
                        token: self.token,
                        channel_id: msg.channel_id,
                        mailbox_tx: self.mailbox_tx,
                        reply_sender,
                        msg_ref: msg.msg_ref.unwrap(),
                        payload: msg.payload,
                    },
                ),
            ),
            MessageKind::DidJoin => {
                match msg.channel_sender {
                    Some(sender) => self.subscriptions.insert(msg.channel_id.clone(), sender),
                    None => {},
                }
                Ok(
                    ConnAction::Reply(
                        reply_sender,
                        MessageReply::Join {
                            channel_id: msg.channel_id,
                            msg_ref: msg.msg_ref.unwrap(),
                        },
                    ),
                )
            },
            MessageKind::Event | MessageKind::BroadcastIntercept => {
                match self.subscriptions.get(&msg.channel_id) {
                    Some(sender) => Ok(
                        ConnAction::Channel(sender, msg.decorate(self.token, self.mailbox_tx)),
                    ),
                    None => Ok(ConnAction::Nothing),
                }
            },
            MessageKind::Heartbeat => match msg.msg_ref {
                Some(msg_ref) => Ok(
                    ConnAction::Reply(reply_sender, MessageReply::Heartbeat { msg_ref }),
                ),
                None => Ok(ConnAction::Nothing),
            },
            MessageKind::Push => Ok(
                ConnAction::Reply(
                    reply_sender,
                    MessageReply::Push {
                        channel_id: msg.channel_id,
                        event: msg.event,
                        payload: msg.payload,
                    },
                ),
            ),
            MessageKind::Closed => Err(Error::Closed),
            _ => {
                assert(false);
                Err(Error::Closed)
            },
        }
    }
}

/// What can happen to the task that writes a socket.
#[derive(Debug)]
pub enum WriterEvent {
    /// A reply is to be written.
    Reply(MessageReply),
    /// A frame has been written.
    Written,
    /// A frame could not be written.
    Failed,
    /// No reply can come any more.
    Disconnected,
}

/// What the task that writes a socket does next.
#[derive(Debug)]
pub enum WriterStep {
    /// Write a frame.
    Write(Frame),
    /// Wait for a reply.
    Wait,
    /// Put a last message in the socket's mailbox and end.
    Close(Message),
    /// End.
    Stop,
}

/// What the task that writes a socket does next.
#[verifier::ext_equal]
pub enum WriterStepView {
    Write(FrameView),
    Wait,
    Close(MessageView),
    Stop,
}

impl View for WriterStep {
    type V = WriterStepView;

    open spec fn view(&self) -> WriterStepView {
        match *self {
            WriterStep::Write(frame) => WriterStepView::Write(frame@),
            WriterStep::Wait => WriterStepView::Wait,
            WriterStep::Close(message) => WriterStepView::Close(message@),
            WriterStep::Stop => WriterStepView::Stop,
        }
    }
}

/// What the task that writes a socket does when something happens: it writes the frame of
/// each reply, and closes the socket at the first that cannot be written. There is nothing
/// for a reply without a frame.
pub open spec fn writer_stepped(event: WriterEvent) -> Option<WriterStepView> {
    match event {
        WriterEvent::Reply(reply) => match reply_frame(reply@) {
            Some(frame) => Some(WriterStepView::Write(frame)),
            None => None,
        },
        WriterEvent::Written => Some(WriterStepView::Wait),
        WriterEvent::Failed => Some(WriterStepView::Close(closed_message())),
        WriterEvent::Disconnected => Some(WriterStepView::Stop),
    }
}

/// What the task that writes a socket does when something happens.
pub fn write_step(event: WriterEvent) -> (step: WriterStep)
    requires
        !(event matches WriterEvent::Reply(reply) && reply is BroadcastIntercept),
    ensures
        writer_stepped(event) == Some(step@),
        event matches WriterEvent::Reply(reply) ==> (reply_json(reply@) matches Some(fields) ==> (
        step@ matches WriterStepView::Write(FrameView::Text(text)) && (reads_back(
            fields,
            depth_limit(),
        ) ==> message_from(text) == message_in(fields)))),
{
    match event {
        WriterEvent::Reply(reply) => WriterStep::Write(Frame::from_reply(reply)),
        WriterEvent::Written => WriterStep::Wait,
        WriterEvent::Failed => WriterStep::Close(handle_close()),
        WriterEvent::Disconnected => WriterStep::Stop,
    }
}

/// What it means that an action of a socket's task could not be carried out: the registry
/// and the task that writes the socket have to be there, a channel may be gone.
pub fn undelivered(action: ConnAction) -> (result: Result<(), Error>)
    ensures
        match action {
            ConnAction::Registry(source) => result == Err::<(), Error>(
                Error::RegistrySend { source },
            ),
            ConnAction::Reply(_, source) => result == Err::<(), Error>(
                Error::ReplySend { source },
            ),
            ConnAction::Channel(..) => result is Ok,
            ConnAction::Nothing => result is Ok,
        },
{
    match action {
        ConnAction::Registry(source) => Err(Error::RegistrySend { source }),
        ConnAction::Reply(_, source) => Err(Error::ReplySend { source }),
        ConnAction::Channel(..) => Ok(()),
        ConnAction::Nothing => Ok(()),
    }
}

} // verus!
