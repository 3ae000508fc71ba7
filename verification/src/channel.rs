//! Channels: who is present, what a message in its context can do, and the turns of the
//! task that runs a channel.

use crate::endpoint::{BroadcastSender, ChannelSender, MailboxSender, SocketSender};
use crate::json::{json, json_null, Json};
use crate::message::{
    broadcast_reply, Event, Message, MessageKind, MessageReply, MessageView, MsgRef, ReplyView,
};
use crate::registry::{RegistryMessage, RequestView};
use crate::text::{opt_text, share_opt, shared};
use crate::types::{ChannelId, Token};
use serde_json::Value;
use std::collections::HashMap;
use vstd::prelude::*;

verus! {

broadcast use vstd::std_specs::hash::group_hash_axioms;

/// How long a channel waits for a message before it looks whether it is inactive, in seconds.
pub const INACTIVITY_PERIOD: u64 = 60;

/// How many broadcasts a channel holds for a socket that is slow to take them.
pub const BROADCAST_CAPACITY: usize = 1024;

/// Who has joined a channel: under the number of each token, what it joined with.
#[derive(Debug)]
pub struct Presence {
    pub data: HashMap<usize, Value>,
}

impl View for Presence {
    type V = Map<usize, Json>;

    open spec fn view(&self) -> Map<usize, Json> {
        self.data@.map_values(|value: Value| json(value))
    }
}

impl Default for Presence {
    fn default() -> (presence: Self)
        ensures
            presence@ == Map::<usize, Json>::empty(),
    {
        let presence = Presence { data: HashMap::new() };
        assert(presence@ =~= Map::<usize, Json>::empty());
        presence
    }
}

impl Presence {
    /// Notes that a socket is there, and what it joined with; what it joined with before
    /// is forgotten.
    pub fn track(&mut self, token: Token, join_data: &Value)
        ensures
            final(self)@ == old(self)@.insert(token.0, json(*join_data)),
    {
        self.data.insert(token.0, join_data.clone());
        assert(self@ =~= old(self)@.insert(token.0, json(*join_data)));
    }

    /// Notes that a socket has left.
    pub fn leave(&mut self, token: Token)
        ensures
            final(self)@ == old(self)@.remove(token.0),
    {
        self.data.remove(&token.0);
        assert(self@ =~= old(self)@.remove(token.0));
    }

    /// Whether no socket is there.
    pub fn is_empty(&self) -> (empty: bool)
        ensures
            empty == (self@ == Map::<usize, Json>::empty()),
    {
        proof {
            if self.data@.is_empty() {
                assert(self@ =~= Map::<usize, Json>::empty());
            } else if self@ == Map::<usize, Json>::empty() {
                assert(self.data@.dom() =~= self@.dom());
                assert(self.data@ =~= Map::<usize, Value>::empty());
            }
        }
        self.data.is_empty()
    }
}

/// Why a channel did not do what it was asked to.
#[derive(Debug)]
pub enum Error {
    Join { reason: String },
    Send(String),
    Other(String),
}

/// A message with the channel and the socket around it.
#[derive(Debug)]
pub struct MessageContext {
    pub token: Token,
    pub inner: Message,
    pub reply_to: Option<MailboxSender>,
    pub ws_reply_to: Option<SocketSender>,
    pub broadcast: Option<BroadcastSender>,
    pub msg_ref: Option<MsgRef>,
}

/// What a message in its context says.
#[verifier::ext_equal]
pub struct ContextView {
    pub token: Token,
    pub inner: MessageView,
    pub reply_to: Option<MailboxSender>,
    pub ws_reply_to: Option<SocketSender>,
    pub broadcast: Option<BroadcastSender>,
    pub msg_ref: Option<Seq<char>>,
}

impl View for MessageContext {
    type V = ContextView;

    open spec fn view(&self) -> ContextView {
        ContextView {
            token: self.token,
            inner: self.inner@,
            reply_to: self.reply_to,
            ws_reply_to: self.ws_reply_to,
            broadcast: self.broadcast,
            msg_ref: opt_text(self.msg_ref),
        }
    }
}

/// Something for the tasks around a channel to do.
#[derive(Debug)]
pub enum Effect {
    /// Send a message to the task that reads a socket.
    Mailbox(MailboxSender, Message),
    /// Send a reply to every socket of a channel.
    Broadcast(BroadcastSender, MessageReply),
    /// Forward what is broadcast from now on to a socket.
    Subscribe {
        ws_sender: SocketSender,
        mailbox_sender: MailboxSender,
        broadcast: BroadcastSender,
        token: Token,
        channel_id: ChannelId,
    },
}

/// What an effect comes to.
#[verifier::ext_equal]
pub enum EffectView {
    Mailbox(MailboxSender, MessageView),
    Broadcast(BroadcastSender, ReplyView),
    Subscribe {
        ws_sender: SocketSender,
        mailbox_sender: MailboxSender,
        broadcast: BroadcastSender,
        token: Token,
        channel_id: Seq<char>,
    },
}

impl View for Effect {
    type V = EffectView;

    open spec fn view(&self) -> EffectView {
        match *self {
            Effect::Mailbox(sender, message) => EffectView::Mailbox(sender, message@),
            Effect::Broadcast(sender, reply) => EffectView::Broadcast(sender, reply@),
            Effect::Subscribe { ws_sender, mailbox_sender, broadcast, token, channel_id } =>
                EffectView::Subscribe {
                ws_sender,
                mailbox_sender,
                broadcast,
                token,
                channel_id: channel_id@,
            },
        }
    }
}

/// What an optional message says.
pub open spec fn opt_message(message: Option<Message>) -> Option<MessageView> {
    match message {
        Some(m) => Some(m@),
        None => None,
    }
}

/// What an optional effect comes to.
pub open spec fn opt_effect(effect: Option<Effect>) -> Option<EffectView> {
    match effect {
        Some(e) => Some(e@),
        None => None,
    }
}

/// What a list of effects comes to.
pub open spec fn effects_view(effects: Seq<Effect>) -> Seq<EffectView> {
    effects.map_values(|effect: Effect| effect@)
}

/// The kinds of messages that a channel can answer with.
pub open spec fn sendable(kind: MessageKind) -> bool {
    kind == MessageKind::Push || kind == MessageKind::Broadcast || kind
        == MessageKind::BroadcastIntercept
}

/// Where a message that a channel answers with goes: a push to the mailbox of the socket
/// that is answered, a broadcast to the sockets of the channel. Where the context lacks
/// that sender, it goes nowhere.
pub open spec fn sent(context: ContextView, message: MessageView) -> Option<EffectView> {
    match message.kind {
        MessageKind::Push => match context.reply_to {
            Some(sender) => Some(EffectView::Mailbox(sender, message)),
            None => None,
        },
        _ => match (broadcast_reply(message), context.broadcast) {
            (Some(reply), Some(sender)) => Some(EffectView::Broadcast(sender, reply)),
            _ => None,
        },
    }
}

/// A message of a channel: an event with its payload, and nothing else.
pub open spec fn channel_message(
    kind: MessageKind,
    channel_id: Seq<char>,
    msg_ref: Option<Seq<char>>,
    event: Seq<char>,
    payload: Json,
) -> MessageView {
    MessageView {
        kind,
        channel_id,
        msg_ref,
        join_ref: None,
        payload,
        event,
        channel_sender: None,
    }
}

/// The message by which a channel tells a socket that it has joined.
pub open spec fn joined(
    channel_id: Seq<char>,
    msg_ref: Option<Seq<char>>,
    channel_sender: ChannelSender,
) -> MessageView {
    MessageView {
        kind: MessageKind::DidJoin,
        channel_id,
        msg_ref,
        join_ref: None,
        payload: Json::Null,
        event: "phx_join"@,
        channel_sender: Some(channel_sender),
    }
}

impl MessageContext {
    /// Whether a socket asks to join.
    pub fn is_join(&self) -> (result: bool)
        ensures
            result == (self@.inner.kind == MessageKind::JoinRequest),
    {
        matches!(self.inner.kind, MessageKind::JoinRequest)
    }

    /// Whether a socket leaves.
    pub fn is_leave(&self) -> (result: bool)
        ensures
            result == (self@.inner.kind == MessageKind::Leave),
    {
        matches!(self.inner.kind, MessageKind::Leave)
    }

    /// Whether this is a broadcast that the channel looks at for each socket.
    pub fn is_intercept(&self) -> (result: bool)
        ensures
            result == (self@.inner.kind == MessageKind::BroadcastIntercept),
    {
        matches!(self.inner.kind, MessageKind::BroadcastIntercept)
    }

    /// The channel that the message is for.
    pub fn channel_id(&self) -> (channel_id: &ChannelId)
        ensures
            *channel_id == self.inner.channel_id,
            channel_id@ == self@.inner.channel_id,
    {
        &self.inner.channel_id
    }

    /// Where a message goes that a channel answers with.
    pub fn send(&self, msg: Message) -> (effect: Option<Effect>)
        requires
            sendable(msg.kind),
        ensures
            opt_effect(effect) == sent(self@, msg@),
    {
        match msg.kind {
            MessageKind::Push => match self.reply_to {
                Some(reply_to) => Some(Effect::Mailbox(reply_to, msg)),
                None => None,
            },
            _ => match MessageReply::try_from(msg) {
                Ok(reply) => match self.broadcast {
                    Some(broadcast) => Some(Effect::Broadcast(broadcast, reply)),
                    None => None,
                },
                Err(_) => None,
            },
        }
    }

    /// A broadcast that the channel looks at for each socket before it is written.
    pub fn broadcast_intercept(&self, event: Event, payload: Value) -> (message: Message)
        ensures
            message@ == channel_message(
                MessageKind::BroadcastIntercept,
                self@.inner.channel_id,
                None,
                event@,
                json(payload),
            ),
    {
        Message {
            join_ref: None,
            msg_ref: None,
            kind: MessageKind::BroadcastIntercept,
            channel_id: self.channel_id().clone(),
            event,
            payload,
            channel_sender: None,
        }
    }

    /// A message to the socket alone; with a reference it is a reply.
    pub fn push(&self, msg_ref: Option<MsgRef>, event: Event, payload: Value) -> (message: Message)
        ensures
            message@ == channel_message(
                MessageKind::Push,
                self@.inner.channel_id,
                opt_text(msg_ref),
                event@,
                json(payload),
            ),
    {
        Message {
            kind: MessageKind::Push,
            channel_id: self.channel_id().clone(),
            msg_ref,
            join_ref: None,
            payload,
            event,
            channel_sender: None,
        }
    }

    /// Another name of `push`.
    pub fn build_push(&self, msg_ref: Option<MsgRef>, event: Event, payload: Value) -> (message:
        Message)
        ensures
            message@ == channel_message(
                MessageKind::Push,
                self@.inner.channel_id,
                opt_text(msg_ref),
                event@,
                json(payload),
            ),
    {
        self.push(msg_ref, event, payload)
    }

    /// A message to every socket of the channel.
    pub fn broadcast(&self, event: Event, payload: Value) -> (message: Message)
        ensures
            message@ == channel_message(
                MessageKind::Broadcast,
                self@.inner.channel_id,
                None,
                event@,
                json(payload),
            ),
    {
        Message {
            kind: MessageKind::Broadcast,
            channel_id: self.channel_id().clone(),
            msg_ref: None,
            join_ref: None,
            payload,
            event,
            channel_sender: None,
        }
    }

    /// The message that tells the socket that it has joined, and where the channel takes
    /// messages.
    pub fn did_join(&self, msg_ref: Option<MsgRef>, channel_sender: ChannelSender) -> (message:
        Message)
        ensures
            message@ == joined(self@.inner.channel_id, opt_text(msg_ref), channel_sender),
    {
        Message {
            join_ref: None,
            kind: MessageKind::DidJoin,
            msg_ref,
            event: shared("phx_join"),
            channel_id: self.channel_id().clone(),
            channel_sender: Some(channel_sender),
            payload: json_null(),
        }
    }
}

/// The calls that a channel's own code answers.
#[derive(Debug, Clone, Copy, PartialEq, Eq, Structural)]
pub enum Callback {
    /// A message from a socket.
    HandleMessage,
    /// An intercepted broadcast, for one socket.
    HandleOut,
    /// A socket that asks to join; an error refuses it.
    HandleJoin,
    /// A socket that has left.
    HandleLeave,
    /// A change in who is present.
    HandlePresence,
}

/// What a turn waits for.
#[derive(Debug)]
pub enum Awaited {
    Message,
    Out,
    Join,
    Leave,
    LeavePresence,
    JoinPresence { response: Option<Message> },
}

/// What a turn waits for.
#[verifier::ext_equal]
pub enum AwaitedView {
    Message,
    Out,
    Join,
    Leave,
    LeavePresence,
    JoinPresence { response: Option<MessageView> },
}

impl View for Awaited {
    type V = AwaitedView;

    open spec fn view(&self) -> AwaitedView {
        match *self {
            Awaited::Message => AwaitedView::Message,
            Awaited::Out => AwaitedView::Out,
            Awaited::Join => AwaitedView::Join,
            Awaited::Leave => AwaitedView::Leave,
            Awaited::LeavePresence => AwaitedView::LeavePresence,
            Awaited::JoinPresence { response } => AwaitedView::JoinPresence {
                response: opt_message(response),
            },
        }
    }
}

/// The handling of one message, stopped where the channel's own code is to be called.
#[derive(Debug)]
pub struct Turn {
    pub context: MessageContext,
    pub awaited: Awaited,
}

/// Where a turn stands.
#[verifier::ext_equal]
pub struct TurnView {
    pub context: ContextView,
    pub awaited: AwaitedView,
}

impl View for Turn {
    type V = TurnView;

    open spec fn view(&self) -> TurnView {
        TurnView { context: self.context@, awaited: self.awaited@ }
    }
}

/// A maker of channels.
pub trait NewChannel {
    /// The channel's own code.
    type Channel;

    /// The code of a new channel of the given name.
    fn new_channel(&self, channel_id: ChannelId) -> Self::Channel;
}

/// What an optional turn stands at.
pub open spec fn opt_turn(turn: Option<Turn>) -> Option<TurnView> {
    match turn {
        Some(t) => Some(t@),
        None => None,
    }
}

/// The call that a turn waits for.
pub open spec fn callback_of(awaited: AwaitedView) -> Callback {
    match awaited {
        AwaitedView::Message => Callback::HandleMessage,
        AwaitedView::Out => Callback::HandleOut,
        AwaitedView::Join => Callback::HandleJoin,
        AwaitedView::Leave => Callback::HandleLeave,
        AwaitedView::LeavePresence => Callback::HandlePresence,
        AwaitedView::JoinPresence { .. } => Callback::HandlePresence,
    }
}

impl Turn {
    /// The call that the turn waits for.
    pub fn callback(&self) -> (callback: Callback)
        ensures
            callback == callback_of(self@.awaited),
    {
        match self.awaited {
            Awaited::Message => Callback::HandleMessage,
            Awaited::Out => Callback::HandleOut,
            Awaited::Join => Callback::HandleJoin,
            Awaited::Leave => Callback::HandleLeave,
            Awaited::LeavePresence => Callback::HandlePresence,
            Awaited::JoinPresence { .. } => Callback::HandlePresence,
        }
    }

    /// Whether the turn can go on with what its call came to.
    pub fn accepts(&self, outcome: &Result<Option<Message>, Error>) -> (result: bool)
        ensures
            result == resumable(self@, outcome_view(*outcome)),
    {
        let replies = self.context.reply_to.is_some();
        match &self.awaited {
            Awaited::Message | Awaited::Out => match outcome {
                Ok(Some(message)) => is_sendable(message.kind),
                _ => true,
            },
            Awaited::Join => match outcome {
                Ok(_) => replies && self.context.ws_reply_to.is_some(),
                Err(_) => true,
            },
            Awaited::Leave => true,
            Awaited::LeavePresence => is_presence(outcome),
            Awaited::JoinPresence { response } => {
                let sendable_response = match response {
                    Some(message) => is_sendable(message.kind),
                    None => true,
                };
                is_presence(outcome) && sendable_response && replies
            },
        }
    }
}

/// Whether a channel can answer with a message of the given kind.
pub fn is_sendable(kind: MessageKind) -> (result: bool)
    ensures
        result == sendable(kind),
{
    matches!(
        kind,
        MessageKind::Push | MessageKind::Broadcast | MessageKind::BroadcastIntercept
    )
}

fn is_presence(outcome: &Result<Option<Message>, Error>) -> (result: bool)
    ensures
        result == (outcome_view(*outcome) matches Some(Some(message)) ==> message.kind
            == MessageKind::Broadcast),
{
    match outcome {
        Ok(Some(message)) => matches!(message.kind, MessageKind::Broadcast),
        _ => true,
    }
}

/// What a call of the channel's own code came to: `None` where it failed, else the
/// message that it answers with.
pub open spec fn outcome_view(outcome: Result<Option<Message>, Error>) -> Option<
    Option<MessageView>,
> {
    match outcome {
        Ok(message) => Some(opt_message(message)),
        Err(_) => None,
    }
}

/// The state of the task that runs a channel.
#[derive(Debug)]
pub struct ChannelRunner {
    incoming_sender: ChannelSender,
    broadcast_sender: BroadcastSender,
    presence: Presence,
    channel_id: ChannelId,
}

/// What the task that runs a channel knows.
#[verifier::ext_equal]
pub struct RunnerView {
    pub incoming_sender: ChannelSender,
    pub broadcast_sender: BroadcastSender,
    pub presence: Map<usize, Json>,
    pub channel_id: Seq<char>,
}

impl View for ChannelRunner {
    type V = RunnerView;

    closed spec fn view(&self) -> RunnerView {
        RunnerView {
            incoming_sender: self.incoming_sender,
            broadcast_sender: self.broadcast_sender,
            presence: self.presence@,
            channel_id: self.channel_id@,
        }
    }
}

/// How the handling of a message begins. The context gets the channel's broadcast sender.
/// A socket that leaves is no longer present.
pub open spec fn incoming(runner: RunnerView, context: ContextView) -> (RunnerView, TurnView) {
    let context = ContextView { broadcast: Some(runner.broadcast_sender), ..context };
    match context.inner.kind {
        MessageKind::Leave => (
            RunnerView { presence: runner.presence.remove(context.token.0), ..runner },
            TurnView { context, awaited: AwaitedView::Leave },
        ),
        MessageKind::BroadcastIntercept => (
            runner,
            TurnView { context, awaited: AwaitedView::Out },
        ),
        MessageKind::JoinRequest => (runner, TurnView { context, awaited: AwaitedView::Join }),
        _ => (runner, TurnView { context, awaited: AwaitedView::Message }),
    }
}

/// What the channel's answer to a change in who is present is broadcast as.
pub open spec fn presence_effects(
    runner: RunnerView,
    outcome: Option<Option<MessageView>>,
) -> Seq<EffectView> {
    match outcome {
        Some(Some(message)) => match broadcast_reply(message) {
            Some(reply) => seq![EffectView::Broadcast(runner.broadcast_sender, reply)],
            None => Seq::empty(),
        },
        _ => Seq::empty(),
    }
}

/// What the channel's answer to a socket comes to.
pub open spec fn response_effects(
    context: ContextView,
    response: Option<MessageView>,
) -> Seq<EffectView> {
    match response {
        Some(message) => match sent(context, message) {
            Some(effect) => seq![effect],
            None => Seq::empty(),
        },
        None => Seq::empty(),
    }
}

/// A response that can be sent.
pub open spec fn sendable_response(response: Option<MessageView>) -> bool {
    response matches Some(message) ==> sendable(message.kind)
}

/// Whether a turn can go on with what its call came to. A join needs the senders of the
/// socket that asks; a channel answers a change in who is present with a broadcast or not
/// at all; it answers a socket with what can be sent.
pub open spec fn resumable(turn: TurnView, outcome: Option<Option<MessageView>>) -> bool {
    let broadcasts = outcome matches Some(Some(message)) ==> message.kind == MessageKind::Broadcast;
    match turn.awaited {
        AwaitedView::Message => outcome matches Some(response) ==> sendable_response(response),
        AwaitedView::Out => outcome matches Some(response) ==> sendable_response(response),
        AwaitedView::Join => outcome is Some ==> turn.context.reply_to is Some
            && turn.context.ws_reply_to is Some,
        AwaitedView::Leave => true,
        AwaitedView::LeavePresence => broadcasts,
        AwaitedView::JoinPresence { response } => broadcasts && sendable_response(response)
            && turn.context.reply_to is Some,
    }
}

/// How a turn goes on: the state of the channel, what there is to do, and where the turn
/// stops next.
pub open spec fn resumed(
    runner: RunnerView,
    turn: TurnView,
    outcome: Option<Option<MessageView>>,
) -> (RunnerView, Seq<EffectView>, Option<TurnView>) {
    let context = turn.context;
    let response = match outcome {
        Some(message) => message,
        None => None,
    };
    match turn.awaited {
        AwaitedView::Message => (runner, response_effects(context, response), None),
        AwaitedView::Out => (runner, response_effects(context, response), None),
        AwaitedView::Join => match outcome {
            Some(response) => (
                RunnerView {
                    presence: runner.presence.insert(context.token.0, context.inner.payload),
                    ..runner
                },
                seq![
                    EffectView::Subscribe {
                        ws_sender: context.ws_reply_to->0,
                        mailbox_sender: context.reply_to->0,
                        broadcast: runner.broadcast_sender,
                        token: context.token,
                        channel_id: runner.channel_id,
                    },
                ],
                Some(TurnView { context, awaited: AwaitedView::JoinPresence { response } }),
            ),
            None => (runner, Seq::empty(), None),
        },
        AwaitedView::Leave => (
            runner,
            Seq::empty(),
            Some(TurnView { context, awaited: AwaitedView::LeavePresence }),
        ),
        AwaitedView::LeavePresence => (runner, presence_effects(runner, outcome), None),
        AwaitedView::JoinPresence { response } => (
            runner,
            presence_effects(runner, outcome) + seq![
                EffectView::Mailbox(
                    context.reply_to->0,
                    joined(context.inner.channel_id, context.msg_ref, runner.incoming_sender),
                ),
            ] + response_effects(context, response),
            None,
        ),
    }
}

impl ChannelRunner {
    /// A channel in which no socket is present.
    pub fn new(
        channel_id: ChannelId,
        incoming_sender: ChannelSender,
        broadcast_sender: BroadcastSender,
    ) -> (runner: Self)
        ensures
            runner@ == (RunnerView {
                incoming_sender,
                broadcast_sender,
                presence: Map::empty(),
                channel_id: channel_id@,
            }),
    {
        ChannelRunner {
            incoming_sender,
            broadcast_sender,
            presence: Presence::default(),
            channel_id,
        }
    }

    /// Who is present.
    pub fn presence(&self) -> (presence: &Presence)
        ensures
            presence@ == self@.presence,
    {
        &self.presence
    }

    /// Begins to handle a message.
    pub fn handle_incoming(&mut self, context: MessageContext) -> (turn: Turn)
        ensures
            (final(self)@, turn@) == incoming(old(self)@, context@),
    {
        let mut context = context;
        context.broadcast = Some(self.broadcast_sender);
        if context.is_leave() {
            self.handle_leave(context)
        } else {
            let awaited = if context.is_intercept() {
                Awaited::Out
            } else if context.is_join() {
                Awaited::Join
            } else {
                Awaited::Message
            };
            Turn { context, awaited }
        }
    }

    fn handle_leave(&mut self, context: MessageContext) -> (turn: Turn)
        ensures
            final(self)@ == (RunnerView {
                presence: old(self)@.presence.remove(context.token.0),
                ..old(self)@
            }),
            turn@ == (TurnView { context: context@, awaited: AwaitedView::Leave }),
    {
        self.presence.leave(context.token);
        Turn { context, awaited: Awaited::Leave }
    }

    /// Goes on with a turn, once the channel's own code has answered the call that it
    /// waits for.
    pub fn resume(&mut self, turn: Turn, outcome: Result<Option<Message>, Error>) -> (next: (
        Vec<Effect>,
        Option<Turn>,
    ))
        requires
            resumable(turn@, outcome_view(outcome)),
        ensures
            (final(self)@, effects_view(next.0@), opt_turn(next.1)) == resumed(
                old(self)@,
                turn@,
                outcome_view(outcome),
            ),
    {
        let Turn { context, awaited } = turn;
        match awaited {
            Awaited::Message | Awaited::Out => {
                let response = match outcome {
                    Ok(response) => response,
                    Err(_) => None,
                };
                let effects = Self::respond(&context, response);
                (effects, None)
            },
            Awaited::Join => match outcome {
                Ok(response) => {
                    let effects = self.handle_join(&context);
                    (effects, Some(Turn { context, awaited: Awaited::JoinPresence { response } }))
                },
                Err(_) => {
                    let effects: Vec<Effect> = Vec::new();
                    assert(effects_view(effects@) =~= Seq::<EffectView>::empty());
                    (effects, None)
                },
            },
            Awaited::Leave => {
                let effects: Vec<Effect> = Vec::new();
                assert(effects_view(effects@) =~= Seq::<EffectView>::empty());
                (effects, Some(Turn { context, awaited: Awaited::LeavePresence }))
            },
            Awaited::LeavePresence => {
                let effects = self.handle_presence(outcome);
                (effects, None)
            },
            Awaited::JoinPresence { response } => {
                let mut effects = self.handle_presence(outcome);
                let ghost presented = effects_view(effects@);
                let confirmation = context.did_join(
                    share_opt(&context.msg_ref),
                    self.incoming_sender,
                );
                let ghost confirmed = confirmation@;
                match context.reply_to {
                    Some(reply_to) => effects.push(Effect::Mailbox(reply_to, confirmation)),
                    None => {
                        assert(false);
                    },
                }
                let ghost before = effects@;
                assert(effects_view(before) =~= presented + seq![
                    EffectView::Mailbox(context.reply_to->0, confirmed),
                ]);
                let mut rest = Self::respond(&context, response);
                let ghost responded = rest@;
                effects.append(&mut rest);
                assert(effects_view(effects@) =~= effects_view(before) + effects_view(responded));
                (effects, None)
            },
        }
    }

    fn respond(context: &MessageContext, response: Option<Message>) -> (effects: Vec<Effect>)
        requires
            sendable_response(opt_message(response)),
        ensures
            effects_view(effects@) == response_effects(context@, opt_message(response)),
    {
        let mut effects: Vec<Effect> = Vec::new();
        match response {
            Some(message) => match context.send(message) {
                Some(effect) => effects.push(effect),
                None => {},
            },
            None => {},
        }
        assert(effects_view(effects@) =~= response_effects(context@, opt_message(response)));
        effects
    }

    fn handle_join(&mut self, context: &MessageContext) -> (effects: Vec<Effect>)
        requires
            context.reply_to is Some,
            context.ws_reply_to is Some,
        ensures
            final(self)@ == (RunnerView {
                presence: old(self)@.presence.insert(context.token.0, context@.inner.payload),
                ..old(self)@
            }),
            effects_view(effects@) == seq![
                EffectView::Subscribe {
                    ws_sender: context.ws_reply_to->0,
                    mailbox_sender: context.reply_to->0,
                    broadcast: old(self)@.broadcast_sender,
                    token: context.token,
                    channel_id: old(self)@.channel_id,
                },
            ],
    {
        let mut effects: Vec<Effect> = Vec::new();
        match (context.reply_to, context.ws_reply_to) {
            (Some(mailbox_sender), Some(ws_sender)) => {
                effects.push(
                    Effect::Subscribe {
                        ws_sender,
                        mailbox_sender,
                        broadcast: self.broadcast_sender,
                        token: context.token,
                        channel_id: self.channel_id.clone(),
                    },
                );
            },
            _ => {
                assert(false);
            },
        }
        self.presence.track(context.token, &context.inner.payload);
        assert(effects_view(effects@) =~= seq![
            EffectView::Subscribe {
                ws_sender: context.ws_reply_to->0,
                mailbox_sender: context.reply_to->0,
                broadcast: old(self)@.broadcast_sender,
                token: context.token,
                channel_id: old(self)@.channel_id,
            },
        ]);
        effects
    }

    fn handle_presence(&self, outcome: Result<Option<Message>, Error>) -> (effects: Vec<Effect>)
        requires
            outcome_view(outcome) matches Some(Some(message)) ==> message.kind
                == MessageKind::Broadcast,
        ensures
            effects_view(effects@) == presence_effects(self@, outcome_view(outcome)),
    {
        let mut effects: Vec<Effect> = Vec::new();
        match outcome {
            Ok(Some(msg)) => {
                effects.push(
                    Effect::Broadcast(
                        self.broadcast_sender,
                        MessageReply::Broadcast {
                            event: msg.event,
                            payload: msg.payload,
                            channel_id: msg.channel_id,
                        },
                    ),
                );
            },
            _ => {},
        }
        assert(effects_view(effects@) =~= presence_effects(self@, outcome_view(outcome)));
        effects
    }

    /// The channel to report as inactive, when a while has passed without messages: this
    /// one, if it is to be closed at all and no socket is present.
    fn inactive(&self, inactivity_timeout: bool) -> (channel_id: Option<ChannelId>)
        ensures
            match channel_id {
                Some(id) => inactivity_timeout && self@.presence == Map::<usize, Json>::empty()
                    && id@ == self@.channel_id,
                None => !(inactivity_timeout && self@.presence == Map::<usize, Json>::empty()),
            },
    {
        if inactivity_timeout && self.presence.is_empty() {
            Some(self.channel_id.clone())
        } else {
            None
        }
    }

    /// Whether the channel shuts down on what the registry answers to its report of
    /// inactivity; without an answer it stays.
    fn shuts_down(answer: Option<RegistryMessage>) -> (result: bool)
        ensures
            result == (answer matches Some(message) && message is Close),
    {
        matches!(answer, Some(RegistryMessage::Close))
    }
}

/// What can happen to the task that runs a channel.
#[derive(Debug)]
pub enum RunnerEvent {
    /// A message comes in.
    Incoming(MessageContext),
    /// No message can come in any more.
    Disconnected,
    /// The channel's own code has answered the call that a turn waits for.
    Answered(Turn, Result<Option<Message>, Error>),
    /// A while has passed since the last message was handled.
    Tick,
    /// The registry has answered a report of inactivity, or has failed to.
    Verdict(Option<RegistryMessage>),
}

/// What can happen to the task that runs a channel.
#[verifier::ext_equal]
pub enum RunnerEventView {
    Incoming(ContextView),
    Disconnected,
    Answered(TurnView, Option<Option<MessageView>>),
    Tick,
    Verdict(Option<RequestView>),
}

impl View for RunnerEvent {
    type V = RunnerEventView;

    open spec fn view(&self) -> RunnerEventView {
        match *self {
            RunnerEvent::Incoming(context) => RunnerEventView::Incoming(context@),
            RunnerEvent::Disconnected => RunnerEventView::Disconnected,
            RunnerEvent::Answered(turn, outcome) => RunnerEventView::Answered(
                turn@,
                outcome_view(outcome),
            ),
            RunnerEvent::Tick => RunnerEventView::Tick,
            RunnerEvent::Verdict(answer) => RunnerEventView::Verdict(
                match answer {
                    Some(message) => Some(message@),
                    None => None,
                },
            ),
        }
    }
}

/// What the task that runs a channel does next.
#[derive(Debug)]
pub enum RunnerStep {
    /// Carry out the effects in order, then make the call that the turn waits for.
    Call(Vec<Effect>, Turn),
    /// Carry out the effects in order; the message is handled, and the time without
    /// messages starts anew.
    Handled(Vec<Effect>),
    /// Report the channel to the registry as inactive.
    Report(ChannelId),
    /// Wait for what happens next.
    Wait,
    /// End.
    Stop,
}

/// What the task that runs a channel does next.
#[verifier::ext_equal]
pub enum RunnerStepView {
    Call(Seq<EffectView>, TurnView),
    Handled(Seq<EffectView>),
    Report(Seq<char>),
    Wait,
    Stop,
}

impl View for RunnerStep {
    type V = RunnerStepView;

    open spec fn view(&self) -> RunnerStepView {
        match *self {
            RunnerStep::Call(effects, turn) => RunnerStepView::Call(
                effects_view(effects@),
                turn@,
            ),
            RunnerStep::Handled(effects) => RunnerStepView::Handled(effects_view(effects@)),
            RunnerStep::Report(channel_id) => RunnerStepView::Report(channel_id@),
            RunnerStep::Wait => RunnerStepView::Wait,
            RunnerStep::Stop => RunnerStepView::Stop,
        }
    }
}

/// What the task that runs a channel does when something happens. It ends when no message
/// can come in any more, and when the registry confirms that it is inactive; it reports
/// that it is when a while has passed, it is to be closed at all, and nobody is present.
pub open spec fn stepped(
    runner: RunnerView,
    event: RunnerEventView,
    inactivity_timeout: bool,
) -> (RunnerView, RunnerStepView) {
    match event {
        RunnerEventView::Incoming(context) => {
            let (after, turn) = incoming(runner, context);
            (after, RunnerStepView::Call(Seq::empty(), turn))
        },
        RunnerEventView::Disconnected => (runner, RunnerStepView::Stop),
        RunnerEventView::Answered(turn, outcome) => {
            let (after, effects, next) = resumed(runner, turn, outcome);
            match next {
                Some(turn) => (after, RunnerStepView::Call(effects, turn)),
                None => (after, RunnerStepView::Handled(effects)),
            }
        },
        RunnerEventView::Tick => if inactivity_timeout && runner.presence == Map::<
            usize,
            Json,
        >::empty() {
            (runner, RunnerStepView::Report(runner.channel_id))
        } else {
            (runner, RunnerStepView::Wait)
        },
        RunnerEventView::Verdict(answer) => if answer == Some(RequestView::Close) {
            (runner, RunnerStepView::Stop)
        } else {
            (runner, RunnerStepView::Wait)
        },
    }
}

impl ChannelRunner {
    /// What the task does when something happens. With `inactivity_timeout` the channel is
    /// closed when it is inactive; without, a tick is ignored.
    pub fn step(&mut self, event: RunnerEvent, inactivity_timeout: bool) -> (step: RunnerStep)
        requires
            event@ matches RunnerEventView::Answered(turn, outcome) ==> resumable(turn, outcome),
        ensures
            (final(self)@, step@) == stepped(old(self)@, event@, inactivity_timeout),
    {
        match event {
            RunnerEvent::Incoming(context) => {
                let turn = self.handle_incoming(context);
                let effects: Vec<Effect> = Vec::new();
                assert(effects_view(effects@) =~= Seq::<EffectView>::empty());
                RunnerStep::Call(effects, turn)
            },
            RunnerEvent::Disconnected => RunnerStep::Stop,
            RunnerEvent::Answered(turn, outcome) => {
                let (effects, next) = self.resume(turn, outcome);
                match next {
                    Some(turn) => RunnerStep::Call(effects, turn),
                    None => RunnerStep::Handled(effects),
                }
            },
            RunnerEvent::Tick => match self.inactive(inactivity_timeout) {
                Some(channel_id) => RunnerStep::Report(channel_id),
                None => RunnerStep::Wait,
            },
            RunnerEvent::Verdict(answer) => if Self::shuts_down(answer) {
                RunnerStep::Stop
            } else {
                RunnerStep::Wait
            },
        }
    }
}

/// What it means that an effect could not be carried out, for the given reason: a join that
/// cannot be confirmed has failed; a push or a broadcast that nobody takes is let go.
pub fn unsent(effect: Effect, reason: String) -> (result: Result<(), Error>)
    ensures
        match effect {
            Effect::Mailbox(_, message) => if message.kind == MessageKind::DidJoin {
                result == Err::<(), Error>(Error::Send(reason))
            } else {
                result is Ok
            },
            Effect::Broadcast(..) => result is Ok,
            Effect::Subscribe { .. } => result is Ok,
        },
{
    match effect {
        Effect::Mailbox(_, message) => match message.kind {
            MessageKind::DidJoin => Err(Error::Send(reason)),
            _ => Ok(()),
        },
        Effect::Broadcast(..) => Ok(()),
        Effect::Subscribe { .. } => Ok(()),
    }
}

/// Where a broadcast goes, for one socket that has joined.
#[derive(Debug)]
pub enum Routed {
    /// Back to the task that reads the socket, for the channel to look at.
    Mailbox(MailboxSender, Message),
    /// To the task that writes the socket.
    Socket(SocketSender, MessageReply),
}

/// Where a broadcast goes, for one socket that has joined.
#[verifier::ext_equal]
pub enum RoutedView {
    Mailbox(MailboxSender, MessageView),
    Socket(SocketSender, ReplyView),
}

impl View for Routed {
    type V = RoutedView;

    open spec fn view(&self) -> RoutedView {
        match *self {
            Routed::Mailbox(sender, message) => RoutedView::Mailbox(sender, message@),
            Routed::Socket(sender, reply) => RoutedView::Socket(sender, reply@),
        }
    }
}

/// An intercept goes back to the channel by way of the socket's mailbox, anything else to
/// the socket.
pub open spec fn routed(
    ws_sender: SocketSender,
    mailbox_sender: MailboxSender,
    reply: ReplyView,
) -> RoutedView {
    match reply {
        ReplyView::BroadcastIntercept { channel_id, event, payload } => RoutedView::Mailbox(
            mailbox_sender,
            channel_message(MessageKind::BroadcastIntercept, channel_id, None, event, payload),
        ),
        _ => RoutedView::Socket(ws_sender, reply),
    }
}

/// Routes a broadcast to one socket that has joined.
pub fn route_broadcast(
    ws_sender: SocketSender,
    mailbox_sender: MailboxSender,
    msg_reply: MessageReply,
) -> (route: Routed)
    ensures
        route@ == routed(ws_sender, mailbox_sender, msg_reply@),
{
    match msg_reply {
        MessageReply::BroadcastIntercept { channel_id, event, payload } => Routed::Mailbox(
            mailbox_sender,
            Message {
                channel_id,
                kind: MessageKind::BroadcastIntercept,
                msg_ref: None,
                join_ref: None,
                payload,
                event,
                channel_sender: None,
            },
        ),
        other => Routed::Socket(ws_sender, other),
    }
}

/// What can happen to the task that forwards a channel's broadcasts to one socket.
#[derive(Debug)]
pub enum ForwardEvent {
    /// The channel broadcasts.
    Broadcast(MessageReply),
    /// What was sent last has been taken.
    Delivered,
    /// What was sent last has not been taken: the task that takes it is gone.
    Undelivered(Routed),
    /// No broadcast can be followed any more.
    Disconnected,
}

/// What can happen to the task that forwards a channel's broadcasts to one socket.
#[verifier::ext_equal]
pub enum ForwardEventView {
    Broadcast(ReplyView),
    Delivered,
    Undelivered(RoutedView),
    Disconnected,
}

impl View for ForwardEvent {
    type V = ForwardEventView;

    open spec fn view(&self) -> ForwardEventView {
        match *self {
            ForwardEvent::Broadcast(reply) => ForwardEventView::Broadcast(reply@),
            ForwardEvent::Delivered => ForwardEventView::Delivered,
            ForwardEvent::Undelivered(route) => ForwardEventView::Undelivered(route@),
            ForwardEvent::Disconnected => ForwardEventView::Disconnected,
        }
    }
}

/// What the task that forwards broadcasts does next.
#[derive(Debug)]
pub enum ForwardStep {
    /// Send what was broadcast where it goes.
    Send(Routed),
    /// Wait for the next broadcast.
    Wait,
    /// End.
    Stop,
}

/// What the task that forwards broadcasts does next.
#[verifier::ext_equal]
pub enum ForwardStepView {
    Send(RoutedView),
    Wait,
    Stop,
}

impl View for ForwardStep {
    type V = ForwardStepView;

    open spec fn view(&self) -> ForwardStepView {
        match *self {
            ForwardStep::Send(route) => ForwardStepView::Send(route@),
            ForwardStep::Wait => ForwardStepView::Wait,
            ForwardStep::Stop => ForwardStepView::Stop,
        }
    }
}

/// What the task that forwards broadcasts does when something happens: it routes each one,
/// and ends when the socket takes no more or the channel is gone. There is nothing for an
/// intercept that the socket's mailbox does not take.
pub open spec fn forward_stepped(
    event: ForwardEventView,
    ws_sender: SocketSender,
    mailbox_sender: MailboxSender,
) -> Option<ForwardStepView> {
    match event {
        ForwardEventView::Broadcast(reply) => Some(
            ForwardStepView::Send(routed(ws_sender, mailbox_sender, reply)),
        ),
        ForwardEventView::Delivered => Some(ForwardStepView::Wait),
        ForwardEventView::Undelivered(RoutedView::Socket(..)) => Some(ForwardStepView::Stop),
        ForwardEventView::Undelivered(RoutedView::Mailbox(..)) => None,
        ForwardEventView::Disconnected => Some(ForwardStepView::Stop),
    }
}

/// What the task that forwards broadcasts does when something happens.
pub fn forward_step(
    event: ForwardEvent,
    ws_sender: SocketSender,
    mailbox_sender: MailboxSender,
) -> (step: ForwardStep)
    requires
        !(event matches ForwardEvent::Undelivered(route) && route is Mailbox),
    ensures
        forward_stepped(event@, ws_sender, mailbox_sender) == Some(step@),
{
    match event {
        ForwardEvent::Broadcast(reply) => ForwardStep::Send(
            route_broadcast(ws_sender, mailbox_sender, reply),
        ),
        ForwardEvent::Delivered => ForwardStep::Wait,
        ForwardEvent::Undelivered(_) => ForwardStep::Stop,
        ForwardEvent::Disconnected => ForwardStep::Stop,
    }
}

} // verus!
