//! The registry: which channels there are, and which can be made when they are asked for.

use crate::channel::{ContextView, MessageContext, NewChannel};
use crate::endpoint::{AnswerSender, ChannelSender, MailboxSender, SocketSender};
use crate::json::{json, Json};
use crate::message::{Message, MessageKind, MessageView, MsgRef};
use crate::table::Table;
use crate::text::{share, shared};
use crate::types::{key_of, ChannelId, Token};
use serde_json::Value;
use vstd::prelude::*;

verus! {

/// A maker of channels that the registry can hold.
pub trait ChannelTemplate: NewChannel + std::fmt::Debug {

}

impl<T: NewChannel + std::fmt::Debug> ChannelTemplate for T {

}

/// Why the registry did not do what it was asked to.
#[derive(Debug, Clone, Copy, PartialEq, Eq, Structural)]
pub enum Error {
    NoChannel,
    ChannelDead,
    NoTemplate,
    Transport,
}

/// What is asked of the registry, and what it answers.
#[derive(Debug)]
pub enum RegistryMessage {
    JoinRequest {
        token: Token,
        channel_id: ChannelId,
        mailbox_tx: MailboxSender,
        reply_sender: SocketSender,
        msg_ref: MsgRef,
        payload: Value,
    },
    Close,
    Continue,
    Debug(AnswerSender),
    Inactivity(ChannelId, AnswerSender),
}

/// How long after a join a channel is not closed, in nanoseconds: an inactivity that was
/// noticed at the same time as a join is none.
pub const WIGGLE_ROOM: u128 = 5_000_000_000;

/// The registry. Times are nanoseconds of one clock that does not go back.
#[derive(Debug)]
pub struct Registry<T> {
    channels: Table<ChannelSender>,
    templates: Table<T>,
    last_join_at: Table<u128>,
}

/// What the registry knows, by the names of channels and the keys of templates.
#[verifier::ext_equal]
pub struct RegistryView<T> {
    pub channels: Map<Seq<char>, ChannelSender>,
    pub templates: Map<Seq<char>, T>,
    pub last_join_at: Map<Seq<char>, u128>,
}

impl<T> View for Registry<T> {
    type V = RegistryView<T>;

    closed spec fn view(&self) -> RegistryView<T> {
        RegistryView {
            channels: self.channels@,
            templates: self.templates@,
            last_join_at: self.last_join_at@,
        }
    }
}

/// A channel for which a task is to be started.
#[derive(Debug)]
pub struct Spawn<C> {
    pub channel_id: ChannelId,
    pub channel: C,
    pub sender: ChannelSender,
    /// Whether the channel is closed when it is inactive.
    pub inactivity_timeout: bool,
}

/// A message for a channel, and the task that is to be started before it is sent.
#[derive(Debug)]
pub struct Dispatch<C> {
    pub spawn: Option<Spawn<C>>,
    pub sender: ChannelSender,
    pub message: MessageContext,
}

/// Something for the registry's task to do.
#[derive(Debug)]
pub enum Action<C> {
    /// Start the channel if it is new, and send it the message.
    Dispatch(Dispatch<C>),
    /// Send a description of the registry.
    Describe(AnswerSender),
    /// Send an answer.
    Answer(AnswerSender, RegistryMessage),
}

/// A request to join a channel.
#[verifier::ext_equal]
pub struct JoinView {
    pub token: Token,
    pub channel_id: Seq<char>,
    pub mailbox_tx: MailboxSender,
    pub reply_sender: SocketSender,
    pub msg_ref: Seq<char>,
    pub payload: Json,
}

/// What is asked of the registry, and what it answers.
#[verifier::ext_equal]
pub enum RequestView {
    JoinRequest(JoinView),
    Close,
    Continue,
    Debug(AnswerSender),
    Inactivity(Seq<char>, AnswerSender),
}

impl View for RegistryMessage {
    type V = RequestView;

    open spec fn view(&self) -> RequestView {
        match *self {
            RegistryMessage::JoinRequest {
                token,
                channel_id,
                mailbox_tx,
                reply_sender,
                msg_ref,
                payload,
            } => RequestView::JoinRequest(
                JoinView {
                    token,
                    channel_id: channel_id@,
                    mailbox_tx,
                    reply_sender,
                    msg_ref: msg_ref@,
                    payload: json(payload),
                },
            ),
            RegistryMessage::Close => RequestView::Close,
            RegistryMessage::Continue => RequestView::Continue,
            RegistryMessage::Debug(reply_to) => RequestView::Debug(reply_to),
            RegistryMessage::Inactivity(channel_id, reply_to) => RequestView::Inactivity(
                channel_id@,
                reply_to,
            ),
        }
    }
}

/// The map with a value under a key that has none.
pub open spec fn with_default<V>(map: Map<Seq<char>, V>, key: Seq<char>, value: V) -> Map<
    Seq<char>,
    V,
> {
    if map.contains_key(key) {
        map
    } else {
        map.insert(key, value)
    }
}

/// Whether a channel can be joined: it is there, or its key is that of a template.
pub open spec fn joinable<T>(registry: RegistryView<T>, channel_id: Seq<char>) -> bool {
    registry.channels.contains_key(channel_id) || (key_of(channel_id) matches Some(key)
        && registry.templates.contains_key(key))
}

/// The request to join, as the channel gets it.
pub open spec fn join_context(request: JoinView) -> ContextView {
    ContextView {
        token: request.token,
        inner: MessageView {
            kind: MessageKind::JoinRequest,
            channel_id: request.channel_id,
            msg_ref: Some(request.msg_ref),
            join_ref: None,
            payload: request.payload,
            event: "phx_join"@,
            channel_sender: None,
        },
        reply_to: Some(request.mailbox_tx),
        ws_reply_to: Some(request.reply_sender),
        broadcast: None,
        msg_ref: Some(request.msg_ref),
    }
}

/// What the registry knows once a channel has been asked to let a socket join.
pub open spec fn after_join<T>(
    registry: RegistryView<T>,
    channel_id: Seq<char>,
    fresh: ChannelSender,
    now: u128,
) -> RegistryView<T> {
    RegistryView {
        channels: with_default(registry.channels, channel_id, fresh),
        last_join_at: registry.last_join_at.insert(channel_id, now),
        ..registry
    }
}

/// Whether an inactive channel is to be closed: no socket has asked to join it of late.
pub open spec fn closes<T>(registry: RegistryView<T>, channel_id: Seq<char>, now: u128) -> bool {
    registry.last_join_at.contains_key(channel_id) ==> now - registry.last_join_at[channel_id]
        > WIGGLE_ROOM
}

/// What the registry knows once a channel is gone.
pub open spec fn without_channel<T>(registry: RegistryView<T>, channel_id: Seq<char>) -> RegistryView<
    T,
> {
    RegistryView { channels: registry.channels.remove(channel_id), ..registry }
}

/// The answer to a channel that reports that it is inactive.
pub open spec fn verdict<T>(
    registry: RegistryView<T>,
    channel_id: Seq<char>,
    now: u128,
) -> RequestView {
    if closes(registry, channel_id, now) {
        RequestView::Close
    } else {
        RequestView::Continue
    }
}

/// What the registry knows once a channel has reported that it is inactive.
pub open spec fn after_report<T>(
    registry: RegistryView<T>,
    channel_id: Seq<char>,
    now: u128,
) -> RegistryView<T> {
    if closes(registry, channel_id, now) {
        without_channel(registry, channel_id)
    } else {
        registry
    }
}

/// What becomes of a request to join. It is refused, and nothing changes, where the
/// channel cannot be joined. Else it is sent to the channel; where the channel is not there
/// yet, a new one from the template of its key is started first, and closed when inactive.
pub open spec fn join_outcome<T: NewChannel>(
    before: RegistryView<T>,
    after: RegistryView<T>,
    channel_id: ChannelId,
    request: JoinView,
    fresh: ChannelSender,
    now: u128,
    outcome: Result<Dispatch<T::Channel>, Error>,
) -> bool {
    let name = request.channel_id;
    match outcome {
        Ok(dispatch) => {
            &&& joinable(before, name)
            &&& after == after_join(before, name, fresh, now)
            &&& dispatch.sender == after.channels[name]
            &&& dispatch.message@ == join_context(request)
            &&& dispatch.spawn is None <==> before.channels.contains_key(name)
            &&& dispatch.spawn matches Some(spawn) ==> {
                &&& spawn.channel_id@ == name
                &&& spawn.sender == fresh
                &&& spawn.inactivity_timeout
                &&& call_ensures(
                    T::new_channel,
                    (&before.templates[key_of(name)->0], channel_id),
                    spawn.channel,
                )
            }
        },
        Err(error) => {
            &&& !joinable(before, name)
            &&& error == Error::NoTemplate
            &&& after == before
        },
    }
}

impl<T> Default for Registry<T> {
    fn default() -> (registry: Self)
        ensures
            registry@ == (RegistryView {
                channels: Map::<Seq<char>, ChannelSender>::empty(),
                templates: Map::<Seq<char>, T>::empty(),
                last_join_at: Map::<Seq<char>, u128>::empty(),
            }),
    {
        Registry { channels: Table::new(), templates: Table::new(), last_join_at: Table::new() }
    }
}

impl<T: ChannelTemplate> Registry<T> {
    /// Keeps a maker for the channels with a key. The first one for a key stays.
    pub fn register_template(&mut self, key: &str, channel: T)
        ensures
            final(self)@ == (RegistryView {
                templates: with_default(old(self)@.templates, key@, channel),
                ..old(self)@
            }),
    {
        self.templates.or_insert(shared(key), channel);
    }

    /// Adds a channel, which is not closed when it is inactive. A task is to be started
    /// for it; messages go to the channel that was there first under its name.
    pub fn add_channel(
        &mut self,
        channel_id: ChannelId,
        channel: T::Channel,
        fresh: ChannelSender,
    ) -> (spawn: Result<Spawn<T::Channel>, Error>)
        ensures
            spawn == Ok::<Spawn<T::Channel>, Error>(
                Spawn { channel_id, channel, sender: fresh, inactivity_timeout: false },
            ),
            final(self)@ == (RegistryView {
                channels: with_default(old(self)@.channels, channel_id@, fresh),
                ..old(self)@
            }),
    {
        self.add_channel_inner(channel_id, channel, fresh, false)
    }

    fn add_channel_inner(
        &mut self,
        channel_id: ChannelId,
        channel: T::Channel,
        fresh: ChannelSender,
        inactivity_timeout: bool,
    ) -> (spawn: Result<Spawn<T::Channel>, Error>)
        ensures
            spawn == Ok::<Spawn<T::Channel>, Error>(
                Spawn { channel_id, channel, sender: fresh, inactivity_timeout },
            ),
            final(self)@ == (RegistryView {
                channels: with_default(old(self)@.channels, channel_id@, fresh),
                ..old(self)@
            }),
    {
        self.channels.or_insert(channel_id.shared_id(), fresh);
        Ok(Spawn { channel_id, channel, sender: fresh, inactivity_timeout })
    }

    fn add_channel_from_template(&mut self, channel_id: ChannelId, fresh: ChannelSender) -> (spawn:
        Result<Spawn<T::Channel>, Error>)
        requires
            key_of(channel_id@) is Some,
            old(self)@.templates.contains_key(key_of(channel_id@)->0),
        ensures
            final(self)@ == (RegistryView {
                channels: with_default(old(self)@.channels, channel_id@, fresh),
                ..old(self)@
            }),
            spawn matches Ok(s) && {
                &&& s.channel_id == channel_id
                &&& s.sender == fresh
                &&& s.inactivity_timeout
                &&& call_ensures(
                    T::new_channel,
                    (&old(self)@.templates[key_of(channel_id@)->0], channel_id),
                    s.channel,
                )
            },
    {
        let template = self.templates.get(channel_id.key().unwrap()).unwrap();
        let channel = template.new_channel(channel_id.clone());
        self.add_channel_inner(channel_id, channel, fresh, true)
    }

    fn set_last_join_at(&mut self, channel_id: &ChannelId, now: u128)
        ensures
            final(self)@ == (RegistryView {
                last_join_at: old(self)@.last_join_at.insert(channel_id@, now),
                ..old(self)@
            }),
    {
        self.last_join_at.insert(channel_id.shared_id(), now);
    }

    /// Where a message for a channel is to be sent.
    pub fn dispatch(&self, message: &MessageContext) -> (sender: Result<ChannelSender, Error>)
        ensures
            match sender {
                Ok(s) => self@.channels.contains_key(message@.inner.channel_id) && s
                    == self@.channels[message@.inner.channel_id],
                Err(error) => !self@.channels.contains_key(message@.inner.channel_id) && error
                    == Error::NoChannel,
            },
    {
        match self.channels.get(message.channel_id().id()) {
            Some(sender) => Ok(*sender),
            None => Err(Error::NoChannel),
        }
    }

    /// Forgets a channel to which a message could not be sent.
    pub fn channel_dead(&mut self, returned: &MessageContext) -> (error: Error)
        ensures
            error == Error::ChannelDead,
            final(self)@ == without_channel(old(self)@, returned@.inner.channel_id),
    {
        self.channels.remove(returned.channel_id().id());
        Error::ChannelDead
    }

    /// Handles a request to join. `fresh` is where a channel takes messages that is to be
    /// started now; `now` is the time.
    pub fn handle_join_request(
        &mut self,
        token: Token,
        channel_id: ChannelId,
        mailbox_tx: MailboxSender,
        ws_reply_to: SocketSender,
        msg_ref: MsgRef,
        payload: Value,
        fresh: ChannelSender,
        now: u128,
    ) -> (outcome: Result<Dispatch<T::Channel>, Error>)
        ensures
            join_outcome(
                old(self)@,
                final(self)@,
                channel_id,
                (JoinView {
                    token,
                    channel_id: channel_id@,
                    mailbox_tx,
                    reply_sender: ws_reply_to,
                    msg_ref: msg_ref@,
                    payload: json(payload),
                }),
                fresh,
                now,
                outcome,
            ),
    {
        let mut spawn: Option<Spawn<T::Channel>> = None;
        if !self.channels.contains_key(channel_id.id()) {
            let has_template = match channel_id.key() {
                Some(key) => self.templates.contains_key(key),
                None => false,
            };
            if !has_template {
                return Err(Error::NoTemplate);
            }
            match self.add_channel_from_template(channel_id.clone(), fresh) {
                Ok(started) => {
                    spawn = Some(started);
                },
                Err(error) => {
                    return Err(error);
                },
            }
        }
        self.set_last_join_at(&channel_id, now);
        let join_msg = Message {
            kind: MessageKind::JoinRequest,
            channel_id,
            msg_ref: Some(share(&msg_ref)),
            join_ref: None,
            payload,
            event: shared("phx_join"),
            channel_sender: None,
        };
        let mut message = join_msg.decorate(token, mailbox_tx);
        message.ws_reply_to = Some(ws_reply_to);
        message.msg_ref = Some(msg_ref);
        match self.dispatch(&message) {
            Ok(sender) => Ok(Dispatch { spawn, sender, message }),
            Err(error) => Err(error),
        }
    }

    /// Handles what is asked of the registry.
    pub fn handle_message(
        &mut self,
        message: RegistryMessage,
        fresh: ChannelSender,
        now: u128,
    ) -> (action: Result<Action<T::Channel>, Error>)
        requires
            !(message is Close),
            !(message is Continue),
        ensures
            match message {
                RegistryMessage::JoinRequest { channel_id, .. } => {
                    let request = message@->JoinRequest_0;
                    match action {
                        Ok(a) => a matches Action::Dispatch(dispatch) && join_outcome(
                            old(self)@,
                            final(self)@,
                            channel_id,
                            request,
                            fresh,
                            now,
                            Ok(dispatch),
                        ),
                        Err(error) => join_outcome(
                            old(self)@,
                            final(self)@,
                            channel_id,
                            request,
                            fresh,
                            now,
                            Err(error),
                        ),
                    }
                },
                RegistryMessage::Debug(reply_to) => {
                    &&& action == Ok::<Action<T::Channel>, Error>(Action::Describe(reply_to))
                    &&& final(self)@ == old(self)@
                },
                RegistryMessage::Inactivity(channel_id, reply_to) => {
                    &&& action matches Ok(Action::Answer(to, answer))
                    &&& to == reply_to
                    &&& answer@ == verdict(old(self)@, channel_id@, now)
                    &&& final(self)@ == after_report(old(self)@, channel_id@, now)
                },
                RegistryMessage::Close => true,
                RegistryMessage::Continue => true,
            },
    {
        match message {
            RegistryMessage::JoinRequest {
                token,
                channel_id,
                mailbox_tx,
                reply_sender,
                msg_ref,
                payload,
            } => match self.handle_join_request(
                token,
                channel_id,
                mailbox_tx,
                reply_sender,
                msg_ref,
                payload,
                fresh,
                now,
            ) {
                Ok(dispatch) => Ok(Action::Dispatch(dispatch)),
                Err(error) => Err(error),
            },
            RegistryMessage::Debug(reply_to) => Ok(Action::Describe(reply_to)),
            RegistryMessage::Inactivity(channel_id, reply_to) => {
                let should_close = match self.last_join_at.get(channel_id.id()) {
                    Some(joined_at) => now > *joined_at && now - *joined_at > WIGGLE_ROOM,
                    None => true,
                };
                if should_close {
                    self.channels.remove(channel_id.id());
                    Ok(Action::Answer(reply_to, RegistryMessage::Close))
                } else {
                    Ok(Action::Answer(reply_to, RegistryMessage::Continue))
                }
            },
            RegistryMessage::Close | RegistryMessage::Continue => {
                assert(false);
                Err(Error::Transport)
            },
        }
    }
}

} // verus!
