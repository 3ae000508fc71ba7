//! Topics within one process, and the sockets that have subscribed to them.

use crate::endpoint::BroadcastSender;
use crate::registry::with_default;
use crate::table::Table;
use crate::text::shared;
use crate::types::Token;
use std::collections::HashMap;
use std::marker::PhantomData;
use vstd::prelude::*;

verus! {

broadcast use vstd::std_specs::hash::group_hash_axioms;

/// What is sent through a topic.
#[derive(Debug, Clone)]
pub enum Message {
    Raw(String),
    Reply(String),
}

/// Why a topic could not be subscribed to.
#[derive(Debug, Clone, Copy, PartialEq, Eq, Structural)]
pub enum Error {
    Subscribe,
    NoTopic,
}

/// Sends messages to a topic.
#[derive(Debug, Clone, Copy, PartialEq, Eq, Structural)]
pub struct TopicSender(pub u64);

/// Sends messages to a socket that has subscribed.
#[derive(Debug, Clone, Copy, PartialEq, Eq, Structural)]
pub struct SubscriberSender(pub u64);

/// A topic: where it takes messages, and where it broadcasts them.
#[derive(Debug, Clone, Copy, PartialEq, Eq, Structural)]
pub struct Topic {
    pub broadcaster: BroadcastSender,
    pub sender: TopicSender,
}

impl Topic {
    /// A topic on the given queues.
    pub fn new(broadcaster: BroadcastSender, sender: TopicSender) -> (topic: Topic)
        ensures
            topic == (Topic { broadcaster, sender }),
    {
        Topic { broadcaster, sender }
    }
}

/// The sort of a channel's behavior.
#[derive(Debug)]
pub struct ChannelTemplate<T> {
    pub behavior: PhantomData<T>,
}

/// The topics of a process and the sockets that have subscribed.
#[derive(Debug)]
pub struct LocalPubsub<B> {
    topics: Table<Topic>,
    sockets: HashMap<usize, SubscriberSender>,
    behavior: B,
}

/// The topics of a process and the sockets that have subscribed.
#[verifier::ext_equal]
pub struct PubsubView<B> {
    pub topics: Map<Seq<char>, Topic>,
    pub sockets: Map<usize, SubscriberSender>,
    pub behavior: B,
}

impl<B> View for LocalPubsub<B> {
    type V = PubsubView<B>;

    closed spec fn view(&self) -> PubsubView<B> {
        PubsubView {
            topics: self.topics@,
            sockets: self.sockets@,
            behavior: self.behavior,
        }
    }
}

impl<B> LocalPubsub<B> {
    /// No topics and no sockets.
    pub fn new(behavior: B) -> (pubsub: Self)
        ensures
            pubsub@ == (PubsubView {
                topics: Map::<Seq<char>, Topic>::empty(),
                sockets: Map::<usize, SubscriberSender>::empty(),
                behavior,
            }),
    {
        LocalPubsub { topics: Table::new(), sockets: HashMap::new(), behavior }
    }

    /// Subscribes a socket to a topic; `fresh` becomes the topic if there is none yet. The
    /// topic and the socket that were there first stay. What comes back is where the topic
    /// takes messages and which broadcasts to follow.
    pub fn subscribe(
        &mut self,
        key: &str,
        token: Token,
        socket_sender: SubscriberSender,
        fresh: Topic,
    ) -> (subscription: Result<(TopicSender, BroadcastSender), Error>)
        ensures
            final(self)@ == (PubsubView {
                topics: with_default(old(self)@.topics, key@, fresh),
                sockets: if old(self)@.sockets.contains_key(token.0) {
                    old(self)@.sockets
                } else {
                    old(self)@.sockets.insert(token.0, socket_sender)
                },
                ..old(self)@
            }),
            subscription == Ok::<(TopicSender, BroadcastSender), Error>(
                (final(self)@.topics[key@].sender, final(self)@.topics[key@].broadcaster),
            ),
    {
        self.topics.or_insert(shared(key), fresh);
        if !self.sockets.contains_key(&token.0) {
            self.sockets.insert(token.0, socket_sender);
        }
        match self.topics.get(key) {
            Some(topic) => Ok((topic.sender, topic.broadcaster)),
            None => {
                assert(false);
                Err(Error::NoTopic)
            },
        }
    }
}

} // verus!
