//! A channel that passes on changes in who is present.

use crate::channel::{opt_message, Error, MessageContext};
use crate::json::{json_null, Json};
use crate::message::{Message, MessageKind, MessageView};
use crate::text::share;
use vstd::prelude::*;

verus! {

/// A channel that answers a change in who is present with the presence of all, and nothing
/// else.
#[derive(Clone, Debug)]
pub struct PresenceChannel;

/// What the channel answers to a notice.
pub open spec fn presence_answer(message: MessageView) -> Option<MessageView> {
    if message.kind == MessageKind::PresenceChange {
        Some(
            MessageView {
                kind: MessageKind::BroadcastPresence,
                channel_id: message.channel_id,
                msg_ref: None,
                join_ref: None,
                payload: Json::Null,
                event: message.event,
                channel_sender: None,
            },
        )
    } else {
        None
    }
}

impl PresenceChannel {
    /// Messages are not answered.
    pub fn handle_message(&mut self, _message: &MessageContext) -> (answer: Option<Message>)
        ensures
            answer is None,
    {
        None
    }

    /// Intercepted broadcasts are not passed on.
    pub fn handle_out(&mut self, _message: &MessageContext) -> (answer: Option<Message>)
        ensures
            answer is None,
    {
        None
    }

    /// Every socket may join.
    pub fn handle_join(&mut self, _message: &MessageContext) -> (answer: Result<
        Option<Message>,
        Error,
    >)
        ensures
            answer == Ok::<Option<Message>, Error>(None),
    {
        Ok(None)
    }

    /// A change in who is present is announced to all; other notices are not answered.
    pub fn handle_info(&mut self, message: &Message) -> (answer: Result<Option<Message>, Error>)
        ensures
            answer matches Ok(a) && opt_message(a) == presence_answer(message@),
    {
        match message.kind {
            MessageKind::PresenceChange => Ok(
                Some(
                    Message {
                        kind: MessageKind::BroadcastPresence,
                        channel_id: message.channel_id.clone(),
                        msg_ref: None,
                        join_ref: None,
                        payload: json_null(),
                        event: share(&message.event),
                        channel_sender: None,
                    },
                ),
            ),
            _ => Ok(None),
        }
    }

    /// A socket that leaves is not answered.
    pub fn handle_leave(&mut self, _message: &MessageContext) -> (answer: Result<
        Option<Message>,
        Error,
    >)
        ensures
            answer == Ok::<Option<Message>, Error>(None),
    {
        Ok(None)
    }
}

} // verus!
