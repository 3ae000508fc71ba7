//! What the values of the library say is what they hold.

use crate::channel::{
    effects_view, opt_effect, opt_message, opt_turn, outcome_view, Awaited, AwaitedView, Effect,
    EffectView, Error, ForwardEvent, ForwardEventView, ForwardStep, ForwardStepView,
    MessageContext, Presence, Routed, RoutedView, RunnerEvent, RunnerEventView, RunnerStep,
    RunnerStepView, Turn,
};
use crate::conn::{
    opt_frame, ConnAction, ConnActionView, Incoming, IncomingView, WriterStep, WriterStepView,
};
use crate::json::{json, jsons};
use crate::message::{Frame, FrameView, Message, MessageReply, MessageView, ReplyView};
use crate::parser::{read_view, ParseError, Refusal};
use crate::registry::{RegistryMessage, RequestView};
use crate::text::opt_text;
use serde_json::Value;
use std::sync::Arc;
use vstd::prelude::*;

verus! {

/// A message says all its fields.
pub proof fn law_message_says(message: Message)
    ensures
        message@.kind == message.kind,
        message@.channel_id == message.channel_id@,
        message@.msg_ref == opt_text(message.msg_ref),
        message@.join_ref == opt_text(message.join_ref),
        message@.payload == json(message.payload),
        message@.event == message.event@,
        message@.channel_sender == message.channel_sender,
{
}

/// A message in its context says that message and all that stands around it.
pub proof fn law_context_says(context: MessageContext)
    ensures
        context@.token == context.token,
        context@.inner == context.inner@,
        context@.reply_to == context.reply_to,
        context@.ws_reply_to == context.ws_reply_to,
        context@.broadcast == context.broadcast,
        context@.msg_ref == opt_text(context.msg_ref),
{
}

/// A reply says what it holds, each sort as itself.
pub proof fn law_reply_says(reply: MessageReply)
    ensures
        reply matches MessageReply::Reply(text) ==> reply@ == ReplyView::Reply(text@),
        reply matches MessageReply::Broadcast { event, payload, channel_id } ==> reply@ == (
        ReplyView::Broadcast {
            event: event@,
            payload: json(payload),
            channel_id: channel_id@,
        }),
        reply matches MessageReply::Pong(data) ==> reply@ == ReplyView::Pong(data@),
        reply matches MessageReply::Event { event, payload, channel_id } ==> reply@ == (
        ReplyView::Event { event: event@, payload: json(payload), channel_id: channel_id@ }),
        reply matches MessageReply::Heartbeat { msg_ref } ==> reply@ == (ReplyView::Heartbeat {
            msg_ref: msg_ref@,
        }),
        reply matches MessageReply::Join { msg_ref, channel_id } ==> reply@ == (ReplyView::Join {
            msg_ref: msg_ref@,
            channel_id: channel_id@,
        }),
        reply matches MessageReply::BroadcastIntercept { channel_id, event, payload } ==> reply@
            == (ReplyView::BroadcastIntercept {
            channel_id: channel_id@,
            event: event@,
            payload: json(payload),
        }),
        reply matches MessageReply::Push { channel_id, event, payload } ==> reply@ == (
        ReplyView::Push { channel_id: channel_id@, event: event@, payload: json(payload) }),
{
}

/// A frame says what it carries.
pub proof fn law_frame_says(frame: Frame)
    ensures
        frame matches Frame::Text(text) ==> frame@ == FrameView::Text(text@),
        frame matches Frame::Binary(data) ==> frame@ == FrameView::Binary(data@),
        frame matches Frame::Ping(data) ==> frame@ == FrameView::Ping(data@),
        frame matches Frame::Pong(data) ==> frame@ == FrameView::Pong(data@),
        frame is Close ==> frame@ == FrameView::Close,
        opt_frame(Some(frame)) == Some(frame@),
        opt_frame(None) is None,
{
}

/// A request says what is asked, of whom and for whom.
pub proof fn law_request_says(request: RegistryMessage)
    ensures
        request matches RegistryMessage::JoinRequest {
            token,
            channel_id,
            mailbox_tx,
            reply_sender,
            msg_ref,
            payload,
        } ==> {
            &&& request@ matches RequestView::JoinRequest(join)
            &&& join.token == token
            &&& join.channel_id == channel_id@
            &&& join.mailbox_tx == mailbox_tx
            &&& join.reply_sender == reply_sender
            &&& join.msg_ref == msg_ref@
            &&& join.payload == json(payload)
        },
        request is Close <==> request@ == RequestView::Close,
        request is Continue <==> request@ == RequestView::Continue,
        request matches RegistryMessage::Debug(to) ==> request@ == RequestView::Debug(to),
        request matches RegistryMessage::Inactivity(channel_id, to) ==> request@
            == RequestView::Inactivity(channel_id@, to),
{
}

/// An effect says what is sent and where.
pub proof fn law_effect_says(effect: Effect)
    ensures
        effect matches Effect::Mailbox(to, message) ==> effect@ == EffectView::Mailbox(
            to,
            message@,
        ),
        effect matches Effect::Broadcast(to, reply) ==> effect@ == EffectView::Broadcast(
            to,
            reply@,
        ),
        effect matches Effect::Subscribe {
            ws_sender,
            mailbox_sender,
            broadcast,
            token,
            channel_id,
        } ==> effect@ == (EffectView::Subscribe {
            ws_sender,
            mailbox_sender,
            broadcast,
            token,
            channel_id: channel_id@,
        }),
        opt_effect(Some(effect)) == Some(effect@),
        opt_effect(None) is None,
{
}

/// A list says each of its items, in order; none is left out.
pub proof fn law_list_says(effects: Seq<Effect>, values: Seq<Value>)
    ensures
        effects_view(effects).len() == effects.len(),
        forall|i: int|
            0 <= i < effects.len() ==> #[trigger] effects_view(effects)[i] == effects[i]@,
        jsons(values).len() == values.len(),
        forall|i: int| 0 <= i < values.len() ==> #[trigger] jsons(values)[i] == json(values[i]),
{
}

/// What is optional says what it holds, if anything.
pub proof fn law_option_says(text: Arc<str>, message: Message, turn: Turn)
    ensures
        opt_text(Some(text)) == Some(text@),
        opt_text(None) is None,
        opt_message(Some(message)) == Some(message@),
        opt_message(None) is None,
        opt_turn(Some(turn)) == Some(turn@),
        opt_turn(None) is None,
{
}

/// An outcome says whether the call failed, and with which message it answered.
pub proof fn law_outcome_says(
    outcome: Result<Option<Message>, Error>,
    read: Result<Message, ParseError>,
)
    ensures
        outcome is Err <==> outcome_view(outcome) is None,
        outcome matches Ok(None) ==> outcome_view(outcome) == Some(None::<MessageView>),
        outcome matches Ok(Some(message)) ==> outcome_view(outcome) == Some(Some(message@)),
        read matches Ok(message) ==> read_view(read) == Ok::<_, Refusal>(message@),
        read matches Err(error) ==> (read_view(read) matches Err(refusal) && (error is Json
            <==> refusal is Json) && (error is MissingChannelId <==> refusal is MissingChannelId)
            && (error is MissingEvent <==> refusal is MissingEvent)),
{
}

/// A turn says in which context it stands and what it waits for.
pub proof fn law_turn_says(turn: Turn)
    ensures
        turn@.context == turn.context@,
        turn@.awaited == turn.awaited@,
        turn.awaited is Message <==> turn@.awaited is Message,
        turn.awaited is Out <==> turn@.awaited is Out,
        turn.awaited is Join <==> turn@.awaited is Join,
        turn.awaited is Leave <==> turn@.awaited is Leave,
        turn.awaited is LeavePresence <==> turn@.awaited is LeavePresence,
        turn.awaited matches Awaited::JoinPresence { response } ==> turn@.awaited == (
        AwaitedView::JoinPresence { response: opt_message(response) }),
{
}

/// What happens to a channel's task, and what it does next, say what they hold.
pub proof fn law_step_says(event: RunnerEvent, step: RunnerStep)
    ensures
        event matches RunnerEvent::Incoming(context) ==> event@ == RunnerEventView::Incoming(
            context@,
        ),
        event is Disconnected <==> event@ is Disconnected,
        event matches RunnerEvent::Answered(turn, outcome) ==> event@ == RunnerEventView::Answered(
            turn@,
            outcome_view(outcome),
        ),
        event is Tick <==> event@ is Tick,
        event matches RunnerEvent::Verdict(Some(answer)) ==> event@ == RunnerEventView::Verdict(
            Some(answer@),
        ),
        event matches RunnerEvent::Verdict(None) ==> event@ == RunnerEventView::Verdict(None),
        step matches RunnerStep::Call(effects, turn) ==> step@ == RunnerStepView::Call(
            effects_view(effects@),
            turn@,
        ),
        step matches RunnerStep::Handled(effects) ==> step@ == RunnerStepView::Handled(
            effects_view(effects@),
        ),
        step matches RunnerStep::Report(channel_id) ==> step@ == RunnerStepView::Report(
            channel_id@,
        ),
        step is Wait <==> step@ is Wait,
        step is Stop <==> step@ is Stop,
{
}

/// What happens to the task that forwards broadcasts, and what it does next, say what they
/// hold.
pub proof fn law_forward_says(route: Routed, event: ForwardEvent, step: ForwardStep)
    ensures
        route matches Routed::Mailbox(to, message) ==> route@ == RoutedView::Mailbox(to, message@),
        route matches Routed::Socket(to, reply) ==> route@ == RoutedView::Socket(to, reply@),
        event matches ForwardEvent::Broadcast(reply) ==> event@ == ForwardEventView::Broadcast(
            reply@,
        ),
        event is Delivered <==> event@ is Delivered,
        event matches ForwardEvent::Undelivered(lost) ==> event@ == ForwardEventView::Undelivered(
            lost@,
        ),
        event is Disconnected <==> event@ is Disconnected,
        step matches ForwardStep::Send(sent) ==> step@ == ForwardStepView::Send(sent@),
        step is Wait <==> step@ is Wait,
        step is Stop <==> step@ is Stop,
{
}

/// What the tasks of a socket do next says what it holds.
pub proof fn law_action_says(incoming: Incoming, action: ConnAction, step: WriterStep)
    ensures
        incoming matches Incoming::Mailbox(message) ==> incoming@ == IncomingView::Mailbox(
            message@,
        ),
        incoming matches Incoming::Reply(reply) ==> incoming@ == IncomingView::Reply(reply@),
        incoming matches Incoming::Unreadable(error) ==> incoming@ == IncomingView::Unreadable(
            error@,
        ),
        incoming matches Incoming::Close(message) ==> incoming@ == IncomingView::Close(message@),
        action matches ConnAction::Registry(request) ==> action@ == ConnActionView::Registry(
            request@,
        ),
        action matches ConnAction::Reply(to, reply) ==> action@ == ConnActionView::Reply(
            to,
            reply@,
        ),
        action matches ConnAction::Channel(to, context) ==> action@ == ConnActionView::Channel(
            to,
            context@,
        ),
        action is Nothing <==> action@ is Nothing,
        step matches WriterStep::Write(frame) ==> step@ == WriterStepView::Write(frame@),
        step is Wait <==> step@ is Wait,
        step matches WriterStep::Close(message) ==> step@ == WriterStepView::Close(message@),
        step is Stop <==> step@ is Stop,
{
}

/// Who is present, and with what, is what the table of the channel holds.
pub proof fn law_presence_says(presence: Presence, token: usize)
    ensures
        presence@.contains_key(token) <==> presence.data@.contains_key(token),
        presence.data@.contains_key(token) ==> presence@[token] == json(presence.data@[token]),
{
}

} // verus!
