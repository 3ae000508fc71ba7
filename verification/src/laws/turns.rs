//! What a channel's task does, step by step.

use crate::channel::{
    callback_of, channel_message, forward_stepped, incoming, joined, resumable, resumed, routed,
    sendable, sendable_response, sent, stepped, AwaitedView, Callback, ContextView, EffectView,
    ForwardEventView, ForwardStepView, RoutedView, RunnerEventView, RunnerStepView, RunnerView,
    TurnView,
};
use crate::endpoint::{BroadcastSender, ChannelSender, MailboxSender, SocketSender};
use crate::json::Json;
use crate::message::{reply_frame, reply_json, MessageKind, MessageView, ReplyView};
use crate::registry::RequestView;
use vstd::prelude::*;

verus! {

/// A reply with the channel, the event and the payload of a message, for every socket.
pub open spec fn for_all(message: MessageView) -> ReplyView {
    ReplyView::Broadcast {
        event: message.event,
        payload: message.payload,
        channel_id: message.channel_id,
    }
}

/// A reply with the channel, the event and the payload of a message, for the channel to look
/// at for every socket.
pub open spec fn for_each(message: MessageView) -> ReplyView {
    ReplyView::BroadcastIntercept {
        channel_id: message.channel_id,
        event: message.event,
        payload: message.payload,
    }
}

/// What has to be done about a message with which a channel answers in a context: the one
/// delivery that its kind calls for, if the context has the sender that this takes.
pub open spec fn delivery(message: MessageView, context: ContextView) -> Seq<EffectView> {
    if message.kind == MessageKind::Push && context.reply_to is Some {
        seq![EffectView::Mailbox(context.reply_to->0, message)]
    } else if message.kind == MessageKind::Broadcast && context.broadcast is Some {
        seq![EffectView::Broadcast(context.broadcast->0, for_all(message))]
    } else if message.kind == MessageKind::BroadcastIntercept && context.broadcast is Some {
        seq![EffectView::Broadcast(context.broadcast->0, for_each(message))]
    } else {
        Seq::empty()
    }
}

/// The deliveries of an optional message.
pub open spec fn deliveries(message: Option<MessageView>, context: ContextView) -> Seq<EffectView> {
    match message {
        Some(m) => delivery(m, context),
        None => Seq::empty(),
    }
}

/// The announcements that a presence call asks for: one if it is answered, none if it is not
/// or fails.
pub open spec fn announcements(
    outcome: Option<Option<MessageView>>,
    all: BroadcastSender,
) -> Seq<EffectView> {
    match outcome {
        Some(Some(message)) => seq![EffectView::Broadcast(all, for_all(message))],
        _ => Seq::empty(),
    }
}

/// Whether what a presence call came to is no message other than a broadcast.
pub open spec fn announces(outcome: Option<Option<MessageView>>) -> bool {
    outcome matches Some(Some(message)) ==> message.kind == MessageKind::Broadcast
}

/// The channel's own code is called in the context that came in: of the same socket, with the
/// same message, senders and reference. Only the broadcast sender is the channel's own. What
/// is called is told by the kind of the message, and only a leave changes what the task knows:
/// the socket that leaves, and no other, is no longer present.
pub proof fn law_context_is_kept(runner: RunnerView, context: ContextView, other: usize)
    ensures
        ({
            let (after, turn) = incoming(runner, context);
            let kind = context.inner.kind;
            &&& turn.context.token == context.token
            &&& turn.context.inner == context.inner
            &&& turn.context.reply_to == context.reply_to
            &&& turn.context.ws_reply_to == context.ws_reply_to
            &&& turn.context.msg_ref == context.msg_ref
            &&& turn.context.broadcast == Some(runner.broadcast_sender)
            &&& kind == MessageKind::Leave ==> callback_of(turn.awaited) == Callback::HandleLeave
            &&& kind == MessageKind::BroadcastIntercept ==> callback_of(turn.awaited)
                == Callback::HandleOut
            &&& kind == MessageKind::JoinRequest ==> callback_of(turn.awaited)
                == Callback::HandleJoin
            &&& kind != MessageKind::Leave && kind != MessageKind::BroadcastIntercept && kind
                != MessageKind::JoinRequest ==> callback_of(turn.awaited)
                == Callback::HandleMessage
            &&& after.incoming_sender == runner.incoming_sender
            &&& after.broadcast_sender == runner.broadcast_sender
            &&& after.channel_id == runner.channel_id
            &&& kind != MessageKind::Leave ==> after == runner
            &&& kind == MessageKind::Leave ==> !after.presence.contains_key(context.token.0)
            &&& other != context.token.0 ==> (after.presence.contains_key(other)
                <==> runner.presence.contains_key(other)) && (runner.presence.contains_key(other)
                ==> after.presence[other] == runner.presence[other])
        }),
{
}

/// Each call is made for what a turn waits for.
pub proof fn law_callbacks(awaited: AwaitedView)
    ensures
        callback_of(awaited) == Callback::HandleMessage <==> awaited is Message,
        callback_of(awaited) == Callback::HandleOut <==> awaited is Out,
        callback_of(awaited) == Callback::HandleJoin <==> awaited is Join,
        callback_of(awaited) == Callback::HandleLeave <==> awaited is Leave,
        callback_of(awaited) == Callback::HandlePresence <==> awaited is LeavePresence || awaited
            is JoinPresence,
{
}

/// What a channel answers to an event, or to an intercepted broadcast, ends the turn: a push
/// goes to the mailbox of the socket in whose context the channel was called, a broadcast or
/// an intercept goes out on the channel's broadcast sender, each once and with nothing beside
/// it; without an answer nothing is done. Nothing changes.
pub proof fn law_answered_turn(
    runner: RunnerView,
    turn: TurnView,
    outcome: Option<Option<MessageView>>,
    mailbox: MailboxSender,
)
    requires
        turn.awaited is Message || turn.awaited is Out,
    ensures
        ({
            let (after, effects, next) = resumed(runner, turn, outcome);
            &&& after == runner
            &&& next is None
            &&& outcome is None ==> effects.len() == 0
            &&& outcome matches Some(answer) ==> effects == deliveries(answer, turn.context)
            &&& outcome matches Some(Some(message)) ==> (message.kind == MessageKind::Push
                && turn.context.reply_to == Some(mailbox) ==> effects == seq![
                EffectView::Mailbox(mailbox, message),
            ])
        }),
{
}

/// An answer for which the context has no sender is let go: a push without a mailbox, a
/// broadcast without a broadcast sender.
pub proof fn law_answer_without_sender(context: ContextView, message: MessageView)
    ensures
        message.kind == MessageKind::Push && context.reply_to is None ==> sent(context, message)
            is None,
        message.kind != MessageKind::Push && context.broadcast is None ==> sent(context, message)
            is None,
        message.kind == MessageKind::Push ==> (context.reply_to matches Some(mailbox) ==> sent(
            context,
            message,
        ) == Some(EffectView::Mailbox(mailbox, message))),
        message.kind == MessageKind::Broadcast ==> (context.broadcast matches Some(all) ==> sent(
            context,
            message,
        ) == Some(EffectView::Broadcast(all, for_all(message)))),
        message.kind == MessageKind::BroadcastIntercept ==> (context.broadcast matches Some(all)
            ==> sent(context, message) == Some(EffectView::Broadcast(all, for_each(message)))),
{
}

/// A channel that answers a presence call with a broadcast, after a leave or after a join, has
/// exactly one broadcast made for it, on the channel's own sender; it is written with the
/// channel, the event and the payload of the answer. If it answers nothing or fails, none is
/// made.
pub proof fn law_presence_is_announced(
    runner: RunnerView,
    turn: TurnView,
    announced: Option<Option<MessageView>>,
    mailbox: MailboxSender,
    socket: SocketSender,
)
    requires
        turn.awaited is LeavePresence || turn.awaited is JoinPresence,
        turn.context.reply_to == Some(mailbox),
        announces(announced),
    ensures
        ({
            let (after, effects, next) = resumed(runner, turn, announced);
            let made = announcements(announced, runner.broadcast_sender);
            &&& after == runner
            &&& next is None
            &&& turn.awaited is LeavePresence ==> effects == made
            &&& turn.awaited matches AwaitedView::JoinPresence { response } ==> effects == made
                + seq![
                EffectView::Mailbox(
                    mailbox,
                    MessageView {
                        kind: MessageKind::DidJoin,
                        channel_id: turn.context.inner.channel_id,
                        msg_ref: turn.context.msg_ref,
                        join_ref: None,
                        payload: Json::Null,
                        event: "phx_join"@,
                        channel_sender: Some(runner.incoming_sender),
                    },
                ),
            ] + deliveries(response, turn.context)
            &&& announced matches Some(Some(message)) ==> effects[0] == EffectView::Broadcast(
                runner.broadcast_sender,
                for_all(message),
            ) && routed(socket, mailbox, for_all(message)) == RoutedView::Socket(
                socket,
                for_all(message),
            ) && reply_json(for_all(message)) == Some(
                Json::Array(
                    seq![
                        Json::Null,
                        Json::Null,
                        Json::String(message.channel_id),
                        Json::String(message.event),
                        message.payload,
                    ],
                ),
            )
        }),
{
}

/// What a step hands out is all that there is to do: for every answered turn, all the effects
/// with which it goes on, together with where it stops next, and nothing else.
pub proof fn law_step_hands_out_everything(
    runner: RunnerView,
    turn: TurnView,
    outcome: Option<Option<MessageView>>,
    timeout: bool,
)
    ensures
        ({
            let (after, effects, next) = resumed(runner, turn, outcome);
            let (stepped_to, step) = stepped(
                runner,
                RunnerEventView::Answered(turn, outcome),
                timeout,
            );
            &&& stepped_to == after
            &&& next matches Some(further) ==> step == RunnerStepView::Call(effects, further)
            &&& next is None ==> step == RunnerStepView::Handled(effects)
        }),
{
}

/// A join that is let through, step by step. Over the steps the task carries out, in this
/// order and without omission: the subscription of the socket, the announcement if there is
/// one, the confirmation, and the delivery of the channel's response if there is one. When the
/// channel is asked to announce, and from then on, the socket is present with what it joined
/// with, beside all that were present before.
pub proof fn law_join_steps(
    runner: RunnerView,
    context: ContextView,
    mailbox: MailboxSender,
    socket: SocketSender,
    response: Option<MessageView>,
    announced: Option<Option<MessageView>>,
    timeout: bool,
    other: usize,
)
    requires
        context.inner.kind == MessageKind::JoinRequest,
        context.reply_to == Some(mailbox),
        context.ws_reply_to == Some(socket),
        announces(announced),
    ensures
        ({
            let (first, step1) = stepped(runner, RunnerEventView::Incoming(context), timeout);
            &&& step1 matches RunnerStepView::Call(effects1, turn1)
            &&& callback_of(turn1.awaited) == Callback::HandleJoin
            &&& turn1.context == (ContextView {
                broadcast: Some(runner.broadcast_sender),
                ..context
            })
            &&& first == runner
            &&& {
                let (second, step2) = stepped(
                    first,
                    RunnerEventView::Answered(turn1, Some(response)),
                    timeout,
                );
                &&& step2 matches RunnerStepView::Call(effects2, turn2)
                &&& callback_of(turn2.awaited) == Callback::HandlePresence
                &&& turn2.context == turn1.context
                &&& second.presence.contains_key(context.token.0)
                &&& second.presence[context.token.0] == context.inner.payload
                &&& other != context.token.0 ==> (second.presence.contains_key(other)
                    <==> runner.presence.contains_key(other)) && (runner.presence.contains_key(
                    other,
                ) ==> second.presence[other] == runner.presence[other])
                &&& {
                    let (third, step3) = stepped(
                        second,
                        RunnerEventView::Answered(turn2, announced),
                        timeout,
                    );
                    &&& step3 matches RunnerStepView::Handled(effects3)
                    &&& third == second
                    &&& third.incoming_sender == runner.incoming_sender
                    &&& third.broadcast_sender == runner.broadcast_sender
                    &&& third.channel_id == runner.channel_id
                    &&& effects1 + effects2 + effects3 == seq![
                        EffectView::Subscribe {
                            ws_sender: socket,
                            mailbox_sender: mailbox,
                            broadcast: runner.broadcast_sender,
                            token: context.token,
                            channel_id: runner.channel_id,
                        },
                    ] + announcements(announced, runner.broadcast_sender) + seq![
                        EffectView::Mailbox(
                            mailbox,
                            MessageView {
                                kind: MessageKind::DidJoin,
                                channel_id: context.inner.channel_id,
                                msg_ref: context.msg_ref,
                                join_ref: None,
                                payload: Json::Null,
                                event: "phx_join"@,
                                channel_sender: Some(runner.incoming_sender),
                            },
                        ),
                    ] + deliveries(response, turn1.context)
                    &&& effects2.len() == 1
                }
            }
        }),
{
    let (first, step1) = stepped(runner, RunnerEventView::Incoming(context), timeout);
    let effects1 = step1->Call_0;
    let turn1 = step1->Call_1;
    let (second, step2) = stepped(
        first,
        RunnerEventView::Answered(turn1, Some(response)),
        timeout,
    );
    let effects2 = step2->Call_0;
    let turn2 = step2->Call_1;
    let (third, step3) = stepped(second, RunnerEventView::Answered(turn2, announced), timeout);
    let effects3 = step3->Handled_0;
    law_presence_is_announced(second, turn2, announced, mailbox, socket);
    assert(effects1 + effects2 + effects3 =~= effects2 + effects3);
    assert(effects1 + effects2 + effects3 =~= seq![
        EffectView::Subscribe {
            ws_sender: socket,
            mailbox_sender: mailbox,
            broadcast: runner.broadcast_sender,
            token: context.token,
            channel_id: runner.channel_id,
        },
    ] + announcements(announced, runner.broadcast_sender) + seq![
        EffectView::Mailbox(
            mailbox,
            MessageView {
                kind: MessageKind::DidJoin,
                channel_id: context.inner.channel_id,
                msg_ref: context.msg_ref,
                join_ref: None,
                payload: Json::Null,
                event: "phx_join"@,
                channel_sender: Some(runner.incoming_sender),
            },
        ),
    ] + deliveries(response, turn1.context));
}

/// A join that the channel refuses, step by step: the channel is asked, nothing is done, and
/// nothing changes.
pub proof fn law_refused_join_steps(runner: RunnerView, context: ContextView, timeout: bool)
    requires
        context.inner.kind == MessageKind::JoinRequest,
    ensures
        ({
            let (first, step1) = stepped(runner, RunnerEventView::Incoming(context), timeout);
            &&& step1 matches RunnerStepView::Call(effects1, turn1)
            &&& effects1.len() == 0
            &&& callback_of(turn1.awaited) == Callback::HandleJoin
            &&& {
                let (second, step2) = stepped(
                    first,
                    RunnerEventView::Answered(turn1, None),
                    timeout,
                );
                &&& step2 matches RunnerStepView::Handled(effects2)
                &&& effects2.len() == 0
                &&& second == runner
            }
        }),
{
}

/// A leave, step by step: the channel is told of it, whatever it answers; then it is asked to
/// announce, and the announcement, if there is one, is all that is done. The socket is no
/// longer present from the start.
pub proof fn law_leave_steps(
    runner: RunnerView,
    context: ContextView,
    answer: Option<Option<MessageView>>,
    announced: Option<Option<MessageView>>,
    timeout: bool,
    other: usize,
)
    requires
        context.inner.kind == MessageKind::Leave,
        announces(announced),
    ensures
        ({
            let (first, step1) = stepped(runner, RunnerEventView::Incoming(context), timeout);
            &&& step1 matches RunnerStepView::Call(effects1, turn1)
            &&& effects1.len() == 0
            &&& callback_of(turn1.awaited) == Callback::HandleLeave
            &&& !first.presence.contains_key(context.token.0)
            &&& other != context.token.0 ==> (first.presence.contains_key(other)
                <==> runner.presence.contains_key(other)) && (runner.presence.contains_key(other)
                ==> first.presence[other] == runner.presence[other])
            &&& {
                let (second, step2) = stepped(
                    first,
                    RunnerEventView::Answered(turn1, answer),
                    timeout,
                );
                &&& step2 matches RunnerStepView::Call(effects2, turn2)
                &&& effects2.len() == 0
                &&& callback_of(turn2.awaited) == Callback::HandlePresence
                &&& turn2.context == turn1.context
                &&& second == first
                &&& {
                    let (third, step3) = stepped(
                        second,
                        RunnerEventView::Answered(turn2, announced),
                        timeout,
                    );
                    &&& step3 == RunnerStepView::Handled(
                        announcements(announced, runner.broadcast_sender),
                    )
                    &&& third == first
                }
            }
        }),
{
}

/// A message of any other kind, step by step: the channel is called once, in the context of
/// the socket, and its answer is delivered; nothing changes.
pub proof fn law_message_steps(
    runner: RunnerView,
    context: ContextView,
    outcome: Option<Option<MessageView>>,
    timeout: bool,
)
    requires
        context.inner.kind != MessageKind::JoinRequest,
        context.inner.kind != MessageKind::Leave,
    ensures
        ({
            let (first, step1) = stepped(runner, RunnerEventView::Incoming(context), timeout);
            &&& step1 matches RunnerStepView::Call(effects1, turn1)
            &&& effects1.len() == 0
            &&& first == runner
            &&& callback_of(turn1.awaited) == if context.inner.kind
                == MessageKind::BroadcastIntercept {
                Callback::HandleOut
            } else {
                Callback::HandleMessage
            }
            &&& turn1.context == (ContextView {
                broadcast: Some(runner.broadcast_sender),
                ..context
            })
            &&& {
                let (second, step2) = stepped(
                    first,
                    RunnerEventView::Answered(turn1, outcome),
                    timeout,
                );
                &&& second == runner
                &&& step2 == RunnerStepView::Handled(
                    match outcome {
                        Some(answer) => deliveries(answer, turn1.context),
                        None => Seq::empty(),
                    },
                )
            }
        }),
{
}

/// A tick, a verdict and the end of all messages change nothing that the task knows. At a tick
/// a channel that is to be closed at all and has nobody present reports itself, under its own
/// name; any other waits. It ends on the verdict to close and when no message can come.
pub proof fn law_idle_steps(runner: RunnerView, verdict: Option<RequestView>, timeout: bool)
    ensures
        ({
            let (after, step) = stepped(runner, RunnerEventView::Tick, timeout);
            &&& after == runner
            &&& timeout && (forall|token: usize| !runner.presence.contains_key(token)) ==> step
                == RunnerStepView::Report(runner.channel_id)
            &&& !timeout || (exists|token: usize| runner.presence.contains_key(token)) ==> step
                == RunnerStepView::Wait
        }),
        ({
            let (after, step) = stepped(runner, RunnerEventView::Verdict(verdict), timeout);
            &&& after == runner
            &&& step == RunnerStepView::Stop <==> verdict == Some(RequestView::Close)
            &&& step == RunnerStepView::Wait <==> verdict != Some(RequestView::Close)
        }),
        stepped(runner, RunnerEventView::Disconnected, timeout) == (runner, RunnerStepView::Stop),
{
    if forall|token: usize| !runner.presence.contains_key(token) {
        assert(runner.presence =~= Map::<usize, Json>::empty());
    }
}

/// With what a turn can go on: an event and an intercept with anything that can be sent or
/// nothing, a presence call with a broadcast or nothing, a leave with anything, a join with
/// anything if the senders of the socket are at hand, and without them if it is refused.
pub proof fn law_turns_go_on(
    context: ContextView,
    response: Option<MessageView>,
    outcome: Option<Option<MessageView>>,
)
    ensures
        ({
            let can_be_sent = outcome matches Some(Some(message)) ==> message.kind
                == MessageKind::Push || message.kind == MessageKind::Broadcast || message.kind
                == MessageKind::BroadcastIntercept;
            let response_can_be_sent = response matches Some(message) ==> message.kind
                == MessageKind::Push || message.kind == MessageKind::Broadcast || message.kind
                == MessageKind::BroadcastIntercept;
            let turn = |awaited: AwaitedView| TurnView { context, awaited };
            &&& resumable(turn(AwaitedView::Message), outcome) == can_be_sent
            &&& resumable(turn(AwaitedView::Out), outcome) == can_be_sent
            &&& resumable(turn(AwaitedView::Join), outcome) == (outcome is None || (
            context.reply_to is Some && context.ws_reply_to is Some))
            &&& resumable(turn(AwaitedView::Leave), outcome)
            &&& resumable(turn(AwaitedView::LeavePresence), outcome) == announces(outcome)
            &&& resumable(turn(AwaitedView::JoinPresence { response }), outcome) == (announces(
                outcome,
            ) && response_can_be_sent && context.reply_to is Some)
        }),
{
}

/// A channel sends pushes, broadcasts and intercepts, and no message of another kind.
pub proof fn law_sendable(message: MessageView)
    ensures
        sendable(message.kind) <==> message.kind == MessageKind::Push || message.kind
            == MessageKind::Broadcast || message.kind == MessageKind::BroadcastIntercept,
        sendable_response(Some(message)) <==> sendable(message.kind),
        sendable_response(None),
{
}

/// The messages that a context makes carry what they are made of, and no more.
pub proof fn law_made_messages(
    kind: MessageKind,
    channel_id: Seq<char>,
    msg_ref: Option<Seq<char>>,
    event: Seq<char>,
    payload: Json,
    sender: ChannelSender,
)
    ensures
        ({
            let made = channel_message(kind, channel_id, msg_ref, event, payload);
            &&& made.kind == kind
            &&& made.channel_id == channel_id
            &&& made.msg_ref == msg_ref
            &&& made.join_ref is None
            &&& made.event == event
            &&& made.payload == payload
            &&& made.channel_sender is None
        }),
        ({
            let made = joined(channel_id, msg_ref, sender);
            &&& made.kind == MessageKind::DidJoin
            &&& made.channel_id == channel_id
            &&& made.msg_ref == msg_ref
            &&& made.join_ref is None
            &&& made.event == "phx_join"@
            &&& made.payload == Json::Null
            &&& made.channel_sender == Some(sender)
        }),
{
}

/// A broadcast that a socket follows goes to that socket: an intercept to its mailbox, as the
/// message that it was made from; anything else to its writer, as it is, and only that can be
/// written.
pub proof fn law_routes(
    socket: SocketSender,
    mailbox: MailboxSender,
    reply: ReplyView,
    message: MessageView,
)
    ensures
        !(reply is BroadcastIntercept) ==> routed(socket, mailbox, reply) == RoutedView::Socket(
            socket,
            reply,
        ) && reply_frame(reply) is Some,
        reply is BroadcastIntercept ==> reply_frame(reply) is None,
        routed(socket, mailbox, for_each(message)) == RoutedView::Mailbox(
            mailbox,
            MessageView {
                kind: MessageKind::BroadcastIntercept,
                channel_id: message.channel_id,
                msg_ref: None,
                join_ref: None,
                payload: message.payload,
                event: message.event,
                channel_sender: None,
            },
        ),
{
}

/// The task that forwards broadcasts sends each where it goes, waits for the next once it is
/// taken, and ends when the socket does not take one or none can follow.
pub proof fn law_forward_steps(socket: SocketSender, mailbox: MailboxSender, reply: ReplyView)
    ensures
        forward_stepped(ForwardEventView::Broadcast(reply), socket, mailbox) == Some(
            ForwardStepView::Send(routed(socket, mailbox, reply)),
        ),
        forward_stepped(ForwardEventView::Delivered, socket, mailbox) == Some(
            ForwardStepView::Wait,
        ),
        forward_stepped(
            ForwardEventView::Undelivered(RoutedView::Socket(socket, reply)),
            socket,
            mailbox,
        ) == Some(ForwardStepView::Stop),
        forward_stepped(ForwardEventView::Disconnected, socket, mailbox) == Some(
            ForwardStepView::Stop,
        ),
{
}

} // verus!
