//! The turns of a channel, and who is present in it.

use crate::channel::{
    incoming, joined, presence_effects, response_effects, resumable, resumed, sendable_response,
    sent, stepped, AwaitedView, ContextView, EffectView, MessageContext, RunnerEventView,
    RunnerView, TurnView,
};
use crate::conn::{farewells, SubscriptionsView};
use crate::endpoint::{ChannelSender, MailboxSender, SocketSender};
use crate::examples::presence_answer;
use crate::json::Json;
use crate::message::{MessageKind, MessageView};
use crate::registry::RequestView;
use crate::types::Token;
use vstd::prelude::*;

verus! {

/// A join that the channel lets through. What is broadcast reaches the new socket from
/// here on; then the change in who is present is announced, so that the new socket sees it
/// too; then the socket is told that it has joined; last comes what the channel has to say
/// to it. The socket is present with what it joined with.
pub proof fn law_join_turn(
    runner: RunnerView,
    context: ContextView,
    mailbox: MailboxSender,
    socket: SocketSender,
    response: Option<MessageView>,
    announced: Option<Option<MessageView>>,
)
    requires
        context.inner.kind == MessageKind::JoinRequest,
        context.reply_to == Some(mailbox),
        context.ws_reply_to == Some(socket),
    ensures
        ({
            let (begun, asked) = incoming(runner, context);
            let (noted, subscribed, presenting) = resumed(begun, asked, Some(response));
            &&& asked.awaited == AwaitedView::Join
            &&& resumable(asked, Some(response))
            &&& presenting matches Some(presenting)
            &&& {
                let (after, effects, rest) = resumed(noted, presenting, announced);
                &&& rest is None
                &&& after == (RunnerView {
                    presence: runner.presence.insert(context.token.0, context.inner.payload),
                    ..runner
                })
                &&& subscribed + effects == seq![
                    EffectView::Subscribe {
                        ws_sender: socket,
                        mailbox_sender: mailbox,
                        broadcast: runner.broadcast_sender,
                        token: context.token,
                        channel_id: runner.channel_id,
                    },
                ] + presence_effects(runner, announced) + seq![
                    EffectView::Mailbox(
                        mailbox,
                        joined(context.inner.channel_id, context.msg_ref, runner.incoming_sender),
                    ),
                ] + response_effects(asked.context, response)
            }
        }),
{
    let (begun, asked) = incoming(runner, context);
    let (noted, subscribed, presenting) = resumed(begun, asked, Some(response));
    let (after, effects, rest) = resumed(noted, presenting->0, announced);
    assert(presence_effects(noted, announced) == presence_effects(runner, announced));
    assert(subscribed + effects =~= seq![
        EffectView::Subscribe {
            ws_sender: socket,
            mailbox_sender: mailbox,
            broadcast: runner.broadcast_sender,
            token: context.token,
            channel_id: runner.channel_id,
        },
    ] + presence_effects(runner, announced) + seq![
        EffectView::Mailbox(
            mailbox,
            joined(context.inner.channel_id, context.msg_ref, runner.incoming_sender),
        ),
    ] + response_effects(asked.context, response));
}

/// A join that the channel refuses changes nothing, and nothing is done about it.
pub proof fn law_refused_join(runner: RunnerView, context: ContextView)
    requires
        context.inner.kind == MessageKind::JoinRequest,
    ensures
        ({
            let (begun, asked) = incoming(runner, context);
            &&& resumable(asked, None)
            &&& resumed(begun, asked, None) == (runner, Seq::<EffectView>::empty(), None::<TurnView>)
        }),
{
}

/// A socket that leaves is no longer present, whatever the channel says to that; the
/// sockets that stay are told of it if the channel announces it, and nothing else is done.
pub proof fn law_leave_turn(
    runner: RunnerView,
    context: ContextView,
    answer: Option<Option<MessageView>>,
    announced: Option<Option<MessageView>>,
)
    requires
        context.inner.kind == MessageKind::Leave,
    ensures
        ({
            let (begun, asked) = incoming(runner, context);
            let (left, nothing, presenting) = resumed(begun, asked, answer);
            &&& resumable(asked, answer)
            &&& nothing == Seq::<EffectView>::empty()
            &&& presenting matches Some(presenting)
            &&& {
                let (after, effects, rest) = resumed(left, presenting, announced);
                &&& rest is None
                &&& effects == presence_effects(runner, announced)
                &&& after == (RunnerView {
                    presence: runner.presence.remove(context.token.0),
                    ..runner
                })
            }
        }),
{
}

/// A socket that is let in and leaves again leaves the channel as it was, if it was not
/// there before.
pub proof fn law_leave_undoes_join(
    runner: RunnerView,
    join: ContextView,
    response: Option<MessageView>,
    leave: ContextView,
)
    requires
        join.inner.kind == MessageKind::JoinRequest,
        leave.inner.kind == MessageKind::Leave,
        join.token == leave.token,
        !runner.presence.contains_key(join.token.0),
    ensures
        ({
            let (begun, asked) = incoming(runner, join);
            let (noted, _, _) = resumed(begun, asked, Some(response));
            &&& noted.presence.contains_key(join.token.0)
            &&& incoming(noted, leave).0 == runner
        }),
{
    let token = join.token.0;
    assert(runner.presence.insert(token, join.inner.payload).remove(token) =~= runner.presence);
}

/// A turn calls the channel's own code at most twice.
pub proof fn law_turn_ends(
    runner: RunnerView,
    context: ContextView,
    first: Option<Option<MessageView>>,
    second: Option<Option<MessageView>>,
)
    ensures
        ({
            let (begun, turn) = incoming(runner, context);
            let (after, _, next) = resumed(begun, turn, first);
            next matches Some(turn) ==> resumed(after, turn, second).2 is None
        }),
{
}

/// What a channel answers to a socket is never lost: with a sender for the socket at hand,
/// exactly one thing is done about a response that can be sent.
pub proof fn law_response_is_sent(
    runner: RunnerView,
    context: ContextView,
    response: MessageView,
)
    requires
        context.reply_to is Some,
        sendable_response(Some(response)),
    ensures
        ({
            let (_, turn) = incoming(runner, context);
            sent(turn.context, response) matches Some(effect) && response_effects(
                turn.context,
                Some(response),
            ) == seq![effect]
        }),
{
}

/// Where the task of a channel stands after a number of events.
pub open spec fn run(runner: RunnerView, events: Seq<RunnerEventView>, timeout: bool) -> RunnerView
    decreases events.len(),
{
    if events.len() == 0 {
        runner
    } else {
        stepped(run(runner, events.drop_last(), timeout), events.last(), timeout).0
    }
}

/// The channel lets a socket join.
pub open spec fn lets_join(event: RunnerEventView, token: Token) -> bool {
    event matches RunnerEventView::Answered(turn, outcome) && turn.awaited == AwaitedView::Join
        && outcome is Some && turn.context.token == token
}

/// A socket leaves.
pub open spec fn leaves(event: RunnerEventView, token: Token) -> bool {
    event matches RunnerEventView::Incoming(context) && context.inner.kind == MessageKind::Leave
        && context.token == token
}

/// The socket joins with the event `i`, and does not leave, nor join again, later.
pub open spec fn joined_last(events: Seq<RunnerEventView>, token: Token, i: int) -> bool {
    &&& 0 <= i < events.len()
    &&& lets_join(events[i], token)
    &&& forall|j: int| i < j < events.len() ==> !lets_join(#[trigger] events[j], token) && !leaves(
        events[j],
        token,
    )
}

/// In a channel that starts out empty, a socket is present if and only if it was let in and
/// has not left since, whatever else happened; it is present with what it last joined with.
/// Which channel this is, and where it takes and broadcasts messages, never changes.
pub proof fn law_presence(
    runner: RunnerView,
    events: Seq<RunnerEventView>,
    timeout: bool,
    token: Token,
)
    requires
        runner.presence == Map::<usize, Json>::empty(),
    ensures
        run(runner, events, timeout).presence.contains_key(token.0) <==> exists|i: int|
            joined_last(events, token, i),
        forall|i: int| #[trigger]
            joined_last(events, token, i) ==> run(runner, events, timeout).presence[token.0]
                == events[i]->Answered_0.context.inner.payload,
        run(runner, events, timeout) == (RunnerView {
            presence: run(runner, events, timeout).presence,
            ..runner
        }),
    decreases events.len(),
{
    if events.len() > 0 {
        let before = events.drop_last();
        let last = events.last();
        let n = events.len() - 1;
        law_presence(runner, before, timeout, token);
        let old_run = run(runner, before, timeout);
        let new_run = run(runner, events, timeout);
        if lets_join(last, token) {
            assert(joined_last(events, token, n));
            assert forall|i: int| #[trigger] joined_last(events, token, i) implies i == n by {
                assert(events[n] == last);
            }
        } else if leaves(last, token) {
            assert forall|i: int| !#[trigger] joined_last(events, token, i) by {
                assert(events[n] == last);
            }
        } else {
            assert forall|i: int| #[trigger] joined_last(events, token, i) implies joined_last(
                before,
                token,
                i,
            ) && events[i] == before[i] by {
                assert(events[n] == last);
                assert forall|j: int| i < j < before.len() implies !lets_join(
                    #[trigger] before[j],
                    token,
                ) && !leaves(before[j], token) by {
                    assert(before[j] == events[j]);
                }
            }
            assert forall|i: int| #[trigger] joined_last(before, token, i) implies joined_last(
                events,
                token,
                i,
            ) by {
                assert(before[i] == events[i]);
                assert forall|j: int| i < j < events.len() implies !lets_join(
                    #[trigger] events[j],
                    token,
                ) && !leaves(events[j], token) by {
                    if j < n {
                        assert(before[j] == events[j]);
                    }
                }
            }
            assert(new_run.presence.contains_key(token.0) == old_run.presence.contains_key(
                token.0,
            ));
        }
    }
}

/// A channel is reported as inactive only if it was made to be closed at all and nobody is
/// present; it ends only when no message can reach it any more or the registry confirms the
/// report.
pub proof fn law_channel_ends(runner: RunnerView, event: RunnerEventView, timeout: bool)
    ensures
        stepped(runner, event, timeout).1 is Report ==> timeout && runner.presence == Map::<
            usize,
            Json,
        >::empty(),
        stepped(runner, event, timeout).1 is Stop <==> event is Disconnected || event
            == RunnerEventView::Verdict(Some(RequestView::Close)),
        forall|token: Token|
            runner.presence.contains_key(#[trigger] token.0) ==> !(stepped(
                runner,
                event,
                timeout,
            ).1 is Report),
{
}

/// A socket that is gone is present in none of the channels that it has joined, once they
/// have its farewells, and every one of them gets one.
pub proof fn law_farewells(
    subscriptions: SubscriptionsView,
    messages: Seq<(ChannelSender, MessageContext)>,
    name: Seq<char>,
    runner: RunnerView,
)
    requires
        farewells(subscriptions, messages),
        subscriptions.channels.contains_key(name),
    ensures
        exists|i: int|
            0 <= i < messages.len() && (#[trigger] messages[i]).0 == subscriptions.channels[name]
                && messages[i].1@.inner.channel_id == name && incoming(runner, messages[i].1@).0
                == (RunnerView {
                presence: runner.presence.remove(subscriptions.token.0),
                ..runner
            }),
{
    let i = choose|i: int|
        0 <= i < messages.len() && (#[trigger] messages[i]).1@.inner.channel_id == name;
    assert(messages[i].0 == subscriptions.channels[name]);
}

/// A socket that is gone sends as many farewells as it has joined channels.
pub proof fn law_one_farewell_per_channel(
    subscriptions: SubscriptionsView,
    messages: Seq<(ChannelSender, MessageContext)>,
)
    requires
        farewells(subscriptions, messages),
    ensures
        subscriptions.channels.dom().finite(),
        subscriptions.channels.dom().len() == messages.len(),
{
    let names = Seq::new(messages.len(), |i: int| messages[i].1@.inner.channel_id);
    assert forall|i: int, j: int|
        0 <= i < names.len() && 0 <= j < names.len() && i != j implies names[i] != names[j] by {
        if i < j {
            assert(messages[i].1@.inner.channel_id != messages[j].1@.inner.channel_id);
        } else {
            assert(messages[j].1@.inner.channel_id != messages[i].1@.inner.channel_id);
        }
    }
    assert forall|name: Seq<char>| subscriptions.channels.dom().contains(name) implies
        names.to_set().contains(name) by {
        assert(subscriptions.channels.contains_key(name));
        let i = choose|i: int|
            0 <= i < messages.len() && (#[trigger] messages[i]).1@.inner.channel_id == name;
        assert(names[i] == name);
    }
    assert forall|name: Seq<char>| names.to_set().contains(name) implies
        subscriptions.channels.dom().contains(name) by {
        let i = choose|i: int| 0 <= i < names.len() && names[i] == name;
        assert(messages[i].1@.inner.channel_id == name);
    }
    assert(names.to_set() =~= subscriptions.channels.dom());
    names.unique_seq_to_set();
}

/// The presence channel answers a change in who is present with a message to all, on the same
/// channel and with the same event, that carries nothing; it answers no other notice.
pub proof fn law_presence_channel(message: MessageView)
    ensures
        message.kind == MessageKind::PresenceChange <==> presence_answer(message) is Some,
        presence_answer(message) matches Some(answer) ==> {
            &&& answer.kind == MessageKind::BroadcastPresence
            &&& answer.channel_id == message.channel_id
            &&& answer.event == message.event
            &&& answer.payload == Json::Null
            &&& answer.msg_ref is None
            &&& answer.join_ref is None
            &&& answer.channel_sender is None
        },
{
}

} // verus!
