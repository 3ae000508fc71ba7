//! Joining channels, and the life of a channel in the registry.

use crate::channel::{
    incoming, joined, presence_effects, resumable, resumed, sendable_response, stepped,
    AwaitedView, EffectView, NewChannel, RunnerEventView, RunnerStepView, RunnerView,
};
use crate::conn::{acceptable, after_mailbox, mailbox_action, ConnActionView, ConnView};
use crate::endpoint::{ChannelSender, SocketSender};
use crate::json::Json;
use crate::laws::framing::framed;
use crate::laws::names::{law_name_joins, law_name_splits};
use crate::message::{frame_json, ok_json, reply_json, MessageKind, MessageView, ReplyView};
use crate::registry::{
    after_join, after_report, closes, join_context, join_outcome, joinable, verdict,
    with_default, without_channel, Dispatch, Error, JoinView, RegistryView, RequestView,
    WIGGLE_ROOM,
};
use crate::types::{key_of, ChannelId};
use vstd::prelude::*;

verus! {

/// A client that asks to join a channel which can be joined, and which lets it in, is told so:
/// what it reads names the channel and the reference of its request, and has the status `ok`.
/// From then on the socket has joined the channel.
pub proof fn law_join_is_confirmed<T: NewChannel>(
    conn: ConnView,
    join_ref: Option<Seq<char>>,
    msg_ref: Seq<char>,
    name: Seq<char>,
    event: Seq<char>,
    payload: Json,
    socket: SocketSender,
    before: RegistryView<T>,
    after: RegistryView<T>,
    channel_id: ChannelId,
    fresh: ChannelSender,
    now: u128,
    dispatch: Dispatch<T::Channel>,
    runner: RunnerView,
    response: Option<MessageView>,
    announced: Option<Option<MessageView>>,
    later: ConnView,
)
    requires
        event == "phx_join"@ || event == "join"@,
        join_outcome(
            before,
            after,
            channel_id,
            (JoinView {
                token: conn.token,
                channel_id: name,
                mailbox_tx: conn.mailbox_tx,
                reply_sender: socket,
                msg_ref,
                payload,
            }),
            fresh,
            now,
            Ok(dispatch),
        ),
    ensures
        ({
            let request = framed(join_ref, Some(msg_ref), name, event, payload);
            let (begun, asked) = incoming(runner, dispatch.message@);
            let (noted, _, presenting) = resumed(begun, asked, Some(response));
            let effects = resumed(noted, presenting->0, announced).1;
            let confirmation = joined(name, Some(msg_ref), runner.incoming_sender);
            let reply = ReplyView::Join { msg_ref, channel_id: name };
            &&& acceptable(conn, request)
            &&& mailbox_action(conn, request, socket) == Some(
                ConnActionView::Registry(
                    RequestView::JoinRequest(
                        JoinView {
                            token: conn.token,
                            channel_id: name,
                            mailbox_tx: conn.mailbox_tx,
                            reply_sender: socket,
                            msg_ref,
                            payload,
                        },
                    ),
                ),
            )
            &&& asked.awaited == AwaitedView::Join
            &&& resumable(asked, Some(response))
            &&& presenting is Some
            &&& effects.contains(EffectView::Mailbox(conn.mailbox_tx, confirmation))
            &&& acceptable(later, confirmation)
            &&& mailbox_action(later, confirmation, socket) == Some(
                ConnActionView::Reply(socket, reply),
            )
            &&& reply_json(reply) == Some(
                frame_json(None, Some(msg_ref), name, "phx_reply"@, ok_json()),
            )
            &&& after_mailbox(later, confirmation).subscriptions.channels.contains_key(name)
        }),
{
    let (begun, asked) = incoming(runner, dispatch.message@);
    let (noted, _, presenting) = resumed(begun, asked, Some(response));
    let effects = resumed(noted, presenting->0, announced).1;
    let confirmation = joined(name, Some(msg_ref), runner.incoming_sender);
    let i = presence_effects(noted, announced).len() as int;
    assert(effects[i] == EffectView::Mailbox(conn.mailbox_tx, confirmation));
}

/// The request to join that the registry hands to a channel has all that it takes: whatever
/// the channel answers to it, and with whatever it can send in response and announce, the
/// turn comes to its end; if the socket is let in, its confirmation carries the reference of
/// the request.
pub proof fn law_join_goes_on(
    runner: RunnerView,
    request: JoinView,
    answer: Option<Option<MessageView>>,
    announced: Option<Option<MessageView>>,
)
    requires
        answer matches Some(response) ==> sendable_response(response),
        announced matches Some(Some(message)) ==> message.kind == MessageKind::Broadcast,
    ensures
        ({
            let (begun, asked) = incoming(runner, join_context(request));
            let (noted, _, next) = resumed(begun, asked, answer);
            &&& asked.awaited == AwaitedView::Join
            &&& resumable(asked, answer)
            &&& next is Some <==> answer is Some
            &&& next matches Some(turn) ==> resumable(turn, announced) && turn.context.msg_ref
                == Some(request.msg_ref) && resumed(noted, turn, announced).2 is None
        }),
{
}

/// A template for a key makes every channel joinable whose name is that key, a `:` and
/// anything.
pub proof fn law_template_makes_joinable<T>(
    registry: RegistryView<T>,
    key: Seq<char>,
    value: Seq<char>,
    template: T,
)
    requires
        !key.contains(':'),
    ensures
        joinable(
            (RegistryView {
                templates: with_default(registry.templates, key, template),
                ..registry
            }),
            key + seq![':'] + value,
        ),
{
    law_name_joins(key, value);
}

/// A channel whose name has no `:` can be joined only if it has been added; no template
/// makes it.
pub proof fn law_plain_name_needs_a_channel<T>(registry: RegistryView<T>, name: Seq<char>)
    requires
        !name.contains(':'),
    ensures
        joinable(registry, name) <==> registry.channels.contains_key(name),
{
    law_name_splits(name);
}

/// Joining a channel leaves it in the registry. Where it takes messages stays the same
/// however often it is joined; other channels, and the templates, are not touched.
pub proof fn law_channel_stays<T>(
    registry: RegistryView<T>,
    name: Seq<char>,
    other: Seq<char>,
    fresh: ChannelSender,
    now: u128,
)
    requires
        name != other,
    ensures
        ({
            let after = after_join(registry, name, fresh, now);
            &&& after.channels.contains_key(name)
            &&& joinable(after, name)
            &&& registry.channels.contains_key(name) ==> after.channels[name]
                == registry.channels[name]
            &&& !registry.channels.contains_key(name) ==> after.channels[name] == fresh
            &&& after.channels.contains_key(other) == registry.channels.contains_key(other)
            &&& registry.channels.contains_key(other) ==> after.channels[other]
                == registry.channels[other]
            &&& joinable(after, other) == joinable(registry, other)
            &&& after.templates == registry.templates
        }),
{
}

/// The first of two entries under one key is the one that stays: of two templates for a key,
/// two channels with one name, two topics, two confirmations of a join.
pub proof fn law_first_entry_stays<V>(
    map: Map<Seq<char>, V>,
    key: Seq<char>,
    first: V,
    second: V,
)
    ensures
        with_default(with_default(map, key, first), key, second) == with_default(map, key, first),
{
}

/// A channel that reports that it is inactive within five seconds of the last request to join
/// it goes on, and the registry keeps it; later than that it ends. Its task ends if and only
/// if the registry has forgotten it.
pub proof fn law_inactive_channel<T>(
    registry: RegistryView<T>,
    name: Seq<char>,
    fresh: ChannelSender,
    joined_at: u128,
    now: u128,
    runner: RunnerView,
    timeout: bool,
)
    requires
        joined_at <= now,
    ensures
        ({
            let before = after_join(registry, name, fresh, joined_at);
            let after = after_report(before, name, now);
            let answer = verdict(before, name, now);
            let (_, step) = stepped(runner, RunnerEventView::Verdict(Some(answer)), timeout);
            &&& closes(before, name, now) <==> now - joined_at > WIGGLE_ROOM
            &&& now - joined_at <= WIGGLE_ROOM ==> after == before && step == RunnerStepView::Wait
            &&& step == RunnerStepView::Stop <==> !after.channels.contains_key(name)
        }),
{
}

/// A channel that nobody ever asked to join ends when it reports that it is inactive.
pub proof fn law_never_joined_channel<T>(registry: RegistryView<T>, name: Seq<char>, now: u128)
    requires
        !registry.last_join_at.contains_key(name),
    ensures
        verdict(registry, name, now) == RequestView::Close,
        after_report(registry, name, now) == without_channel(registry, name),
{
}

/// A channel that was closed or has died is not there any more. If there is a template for
/// it, the next request to join makes a new one, which takes messages in a place of its own.
pub proof fn law_channel_starts_anew<T>(
    registry: RegistryView<T>,
    name: Seq<char>,
    fresh: ChannelSender,
    now: u128,
)
    requires
        key_of(name) is Some,
        registry.templates.contains_key(key_of(name)->0),
    ensures
        ({
            let gone = without_channel(registry, name);
            &&& !gone.channels.contains_key(name)
            &&& joinable(gone, name)
            &&& after_join(gone, name, fresh, now).channels[name] == fresh
        }),
{
}

/// An entry is added under its own key only, and only if there is none: every other key has
/// what it had.
pub proof fn law_entry_is_added<V>(
    map: Map<Seq<char>, V>,
    key: Seq<char>,
    value: V,
    other: Seq<char>,
)
    requires
        other != key,
    ensures
        ({
            let after = with_default(map, key, value);
            &&& after.contains_key(key)
            &&& after[key] == if map.contains_key(key) {
                map[key]
            } else {
                value
            }
            &&& after.contains_key(other) <==> map.contains_key(other)
            &&& map.contains_key(other) ==> after[other] == map[other]
        }),
{
}

/// A channel can be joined if and only if it is in the registry, or its name is a key, a `:`
/// and anything, and there is a template for that key.
pub proof fn law_joinable<T>(
    registry: RegistryView<T>,
    name: Seq<char>,
    key: Seq<char>,
    value: Seq<char>,
)
    requires
        !key.contains(':'),
    ensures
        registry.channels.contains_key(name) ==> joinable(registry, name),
        joinable(registry, key + seq![':'] + value) <==> registry.channels.contains_key(
            key + seq![':'] + value,
        ) || registry.templates.contains_key(key),
        !name.contains(':') && !registry.channels.contains_key(name) ==> !joinable(registry, name),
{
    law_name_joins(key, value);
    law_name_splits(name);
}

/// Whether a channel lives on from one state of the registry to another: it is there if and
/// only if it was, takes messages where it did, can be joined if and only if it could be, and
/// would be closed at a given time if and only if it would have been.
pub open spec fn lives_on<T>(
    before: RegistryView<T>,
    after: RegistryView<T>,
    name: Seq<char>,
    time: u128,
) -> bool {
    &&& after.channels.contains_key(name) <==> before.channels.contains_key(name)
    &&& before.channels.contains_key(name) ==> after.channels[name] == before.channels[name]
    &&& joinable(after, name) <==> joinable(before, name)
    &&& closes(after, name, time) <==> closes(before, name, time)
}

/// When the registry closes a channel as inactive, or forgets it as dead, that channel is gone
/// and every other one lives on. Templates stay.
pub proof fn law_other_channels_live_on<T>(
    registry: RegistryView<T>,
    name: Seq<char>,
    other: Seq<char>,
    now: u128,
    time: u128,
)
    requires
        other != name,
    ensures
        lives_on(registry, without_channel(registry, name), other, time),
        lives_on(registry, after_report(registry, name, now), other, time),
        !without_channel(registry, name).channels.contains_key(name),
        without_channel(registry, name).templates == registry.templates,
        after_report(registry, name, now).templates == registry.templates,
{
}

/// A channel that reports that it is inactive is told to close if and only if the last request
/// to join it, if there was one, came more than five seconds ago. It is then gone from the
/// registry; else nothing changes.
pub proof fn law_report_is_answered<T>(registry: RegistryView<T>, name: Seq<char>, now: u128)
    ensures
        ({
            let lately = registry.last_join_at.contains_key(name) && now
                - registry.last_join_at[name] <= 5_000_000_000;
            let after = after_report(registry, name, now);
            &&& closes(registry, name, now) <==> !lately
            &&& lately ==> verdict(registry, name, now) == RequestView::Continue && after
                == registry
            &&& !lately ==> verdict(registry, name, now) == RequestView::Close
                && !after.channels.contains_key(name)
        }),
{
}

/// A request to join is noted under the name of its channel and with its time; the times of
/// other channels stay.
pub proof fn law_join_time_is_noted<T>(
    registry: RegistryView<T>,
    name: Seq<char>,
    fresh: ChannelSender,
    now: u128,
    other: Seq<char>,
)
    requires
        other != name,
    ensures
        ({
            let after = after_join(registry, name, fresh, now);
            &&& after.last_join_at.contains_key(name)
            &&& after.last_join_at[name] == now
            &&& after.last_join_at.contains_key(other) <==> registry.last_join_at.contains_key(
                other,
            )
            &&& registry.last_join_at.contains_key(other) ==> after.last_join_at[other]
                == registry.last_join_at[other]
        }),
{
}

/// A request to join is handed on if and only if the channel can be joined; else the answer is
/// that there is no template, and nothing changes. What is handed on goes to where the channel
/// takes messages: where it did before, or where the new one does that is started for it, under
/// the name that was asked for. It says who asks, for which channel, with which reference and
/// payload, and where to answer.
pub proof fn law_request_is_handed_on<T: NewChannel>(
    before: RegistryView<T>,
    after: RegistryView<T>,
    channel_id: ChannelId,
    request: JoinView,
    fresh: ChannelSender,
    now: u128,
    outcome: Result<Dispatch<T::Channel>, Error>,
)
    requires
        join_outcome(before, after, channel_id, request, fresh, now, outcome),
    ensures
        outcome is Ok <==> joinable(before, request.channel_id),
        outcome matches Err(error) ==> error == Error::NoTemplate && after == before,
        outcome matches Ok(dispatch) ==> {
            let name = request.channel_id;
            let context = dispatch.message@;
            &&& context.token == request.token
            &&& context.inner.kind == MessageKind::JoinRequest
            &&& context.inner.channel_id == name
            &&& context.inner.msg_ref == Some(request.msg_ref)
            &&& context.inner.join_ref is None
            &&& context.inner.payload == request.payload
            &&& context.inner.event == "phx_join"@
            &&& context.inner.channel_sender is None
            &&& context.reply_to == Some(request.mailbox_tx)
            &&& context.ws_reply_to == Some(request.reply_sender)
            &&& context.broadcast is None
            &&& context.msg_ref == Some(request.msg_ref)
            &&& before.channels.contains_key(name) ==> dispatch.spawn is None && dispatch.sender
                == before.channels[name]
            &&& !before.channels.contains_key(name) ==> {
                &&& dispatch.sender == fresh
                &&& dispatch.spawn matches Some(spawn)
                &&& spawn.channel_id@ == name
                &&& spawn.sender == fresh
                &&& spawn.inactivity_timeout
                &&& call_ensures(
                    T::new_channel,
                    (&before.templates[key_of(name)->0], channel_id),
                    spawn.channel,
                )
            }
            &&& after.channels.contains_key(name)
            &&& after.channels[name] == dispatch.sender
            &&& after.templates == before.templates
        },
{
}

/// The registry's request to join a channel, as the channel gets it.
pub proof fn law_join_context(request: JoinView)
    ensures
        ({
            let context = join_context(request);
            &&& context.token == request.token
            &&& context.inner.kind == MessageKind::JoinRequest
            &&& context.inner.channel_id == request.channel_id
            &&& context.inner.payload == request.payload
            &&& context.reply_to == Some(request.mailbox_tx)
            &&& context.ws_reply_to == Some(request.reply_sender)
            &&& context.msg_ref == Some(request.msg_ref)
        }),
{
}

} // verus!
