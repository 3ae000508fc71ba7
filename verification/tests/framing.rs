//! What is read from a socket and what is written to it.

use axum_channels::conn::{
    handle_close, map_frame, write_step, Incoming, WriterEvent, WriterStep,
};
use axum_channels::message::{phx_channel, Frame, Message, MessageKind, MessageReply, NotBroadcast};
use axum_channels::parser::parse_message;
use axum_channels::types::ChannelId;
use axum_channels::{ConnFormat, ParseError, PhoenixParser};
use serde_json::Value;

fn parse(text: &str) -> Message {
    PhoenixParser::from_str(text).unwrap()
}

fn written(reply: MessageReply) -> String {
    match Frame::from_reply(reply) {
        Frame::Text(text) => text,
        other => panic!("{:?}", other),
    }
}

fn payload(text: &str) -> Value {
    serde_json::from_str(text).unwrap()
}

#[test]
fn the_five_fields_of_a_message_are_read() {
    let message = parse(r#"["1", "2", "room:a", "msg", {"a": [1, "x", null]}]"#);
    assert_eq!(message.kind, MessageKind::Event);
    assert_eq!(message.join_ref.as_deref(), Some("1"));
    assert_eq!(message.msg_ref.as_deref(), Some("2"));
    assert_eq!(message.channel_id.id(), "room:a");
    assert_eq!(message.channel_id.key(), Some("room"));
    assert_eq!(&*message.event, "msg");
    assert_eq!(message.payload, payload(r#"{"a": [1, "x", null]}"#));
    assert!(message.channel_sender.is_none());
}

#[test]
fn references_that_are_no_strings_are_none() {
    let message = parse(r#"[1, null, "room", "msg"]"#);
    assert!(message.join_ref.is_none());
    assert!(message.msg_ref.is_none());
    assert_eq!(message.payload, Value::Null);
}

#[test]
fn the_event_says_what_a_message_is_for() {
    let kind = |event: &str| parse(&format!(r#"[null, null, "c", "{}", null]"#, event)).kind;
    assert_eq!(kind("join"), MessageKind::JoinRequest);
    assert_eq!(kind("phx_join"), MessageKind::JoinRequest);
    assert_eq!(kind("heartbeat"), MessageKind::Heartbeat);
    assert_eq!(kind("phx_leave"), MessageKind::Event);
    assert_eq!(kind("closed"), MessageKind::Event);
    assert_eq!(kind(""), MessageKind::Event);
    assert_eq!(kind("Join"), MessageKind::Event);
}

#[test]
fn a_text_that_is_no_json_is_refused() {
    let error = PhoenixParser::from_str("[1,").unwrap_err();
    assert!(matches!(error, ParseError::Json { .. }));
    let error = PhoenixParser::from_str("").unwrap_err();
    assert!(matches!(error, ParseError::Json { .. }));
}

#[test]
fn a_message_needs_a_channel_and_an_event() {
    for text in ["{}", "[]", "1", "[null, null, 3, \"msg\"]", "[null, null, null, null]"] {
        let error = PhoenixParser::from_str(text).unwrap_err();
        assert!(matches!(error, ParseError::MissingChannelId));
    }
    for text in ["[null, null, \"c\"]", "[null, null, \"c\", 4, {}]"] {
        let error = parse_message(text, &ConnFormat::Phoenix).unwrap_err();
        assert!(matches!(error, ParseError::MissingEvent));
    }
}

#[test]
fn a_message_is_found_in_a_value() {
    let value = payload(r#"["1", "2", "room", "join", true]"#);
    let message = PhoenixParser::from_value(&value).unwrap();
    assert_eq!(message.kind, MessageKind::JoinRequest);
    assert_eq!(message.payload, Value::Bool(true));
}

#[test]
fn replies_are_written_as_arrays_of_five() {
    let channel_id: ChannelId = "room:1".into();
    let event = "msg";
    let body = payload(r#"{"b": 1, "a": "\"x\"\n"}"#);
    let expected = r#"[null,null,"room:1","msg",{"a":"\"x\"\n","b":1}]"#;
    let broadcast = MessageReply::Broadcast {
        event: event.into(),
        payload: body.clone(),
        channel_id: channel_id.clone(),
    };
    assert_eq!(written(broadcast), expected);
    let pushed = MessageReply::Push {
        event: event.into(),
        payload: body.clone(),
        channel_id: channel_id.clone(),
    };
    assert_eq!(written(pushed), expected);
    let evented = MessageReply::Event { event: event.into(), payload: body, channel_id };
    assert_eq!(written(evented), expected);
}

#[test]
fn confirmations_repeat_the_reference() {
    assert_eq!(phx_channel().id(), "phoenix");
    assert_eq!(
        written(MessageReply::Heartbeat { msg_ref: "8".into() }),
        r#"[null,"8","phoenix","phx_reply",{"response":{},"status":"ok"}]"#
    );
    assert_eq!(
        written(MessageReply::Join { msg_ref: "a\"b".into(), channel_id: "room".into() }),
        r#"[null,"a\"b","room","phx_reply",{"response":{},"status":"ok"}]"#
    );
}

#[test]
fn what_is_written_is_read_back() {
    let body = payload(r#"{"n": [-5, 18446744073709551615, "\u0000😀"], "e": {}}"#);
    let text = written(MessageReply::Push {
        channel_id: "room:\u{e9}".into(),
        event: "ev\"ent".into(),
        payload: body.clone(),
    });
    let message = parse(&text);
    assert_eq!(message.channel_id.id(), "room:\u{e9}");
    assert_eq!(&*message.event, "ev\"ent");
    assert_eq!(message.payload, body);
    let text = written(MessageReply::Join { msg_ref: "7".into(), channel_id: "c".into() });
    let message = parse(&text);
    assert_eq!(message.msg_ref.as_deref(), Some("7"));
    assert_eq!(message.payload["status"], "ok");
}

#[test]
fn payloads_are_read_back_as_deep_as_readers_follow() {
    let nested = |depth: usize| {
        let mut value = Value::from(1);
        for _ in 0..depth {
            value = Value::Array(vec![value]);
        }
        value
    };
    let pushed = |payload: Value| {
        written(MessageReply::Push { channel_id: "c".into(), event: "e".into(), payload })
    };
    let message = parse(&pushed(nested(126)));
    assert_eq!(message.payload, nested(126));
    assert!(PhoenixParser::from_str(&pushed(nested(127))).is_err());
}

fn with_raw_key(others: Vec<&str>) -> Value {
    let mut entries = serde_json::Map::new();
    entries.insert("$serde_json::private::RawValue".to_string(), Value::from("[null]"));
    for key in others {
        entries.insert(key.to_string(), Value::from(1));
    }
    Value::Object(entries)
}

#[test]
fn one_key_is_kept_by_readers_for_themselves_where_it_comes_first() {
    let pushed = |payload: Value| {
        written(MessageReply::Push { channel_id: "c".into(), event: "e".into(), payload })
    };
    assert_eq!(parse(&pushed(with_raw_key(vec![]))).payload, payload("[null]"));
    assert!(PhoenixParser::from_str(&pushed(with_raw_key(vec!["a"]))).is_err());
    for key in ["", "#", "$", "$serde_json", "$serde_json::private::Raw"] {
        let body = with_raw_key(vec![key, "a"]);
        assert_eq!(parse(&pushed(body.clone())).payload, body);
    }
    let longer = with_raw_key(vec!["$serde_json::private::RawValue2"]);
    assert!(PhoenixParser::from_str(&pushed(longer)).is_err());
}

#[test]
fn a_reply_and_a_pong_are_written_as_they_are() {
    assert_eq!(written(MessageReply::Reply("as it is".to_string())), "as it is");
    let frame = Frame::from_reply(MessageReply::Pong(vec![1, 2, 3]));
    assert!(matches!(frame, Frame::Pong(data) if data == vec![1, 2, 3]));
}

#[test]
fn only_replies_and_broadcasts_say_that_they_are() {
    let reply = MessageReply::Reply(String::new());
    assert!(reply.is_reply() && !reply.is_broadcast());
    let broadcast = MessageReply::Broadcast {
        event: "e".into(),
        payload: Value::Null,
        channel_id: "c".into(),
    };
    assert!(!broadcast.is_reply() && broadcast.is_broadcast());
    let intercept = MessageReply::BroadcastIntercept {
        event: "e".into(),
        payload: Value::Null,
        channel_id: "c".into(),
    };
    assert!(!intercept.is_reply() && !intercept.is_broadcast());
}

#[test]
fn a_copy_of_a_reply_says_the_same() {
    let replies = vec![
        MessageReply::Reply("text".to_string()),
        MessageReply::Broadcast {
            event: "e".into(),
            payload: payload("[1]"),
            channel_id: "c".into(),
        },
        MessageReply::Pong(vec![1]),
        MessageReply::Event { event: "e".into(), payload: payload("[1]"), channel_id: "c".into() },
        MessageReply::Heartbeat { msg_ref: "r".into() },
        MessageReply::Join { msg_ref: "r".into(), channel_id: "c".into() },
        MessageReply::BroadcastIntercept {
            event: "e".into(),
            payload: payload("[1]"),
            channel_id: "c".into(),
        },
        MessageReply::Push { event: "e".into(), payload: payload("[1]"), channel_id: "c".into() },
    ];
    for reply in replies {
        let copy = reply.clone();
        assert_eq!(format!("{:?}", copy), format!("{:?}", reply));
    }
}

#[test]
fn only_broadcasts_become_broadcast_replies() {
    let message = |kind: MessageKind| Message {
        kind,
        channel_id: "c".into(),
        msg_ref: None,
        join_ref: None,
        payload: payload("[1]"),
        event: "e".into(),
        channel_sender: None,
    };
    let reply = MessageReply::try_from(message(MessageKind::Broadcast)).unwrap();
    assert!(reply.is_broadcast());
    let reply = MessageReply::try_from(message(MessageKind::BroadcastIntercept)).unwrap();
    assert!(matches!(reply, MessageReply::BroadcastIntercept { .. }));
    let error = MessageReply::try_from(message(MessageKind::Push)).unwrap_err();
    assert_eq!(error, NotBroadcast { kind: MessageKind::Push });
}

#[test]
fn a_frame_comes_to_a_message_a_pong_or_the_end() {
    let format = ConnFormat::Phoenix;
    let text = r#"[null, "1", "c", "msg", {}]"#.to_string();
    match map_frame(Some(Frame::Text(text)), &format) {
        Incoming::Mailbox(message) => assert_eq!(message.msg_ref.as_deref(), Some("1")),
        other => panic!("{:?}", other),
    }
    let unreadable = map_frame(Some(Frame::Text("x".to_string())), &format);
    assert!(matches!(unreadable, Incoming::Unreadable(ParseError::Json { .. })));
    match map_frame(Some(Frame::Ping(vec![4, 2])), &format) {
        Incoming::Reply(reply) => {
            assert!(matches!(Frame::from_reply(reply), Frame::Pong(data) if data == vec![4, 2]));
        }
        other => panic!("{:?}", other),
    }
    for frame in [Some(Frame::Close), None] {
        match map_frame(frame, &format) {
            Incoming::Close(message) => assert_eq!(message.kind, MessageKind::Closed),
            other => panic!("{:?}", other),
        }
    }
}

#[test]
fn the_last_message_of_a_socket_says_that_it_is_closed() {
    let message = handle_close();
    assert_eq!(message.kind, MessageKind::Closed);
    assert_eq!(message.channel_id.id(), "_closed");
    assert_eq!(&*message.event, "closed");
    assert_eq!(message.payload, Value::Null);
    assert!(message.msg_ref.is_none() && message.join_ref.is_none());
}

#[test]
fn the_writer_closes_at_the_first_frame_that_cannot_be_written() {
    let reply = MessageReply::Heartbeat { msg_ref: "8".into() };
    match write_step(WriterEvent::Reply(reply)) {
        WriterStep::Write(Frame::Text(text)) => assert_eq!(
            text,
            r#"[null,"8","phoenix","phx_reply",{"response":{},"status":"ok"}]"#
        ),
        other => panic!("{:?}", other),
    }
    assert!(matches!(write_step(WriterEvent::Written), WriterStep::Wait));
    match write_step(WriterEvent::Failed) {
        WriterStep::Close(last) => assert_eq!(last.kind, MessageKind::Closed),
        other => panic!("{:?}", other),
    }
    assert!(matches!(write_step(WriterEvent::Disconnected), WriterStep::Stop));
}
