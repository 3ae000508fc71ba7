//! The sending ends of the tasks' queues.
//!
//! A sender is known here by a number alone: whoever runs the tasks keeps the queues and
//! looks them up by it. Two senders are the same queue when their numbers are equal.

use vstd::prelude::*;

verus! {

/// Sends messages to the task that reads a socket.
#[derive(Debug, Clone, Copy, PartialEq, Eq, Structural)]
pub struct MailboxSender(pub u64);

/// Sends replies to the task that writes a socket.
#[derive(Debug, Clone, Copy, PartialEq, Eq, Structural)]
pub struct SocketSender(pub u64);

/// Sends messages to the task that runs a channel.
#[derive(Debug, Clone, Copy, PartialEq, Eq, Structural)]
pub struct ChannelSender(pub u64);

/// Sends replies to every socket that has joined a channel.
#[derive(Debug, Clone, Copy, PartialEq, Eq, Structural)]
pub struct BroadcastSender(pub u64);

/// Answers one question, once.
#[derive(Debug, Clone, Copy, PartialEq, Eq, Structural)]
pub struct AnswerSender(pub u64);

} // verus!
