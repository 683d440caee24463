//! The bot's view of the gateway traffic: the incoming events it can
//! distinguish, and the outbound actions it can decide on.
//!
//! Only the payload the bot reads is modelled: a created message carries
//! the originating channel and its text; a shard-connected notification
//! carries nothing, since the shard is identified by the stream that
//! delivered it. Every other event kind is a single opaque variant.

use vstd::prelude::*;

verus! {

/// One incoming gateway event, as far as the bot looks at it.
#[derive(Debug, PartialEq, Eq)]
pub enum Event {
    /// A message was created in some channel.
    MessageCreate { channel_id: u64, content: String },
    /// A shard finished connecting.
    ShardConnected,
    /// Any other event kind: the bot ignores its payload entirely.
    Other,
}

/// The mathematical value of an [`Event`].
#[verifier::ext_equal]
pub enum AbstractEvent {
    MessageCreate { channel_id: u64, content: Seq<char> },
    ShardConnected,
    Other,
}

impl View for Event {
    type V = AbstractEvent;

    open spec fn view(&self) -> AbstractEvent {
        match self {
            Event::MessageCreate { channel_id, content } => (AbstractEvent::MessageCreate {
                channel_id: *channel_id,
                content: content@,
            }),
            Event::ShardConnected => AbstractEvent::ShardConnected,
            Event::Other => AbstractEvent::Other,
        }
    }
}

/// The single outbound action an event gives rise to.
#[derive(Debug, PartialEq, Eq)]
pub enum Action {
    /// Send one message with the given text to the given channel.
    Reply { channel_id: u64, content: String },
    /// Print one line on the console.
    Notice { message: String },
    /// Do nothing at all.
    Ignore,
}

/// The mathematical value of an [`Action`].
#[verifier::ext_equal]
pub enum AbstractAction {
    Reply { channel_id: u64, content: Seq<char> },
    Notice { message: Seq<char> },
    Ignore,
}

impl View for Action {
    type V = AbstractAction;

    open spec fn view(&self) -> AbstractAction {
        match self {
            Action::Reply { channel_id, content } => (AbstractAction::Reply {
                channel_id: *channel_id,
                content: content@,
            }),
            Action::Notice { message } => (AbstractAction::Notice { message: message@ }),
            Action::Ignore => AbstractAction::Ignore,
        }
    }
}

} // verus!
