//! The event dispatcher: the one decision the bot makes. Given an event
//! and the shard it arrived on, it returns the single action to take:
//! reply `Pong!` to a message whose text is exactly `!ping`, announce a
//! connected shard on the console, and ignore everything else.

use vstd::prelude::*;
use crate::event::{AbstractAction, AbstractEvent, Action, Event};
use crate::text::{connected_notice, notice_text};

verus! {

/// The command the bot listens for: exactly `!ping`, case-sensitive,
/// with no surrounding whitespace.
pub open spec fn ping_command() -> Seq<char> {
    "!ping"@
}

/// The text of the bot's reply.
pub open spec fn pong_reply() -> Seq<char> {
    "Pong!"@
}

/// What the dispatcher decides, as a function of the shard and the event.
pub open spec fn spec_dispatch(shard_id: u64, e: AbstractEvent) -> AbstractAction {
    match e {
        AbstractEvent::MessageCreate { channel_id, content } => {
            if content == ping_command() {
                AbstractAction::Reply { channel_id, content: pong_reply() }
            } else {
                AbstractAction::Ignore
            }
        },
        AbstractEvent::ShardConnected => (AbstractAction::Notice {
            message: notice_text(shard_id),
        }),
        AbstractEvent::Other => AbstractAction::Ignore,
    }
}

/// True exactly when `content` is the ping command.
fn is_ping(content: &String) -> (r: bool)
    ensures
        r == (content@ == ping_command()),
{
    let ping: String = "!ping".to_owned();
    *content == ping
}

/// Decides the action for one event, received on the shard `shard_id`.
pub fn dispatch(shard_id: u64, event: &Event) -> (a: Action)
    ensures
        a@ == spec_dispatch(shard_id, event@),
{
    match event {
        Event::MessageCreate { channel_id, content } => {
            if is_ping(content) {
                Action::Reply { channel_id: *channel_id, content: "Pong!".to_owned() }
            } else {
                Action::Ignore
            }
        },
        Event::ShardConnected => Action::Notice { message: connected_notice(shard_id) },
        Event::Other => Action::Ignore,
    }
}

/// Law: a reply is decided exactly for a created message whose text is the
/// ping command, and for nothing else; the reply then carries the pong text
/// and is addressed to the message's own channel.
pub proof fn lemma_reply_only_for_ping(shard_id: u64, e: AbstractEvent)
    ensures
        (spec_dispatch(shard_id, e) is Reply) <==> (e matches AbstractEvent::MessageCreate {
            channel_id: _,
            content,
        } && content == ping_command()),
        e matches AbstractEvent::MessageCreate { channel_id, content } ==> (content
            == ping_command() ==> spec_dispatch(shard_id, e) == (AbstractAction::Reply {
            channel_id,
            content: pong_reply(),
        })),
{
}

/// Law: the match on the command is exact. A created message whose text
/// differs from `!ping` in any way — case, whitespace, a missing prefix —
/// is ignored outright.
pub proof fn lemma_no_reply_without_exact_match(shard_id: u64, channel_id: u64, content: Seq<char>)
    requires
        content != ping_command(),
    ensures
        spec_dispatch(shard_id, AbstractEvent::MessageCreate { channel_id, content })
            == AbstractAction::Ignore,
{
}

/// Law: a shard-connected event is decided into exactly one console notice,
/// naming that shard, and never into an outbound message.
pub proof fn lemma_shard_connected_notice(shard_id: u64)
    ensures
        spec_dispatch(shard_id, AbstractEvent::ShardConnected) == (AbstractAction::Notice {
            message: notice_text(shard_id),
        }),
        !(spec_dispatch(shard_id, AbstractEvent::ShardConnected) is Reply),
{
}

/// Law: an event of any kind other than message-create or shard-connected
/// is decided into no action at all.
pub proof fn lemma_other_events_ignored(shard_id: u64)
    ensures
        spec_dispatch(shard_id, AbstractEvent::Other) == AbstractAction::Ignore,
{
}

/// Law: two ping messages, on any shards and in any order of delivery, are
/// decided independently: each yields its own pong reply, addressed to its
/// own channel, with no deduplication and no coupling between the two.
pub proof fn lemma_concurrent_pings_independent(
    shard_a: u64,
    channel_a: u64,
    shard_b: u64,
    channel_b: u64,
)
    ensures
        spec_dispatch(shard_a, AbstractEvent::MessageCreate {
            channel_id: channel_a,
            content: ping_command(),
        }) == (AbstractAction::Reply { channel_id: channel_a, content: pong_reply() }),
        spec_dispatch(shard_b, AbstractEvent::MessageCreate {
            channel_id: channel_b,
            content: ping_command(),
        }) == (AbstractAction::Reply { channel_id: channel_b, content: pong_reply() }),
{
}

} // verus!
