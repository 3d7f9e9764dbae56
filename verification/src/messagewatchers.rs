//! Watchers that look at every inner message as it arrives.

use crate::innermessage::InnerMessage;
use vstd::prelude::*;

verus! {

/// What a watcher asks for after seeing a message.
#[derive(Debug, Clone, Copy, PartialEq, Eq, Structural)]
pub struct MessageWatcherResult {
    /// Whether the watcher wants to see further messages.
    pub keep_watching: bool,
    /// Whether the message is used up, so that later watchers do not see it.
    pub consume_message: bool,
}

/// The watcher is done, and the message is used up.
pub fn done() -> (r: MessageWatcherResult)
    ensures
        r == (MessageWatcherResult { keep_watching: false, consume_message: true }),
{
    MessageWatcherResult { keep_watching: false, consume_message: true }
}

/// The watcher keeps watching and leaves the message to others.
pub fn ignore() -> (r: MessageWatcherResult)
    ensures
        r == (MessageWatcherResult { keep_watching: true, consume_message: false }),
{
    MessageWatcherResult { keep_watching: true, consume_message: false }
}

/// The watcher keeps watching, and the message is used up.
pub fn eat() -> (r: MessageWatcherResult)
    ensures
        r == (MessageWatcherResult { keep_watching: true, consume_message: true }),
{
    MessageWatcherResult { keep_watching: true, consume_message: true }
}

/// The watcher that logs every message: it keeps watching and leaves every
/// message to others.
pub fn log_message(id: u64, message: &InnerMessage) -> (r: MessageWatcherResult)
    ensures
        r == (MessageWatcherResult { keep_watching: true, consume_message: false }),
{
    ignore()
}

/// The watcher that answers pings: a `Ping` numbered `id` is answered with a
/// `Pong` carrying `id` and used up; any other message is left to others.
pub fn pong(id: u64, message: &InnerMessage) -> (r: (MessageWatcherResult, Option<InnerMessage>))
    ensures
        message is Ping ==> r == (
            MessageWatcherResult { keep_watching: true, consume_message: true },
            Some(InnerMessage::Pong { message_number: id }),
        ),
        !(message is Ping) ==> r == (
            MessageWatcherResult { keep_watching: true, consume_message: false },
            None::<InnerMessage>,
        ),
{
    match message {
        InnerMessage::Ping {  } => (eat(), Some(InnerMessage::Pong { message_number: id })),
        _ => (ignore(), None),
    }
}

} // verus!
