//! Remote terminals on the server.

use crate::innermessage::InnerMessage;
use crate::messagewatchers::{eat, ignore, MessageWatcherResult};
use vstd::prelude::*;

verus! {

/// Copies `bytes` into a vector.
fn to_vec(bytes: &[u8]) -> (v: Vec<u8>)
    ensures
        v@ == bytes@,
{
    let mut v: Vec<u8> = Vec::new();
    let mut i: usize = 0;
    while i < bytes.len()
        invariant
            0 <= i <= bytes@.len(),
            v@ == bytes@.subrange(0, i as int),
        decreases bytes@.len() - i,
    {
        v.push(bytes[i]);
        i = i + 1;
    }
    assert(bytes@.subrange(0, bytes@.len() as int) =~= bytes@);
    v
}

/// The message that carries what terminal `id` printed; nothing when it
/// printed nothing.
pub fn pty_output_message(id: u64, output: &[u8]) -> (message: Option<InnerMessage>)
    ensures
        output@.len() == 0 ==> message is None,
        output@.len() != 0 ==> (message matches Some(InnerMessage::PtyOutput { id: i, output: o })
            && i == id && o@ == output@),
{
    if output.len() != 0 {
        Some(InnerMessage::PtyOutput { id, output: to_vec(output) })
    } else {
        None
    }
}

/// The watcher a new terminal installs: every `PtyInput` message is used up,
/// and its input is to be written to the terminal; any other message is left
/// to others. The terminal number the message names is not looked at.
pub fn pty_input_watcher(message: &InnerMessage) -> (r: (MessageWatcherResult, Option<Vec<u8>>))
    ensures
        match message {
            InnerMessage::PtyInput { input, .. } => r.0 == (MessageWatcherResult {
                keep_watching: true,
                consume_message: true,
            }) && (r.1 matches Some(v) && v@ == input@),
            _ => r.0 == (MessageWatcherResult {
                keep_watching: true,
                consume_message: false,
            }) && r.1 is None,
        },
{
    match message {
        InnerMessage::PtyInput { input, .. } => (eat(), Some(to_vec(input.as_slice()))),
        _ => (ignore(), None),
    }
}

} // verus!
