//! Keyboard input on the client's terminal.

use crate::innermessage::InnerMessage;
use vstd::prelude::*;

verus! {

/// The bytes the F12 key sends.
pub open spec fn spec_f12() -> Seq<u8> {
    seq![27u8, 91u8, 50u8, 52u8, 126u8]
}

/// The bytes the F10 key sends.
pub open spec fn spec_f10() -> Seq<u8> {
    seq![27u8, 91u8, 50u8, 49u8, 126u8]
}

/// What a chunk of keyboard input asks for.
#[derive(Debug, PartialEq, Eq)]
pub enum UiAction {
    /// F12: stop the event loop.
    Stop,
    /// F10: leave raw mode and read a command at the `oxy>` prompt.
    Metacommand,
    /// Anything else: send this input to the remote terminal.
    Send(InnerMessage),
}

/// Whether `buf` holds exactly the five bytes `b0 .. b4`.
fn is_key(buf: &[u8], b0: u8, b1: u8, b2: u8, b3: u8, b4: u8) -> (r: bool)
    ensures
        r == (buf@ == seq![b0, b1, b2, b3, b4]),
{
    if buf.len() != 5 {
        assert(buf@.len() != seq![b0, b1, b2, b3, b4].len());
        return false;
    }
    let r = buf[0] == b0 && buf[1] == b1 && buf[2] == b2 && buf[3] == b3 && buf[4] == b4;
    if r {
        assert(buf@ =~= seq![b0, b1, b2, b3, b4]);
    } else {
        assert(buf@ != seq![b0, b1, b2, b3, b4]) by {
            if buf@ == seq![b0, b1, b2, b3, b4] {
                assert(buf@[0] == b0 && buf@[1] == b1 && buf@[2] == b2 && buf@[3] == b3 && buf@[4] == b4);
            }
        }
    }
    r
}

/// Reads a chunk of keyboard input: F12 stops, F10 opens the command
/// prompt, and anything else goes to remote terminal 0.
pub fn ui_read(buf: &[u8]) -> (action: UiAction)
    ensures
        buf@ == spec_f12() ==> action == UiAction::Stop,
        buf@ == spec_f10() ==> action == UiAction::Metacommand,
        buf@ != spec_f12() && buf@ != spec_f10() ==> (action matches UiAction::Send(
            InnerMessage::PtyInput { id, input },
        ) && id == 0 && input@ == buf@),
{
    if is_key(buf, 27, 91, 50, 52, 126) {
        UiAction::Stop
    } else if is_key(buf, 27, 91, 50, 49, 126) {
        UiAction::Metacommand
    } else {
        let mut input: Vec<u8> = Vec::new();
        let mut i: usize = 0;
        while i < buf.len()
            invariant
                0 <= i <= buf@.len(),
                input@ == buf@.subrange(0, i as int),
            decreases buf@.len() - i,
        {
            input.push(buf[i]);
            i = i + 1;
        }
        assert(buf@.subrange(0, buf@.len() as int) =~= buf@);
        UiAction::Send(InnerMessage::PtyInput { input, id: 0 })
    }
}

/// The message that tells the server the size of terminal 0.
pub fn tty_size_message(w: u16, h: u16) -> (message: InnerMessage)
    ensures
        message == (InnerMessage::PtySizeAdvertisement { id: 0, w, h }),
{
    InnerMessage::PtySizeAdvertisement { id: 0, w, h }
}

} // verus!
