//! The Noise session steps between frames and mid packets.
//!
//! Outbound, each frame of an inner message is sealed by the Noise session
//! into the payload of one mid packet. Inbound, the payload of a mid packet
//! is either a handshake message (while the session is still in its
//! handshake) or a sealed frame.

use crate::inner::{spec_zeros, FRAME_SIZE};
use crate::mid::{get_payload, spec_payload, MID_PACKET_SIZE, PAYLOAD_SIZE};
pub use crate::session::{
    spec_completed, spec_same_side, NoiseCall, NoiseOp, NoiseSession, NoiseSessionView, Phase,
    HANDSHAKE_MESSAGES, MIN_HANDSHAKE_ROOM, NOISE_PATTERN, TAG_SIZE,
};
use vstd::prelude::*;

verus! {

broadcast use vstd::seq_lib::group_seq_properties;

/// Size of the scratch buffer a Noise message is read into or written from.
pub const NOISE_BUFFER_SIZE: usize = 1024;

/// Handshake message lengths that a mid packet may carry: the first message
/// of the handshake (96 bytes) and the answer to it (48 bytes).
pub open spec fn spec_handshake_length_ok(len: u8) -> bool {
    len == 96 || len == 48
}

/// What a mid packet brought in.
pub enum MidEvent {
    /// A decrypted frame of [`FRAME_SIZE`] bytes, for the frame assembler.
    Frame(Vec<u8>),
    /// The handshake completed. The responder's answer to the first handshake
    /// message is in `reply`, to be sent back with a fake tag; after it the
    /// peer is greeted with an inner `Dummy` message (see
    /// [`crate::oxy::greet_after_handshake`]).
    HandshakeDone { reply: Option<Vec<u8>> },
}

/// Why a mid packet could not be taken in, or a frame not sent.
#[derive(Debug, Clone, Copy, PartialEq, Eq, Structural)]
pub enum MidError {
    /// A handshake payload announced a length other than 96 or 48.
    BadHandshakeLength(u8),
    /// The handshake message read back a non-empty payload.
    UnexpectedHandshakePayload(usize),
    /// A sealed frame opened to something other than [`FRAME_SIZE`] bytes, or
    /// a frame sealed to something other than [`PAYLOAD_SIZE`] bytes.
    UnexpectedLength(usize),
    /// The Noise session refused the message, or is closed.
    Noise,
}

/// The first `n` bytes of `buf`, copied.
fn prefix(buf: &Vec<u8>, n: usize) -> (out: Vec<u8>)
    requires
        n <= buf@.len(),
    ensures
        out@ == buf@.subrange(0, n as int),
{
    let mut out: Vec<u8> = Vec::new();
    let mut i: usize = 0;
    while i < n
        invariant
            n <= buf@.len(),
            0 <= i <= n,
            out@ == buf@.subrange(0, i as int),
        decreases n - i,
    {
        out.push(buf[i]);
        i = i + 1;
    }
    out
}

/// What an opened frame gives: the frame when the session read back exactly
/// [`FRAME_SIZE`] bytes into `buf`, an error naming the length otherwise.
pub fn open_outcome(n: usize, buf: &Vec<u8>) -> (r: Result<Vec<u8>, MidError>)
    requires
        n <= buf@.len(),
    ensures
        n == FRAME_SIZE ==> (r matches Ok(f) && f@ == buf@.subrange(0, FRAME_SIZE as int)),
        n != FRAME_SIZE ==> r == Err::<Vec<u8>, MidError>(MidError::UnexpectedLength(n)),
{
    if n == FRAME_SIZE {
        Ok(prefix(buf, FRAME_SIZE))
    } else {
        Err(MidError::UnexpectedLength(n))
    }
}

/// What reading a handshake message gives: it must carry no payload.
pub fn handshake_read_outcome(n: usize) -> (r: Result<(), MidError>)
    ensures
        n == 0 ==> r is Ok,
        n != 0 ==> r == Err::<(), MidError>(MidError::UnexpectedHandshakePayload(n)),
{
    if n == 0 {
        Ok(())
    } else {
        Err(MidError::UnexpectedHandshakePayload(n))
    }
}

/// What a sealed frame gives: the buffer when the session wrote exactly
/// [`PAYLOAD_SIZE`] bytes, an error naming the length otherwise.
pub fn sealed_outcome(n: usize, buf: Vec<u8>) -> (r: Result<Vec<u8>, MidError>)
    ensures
        n == PAYLOAD_SIZE ==> (r matches Ok(sealed) && sealed@ == buf@),
        n != PAYLOAD_SIZE ==> r == Err::<Vec<u8>, MidError>(MidError::UnexpectedLength(n)),
{
    if n == PAYLOAD_SIZE {
        Ok(buf)
    } else {
        Err(MidError::UnexpectedLength(n))
    }
}

/// The handshake message a mid packet's payload carries: the bytes after
/// the length byte, as many as it announces.
pub open spec fn spec_handshake_message(payload: Seq<u8>) -> Seq<u8> {
    payload.subrange(1, 1 + payload[0])
}

/// What a transport-mode packet gives once the session opened its payload
/// to `output`.
pub open spec fn spec_transport_result(output: Option<Seq<u8>>, r: Result<MidEvent, MidError>) -> bool {
    match output {
        None => r == Err::<MidEvent, MidError>(MidError::Noise),
        Some(o) => if o.len() == FRAME_SIZE {
            r matches Ok(MidEvent::Frame(f)) && f@ == o
        } else {
            r == Err::<MidEvent, MidError>(MidError::UnexpectedLength(o.len() as usize))
        },
    }
}

/// Takes in one mid packet.
///
/// In transport mode the session opens the payload, which must give one
/// frame of [`FRAME_SIZE`] bytes. During the handshake the payload's first
/// byte is the length of the handshake message that follows it, and must be
/// 96 or 48; the session reads that message, which must carry no payload;
/// the responder then writes its answer, with no payload; and the session
/// moves to transport mode. A closed session takes nothing.
pub fn recv_mid(session: &mut NoiseSession, mid: &[u8]) -> (r: Result<MidEvent, MidError>)
    requires
        mid@.len() >= MID_PACKET_SIZE,
    ensures
        spec_same_side(old(session)@, final(session)@),
        old(session)@.phase == Phase::Closed ==> r == Err::<MidEvent, MidError>(MidError::Noise)
            && final(session)@ == old(session)@,
        old(session)@.phase == Phase::Transport ==> {
            let calls = final(session)@.calls;
            &&& final(session)@.phase == Phase::Transport
            &&& calls.len() == old(session)@.calls.len() + 1
            &&& calls.drop_last() == old(session)@.calls
            &&& calls.last().0 == NoiseOp::Read
            &&& calls.last().1 == spec_payload(mid@)
            &&& spec_transport_result(calls.last().2, r)
        },
        r matches Err(MidError::BadHandshakeLength(b)) ==> old(session)@.phase == Phase::Handshake
            && b == spec_payload(mid@)[0],
        old(session)@.phase == Phase::Handshake ==> spec_handshake_recv(
            old(session)@,
            final(session)@,
            spec_payload(mid@),
            r,
        ),
{
    let payload = get_payload(mid);
    let mut buf: Vec<u8> = vec![0u8; NOISE_BUFFER_SIZE];
    match session.phase() {
        Phase::Closed => Err(MidError::Noise),
        Phase::Transport => {
            let n = match session.read(payload, &mut buf) {
                Some(n) => n,
                None => {
                    return Err(MidError::Noise);
                },
            };
            match open_outcome(n, &buf) {
                Ok(frame) => Ok(MidEvent::Frame(frame)),
                Err(e) => Err(e),
            }
        },
        Phase::Handshake => {
            let announced = payload[0];
            if !(announced == 96 || announced == 48) {
                return Err(MidError::BadHandshakeLength(announced));
            }
            let frame_end: usize = 1 + announced as usize;
            let message = &payload[1..frame_end];
            let ghost before = session@;
            assert(message@ == spec_handshake_message(spec_payload(mid@)));
            let n = match session.read(message, &mut buf) {
                Some(n) => n,
                None => {
                    assert(session@.calls.subrange(0, before.calls.len() as int) =~= before.calls);
                    return Err(MidError::Noise);
                },
            };
            let ghost after_read = session@;
            assert(after_read.calls.subrange(0, before.calls.len() as int) =~= before.calls);
            assert(after_read.calls[before.calls.len() as int] == (
                NoiseOp::Read,
                message@,
                Some(buf@.subrange(0, n as int)),
            ));
            match handshake_read_outcome(n) {
                Ok(()) => {},
                Err(e) => {
                    return Err(e);
                },
            }
            let mut reply: Option<Vec<u8>> = None;
            if !session.is_initiator() {
                let empty: Vec<u8> = Vec::new();
                let m = match session.write(empty.as_slice(), &mut buf) {
                    Some(m) => m,
                    None => {
                        assert(session@.calls.subrange(0, before.calls.len() as int) =~= before.calls);
                        assert(empty@ =~= Seq::<u8>::empty());
                        return Err(MidError::Noise);
                    },
                };
                assert(session@.calls.subrange(0, before.calls.len() as int) =~= before.calls);
                assert(empty@ =~= Seq::<u8>::empty());
                reply = Some(prefix(&buf, m));
            }
            if session.into_transport() {
                assert(session@.calls.subrange(0, before.calls.len() as int) =~= before.calls);
                Ok(MidEvent::HandshakeDone { reply })
            } else {
                assert(session@.calls.subrange(0, before.calls.len() as int) =~= before.calls);
                Err(MidError::Noise)
            }
        },
    }
}

/// Whether the move out of the handshake went as snow decides it: for
/// [`NOISE_PATTERN`], to transport mode exactly when the handshake's
/// messages have all been read or written.
pub open spec fn spec_finishes(before: NoiseSessionView, after: NoiseSessionView) -> bool {
    before.pattern == NOISE_PATTERN@ ==> (after.phase == Phase::Transport <==> spec_completed(
        after.calls,
    ) == HANDSHAKE_MESSAGES)
}

/// What a handshake-phase packet gives, from the session before it
/// (`before`) to the session after it (`after`): the checks on the announced
/// length, the read of the handshake message, the responder's answer with no
/// payload, and the move to transport mode.
pub open spec fn spec_handshake_recv(
    before: NoiseSessionView,
    after: NoiseSessionView,
    payload: Seq<u8>,
    r: Result<MidEvent, MidError>,
) -> bool {
    let len = payload[0];
    if !spec_handshake_length_ok(len) {
        r == Err::<MidEvent, MidError>(MidError::BadHandshakeLength(len)) && after == before
    } else {
        &&& after.calls.len() >= before.calls.len() + 1
        &&& after.calls.subrange(0, before.calls.len() as int) == before.calls
        &&& after.calls[before.calls.len() as int].0 == NoiseOp::Read
        &&& after.calls[before.calls.len() as int].1 == spec_handshake_message(payload)
        &&& match after.calls[before.calls.len() as int].2 {
            None => r == Err::<MidEvent, MidError>(MidError::Noise) && after.calls.len()
                == before.calls.len() + 1 && after.phase == Phase::Handshake,
            Some(o) => if o.len() != 0 {
                r == Err::<MidEvent, MidError>(MidError::UnexpectedHandshakePayload(o.len() as usize))
                    && after.calls.len() == before.calls.len() + 1 && after.phase == Phase::Handshake
            } else if before.initiator {
                &&& after.calls.len() == before.calls.len() + 1
                &&& spec_finishes(before, after)
                &&& if after.phase == Phase::Transport {
                    r matches Ok(MidEvent::HandshakeDone { reply: None })
                } else {
                    after.phase == Phase::Closed && r == Err::<MidEvent, MidError>(MidError::Noise)
                }
            } else {
                let write = after.calls[before.calls.len() + 1int];
                &&& after.calls.len() == before.calls.len() + 2
                &&& write.0 == NoiseOp::Write
                &&& write.1 == Seq::<u8>::empty()
                &&& match write.2 {
                    None => r == Err::<MidEvent, MidError>(MidError::Noise) && after.phase
                        == Phase::Handshake,
                    Some(answer) => spec_finishes(before, after) && if after.phase
                        == Phase::Transport {
                        r matches Ok(MidEvent::HandshakeDone { reply: Some(v) }) && v@ == answer
                    } else {
                        after.phase == Phase::Closed && r == Err::<MidEvent, MidError>(
                            MidError::Noise,
                        )
                    },
                }
            },
        }
    }
}

/// Seals one frame with the session: the result is the payload of one mid
/// packet, [`PAYLOAD_SIZE`] bytes long, and is exactly what the session wrote
/// for `frame`.
pub fn seal_frame(session: &mut NoiseSession, frame: &[u8]) -> (r: Result<Vec<u8>, MidError>)
    ensures
        final(session)@.phase == old(session)@.phase,
        spec_same_side(old(session)@, final(session)@),
        old(session)@.phase == Phase::Closed ==> r == Err::<Vec<u8>, MidError>(MidError::Noise)
            && final(session)@ == old(session)@,
        old(session)@.phase != Phase::Closed ==> {
            let calls = final(session)@.calls;
            &&& calls.len() == old(session)@.calls.len() + 1
            &&& calls.drop_last() == old(session)@.calls
            &&& calls.last().0 == NoiseOp::Write
            &&& calls.last().1 == frame@
            &&& match calls.last().2 {
                None => r == Err::<Vec<u8>, MidError>(MidError::Noise),
                Some(o) => if o.len() == PAYLOAD_SIZE {
                    r matches Ok(sealed) && sealed@ == o
                } else {
                    r == Err::<Vec<u8>, MidError>(MidError::UnexpectedLength(o.len() as usize))
                },
            }
        },
        r matches Ok(sealed) ==> sealed@.len() == PAYLOAD_SIZE,
        old(session)@.phase == Phase::Transport ==> {
            &&& frame@.len() + TAG_SIZE > PAYLOAD_SIZE ==> r == Err::<Vec<u8>, MidError>(
                MidError::Noise,
            )
            &&& r is Ok ==> frame@.len() == FRAME_SIZE
            &&& r matches Err(MidError::UnexpectedLength(n)) ==> n == frame@.len() + TAG_SIZE
            &&& frame@.len() == FRAME_SIZE ==> (r matches Err(e) ==> e == MidError::Noise)
        },
{
    if session.phase() == Phase::Closed {
        return Err(MidError::Noise);
    }
    let mut buf: Vec<u8> = vec![0u8; PAYLOAD_SIZE];
    let n = match session.write(frame, &mut buf) {
        Some(n) => n,
        None => {
            return Err(MidError::Noise);
        },
    };
    proof {
        assert(buf@.subrange(0, PAYLOAD_SIZE as int) =~= buf@);
    }
    sealed_outcome(n, buf)
}

/// The mid payload that carries a frame in the clear during the handshake:
/// the frame followed by a tag of [`TAG_SIZE`] zero bytes.
pub fn fake_tag_payload(frame: &[u8]) -> (payload: Vec<u8>)
    requires
        frame@.len() == FRAME_SIZE,
    ensures
        payload@ == frame@ + spec_zeros(TAG_SIZE as int),
        payload@.len() == PAYLOAD_SIZE,
{
    let mut payload: Vec<u8> = Vec::new();
    let mut i: usize = 0;
    while i < FRAME_SIZE
        invariant
            frame@.len() == FRAME_SIZE,
            0 <= i <= FRAME_SIZE,
            payload@ == frame@.subrange(0, i as int),
        decreases FRAME_SIZE - i,
    {
        payload.push(frame[i]);
        i = i + 1;
    }
    let mut k: usize = 0;
    while k < TAG_SIZE
        invariant
            0 <= k <= TAG_SIZE,
            payload@ == frame@ + spec_zeros(k as int),
        decreases TAG_SIZE - k,
    {
        payload.push(0u8);
        k = k + 1;
        assert(spec_zeros(k as int) =~= spec_zeros(k - 1).push(0u8));
    }
    payload
}

/// The first handshake message, written by the session with no payload: the
/// bytes the session wrote, at most [`NOISE_BUFFER_SIZE`] of them.
pub fn start_handshake(session: &mut NoiseSession) -> (r: Result<Vec<u8>, MidError>)
    ensures
        final(session)@.phase == old(session)@.phase,
        spec_same_side(old(session)@, final(session)@),
        old(session)@.phase == Phase::Closed ==> r == Err::<Vec<u8>, MidError>(MidError::Noise)
            && final(session)@ == old(session)@,
        old(session)@.phase != Phase::Closed ==> {
            let calls = final(session)@.calls;
            &&& calls.len() == old(session)@.calls.len() + 1
            &&& calls.drop_last() == old(session)@.calls
            &&& calls.last().0 == NoiseOp::Write
            &&& calls.last().1 == Seq::<u8>::empty()
            &&& match calls.last().2 {
                None => r == Err::<Vec<u8>, MidError>(MidError::Noise),
                Some(o) => r matches Ok(message) && message@ == o,
            }
        },
        r matches Ok(message) ==> message@.len() <= NOISE_BUFFER_SIZE,
{
    if session.phase() == Phase::Closed {
        return Err(MidError::Noise);
    }
    let mut buf: Vec<u8> = vec![0u8; NOISE_BUFFER_SIZE];
    let empty: Vec<u8> = Vec::new();
    match session.write(empty.as_slice(), &mut buf) {
        Some(n) => Ok(prefix(&buf, n)),
        None => Err(MidError::Noise),
    }
}

} // verus!
