//! The calls into snow, and the record of them.
//!
//! Each piece of a Noise session (in its handshake, carrying traffic, or
//! closed) carries what it was built with (the protocol name and the keys
//! handed to snow) and the record of the calls made on it. Only the
//! wrappers of snow's calls set or add to these; the code of this module
//! moves them from one piece to the next unchanged, and code outside this
//! module can only read them.

use snow::{HandshakeState, TransportState};
use vstd::prelude::*;

verus! {

/// The Noise protocol name used for every Oxy session.
pub const NOISE_PATTERN: &'static str = "Noise_IK_25519_AESGCM_SHA512";

/// Length of the authentication tag that Noise appends to a sealed message.
pub const TAG_SIZE: usize = 16;

/// Room that a handshake message is always written into: enough for an
/// ephemeral key and an encrypted static key of the largest Diffie-Hellman
/// function snow offers (56 bytes each, and a tag).
pub const MIN_HANDSHAKE_ROOM: usize = 128;

/// The longest local private key that snow's builder copies: the 32 bytes
/// of a Curve25519 key, the only Diffie-Hellman function of its default
/// resolver.
pub const MAX_PRIVATE_KEY_SIZE: usize = 32;

/// The longest remote public key that snow's builder copies: its buffer for
/// the largest Diffie-Hellman key it knows, 56 bytes.
pub const MAX_PUBLIC_KEY_SIZE: usize = 56;

#[verifier::external_type_specification]
#[verifier::external_body]
pub struct ExHandshakeState(HandshakeState);

#[verifier::external_type_specification]
#[verifier::external_body]
pub struct ExTransportState(TransportState);

#[verifier::external_type_specification]
#[verifier::external_body]
pub struct ExNoiseError(snow::Error);

/// Where a Noise session is, as a plain value.
#[derive(Debug, Clone, Copy, PartialEq, Eq, Structural)]
pub enum Phase {
    Handshake,
    Transport,
    Closed,
}

/// Whether a Noise call read a message or wrote one.
#[derive(Debug, Clone, Copy, PartialEq, Eq, Structural)]
pub enum NoiseOp {
    Read,
    Write,
}

/// One call handed to snow: read or write, the bytes handed to it, and the
/// bytes it produced, or `None` when it refused.
pub type NoiseCall = (NoiseOp, Seq<u8>, Option<Seq<u8>>);

/// The bytes a call produced, as it is recorded: the first `n` bytes of
/// `buf` when it succeeded.
pub open spec fn spec_call_output(r: Result<usize, snow::Error>, buf: Seq<u8>) -> Option<Seq<u8>> {
    match r {
        Ok(n) => Some(buf.subrange(0, n as int)),
        Err(_) => None,
    }
}

/// What a session was built with: the protocol name and the keys handed to
/// snow.
pub struct SessionKeys {
    pub pattern: Seq<char>,
    pub local_private_key: Seq<u8>,
    pub remote_public_key: Seq<u8>,
}

/// The side a piece of a session plays, what it was built with, and the
/// calls made on it.
pub struct Side {
    pub initiator: bool,
    pub keys: SessionKeys,
    pub calls: Seq<NoiseCall>,
}

/// How many of `calls` snow carried out, that is, produced bytes for.
pub open spec fn spec_completed(calls: Seq<NoiseCall>) -> nat
    decreases calls.len(),
{
    if calls.len() == 0 {
        0
    } else {
        spec_completed(calls.drop_last()) + if calls.last().2 is Some {
            1nat
        } else {
            0nat
        }
    }
}

/// The number of handshake messages of [`NOISE_PATTERN`], whose pattern IK
/// has one message from the initiator and one answer.
pub const HANDSHAKE_MESSAGES: usize = 2;

/// A session in its handshake.
pub struct Handshake {
    hs: HandshakeState,
    initiator: bool,
    keys: Ghost<SessionKeys>,
    calls: Ghost<Seq<NoiseCall>>,
}

/// A session carrying traffic.
pub struct Transport {
    ts: TransportState,
    initiator: bool,
    keys: Ghost<SessionKeys>,
    calls: Ghost<Seq<NoiseCall>>,
}

/// A session whose handshake could not be turned into a transport session.
pub struct Closed {
    initiator: bool,
    keys: Ghost<SessionKeys>,
    calls: Ghost<Seq<NoiseCall>>,
}

impl View for Handshake {
    type V = Side;

    closed spec fn view(&self) -> Side {
        Side { initiator: self.initiator, keys: self.keys@, calls: self.calls@ }
    }
}

impl View for Transport {
    type V = Side;

    closed spec fn view(&self) -> Side {
        Side { initiator: self.initiator, keys: self.keys@, calls: self.calls@ }
    }
}

impl View for Closed {
    type V = Side;

    closed spec fn view(&self) -> Side {
        Side { initiator: self.initiator, keys: self.keys@, calls: self.calls@ }
    }
}

/// `snow::Builder` for the protocol `name` (parsed into
/// `snow::params::NoiseParams`) with the given local private key and remote
/// public key, building the initiator's handshake, with no call made on it
/// yet; `None` when the name does not parse or snow refuses to build. snow
/// copies the private key into a buffer of [`MAX_PRIVATE_KEY_SIZE`] bytes and
/// the public key into one of [`MAX_PUBLIC_KEY_SIZE`] bytes, and panics on a
/// longer key. For [`NOISE_PATTERN`] the build does not fail: its default
/// resolver has every primitive of it, and a shorter key is padded with
/// zeros.
#[verifier::external_body]
pub(crate) fn build_initiator(name: &str, local_private_key: &[u8], remote_public_key: &[u8]) -> (r: Option<
    Handshake,
>)
    requires
        local_private_key@.len() <= MAX_PRIVATE_KEY_SIZE,
        remote_public_key@.len() <= MAX_PUBLIC_KEY_SIZE,
    ensures
        r matches Some(h) ==> h@ == (Side {
            initiator: true,
            keys: SessionKeys {
                pattern: name@,
                local_private_key: local_private_key@,
                remote_public_key: remote_public_key@,
            },
            calls: Seq::empty(),
        }),
        name@ == NOISE_PATTERN@ ==> r is Some,
{
    let params: ::snow::params::NoiseParams = name.parse().ok()?;
    let ghost keys = SessionKeys {
        pattern: name@,
        local_private_key: local_private_key@,
        remote_public_key: remote_public_key@,
    };
    match ::snow::Builder::new(params).local_private_key(local_private_key).remote_public_key(
        remote_public_key,
    ).build_initiator() {
        Ok(hs) => Some(Handshake { hs, initiator: true, keys: Ghost(keys), calls: Ghost(Seq::empty()) }),
        Err(_) => None,
    }
}

/// As [`build_initiator`], with `snow::Builder::build_responder`: the
/// responder's handshake.
#[verifier::external_body]
pub(crate) fn build_responder(name: &str, local_private_key: &[u8], remote_public_key: &[u8]) -> (r: Option<
    Handshake,
>)
    requires
        local_private_key@.len() <= MAX_PRIVATE_KEY_SIZE,
        remote_public_key@.len() <= MAX_PUBLIC_KEY_SIZE,
    ensures
        r matches Some(h) ==> h@ == (Side {
            initiator: false,
            keys: SessionKeys {
                pattern: name@,
                local_private_key: local_private_key@,
                remote_public_key: remote_public_key@,
            },
            calls: Seq::empty(),
        }),
        name@ == NOISE_PATTERN@ ==> r is Some,
{
    let params: ::snow::params::NoiseParams = name.parse().ok()?;
    let ghost keys = SessionKeys {
        pattern: name@,
        local_private_key: local_private_key@,
        remote_public_key: remote_public_key@,
    };
    match ::snow::Builder::new(params).local_private_key(local_private_key).remote_public_key(
        remote_public_key,
    ).build_responder() {
        Ok(hs) => Some(Handshake { hs, initiator: false, keys: Ghost(keys), calls: Ghost(Seq::empty()) }),
        Err(_) => None,
    }
}

/// `snow::HandshakeState::read_message`: reads the handshake message
/// `message` into `payload` and returns the number of payload bytes, which
/// never exceeds the length of the message. The call is added to the
/// record, with the bytes it read back.
#[verifier::external_body]
fn handshake_read_message(h: &mut Handshake, message: &[u8], payload: &mut [u8]) -> (r: Result<
    usize,
    snow::Error,
>)
    ensures
        final(payload)@.len() == old(payload)@.len(),
        r matches Ok(n) ==> n <= message@.len(),
        final(h)@ == (Side {
            calls: old(h)@.calls.push(
                (NoiseOp::Read, message@, spec_call_output(r, final(payload)@)),
            ),
            ..old(h)@
        }),
{
    h.hs.read_message(message, payload)
}

/// `snow::HandshakeState::write_message`: writes the next handshake message,
/// carrying `payload`, into `message` and returns its length, which never
/// exceeds the room given. When the room left after an ephemeral key is
/// enough for a static key but not for its tag, snow panics instead of
/// failing; [`MIN_HANDSHAKE_ROOM`] bytes of room rule that out. The call is
/// added to the record, with the bytes it wrote.
#[verifier::external_body]
fn handshake_write_message(h: &mut Handshake, payload: &[u8], message: &mut [u8]) -> (r: Result<
    usize,
    snow::Error,
>)
    requires
        old(message)@.len() >= MIN_HANDSHAKE_ROOM,
    ensures
        final(message)@.len() == old(message)@.len(),
        r matches Ok(n) ==> n <= old(message)@.len(),
        final(h)@ == (Side {
            calls: old(h)@.calls.push(
                (NoiseOp::Write, payload@, spec_call_output(r, final(message)@)),
            ),
            ..old(h)@
        }),
{
    h.hs.write_message(payload, message)
}

/// `snow::HandshakeState::into_transport_mode`: turns a finished handshake
/// into a transport session; when the handshake is not finished it fails
/// and the session is closed. Either way the side, the keys and the record
/// carry over. snow counts a handshake message when a read or a write of it
/// succeeds, and a read or write after the last message fails; so for
/// [`NOISE_PATTERN`] the handshake is finished exactly when
/// [`HANDSHAKE_MESSAGES`] of the calls recorded succeeded.
#[verifier::external_body]
fn handshake_into_transport(h: Handshake) -> (r: Result<Transport, Closed>)
    ensures
        match r {
            Ok(t) => t@ == h@,
            Err(c) => c@ == h@,
        },
        h@.keys.pattern == NOISE_PATTERN@ ==> (r is Ok <==> spec_completed(h@.calls)
            == HANDSHAKE_MESSAGES),
{
    match h.hs.into_transport_mode() {
        Ok(ts) => Ok(Transport { ts, initiator: h.initiator, keys: h.keys, calls: h.calls }),
        Err(_) => Err(Closed { initiator: h.initiator, keys: h.keys, calls: h.calls }),
    }
}

/// `snow::TransportState::read_message`: opens the sealed message `message`
/// into `payload` and returns the number of plaintext bytes, which never
/// exceeds the length of the sealed message. The call is added to the
/// record, with the bytes it opened.
#[verifier::external_body]
fn transport_read_message(t: &mut Transport, message: &[u8], payload: &mut [u8]) -> (r: Result<
    usize,
    snow::Error,
>)
    ensures
        final(payload)@.len() == old(payload)@.len(),
        r matches Ok(n) ==> n <= message@.len(),
        final(t)@ == (Side {
            calls: old(t)@.calls.push(
                (NoiseOp::Read, message@, spec_call_output(r, final(payload)@)),
            ),
            ..old(t)@
        }),
{
    t.ts.read_message(message, payload)
}

/// `snow::TransportState::write_message`: seals `payload` into `message` and
/// returns the sealed length: the payload and a tag of [`TAG_SIZE`] bytes. It
/// fails when that does not fit the room given. The call is added to the
/// record, with the bytes it sealed.
#[verifier::external_body]
fn transport_write_message(t: &mut Transport, payload: &[u8], message: &mut [u8]) -> (r: Result<
    usize,
    snow::Error,
>)
    ensures
        final(message)@.len() == old(message)@.len(),
        r matches Ok(n) ==> n == payload@.len() + TAG_SIZE && n <= old(message)@.len(),
        payload@.len() + TAG_SIZE > old(message)@.len() ==> r is Err,
        final(t)@ == (Side {
            calls: old(t)@.calls.push(
                (NoiseOp::Write, payload@, spec_call_output(r, final(message)@)),
            ),
            ..old(t)@
        }),
{
    t.ts.write_message(payload, message)
}

/// Where a Noise session is, with its piece.
pub enum NoiseState {
    Handshake(Handshake),
    Transport(Transport),
    Closed(Closed),
}

/// The piece a session is in, as its side.
pub open spec fn state_side(state: NoiseState) -> Side {
    match state {
        NoiseState::Handshake(h) => h@,
        NoiseState::Transport(t) => t@,
        NoiseState::Closed(c) => c@,
    }
}

/// Where a session in `state` is.
pub open spec fn state_phase(state: NoiseState) -> Phase {
    match state {
        NoiseState::Handshake(_) => Phase::Handshake,
        NoiseState::Transport(_) => Phase::Transport,
        NoiseState::Closed(_) => Phase::Closed,
    }
}

/// Whether a call left a session's piece where it was, with the same side
/// and keys, and the record `calls`.
pub open spec fn state_kept(before: NoiseState, after: NoiseState, calls: Seq<NoiseCall>) -> bool {
    &&& state_phase(after) == state_phase(before)
    &&& state_side(after) == (Side { calls, ..state_side(before) })
}

/// Reads `message` with snow, in the piece the session is in.
pub(crate) fn read_state(state: &mut NoiseState, message: &[u8], buf: &mut Vec<u8>) -> (r: Option<usize>)
    requires
        state_phase(*old(state)) != Phase::Closed,
    ensures
        final(buf)@.len() == old(buf)@.len(),
        match r {
            Some(n) => n <= message@.len() && state_kept(
                *old(state),
                *final(state),
                state_side(*old(state)).calls.push(
                    (NoiseOp::Read, message@, Some(final(buf)@.subrange(0, n as int))),
                ),
            ),
            None => state_kept(
                *old(state),
                *final(state),
                state_side(*old(state)).calls.push((NoiseOp::Read, message@, None)),
            ),
        },
{
    let r = match state {
        NoiseState::Handshake(h) => handshake_read_message(h, message, buf.as_mut_slice()),
        NoiseState::Transport(t) => transport_read_message(t, message, buf.as_mut_slice()),
        NoiseState::Closed(_) => {
            return None;
        },
    };
    match r {
        Ok(n) => Some(n),
        Err(_) => None,
    }
}

/// Writes `payload` with snow, in the piece the session is in.
pub(crate) fn write_state(state: &mut NoiseState, payload: &[u8], buf: &mut Vec<u8>) -> (r: Option<usize>)
    requires
        state_phase(*old(state)) != Phase::Closed,
        old(buf)@.len() >= MIN_HANDSHAKE_ROOM,
    ensures
        final(buf)@.len() == old(buf)@.len(),
        match r {
            Some(n) => n <= old(buf)@.len() && state_kept(
                *old(state),
                *final(state),
                state_side(*old(state)).calls.push(
                    (NoiseOp::Write, payload@, Some(final(buf)@.subrange(0, n as int))),
                ),
            ),
            None => state_kept(
                *old(state),
                *final(state),
                state_side(*old(state)).calls.push((NoiseOp::Write, payload@, None)),
            ),
        },
        state_phase(*old(state)) == Phase::Transport ==> {
            &&& r matches Some(n) ==> n == payload@.len() + TAG_SIZE
            &&& payload@.len() + TAG_SIZE > old(buf)@.len() ==> r is None
        },
{
    let r = match state {
        NoiseState::Handshake(h) => handshake_write_message(h, payload, buf.as_mut_slice()),
        NoiseState::Transport(t) => transport_write_message(t, payload, buf.as_mut_slice()),
        NoiseState::Closed(_) => {
            return None;
        },
    };
    match r {
        Ok(n) => Some(n),
        Err(_) => None,
    }
}

/// Whether the session in `state` is the initiator's side.
pub(crate) fn state_initiator(state: &NoiseState) -> (initiator: bool)
    ensures
        initiator == state_side(*state).initiator,
{
    match state {
        NoiseState::Handshake(h) => h.initiator,
        NoiseState::Transport(t) => t.initiator,
        NoiseState::Closed(c) => c.initiator,
    }
}

/// Moves a session out of its handshake: to transport mode when snow turns
/// the handshake into a transport session, closed otherwise. The side, the
/// keys and the record carry over.
pub(crate) fn finish_handshake(state: &mut NoiseState) -> (done: bool)
    requires
        state_phase(*old(state)) == Phase::Handshake,
    ensures
        state_side(*final(state)) == state_side(*old(state)),
        done ==> state_phase(*final(state)) == Phase::Transport,
        !done ==> state_phase(*final(state)) == Phase::Closed,
        state_side(*old(state)).keys.pattern == NOISE_PATTERN@ ==> (done <==> spec_completed(
            state_side(*old(state)).calls,
        ) == HANDSHAKE_MESSAGES),
{
    let ghost before = state_side(*state);
    let mut taken = NoiseState::Closed(
        Closed {
            initiator: state_initiator(state),
            keys: Ghost(before.keys),
            calls: Ghost(before.calls),
        },
    );
    std::mem::swap(&mut taken, state);
    match taken {
        NoiseState::Handshake(h) => match handshake_into_transport(h) {
            Ok(t) => {
                *state = NoiseState::Transport(t);
                true
            },
            Err(c) => {
                *state = NoiseState::Closed(c);
                false
            },
        },
        other => {
            *state = other;
            false
        },
    }
}

} // verus!
