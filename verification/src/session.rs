//! Noise sessions backed by snow, with the record of every call handed to
//! them.

pub use crate::noise_calls::{
    spec_completed, NoiseCall, NoiseOp, Phase, HANDSHAKE_MESSAGES, MAX_PRIVATE_KEY_SIZE,
    MAX_PUBLIC_KEY_SIZE, MIN_HANDSHAKE_ROOM, NOISE_PATTERN, TAG_SIZE,
};
use crate::noise_calls::{
    build_initiator, build_responder, finish_handshake, read_state, state_initiator, state_phase,
    state_side, write_state, NoiseState,
};
use vstd::prelude::*;

verus! {

/// A Noise session: the side it plays, where it is, and the record of the
/// calls handed to snow for it.
pub struct NoiseSession {
    state: NoiseState,
}

/// A Noise session as plain values: where it is, the side it plays, the
/// protocol and keys it was built with, and the calls handed to snow for it.
pub struct NoiseSessionView {
    pub phase: Phase,
    pub initiator: bool,
    pub pattern: Seq<char>,
    pub local_private_key: Seq<u8>,
    pub remote_public_key: Seq<u8>,
    pub calls: Seq<NoiseCall>,
}

/// Whether two views of a session are of the same side, built with the same
/// keys.
pub open spec fn spec_same_side(a: NoiseSessionView, b: NoiseSessionView) -> bool {
    &&& a.initiator == b.initiator
    &&& a.pattern == b.pattern
    &&& a.local_private_key == b.local_private_key
    &&& a.remote_public_key == b.remote_public_key
}

impl View for NoiseSession {
    type V = NoiseSessionView;

    closed spec fn view(&self) -> NoiseSessionView {
        NoiseSessionView {
            phase: state_phase(self.state),
            initiator: state_side(self.state).initiator,
            pattern: state_side(self.state).keys.pattern,
            local_private_key: state_side(self.state).keys.local_private_key,
            remote_public_key: state_side(self.state).keys.remote_public_key,
            calls: state_side(self.state).calls,
        }
    }
}

impl NoiseSession {
    /// The initiator's side of a new session for [`NOISE_PATTERN`], pinned to
    /// the given keys, with no call made yet. Keys longer than snow takes are
    /// left out; shorter ones are padded with zeros.
    pub fn new_initiator(local_private_key: &[u8], remote_public_key: &[u8]) -> (session: Option<
        Self,
    >)
        requires
            local_private_key@.len() <= MAX_PRIVATE_KEY_SIZE,
            remote_public_key@.len() <= MAX_PUBLIC_KEY_SIZE,
        ensures
            session matches Some(s) && s@ == (NoiseSessionView {
                phase: Phase::Handshake,
                initiator: true,
                pattern: NOISE_PATTERN@,
                local_private_key: local_private_key@,
                remote_public_key: remote_public_key@,
                calls: Seq::empty(),
            }),
    {
        match build_initiator(NOISE_PATTERN, local_private_key, remote_public_key) {
            Some(h) => Some(NoiseSession { state: NoiseState::Handshake(h) }),
            None => None,
        }
    }

    /// The responder's side of a new session for [`NOISE_PATTERN`], pinned to
    /// the given keys, with no call made yet.
    pub fn new_responder(local_private_key: &[u8], remote_public_key: &[u8]) -> (session: Option<
        Self,
    >)
        requires
            local_private_key@.len() <= MAX_PRIVATE_KEY_SIZE,
            remote_public_key@.len() <= MAX_PUBLIC_KEY_SIZE,
        ensures
            session matches Some(s) && s@ == (NoiseSessionView {
                phase: Phase::Handshake,
                initiator: false,
                pattern: NOISE_PATTERN@,
                local_private_key: local_private_key@,
                remote_public_key: remote_public_key@,
                calls: Seq::empty(),
            }),
    {
        match build_responder(NOISE_PATTERN, local_private_key, remote_public_key) {
            Some(h) => Some(NoiseSession { state: NoiseState::Handshake(h) }),
            None => None,
        }
    }

    /// Where the session is.
    pub fn phase(&self) -> (phase: Phase)
        ensures
            phase == self@.phase,
    {
        match &self.state {
            NoiseState::Handshake(_) => Phase::Handshake,
            NoiseState::Transport(_) => Phase::Transport,
            NoiseState::Closed(_) => Phase::Closed,
        }
    }

    /// Whether this side started the handshake.
    pub fn is_initiator(&self) -> (initiator: bool)
        ensures
            initiator == self@.initiator,
    {
        state_initiator(&self.state)
    }

    /// Reads `message` with snow into `buf`: the number of bytes read back,
    /// or `None` when snow refused. The call is added to the record.
    pub(crate) fn read(&mut self, message: &[u8], buf: &mut Vec<u8>) -> (r: Option<usize>)
        requires
            old(self)@.phase != Phase::Closed,
        ensures
            final(buf)@.len() == old(buf)@.len(),
            final(self)@.phase == old(self)@.phase,
            spec_same_side(old(self)@, final(self)@),
            match r {
                Some(n) => n <= message@.len() && final(self)@.calls == old(self)@.calls.push(
                    (NoiseOp::Read, message@, Some(final(buf)@.subrange(0, n as int))),
                ),
                None => final(self)@.calls == old(self)@.calls.push((NoiseOp::Read, message@, None)),
            },
    {
        read_state(&mut self.state, message, buf)
    }

    /// Writes `payload` with snow into `buf`: the number of bytes written, or
    /// `None` when snow refused. The call is added to the record.
    pub(crate) fn write(&mut self, payload: &[u8], buf: &mut Vec<u8>) -> (r: Option<usize>)
        requires
            old(self)@.phase != Phase::Closed,
            old(buf)@.len() >= MIN_HANDSHAKE_ROOM,
        ensures
            final(buf)@.len() == old(buf)@.len(),
            final(self)@.phase == old(self)@.phase,
            spec_same_side(old(self)@, final(self)@),
            match r {
                Some(n) => n <= old(buf)@.len() && final(self)@.calls == old(self)@.calls.push(
                    (NoiseOp::Write, payload@, Some(final(buf)@.subrange(0, n as int))),
                ),
                None => final(self)@.calls == old(self)@.calls.push(
                    (NoiseOp::Write, payload@, None),
                ),
            },
            old(self)@.phase == Phase::Transport ==> {
                &&& r matches Some(n) ==> n == payload@.len() + TAG_SIZE
                &&& payload@.len() + TAG_SIZE > old(buf)@.len() ==> r is None
            },
    {
        write_state(&mut self.state, payload, buf)
    }

    /// Moves a session out of its handshake: to transport mode when snow
    /// turns the handshake into a transport session, closed otherwise.
    pub(crate) fn into_transport(&mut self) -> (done: bool)
        requires
            old(self)@.phase == Phase::Handshake,
        ensures
            spec_same_side(old(self)@, final(self)@),
            final(self)@.calls == old(self)@.calls,
            done ==> final(self)@.phase == Phase::Transport,
            !done ==> final(self)@.phase == Phase::Closed,
            old(self)@.pattern == NOISE_PATTERN@ ==> (done <==> spec_completed(old(self)@.calls)
                == HANDSHAKE_MESSAGES),
    {
        finish_handshake(&mut self.state)
    }
}

} // verus!
