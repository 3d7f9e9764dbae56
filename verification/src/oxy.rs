//! The bookkeeping of an Oxy instance: the numbering of outgoing mid
//! packets, and on a server the table of conversations that incoming mid
//! packets are routed to.

use crate::config::Mode;
use crate::mid::{
    build_mid_packet, get_conversation_id, spec_acknowledgement_number, spec_buffer_size,
    spec_conversation_id, spec_payload, spec_sequence_number, MID_PACKET_SIZE, PAYLOAD_SIZE,
};
use crate::inner::{
    frame, lemma_frames_reassemble, spec_feed, spec_frame_count, spec_frames, spec_zeros, FRAME_SIZE,
};
use crate::noise::{
    fake_tag_payload, seal_frame, spec_same_side, MidError, NoiseCall, NoiseOp, NoiseSession,
    NoiseSessionView, Phase,
    TAG_SIZE,
};
use std::collections::BTreeMap;
use vstd::prelude::*;

verus! {

broadcast use vstd::std_specs::btree::group_btree_axioms;

/// Numbers outgoing mid packets: the first packet gets sequence number 0,
/// each next one the number after.
pub struct MidSender {
    next_sequence_number: u32,
}

impl View for MidSender {
    type V = u32;

    /// The sequence number of the next packet.
    closed spec fn view(&self) -> u32 {
        self.next_sequence_number
    }
}

impl MidSender {
    /// A sender whose next packet is number 0.
    pub fn new() -> (sender: Self)
        ensures
            sender@ == 0,
    {
        MidSender { next_sequence_number: 0 }
    }

    /// The sequence number the next packet will get.
    pub fn next_sequence_number(&self) -> (n: u32)
        ensures
            n == self@,
    {
        self.next_sequence_number
    }

    /// The mid packet that carries `payload`, numbered with the next sequence
    /// number, which is then used up. The number after `u32::MAX` does not
    /// exist, so the counter must not have reached it.
    pub fn next_mid_packet(&mut self, payload: &[u8]) -> (packet: Vec<u8>)
        requires
            payload@.len() == PAYLOAD_SIZE,
            old(self)@ < u32::MAX,
        ensures
            final(self)@ == old(self)@ + 1,
            packet@.len() == MID_PACKET_SIZE,
            spec_conversation_id(packet@) == 0,
            spec_sequence_number(packet@) == old(self)@,
            spec_acknowledgement_number(packet@) == 0,
            spec_buffer_size(packet@) == 0,
            packet@[16] == 0,
            packet@[17] == 0,
            spec_payload(packet@) == payload@,
    {
        let mine = self.next_sequence_number;
        self.next_sequence_number = mine + 1;
        build_mid_packet(mine, payload)
    }
}

/// Whether `packet` is a mid packet with an all-zero header but for the
/// sequence number `sequence_number`.
pub open spec fn spec_numbered_packet(packet: Seq<u8>, sequence_number: int) -> bool {
    &&& packet.len() == MID_PACKET_SIZE
    &&& spec_conversation_id(packet) == 0
    &&& spec_sequence_number(packet) == sequence_number
    &&& spec_acknowledgement_number(packet) == 0
    &&& spec_buffer_size(packet) == 0
    &&& packet[16] == 0
    &&& packet[17] == 0
}

/// What sending `payload` in the clear does, from the next sequence number
/// `n0` to `n1`: one packet per frame of `payload`, numbered in order, each
/// carrying its frame followed by a tag of zero bytes.
pub open spec fn spec_clear_sent(n0: u32, n1: u32, payload: Seq<u8>, packets: Seq<Vec<u8>>) -> bool {
    &&& packets.len() == spec_frame_count(payload.len())
    &&& n1 == n0 + packets.len()
    &&& forall|i: int|
        0 <= i < packets.len() ==> spec_numbered_packet(#[trigger] packets[i]@, n0 + i)
            && spec_payload(packets[i]@) == spec_frames(payload)[i] + spec_zeros(TAG_SIZE as int)
}

/// The mid packets that carry an inner message in the clear during the
/// handshake: one per frame of `payload`, each frame followed by a tag of
/// zero bytes, numbered one after the other.
pub fn send_inner_packet_fake_tag(sender: &mut MidSender, payload: &[u8]) -> (packets: Vec<
    Vec<u8>,
>)
    requires
        old(sender)@ + spec_frame_count(payload@.len()) <= u32::MAX,
    ensures
        spec_clear_sent(old(sender)@, final(sender)@, payload@, packets@),
{
    let frames = frame(payload);
    let mut packets: Vec<Vec<u8>> = Vec::new();
    let mut i: usize = 0;
    while i < frames.len()
        invariant
            0 <= i <= frames@.len(),
            frames@.len() == spec_frame_count(payload@.len()),
            forall|j: int| 0 <= j < frames@.len() ==> #[trigger] frames@[j]@ == spec_frames(payload@)[j],
            old(sender)@ + frames@.len() <= u32::MAX,
            sender@ == old(sender)@ + i,
            packets@.len() == i,
            forall|j: int|
                0 <= j < i ==> spec_numbered_packet(#[trigger] packets@[j]@, old(sender)@ + j)
                    && spec_payload(packets@[j]@) == spec_frames(payload@)[j] + spec_zeros(
                    TAG_SIZE as int,
                ),
        decreases frames@.len() - i,
    {
        assert(frames@[i as int]@.len() == FRAME_SIZE);
        let fake = fake_tag_payload(frames[i].as_slice());
        let packet = sender.next_mid_packet(fake.as_slice());
        packets.push(packet);
        i = i + 1;
    }
    packets
}

/// The packets [`send_inner_packet_fake_tag`] makes of `payload` give
/// `payload` back at the receiver: the first [`FRAME_SIZE`] bytes of each
/// packet's payload, fed in order to a frame assembler with nothing
/// buffered, complete exactly one message, `payload`, with the last packet,
/// and leave nothing buffered. As for frames, the length of `payload` must
/// not be a multiple of 255.
pub proof fn lemma_clear_packets_reassemble(payload: Seq<u8>, packets: Seq<Seq<u8>>)
    requires
        payload.len() % 255 != 0,
        packets.len() == spec_frame_count(payload.len()),
        forall|i: int|
            0 <= i < packets.len() ==> spec_payload(#[trigger] packets[i]) == spec_frames(payload)[i]
                + spec_zeros(TAG_SIZE as int),
    ensures
        ({
            let frames = packets.map_values(|p: Seq<u8>| spec_payload(p).subrange(0, FRAME_SIZE as int));
            let k = spec_frame_count(payload.len());
            spec_feed(Seq::empty(), frames) == (
                Seq::<Seq<u8>>::empty(),
                Seq::new((k - 1) as nat, |i: int| None::<Seq<u8>>).push(Some(payload)),
            )
        }),
{
    let frames = packets.map_values(|p: Seq<u8>| spec_payload(p).subrange(0, FRAME_SIZE as int));
    assert forall|i: int| 0 <= i < packets.len() implies #[trigger] frames[i] == spec_frames(
        payload,
    )[i] by {
        let f = spec_frames(payload)[i];
        assert(spec_payload(packets[i]).subrange(0, FRAME_SIZE as int) =~= f);
    }
    assert(frames =~= spec_frames(payload));
    lemma_frames_reassemble(payload);
}

/// The calls a session was handed for sealing `payload` into `packets`: one
/// write per frame of `payload`, in order, each producing the payload of the
/// packet that carries it.
pub open spec fn spec_sealing_calls(payload: Seq<u8>, packets: Seq<Vec<u8>>) -> Seq<NoiseCall> {
    Seq::new(
        packets.len(),
        |i: int| (NoiseOp::Write, spec_frames(payload)[i], Some(spec_payload(packets[i]@))),
    )
}

/// Whether a sealing call gave the payload of one mid packet.
pub open spec fn spec_sealed_ok(call: NoiseCall) -> bool {
    call.2 matches Some(o) && o.len() == PAYLOAD_SIZE
}

/// The error that a sealing call which gave no mid payload ends in.
pub open spec fn spec_seal_error(call: NoiseCall) -> MidError {
    match call.2 {
        None => MidError::Noise,
        Some(o) => MidError::UnexpectedLength(o.len() as usize),
    }
}

/// What a failed sending of `payload` handed to the session (`added`): writes
/// of the first frames of `payload`, in order, each sealing its frame into a
/// mid payload but the last, which did not and gave the error `e`.
pub open spec fn spec_sealing_failed(payload: Seq<u8>, added: Seq<NoiseCall>, e: MidError) -> bool {
    let last = added.len() - 1;
    &&& 1 <= added.len() <= spec_frame_count(payload.len())
    &&& forall|i: int|
        0 <= i < added.len() ==> (#[trigger] added[i]).0 == NoiseOp::Write && added[i].1
            == spec_frames(payload)[i]
    &&& forall|i: int| 0 <= i < last ==> spec_sealed_ok(#[trigger] added[i])
    &&& !spec_sealed_ok(added[last])
    &&& e == spec_seal_error(added[last])
}

/// What sending `payload` as an inner message does, from the session `s0`
/// and the next sequence number `n0` to `s1` and `n1`, with the result `r`:
/// on success one sealed packet per frame, numbered in order; on failure the
/// frames sealed before the refused one; nothing at all for an empty payload
/// or a closed session.
pub open spec fn spec_inner_sent(
    s0: NoiseSessionView,
    s1: NoiseSessionView,
    n0: u32,
    n1: u32,
    payload: Seq<u8>,
    r: Result<Vec<Vec<u8>>, MidError>,
) -> bool {
    &&& n0 <= n1 <= n0 + spec_frame_count(payload.len())
    &&& s1.phase == s0.phase
    &&& spec_same_side(s0, s1)
    &&& s0.calls.len() <= s1.calls.len() <= s0.calls.len() + spec_frame_count(payload.len())
    &&& s1.calls.subrange(0, s0.calls.len() as int) == s0.calls
    &&& payload.len() == 0 ==> (r matches Ok(packets) && packets@.len() == 0) && n1 == n0 && s1
        == s0
    &&& payload.len() != 0 && s0.phase == Phase::Closed ==> r == Err::<Vec<Vec<u8>>, MidError>(
        MidError::Noise,
    )
    &&& s0.phase == Phase::Transport ==> (r matches Err(e) ==> e == MidError::Noise)
    &&& s0.phase == Phase::Closed ==> s1 == s0 && n1 == n0
    &&& s0.phase != Phase::Closed ==> (r matches Err(e) ==> {
        let added = s1.calls.subrange(s0.calls.len() as int, s1.calls.len() as int);
        &&& spec_sealing_failed(payload, added, e)
        &&& n1 == n0 + added.len() - 1
    })
    &&& r matches Ok(packets) ==> {
        &&& packets@.len() == spec_frame_count(payload.len())
        &&& n1 == n0 + packets@.len()
        &&& s1.calls == s0.calls + spec_sealing_calls(payload, packets@)
        &&& forall|i: int|
            0 <= i < packets@.len() ==> spec_numbered_packet(#[trigger] packets@[i]@, n0 + i)
    }
}

/// The mid packets that carry an inner message once the session is up: one
/// per frame of `payload`, each the sealing of that frame by the session,
/// numbered one after the other. Fails when the session refuses a frame or
/// seals it to something other than a mid payload, having used up the
/// numbers of the frames sealed before; a closed session takes nothing. An
/// empty payload takes no packet at all.
pub fn send_inner_packet(session: &mut NoiseSession, sender: &mut MidSender, payload: &[u8]) -> (r:
    Result<Vec<Vec<u8>>, MidError>)
    requires
        old(sender)@ + spec_frame_count(payload@.len()) <= u32::MAX,
    ensures
        spec_inner_sent(old(session)@, final(session)@, old(sender)@, final(sender)@, payload@, r),
{
    let frames = frame(payload);
    proof {
        let n = payload@.len();
        assert(n != 0 ==> spec_frame_count(n) >= 1) by (nonlinear_arith)
            requires
                spec_frame_count(n) == (n + 254) / 255,
        ;
    }
    let mut packets: Vec<Vec<u8>> = Vec::new();
    let mut i: usize = 0;
    while i < frames.len()
        invariant
            0 <= i <= frames@.len(),
            frames@.len() == spec_frame_count(payload@.len()),
            payload@.len() != 0 ==> frames@.len() >= 1,
            session@.phase == Phase::Closed ==> i == 0,
            forall|j: int| 0 <= j < frames@.len() ==> #[trigger] frames@[j]@ == spec_frames(payload@)[j],
            old(sender)@ + frames@.len() <= u32::MAX,
            sender@ == old(sender)@ + i,
            packets@.len() == i,
            forall|j: int|
                0 <= j < i ==> spec_numbered_packet(#[trigger] packets@[j]@, old(sender)@ + j),
            forall|j: int| 0 <= j < frames@.len() ==> (#[trigger] frames@[j])@.len() == FRAME_SIZE,
            session@.phase == old(session)@.phase,
            spec_same_side(old(session)@, session@),
            session@.calls == old(session)@.calls + spec_sealing_calls(payload@, packets@),
        decreases frames@.len() - i,
    {
        let ghost calls_before = session@.calls;
        let ghost packets_before = packets@;
        let sealed = match seal_frame(session, frames[i].as_slice()) {
            Ok(sealed) => sealed,
            Err(e) => {
                proof {
                    assert(session@.calls.subrange(0, old(session)@.calls.len() as int)
                        =~= old(session)@.calls);
                    if old(session)@.phase != Phase::Closed {
                        let added = session@.calls.subrange(
                            old(session)@.calls.len() as int,
                            session@.calls.len() as int,
                        );
                        let sc = spec_sealing_calls(payload@, packets@);
                        let c = session@.calls;
                        let x = c.last();
                        assert(c.len() == calls_before.len() + 1);
                        assert(c.drop_last() == calls_before);
                        assert(c =~= calls_before.push(x));
                        assert(calls_before == old(session)@.calls + sc);
                        assert(calls_before.push(x) =~= old(session)@.calls + sc.push(x));
                        assert(added =~= sc.push(session@.calls.last()));
                        assert forall|k: int| 0 <= k < i implies spec_sealed_ok(
                            #[trigger] added[k],
                        ) by {
                            assert(spec_numbered_packet(packets@[k]@, old(sender)@ + k));
                            assert(added[k] == spec_sealing_calls(payload@, packets@)[k]);
                        }
                        assert(spec_sealing_failed(payload@, added, e));
                    }
                }
                return Err(e);
            },
        };
        proof {
            assert(session@.calls =~= calls_before.push(session@.calls.last()));
            assert(session@.calls.last() == (NoiseOp::Write, frames@[i as int]@, Some(sealed@)));
        }
        let packet = sender.next_mid_packet(sealed.as_slice());
        packets.push(packet);
        proof {
            assert(spec_sealing_calls(payload@, packets@) =~= spec_sealing_calls(
                payload@,
                packets_before,
            ).push((NoiseOp::Write, spec_frames(payload@)[i as int], Some(spec_payload(packet@)))));
            assert(session@.calls =~= old(session)@.calls + spec_sealing_calls(payload@, packets@));
        }
        i = i + 1;
    }
    proof {
        assert(session@.calls.subrange(0, old(session)@.calls.len() as int) =~= old(session)@.calls);
        if payload@.len() == 0 {
            assert(packets@.len() == 0);
            assert(spec_sealing_calls(payload@, packets@) =~= Seq::<NoiseCall>::empty());
            assert(session@.calls =~= old(session)@.calls);
        }
    }
    Ok(packets)
}

/// The bytes of the handshake answer, if there is one.
pub open spec fn spec_reply_bytes(reply: Option<Vec<u8>>) -> Seq<u8> {
    match reply {
        Some(v) => v@,
        None => Seq::empty(),
    }
}

/// What follows the last handshake message: the responder's answer
/// (`reply`), carried in the clear, and then the greeting, the encoded
/// `Dummy` inner message, sealed by the session now in transport mode.
/// Returns the packets in the clear and the outcome of sealing the greeting,
/// in the order they are sent.
pub fn greet_after_handshake(
    session: &mut NoiseSession,
    sender: &mut MidSender,
    reply: &Option<Vec<u8>>,
    greeting: &[u8],
) -> (r: (Vec<Vec<u8>>, Result<Vec<Vec<u8>>, MidError>))
    requires
        old(sender)@ + spec_frame_count(spec_reply_bytes(*reply).len()) + spec_frame_count(
            greeting@.len(),
        ) <= u32::MAX,
    ensures
        ({
            let n = old(sender)@ + r.0@.len();
            &&& spec_clear_sent(old(sender)@, n as u32, spec_reply_bytes(*reply), r.0@)
            &&& spec_inner_sent(old(session)@, final(session)@, n as u32, final(sender)@, greeting@, r.1)
        }),
{
    let clear = match reply {
        Some(answer) => send_inner_packet_fake_tag(sender, answer.as_slice()),
        None => Vec::new(),
    };
    let sealed = send_inner_packet(session, sender, greeting);
    (clear, sealed)
}

/// Where an incoming mid packet goes.
#[derive(Debug, Clone, Copy, PartialEq, Eq, Structural)]
pub enum MidRoute {
    /// A client takes every packet into its own session.
    Local,
    /// A server starts a new conversation, with this id, for a packet with
    /// conversation id 0.
    NewConversation(u64),
    /// A server hands the packet to the known conversation with this id.
    Existing(u64),
    /// A server has no conversation with this id; the packet is dropped.
    Unknown(u64),
}

/// A server's conversations, keyed by conversation id, and the id the next
/// conversation will get.
pub struct ConversationTable<W> {
    conversations: BTreeMap<u64, W>,
    ticker: u64,
}

impl<W> View for ConversationTable<W> {
    type V = (Map<u64, W>, u64);

    closed spec fn view(&self) -> (Map<u64, W>, u64) {
        (self.conversations@, self.ticker)
    }
}

/// Where a packet with conversation id `id` goes, and the table afterwards.
pub open spec fn spec_route<W>(table: (Map<u64, W>, u64), mode: Mode, id: u64) -> (
    MidRoute,
    (Map<u64, W>, u64),
) {
    if mode == Mode::Client {
        (MidRoute::Local, table)
    } else if id == 0 {
        (MidRoute::NewConversation(table.1), (table.0, (table.1 + 1) as u64))
    } else if table.0.contains_key(id) {
        (MidRoute::Existing(id), table)
    } else {
        (MidRoute::Unknown(id), table)
    }
}

/// On a server, a conversation recorded under an id other than 0 receives
/// every later packet that names its id, and conversations started one after
/// the other get different ids.
pub proof fn lemma_conversations_are_reachable<W>(table: (Map<u64, W>, u64), id: u64, worker: W)
    requires
        id != 0,
    ensures
        spec_route((table.0.insert(id, worker), table.1), Mode::Server, id).0 == MidRoute::Existing(
            id,
        ),
        table.1 < u64::MAX ==> ({
            let (first, after) = spec_route(table, Mode::Server, 0);
            let (second, _) = spec_route(after, Mode::Server, 0);
            first != second
        }),
{
}

/// A client keeps every packet, whatever conversation id it carries (its
/// server numbers every packet 0), and its table never changes. A server
/// never routes a packet locally, and only a packet with conversation id 0
/// starts a conversation, numbered with the next id.
pub proof fn lemma_client_keeps_every_packet<W>(table: (Map<u64, W>, u64), mode: Mode, id: u64)
    requires
        mode != Mode::ServerConnection,
    ensures
        mode == Mode::Client ==> spec_route(table, mode, id) == (MidRoute::Local, table),
        mode == Mode::Server ==> spec_route(table, mode, id).0 != MidRoute::Local,
        spec_route(table, mode, id).0 matches MidRoute::NewConversation(n) ==> mode == Mode::Server
            && id == 0 && n == table.1 && spec_route(table, mode, id).1 == (
            table.0,
            (table.1 + 1) as u64,
        ),
        !(spec_route(table, mode, id).0 is NewConversation) ==> spec_route(table, mode, id).1
            == table,
{
}

impl<W> ConversationTable<W> {
    /// A table with no conversation, whose first conversation gets id 0.
    pub fn new() -> (table: Self)
        ensures
            table@ == (Map::<u64, W>::empty(), 0u64),
    {
        ConversationTable { conversations: BTreeMap::new(), ticker: 0 }
    }

    /// Hands out the id of the next conversation; ids are handed out in
    /// increasing order, so no two are equal.
    pub fn make_conversation_id(&mut self) -> (id: u64)
        requires
            old(self)@.1 < u64::MAX,
        ensures
            id == old(self)@.1,
            final(self)@ == (old(self)@.0, (old(self)@.1 + 1) as u64),
    {
        let mine = self.ticker;
        self.ticker = mine + 1;
        mine
    }

    /// The id the next conversation will get.
    pub fn next_conversation_id(&self) -> (id: u64)
        ensures
            id == self@.1,
    {
        self.ticker
    }

    /// Records the conversation `worker` under `id`.
    pub fn insert(&mut self, id: u64, worker: W)
        ensures
            final(self)@ == (old(self)@.0.insert(id, worker), old(self)@.1),
    {
        self.conversations.insert(id, worker);
    }

    /// The conversation recorded under `id`, if any.
    pub fn get(&self, id: u64) -> (worker: Option<&W>)
        ensures
            match worker {
                Some(w) => self@.0.contains_key(id) && *w == self@.0[id],
                None => !self@.0.contains_key(id),
            },
    {
        self.conversations.get(&id)
    }

    /// Takes the conversation recorded under `id` out of the table, if any.
    pub fn remove(&mut self, id: u64) -> (worker: Option<W>)
        ensures
            final(self)@ == (old(self)@.0.remove(id), old(self)@.1),
            match worker {
                Some(w) => old(self)@.0.contains_key(id) && w == old(self)@.0[id],
                None => !old(self)@.0.contains_key(id),
            },
    {
        self.conversations.remove(&id)
    }

    /// Routes an incoming mid packet. A client keeps every packet. A server
    /// starts a new conversation, with a fresh id, for conversation id 0,
    /// and otherwise looks the conversation up. A server's own conversations
    /// do not route packets.
    pub fn route(&mut self, mode: Mode, mid: &[u8]) -> (route: MidRoute)
        requires
            mid@.len() >= 8,
            mode != Mode::ServerConnection,
            mode == Mode::Server && spec_conversation_id(mid@) == 0 ==> old(self)@.1 < u64::MAX,
        ensures
            (route, final(self)@) == spec_route(old(self)@, mode, spec_conversation_id(mid@)),
            mode == Mode::Client ==> route == MidRoute::Local && final(self)@ == old(self)@,
            mode == Mode::Server && spec_conversation_id(mid@) == 0 ==> route
                == MidRoute::NewConversation(old(self)@.1) && final(self)@ == (
                old(self)@.0,
                (old(self)@.1 + 1) as u64,
            ),
    {
        match mode {
            Mode::Client => MidRoute::Local,
            _ => {
                let conversation_id = get_conversation_id(mid);
                if conversation_id == 0 {
                    let id = self.make_conversation_id();
                    MidRoute::NewConversation(id)
                } else if self.conversations.contains_key(&conversation_id) {
                    MidRoute::Existing(conversation_id)
                } else {
                    MidRoute::Unknown(conversation_id)
                }
            },
        }
    }

    /// Routes an incoming mid packet as [`ConversationTable::route`] does,
    /// and records `worker` as the conversation that a server starts for it,
    /// when it starts one; otherwise `worker` is dropped.
    pub fn route_and_record(&mut self, mode: Mode, mid: &[u8], worker: W) -> (route: MidRoute)
        requires
            mid@.len() >= 8,
            mode != Mode::ServerConnection,
            mode == Mode::Server && spec_conversation_id(mid@) == 0 ==> old(self)@.1 < u64::MAX,
        ensures
            route == spec_route(old(self)@, mode, spec_conversation_id(mid@)).0,
            final(self)@.1 == spec_route(old(self)@, mode, spec_conversation_id(mid@)).1.1,
            final(self)@.0 == match route {
                MidRoute::NewConversation(id) => old(self)@.0.insert(id, worker),
                _ => old(self)@.0,
            },
            mode == Mode::Client ==> route == MidRoute::Local && final(self)@ == old(self)@,
    {
        let route = self.route(mode, mid);
        match route {
            MidRoute::NewConversation(id) => self.insert(id, worker),
            _ => {},
        }
        route
    }
}

} // verus!
