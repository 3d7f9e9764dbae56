//! Layout of a mid-layer packet.
//!
//! A mid packet is [`MID_PACKET_SIZE`] bytes long. Its header holds, in
//! little-endian order, a conversation id (bytes 0..8), a sequence number
//! (bytes 8..12), an acknowledgement number (bytes 12..16) and a buffer size
//! (bytes 18..20); bytes 20..292 carry the payload.

use vstd::bytes::*;
use vstd::prelude::*;

verus! {

broadcast use vstd::seq_lib::group_seq_properties;

/// The size of a mid packet in bytes.
pub const MID_PACKET_SIZE: usize = 292;

/// Offset of the first payload byte.
pub const PAYLOAD_START: usize = 20;

/// Size of the payload in bytes.
pub const PAYLOAD_SIZE: usize = 272;

/// `s` with the bytes starting at `start` replaced by `bytes`.
pub open spec fn splice(s: Seq<u8>, start: int, bytes: Seq<u8>) -> Seq<u8> {
    s.update_subrange_with(start, bytes)
}

/// The conversation id stored in a packet.
pub open spec fn spec_conversation_id(s: Seq<u8>) -> u64 {
    spec_u64_from_le_bytes(s.subrange(0, 8))
}

/// The sequence number stored in a packet.
pub open spec fn spec_sequence_number(s: Seq<u8>) -> u32 {
    spec_u32_from_le_bytes(s.subrange(8, 12))
}

/// The acknowledgement number stored in a packet.
pub open spec fn spec_acknowledgement_number(s: Seq<u8>) -> u32 {
    spec_u32_from_le_bytes(s.subrange(12, 16))
}

/// The buffer size stored in a packet.
pub open spec fn spec_buffer_size(s: Seq<u8>) -> u16 {
    spec_u16_from_le_bytes(s.subrange(18, 20))
}

/// The payload carried by a packet.
pub open spec fn spec_payload(s: Seq<u8>) -> Seq<u8> {
    s.subrange(PAYLOAD_START as int, MID_PACKET_SIZE as int)
}

/// Copies `bytes` into `data` starting at `start`.
fn write_bytes(data: &mut [u8], start: usize, bytes: &[u8])
    requires
        start + bytes@.len() <= old(data)@.len(),
    ensures
        final(data)@ == splice(old(data)@, start as int, bytes@),
{
    let n = bytes.len();
    let len = data.len();
    let mut i: usize = 0;
    while i < n
        invariant
            n == bytes@.len(),
            start + n <= len,
            len == data@.len(),
            data@.len() == old(data)@.len(),
            0 <= i <= n,
            forall|j: int|
                0 <= j < data@.len() ==> #[trigger] data@[j] == (if start <= j < start + i {
                    bytes@[j - start]
                } else {
                    old(data)@[j]
                }),
        decreases n - i,
    {
        data[start + i] = bytes[i];
        i = i + 1;
    }
    assert(data@ =~= splice(old(data)@, start as int, bytes@));
}

/// Reads the conversation id of a mid packet.
pub fn get_conversation_id(data: &[u8]) -> (id: u64)
    requires
        data@.len() >= 8,
    ensures
        id == spec_conversation_id(data@),
{
    u64_from_le_bytes(&data[0..8])
}

/// Writes the conversation id of a mid packet.
pub fn set_conversation_id(data: &mut [u8], id: u64)
    requires
        old(data)@.len() >= 8,
    ensures
        final(data)@ == splice(old(data)@, 0, spec_u64_to_le_bytes(id)),
{
    proof {
        lemma_auto_spec_u64_to_from_le_bytes();
    }
    let bytes = u64_to_le_bytes(id);
    write_bytes(data, 0, bytes.as_slice());
}


/// Reads the sequence number of a mid packet.
pub fn get_sequence_number(data: &[u8]) -> (sequence_number: u32)
    requires
        data@.len() >= 12,
    ensures
        sequence_number == spec_sequence_number(data@),
{
    u32_from_le_bytes(&data[8..12])
}

/// Writes the sequence number of a mid packet.
pub fn set_sequence_number(data: &mut [u8], sequence_number: u32)
    requires
        old(data)@.len() >= 12,
    ensures
        final(data)@ == splice(old(data)@, 8, spec_u32_to_le_bytes(sequence_number)),
{
    proof {
        lemma_auto_spec_u32_to_from_le_bytes();
    }
    let bytes = u32_to_le_bytes(sequence_number);
    write_bytes(data, 8, bytes.as_slice());
}

/// Reads the acknowledgement number of a mid packet (bytes 12..16).
pub fn get_acknowledgement_number(data: &[u8]) -> (acknowledgement_number: u32)
    requires
        data@.len() >= 16,
    ensures
        acknowledgement_number == spec_acknowledgement_number(data@),
{
    u32_from_le_bytes(&data[12..16])
}

/// Writes the acknowledgement number of a mid packet (bytes 12..16).
pub fn set_acknowledgement_number(data: &mut [u8], acknowledgement_number: u32)
    requires
        old(data)@.len() >= 16,
    ensures
        final(data)@ == splice(old(data)@, 12, spec_u32_to_le_bytes(acknowledgement_number)),
{
    proof {
        lemma_auto_spec_u32_to_from_le_bytes();
    }
    let bytes = u32_to_le_bytes(acknowledgement_number);
    write_bytes(data, 12, bytes.as_slice());
}

/// Writes the buffer size of a mid packet.
pub fn set_buffer_size(data: &mut [u8], buffer_size: u16)
    requires
        old(data)@.len() >= 20,
    ensures
        final(data)@ == splice(old(data)@, 18, spec_u16_to_le_bytes(buffer_size)),
{
    proof {
        lemma_auto_spec_u16_to_from_le_bytes();
    }
    let bytes = u16_to_le_bytes(buffer_size);
    write_bytes(data, 18, bytes.as_slice());
}

/// Reads the buffer size of a mid packet.
pub fn get_buffer_size(data: &[u8]) -> (buffer_size: u16)
    requires
        data@.len() >= 20,
    ensures
        buffer_size == spec_buffer_size(data@),
{
    u16_from_le_bytes(&data[18..20])
}

/// The payload of a mid packet.
pub fn get_payload<'a>(data: &'a [u8]) -> (payload: &'a [u8])
    requires
        data@.len() >= MID_PACKET_SIZE,
    ensures
        payload@ == spec_payload(data@),
{
    &data[PAYLOAD_START..MID_PACKET_SIZE]
}

/// The payload of a mid packet, for writing.
pub fn get_payload_mut<'a>(data: &'a mut [u8]) -> (payload: &'a mut [u8])
    requires
        old(data)@.len() >= MID_PACKET_SIZE,
    ensures
        payload@ == spec_payload(old(data)@),
        final(data)@ == old(data)@.subrange(0, PAYLOAD_START as int) + final(payload)@
            + old(data)@.subrange(MID_PACKET_SIZE as int, old(data)@.len() as int),
{
    let (_header, rest) = data.split_at_mut(PAYLOAD_START);
    let (payload, _trailer) = rest.split_at_mut(PAYLOAD_SIZE);
    payload
}


/// A field written into a packet reads back as the value written: this holds
/// for the conversation id, the sequence number, the acknowledgement number
/// and the buffer size.
pub proof fn lemma_read_after_write(s: Seq<u8>, id: u64, seq: u32, ack: u32, size: u16)
    requires
        s.len() >= MID_PACKET_SIZE,
    ensures
        spec_conversation_id(splice(s, 0, spec_u64_to_le_bytes(id))) == id,
        spec_sequence_number(splice(s, 8, spec_u32_to_le_bytes(seq))) == seq,
        spec_acknowledgement_number(splice(s, 12, spec_u32_to_le_bytes(ack))) == ack,
        spec_buffer_size(splice(s, 18, spec_u16_to_le_bytes(size))) == size,
{
    lemma_auto_spec_u64_to_from_le_bytes();
    lemma_auto_spec_u32_to_from_le_bytes();
    lemma_auto_spec_u16_to_from_le_bytes();
    assert(splice(s, 0, spec_u64_to_le_bytes(id)).subrange(0, 8) =~= spec_u64_to_le_bytes(id));
    assert(splice(s, 8, spec_u32_to_le_bytes(seq)).subrange(8, 12) =~= spec_u32_to_le_bytes(seq));
    assert(splice(s, 12, spec_u32_to_le_bytes(ack)).subrange(12, 16) =~= spec_u32_to_le_bytes(
        ack,
    ));
    assert(splice(s, 18, spec_u16_to_le_bytes(size)).subrange(18, 20) =~= spec_u16_to_le_bytes(
        size,
    ));
}

/// Writing one header field leaves the length of the packet, every other
/// header field and the payload unchanged.
pub proof fn lemma_write_keeps_other_fields(s: Seq<u8>, id: u64, seq: u32, ack: u32, size: u16)
    requires
        s.len() >= MID_PACKET_SIZE,
    ensures
        ({
            let t = splice(s, 0, spec_u64_to_le_bytes(id));
            &&& t.len() == s.len()
            &&& spec_sequence_number(t) == spec_sequence_number(s)
            &&& spec_acknowledgement_number(t) == spec_acknowledgement_number(s)
            &&& spec_buffer_size(t) == spec_buffer_size(s)
            &&& spec_payload(t) == spec_payload(s)
        }),
        ({
            let t = splice(s, 8, spec_u32_to_le_bytes(seq));
            &&& t.len() == s.len()
            &&& spec_conversation_id(t) == spec_conversation_id(s)
            &&& spec_acknowledgement_number(t) == spec_acknowledgement_number(s)
            &&& spec_buffer_size(t) == spec_buffer_size(s)
            &&& spec_payload(t) == spec_payload(s)
        }),
        ({
            let t = splice(s, 12, spec_u32_to_le_bytes(ack));
            &&& t.len() == s.len()
            &&& spec_conversation_id(t) == spec_conversation_id(s)
            &&& spec_sequence_number(t) == spec_sequence_number(s)
            &&& spec_buffer_size(t) == spec_buffer_size(s)
            &&& spec_payload(t) == spec_payload(s)
        }),
        ({
            let t = splice(s, 18, spec_u16_to_le_bytes(size));
            &&& t.len() == s.len()
            &&& spec_conversation_id(t) == spec_conversation_id(s)
            &&& spec_sequence_number(t) == spec_sequence_number(s)
            &&& spec_acknowledgement_number(t) == spec_acknowledgement_number(s)
            &&& spec_payload(t) == spec_payload(s)
        }),
{
    lemma_auto_spec_u64_to_from_le_bytes();
    lemma_auto_spec_u32_to_from_le_bytes();
    lemma_auto_spec_u16_to_from_le_bytes();
    let t0 = splice(s, 0, spec_u64_to_le_bytes(id));
    let t1 = splice(s, 8, spec_u32_to_le_bytes(seq));
    let t2 = splice(s, 12, spec_u32_to_le_bytes(ack));
    let t3 = splice(s, 18, spec_u16_to_le_bytes(size));
    assert(t0.subrange(8, 12) =~= s.subrange(8, 12));
    assert(t0.subrange(12, 16) =~= s.subrange(12, 16));
    assert(t0.subrange(18, 20) =~= s.subrange(18, 20));
    assert(spec_payload(t0) =~= spec_payload(s));
    assert(t1.subrange(0, 8) =~= s.subrange(0, 8));
    assert(t1.subrange(12, 16) =~= s.subrange(12, 16));
    assert(t1.subrange(18, 20) =~= s.subrange(18, 20));
    assert(spec_payload(t1) =~= spec_payload(s));
    assert(t2.subrange(0, 8) =~= s.subrange(0, 8));
    assert(t2.subrange(8, 12) =~= s.subrange(8, 12));
    assert(t2.subrange(18, 20) =~= s.subrange(18, 20));
    assert(spec_payload(t2) =~= spec_payload(s));
    assert(t3.subrange(0, 8) =~= s.subrange(0, 8));
    assert(t3.subrange(8, 12) =~= s.subrange(8, 12));
    assert(t3.subrange(12, 16) =~= s.subrange(12, 16));
    assert(spec_payload(t3) =~= spec_payload(s));
}

/// Builds the mid packet that carries `payload` under `sequence_number`:
/// conversation id, acknowledgement number and buffer size are zero, and so
/// are the two unused header bytes 16..18.
pub fn build_mid_packet(sequence_number: u32, payload: &[u8]) -> (packet: Vec<u8>)
    requires
        payload@.len() == PAYLOAD_SIZE,
    ensures
        packet@.len() == MID_PACKET_SIZE,
        packet@[16] == 0,
        packet@[17] == 0,
        spec_conversation_id(packet@) == 0,
        spec_sequence_number(packet@) == sequence_number,
        spec_acknowledgement_number(packet@) == 0,
        spec_buffer_size(packet@) == 0,
        spec_payload(packet@) == payload@,
{
    proof {
        lemma_auto_spec_u64_to_from_le_bytes();
        lemma_auto_spec_u32_to_from_le_bytes();
        lemma_auto_spec_u16_to_from_le_bytes();
    }
    let mut packet: Vec<u8> = vec![0u8; MID_PACKET_SIZE];
    let ghost zeros = packet@;
    set_conversation_id(packet.as_mut_slice(), 0);
    set_sequence_number(packet.as_mut_slice(), sequence_number);
    set_acknowledgement_number(packet.as_mut_slice(), 0);
    set_buffer_size(packet.as_mut_slice(), 0);
    write_bytes(packet.as_mut_slice(), PAYLOAD_START, payload);
    proof {
        assert(packet@.subrange(0, 8) =~= spec_u64_to_le_bytes(0));
        assert(packet@.subrange(8, 12) =~= spec_u32_to_le_bytes(sequence_number));
        assert(packet@.subrange(12, 16) =~= spec_u32_to_le_bytes(0));
        assert(packet@.subrange(18, 20) =~= spec_u16_to_le_bytes(0));
        assert(spec_payload(packet@) =~= payload@);
    }
    packet
}

} // verus!
