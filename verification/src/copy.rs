//! The file-copy protocol.
//!
//! A sender streams files one after the other over a message transport.
//! Every message starts with the number of the file it belongs to, as a
//! big-endian `u64`, followed by up to one page of the file's bytes. A file
//! ends with a message that carries less than a full page. After the last
//! file the sender sends a message made of the number `u64::MAX` alone.

use byteorder::ByteOrder;
use vstd::bytes::*;
use vstd::prelude::*;

verus! {

broadcast use vstd::seq_lib::group_seq_properties;

/// Size of the page a sender reads from a file at a time.
pub const PAGE_SIZE: usize = 1024;

/// The file number that marks the end of the transfer.
pub const END_OF_TRANSFER: u64 = 0xffff_ffff_ffff_ffff;

/// The big-endian bytes of `n`.
pub open spec fn spec_u64_to_be_bytes(n: u64) -> Seq<u8> {
    spec_u64_to_le_bytes(n).reverse()
}

/// The `u64` that the first eight bytes of `s` hold in big-endian order.
pub open spec fn spec_u64_from_be_bytes(s: Seq<u8>) -> u64 {
    spec_u64_from_le_bytes(s.subrange(0, 8).reverse())
}

/// `byteorder::BigEndian::read_u64`: the first eight bytes of `buf` read as
/// a big-endian `u64`, which is their little-endian reading reversed. It
/// panics on fewer than eight bytes.
#[verifier::external_body]
fn be_read_u64(buf: &[u8]) -> (n: u64)
    requires
        buf@.len() >= 8,
    ensures
        n == spec_u64_from_be_bytes(buf@),
{
    <byteorder::BigEndian as ByteOrder>::read_u64(buf)
}

/// `byteorder::BigEndian::write_u64`: overwrites the first eight bytes of
/// `buf` with the big-endian bytes of `n`. It panics on fewer than eight
/// bytes.
#[verifier::external_body]
fn be_write_u64(buf: &mut [u8], n: u64)
    requires
        old(buf)@.len() >= 8,
    ensures
        final(buf)@ == old(buf)@.update_subrange_with(0, spec_u64_to_be_bytes(n)),
{
    <byteorder::BigEndian as ByteOrder>::write_u64(buf, n)
}

/// The message that carries `data` as part of file number `id`.
pub open spec fn spec_chunk_message(id: u64, data: Seq<u8>) -> Seq<u8> {
    spec_u64_to_be_bytes(id) + data
}

/// Builds the message that carries `data` as part of file number `id`.
pub fn encode_chunk(id: u64, data: &[u8]) -> (message: Vec<u8>)
    ensures
        message@ == spec_chunk_message(id, data@),
{
    proof {
        lemma_auto_spec_u64_to_from_le_bytes();
    }
    let mut message: Vec<u8> = vec![0u8; 8];
    be_write_u64(message.as_mut_slice(), id);
    assert(message@ =~= spec_u64_to_be_bytes(id));
    let mut i: usize = 0;
    while i < data.len()
        invariant
            0 <= i <= data@.len(),
            message@ == spec_u64_to_be_bytes(id) + data@.subrange(0, i as int),
        decreases data@.len() - i,
    {
        message.push(data[i]);
        i = i + 1;
    }
    message
}

/// Reads a message: the file number it names, and the bytes it carries.
pub fn decode_chunk(message: &[u8]) -> (r: (u64, Vec<u8>))
    requires
        message@.len() >= 8,
    ensures
        r.0 == spec_u64_from_be_bytes(message@),
        r.1@ == message@.subrange(8, message@.len() as int),
{
    let id = be_read_u64(message);
    let mut data: Vec<u8> = Vec::new();
    let mut i: usize = 8;
    while i < message.len()
        invariant
            8 <= i <= message@.len(),
            data@ == message@.subrange(8, i as int),
        decreases message@.len() - i,
    {
        data.push(message[i]);
        i = i + 1;
    }
    (id, data)
}

/// A message read back gives the file number and the bytes it was built
/// with; the end-of-transfer message reads as [`END_OF_TRANSFER`].
pub proof fn lemma_chunk_roundtrip(id: u64, data: Seq<u8>)
    ensures
        spec_u64_from_be_bytes(spec_chunk_message(id, data)) == id,
        spec_chunk_message(id, data).subrange(8, spec_chunk_message(id, data).len() as int)
            == data,
        spec_u64_from_be_bytes(spec_u64_to_be_bytes(END_OF_TRANSFER)) == END_OF_TRANSFER,
{
    lemma_auto_spec_u64_to_from_le_bytes();
    let m = spec_chunk_message(id, data);
    assert(m.subrange(0, 8).reverse() =~= spec_u64_to_le_bytes(id));
    assert(m.subrange(8, m.len() as int) =~= data);
    let e = spec_u64_to_be_bytes(END_OF_TRANSFER);
    assert(e.subrange(0, 8).reverse() =~= spec_u64_to_le_bytes(END_OF_TRANSFER));
}

/// What the sender does next.
#[derive(Debug, PartialEq, Eq)]
pub enum SendAction {
    /// Nothing to do: the transfer is over.
    Idle,
    /// Send this end-of-transfer message; the transfer is then over.
    SendEnd(Vec<u8>),
    /// Open source file number `id`, then read a page from it when the
    /// transport has room.
    OpenFile(u64),
    /// Read a page from the open file when the transport has room.
    ReadPage,
}

/// The sending side of the copy protocol.
pub struct FileSender {
    file_open: bool,
    id: u64,
}

/// The sender's state: whether a file is open, and the number of the current
/// file.
pub struct SenderState {
    pub file_open: bool,
    pub id: u64,
}

impl View for FileSender {
    type V = SenderState;

    closed spec fn view(&self) -> SenderState {
        SenderState { file_open: self.file_open, id: self.id }
    }
}

impl FileSender {
    #[verifier::type_invariant]
    closed spec fn inv(self) -> bool {
        self.file_open ==> self.id < END_OF_TRANSFER
    }

    /// A sender about to send file number 0.
    pub fn new() -> (sender: Self)
        ensures
            sender@ == (SenderState { file_open: false, id: 0 }),
            spec_sender_ok(sender@),
    {
        FileSender { file_open: false, id: 0 }
    }

    /// Decides the next step when the transport wakes the sender up, given
    /// how many source files there are.
    pub fn next_action(&mut self, source_count: u64) -> (action: SendAction)
        ensures
            old(self)@.file_open ==> action == SendAction::ReadPage && final(self)@ == old(self)@,
            !old(self)@.file_open && old(self)@.id == END_OF_TRANSFER ==> action == SendAction::Idle
                && final(self)@ == old(self)@,
            !old(self)@.file_open && old(self)@.id != END_OF_TRANSFER && old(self)@.id
                >= source_count ==> (action matches SendAction::SendEnd(m) && m@
                == spec_u64_to_be_bytes(END_OF_TRANSFER)) && final(self)@ == (SenderState {
                file_open: false,
                id: END_OF_TRANSFER,
            }),
            !old(self)@.file_open && old(self)@.id < source_count ==> action == SendAction::OpenFile(
                old(self)@.id,
            ) && final(self)@ == (SenderState { file_open: true, id: old(self)@.id }),
            spec_sender_ok(old(self)@),
            spec_sender_ok(final(self)@),
            (final(self)@, match action {
                SendAction::SendEnd(_) => Some((END_OF_TRANSFER, Seq::<u8>::empty())),
                _ => None::<(u64, Seq<u8>)>,
            }) == spec_wake(old(self)@, source_count),
    {
        proof {
            use_type_invariant(&*self);
        }
        if self.file_open {
            return SendAction::ReadPage;
        }
        if self.id == END_OF_TRANSFER {
            return SendAction::Idle;
        }
        if self.id >= source_count {
            let end = encode_chunk(END_OF_TRANSFER, &[]);
            assert(end@ =~= spec_u64_to_be_bytes(END_OF_TRANSFER));
            self.id = END_OF_TRANSFER;
            return SendAction::SendEnd(end);
        }
        self.file_open = true;
        SendAction::OpenFile(self.id)
    }

    /// Takes the outcome of reading a page from the open file: the bytes
    /// read, or `None` when the read failed. Returns the message to send, if
    /// any. A failed read or a short page closes the file and moves on to the
    /// next one.
    pub fn page_read(&mut self, page: Option<&[u8]>) -> (message: Option<Vec<u8>>)
        requires
            old(self)@.file_open,
            page matches Some(p) ==> p@.len() <= PAGE_SIZE,
        ensures
            match page {
                Some(p) => message matches Some(m) && m@ == spec_chunk_message(old(self)@.id, p@),
                None => message is None,
            },
            old(self)@.id < END_OF_TRANSFER,
            (page is None || page.unwrap()@.len() < PAGE_SIZE) ==> final(self)@.file_open == false
                && final(self)@.id == old(self)@.id + 1,
            (page is Some && page.unwrap()@.len() == PAGE_SIZE) ==> final(self)@ == old(self)@,
            spec_sender_ok(final(self)@),
            (final(self)@, match page {
                Some(p) => Some((old(self)@.id, p@)),
                None => None::<(u64, Seq<u8>)>,
            }) == spec_page(old(self)@, spec_page_view(page)),
    {
        proof {
            use_type_invariant(&*self);
        }
        let message = match page {
            Some(p) => Some(encode_chunk(self.id, p)),
            None => None,
        };
        let finished = match page {
            Some(p) => p.len() < PAGE_SIZE,
            None => true,
        };
        if finished {
            self.file_open = false;
            self.id = self.id + 1;
        }
        message
    }
}

/// The message a sender sends, as the file number and the bytes it
/// carries; the end of the transfer is [`END_OF_TRANSFER`] with no bytes.
pub type SentMessage = (u64, Seq<u8>);

/// A sender state that can occur: an open file never has the
/// end-of-transfer number.
pub open spec fn spec_sender_ok(s: SenderState) -> bool {
    s.file_open ==> s.id < END_OF_TRANSFER
}

/// The page read, as plain bytes.
pub open spec fn spec_page_view(page: Option<&[u8]>) -> Option<Seq<u8>> {
    match page {
        Some(p) => Some(p@),
        None => None,
    }
}

/// The sender woken up with `count` source files: its next state and the
/// message it sends, if any.
pub open spec fn spec_wake(s: SenderState, count: u64) -> (SenderState, Option<SentMessage>) {
    if s.file_open || s.id == END_OF_TRANSFER {
        (s, None)
    } else if s.id >= count {
        (SenderState { file_open: false, id: END_OF_TRANSFER }, Some((END_OF_TRANSFER, Seq::empty())))
    } else {
        (SenderState { file_open: true, id: s.id }, None)
    }
}

/// The sender given the outcome of reading a page: its next state and the
/// message it sends, if any. Without an open file nothing happens.
pub open spec fn spec_page(s: SenderState, page: Option<Seq<u8>>) -> (SenderState, Option<SentMessage>) {
    if !s.file_open {
        (s, None)
    } else {
        let out = match page {
            Some(p) => Some((s.id, p)),
            None => None,
        };
        let finished = match page {
            Some(p) => p.len() < PAGE_SIZE,
            None => true,
        };
        if finished {
            (SenderState { file_open: false, id: (s.id + 1) as u64 }, out)
        } else {
            (s, out)
        }
    }
}

/// One event for the sender: `None` when the transport wakes it up,
/// `Some(page)` when a page has been read (`page` being `None` when the read
/// failed).
pub type SenderEvent = Option<Option<Seq<u8>>>;

/// The sender's next state and message after one event.
pub open spec fn spec_sender_step(s: SenderState, count: u64, event: SenderEvent) -> (
    SenderState,
    Option<SentMessage>,
) {
    match event {
        None => spec_wake(s, count),
        Some(page) => spec_page(s, page),
    }
}

/// The sender's state after `events`, and what it sent for each of them.
pub open spec fn spec_sender_run(s: SenderState, count: u64, events: Seq<SenderEvent>) -> (
    SenderState,
    Seq<Option<SentMessage>>,
)
    decreases events.len(),
{
    if events.len() == 0 {
        (s, Seq::empty())
    } else {
        let (s1, out) = spec_sender_step(s, count, events[0]);
        let (s2, outs) = spec_sender_run(s1, count, events.drop_first());
        (s2, seq![out] + outs)
    }
}

/// What every run of the sender from `s` keeps.
pub open spec fn spec_run_keeps(
    s: SenderState,
    count: u64,
    f: SenderState,
    outs: Seq<Option<SentMessage>>,
) -> bool {
    &&& spec_sender_ok(f)
    &&& f.file_open ==> f.id < count
    &&& f.id <= count || f.id == END_OF_TRANSFER
    &&& s.id <= f.id
    &&& forall|i: int|
        0 <= i < outs.len() ==> (#[trigger] outs[i] matches Some((id, data)) ==> (id
            == END_OF_TRANSFER && data.len() == 0 && s.id != END_OF_TRANSFER) || (s.id <= id
            < count))
    &&& forall|i: int, j: int|
        0 <= i < j < outs.len() ==> (#[trigger] outs[i] matches Some((a, _)) ==> (
        #[trigger] outs[j] matches Some((b, _)) ==> a <= b))
    &&& forall|i: int, j: int|
        0 <= i < j < outs.len() ==> (#[trigger] outs[i] matches Some((a, _)) ==> (a
            == END_OF_TRANSFER ==> #[trigger] outs[j] is None))
    &&& (f.id == END_OF_TRANSFER && s.id != END_OF_TRANSFER) ==> exists|i: int|
        0 <= i < outs.len() && #[trigger] outs[i] == Some((END_OF_TRANSFER, Seq::<u8>::empty()))
    &&& s.id == END_OF_TRANSFER ==> f == s && forall|i: int|
        0 <= i < outs.len() ==> #[trigger] outs[i] is None
}

proof fn lemma_sender_run_from(s: SenderState, count: u64, events: Seq<SenderEvent>)
    requires
        count < END_OF_TRANSFER,
        spec_sender_ok(s),
        s.file_open ==> s.id < count,
        s.id <= count || s.id == END_OF_TRANSFER,
    ensures
        ({
            let (f, outs) = spec_sender_run(s, count, events);
            outs.len() == events.len() && spec_run_keeps(s, count, f, outs)
        }),
    decreases events.len(),
{
    if events.len() == 0 {
    } else {
        let (s1, out) = spec_sender_step(s, count, events[0]);
        let rest = events.drop_first();
        assert(s1.id != END_OF_TRANSFER && s.id != END_OF_TRANSFER ==> s1.id <= count);
        assert(s1.id == END_OF_TRANSFER && s.id != END_OF_TRANSFER ==> out == Some(
            (END_OF_TRANSFER, Seq::<u8>::empty()),
        ));
        lemma_sender_run_from(s1, count, rest);
        let (f, outs1) = spec_sender_run(s1, count, rest);
        let outs = seq![out] + outs1;
        assert(spec_sender_run(s, count, events) == (f, outs));
        assert forall|i: int|
            0 <= i < outs.len() implies (#[trigger] outs[i] matches Some((id, data)) ==> (id
                == END_OF_TRANSFER && data.len() == 0 && s.id != END_OF_TRANSFER) || (s.id <= id
                < count)) by {
            if i > 0 {
                assert(outs[i] == outs1[i - 1]);
            }
        }
        assert forall|i: int, j: int|
            0 <= i < j < outs.len() implies (#[trigger] outs[i] matches Some((a, _)) ==> (
            #[trigger] outs[j] matches Some((b, _)) ==> a <= b)) by {
            assert(outs[j] == outs1[j - 1]);
            if i > 0 {
                assert(outs[i] == outs1[i - 1]);
            }
        }
        assert forall|i: int, j: int|
            0 <= i < j < outs.len() implies (#[trigger] outs[i] matches Some((a, _)) ==> (a
                == END_OF_TRANSFER ==> #[trigger] outs[j] is None)) by {
            assert(outs[j] == outs1[j - 1]);
            if i > 0 {
                assert(outs[i] == outs1[i - 1]);
            }
        }
        if f.id == END_OF_TRANSFER && s.id != END_OF_TRANSFER {
            if s1.id == END_OF_TRANSFER {
                assert(outs[0] == Some((END_OF_TRANSFER, Seq::<u8>::empty())));
            } else {
                let k = choose|k: int|
                    0 <= k < outs1.len() && #[trigger] outs1[k] == Some(
                        (END_OF_TRANSFER, Seq::<u8>::empty()),
                    );
                assert(outs[k + 1] == outs1[k]);
            }
        }
        if s.id == END_OF_TRANSFER {
            assert forall|i: int| 0 <= i < outs.len() implies #[trigger] outs[i] is None by {
                if i > 0 {
                    assert(outs[i] == outs1[i - 1]);
                }
            }
        }
    }
}

/// The sender over any sequence of events, from a new sender with `count`
/// source files: file numbers only go up, from 0 to `count`, and then to
/// [`END_OF_TRANSFER`]; every message carries the number of a source file
/// (below `count`), the numbers of successive messages never go down, and
/// the end-of-transfer message, with no bytes, is sent once the sender has
/// passed the last file, never twice, and nothing is sent after it. With
/// `count` equal to [`END_OF_TRANSFER`] the last file number would be the
/// end-of-transfer number itself, so `count` must be smaller.
pub proof fn lemma_sender_run(count: u64, events: Seq<SenderEvent>)
    requires
        count < END_OF_TRANSFER,
    ensures
        ({
            let start = SenderState { file_open: false, id: 0 };
            let (f, outs) = spec_sender_run(start, count, events);
            outs.len() == events.len() && spec_run_keeps(start, count, f, outs)
        }),
{
    lemma_sender_run_from(SenderState { file_open: false, id: 0 }, count, events);
}

/// What the receiver does with a message.
#[derive(Debug, PartialEq, Eq)]
pub enum RecvAction {
    /// The transfer is over: stop.
    Exit,
    /// Create the destination file for source file `number` and write `data`
    /// to it.
    CreateFile { number: u64, data: Vec<u8> },
    /// Nothing to do.
    Ignore,
}

/// The receiving side of the copy protocol.
pub struct FileReceiver {
    file_open: bool,
    id: u64,
}

/// The receiver's state: whether a destination file is open, and the file
/// number it compares incoming messages with.
pub struct ReceiverState {
    pub file_open: bool,
    pub id: u64,
}

impl View for FileReceiver {
    type V = ReceiverState;

    closed spec fn view(&self) -> ReceiverState {
        ReceiverState { file_open: self.file_open, id: self.id }
    }
}

impl FileReceiver {
    /// A receiver with no file open.
    pub fn new() -> (receiver: Self)
        ensures
            receiver@ == (ReceiverState { file_open: false, id: 0 }),
    {
        FileReceiver { file_open: false, id: 0 }
    }

    /// Takes in one message. The end-of-transfer number ends the transfer.
    /// A message for another file than the current one, or the first message
    /// of all, which must be for file 0, opens a new destination file with the
    /// message's bytes. A further message for the current file is ignored:
    /// its bytes are not written. The number compared with stays the one the
    /// receiver started with.
    pub fn recv_message(&mut self, message: &[u8]) -> (action: RecvAction)
        requires
            message@.len() >= 8,
            !old(self)@.file_open ==> (spec_u64_from_be_bytes(message@) == END_OF_TRANSFER
                || spec_u64_from_be_bytes(message@) == 0),
        ensures
            ({
                let number = spec_u64_from_be_bytes(message@);
                let data = message@.subrange(8, message@.len() as int);
                if number == END_OF_TRANSFER {
                    action == RecvAction::Exit && final(self)@ == old(self)@
                } else if !old(self)@.file_open || number != old(self)@.id {
                    (action matches RecvAction::CreateFile { number: n, data: d } && n == number
                        && d@ == data) && final(self)@ == (ReceiverState {
                        file_open: true,
                        id: old(self)@.id,
                    })
                } else {
                    action == RecvAction::Ignore && final(self)@ == old(self)@
                }
            }),
    {
        let (number, data) = decode_chunk(message);
        if number == END_OF_TRANSFER {
            return RecvAction::Exit;
        }
        if !self.file_open || number != self.id {
            self.file_open = true;
            return RecvAction::CreateFile { number, data };
        }
        RecvAction::Ignore
    }
}

/// Where the files of a copy come from and go to.
#[derive(Debug, Clone, Copy, PartialEq, Eq, Structural)]
pub enum CopyMode {
    /// Both ends are remote peers.
    RemoteToRemote,
    /// The sources are on a remote peer, the destination is local.
    FromRemote,
    /// The sources are local, the destination is on a remote peer.
    ToRemote,
    /// Both ends are local.
    Local,
}

/// The copy mode, from the peer named for the sources and the peer named for
/// the destination; an empty name means the local machine.
pub fn copy_mode(source_peer: &str, dest_peer: &str) -> (mode: CopyMode)
    ensures
        mode == (if source_peer@.len() != 0 && dest_peer@.len() != 0 {
            CopyMode::RemoteToRemote
        } else if source_peer@.len() != 0 {
            CopyMode::FromRemote
        } else if dest_peer@.len() != 0 {
            CopyMode::ToRemote
        } else {
            CopyMode::Local
        }),
{
    let src = !source_peer.is_empty();
    let dest = !dest_peer.is_empty();
    if src && dest {
        CopyMode::RemoteToRemote
    } else if src {
        CopyMode::FromRemote
    } else if dest {
        CopyMode::ToRemote
    } else {
        CopyMode::Local
    }
}

} // verus!
