//! Framing of inner messages.
//!
//! An inner message is cut into chunks of at most [`CHUNK_SIZE`] bytes. Each
//! chunk travels in a frame of [`FRAME_SIZE`] bytes: a length byte, the chunk,
//! and zero padding. A frame whose length byte is 255 is a continuation frame;
//! the receiver buffers it and delivers the message when a frame with a shorter
//! chunk arrives.

use arrayvec::ArrayVec;
use vstd::prelude::*;

verus! {

broadcast use vstd::seq_lib::group_seq_properties;

/// Size of a frame in bytes.
pub const FRAME_SIZE: usize = 256;

/// Largest chunk a frame carries.
pub const CHUNK_SIZE: usize = 255;

/// How many continuation frames a receiver buffers at most.
pub const MAX_BUFFERED_FRAMES: usize = 64;

/// Largest message a receiver can reassemble: a full buffer of continuation
/// frames and one final frame.
pub const MAX_MESSAGE_SIZE: usize = 16574;

/// The `i`-th chunk of `data`.
pub open spec fn spec_chunk(data: Seq<u8>, i: int) -> Seq<u8> {
    let end = if 255 * (i + 1) < data.len() {
        255 * (i + 1)
    } else {
        data.len() as int
    };
    data.subrange(255 * i, end)
}

/// `n` zero bytes.
pub open spec fn spec_zeros(n: int) -> Seq<u8> {
    Seq::new(n as nat, |j: int| 0u8)
}

/// The frame that carries `chunk`.
pub open spec fn spec_frame_of_chunk(chunk: Seq<u8>) -> Seq<u8> {
    seq![chunk.len() as u8] + chunk + spec_zeros(255 - chunk.len())
}

/// How many frames a message of `n` bytes takes.
pub open spec fn spec_frame_count(n: nat) -> nat {
    (n + 254) / 255
}

/// How many frames a message of `len` bytes takes.
pub fn frame_count(len: usize) -> (n: usize)
    ensures
        n == spec_frame_count(len as nat),
{
    len / 255 + if len % 255 == 0 {
        0
    } else {
        1
    }
}

/// The frames that carry `data`, in order.
pub open spec fn spec_frames(data: Seq<u8>) -> Seq<Seq<u8>> {
    Seq::new(spec_frame_count(data.len()), |i: int| spec_frame_of_chunk(spec_chunk(data, i)))
}

/// Frame `i` of `data` carries its chunk verbatim: the length byte is the
/// number of bytes of `data` left from `255 * i`, at most 255; those bytes
/// follow unchanged; the rest of the 256 bytes is zero.
pub proof fn lemma_frame_layout(data: Seq<u8>, i: int)
    requires
        0 <= i < spec_frame_count(data.len()),
    ensures
        ({
            let f = spec_frames(data)[i];
            let len = if data.len() - 255 * i < 255 {
                data.len() - 255 * i
            } else {
                255
            };
            &&& 0 < len <= 255
            &&& f.len() == FRAME_SIZE
            &&& f[0] == len
            &&& f.subrange(1, 1 + len) == data.subrange(255 * i, 255 * i + len)
            &&& forall|j: int| 1 + len <= j < FRAME_SIZE ==> #[trigger] f[j] == 0
        }),
{
    let n = data.len();
    assert(255 * i < n) by (nonlinear_arith)
        requires
            0 <= i < (n + 254) / 255,
    ;
    let f = spec_frames(data)[i];
    let c = spec_chunk(data, i);
    let len = if data.len() - 255 * i < 255 {
        data.len() - 255 * i
    } else {
        255
    };
    assert(c =~= data.subrange(255 * i, 255 * i + len));
    assert(f == spec_frame_of_chunk(c));
    assert(f.subrange(1, 1 + len) =~= c);
    assert forall|j: int| 1 + len <= j < FRAME_SIZE implies #[trigger] f[j] == 0 by {
        assert(f[j] == spec_zeros(255 - len)[j - 1 - len]);
    }
}

/// `num::NumCast::from`, asked for a `u8` from a `usize`. The num crate
/// converts an unsigned value to a narrower unsigned type when it is at most
/// the target's maximum and answers `None` otherwise; this contract says so.
#[verifier::external_body]
fn num_cast_usize_to_u8(n: usize) -> (r: Option<u8>)
    ensures
        r == (if n <= 255 {
            Some(n as u8)
        } else {
            None
        }),
{
    <u8 as ::num::NumCast>::from(n)
}

/// Cuts `data` into frames of [`FRAME_SIZE`] bytes: each frame is a length
/// byte, up to [`CHUNK_SIZE`] bytes of `data`, and zero padding. Empty data
/// gives no frame.
pub fn frame(data: &[u8]) -> (frames: Vec<Vec<u8>>)
    ensures
        frames@.len() == spec_frame_count(data@.len()),
        forall|i: int| 0 <= i < frames@.len() ==> #[trigger] frames@[i]@ == spec_frames(data@)[i],
        forall|i: int|
            0 <= i < frames@.len() ==> {
                let f = #[trigger] frames@[i]@;
                let len = if data@.len() - 255 * i < 255 {
                    data@.len() - 255 * i
                } else {
                    255
                };
                &&& f.len() == FRAME_SIZE
                &&& f[0] == len
                &&& f.subrange(1, 1 + len) == data@.subrange(255 * i, 255 * i + len)
                &&& forall|j: int| 1 + len <= j < FRAME_SIZE ==> #[trigger] f[j] == 0
            },
{
    let n = data.len();
    let mut frames: Vec<Vec<u8>> = Vec::new();
    let mut start: usize = 0;
    while start < n
        invariant
            n == data@.len(),
            start <= n,
            start % 255 == 0 || start == n,
            frames@.len() == spec_frame_count(start as nat),
            forall|i: int|
                0 <= i < frames@.len() ==> #[trigger] frames@[i]@ == spec_frame_of_chunk(
                    spec_chunk(data@, i),
                ),
        decreases n - start,
    {
        let end: usize = if n - start > CHUNK_SIZE {
            start + CHUNK_SIZE
        } else {
            n
        };
        let chunk_len = end - start;
        let mut this_frame: Vec<u8> = Vec::new();
        match num_cast_usize_to_u8(chunk_len) {
            Some(b) => this_frame.push(b),
            None => {},
        }
        let mut j: usize = start;
        while j < end
            invariant
                start <= j <= end <= n,
                chunk_len == end - start,
                chunk_len <= 255,
                n == data@.len(),
                this_frame@ == seq![chunk_len as u8] + data@.subrange(start as int, j as int),
            decreases end - j,
        {
            this_frame.push(data[j]);
            j = j + 1;
        }
        let mut k: usize = chunk_len;
        while k < CHUNK_SIZE
            invariant
                chunk_len <= k <= CHUNK_SIZE,
                start <= end <= n,
                n == data@.len(),
                this_frame@ == seq![chunk_len as u8] + data@.subrange(start as int, end as int)
                    + spec_zeros(k - chunk_len),
            decreases CHUNK_SIZE - k,
        {
            this_frame.push(0u8);
            k = k + 1;
            assert(spec_zeros(k - chunk_len) =~= spec_zeros(k - 1 - chunk_len).push(0u8));
        }
        let ghost idx = frames@.len() as int;
        assert(idx * 255 == start) by (nonlinear_arith)
            requires
                idx == (start + 254) / 255,
                start % 255 == 0,
        ;
        assert(spec_chunk(data@, idx) =~= data@.subrange(start as int, end as int));
        assert(this_frame@ =~= spec_frame_of_chunk(spec_chunk(data@, idx)));
        frames.push(this_frame);
        assert(frames@.len() == spec_frame_count(end as nat)) by (nonlinear_arith)
            requires
                frames@.len() == idx + 1,
                idx * 255 == start,
                end == start + 255 || (end == n && end <= start + 255 && start < end),
        ;
        start = end;
    }
    proof {
        assert forall|i: int| 0 <= i < frames@.len() implies {
            let f = #[trigger] frames@[i]@;
            let len = if data@.len() - 255 * i < 255 {
                data@.len() - 255 * i
            } else {
                255
            };
            &&& f.len() == FRAME_SIZE
            &&& f[0] == len
            &&& f.subrange(1, 1 + len) == data@.subrange(255 * i, 255 * i + len)
            &&& forall|j: int| 1 + len <= j < FRAME_SIZE ==> #[trigger] f[j] == 0
        } by {
            lemma_frame_layout(data@, i);
        }
    }
    frames
}


#[verifier::external_type_specification]
#[verifier::external_body]
#[verifier::reject_recursive_types(T)]
pub struct ExArrayVec<T, const CAP: usize>(ArrayVec<T, CAP>);

/// The frames held by an `arrayvec::ArrayVec` of continuation frames, in
/// order, each as its bytes.
pub uninterp spec fn frame_store_contents(store: ArrayVec<[u8; 255], 64>) -> Seq<Seq<u8>>;

/// `arrayvec::ArrayVec::new`: an empty vector.
#[verifier::external_body]
fn frame_store_new() -> (store: ArrayVec<[u8; 255], 64>)
    ensures
        frame_store_contents(store) == Seq::<Seq<u8>>::empty(),
{
    ArrayVec::new()
}

/// `arrayvec::ArrayVec::push` of one continuation frame, given as a slice of
/// 255 bytes: the frame is appended at the end. `push` panics on a full
/// vector, so the vector must hold fewer than 64 frames.
#[verifier::external_body]
fn frame_store_push(store: &mut ArrayVec<[u8; 255], 64>, chunk: &[u8])
    requires
        chunk@.len() == CHUNK_SIZE,
        frame_store_contents(*old(store)).len() < MAX_BUFFERED_FRAMES,
    ensures
        frame_store_contents(*final(store)) == frame_store_contents(*old(store)).push(chunk@),
{
    store.push(<[u8; 255]>::try_from(chunk).unwrap())
}

/// `arrayvec::ArrayVec::len`: the number of frames held.
#[verifier::external_body]
fn frame_store_len(store: &ArrayVec<[u8; 255], 64>) -> (len: usize)
    ensures
        len == frame_store_contents(*store).len(),
{
    store.len()
}

/// The `i`-th frame held, read through `arrayvec::ArrayVec::as_slice` and
/// copied out.
#[verifier::external_body]
fn frame_store_get(store: &ArrayVec<[u8; 255], 64>, i: usize) -> (frame: Vec<u8>)
    requires
        i < frame_store_contents(*store).len(),
    ensures
        frame@ == frame_store_contents(*store)[i as int],
{
    store.as_slice()[i].to_vec()
}

/// `arrayvec::ArrayVec::clear`: afterwards the vector is empty.
#[verifier::external_body]
fn frame_store_clear(store: &mut ArrayVec<[u8; 255], 64>)
    ensures
        frame_store_contents(*final(store)) == Seq::<Seq<u8>>::empty(),
{
    store.clear()
}

/// One step of reassembly: the buffered continuation chunks after `frame`
/// arrives, and the message it completes, if any.
pub open spec fn spec_assemble_step(buffered: Seq<Seq<u8>>, frame: Seq<u8>) -> (
    Seq<Seq<u8>>,
    Option<Seq<u8>>,
) {
    if frame[0] == 255 {
        (buffered.push(frame.subrange(1, 256)), None)
    } else {
        (Seq::empty(), Some(buffered.flatten_alt() + frame.subrange(1, 1 + frame[0])))
    }
}

/// A continuation frame (length byte 255) adds its 255 bytes, verbatim, to
/// the buffered chunks and completes nothing; any other frame completes the
/// message made of the buffered chunks, in order, followed by as many of the
/// frame's bytes as its length byte says, verbatim, and empties the buffer.
pub proof fn lemma_assemble_step_verbatim(buffered: Seq<Seq<u8>>, frame: Seq<u8>)
    requires
        frame.len() == FRAME_SIZE,
    ensures
        frame[0] == 255 ==> spec_assemble_step(buffered, frame) == (
            buffered.push(frame.subrange(1, FRAME_SIZE as int)),
            None::<Seq<u8>>,
        ),
        frame[0] != 255 ==> spec_assemble_step(buffered, frame) == (
            Seq::<Seq<u8>>::empty(),
            Some(buffered.flatten_alt() + frame.subrange(1, 1 + frame[0])),
        ),
{
}

/// Reassembles inner messages from the frames that arrive one by one.
pub struct FrameAssembler {
    frames: ArrayVec<[u8; 255], 64>,
}

impl View for FrameAssembler {
    type V = Seq<Seq<u8>>;

    /// The continuation chunks buffered so far.
    closed spec fn view(&self) -> Seq<Seq<u8>> {
        frame_store_contents(self.frames)
    }
}

impl FrameAssembler {
    #[verifier::type_invariant]
    closed spec fn inv(self) -> bool {
        &&& frame_store_contents(self.frames).len() <= MAX_BUFFERED_FRAMES
        &&& forall|i: int|
            0 <= i < frame_store_contents(self.frames).len() ==> (#[trigger] frame_store_contents(
                self.frames,
            )[i]).len() == CHUNK_SIZE
    }

    /// An assembler with nothing buffered.
    pub fn new() -> (assembler: Self)
        ensures
            assembler@ == Seq::<Seq<u8>>::empty(),
    {
        FrameAssembler { frames: frame_store_new() }
    }

    /// How many continuation frames are buffered; never more than
    /// [`MAX_BUFFERED_FRAMES`].
    pub fn buffered_frames(&self) -> (n: usize)
        ensures
            n == self@.len(),
            n <= MAX_BUFFERED_FRAMES,
    {
        proof {
            use_type_invariant(self);
        }
        frame_store_len(&self.frames)
    }

    /// Takes in one decrypted frame. A continuation frame (length byte 255)
    /// is buffered and nothing is returned; any other frame completes the
    /// message: the buffered chunks followed by the frame's chunk are
    /// returned, and the buffer is emptied.
    pub fn recv_inner(&mut self, inner: &[u8]) -> (message: Option<Vec<u8>>)
        requires
            inner@.len() == FRAME_SIZE,
            inner@[0] == 255 ==> old(self)@.len() < MAX_BUFFERED_FRAMES,
        ensures
            final(self)@ == spec_assemble_step(old(self)@, inner@).0,
            match message {
                Some(m) => spec_assemble_step(old(self)@, inner@).1 == Some(m@),
                None => spec_assemble_step(old(self)@, inner@).1 is None,
            },
            inner@[0] == 255 ==> message is None && final(self)@ == old(self)@.push(
                inner@.subrange(1, FRAME_SIZE as int),
            ),
            inner@[0] != 255 ==> final(self)@ == Seq::<Seq<u8>>::empty() && (message matches Some(
                m,
            ) && m@ == old(self)@.flatten_alt() + inner@.subrange(1, 1 + inner@[0])),
    {
        proof {
            use_type_invariant(&*self);
        }
        let mut frames = frame_store_new();
        std::mem::swap(&mut frames, &mut self.frames);
        if inner[0] == 255 {
            frame_store_push(&mut frames, &inner[1..FRAME_SIZE]);
            std::mem::swap(&mut frames, &mut self.frames);
            return None;
        }
        let count = frame_store_len(&frames);
        let ghost buffered = frame_store_contents(frames);
        let mut message: Vec<u8> = Vec::new();
        let mut i: usize = 0;
        while i < count
            invariant
                0 <= i <= count,
                count == buffered.len(),
                buffered == frame_store_contents(frames),
                message@ == buffered.subrange(0, i as int).flatten_alt(),
            decreases count - i,
        {
            let chunk = frame_store_get(&frames, i);
            let mut j: usize = 0;
            let ghost before = message@;
            while j < chunk.len()
                invariant
                    0 <= j <= chunk@.len(),
                    message@ == before + chunk@.subrange(0, j as int),
                decreases chunk@.len() - j,
            {
                message.push(chunk[j]);
                j = j + 1;
            }
            assert(buffered.subrange(0, i + 1).drop_last() =~= buffered.subrange(0, i as int));
            assert(chunk@.subrange(0, chunk@.len() as int) =~= chunk@);
            i = i + 1;
        }
        assert(buffered.subrange(0, count as int) =~= buffered);
        let len = inner[0] as usize;
        let mut j: usize = 1;
        let ghost before = message@;
        while j < 1 + len
            invariant
                1 <= j <= 1 + len,
                len == inner@[0],
                inner@.len() == FRAME_SIZE,
                len < 255,
                message@ == before + inner@.subrange(1, j as int),
            decreases 1 + len - j,
        {
            message.push(inner[j]);
            j = j + 1;
        }
        frame_store_clear(&mut frames);
        std::mem::swap(&mut frames, &mut self.frames);
        Some(message)
    }
}


/// Feeds `frames` one after the other to a receiver that has `buffered`
/// chunks: the chunks buffered at the end, and what each frame returned.
pub open spec fn spec_feed(buffered: Seq<Seq<u8>>, frames: Seq<Seq<u8>>) -> (
    Seq<Seq<u8>>,
    Seq<Option<Seq<u8>>>,
)
    decreases frames.len(),
{
    if frames.len() == 0 {
        (buffered, Seq::empty())
    } else {
        let (b1, out) = spec_assemble_step(buffered, frames[0]);
        let (b2, outs) = spec_feed(b1, frames.drop_first());
        (b2, seq![out] + outs)
    }
}

/// The first `j` chunks of `data`.
spec fn spec_first_chunks(data: Seq<u8>, j: int) -> Seq<Seq<u8>> {
    Seq::new(j as nat, |i: int| spec_chunk(data, i))
}

proof fn lemma_frame_count_bounds(n: nat)
    requires
        n % 255 != 0,
    ensures
        spec_frame_count(n) >= 1,
        255 * (spec_frame_count(n) - 1) < n,
        n < 255 * spec_frame_count(n),
        n <= MAX_MESSAGE_SIZE ==> spec_frame_count(n) - 1 <= MAX_BUFFERED_FRAMES,
{
    let k = spec_frame_count(n);
    assert(k >= 1 && 255 * (k - 1) < n && n < 255 * k && (n <= 16574 ==> k - 1 <= 64))
        by (nonlinear_arith)
        requires
            k == (n + 254) / 255,
            n % 255 != 0,
    ;
}

proof fn lemma_first_chunks_flatten(data: Seq<u8>, j: int)
    requires
        0 <= j,
        255 * j <= data.len(),
    ensures
        spec_first_chunks(data, j).flatten_alt() == data.subrange(0, 255 * j),
    decreases j,
{
    if j == 0 {
        assert(spec_first_chunks(data, 0) =~= Seq::<Seq<u8>>::empty());
        assert(data.subrange(0, 0) =~= Seq::<u8>::empty());
    } else {
        lemma_first_chunks_flatten(data, j - 1);
        assert(spec_first_chunks(data, j).drop_last() =~= spec_first_chunks(data, j - 1));
        assert(spec_chunk(data, j - 1) =~= data.subrange(255 * (j - 1), 255 * j));
        assert(data.subrange(0, 255 * (j - 1)) + data.subrange(255 * (j - 1), 255 * j)
            =~= data.subrange(0, 255 * j));
    }
}

proof fn lemma_feed_from(data: Seq<u8>, j: int)
    requires
        data.len() % 255 != 0,
        0 <= j < spec_frame_count(data.len()),
    ensures
        ({
            let k = spec_frame_count(data.len()) as int;
            spec_feed(spec_first_chunks(data, j), spec_frames(data).subrange(j, k)) == (
                Seq::<Seq<u8>>::empty(),
                Seq::new((k - 1 - j) as nat, |i: int| None::<Seq<u8>>).push(Some(data)),
            )
        }),
    decreases spec_frame_count(data.len()) - j,
{
    let n = data.len();
    let k = spec_frame_count(n) as int;
    lemma_frame_count_bounds(n);
    let rest = spec_frames(data).subrange(j, k);
    let chunk = spec_chunk(data, j);
    let fr = spec_frame_of_chunk(chunk);
    assert(rest[0] == fr);
    assert(rest.drop_first() =~= spec_frames(data).subrange(j + 1, k));
    let buffered = spec_first_chunks(data, j);
    if j == k - 1 {
        assert(chunk.len() == n - 255 * j);
        assert(1 <= chunk.len() <= 254);
        assert(fr[0] == chunk.len() as u8);
        assert(fr[0] != 255);
        assert(fr.subrange(1, 1 + fr[0]) =~= chunk);
        lemma_first_chunks_flatten(data, j);
        assert(data.subrange(0, 255 * j) + chunk =~= data);
        assert(spec_frames(data).subrange(j + 1, k) =~= Seq::<Seq<u8>>::empty());
        let (b2, outs) = spec_feed(Seq::empty(), spec_frames(data).subrange(j + 1, k));
        assert(b2 == Seq::<Seq<u8>>::empty());
        assert(outs == Seq::<Option<Seq<u8>>>::empty());
        assert(seq![Some(data)] + outs =~= Seq::new(0, |i: int| None::<Seq<u8>>).push(Some(data)));
    } else {
        assert(255 * (j + 1) < n);
        assert(chunk =~= data.subrange(255 * j, 255 * (j + 1)));
        assert(chunk.len() == 255);
        assert(fr[0] == 255);
        assert(fr.subrange(1, 256) =~= chunk);
        assert(buffered.push(chunk) =~= spec_first_chunks(data, j + 1));
        lemma_feed_from(data, j + 1);
        let nones = Seq::new((k - 2 - j) as nat, |i: int| None::<Seq<u8>>).push(Some(data));
        assert(seq![None::<Seq<u8>>] + nones =~= Seq::new((k - 1 - j) as nat, |i: int| None::<Seq<u8>>).push(Some(data)));
    }
}

/// A receiver with nothing buffered that is fed, in order, the frames that
/// [`frame`] makes of `data` returns nothing for every frame but the last,
/// returns `data` for the last one, and ends with nothing buffered. When
/// `data` is at most [`MAX_MESSAGE_SIZE`] bytes long the receiver never has to
/// buffer more than [`MAX_BUFFERED_FRAMES`] frames. This needs the length of
/// `data` not to be a multiple of 255: the last frame of such data is a full
/// one, which the receiver takes for a continuation frame.
pub proof fn lemma_frames_reassemble(data: Seq<u8>)
    requires
        data.len() % 255 != 0,
    ensures
        ({
            let k = spec_frame_count(data.len());
            &&& k >= 1
            &&& spec_feed(Seq::empty(), spec_frames(data)) == (
                Seq::<Seq<u8>>::empty(),
                Seq::new((k - 1) as nat, |i: int| None::<Seq<u8>>).push(Some(data)),
            )
            &&& data.len() <= MAX_MESSAGE_SIZE ==> k - 1 <= MAX_BUFFERED_FRAMES
        }),
{
    let k = spec_frame_count(data.len());
    lemma_frame_count_bounds(data.len());
    lemma_feed_from(data, 0);
    assert(spec_first_chunks(data, 0) =~= Seq::<Seq<u8>>::empty());
    assert(spec_frames(data).subrange(0, k as int) =~= spec_frames(data));
}

} // verus!
