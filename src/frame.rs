//! The message channel's framing: each frame is a 4-byte little-endian
//! unsigned length followed by that many payload bytes.
//!
//! A length counts bytes, so a payload holds at most 4 GiB - 1 bytes. No tighter
//! limit is enforced when reading: a peer that announces a large length makes
//! the reader wait for, and keep, that many bytes.
use vstd::prelude::*;

verus! {

/// Why a frame could not be read or written.
#[derive(Clone, Copy, Debug, PartialEq, Eq, Structural)]
pub enum FrameError {
    /// The stream ended inside a frame: after part of the length header, or
    /// before all of the payload.
    Truncated,
    /// The payload is longer than a 32-bit length can express.
    TooLarge,
}

/// Largest payload a frame can carry (4 GiB - 1).
pub const MAX_PAYLOAD: usize = 0xffff_ffff;

/// The four little-endian bytes of `n`.
pub open spec fn le32_bytes(n: u32) -> Seq<u8> {
    seq![(n & 0xff) as u8, ((n >> 8) & 0xff) as u8, ((n >> 16) & 0xff) as u8, ((n >> 24) & 0xff) as u8]
}

/// The number that four little-endian bytes spell.
pub open spec fn le32_value(b0: u8, b1: u8, b2: u8, b3: u8) -> u32 {
    (b0 as u32) | ((b1 as u32) << 8) | ((b2 as u32) << 16) | ((b3 as u32) << 24)
}

/// The payload length announced by the header at the front of `s` (which has at least 4 bytes).
pub open spec fn header_len(s: Seq<u8>) -> int {
    le32_value(s[0], s[1], s[2], s[3]) as int
}

/// `s` starts with a whole frame.
pub open spec fn has_frame(s: Seq<u8>) -> bool {
    s.len() >= 4 && s.len() >= 4 + header_len(s)
}

/// The payload of the frame at the front of `s`.
pub open spec fn frame_payload(s: Seq<u8>) -> Seq<u8> {
    s.subrange(4, 4 + header_len(s))
}

/// What follows the frame at the front of `s`.
pub open spec fn frame_rest(s: Seq<u8>) -> Seq<u8> {
    s.subrange(4 + header_len(s), s.len() as int)
}

/// The frame that carries `payload` (whose length fits in 32 bits).
pub open spec fn frame_of(payload: Seq<u8>) -> Seq<u8> {
    le32_bytes(payload.len() as u32) + payload
}

proof fn lemma_le32_round_trip(n: u32)
    ensures
        le32_value(
            (n & 0xff) as u8,
            ((n >> 8) & 0xff) as u8,
            ((n >> 16) & 0xff) as u8,
            ((n >> 24) & 0xff) as u8,
        ) == n,
{
    assert(((n & 0xff) as u8) as u32 == n & 0xff) by (bit_vector);
    assert((((n >> 8) & 0xff) as u8) as u32 == (n >> 8) & 0xff) by (bit_vector);
    assert((((n >> 16) & 0xff) as u8) as u32 == (n >> 16) & 0xff) by (bit_vector);
    assert((((n >> 24) & 0xff) as u8) as u32 == (n >> 24) & 0xff) by (bit_vector);
    assert(((n & 0xff) | (((n >> 8) & 0xff) << 8) | (((n >> 16) & 0xff) << 16) | (((n >> 24) & 0xff) << 24))
        == n) by (bit_vector);
}

/// Framing a payload and reading the frame back yields the payload, and
/// leaves whatever followed the frame untouched.
pub proof fn lemma_frame_round_trip(payload: Seq<u8>, tail: Seq<u8>)
    requires
        payload.len() <= MAX_PAYLOAD,
    ensures
        has_frame(frame_of(payload) + tail),
        frame_payload(frame_of(payload) + tail) == payload,
        frame_rest(frame_of(payload) + tail) == tail,
{
    let s = frame_of(payload) + tail;
    lemma_le32_round_trip(payload.len() as u32);
    assert(header_len(s) == payload.len());
    assert(frame_payload(s) =~= payload);
    assert(frame_rest(s) =~= tail);
}

/// A stream that ends after part of a frame holds no whole frame.
pub proof fn lemma_truncated_frame(payload: Seq<u8>, k: int)
    requires
        payload.len() <= MAX_PAYLOAD,
        0 <= k < frame_of(payload).len(),
    ensures
        !has_frame(frame_of(payload).take(k)),
{
    let s = frame_of(payload).take(k);
    if k >= 4 {
        lemma_le32_round_trip(payload.len() as u32);
        assert(s[0] == frame_of(payload)[0] && s[1] == frame_of(payload)[1]);
        assert(s[2] == frame_of(payload)[2] && s[3] == frame_of(payload)[3]);
        assert(header_len(s) == payload.len());
    }
}

/// Frames `payload`: its length as 4 little-endian bytes, then the payload.
pub fn encode_frame(payload: &[u8]) -> (r: Result<Vec<u8>, FrameError>)
    ensures
        payload@.len() <= MAX_PAYLOAD <==> r is Ok,
        payload@.len() > MAX_PAYLOAD <==> r == Err::<Vec<u8>, FrameError>(FrameError::TooLarge),
        r matches Ok(v) ==> v@ == frame_of(payload@),
{
    if payload.len() > MAX_PAYLOAD {
        return Err(FrameError::TooLarge);
    }
    let n = payload.len() as u32;
    let mut out: Vec<u8> = Vec::new();
    out.push((n & 0xff) as u8);
    out.push(((n >> 8) & 0xff) as u8);
    out.push(((n >> 16) & 0xff) as u8);
    out.push(((n >> 24) & 0xff) as u8);
    let mut i: usize = 0;
    while i < payload.len()
        invariant
            i <= payload@.len(),
            n == payload@.len(),
            out@ == le32_bytes(n) + payload@.take(i as int),
        decreases payload@.len() - i,
    {
        out.push(payload[i]);
        i = i + 1;
        assert(payload@.take(i as int) =~= payload@.take(i - 1) + seq![payload@[i - 1]]);
    }
    assert(payload@.take(i as int) =~= payload@);
    Ok(out)
}

/// Copies `s[from..to]` into a new vector.
fn copy_range(s: &[u8], from: usize, to: usize) -> (r: Vec<u8>)
    requires
        from <= to <= s@.len(),
    ensures
        r@ == s@.subrange(from as int, to as int),
{
    let mut out: Vec<u8> = Vec::new();
    let mut i: usize = from;
    while i < to
        invariant
            from <= i <= to,
            to <= s@.len(),
            out@ == s@.subrange(from as int, i as int),
        decreases to - i,
    {
        out.push(s[i]);
        i = i + 1;
        assert(out@ =~= s@.subrange(from as int, i as int));
    }
    out
}

/// Reads the length header at the front of `s`.
fn read_header(s: &[u8]) -> (r: usize)
    requires
        s@.len() >= 4,
    ensures
        r as int == header_len(s@),
{
    let v: u32 = (s[0] as u32) | ((s[1] as u32) << 8) | ((s[2] as u32) << 16) | ((s[3] as u32) << 24);
    v as usize
}

/// Reads the frame at the front of a stream that has ended: `Ok(None)` when
/// nothing is left, `Ok(Some((payload, consumed)))` for a whole frame, and
/// `Err(Truncated)` when the stream stops inside a frame.
pub fn decode_frame(stream: &[u8]) -> (r: Result<Option<(Vec<u8>, usize)>, FrameError>)
    ensures
        stream@.len() == 0 <==> r matches Ok(None),
        (stream@.len() > 0 && !has_frame(stream@)) <==> r == Err::<Option<(Vec<u8>, usize)>, FrameError>(
            FrameError::Truncated),
        has_frame(stream@) <==> r matches Ok(Some(_)),
        r matches Ok(Some((p, k))) ==> p@ == frame_payload(stream@) && k == 4 + header_len(stream@),
{
    if stream.len() == 0 {
        return Ok(None);
    }
    if stream.len() < 4 {
        return Err(FrameError::Truncated);
    }
    let n = read_header(stream);
    if stream.len() - 4 < n {
        return Err(FrameError::Truncated);
    }
    let payload = copy_range(stream, 4, 4 + n);
    Ok(Some((payload, 4 + n)))
}

/// Gathers bytes of a stream as they arrive and hands out whole frames.
pub struct FrameReader {
    pending: Vec<u8>,
}

impl View for FrameReader {
    type V = Seq<u8>;

    /// The bytes received and not yet handed out as frames.
    closed spec fn view(&self) -> Seq<u8> {
        self.pending@
    }
}

impl FrameReader {
    /// A reader that has received nothing.
    pub fn new() -> (r: FrameReader)
        ensures
            r@ == Seq::<u8>::empty(),
    {
        FrameReader { pending: Vec::new() }
    }

    /// Takes in the next bytes of the stream.
    pub fn feed(&mut self, bytes: &[u8])
        ensures
            final(self)@ == old(self)@ + bytes@,
    {
        let mut i: usize = 0;
        while i < bytes.len()
            invariant
                i <= bytes@.len(),
                self@ == old(self)@ + bytes@.take(i as int),
            decreases bytes@.len() - i,
        {
            self.pending.push(bytes[i]);
            i = i + 1;
            assert(self@ =~= old(self)@ + bytes@.take(i as int));
        }
        assert(bytes@.take(i as int) =~= bytes@);
    }

    /// Hands out the payload of the next whole frame, if every byte of it has
    /// arrived; otherwise returns `None` and keeps what it holds.
    pub fn next_frame(&mut self) -> (r: Option<Vec<u8>>)
        ensures
            has_frame(old(self)@) ==> (r matches Some(p) && p@ == frame_payload(old(self)@) && final(self)@
                == frame_rest(old(self)@)),
            !has_frame(old(self)@) ==> r is None && final(self)@ == old(self)@,
    {
        match decode_frame(self.pending.as_slice()) {
            Ok(Some((payload, used))) => {
                let rest = copy_range(self.pending.as_slice(), used, self.pending.len());
                self.pending = rest;
                Some(payload)
            },
            _ => None,
        }
    }

    /// Called when the stream has ended: `Ok` when it ended between frames,
    /// `Err(Truncated)` when part of a frame is left over.
    pub fn finish(&self) -> (r: Result<(), FrameError>)
        ensures
            self@.len() == 0 <==> r is Ok,
            r is Err ==> r == Err::<(), FrameError>(FrameError::Truncated),
    {
        if self.pending.len() == 0 {
            Ok(())
        } else {
            Err(FrameError::Truncated)
        }
    }
}

} // verus!
