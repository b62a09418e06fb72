//! Length-prefixed framing of the byte stream between the browser and the host.
//!
//! A frame is a four-byte unsigned length, in the byte order of the machine that
//! both ends run on, followed by that many payload bytes.
use vstd::prelude::*;

verus! {

/// The order in which the four bytes of a length prefix are laid out.
#[derive(Clone, Copy, Debug, PartialEq, Eq, Structural)]
pub enum ByteOrder {
    Little,
    Big,
}

/// What can go wrong when framing.
#[derive(Clone, Copy, Debug, PartialEq, Eq, Structural)]
pub enum FrameError {
    /// The input ended after part of a frame had arrived.
    Truncated,
    /// A payload does not fit a 32-bit length prefix.
    TooLong,
}

/// The largest payload length a prefix can carry.
pub const MAX_PAYLOAD: u64 = 0xffff_ffff;

/// The number that four prefix bytes stand for.
pub open spec fn length_value(order: ByteOrder, b: Seq<u8>) -> nat
    recommends
        b.len() == 4,
{
    match order {
        ByteOrder::Little => (b[0] + 256 * b[1] + 65536 * b[2] + 16777216 * b[3]) as nat,
        ByteOrder::Big => (b[3] + 256 * b[2] + 65536 * b[1] + 16777216 * b[0]) as nat,
    }
}

/// The four prefix bytes that stand for `n`.
pub open spec fn length_bytes(order: ByteOrder, n: nat) -> Seq<u8>
    recommends
        n <= MAX_PAYLOAD,
{
    let b0 = (n % 256) as u8;
    let b1 = ((n / 256) % 256) as u8;
    let b2 = ((n / 65536) % 256) as u8;
    let b3 = ((n / 16777216) % 256) as u8;
    match order {
        ByteOrder::Little => seq![b0, b1, b2, b3],
        ByteOrder::Big => seq![b3, b2, b1, b0],
    }
}

/// The frame that carries `payload`.
pub open spec fn encode_frame(order: ByteOrder, payload: Seq<u8>) -> Seq<u8> {
    length_bytes(order, payload.len()) + payload
}

/// Whether `s` starts with a whole frame.
pub open spec fn has_frame(order: ByteOrder, s: Seq<u8>) -> bool {
    s.len() >= 4 && s.len() - 4 >= length_value(order, s.subrange(0, 4))
}

/// The payload of the frame that `s` starts with.
pub open spec fn first_payload(order: ByteOrder, s: Seq<u8>) -> Seq<u8> {
    s.subrange(4, 4 + length_value(order, s.subrange(0, 4)) as int)
}

/// What is left of `s` after the frame that it starts with.
pub open spec fn after_first(order: ByteOrder, s: Seq<u8>) -> Seq<u8> {
    s.subrange(4 + length_value(order, s.subrange(0, 4)) as int, s.len() as int)
}

/// The payloads of the whole frames at the front of `s`, in order.
pub open spec fn payloads(order: ByteOrder, s: Seq<u8>) -> Seq<Seq<u8>>
    decreases s.len(),
{
    if has_frame(order, s) {
        seq![first_payload(order, s)] + payloads(order, after_first(order, s))
    } else {
        Seq::empty()
    }
}

/// The bytes that stay after every whole frame at the front of `s`.
pub open spec fn leftover(order: ByteOrder, s: Seq<u8>) -> Seq<u8>
    decreases s.len(),
{
    if has_frame(order, s) {
        leftover(order, after_first(order, s))
    } else {
        s
    }
}

proof fn lemma_length_round_trip(order: ByteOrder, n: nat)
    requires
        n <= MAX_PAYLOAD,
    ensures
        length_bytes(order, n).len() == 4,
        length_value(order, length_bytes(order, n)) == n,
{
    let b0 = n % 256;
    let b1 = (n / 256) % 256;
    let b2 = (n / 65536) % 256;
    let b3 = (n / 16777216) % 256;
    assert(b0 + 256 * b1 + 65536 * b2 + 16777216 * b3 == n) by (nonlinear_arith)
        requires
            n <= 0xffff_ffff,
            b0 == n % 256,
            b1 == (n / 256) % 256,
            b2 == (n / 65536) % 256,
            b3 == (n / 16777216) % 256,
    ;
}

/// Reading back the frame written for `payload`, followed by any bytes, gives
/// `payload` and leaves exactly those bytes.
pub proof fn lemma_frame_round_trip(order: ByteOrder, payload: Seq<u8>, rest: Seq<u8>)
    requires
        payload.len() <= MAX_PAYLOAD,
    ensures
        has_frame(order, encode_frame(order, payload) + rest),
        first_payload(order, encode_frame(order, payload) + rest) == payload,
        after_first(order, encode_frame(order, payload) + rest) == rest,
{
    lemma_length_round_trip(order, payload.len());
    let s = encode_frame(order, payload) + rest;
    assert(s.subrange(0, 4) == length_bytes(order, payload.len()));
    assert(first_payload(order, s) == payload);
    assert(after_first(order, s) == rest);
}

/// A stream of frames written one after another reads back as the same
/// payloads, with nothing left over.
pub proof fn lemma_stream_round_trip(order: ByteOrder, ps: Seq<Seq<u8>>)
    requires
        forall|i: int| 0 <= i < ps.len() ==> (#[trigger] ps[i]).len() <= MAX_PAYLOAD,
    ensures
        payloads(order, encode_stream(order, ps)) == ps,
        leftover(order, encode_stream(order, ps)) == Seq::<u8>::empty(),
    decreases ps.len(),
{
    if ps.len() == 0 {
        assert(!has_frame(order, Seq::<u8>::empty()));
    } else {
        let tail = ps.drop_first();
        assert(ps[0].len() <= MAX_PAYLOAD);
        lemma_stream_round_trip(order, tail);
        lemma_frame_round_trip(order, ps[0], encode_stream(order, tail));
        assert(seq![ps[0]] + tail == ps);
    }
}

/// The bytes of the frames for `ps`, one after another.
pub open spec fn encode_stream(order: ByteOrder, ps: Seq<Seq<u8>>) -> Seq<u8>
    decreases ps.len(),
{
    if ps.len() == 0 {
        Seq::empty()
    } else {
        encode_frame(order, ps[0]) + encode_stream(order, ps.drop_first())
    }
}

/// Reads a length prefix from the first four bytes of `bytes`; `None` where
/// fewer than four are there.
pub fn read_length(bytes: &[u8], order: ByteOrder) -> (r: Option<u32>)
    ensures
        bytes@.len() < 4 ==> r is None,
        bytes@.len() >= 4 ==> r == Some(length_value(order, bytes@.subrange(0, 4)) as u32),
        r matches Some(n) ==> n == length_value(order, bytes@.subrange(0, 4)),
{
    if bytes.len() < 4 {
        return None;
    }
    let (b0, b1, b2, b3) = match order {
        ByteOrder::Little => (bytes[0] as u32, bytes[1] as u32, bytes[2] as u32, bytes[3] as u32),
        ByteOrder::Big => (bytes[3] as u32, bytes[2] as u32, bytes[1] as u32, bytes[0] as u32),
    };
    Some(b0 + 256 * b1 + 65536 * b2 + 16777216 * b3)
}

/// Reads `length` bytes of `bytes` from `start` on; `None` where fewer are there.
pub fn read_bytes(bytes: &[u8], start: usize, length: usize) -> (r: Option<Vec<u8>>)
    ensures
        (start <= bytes@.len() && length <= bytes@.len() - start) <==> r is Some,
        r matches Some(v) ==> v@ == bytes@.subrange(start as int, start + length),
{
    if start > bytes.len() || length > bytes.len() - start {
        return None;
    }
    let end = start + length;
    let mut out: Vec<u8> = Vec::new();
    let mut i: usize = start;
    while i < end
        invariant
            start <= i <= end <= bytes@.len(),
            out@ == bytes@.subrange(start as int, i as int),
        decreases end - i,
    {
        out.push(bytes[i]);
        i = i + 1;
        assert(bytes@.subrange(start as int, i as int) == bytes@.subrange(start as int, i - 1) + seq![bytes@[i - 1]]);
    }
    Some(out)
}

/// Frames `bytes`: its length prefix followed by the bytes themselves.
pub fn write_message_bytes(bytes: &[u8], order: ByteOrder) -> (r: Result<Vec<u8>, FrameError>)
    ensures
        bytes@.len() > MAX_PAYLOAD <==> r == Err::<Vec<u8>, FrameError>(FrameError::TooLong),
        bytes@.len() <= MAX_PAYLOAD ==> r is Ok,
        r matches Ok(frame) ==> frame@ == encode_frame(order, bytes@),
{
    if bytes.len() as u64 > MAX_PAYLOAD {
        return Err(FrameError::TooLong);
    }
    let n = bytes.len() as u32;
    let b0 = (n % 256) as u8;
    let b1 = ((n / 256) % 256) as u8;
    let b2 = ((n / 65536) % 256) as u8;
    let b3 = ((n / 16777216) % 256) as u8;
    let mut frame: Vec<u8> = match order {
        ByteOrder::Little => vec![b0, b1, b2, b3],
        ByteOrder::Big => vec![b3, b2, b1, b0],
    };
    assert(frame@ == length_bytes(order, bytes@.len()));
    let mut i: usize = 0;
    while i < bytes.len()
        invariant
            i <= bytes@.len(),
            frame@ == length_bytes(order, bytes@.len()) + bytes@.subrange(0, i as int),
        decreases bytes@.len() - i,
    {
        frame.push(bytes[i]);
        i = i + 1;
        assert(bytes@.subrange(0, i as int) == bytes@.subrange(0, i - 1) + seq![bytes@[i - 1]]);
    }
    assert(bytes@.subrange(0, bytes@.len() as int) == bytes@);
    Ok(frame)
}

/// Cuts an incoming byte stream into frames as its bytes arrive.
pub struct FrameDecoder {
    order: ByteOrder,
    pending: Vec<u8>,
}

impl View for FrameDecoder {
    type V = Seq<u8>;

    /// The bytes received and not yet handed out as a frame.
    closed spec fn view(&self) -> Seq<u8> {
        self.pending@
    }
}

impl FrameDecoder {
    /// The byte order that the decoder reads length prefixes in.
    pub closed spec fn spec_order(&self) -> ByteOrder {
        self.order
    }

    /// A decoder that has received nothing yet.
    pub fn new(order: ByteOrder) -> (r: FrameDecoder)
        ensures
            r@ == Seq::<u8>::empty(),
            r.spec_order() == order,
    {
        FrameDecoder { order, pending: Vec::new() }
    }

    /// Appends bytes that arrived from the stream.
    pub fn push(&mut self, bytes: &[u8])
        ensures
            final(self)@ == old(self)@ + bytes@,
            final(self).spec_order() == old(self).spec_order(),
    {
        let mut i: usize = 0;
        while i < bytes.len()
            invariant
                i <= bytes@.len(),
                self.order == old(self).order,
                self.pending@ == old(self).pending@ + bytes@.subrange(0, i as int),
            decreases bytes@.len() - i,
        {
            self.pending.push(bytes[i]);
            i = i + 1;
            assert(bytes@.subrange(0, i as int) == bytes@.subrange(0, i - 1) + seq![bytes@[i - 1]]);
        }
        assert(bytes@.subrange(0, bytes@.len() as int) == bytes@);
    }

    /// Hands out the payload of the next whole frame, if one has arrived.
    pub fn read_message_bytes(&mut self) -> (r: Option<Vec<u8>>)
        ensures
            final(self).spec_order() == old(self).spec_order(),
            has_frame(old(self).spec_order(), old(self)@) ==> r is Some,
            r is None ==> final(self)@ == old(self)@,
            r matches Some(p) ==> p@ == first_payload(old(self).spec_order(), old(self)@)
                && final(self)@ == after_first(old(self).spec_order(), old(self)@),
            r is Some ==> has_frame(old(self).spec_order(), old(self)@),
    {
        let n = match read_length(self.pending.as_slice(), self.order) {
            None => return None,
            Some(n) => n,
        };
        let payload = match read_bytes(self.pending.as_slice(), 4, n as usize) {
            Some(p) => p,
            None => return None,
        };
        let total = self.pending.len();
        let end = 4 + n as usize;
        let rest = match read_bytes(self.pending.as_slice(), end, total - end) {
            Some(r) => r,
            None => return None,
        };
        self.pending = rest;
        Some(payload)
    }

    /// Called when the stream has ended: fine where it ended between frames,
    /// an error where part of a frame is still waiting.
    pub fn finish(&self) -> (r: Result<(), FrameError>)
        ensures
            r is Ok <==> self@.len() == 0,
            r is Err ==> r == Err::<(), FrameError>(FrameError::Truncated),
    {
        if self.pending.len() == 0 {
            Ok(())
        } else {
            Err(FrameError::Truncated)
        }
    }
}

} // verus!
