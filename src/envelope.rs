//! Length-prefixed envelopes: one flags byte, a big-endian `u32` length and
//! the payload bytes.

use vstd::prelude::*;
use vstd::string::StringSliceAdditionalSpecFns;

verus! {

/// Size of the envelope header: the flags byte and the four length bytes.
pub const HEADER_LEN: usize = 5;

/// Bit of the flags byte that marks the end of a stream.
pub const END_STREAM_FLAG: u8 = 2;

/// One decoded envelope.
#[derive(Debug, Clone)]
pub struct Frame {
    pub flags: u8,
    pub payload: Vec<u8>,
}

impl View for Frame {
    type V = (u8, Seq<u8>);

    open spec fn view(&self) -> (u8, Seq<u8>) {
        (self.flags, self.payload@)
    }
}

/// The big-endian bytes of a 32-bit length.
pub open spec fn be_bytes(n: u32) -> Seq<u8> {
    seq![(n >> 24u32) as u8, (n >> 16u32) as u8, (n >> 8u32) as u8, n as u8]
}

/// The 32-bit length written big-endian in four bytes.
pub open spec fn be_value(b0: u8, b1: u8, b2: u8, b3: u8) -> u32 {
    ((b0 as u32) << 24u32) | ((b1 as u32) << 16u32) | ((b2 as u32) << 8u32) | (b3 as u32)
}

/// The length field of a buffer that holds at least a header.
pub open spec fn header_len_field(buf: Seq<u8>) -> int
    recommends
        buf.len() >= 5,
{
    be_value(buf[1], buf[2], buf[3], buf[4]) as int
}

/// The wire form of one envelope.
pub open spec fn frame_bytes(flags: u8, payload: Seq<u8>) -> Seq<u8>
    recommends
        payload.len() <= u32::MAX,
{
    seq![flags] + be_bytes(payload.len() as u32) + payload
}

/// Whether `buf` starts with a complete envelope.
pub open spec fn has_frame(buf: Seq<u8>) -> bool {
    buf.len() >= 5 && buf.len() >= 5 + header_len_field(buf)
}

/// The complete envelopes at the front of `buf`, in order, and the bytes
/// that are left after them (a partial envelope, or nothing).
pub open spec fn decode_spec(buf: Seq<u8>) -> (Seq<(u8, Seq<u8>)>, Seq<u8>)
    decreases buf.len(),
{
    if has_frame(buf) {
        let end = 5 + header_len_field(buf);
        let rest = decode_spec(buf.subrange(end, buf.len() as int));
        (seq![(buf[0], buf.subrange(5, end))] + rest.0, rest.1)
    } else {
        (Seq::empty(), buf)
    }
}

/// The views of a sequence of frames.
pub open spec fn frames_view(frames: Seq<Frame>) -> Seq<(u8, Seq<u8>)> {
    frames.map_values(|f: Frame| f@)
}

proof fn lemma_be_round_trip(n: u32)
    ensures
        be_value((n >> 24u32) as u8, (n >> 16u32) as u8, (n >> 8u32) as u8, n as u8) == n,
{
    assert(((((n >> 24u32) as u8) as u32) << 24u32) | ((((n >> 16u32) as u8) as u32) << 16u32)
        | ((((n >> 8u32) as u8) as u32) << 8u32) | ((n as u8) as u32) == n) by (bit_vector);
}

/// Decoding the encoding of a payload gives back exactly that payload, in
/// one envelope, with nothing left over.
pub proof fn lemma_round_trip(flags: u8, payload: Seq<u8>)
    requires
        payload.len() <= u32::MAX,
    ensures
        decode_spec(frame_bytes(flags, payload)) == (seq![(flags, payload)], Seq::<u8>::empty()),
{
    let buf = frame_bytes(flags, payload);
    let n = payload.len() as u32;
    lemma_be_round_trip(n);
    assert(buf[1] == (n >> 24u32) as u8);
    assert(buf[4] == n as u8);
    assert(header_len_field(buf) == payload.len());
    let end = 5 + payload.len() as int;
    assert(buf.subrange(5, end) =~= payload);
    let tail = buf.subrange(end, buf.len() as int);
    assert(tail =~= Seq::<u8>::empty());
    assert(decode_spec(tail) == (Seq::<(u8, Seq<u8>)>::empty(), tail));
    assert(decode_spec(buf).0 =~= seq![(flags, payload)]);
}

/// Splitting the input of the decoder anywhere and feeding the second part
/// after what the first part left gives the same envelopes, in the same
/// order, and the same leftover bytes, as decoding the whole at once.
pub proof fn lemma_split_feed(a: Seq<u8>, b: Seq<u8>)
    ensures
        decode_spec(a).0 + decode_spec(decode_spec(a).1 + b).0 == decode_spec(a + b).0,
        decode_spec(decode_spec(a).1 + b).1 == decode_spec(a + b).1,
    decreases a.len(),
{
    if has_frame(a) {
        let end = 5 + header_len_field(a);
        let a2 = a.subrange(end, a.len() as int);
        let ab = a + b;
        assert(ab[1] == a[1] && ab[2] == a[2] && ab[3] == a[3] && ab[4] == a[4]);
        assert(has_frame(ab));
        assert(ab.subrange(5, end) =~= a.subrange(5, end));
        assert(ab.subrange(end, ab.len() as int) =~= a2 + b);
        lemma_split_feed(a2, b);
        assert(decode_spec(a).0 + decode_spec(decode_spec(a).1 + b).0 =~= decode_spec(ab).0);
    } else {
        assert(decode_spec(a).0 + decode_spec(a + b).0 =~= decode_spec(a + b).0);
    }
}

/// Writes the envelope of `payload` with the given flags.
pub fn encode_frame(flags: u8, payload: &[u8]) -> (r: Vec<u8>)
    requires
        payload@.len() <= u32::MAX,
    ensures
        r@ == frame_bytes(flags, payload@),
{
    let n = payload.len() as u32;
    let mut out: Vec<u8> = Vec::new();
    out.push(flags);
    out.push((n >> 24u32) as u8);
    out.push((n >> 16u32) as u8);
    out.push((n >> 8u32) as u8);
    out.push(n as u8);
    let mut i: usize = 0;
    while i < payload.len()
        invariant
            i <= payload@.len(),
            n == payload@.len(),
            out@ == seq![flags] + be_bytes(n) + payload@.subrange(0, i as int),
        decreases payload@.len() - i,
    {
        out.push(payload[i]);
        i = i + 1;
        assert(payload@.subrange(0, i as int) =~= payload@.subrange(0, i - 1) + seq![payload@[i - 1]]);
        assert(out@ =~= seq![flags] + be_bytes(n) + payload@.subrange(0, i as int));
    }
    assert(payload@.subrange(0, i as int) =~= payload@);
    out
}

/// The envelope of one request message: flags 0 (a request never marks the
/// end of a stream), then the length and the message's bytes.
pub fn create_connect_envelope(data: &str) -> (r: Vec<u8>)
    requires
        data.spec_bytes().len() <= u32::MAX,
    ensures
        r@ == frame_bytes(0, data.spec_bytes()),
{
    let bytes = data.as_bytes();
    encode_frame(0, bytes)
}

/// Cuts the complete envelopes off the front of `buf`. Returns them in order
/// and the number of bytes they took; a partial envelope at the end is left
/// for a later call.
pub fn decode_frames(buf: &[u8]) -> (r: (Vec<Frame>, usize))
    ensures
        r.1 <= buf@.len(),
        frames_view(r.0@) == decode_spec(buf@).0,
        buf@.subrange(r.1 as int, buf@.len() as int) == decode_spec(buf@).1,
{
    let mut frames: Vec<Frame> = Vec::new();
    let mut pos: usize = 0;
    let ghost whole = buf@;
    assert(buf@.subrange(0, buf@.len() as int) =~= buf@);
    assert(frames_view(frames@) + decode_spec(whole).0 =~= decode_spec(whole).0);
    loop
        invariant
            pos <= buf@.len(),
            whole == buf@,
            frames_view(frames@) + decode_spec(buf@.subrange(pos as int, buf@.len() as int)).0
                == decode_spec(whole).0,
            decode_spec(buf@.subrange(pos as int, buf@.len() as int)).1 == decode_spec(whole).1,
        decreases buf@.len() - pos,
    {
        let ghost rest = buf@.subrange(pos as int, buf@.len() as int);
        if buf.len() - pos < HEADER_LEN {
            assert(!has_frame(rest));
            assert(frames_view(frames@) + Seq::empty() =~= frames_view(frames@));
            return (frames, pos);
        }
        let len = ((buf[pos + 1] as u32) << 24u32) | ((buf[pos + 2] as u32) << 16u32)
            | ((buf[pos + 3] as u32) << 8u32) | (buf[pos + 4] as u32);
        assert(len as int == header_len_field(rest));
        if buf.len() - pos - HEADER_LEN < len as usize {
            assert(!has_frame(rest));
            assert(frames_view(frames@) + Seq::empty() =~= frames_view(frames@));
            return (frames, pos);
        }
        let start = pos + HEADER_LEN;
        let end = start + len as usize;
        let mut payload: Vec<u8> = Vec::new();
        let mut i: usize = start;
        while i < end
            invariant
                start <= i <= end <= buf@.len(),
                payload@ == buf@.subrange(start as int, i as int),
            decreases end - i,
        {
            payload.push(buf[i]);
            i = i + 1;
            assert(payload@ =~= buf@.subrange(start as int, i as int));
        }
        let frame = Frame { flags: buf[pos], payload };
        let ghost end_rel = 5 + header_len_field(rest);
        assert(rest.subrange(5, end_rel) =~= buf@.subrange(start as int, end as int));
        assert(rest.subrange(end_rel, rest.len() as int) =~= buf@.subrange(end as int, buf@.len() as int));
        let ghost old_frames = frames@;
        frames.push(frame);
        assert(frames_view(frames@) =~= frames_view(old_frames) + seq![(buf@[pos as int], buf@.subrange(start as int, end as int))]);
        pos = end;
        assert(frames_view(frames@) + decode_spec(buf@.subrange(pos as int, buf@.len() as int)).0
            =~= frames_view(old_frames) + decode_spec(rest).0);
    }
}

} // verus!
