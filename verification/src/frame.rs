//! Length-prefixed framing for the control channel: a frame is a four-byte
//! big-endian payload length followed by the payload. The receiver
//! accumulates bytes and extracts the payload only once the whole frame has
//! arrived, so a slow or fragmented write is never misread as end-of-message.

use vstd::prelude::*;

verus! {

/// The four big-endian header bytes of a 32-bit payload length.
pub open spec fn spec_len_header(n: u32) -> Seq<u8> {
    seq![(n >> 24) as u8, (n >> 16) as u8, (n >> 8) as u8, n as u8]
}

/// A payload wrapped in its frame: the length header, then the payload.
pub open spec fn spec_frame(payload: Seq<u8>) -> Seq<u8>
    recommends
        payload.len() <= u32::MAX,
{
    spec_len_header(payload.len() as u32) + payload
}

/// The payload length announced by the first four bytes.
pub open spec fn spec_header_value(s: Seq<u8>) -> int
    recommends
        s.len() >= 4,
{
    s[0] * 0x1000000 + s[1] * 0x10000 + s[2] * 0x100 + s[3]
}

/// The payload of the first frame in `s`, if a whole frame has arrived.
pub open spec fn spec_parse_frame(s: Seq<u8>) -> Option<Seq<u8>> {
    if s.len() < 4 {
        None
    } else {
        let l = spec_header_value(s);
        if s.len() >= 4 + l {
            Some(s.subrange(4, 4 + l))
        } else {
            None
        }
    }
}

/// Wrap a payload in its frame.
pub fn frame_payload(payload: &[u8]) -> (r: Vec<u8>)
    requires
        payload@.len() <= u32::MAX,
    ensures
        r@ == spec_frame(payload@),
{
    let n: u32 = payload.len() as u32;
    let mut r: Vec<u8> = Vec::new();
    r.push((n >> 24) as u8);
    r.push((n >> 16) as u8);
    r.push((n >> 8) as u8);
    r.push(n as u8);
    proof {
        assert(r@ =~= spec_len_header(n) + payload@.take(0));
    }
    let mut i: usize = 0;
    while i < payload.len()
        invariant
            0 <= i <= payload@.len(),
            payload@.len() <= u32::MAX,
            n == payload@.len(),
            r@ == spec_len_header(n) + payload@.take(i as int),
        decreases payload@.len() - i,
    {
        r.push(payload[i]);
        proof {
            assert(r@ =~= spec_len_header(n) + payload@.take(i as int + 1));
        }
        i += 1;
    }
    proof {
        assert(payload@.take(payload@.len() as int) =~= payload@);
    }
    r
}

/// Extract the payload of the first frame in `buf`, or report that the
/// frame is still incomplete with `None`.
pub fn parse_frame(buf: &[u8]) -> (r: Option<Vec<u8>>)
    ensures
        match r {
            Some(p) => spec_parse_frame(buf@) == Some(p@),
            None => spec_parse_frame(buf@) is None,
        },
{
    if buf.len() < 4 {
        return None;
    }
    let b0 = buf[0];
    let b1 = buf[1];
    let b2 = buf[2];
    let b3 = buf[3];
    let l: u64 = ((b0 as u64) << 24) | ((b1 as u64) << 16) | ((b2 as u64) << 8) | (b3 as u64);
    proof {
        assert(((b0 as u64) << 24) | ((b1 as u64) << 16) | ((b2 as u64) << 8) | (b3 as u64)
            == (b0 as u64) * 0x1000000 + (b1 as u64) * 0x10000 + (b2 as u64) * 0x100 + (
        b3 as u64)) by (bit_vector);
    }
    if (buf.len() as u64) - 4 >= l {
        let l_us: usize = l as usize;
        let p = vstd::slice::slice_subrange(buf, 4, 4 + l_us);
        Some(vstd::slice::slice_to_vec(p))
    } else {
        None
    }
}

/// The header bytes of `n` announce exactly `n`.
proof fn lemma_len_header_value(n: u32)
    ensures
        spec_header_value(spec_len_header(n)) == n,
{
    assert((((n >> 24) as u8) as u64) * 0x1000000 + (((n >> 16) as u8) as u64) * 0x10000 + (((n
        >> 8) as u8) as u64) * 0x100 + ((n as u8) as u64) == n as u64) by (bit_vector);
}

/// Law: framing round-trips — once a whole frame has arrived, parsing
/// recovers exactly the framed payload, whatever bytes follow it.
pub proof fn lemma_parse_frame_round_trip(p: Seq<u8>, rest: Seq<u8>)
    requires
        p.len() <= u32::MAX,
    ensures
        spec_parse_frame(spec_frame(p) + rest) == Some(p),
{
    let n = p.len() as u32;
    let s = spec_frame(p) + rest;
    lemma_len_header_value(n);
    assert(s[0] == spec_len_header(n)[0]);
    assert(s[1] == spec_len_header(n)[1]);
    assert(s[2] == spec_len_header(n)[2]);
    assert(s[3] == spec_len_header(n)[3]);
    assert(spec_header_value(s) == p.len());
    assert(s.subrange(4, 4 + p.len() as int) =~= p);
}

/// Law: no truncation of a frame parses — until the last byte of the frame
/// has arrived, the receiver keeps waiting instead of guessing.
pub proof fn lemma_parse_frame_incomplete(p: Seq<u8>, n: int)
    requires
        p.len() <= u32::MAX,
        0 <= n < spec_frame(p).len(),
    ensures
        spec_parse_frame(spec_frame(p).take(n)) is None,
{
    let s = spec_frame(p);
    let t = s.take(n);
    if n >= 4 {
        lemma_len_header_value(p.len() as u32);
        assert(t[0] == spec_len_header(p.len() as u32)[0]);
        assert(t[1] == spec_len_header(p.len() as u32)[1]);
        assert(t[2] == spec_len_header(p.len() as u32)[2]);
        assert(t[3] == spec_len_header(p.len() as u32)[3]);
        assert(spec_header_value(t) == p.len());
        assert(t.len() < 4 + p.len());
    }
}

} // verus!
