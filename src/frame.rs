//! Framing of the motor link.
//!
//! A request is `5A 5A cmd 04 v3 v2 v1 v0 crc A5 A5`, the value big-endian;
//! a response has the same shape with `len` payload bytes. The checksum is
//! CRC-8/CDMA2000 over the command, length and payload bytes.

use vstd::prelude::*;

verus! {

/// First two bytes of every frame.
pub const FRAME_HEAD: u8 = 0x5a;

/// Last two bytes of every frame.
pub const FRAME_TAIL: u8 = 0xa5;

/// The CRC-8/CDMA2000 checksum of a byte sequence.
pub uninterp spec fn crc8_of(data: Seq<u8>) -> u8;

/// Relies on `crc::Crc::<u8>::checksum` with the `CRC_8_CDMA2000` algorithm:
/// the checksum depends on the bytes alone.
#[verifier::external_body]
pub(crate) fn crc8(data: &[u8]) -> (r: u8)
    ensures
        r == crc8_of(data@),
{
    crc::Crc::<u8>::new(&crc::CRC_8_CDMA2000).checksum(data)
}

/// The four bytes of `v`, most significant first.
pub open spec fn be_i32(v: i32) -> Seq<u8> {
    let u = v as u32;
    seq![((u >> 24u32) & 0xffu32) as u8, ((u >> 16u32) & 0xffu32) as u8,
        ((u >> 8u32) & 0xffu32) as u8, (u & 0xffu32) as u8]
}

/// A frame carrying `body` (command, length, payload) with its checksum.
pub open spec fn framed(body: Seq<u8>) -> Seq<u8> {
    seq![FRAME_HEAD, FRAME_HEAD] + body + seq![crc8_of(body), FRAME_TAIL, FRAME_TAIL]
}

/// The request frame for command `cmd` with argument `value`.
pub open spec fn request_frame(cmd: u8, value: i32) -> Seq<u8> {
    framed(seq![cmd, 4u8] + be_i32(value))
}

/// The response frame for command `cmd` carrying `payload`.
pub open spec fn response_frame(cmd: u8, payload: Seq<u8>) -> Seq<u8>
    recommends
        payload.len() <= 255,
{
    framed(seq![cmd, payload.len() as u8] + payload)
}

/// The payload of a received frame, or `None` if the frame is short,
/// its header or trailer is wrong, or its checksum does not match.
pub open spec fn response_payload(raw: Seq<u8>) -> Option<Seq<u8>> {
    let t = raw.len();
    if t < 7 {
        None
    } else {
        let len = raw[3] as int;
        if raw[t - 3] != crc8_of(raw.subrange(2, t - 3)) || raw[0] != FRAME_HEAD
            || raw[1] != FRAME_HEAD || len + 7 > t || raw[len + 6] != FRAME_TAIL
            || raw[len + 5] != FRAME_TAIL {
            None
        } else {
            Some(raw.subrange(4, len + 4))
        }
    }
}

fn frame_body(body: &Vec<u8>) -> (r: Vec<u8>)
    ensures
        r@ == framed(body@),
{
    let crc = crc8(body.as_slice());
    let mut r: Vec<u8> = Vec::new();
    r.push(FRAME_HEAD);
    r.push(FRAME_HEAD);
    let mut i: usize = 0;
    while i < body.len()
        invariant
            i <= body@.len(),
            r@ == seq![FRAME_HEAD, FRAME_HEAD] + body@.subrange(0, i as int),
        decreases body@.len() - i,
    {
        r.push(body[i]);
        i += 1;
        assert(body@.subrange(0, i as int) == body@.subrange(0, i - 1) + seq![body@[i - 1]]);
    }
    r.push(crc);
    r.push(FRAME_TAIL);
    r.push(FRAME_TAIL);
    assert(body@.subrange(0, body@.len() as int) == body@);
    assert(r@ == framed(body@));
    r
}

/// Builds the eleven-byte request frame for `cmd` with argument `value`.
pub fn encode_request(cmd: u8, value: i32) -> (r: Vec<u8>)
    ensures
        r@ == request_frame(cmd, value),
        r@.len() == 11,
{
    let u = #[verifier::truncate] (value as u32);
    let mut body: Vec<u8> = Vec::new();
    body.push(cmd);
    body.push(4u8);
    body.push(((u >> 24u32) & 0xffu32) as u8);
    body.push(((u >> 16u32) & 0xffu32) as u8);
    body.push(((u >> 8u32) & 0xffu32) as u8);
    body.push((u & 0xffu32) as u8);
    assert(body@ == seq![cmd, 4u8] + be_i32(value));
    let r = frame_body(&body);
    assert(r@.len() == 11);
    r
}

/// Builds the response frame for `cmd` carrying `payload`, as the drive
/// sends it.
pub fn encode_response(cmd: u8, payload: &[u8]) -> (r: Vec<u8>)
    requires
        payload@.len() <= 255,
    ensures
        r@ == response_frame(cmd, payload@),
{
    let mut body: Vec<u8> = Vec::new();
    body.push(cmd);
    body.push(payload.len() as u8);
    body.extend_from_slice(payload);
    assert(body@ == seq![cmd, payload@.len() as u8] + payload@);
    frame_body(&body)
}

/// Validates a received frame and returns its payload; `None` when the
/// frame is shorter than seven bytes, its header or trailer is wrong, the
/// length byte points past the data, or the checksum does not match.
pub fn decode_response(raw: &[u8]) -> (r: Option<Vec<u8>>)
    ensures
        match r {
            Some(p) => response_payload(raw@) == Some(p@),
            None => response_payload(raw@) is None,
        },
{
    let t = raw.len();
    if t < 7 {
        return None;
    }
    let len = raw[3] as usize;
    let crc = crc8(&raw[2..t - 3]);
    if raw[t - 3] != crc || raw[0] != FRAME_HEAD || raw[1] != FRAME_HEAD || len + 7 > t
        || raw[len + 6] != FRAME_TAIL || raw[len + 5] != FRAME_TAIL {
        return None;
    }
    let mut p: Vec<u8> = Vec::new();
    let mut i: usize = 4;
    while i < len + 4
        invariant
            4 <= i <= len + 4,
            len + 7 <= t,
            t == raw@.len(),
            p@ == raw@.subrange(4, i as int),
        decreases len + 4 - i,
    {
        p.push(raw[i]);
        i += 1;
        assert(raw@.subrange(4, i as int) == raw@.subrange(4, i - 1) + seq![raw@[i - 1]]);
    }
    Some(p)
}

/// Decoding a response frame that the drive built gives back its payload.
pub proof fn lemma_response_round_trip(cmd: u8, payload: Seq<u8>)
    requires
        payload.len() <= 120,
    ensures
        response_payload(response_frame(cmd, payload)) == Some(payload),
{
    let body = seq![cmd, payload.len() as u8] + payload;
    let f = response_frame(cmd, payload);
    let len = payload.len() as int;
    assert(f.len() == len + 7);
    assert(f[3] as int == len);
    assert(f.subrange(2, len + 4) =~= body);
    assert(f.subrange(4, len + 4) =~= payload);
}

/// Flipping one bit of a response frame in its header, its checksum byte
/// or its trailer makes the frame rejected.
pub proof fn lemma_flip_outside_body_rejected(cmd: u8, payload: Seq<u8>, i: int, bit: u8)
    requires
        payload.len() <= 120,
        bit < 8,
        0 <= i < payload.len() + 7,
        i < 2 || i >= payload.len() + 4,
    ensures
        ({
            let f = response_frame(cmd, payload);
            response_payload(f.update(i, f[i] ^ (1u8 << bit))) is None
        }),
{
    let f = response_frame(cmd, payload);
    let b = f[i];
    let flipped = b ^ (1u8 << bit);
    assert(flipped != b) by (bit_vector)
        requires
            bit < 8,
            flipped == b ^ (1u8 << bit),
    ;
    let g = f.update(i, flipped);
    let len = payload.len() as int;
    assert(f.len() == len + 7);
    assert(g.len() == len + 7);
    assert(f[0] == FRAME_HEAD && f[1] == FRAME_HEAD);
    assert(f[len + 5] == FRAME_TAIL && f[len + 6] == FRAME_TAIL);
    assert(f.subrange(2, len + 4) =~= seq![cmd, payload.len() as u8] + payload);
    assert(f[len + 4] == crc8_of(f.subrange(2, len + 4)));
    assert(g[i] == flipped);
    if i >= 2 {
        assert(g[3] == f[3]);
        assert(f[3] as int == len);
        assert(g.subrange(2, len + 4) =~= f.subrange(2, len + 4));
        if i == len + 4 {
            assert(g[len + 4] != crc8_of(g.subrange(2, len + 4)));
        }
    }
}

} // verus!
