//! Length-prefixed framing of the JSON-RPC messages.
//!
//! A frame is a 4-byte big-endian length followed by that many payload
//! bytes. The payload itself is the JSON text of a request or response.

use vstd::prelude::*;
use crate::error::SanctumError;
use crate::text::{decimal, decimal_digits};

verus! {

/// Largest payload, in bytes, that a reader accepts (16 MiB).
pub const MAX_FRAME_LEN: usize = 16777216;

/// The big-endian bytes of `x`, which fits in 32 bits.
pub open spec fn be_u32_bytes(x: nat) -> Seq<u8> {
    seq![
        (x / 0x1000000) as u8,
        ((x / 0x10000) % 0x100) as u8,
        ((x / 0x100) % 0x100) as u8,
        (x % 0x100) as u8,
    ]
}

/// The number whose big-endian bytes are the first four of `b`.
pub open spec fn be_u32_value(b: Seq<u8>) -> nat {
    (b[0] * 0x1000000 + b[1] * 0x10000 + b[2] * 0x100 + b[3]) as nat
}

/// The length prefix written for a payload of `len` bytes: the length
/// reduced to 32 bits.
pub open spec fn length_prefix(len: nat) -> Seq<u8> {
    be_u32_bytes(len % 0x1_0000_0000)
}

/// The frame that carries `payload`.
pub open spec fn frame(payload: Seq<u8>) -> Seq<u8> {
    length_prefix(payload.len()) + payload
}

/// The payload length that the prefix of `data` declares.
pub open spec fn declared_len(data: Seq<u8>) -> nat {
    be_u32_value(data.take(4))
}

/// The payload of the frame at the start of `data`, if `data` holds a
/// whole frame; bytes after the frame are ignored.
pub open spec fn frame_payload(data: Seq<u8>) -> Option<Seq<u8>> {
    if data.len() < 4 {
        None
    } else if data.len() - 4 < declared_len(data) {
        None
    } else {
        Some(data.subrange(4, 4 + declared_len(data) as int))
    }
}

/// The message of the error that `decode` reports for `data`.
pub open spec fn frame_error_text(data: Seq<u8>) -> Seq<char> {
    if data.len() < 4 {
        "frame too short"@
    } else {
        "incomplete frame"@
    }
}

/// The message of the error that a reader reports for a declared length
/// above the limit.
pub open spec fn frame_too_large_text(len: nat) -> Seq<char> {
    "frame too large: "@ + decimal_digits(len) + " bytes"@
}

/// Big-endian bytes of `x`.
pub fn u32_to_be_bytes(x: u32) -> (b: [u8; 4])
    ensures
        b@ == be_u32_bytes(x as nat),
{
    let b = [
        (x / 0x1000000) as u8,
        ((x / 0x10000) % 0x100) as u8,
        ((x / 0x100) % 0x100) as u8,
        (x % 0x100) as u8,
    ];
    assert(b@ =~= be_u32_bytes(x as nat));
    b
}

/// The number with big-endian bytes `b`.
pub fn u32_from_be_bytes(b: [u8; 4]) -> (x: u32)
    ensures
        x as nat == be_u32_value(b@),
{
    (b[0] as u32) * 0x1000000 + (b[1] as u32) * 0x10000 + (b[2] as u32) * 0x100 + (b[3] as u32)
}

/// Wraps a payload (the JSON text of a request) in a frame: its length
/// as 4 big-endian bytes, then the payload.
///
/// A payload of 4 GiB or more gets the low 32 bits of its length as prefix.
pub fn encode(payload: &[u8]) -> (encoded: Vec<u8>)
    ensures
        encoded@ == frame(payload@),
        encoded@.len() == payload@.len() + 4,
        encoded@.subrange(4, encoded@.len() as int) == payload@,
        encoded@[0] == ((payload@.len() % 0x1_0000_0000) / 0x1000000) as u8,
        encoded@[1] == (((payload@.len() % 0x1_0000_0000) / 0x10000) % 0x100) as u8,
        encoded@[2] == (((payload@.len() % 0x1_0000_0000) / 0x100) % 0x100) as u8,
        encoded@[3] == ((payload@.len() % 0x1_0000_0000) % 0x100) as u8,
{
    let len: u64 = (payload.len() as u64) % 0x1_0000_0000u64;
    let prefix = u32_to_be_bytes(len as u32);
    let mut out: Vec<u8> = Vec::new();
    out.push(prefix[0]);
    out.push(prefix[1]);
    out.push(prefix[2]);
    out.push(prefix[3]);
    assert(out@ =~= length_prefix(payload@.len()));
    let mut i: usize = 0;
    while i < payload.len()
        invariant
            i <= payload@.len(),
            out@ =~= length_prefix(payload@.len()) + payload@.take(i as int),
        decreases payload@.len() - i,
    {
        out.push(payload[i]);
        i += 1;
        assert(payload@.take(i as int) =~= payload@.take(i - 1).push(payload@[i - 1]));
    }
    assert(payload@.take(payload@.len() as int) =~= payload@);
    out
}

/// Takes the payload out of the frame at the start of `data`.
///
/// Fails with a protocol error when `data` is shorter than the prefix
/// ("frame too short") or than the payload the prefix declares
/// ("incomplete frame"). Bytes after the frame are ignored.
pub fn decode(data: &[u8]) -> (result: Result<Vec<u8>, SanctumError>)
    ensures
        match result {
            Ok(payload) => {
                &&& frame_payload(data@) == Some(payload@)
                &&& 4 + declared_len(data@) <= data@.len()
                &&& payload@ == data@.subrange(4, 4 + declared_len(data@) as int)
            },
            Err(e) => frame_payload(data@) is None && (e matches SanctumError::Protocol(m)
                && m@ == frame_error_text(data@)),
        },
{
    if data.len() < 4 {
        return Err(SanctumError::Protocol(String::from_str("frame too short")));
    }
    let header = [data[0], data[1], data[2], data[3]];
    assert(header@ =~= data@.take(4));
    let len = u32_from_be_bytes(header) as usize;
    if data.len() - 4 < len {
        return Err(SanctumError::Protocol(String::from_str("incomplete frame")));
    }
    let mut out: Vec<u8> = Vec::new();
    let mut i: usize = 0;
    while i < len
        invariant
            4 + len <= data.len(),
            i <= len,
            out@ =~= data@.subrange(4, 4 + i),
        decreases len - i,
    {
        out.push(data[4 + i]);
        i += 1;
    }
    Ok(out)
}

/// Reads the payload length from a frame's 4-byte prefix, refusing a
/// length above `MAX_FRAME_LEN` with "frame too large: N bytes".
pub fn frame_len_from_header(header: [u8; 4]) -> (result: Result<usize, SanctumError>)
    ensures
        match result {
            Ok(n) => n == be_u32_value(header@) && n <= MAX_FRAME_LEN,
            Err(e) => be_u32_value(header@) > MAX_FRAME_LEN && (e matches SanctumError::Protocol(m)
                && m@ == frame_too_large_text(be_u32_value(header@))),
        },
{
    let len = u32_from_be_bytes(header) as usize;
    if len > MAX_FRAME_LEN {
        let mut m = String::from_str("frame too large: ");
        let digits = decimal(len);
        m.append(digits.as_str());
        m.append(" bytes");
        return Err(SanctumError::Protocol(m));
    }
    Ok(len)
}

/// Reading the big-endian bytes of a 32-bit number gives the number back.
pub proof fn lemma_be_u32_value_of_bytes(x: nat)
    requires
        x < 0x1_0000_0000,
    ensures
        be_u32_value(be_u32_bytes(x)) == x,
{
    let b = be_u32_bytes(x);
    assert(b[0] == x / 0x1000000);
    assert(b[1] == (x / 0x10000) % 0x100);
    assert(b[2] == (x / 0x100) % 0x100);
    assert(b[3] == x % 0x100);
    assert((x / 0x1000000) * 0x1000000 + ((x / 0x10000) % 0x100) * 0x10000 + ((x / 0x100) % 0x100)
        * 0x100 + x % 0x100 == x) by (nonlinear_arith)
        requires
            x < 0x1_0000_0000,
    ;
}

/// Writing the big-endian bytes of the number that four bytes encode
/// gives those four bytes back.
pub proof fn lemma_be_u32_bytes_of_value(b: Seq<u8>)
    requires
        b.len() == 4,
    ensures
        be_u32_value(b) < 0x1_0000_0000,
        be_u32_bytes(be_u32_value(b)) == b,
{
    let x = be_u32_value(b);
    let (b0, b1, b2, b3) = (b[0] as int, b[1] as int, b[2] as int, b[3] as int);
    assert(x / 0x1000000 == b0 && (x / 0x10000) % 0x100 == b1 && (x / 0x100) % 0x100 == b2 && x
        % 0x100 == b3) by (nonlinear_arith)
        requires
            x == b0 * 0x1000000 + b1 * 0x10000 + b2 * 0x100 + b3,
            0 <= b0 < 256,
            0 <= b1 < 256,
            0 <= b2 < 256,
            0 <= b3 < 256,
    ;
    assert(be_u32_bytes(x) =~= b);
}

/// A frame decodes to the payload it was built from, whatever bytes
/// follow it, for every payload whose length fits the 32-bit prefix.
pub proof fn lemma_decode_encode(payload: Seq<u8>, rest: Seq<u8>)
    requires
        payload.len() < 0x1_0000_0000,
    ensures
        frame_payload(frame(payload) + rest) == Some(payload),
{
    let d = frame(payload) + rest;
    assert(d.take(4) =~= be_u32_bytes(payload.len()));
    lemma_be_u32_value_of_bytes(payload.len());
    assert(d.subrange(4, 4 + payload.len() as int) =~= payload);
}

/// Framing a decoded payload again gives back exactly the bytes of the
/// frame it was read from.
pub proof fn lemma_encode_decode(data: Seq<u8>)
    requires
        frame_payload(data) is Some,
    ensures
        frame(frame_payload(data)->0) == data.take(4 + declared_len(data) as int),
{
    let p = frame_payload(data)->0;
    lemma_be_u32_bytes_of_value(data.take(4));
    assert(p.len() == declared_len(data));
    assert(p.len() % 0x1_0000_0000 == p.len());
    assert(frame(p) =~= data.take(4 + declared_len(data) as int));
}

/// A frame that a writer produces for a payload within `MAX_FRAME_LEN`
/// passes the reader's size check, which then expects exactly that payload
/// length.
pub proof fn lemma_frame_header_accepted(payload: Seq<u8>)
    requires
        payload.len() <= MAX_FRAME_LEN,
    ensures
        declared_len(frame(payload)) == payload.len(),
        declared_len(frame(payload)) <= MAX_FRAME_LEN,
{
    assert(frame(payload).take(4) =~= be_u32_bytes(payload.len()));
    lemma_be_u32_value_of_bytes(payload.len());
}

/// A frame is the payload byte for byte after a 4-byte prefix that holds
/// the payload's length (reduced to 32 bits) big-endian, most significant
/// byte first.
pub proof fn lemma_frame_layout(payload: Seq<u8>)
    ensures
        frame(payload).len() == payload.len() + 4,
        frame(payload).subrange(4, frame(payload).len() as int) == payload,
        forall|k: int| 0 <= k < payload.len() ==> frame(payload)[4 + k] == #[trigger] payload[k],
        frame(payload)[0] == ((payload.len() % 0x1_0000_0000) / 0x1000000) as u8,
        frame(payload)[1] == (((payload.len() % 0x1_0000_0000) / 0x10000) % 0x100) as u8,
        frame(payload)[2] == (((payload.len() % 0x1_0000_0000) / 0x100) % 0x100) as u8,
        frame(payload)[3] == ((payload.len() % 0x1_0000_0000) % 0x100) as u8,
        be_u32_value(frame(payload).take(4)) == payload.len() % 0x1_0000_0000,
{
    let f = frame(payload);
    assert(f.subrange(4, f.len() as int) =~= payload);
    assert(f.take(4) =~= be_u32_bytes(payload.len() % 0x1_0000_0000));
    lemma_be_u32_value_of_bytes(payload.len() % 0x1_0000_0000);
}

/// What a frame carries is the run of bytes right after its 4-byte prefix,
/// as long as the prefix declares, unchanged.
pub proof fn lemma_frame_payload_is_body(data: Seq<u8>)
    ensures
        frame_payload(data) is Some <==> (data.len() >= 4 && data.len() - 4 >= be_u32_value(
            data.take(4),
        )),
        frame_payload(data) is Some ==> frame_payload(data)->0 == data.subrange(
            4,
            4 + be_u32_value(data.take(4)) as int,
        ),
        frame_payload(data) is Some ==> forall|k: int|
            0 <= k < frame_payload(data)->0.len() ==> #[trigger] frame_payload(data)->0[k] == data[4
                + k],
{
}

} // verus!
