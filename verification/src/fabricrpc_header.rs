//! The RPC header codec: a deterministic, schema-based binary format with
//! forward- and backward-compatible field encoding.
//!
//! A request header carries one field, the target URL (field 1, text). A
//! reply header carries a status code (field 1, thirty-two bit signed varint)
//! and a status message (field 2, text). Fields equal to their default are
//! left off the wire; a decoder reading a newer message skips fields it does
//! not know, and refuses text fields that are not well-formed UTF-8 and
//! varints longer than ten bytes. Decode failure is an ordinary error value,
//! never a panic.

use vstd::arithmetic::div_mod::{lemma_mod_multiples_vanish, lemma_small_mod};
use vstd::prelude::*;
use vstd::slice::{slice_subrange, slice_to_vec};
use vstd::utf8::valid_utf8;

use crate::text::check_utf8;
use crate::varint::{
    lemma_varint_decode_bounds, lemma_varint_encode_len, lemma_varint_roundtrip, read_varint,
    spec_varint_decode_u64, spec_varint_encode, write_varint,
};

verus! {

/// A header that could not be read as its schema demands.
#[derive(Clone, Copy, Debug, PartialEq, Eq)]
pub struct DecodeError;

// ---------------------------------------------------------------------------
// Thirty-two bit signed values on the wire.
//
// A signed field rides the wire as a sixty-four bit varint: non-negative
// values as themselves, negative values sign-extended (two's complement).
// Reading takes the low thirty-two bits back, signed.
// ---------------------------------------------------------------------------

/// The varint value that carries `n`, for `n` in thirty-two bit signed range.
pub open spec fn spec_int32_to_wire(n: int) -> nat
    recommends
        -0x8000_0000 <= n < 0x8000_0000,
{
    if n >= 0 {
        n as nat
    } else {
        (n + 0x1_0000_0000_0000_0000) as nat
    }
}

/// The signed value read from a varint: its low thirty-two bits, signed.
pub open spec fn spec_wire_to_int32(v: nat) -> int {
    if v % 0x1_0000_0000 < 0x8000_0000 {
        (v % 0x1_0000_0000) as int
    } else {
        v % 0x1_0000_0000 - 0x1_0000_0000
    }
}

/// Reading undoes writing for every thirty-two bit signed value.
pub proof fn lemma_int32_wire_roundtrip(n: i32)
    ensures
        spec_wire_to_int32(spec_int32_to_wire(n as int)) == n as int,
{
    if n >= 0 {
        lemma_small_mod(n as nat, 0x1_0000_0000);
    } else {
        // 2^64 + n == 2^32 * (2^32 - 1) + (2^32 + n), so only the low part
        // survives the reduction.
        lemma_mod_multiples_vanish(0xFFFF_FFFF, 0x1_0000_0000 + n, 0x1_0000_0000);
        lemma_small_mod((0x1_0000_0000 + n) as nat, 0x1_0000_0000);
    }
}

fn int32_to_wire(n: i32) -> (r: u64)
    ensures
        r as nat == spec_int32_to_wire(n as int),
{
    if n >= 0 {
        n as u64
    } else {
        let neg: u64 = (-(n as i64)) as u64;
        u64::MAX - neg + 1
    }
}

fn wire_to_int32(v: u64) -> (r: i32)
    ensures
        r as int == spec_wire_to_int32(v as nat),
{
    let low: u64 = v % 0x1_0000_0000;
    if low < 0x8000_0000 {
        low as i32
    } else {
        ((low as i64) - 0x1_0000_0000i64) as i32
    }
}

// ---------------------------------------------------------------------------
// Fields. A field starts with a key varint: field number shifted left by
// three, wire type in the low bits. Wire type 0 is a varint, 1 an eight-byte
// value, 2 a length-prefixed byte run, 5 a four-byte value.
// ---------------------------------------------------------------------------

/// Reads a length-prefixed byte run from the front of `s`: the bytes and the
/// total length consumed.
pub open spec fn spec_read_len_delim(s: Seq<u8>) -> Option<(Seq<u8>, int)> {
    match spec_varint_decode_u64(s) {
        Some(r) => if r.1 + r.0 <= s.len() {
            Some((s.skip(r.1).take(r.0 as int), r.1 + r.0))
        } else {
            None
        },
        None => None,
    }
}

/// How many bytes the body of a field of wire type `wire` takes at the front
/// of `s`, or `None` when it cannot be skipped.
pub open spec fn spec_skip_field(s: Seq<u8>, wire: int) -> Option<int> {
    if wire == 0 {
        match spec_varint_decode_u64(s) {
            Some(r) => Some(r.1),
            None => None,
        }
    } else if wire == 1 {
        if s.len() >= 8 {
            Some(8)
        } else {
            None
        }
    } else if wire == 2 {
        match spec_read_len_delim(s) {
            Some(p) => Some(p.1),
            None => None,
        }
    } else if wire == 5 {
        if s.len() >= 4 {
            Some(4)
        } else {
            None
        }
    } else {
        None
    }
}

pub proof fn lemma_read_len_delim_bounds(s: Seq<u8>)
    ensures
        spec_read_len_delim(s) matches Some(p) ==> 1 <= p.1 <= s.len(),
{
    lemma_varint_decode_bounds(s);
}

pub proof fn lemma_skip_field_bounds(s: Seq<u8>, wire: int)
    ensures
        spec_skip_field(s, wire) matches Some(k) ==> 1 <= k <= s.len(),
{
    lemma_varint_decode_bounds(s);
    lemma_read_len_delim_bounds(s);
}

// ---------------------------------------------------------------------------
// The request header: `{ url: bytes }`, url on field 1.
// ---------------------------------------------------------------------------

/// Wire bytes of a request header with URL `url`. An empty URL, the default,
/// stays off the wire.
pub open spec fn spec_encode_request(url: Seq<u8>) -> Seq<u8> {
    if url.len() == 0 {
        Seq::<u8>::empty()
    } else {
        seq![10u8] + spec_varint_encode(url.len()) + url
    }
}

/// Walks the fields of a request header; `url` holds the value read so far,
/// an empty run until field 1 arrives.
pub open spec fn spec_request_fields(s: Seq<u8>, url: Seq<u8>) -> Option<Seq<u8>>
    decreases s.len(),
{
    if s.len() == 0 {
        Some(url)
    } else {
        match spec_varint_decode_u64(s) {
            None => None,
            Some(key) => {
                let rest = s.skip(key.1);
                proof {
                    lemma_varint_decode_bounds(s);
                    lemma_varint_decode_bounds(rest);
                    lemma_read_len_delim_bounds(rest);
                    lemma_skip_field_bounds(rest, key.0 as int % 8);
                }
                if key.0 / 8 == 1 && key.0 % 8 == 2 {
                    match spec_read_len_delim(rest) {
                        Some(p) => if valid_utf8(p.0) {
                            spec_request_fields(rest.skip(p.1), p.0)
                        } else {
                            None
                        },
                        None => None,
                    }
                } else {
                    match spec_skip_field(rest, key.0 as int % 8) {
                        Some(k) => spec_request_fields(rest.skip(k), url),
                        None => None,
                    }
                }
            },
        }
    }
}

/// What a request header's bytes mean: the URL, or `None` on malformed input.
/// A header without field 1 means the default, an empty URL.
pub open spec fn spec_decode_request(s: Seq<u8>) -> Option<Seq<u8>> {
    spec_request_fields(s, Seq::<u8>::empty())
}

// ---------------------------------------------------------------------------
// The reply header: `{ status_code: int32, status_message: bytes }`,
// code on field 1, message on field 2.
// ---------------------------------------------------------------------------

/// Wire bytes of a reply header. Fields holding their default (code zero,
/// empty message) stay off the wire.
pub open spec fn spec_encode_reply(code: int, msg: Seq<u8>) -> Seq<u8>
    recommends
        -0x8000_0000 <= code < 0x8000_0000,
{
    spec_reply_code_part(code) + spec_reply_msg_part(msg)
}

pub open spec fn spec_reply_code_part(code: int) -> Seq<u8> {
    if code == 0 {
        Seq::<u8>::empty()
    } else {
        seq![8u8] + spec_varint_encode(spec_int32_to_wire(code))
    }
}

pub open spec fn spec_reply_msg_part(msg: Seq<u8>) -> Seq<u8> {
    if msg.len() == 0 {
        Seq::<u8>::empty()
    } else {
        seq![18u8] + spec_varint_encode(msg.len()) + msg
    }
}

/// Walks the fields of a reply header; `code` and `msg` hold the raw values
/// read so far.
pub open spec fn spec_reply_fields(s: Seq<u8>, code: u64, msg: Seq<u8>) -> Option<(u64, Seq<u8>)>
    decreases s.len(),
{
    if s.len() == 0 {
        Some((code, msg))
    } else {
        match spec_varint_decode_u64(s) {
            None => None,
            Some(key) => {
                let rest = s.skip(key.1);
                proof {
                    lemma_varint_decode_bounds(s);
                    lemma_varint_decode_bounds(rest);
                    lemma_read_len_delim_bounds(rest);
                    lemma_skip_field_bounds(rest, key.0 as int % 8);
                }
                if key.0 / 8 == 1 && key.0 % 8 == 0 {
                    match spec_varint_decode_u64(rest) {
                        Some(v) => spec_reply_fields(rest.skip(v.1), v.0, msg),
                        None => None,
                    }
                } else if key.0 / 8 == 2 && key.0 % 8 == 2 {
                    match spec_read_len_delim(rest) {
                        Some(p) => if valid_utf8(p.0) {
                            spec_reply_fields(rest.skip(p.1), code, p.0)
                        } else {
                            None
                        },
                        None => None,
                    }
                } else {
                    match spec_skip_field(rest, key.0 as int % 8) {
                        Some(k) => spec_reply_fields(rest.skip(k), code, msg),
                        None => None,
                    }
                }
            },
        }
    }
}

/// What a reply header's bytes mean: status code and message, or `None` on
/// malformed input. Missing fields mean their defaults: code zero, empty
/// message.
pub open spec fn spec_decode_reply(s: Seq<u8>) -> Option<(int, Seq<u8>)> {
    match spec_reply_fields(s, 0, Seq::<u8>::empty()) {
        Some(r) => Some((spec_wire_to_int32(r.0 as nat), r.1)),
        None => None,
    }
}

// ---------------------------------------------------------------------------
// Executable reading helpers.
// ---------------------------------------------------------------------------

fn read_len_delim(buf: &Vec<u8>, pos: usize) -> (r: Option<(Vec<u8>, usize)>)
    requires
        pos <= buf.len(),
    ensures
        match r {
            Some(v) => {
                &&& pos < v.1 <= buf.len()
                &&& spec_read_len_delim(buf@.skip(pos as int)) == Some((v.0@, v.1 - pos))
            },
            None => spec_read_len_delim(buf@.skip(pos as int)) is None,
        },
{
    let ghost s = buf@.skip(pos as int);
    match read_varint(buf, pos) {
        None => None,
        Some((len, vpos)) => {
            let rem = buf.len() - vpos;
            if len <= rem as u64 {
                let l = len as usize;
                let payload = slice_to_vec(slice_subrange(buf.as_slice(), vpos, vpos + l));
                proof {
                    assert(s.skip(vpos - pos) =~= buf@.skip(vpos as int));
                    assert(s.skip(vpos - pos).take(len as int) =~= buf@.subrange(
                        vpos as int,
                        vpos as int + l,
                    ));
                }
                Some((payload, vpos + l))
            } else {
                None
            }
        },
    }
}

fn skip_wire_value(buf: &Vec<u8>, pos: usize, wire: u64) -> (r: Option<usize>)
    requires
        pos <= buf.len(),
    ensures
        match r {
            Some(end) => {
                &&& pos <= end <= buf.len()
                &&& spec_skip_field(buf@.skip(pos as int), wire as int) == Some(end - pos)
            },
            None => spec_skip_field(buf@.skip(pos as int), wire as int) is None,
        },
{
    if wire == 0 {
        match read_varint(buf, pos) {
            Some((_v, end)) => Some(end),
            None => None,
        }
    } else if wire == 1 {
        if buf.len() - pos >= 8 {
            Some(pos + 8)
        } else {
            None
        }
    } else if wire == 2 {
        match read_len_delim(buf, pos) {
            Some((_p, end)) => Some(end),
            None => None,
        }
    } else if wire == 5 {
        if buf.len() - pos >= 4 {
            Some(pos + 4)
        } else {
            None
        }
    } else {
        None
    }
}

// ---------------------------------------------------------------------------
// The header types.
// ---------------------------------------------------------------------------

/// The request header: the target URL, schema-encoded into the message
/// header on the client, decoded on the server.
#[derive(Clone, Debug, PartialEq, Eq, Default)]
pub struct RequestHeader {
    pub url: Vec<u8>,
}

impl RequestHeader {
    /// The wire bytes of this header.
    pub fn encode(&self) -> (out: Vec<u8>)
        ensures
            out@ == spec_encode_request(self.url@),
    {
        let mut out: Vec<u8> = Vec::new();
        if self.url.len() > 0 {
            out.push(10u8);
            write_varint(&mut out, self.url.len() as u64);
            out.extend_from_slice(self.url.as_slice());
            assert(out@ =~= spec_encode_request(self.url@));
        } else {
            assert(out@ =~= spec_encode_request(self.url@));
        }
        out
    }

    /// Reads a header back from wire bytes; errors exactly on the inputs the
    /// schema refuses.
    pub fn decode(buf: &Vec<u8>) -> (r: Result<RequestHeader, DecodeError>)
        ensures
            match r {
                Ok(h) => spec_decode_request(buf@) == Some(h.url@),
                Err(_) => spec_decode_request(buf@) is None,
            },
    {
        let mut pos: usize = 0;
        let mut url: Vec<u8> = Vec::new();
        proof {
            assert(buf@.skip(0) =~= buf@);
        }
        loop
            invariant
                pos <= buf.len(),
                spec_request_fields(buf@.skip(pos as int), url@) == spec_decode_request(buf@),
            decreases buf.len() - pos,
        {
            let ghost s = buf@.skip(pos as int);
            if pos == buf.len() {
                assert(s =~= Seq::<u8>::empty());
                return Ok(RequestHeader { url });
            }
            match read_varint(buf, pos) {
                None => {
                    return Err(DecodeError);
                },
                Some((key, kend)) => {
                    proof {
                        assert(s.skip(kend - pos) =~= buf@.skip(kend as int));
                    }
                    if key / 8 == 1 && key % 8 == 2 {
                        match read_len_delim(buf, kend) {
                            None => {
                                return Err(DecodeError);
                            },
                            Some((payload, pend)) => {
                                if !check_utf8(&payload) {
                                    return Err(DecodeError);
                                }
                                proof {
                                    assert(buf@.skip(kend as int).skip(pend - kend) =~= buf@.skip(
                                        pend as int,
                                    ));
                                }
                                url = payload;
                                pos = pend;
                            },
                        }
                    } else {
                        match skip_wire_value(buf, kend, key % 8) {
                            None => {
                                return Err(DecodeError);
                            },
                            Some(send) => {
                                proof {
                                    assert(buf@.skip(kend as int).skip(send - kend) =~= buf@.skip(
                                        send as int,
                                    ));
                                }
                                pos = send;
                            },
                        }
                    }
                },
            }
        }
    }
}

/// The reply header: the RPC-level outcome, independent of the payload.
#[derive(Clone, Debug, PartialEq, Eq, Default)]
pub struct ReplyHeader {
    pub status_code: i32,
    pub status_message: Vec<u8>,
}

impl ReplyHeader {
    /// The wire bytes of this header.
    pub fn encode(&self) -> (out: Vec<u8>)
        ensures
            out@ == spec_encode_reply(self.status_code as int, self.status_message@),
    {
        let mut out: Vec<u8> = Vec::new();
        if self.status_code != 0 {
            out.push(8u8);
            let w = int32_to_wire(self.status_code);
            write_varint(&mut out, w);
        }
        assert(out@ =~= spec_reply_code_part(self.status_code as int));
        if self.status_message.len() > 0 {
            out.push(18u8);
            write_varint(&mut out, self.status_message.len() as u64);
            out.extend_from_slice(self.status_message.as_slice());
        }
        assert(out@ =~= spec_encode_reply(self.status_code as int, self.status_message@));
        out
    }

    /// Reads a header back from wire bytes; errors exactly on the inputs the
    /// schema refuses.
    pub fn decode(buf: &Vec<u8>) -> (r: Result<ReplyHeader, DecodeError>)
        ensures
            match r {
                Ok(h) => spec_decode_reply(buf@) == Some(
                    (h.status_code as int, h.status_message@),
                ),
                Err(_) => spec_decode_reply(buf@) is None,
            },
    {
        let mut pos: usize = 0;
        let mut code: u64 = 0;
        let mut msg: Vec<u8> = Vec::new();
        proof {
            assert(buf@.skip(0) =~= buf@);
        }
        loop
            invariant
                pos <= buf.len(),
                spec_reply_fields(buf@.skip(pos as int), code, msg@) == spec_reply_fields(
                    buf@,
                    0,
                    Seq::<u8>::empty(),
                ),
            decreases buf.len() - pos,
        {
            let ghost s = buf@.skip(pos as int);
            if pos == buf.len() {
                assert(s =~= Seq::<u8>::empty());
                let status_code = wire_to_int32(code);
                return Ok(ReplyHeader { status_code, status_message: msg });
            }
            match read_varint(buf, pos) {
                None => {
                    return Err(DecodeError);
                },
                Some((key, kend)) => {
                    proof {
                        assert(s.skip(kend - pos) =~= buf@.skip(kend as int));
                    }
                    if key / 8 == 1 && key % 8 == 0 {
                        match read_varint(buf, kend) {
                            None => {
                                return Err(DecodeError);
                            },
                            Some((v, vend)) => {
                                proof {
                                    assert(buf@.skip(kend as int).skip(vend - kend) =~= buf@.skip(
                                        vend as int,
                                    ));
                                }
                                code = v;
                                pos = vend;
                            },
                        }
                    } else if key / 8 == 2 && key % 8 == 2 {
                        match read_len_delim(buf, kend) {
                            None => {
                                return Err(DecodeError);
                            },
                            Some((payload, pend)) => {
                                if !check_utf8(&payload) {
                                    return Err(DecodeError);
                                }
                                proof {
                                    assert(buf@.skip(kend as int).skip(pend - kend) =~= buf@.skip(
                                        pend as int,
                                    ));
                                }
                                msg = payload;
                                pos = pend;
                            },
                        }
                    } else {
                        match skip_wire_value(buf, kend, key % 8) {
                            None => {
                                return Err(DecodeError);
                            },
                            Some(send) => {
                                proof {
                                    assert(buf@.skip(kend as int).skip(send - kend) =~= buf@.skip(
                                        send as int,
                                    ));
                                }
                                pos = send;
                            },
                        }
                    }
                },
            }
        }
    }
}

// ---------------------------------------------------------------------------
// Round trips: decoding undoes encoding on both headers.
// ---------------------------------------------------------------------------

/// For every well-formed URL — text whose length fits a varint — reading
/// back an encoded request header yields the URL unchanged.
pub proof fn lemma_request_roundtrip(url: Seq<u8>)
    requires
        url.len() <= u64::MAX,
        valid_utf8(url),
    ensures
        spec_decode_request(spec_encode_request(url)) == Some(url),
{
    if url.len() == 0 {
        assert(spec_encode_request(url) =~= Seq::<u8>::empty());
        assert(url =~= Seq::<u8>::empty());
    } else {
        let lenbytes = spec_varint_encode(url.len());
        lemma_varint_encode_len(url.len());
        let s = spec_encode_request(url);
        assert(s[0] == 10u8);
        assert(spec_varint_decode_u64(s) == Some((10u64, 1int)));
        assert(s.skip(1) =~= lenbytes + url);
        lemma_varint_roundtrip(url.len(), url);
        let ghost consumed = lenbytes.len() as int + url.len() as int;
        assert((lenbytes + url).skip(lenbytes.len() as int).take(url.len() as int) =~= url);
        assert((lenbytes + url).skip(consumed) =~= Seq::<u8>::empty());
        assert(spec_read_len_delim(lenbytes + url) == Some((url, consumed)));
        assert(spec_request_fields(Seq::<u8>::empty(), url) == Some(url));
    }
}

/// Reading the message part of a reply header keeps the code read so far and
/// yields the message.
proof fn lemma_reply_msg_part(code: u64, acc: Seq<u8>, msg: Seq<u8>)
    requires
        msg.len() <= u64::MAX,
        valid_utf8(msg),
    ensures
        msg.len() == 0 ==> spec_reply_fields(spec_reply_msg_part(msg), code, acc) == Some(
            (code, acc),
        ),
        msg.len() > 0 ==> spec_reply_fields(spec_reply_msg_part(msg), code, acc) == Some(
            (code, msg),
        ),
{
    if msg.len() == 0 {
        assert(spec_reply_msg_part(msg) =~= Seq::<u8>::empty());
    } else {
        let lenbytes = spec_varint_encode(msg.len());
        lemma_varint_encode_len(msg.len());
        let s = spec_reply_msg_part(msg);
        assert(s[0] == 18u8);
        assert(spec_varint_decode_u64(s) == Some((18u64, 1int)));
        assert(s.skip(1) =~= lenbytes + msg);
        lemma_varint_roundtrip(msg.len(), msg);
        let ghost consumed = lenbytes.len() as int + msg.len() as int;
        assert((lenbytes + msg).skip(lenbytes.len() as int).take(msg.len() as int) =~= msg);
        assert((lenbytes + msg).skip(consumed) =~= Seq::<u8>::empty());
        assert(spec_read_len_delim(lenbytes + msg) == Some((msg, consumed)));
        assert(spec_reply_fields(Seq::<u8>::empty(), code, msg) == Some((code, msg)));
    }
}

/// For every thirty-two bit status code and well-formed message — text
/// whose length fits a varint — reading back an encoded reply header
/// yields both unchanged.
pub proof fn lemma_reply_roundtrip(code: i32, msg: Seq<u8>)
    requires
        msg.len() <= u64::MAX,
        valid_utf8(msg),
    ensures
        spec_decode_reply(spec_encode_reply(code as int, msg)) == Some((code as int, msg)),
{
    let s = spec_encode_reply(code as int, msg);
    let msgpart = spec_reply_msg_part(msg);
    lemma_int32_wire_roundtrip(code);
    if code == 0 {
        assert(s =~= msgpart);
        lemma_reply_msg_part(0, Seq::<u8>::empty(), msg);
        if msg.len() == 0 {
            assert(msg =~= Seq::<u8>::empty());
        }
    } else {
        let w = spec_int32_to_wire(code as int);
        let wbytes = spec_varint_encode(w);
        lemma_varint_encode_len(w);
        assert(s[0] == 8u8);
        assert(spec_varint_decode_u64(s) == Some((8u64, 1int)));
        assert(s.skip(1) =~= wbytes + msgpart);
        lemma_varint_roundtrip(w, msgpart);
        assert(w <= u64::MAX);
        assert((wbytes + msgpart).skip(wbytes.len() as int) =~= msgpart);
        lemma_reply_msg_part(w as u64, Seq::<u8>::empty(), msg);
        if msg.len() == 0 {
            assert(msg =~= Seq::<u8>::empty());
        }
    }
}

} // verus!
