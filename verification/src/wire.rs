//! The wire format of a message frame, as mathematics, and the laws that relate
//! encoding and decoding.
//!
//! A frame is the header word (big-endian), the transaction word (big-endian) when the
//! header's transaction bit is set, the message identifier in UTF-8, then the body.
use vstd::prelude::*;
use vstd::utf8::{decode_utf8, decode_utf8_encode_utf8, encode_utf8, encode_utf8_decode_utf8,
    encode_utf8_valid_utf8, valid_utf8};

use crate::header::{header_word_body_len, header_word_is_txn, header_word_message_id_len};
use crate::message::SrvMessageView;

verus! {

/// Length in bytes of the header segment.
pub const HEADER_LEN: usize = 4;

/// Length in bytes of the transaction segment.
pub const TXN_LEN: usize = 4;

/// The big-endian bytes of a 32-bit word.
pub open spec fn u32_be_bytes(v: u32) -> Seq<u8> {
    seq![(v >> 24u32) as u8, (v >> 16u32) as u8, (v >> 8u32) as u8, v as u8]
}

/// The 32-bit word stored big-endian at `at` in `s`.
pub open spec fn be_u32(s: Seq<u8>, at: int) -> u32 {
    ((s[at] as u32) << 24u32) | ((s[at + 1] as u32) << 16u32) | ((s[at + 2] as u32) << 8u32) | (
    s[at + 3] as u32)
}

/// The bytes of a frame that carries the message `m`.
pub open spec fn encode_frame(m: SrvMessageView) -> Seq<u8> {
    u32_be_bytes(m.header) + match m.transaction {
        Some(t) => u32_be_bytes(t),
        None => Seq::<u8>::empty(),
    } + encode_utf8(m.message_id) + m.body
}

/// Whether the header of `m` describes `m`: its transaction bit tells whether a transaction
/// is present, and its length fields give the identifier's and the body's lengths.
pub open spec fn header_matches(m: SrvMessageView) -> bool {
    &&& header_word_is_txn(m.header) == m.transaction is Some
    &&& header_word_message_id_len(m.header) == encode_utf8(m.message_id).len()
    &&& header_word_body_len(m.header) == m.body.len()
}

/// Where the parts of the first frame in a byte sequence lie.
pub struct FrameLayout {
    pub header: u32,
    pub transaction: Option<u32>,
    pub id_start: int,
    pub body_start: int,
    pub end: int,
}

/// The layout of the first frame in `s`, or `None` while `s` does not yet hold all of it.
pub open spec fn frame_layout(s: Seq<u8>) -> Option<FrameLayout> {
    if s.len() < 4 {
        None
    } else {
        let h = be_u32(s, 0);
        let id_start: int = if header_word_is_txn(h) { 8 } else { 4 };
        let body_start = id_start + header_word_message_id_len(h);
        let end = body_start + header_word_body_len(h);
        if s.len() < id_start || s.len() < end {
            None
        } else {
            Some(
                FrameLayout {
                    header: h,
                    transaction: if header_word_is_txn(h) { Some(be_u32(s, 4)) } else { None },
                    id_start,
                    body_start,
                    end,
                },
            )
        }
    }
}

/// The message that the frame laid out by `l` in `s` carries.
pub open spec fn frame_message(s: Seq<u8>, l: FrameLayout) -> SrvMessageView {
    SrvMessageView {
        header: l.header,
        transaction: l.transaction,
        message_id: decode_utf8(s.subrange(l.id_start, l.body_start)),
        body: s.subrange(l.body_start, l.end),
    }
}

/// Whether decoding `s` is defined: a complete first frame has a UTF-8 identifier.
pub open spec fn frame_decodable(s: Seq<u8>) -> bool {
    frame_layout(s) matches Some(l) ==> valid_utf8(s.subrange(l.id_start, l.body_start))
}

/// The message decoded from the front of `s` and the number of bytes it took, or `None`
/// while `s` does not yet hold a whole frame.
pub open spec fn decode_frame(s: Seq<u8>) -> Option<(SrvMessageView, int)> {
    match frame_layout(s) {
        Some(l) => Some((frame_message(s, l), l.end)),
        None => None,
    }
}

/// Reading back the big-endian bytes of a word gives the word.
pub proof fn lemma_be_u32_roundtrip(v: u32, rest: Seq<u8>, at: int)
    requires
        0 <= at,
        rest.len() >= at + 4,
        rest.subrange(at, at + 4) == u32_be_bytes(v),
    ensures
        be_u32(rest, at) == v,
{
    assert(rest[at] == u32_be_bytes(v)[0]);
    assert(rest[at + 1] == u32_be_bytes(v)[1]);
    assert(rest[at + 2] == u32_be_bytes(v)[2]);
    assert(rest[at + 3] == u32_be_bytes(v)[3]);
    assert(((((v >> 24u32) as u8) as u32) << 24u32) | ((((v >> 16u32) as u8) as u32) << 16u32)
        | ((((v >> 8u32) as u8) as u32) << 8u32) | ((v as u8) as u32) == v) by (bit_vector);
}

/// Decoding a frame that was encoded from a message whose header describes it gives that
/// message back, takes exactly the frame's bytes, and leaves whatever follows.
pub proof fn lemma_decode_encode(m: SrvMessageView, rest: Seq<u8>)
    requires
        header_matches(m),
    ensures
        frame_decodable(encode_frame(m) + rest),
        decode_frame(encode_frame(m) + rest) == Some((m, encode_frame(m).len() as int)),
{
    let s = encode_frame(m) + rest;
    let t = match m.transaction {
        Some(t) => u32_be_bytes(t),
        None => Seq::<u8>::empty(),
    };
    let id = encode_utf8(m.message_id);
    let id_start: int = 4 + t.len() as int;
    let body_start: int = id_start + id.len() as int;
    let end: int = body_start + m.body.len() as int;
    assert(encode_frame(m) == u32_be_bytes(m.header) + t + id + m.body);
    assert(s.subrange(0, 4) == u32_be_bytes(m.header));
    lemma_be_u32_roundtrip(m.header, s, 0);
    if let Some(tw) = m.transaction {
        assert(s.subrange(4, 8) == u32_be_bytes(tw));
        lemma_be_u32_roundtrip(tw, s, 4);
    }
    assert(s.subrange(id_start, body_start) == id);
    assert(s.subrange(body_start, end) == m.body);
    encode_utf8_valid_utf8(m.message_id);
    encode_utf8_decode_utf8(m.message_id);
    let l = frame_layout(s).unwrap();
    assert(frame_message(s, l) == m);
}

/// A byte sequence that holds only part of an encoded frame decodes to nothing: the decoder
/// waits for the whole frame.
pub proof fn lemma_decode_partial_frame(m: SrvMessageView, n: int)
    requires
        header_matches(m),
        0 <= n < encode_frame(m).len(),
    ensures
        decode_frame(encode_frame(m).take(n)) is None,
{
    let f = encode_frame(m);
    let p = f.take(n);
    if n >= 4 {
        assert(p.subrange(0, 4) == u32_be_bytes(m.header));
        lemma_be_u32_roundtrip(m.header, p, 0);
    }
}

/// The four bytes at `at` are the big-endian bytes of the word read there.
pub proof fn lemma_be_u32_bytes(s: Seq<u8>, at: int)
    requires
        0 <= at,
        s.len() >= at + 4,
    ensures
        s.subrange(at, at + 4) == u32_be_bytes(be_u32(s, at)),
{
    let (b0, b1, b2, b3) = (s[at], s[at + 1], s[at + 2], s[at + 3]);
    assert({
        let w = ((b0 as u32) << 24u32) | ((b1 as u32) << 16u32) | ((b2 as u32) << 8u32) | (
        b3 as u32);
        &&& (w >> 24u32) as u8 == b0
        &&& (w >> 16u32) as u8 == b1
        &&& (w >> 8u32) as u8 == b2
        &&& w as u8 == b3
    }) by (bit_vector);
    assert(s.subrange(at, at + 4) =~= u32_be_bytes(be_u32(s, at)));
}

/// A decoded message has a header that describes it, and encoding it gives back exactly
/// the bytes that decoding took.
pub proof fn lemma_encode_decode(s: Seq<u8>)
    requires
        frame_decodable(s),
        decode_frame(s) is Some,
    ensures
        header_matches(decode_frame(s).unwrap().0),
        encode_frame(decode_frame(s).unwrap().0) == s.take(decode_frame(s).unwrap().1),
{
    let l = frame_layout(s).unwrap();
    let m = frame_message(s, l);
    let idb = s.subrange(l.id_start, l.body_start);
    decode_utf8_encode_utf8(idb);
    assert(encode_utf8(m.message_id) == idb);
    lemma_be_u32_bytes(s, 0);
    let t = match m.transaction {
        Some(t) => u32_be_bytes(t),
        None => Seq::<u8>::empty(),
    };
    if header_word_is_txn(l.header) {
        lemma_be_u32_bytes(s, 4);
        assert(t == s.subrange(4, 8));
    } else {
        assert(t =~= s.subrange(4, 4));
    }
    assert(s.take(l.end) =~= s.subrange(0, 4) + s.subrange(4, l.id_start) + idb + s.subrange(
        l.body_start,
        l.end,
    ));
}

/// The bytes of an encoded frame, one part at a time: the header word's four bytes, most
/// significant first; then, when the message carries a transaction, the transaction word's
/// four bytes, most significant first; then the identifier's UTF-8 bytes; then the body.
pub proof fn lemma_encode_frame_bytes(m: SrvMessageView)
    ensures
        ({
            let f = encode_frame(m);
            let h = m.header;
            let id = encode_utf8(m.message_id);
            let id_start: int = if m.transaction is Some { 8 } else { 4 };
            &&& f.len() == id_start + id.len() + m.body.len()
            &&& f[0] == (h >> 24u32) as u8
            &&& f[1] == (h >> 16u32) as u8
            &&& f[2] == (h >> 8u32) as u8
            &&& f[3] == h as u8
            &&& m.transaction matches Some(t) ==> {
                &&& f[4] == (t >> 24u32) as u8
                &&& f[5] == (t >> 16u32) as u8
                &&& f[6] == (t >> 8u32) as u8
                &&& f[7] == t as u8
            }
            &&& f.subrange(id_start, id_start + id.len()) == id
            &&& f.subrange(id_start + id.len(), f.len() as int) == m.body
        }),
{
    let f = encode_frame(m);
    let t = match m.transaction {
        Some(t) => u32_be_bytes(t),
        None => Seq::<u8>::empty(),
    };
    let id = encode_utf8(m.message_id);
    let id_start: int = 4 + t.len() as int;
    assert(f == u32_be_bytes(m.header) + t + id + m.body);
    assert(f.subrange(id_start, id_start + id.len()) =~= id);
    assert(f.subrange(id_start + id.len(), f.len() as int) =~= m.body);
}

/// Where decoding finds the parts of a frame, read off the bytes themselves: the header is
/// the first four bytes taken most significant first; when its top bit is set, the
/// transaction is the next four bytes taken the same way and the identifier starts at 8,
/// otherwise at 4; the identifier is as long as header bits 20 to 25 say, and the body, which
/// follows it, as long as the header's low 20 bits say.
pub proof fn lemma_frame_layout_fields(s: Seq<u8>)
    ensures
        frame_layout(s) matches Some(l) ==> {
            let h = ((s[0] as u32) << 24u32) | ((s[1] as u32) << 16u32) | ((s[2] as u32) << 8u32)
                | (s[3] as u32);
            let has_txn = (h >> 31u32) & 1u32 == 1u32;
            &&& l.header == h
            &&& has_txn ==> l.transaction == Some(
                ((s[4] as u32) << 24u32) | ((s[5] as u32) << 16u32) | ((s[6] as u32) << 8u32) | (
                s[7] as u32),
            )
            &&& !has_txn ==> l.transaction is None
            &&& l.id_start == if has_txn { 8int } else { 4int }
            &&& l.body_start == l.id_start + ((h >> 20u32) & 0x3Fu32)
            &&& l.end == l.body_start + (h & 0xFFFFFu32)
            &&& l.end <= s.len()
        },
        s.len() >= 4 && frame_layout(s) is None ==> {
            let h = ((s[0] as u32) << 24u32) | ((s[1] as u32) << 16u32) | ((s[2] as u32) << 8u32)
                | (s[3] as u32);
            let id_start: int = if (h >> 31u32) & 1u32 == 1u32 { 8 } else { 4 };
            s.len() < id_start + ((h >> 20u32) & 0x3Fu32) + (h & 0xFFFFFu32)
        },
        s.len() < 4 ==> frame_layout(s) is None,
{
}

/// The message that decoding gives carries the frame's header and transaction words as
/// laid out, the identifier whose UTF-8 bytes lie between the identifier start and the body
/// start, and exactly the bytes from the body start to the end; decoding takes the frame's
/// bytes up to its end.
pub proof fn lemma_decode_frame_parts(s: Seq<u8>)
    requires
        frame_decodable(s),
    ensures
        decode_frame(s) matches Some((m, n)) ==> {
            let l = frame_layout(s).unwrap();
            &&& n == l.end
            &&& m.header == l.header
            &&& m.transaction == l.transaction
            &&& encode_utf8(m.message_id) == s.subrange(l.id_start, l.body_start)
            &&& m.body == s.subrange(l.body_start, l.end)
        },
{
    if let Some(l) = frame_layout(s) {
        decode_utf8_encode_utf8(s.subrange(l.id_start, l.body_start));
    }
}

} // verus!
