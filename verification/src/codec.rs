//! Encoder and decoder of message frames on a `BytesMut` stream buffer.
use bytes::BytesMut;
use vstd::prelude::*;

use crate::buffer::{bytes_mut_as_slice, bytes_mut_contents, bytes_mut_extend, bytes_mut_reserve,
    bytes_mut_split_to, string_from_utf8};
use crate::header::SrvHeader;
use crate::message::{txn_bit_agrees, txn_bits, SrvMessage};
use crate::txn::SrvTxn;
use crate::wire::{be_u32, decode_frame, encode_frame, frame_decodable, frame_layout,
    header_matches, lemma_encode_decode, u32_be_bytes, FrameLayout, HEADER_LEN, TXN_LEN};

verus! {

/// Where the parts of a complete frame lie in a received byte slice.
struct FrameBounds {
    header: SrvHeader,
    transaction: Option<SrvTxn>,
    id_start: usize,
    body_start: usize,
    end: usize,
}

impl FrameBounds {
    spec fn layout(self) -> FrameLayout {
        FrameLayout {
            header: self.header@,
            transaction: txn_bits(self.transaction),
            id_start: self.id_start as int,
            body_start: self.body_start as int,
            end: self.end as int,
        }
    }
}

/// Reads the big-endian word at `at`.
fn read_u32_be(s: &[u8], at: usize) -> (v: u32)
    requires
        at + 4 <= s@.len(),
    ensures
        v == be_u32(s@, at as int),
{
    ((s[at] as u32) << 24) | ((s[at + 1] as u32) << 16) | ((s[at + 2] as u32) << 8) | (s[at
        + 3] as u32)
}

/// The big-endian bytes of `v`.
fn write_u32_be(v: u32) -> (bytes: Vec<u8>)
    ensures
        bytes@ == u32_be_bytes(v),
{
    let bytes = vec![(v >> 24) as u8, (v >> 16) as u8, (v >> 8) as u8, v as u8];
    assert(bytes@ =~= u32_be_bytes(v));
    bytes
}

/// A copy of `s[start..end]`.
fn copy_range(s: &[u8], start: usize, end: usize) -> (out: Vec<u8>)
    requires
        start <= end <= s@.len(),
    ensures
        out@ == s@.subrange(start as int, end as int),
{
    let mut out: Vec<u8> = Vec::new();
    let mut i = start;
    while i < end
        invariant
            start <= i <= end,
            end <= s@.len(),
            out@ == s@.subrange(start as int, i as int),
        decreases end - i,
    {
        out.push(s[i]);
        i += 1;
        assert(out@ =~= s@.subrange(start as int, i as int));
    }
    out
}

/// Locates the first frame in `s`, or gives `None` while `s` does not hold all of it.
fn locate_frame(s: &[u8]) -> (bounds: Option<FrameBounds>)
    ensures
        match frame_layout(s@) {
            None => bounds is None,
            Some(l) => bounds matches Some(b) && b.layout() == l && b.end <= s@.len(),
        },
{
    if s.len() < HEADER_LEN {
        return None;
    }
    let header = SrvHeader::from(read_u32_be(s, 0));
    let mut txn: Option<SrvTxn> = None;
    let mut pos: usize = HEADER_LEN;
    if header.is_transaction() {
        if s.len() - pos < TXN_LEN {
            return None;
        }
        txn = Some(SrvTxn::from(read_u32_be(s, pos)));
        pos = pos + TXN_LEN;
    }
    if s.len() - pos < header.message_id_len() + header.body_len() {
        return None;
    }
    let body_start = pos + header.message_id_len();
    let end = body_start + header.body_len();
    Some(FrameBounds { header, transaction: txn, id_start: pos, body_start, end })
}

/// Frames `SrvMessage`s onto a byte stream and reads them back.
#[derive(Copy, Clone, Debug, Eq, PartialEq, Ord, PartialOrd, Hash)]
pub struct SrvCodec(());

/// The codec carries no state: any two codecs are equal, so what `encode` and `decode`
/// do depends only on the message and the bytes they are given.
pub proof fn lemma_codec_stateless(a: SrvCodec, b: SrvCodec)
    ensures
        a == b,
{
}

impl SrvCodec {
    /// Creates a new `SrvCodec` for shipping around `SrvMessage`s.
    pub fn new() -> (codec: SrvCodec) {
        SrvCodec(())
    }

    /// Whether `encode` is defined on `msg` and `buf`: the buffer's length after the frame is
    /// appended stays within `isize::MAX`.
    pub fn can_encode(&self, msg: &SrvMessage, buf: &BytesMut) -> (ok: bool)
        ensures
            ok == (bytes_mut_contents(*buf).len() + encode_frame(msg@).len() <= isize::MAX),
    {
        let held = bytes_mut_as_slice(buf).len();
        let id_len = msg.message_id().as_bytes().len();
        let body_len = msg.body().len();
        let segments: usize = if msg.is_transaction() {
            HEADER_LEN + TXN_LEN
        } else {
            HEADER_LEN
        };
        let limit = isize::MAX as usize;
        held <= limit && segments <= limit - held && id_len <= limit - held - segments && body_len
            <= limit - held - segments - id_len
    }

    /// Whether `decode` is defined on `bytes`: when they hold a whole frame, its message
    /// identifier is valid UTF-8.
    pub fn can_decode(&self, bytes: &BytesMut) -> (ok: bool)
        ensures
            ok == frame_decodable(bytes_mut_contents(*bytes)),
    {
        let s = bytes_mut_as_slice(bytes);
        match locate_frame(s) {
            None => true,
            Some(b) => string_from_utf8(copy_range(s, b.id_start, b.body_start)).is_some(),
        }
    }

    /// Takes the first frame off the front of `bytes` and returns its message; while the
    /// buffer does not yet hold a whole frame, returns `None` and leaves it as it is.
    pub fn decode(&mut self, bytes: &mut BytesMut) -> (msg: Option<SrvMessage>)
        requires
            frame_decodable(bytes_mut_contents(*old(bytes))),
        ensures
            *final(self) == *old(self),
            match decode_frame(bytes_mut_contents(*old(bytes))) {
                None => msg is None && bytes_mut_contents(*final(bytes)) == bytes_mut_contents(
                    *old(bytes),
                ),
                Some((m, n)) => {
                    &&& msg matches Some(msg) && msg@ == m
                    &&& header_matches(m)
                    &&& txn_bit_agrees(m)
                    &&& bytes_mut_contents(*final(bytes)) == bytes_mut_contents(
                        *old(bytes),
                    ).skip(n)
                },
            },
    {
        let s = bytes_mut_as_slice(bytes);
        let bounds = match locate_frame(s) {
            Some(b) => b,
            None => return None,
        };
        let message_id_buf = copy_range(s, bounds.id_start, bounds.body_start);
        let body_buf = copy_range(s, bounds.body_start, bounds.end);
        let message_id = string_from_utf8(message_id_buf).unwrap();
        proof {
            vstd::utf8::encode_utf8_decode_utf8(message_id@);
            lemma_encode_decode(bytes_mut_contents(*bytes));
        }
        bytes_mut_split_to(bytes, bounds.end);
        Some(SrvMessage::from_parts(bounds.header, bounds.transaction, message_id, body_buf))
    }

    /// Appends the frame of `msg` to `buf`.
    pub fn encode(&mut self, msg: SrvMessage, buf: &mut BytesMut)
        requires
            bytes_mut_contents(*old(buf)).len() + encode_frame(msg@).len() <= isize::MAX,
        ensures
            *final(self) == *old(self),
            bytes_mut_contents(*final(buf)) == bytes_mut_contents(*old(buf)) + encode_frame(msg@),
    {
        let ghost start = bytes_mut_contents(*buf);
        bytes_mut_reserve(buf, msg.size());
        let header = write_u32_be(msg.header().to_bits());
        bytes_mut_extend(buf, header.as_slice());
        if let Some(txn) = msg.transaction() {
            let t = write_u32_be(txn.to_bits());
            bytes_mut_extend(buf, t.as_slice());
        }
        bytes_mut_extend(buf, msg.message_id().as_bytes());
        bytes_mut_extend(buf, msg.body().as_slice());
        assert(bytes_mut_contents(*buf) =~= start + encode_frame(msg@));
    }
}

} // verus!
