use vstd::prelude::*;
use vstd::string::StringExecFns;

use crate::text::{append_bool, append_decimal, bool_text, decimal_text};

verus! {

/// Mask selecting the body length bits of a header word.
const BODY_LEN_MASK: u32 = 0xFFFFF;

/// Mask selecting the message identifier length bits, once shifted down.
const MESSAGE_ID_MASK: u32 = 0x3F;

/// Position of the message identifier length bits in a header word.
const MESSAGE_ID_OFFSET: u32 = 20;

/// Position of the transaction bit in a header word.
const TXN_OFFSET: u32 = 31;

/// The header word that `SrvHeader::new` packs: the three fields are or-ed together at
/// their offsets, without masking.
pub open spec fn header_word(body_len: u32, message_id_len: u32, is_txn: bool) -> u32 {
    ((if is_txn { 1u32 } else { 0u32 }) << 31u32) | (message_id_len << 20u32) | body_len
}

/// The body length field of a header word.
pub open spec fn header_word_body_len(w: u32) -> u32 {
    w & 0xFFFFF
}

/// The message identifier length field of a header word.
pub open spec fn header_word_message_id_len(w: u32) -> u32 {
    (w >> 20u32) & 0x3F
}

/// The transaction bit of a header word.
pub open spec fn header_word_is_txn(w: u32) -> bool {
    (w >> 31u32) & 1 == 1
}

/// The text that describes a header word in logs:
/// `SrvHeader[body_len: <n>, message_id_len: <n>, is_txn: <bool>]`.
pub open spec fn header_word_debug_text(w: u32) -> Seq<char> {
    "SrvHeader[body_len: "@ + decimal_text(header_word_body_len(w) as nat) + ", message_id_len: "@
        + decimal_text(header_word_message_id_len(w) as nat) + ", is_txn: "@ + bool_text(
        header_word_is_txn(w),
    ) + "]"@
}

/// The 32-bit header segment of a message.
///
/// Layout, from the most significant bit: is_txn (1 bit), flags (5 bits),
/// message_id_len (6 bits), body_len (20 bits).
#[derive(Copy, Clone, PartialEq, Eq, Structural, PartialOrd, Ord, Hash, Debug)]
pub struct SrvHeader(u32);

impl View for SrvHeader {
    type V = u32;

    /// The raw header word.
    closed spec fn view(&self) -> u32 {
        self.0
    }
}

impl SrvHeader {
    /// Length in bytes of the message body, as this header records it.
    pub open spec fn spec_body_len(self) -> u32 {
        header_word_body_len(self@)
    }

    /// Length in bytes of the message identifier, as this header records it.
    pub open spec fn spec_message_id_len(self) -> u32 {
        header_word_message_id_len(self@)
    }

    /// Whether a transaction segment follows this header.
    pub open spec fn spec_is_transaction(self) -> bool {
        header_word_is_txn(self@)
    }

    /// Packs a header from its fields. Fields that fit their widths (a body length below
    /// 2^20, a message identifier length below 64) are read back unchanged.
    pub fn new(body_len: u32, message_id_len: u32, is_txn: bool) -> (header: SrvHeader)
        ensures
            header@ == header_word(body_len, message_id_len, is_txn),
            body_len < 0x10_0000 && message_id_len < 0x40 ==> {
                &&& header.spec_body_len() == body_len
                &&& header.spec_message_id_len() == message_id_len
                &&& header.spec_is_transaction() == is_txn
            },
    {
        proof {
            lemma_header_word_fields(body_len, message_id_len, is_txn);
        }
        let txn_value: u32 = if is_txn {
            1
        } else {
            0
        };
        let value = (txn_value << TXN_OFFSET) | (message_id_len << MESSAGE_ID_OFFSET) | body_len;
        SrvHeader(value)
    }

    /// Length in bytes of the message body.
    #[inline]
    pub fn body_len(&self) -> (len: usize)
        ensures
            len == self.spec_body_len(),
            len < 0x10_0000,
    {
        let w = self.0;
        assert(w & 0xFFFFFu32 < 0x10_0000u32) by (bit_vector);
        (self.0 & BODY_LEN_MASK) as usize
    }

    /// Length in bytes of the message identifier.
    #[inline]
    pub fn message_id_len(&self) -> (len: usize)
        ensures
            len == self.spec_message_id_len(),
            len < 0x40,
    {
        let w = self.0;
        assert((w >> 20u32) & 0x3Fu32 < 0x40u32) by (bit_vector);
        ((self.0 >> MESSAGE_ID_OFFSET) & MESSAGE_ID_MASK) as usize
    }

    /// Whether a transaction segment follows this header.
    #[inline]
    pub fn is_transaction(&self) -> (is_txn: bool)
        ensures
            is_txn == self.spec_is_transaction(),
    {
        ((self.0 >> TXN_OFFSET) & 1) == 1
    }

    /// Marks that a transaction segment follows this header; the length fields stay.
    #[inline]
    pub fn set_is_transaction(&mut self)
        ensures
            final(self)@ == old(self)@ | 0x8000_0000u32,
            final(self).spec_is_transaction(),
            final(self).spec_body_len() == old(self).spec_body_len(),
            final(self).spec_message_id_len() == old(self).spec_message_id_len(),
    {
        let w = self.0;
        assert((w | 0x8000_0000u32) >> 31u32 & 1u32 == 1u32) by (bit_vector);
        assert((w | 0x8000_0000u32) & 0xFFFFFu32 == w & 0xFFFFFu32) by (bit_vector);
        assert(((w | 0x8000_0000u32) >> 20u32) & 0x3Fu32 == (w >> 20u32) & 0x3Fu32) by (bit_vector);
        assert(1u32 << 31u32 == 0x8000_0000u32) by (bit_vector);
        self.0 = self.0 | (1 << TXN_OFFSET);
    }

    /// The text that describes this header in logs.
    pub fn debug_string(&self) -> (text: String)
        ensures
            text@ == header_word_debug_text(self@),
    {
        let mut text = String::from_str("SrvHeader[body_len: ");
        append_decimal(&mut text, self.body_len() as u64);
        text.append(", message_id_len: ");
        append_decimal(&mut text, self.message_id_len() as u64);
        text.append(", is_txn: ");
        append_bool(&mut text, self.is_transaction());
        text.append("]");
        text
    }

    /// The raw header word, as it is written on the wire.
    pub(crate) fn to_bits(&self) -> (w: u32)
        ensures
            w == self@,
    {
        self.0
    }
}

impl From<u32> for SrvHeader {
    fn from(value: u32) -> (header: SrvHeader)
        ensures
            header@ == value,
    {
        SrvHeader(value)
    }
}

impl vstd::std_specs::convert::FromSpecImpl<u32> for SrvHeader {
    open spec fn obeys_from_spec() -> bool {
        true
    }

    closed spec fn from_spec(v: u32) -> SrvHeader {
        SrvHeader(v)
    }
}

/// A header packed from fields that fit their widths gives each field back.
pub proof fn lemma_header_word_fields(body_len: u32, message_id_len: u32, is_txn: bool)
    ensures
        body_len < 0x10_0000 && message_id_len < 0x40 ==> {
            let w = header_word(body_len, message_id_len, is_txn);
            &&& header_word_body_len(w) == body_len
            &&& header_word_message_id_len(w) == message_id_len
            &&& header_word_is_txn(w) == is_txn
        },
{
    let t: u32 = if is_txn { 1 } else { 0 };
    assert(body_len < 0x10_0000u32 && message_id_len < 0x40u32 && t <= 1u32 ==> {
        let w = (t << 31u32) | (message_id_len << 20u32) | body_len;
        &&& w & 0xFFFFFu32 == body_len
        &&& (w >> 20u32) & 0x3Fu32 == message_id_len
        &&& (w >> 31u32) & 1u32 == t
    }) by (bit_vector);
}

} // verus!
