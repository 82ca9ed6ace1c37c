use vstd::prelude::*;
use vstd::string::StringExecFns;

use crate::text::{append_bool, append_decimal, bool_text, decimal_text};

verus! {

/// Mask selecting the transaction identifier bits of a transaction word.
const TXN_ID_MASK: u32 = 0x3FFF_FFFF;

/// Position of the response bit in a transaction word.
const RESPONSE_OFFSET: u32 = 31;

const RESPONSE_MASK: u32 = 0x1;

/// Position of the completion bit in a transaction word.
const COMPLETE_OFFSET: u32 = 30;

const COMPLETE_MASK: u32 = 0x1;

/// The largest transaction identifier that `SrvTxn::new` accepts.
pub const MAX_TXN_ID: u32 = 0x3FFF_FFFF;

/// The identifier bits of a transaction word.
pub open spec fn txn_word_id(w: u32) -> u32 {
    w & 0x3FFF_FFFF
}

/// Whether the completion bit of a transaction word is set.
pub open spec fn txn_word_complete(w: u32) -> bool {
    (w >> 30u32) & 1 == 1
}

/// Whether the response bit of a transaction word is set.
pub open spec fn txn_word_response(w: u32) -> bool {
    (w >> 31u32) & 1 == 1
}

/// The identifier that `SrvTxn::next_id` hands back for a candidate identifier: a candidate
/// strictly between zero and `MAX_TXN_ID` is kept, every other one wraps around to 1.
pub open spec fn spec_next_id(id: u32) -> u32 {
    if 0 < id < MAX_TXN_ID {
        id
    } else {
        1
    }
}

/// The text that describes a transaction word in logs:
/// `SrvTxn[id: <id>, is_complete: <bool>, is_response: <bool>]`.
pub open spec fn txn_word_debug_text(w: u32) -> Seq<char> {
    "SrvTxn[id: "@ + decimal_text(txn_word_id(w) as nat) + ", is_complete: "@ + bool_text(
        txn_word_complete(w),
    ) + ", is_response: "@ + bool_text(txn_word_response(w)) + "]"@
}

/// An unsigned 32-bit word packed with transaction information, present in a message
/// that expects a reply.
///
/// Layout, from the most significant bit: is_response (1 bit), is_complete (1 bit),
/// transaction identifier (30 bits).
#[derive(Copy, Clone, PartialEq, Eq, Structural, PartialOrd, Ord, Hash, Debug)]
pub struct SrvTxn(u32);

impl View for SrvTxn {
    type V = u32;

    /// The raw transaction word.
    closed spec fn view(&self) -> u32 {
        self.0
    }
}

impl SrvTxn {
    /// The identifier bits of this transaction.
    pub open spec fn spec_id(self) -> u32 {
        txn_word_id(self@)
    }

    /// Whether this transaction is marked as the last message of a transaction.
    pub open spec fn spec_is_complete(self) -> bool {
        txn_word_complete(self@)
    }

    /// Whether this transaction is marked as a reply to a request.
    pub open spec fn spec_is_response(self) -> bool {
        txn_word_response(self@)
    }

    /// Generates a new transaction from the given transaction identifier, which must not
    /// exceed `MAX_TXN_ID`.
    pub fn new(id: u32) -> (txn: SrvTxn)
        requires
            id <= MAX_TXN_ID,
        ensures
            txn@ == id,
            txn.spec_id() == id,
            !txn.spec_is_complete(),
            !txn.spec_is_response(),
    {
        assert(id <= 0x3FFF_FFFFu32 ==> id & 0x3FFF_FFFFu32 == id && (id >> 30u32) & 1u32 == 0u32
            && (id >> 31u32) & 1u32 == 0u32) by (bit_vector);
        SrvTxn(id)
    }

    /// Generates and returns the next valid transaction identifier for the candidate `id`:
    /// a candidate strictly between zero and `MAX_TXN_ID` is kept, and zero, `MAX_TXN_ID`
    /// and every larger value wrap around to 1. The result is always accepted by `new`.
    pub fn next_id(id: u32) -> (next: u32)
        ensures
            next == spec_next_id(id),
            0 < next <= MAX_TXN_ID,
            0 < id < MAX_TXN_ID ==> next == id,
    {
        if id == 0 || id >= MAX_TXN_ID {
            1
        } else {
            id
        }
    }

    /// The contained transaction identifier.
    pub fn id(&self) -> (id: u32)
        ensures
            id == self.spec_id(),
    {
        self.0 & TXN_ID_MASK
    }

    /// Whether this transaction represents the last message in a transaction.
    pub fn is_complete(&self) -> (complete: bool)
        ensures
            complete == self.spec_is_complete(),
    {
        ((self.0 >> COMPLETE_OFFSET) & COMPLETE_MASK) == 1
    }

    /// Whether this transaction represents a reply to a request.
    pub fn is_response(&self) -> (response: bool)
        ensures
            response == self.spec_is_response(),
    {
        ((self.0 >> RESPONSE_OFFSET) & RESPONSE_MASK) == 1
    }

    /// Sets the completion bit: the associated message is the last reply to a
    /// transactional request.
    pub fn set_complete(&mut self)
        ensures
            final(self)@ == old(self)@ | 0x4000_0000u32,
            final(self).spec_is_complete(),
            final(self).spec_is_response() == old(self).spec_is_response(),
            final(self).spec_id() == old(self).spec_id(),
    {
        let w = self.0;
        assert((w | 0x4000_0000u32) >> 30u32 & 1u32 == 1u32) by (bit_vector);
        assert((w | 0x4000_0000u32) >> 31u32 & 1u32 == (w >> 31u32) & 1u32) by (bit_vector);
        assert((w | 0x4000_0000u32) & 0x3FFF_FFFFu32 == w & 0x3FFF_FFFFu32) by (bit_vector);
        assert(1u32 << 30u32 == 0x4000_0000u32) by (bit_vector);
        self.0 = self.0 | (1 << COMPLETE_OFFSET);
    }

    /// Sets the response bit: the associated message is a response to a transactional
    /// request.
    pub fn set_response(&mut self)
        ensures
            final(self)@ == old(self)@ | 0x8000_0000u32,
            final(self).spec_is_response(),
            final(self).spec_is_complete() == old(self).spec_is_complete(),
            final(self).spec_id() == old(self).spec_id(),
    {
        let w = self.0;
        assert((w | 0x8000_0000u32) >> 31u32 & 1u32 == 1u32) by (bit_vector);
        assert((w | 0x8000_0000u32) >> 30u32 & 1u32 == (w >> 30u32) & 1u32) by (bit_vector);
        assert((w | 0x8000_0000u32) & 0x3FFF_FFFFu32 == w & 0x3FFF_FFFFu32) by (bit_vector);
        assert(1u32 << 31u32 == 0x8000_0000u32) by (bit_vector);
        self.0 = self.0 | (1 << RESPONSE_OFFSET);
    }

    /// The text that describes this transaction in logs.
    pub fn debug_string(&self) -> (text: String)
        ensures
            text@ == txn_word_debug_text(self@),
    {
        let mut text = String::from_str("SrvTxn[id: ");
        append_decimal(&mut text, self.id() as u64);
        text.append(", is_complete: ");
        append_bool(&mut text, self.is_complete());
        text.append(", is_response: ");
        append_bool(&mut text, self.is_response());
        text.append("]");
        text
    }

    /// The raw transaction word, as it is written on the wire.
    pub(crate) fn to_bits(&self) -> (w: u32)
        ensures
            w == self@,
    {
        self.0
    }
}

/// For every candidate, `next_id` gives a nonzero identifier that `SrvTxn::new` accepts,
/// and a transaction made from it reads that identifier back with both flags clear.
pub proof fn lemma_next_id_valid(id: u32)
    ensures
        0 < spec_next_id(id) <= MAX_TXN_ID,
        txn_word_id(spec_next_id(id)) == spec_next_id(id),
        !txn_word_complete(spec_next_id(id)),
        !txn_word_response(spec_next_id(id)),
{
    let n = spec_next_id(id);
    assert(n <= 0x3FFF_FFFFu32 ==> n & 0x3FFF_FFFFu32 == n && (n >> 30u32) & 1u32 == 0u32 && (n
        >> 31u32) & 1u32 == 0u32) by (bit_vector);
}

impl From<u32> for SrvTxn {
    fn from(value: u32) -> (txn: SrvTxn)
        ensures
            txn@ == value,
    {
        SrvTxn(value)
    }
}

impl vstd::std_specs::convert::FromSpecImpl<u32> for SrvTxn {
    open spec fn obeys_from_spec() -> bool {
        true
    }

    closed spec fn from_spec(v: u32) -> SrvTxn {
        SrvTxn(v)
    }
}

} // verus!
