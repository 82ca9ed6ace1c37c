use vstd::prelude::*;
use vstd::string::StringExecFns;
use vstd::utf8::{encode_utf8, encode_utf8_decode_utf8};

use crate::buffer::{str_debug, str_debug_text};
use crate::header::{header_word, header_word_body_len, header_word_debug_text, header_word_is_txn,
    header_word_message_id_len, SrvHeader};
use crate::txn::{txn_word_complete, txn_word_debug_text, txn_word_id, txn_word_response, SrvTxn};
use crate::wire::{encode_frame, header_matches, HEADER_LEN, TXN_LEN};

verus! {

/// The mathematical model of a message: the raw header word, the raw transaction word
/// when there is one, the message identifier's characters and the body's bytes.
pub struct SrvMessageView {
    pub header: u32,
    pub transaction: Option<u32>,
    pub message_id: Seq<char>,
    pub body: Seq<u8>,
}

/// The raw transaction word of an optional transaction.
pub open spec fn txn_bits(txn: Option<SrvTxn>) -> Option<u32> {
    match txn {
        Some(t) => Some(t@),
        None => None,
    }
}

/// Whether the header's transaction bit tells whether the message carries a transaction,
/// so that `is_transaction()` and `header().is_transaction()` agree.
pub open spec fn txn_bit_agrees(m: SrvMessageView) -> bool {
    header_word_is_txn(m.header) == m.transaction is Some
}

/// The model after attaching the transaction word `t`: the header's transaction bit is set.
pub open spec fn with_transaction(m: SrvMessageView, t: u32) -> SrvMessageView {
    SrvMessageView { header: m.header | 0x8000_0000u32, transaction: Some(t), ..m }
}

/// The transaction word that `reply_for` attaches: the response bit, and the completion bit
/// when `complete`, set on `t`.
pub open spec fn reply_word(t: u32, complete: bool) -> u32 {
    if complete {
        t | 0x8000_0000u32 | 0x4000_0000u32
    } else {
        t | 0x8000_0000u32
    }
}

/// Attaching a transaction always leaves the header's transaction bit in agreement with
/// the message, whatever the message was before.
pub proof fn lemma_with_transaction_agrees(m: SrvMessageView, t: u32)
    ensures
        txn_bit_agrees(with_transaction(m, t)),
        header_matches(m) ==> header_matches(with_transaction(m, t)),
{
    let h = m.header;
    assert((h | 0x8000_0000u32) >> 31u32 & 1u32 == 1u32) by (bit_vector);
    assert((h | 0x8000_0000u32) & 0xFFFFFu32 == h & 0xFFFFFu32) by (bit_vector);
    assert(((h | 0x8000_0000u32) >> 20u32) & 0x3Fu32 == (h >> 20u32) & 0x3Fu32) by (bit_vector);
}

/// Attaching a transaction replaces whatever transaction the message held before, sets
/// the header's transaction bit, and keeps the identifier, the body and every other bit of
/// the header, so both length fields too.
pub proof fn lemma_with_transaction_fields(m: SrvMessageView, t: u32)
    ensures
        with_transaction(m, t).transaction == Some(t),
        with_transaction(m, t).message_id == m.message_id,
        with_transaction(m, t).body == m.body,
        with_transaction(m, t).header & 0x7FFF_FFFFu32 == m.header & 0x7FFF_FFFFu32,
        with_transaction(m, t).header >> 31u32 == 1u32,
        header_word_body_len(with_transaction(m, t).header) == header_word_body_len(m.header),
        header_word_message_id_len(with_transaction(m, t).header) == header_word_message_id_len(
            m.header,
        ),
{
    let h = m.header;
    assert((h | 0x8000_0000u32) & 0x7FFF_FFFFu32 == h & 0x7FFF_FFFFu32) by (bit_vector);
    assert((h | 0x8000_0000u32) >> 31u32 == 1u32) by (bit_vector);
    assert((h | 0x8000_0000u32) & 0xFFFFFu32 == h & 0xFFFFFu32) by (bit_vector);
    assert(((h | 0x8000_0000u32) >> 20u32) & 0x3Fu32 == (h >> 20u32) & 0x3Fu32) by (bit_vector);
}

/// Attaching one transaction and then another is the same as attaching only the second:
/// the later transaction wins.
pub proof fn lemma_with_transaction_twice(m: SrvMessageView, first: u32, second: u32)
    ensures
        with_transaction(with_transaction(m, first), second) == with_transaction(m, second),
{
    let h = m.header;
    assert((h | 0x8000_0000u32) | 0x8000_0000u32 == h | 0x8000_0000u32) by (bit_vector);
}

/// The word that a reply attaches has the response bit set, the completion bit set exactly
/// when asked or already set, and the identifier of the request's transaction.
pub proof fn lemma_reply_word(t: u32, complete: bool)
    ensures
        txn_word_response(reply_word(t, complete)),
        txn_word_complete(reply_word(t, complete)) == (complete || txn_word_complete(t)),
        txn_word_id(reply_word(t, complete)) == txn_word_id(t),
{
    assert((t | 0x8000_0000u32) >> 31u32 & 1u32 == 1u32) by (bit_vector);
    assert((t | 0x8000_0000u32 | 0x4000_0000u32) >> 31u32 & 1u32 == 1u32) by (bit_vector);
    assert((t | 0x8000_0000u32) >> 30u32 & 1u32 == (t >> 30u32) & 1u32) by (bit_vector);
    assert((t | 0x8000_0000u32 | 0x4000_0000u32) >> 30u32 & 1u32 == 1u32) by (bit_vector);
    assert((t | 0x8000_0000u32) & 0x3FFF_FFFFu32 == t & 0x3FFF_FFFFu32) by (bit_vector);
    assert((t | 0x8000_0000u32 | 0x4000_0000u32) & 0x3FFF_FFFFu32 == t & 0x3FFF_FFFFu32)
        by (bit_vector);
}

/// A message whose header describes it has a header transaction bit in agreement with it;
/// the messages that `decode` returns are such messages.
pub proof fn lemma_header_matches_agrees(m: SrvMessageView)
    ensures
        header_matches(m) ==> txn_bit_agrees(m),
{
}

/// The text that describes a message in logs, given the quoted text of its identifier:
/// the header's text, then `Some(<transaction text>)` or `None`, then the identifier, with
/// `, ` between them.
pub open spec fn message_debug_text(m: SrvMessageView, id_text: Seq<char>) -> Seq<char> {
    header_word_debug_text(m.header) + ", "@ + match m.transaction {
        Some(w) => "Some("@ + txn_word_debug_text(w) + ")"@,
        None => "None"@,
    } + ", "@ + id_text
}

/// A message of the control gateway protocol: a header, an optional transaction, a
/// message identifier and a body.
#[derive(Clone, Debug)]
pub struct SrvMessage {
    header: SrvHeader,
    transaction: Option<SrvTxn>,
    message_id: String,
    body: Vec<u8>,
}

impl View for SrvMessage {
    type V = SrvMessageView;

    closed spec fn view(&self) -> SrvMessageView {
        SrvMessageView {
            header: self.header@,
            transaction: txn_bits(self.transaction),
            message_id: self.message_id@,
            body: self.body@,
        }
    }
}

impl SrvMessage {
    /// Builds a message, not part of a transaction, from a message identifier and an
    /// encoded body; the header records both lengths, each cast to `u32`.
    pub fn new(message_id: String, body: Vec<u8>) -> (msg: SrvMessage)
        ensures
            msg@ == (SrvMessageView {
                header: header_word(
                    body@.len() as u32,
                    encode_utf8(message_id@).len() as u32,
                    false,
                ),
                transaction: None,
                message_id: message_id@,
                body: body@,
            }),
            encode_utf8(message_id@).len() < 0x40 && body@.len() < 0x10_0000 ==> header_matches(
                msg@,
            ),
            encode_utf8(message_id@).len() < 0x800 && body@.len() < 0x8000_0000 ==> !header_word_is_txn(
                msg@.header,
            ) && txn_bit_agrees(msg@),
    {
        proof {
            let (b, m) = (body@.len() as u32, encode_utf8(message_id@).len() as u32);
            assert(b < 0x8000_0000u32 && m < 0x800u32 ==> (((0u32 << 31u32) | (m << 20u32) | b)
                >> 31u32) & 1u32 == 0u32) by (bit_vector);
        }
        let id_len = message_id.as_str().as_bytes().len();
        let header = SrvHeader::new(body.len() as u32, id_len as u32, false);
        SrvMessage { header, transaction: None, message_id, body }
    }

    /// Assembles a message from its parts, unchecked.
    pub(crate) fn from_parts(
        header: SrvHeader,
        transaction: Option<SrvTxn>,
        message_id: String,
        body: Vec<u8>,
    ) -> (msg: SrvMessage)
        ensures
            msg@ == (SrvMessageView {
                header: header@,
                transaction: txn_bits(transaction),
                message_id: message_id@,
                body: body@,
            }),
    {
        SrvMessage { header, transaction, message_id, body }
    }

    /// The encoded body.
    pub fn body(&self) -> (body: &Vec<u8>)
        ensures
            body@ == self@.body,
    {
        &self.body
    }

    /// The header.
    pub fn header(&self) -> (header: SrvHeader)
        ensures
            header@ == self@.header,
    {
        self.header
    }

    /// Whether the message carries a transaction marked complete.
    pub fn is_complete(&self) -> (complete: bool)
        ensures
            complete == (self@.transaction matches Some(w) && txn_word_complete(w)),
    {
        match self.transaction {
            Some(txn) => txn.is_complete(),
            None => false,
        }
    }

    /// Whether the message carries a transaction marked as a response.
    pub fn is_response(&self) -> (response: bool)
        ensures
            response == (self@.transaction matches Some(w) && txn_word_response(w)),
    {
        match self.transaction {
            Some(txn) => txn.is_response(),
            None => false,
        }
    }

    /// Whether the message carries a transaction.
    pub fn is_transaction(&self) -> (is_txn: bool)
        ensures
            is_txn == self@.transaction is Some,
    {
        self.transaction.is_some()
    }

    /// The message identifier.
    pub fn message_id(&self) -> (id: &str)
        ensures
            id@ == self@.message_id,
    {
        self.message_id.as_str()
    }

    /// Whether the message identifier is `name`.
    pub fn has_message_id(&self, name: &str) -> (same: bool)
        ensures
            same == (self@.message_id == name@),
    {
        let ours = self.message_id.as_str().as_bytes();
        let theirs = name.as_bytes();
        proof {
            encode_utf8_decode_utf8(self.message_id@);
            encode_utf8_decode_utf8(name@);
        }
        if ours.len() != theirs.len() {
            return false;
        }
        let mut i: usize = 0;
        while i < ours.len()
            invariant
                ours@.len() == theirs@.len(),
                (ours@ == theirs@) == (self@.message_id == name@),
                i <= ours@.len(),
                ours@.subrange(0, i as int) == theirs@.subrange(0, i as int),
            decreases ours@.len() - i,
        {
            if ours[i] != theirs[i] {
                assert(ours@[i as int] != theirs@[i as int]);
                assert(ours@ != theirs@);
                return false;
            }
            i += 1;
            assert(ours@.subrange(0, i as int) =~= theirs@.subrange(0, i as int)) by {
                assert(forall|k: int| 0 <= k < i - 1 ==> #[trigger] ours@.subrange(0, i - 1)[k]
                    == ours@[k]);
                assert(forall|k: int| 0 <= k < i - 1 ==> #[trigger] theirs@.subrange(0, i - 1)[k]
                    == theirs@[k]);
            }
        }
        assert(ours@ =~= ours@.subrange(0, i as int));
        assert(theirs@ =~= theirs@.subrange(0, i as int));
        true
    }

    /// The text that describes this message in logs, with `id_text` standing for the
    /// identifier.
    pub fn debug_string_with_id_text(&self, id_text: &str) -> (text: String)
        ensures
            text@ == message_debug_text(self@, id_text@),
    {
        let mut text = self.header.debug_string();
        text.append(", ");
        match self.transaction {
            Some(txn) => {
                text.append("Some(");
                let t = txn.debug_string();
                text.append(t.as_str());
                text.append(")");
            },
            None => {
                text.append("None");
            },
        }
        text.append(", ");
        text.append(id_text);
        text
    }

    /// The text that describes this message in logs, with the identifier quoted.
    pub fn debug_string(&self) -> (text: String)
        ensures
            text@ == message_debug_text(self@, str_debug_text(self@.message_id)),
    {
        let id_text = str_debug(self.message_id.as_str());
        self.debug_string_with_id_text(id_text.as_str())
    }

    /// Turns this message into a reply within `txn`: the transaction gets its response bit,
    /// and its completion bit when `complete`, and is attached to the message.
    pub fn reply_for(&mut self, txn: SrvTxn, complete: bool)
        ensures
            final(self)@ == with_transaction(old(self)@, reply_word(txn@, complete)),
            final(self)@.transaction == Some(reply_word(txn@, complete)),
            final(self)@.message_id == old(self)@.message_id,
            final(self)@.body == old(self)@.body,
            final(self)@.header == old(self)@.header | 0x8000_0000u32,
            txn_bit_agrees(final(self)@),
            final(self).is_response_spec(),
            final(self).is_complete_spec() == (complete || txn.spec_is_complete()),
            txn_word_id(final(self)@.transaction.unwrap()) == txn.spec_id(),
            header_matches(old(self)@) ==> header_matches(
                final(self)@,
            ),
    {
        let mut txn = txn;
        let ghost w = txn@;
        txn.set_response();
        if complete {
            txn.set_complete();
        }
        assert((w | 0x8000_0000u32) & 0x3FFF_FFFFu32 == w & 0x3FFF_FFFFu32) by (bit_vector);
        assert((w | 0x8000_0000u32 | 0x4000_0000u32) & 0x3FFF_FFFFu32 == w & 0x3FFF_FFFFu32)
            by (bit_vector);
        self.set_transaction(txn);
    }

    /// Whether the model carries a transaction marked as a response.
    pub open spec fn is_response_spec(self) -> bool {
        self@.transaction matches Some(w) && txn_word_response(w)
    }

    /// Whether the model carries a transaction marked complete.
    pub open spec fn is_complete_spec(self) -> bool {
        self@.transaction matches Some(w) && txn_word_complete(w)
    }

    /// The number of bytes that this message takes on the wire.
    pub fn size(&self) -> (size: usize)
        requires
            encode_frame(self@).len() <= usize::MAX,
        ensures
            size == encode_frame(self@).len(),
    {
        let mut size: usize = HEADER_LEN;
        if self.transaction.is_some() {
            size += TXN_LEN;
        }
        size += self.message_id().len();
        size += self.body().len();
        size
    }

    /// The transaction, if any.
    pub fn transaction(&self) -> (txn: Option<SrvTxn>)
        ensures
            txn_bits(txn) == self@.transaction,
    {
        self.transaction
    }

    /// Attaches `txn` to this message and marks the header as transactional.
    pub fn set_transaction(&mut self, txn: SrvTxn)
        ensures
            final(self)@ == with_transaction(old(self)@, txn@),
            final(self)@.transaction == Some(txn@),
            final(self)@.message_id == old(self)@.message_id,
            final(self)@.body == old(self)@.body,
            final(self)@.header == old(self)@.header | 0x8000_0000u32,
            txn_bit_agrees(final(self)@),
            header_matches(old(self)@) ==> header_matches(
                final(self)@,
            ),
    {
        proof {
            lemma_with_transaction_agrees(self@, txn@);
            lemma_with_transaction_fields(self@, txn@);
        }
        self.header.set_is_transaction();
        self.transaction = Some(txn);
    }
}

} // verus!
