use bytes::BytesMut;
use habitat_sup::{SrvCodec, SrvHeader, SrvMessage, SrvTxn, MAX_TXN_ID};

fn encoded(msg: &SrvMessage) -> BytesMut {
    let mut buf = BytesMut::new();
    SrvCodec::new().encode(msg.clone(), &mut buf);
    buf
}

#[test]
fn header_new_packs_fields_at_their_offsets() {
    assert_eq!(SrvHeader::new(1, 2, true), SrvHeader::from(0x8020_0001));
    assert_eq!(SrvHeader::new(0xFFFFF, 0x3F, false), SrvHeader::from(0x03FF_FFFF));
}

#[test]
fn header_fields_that_overflow_bleed_into_their_neighbours() {
    let header = SrvHeader::new(0x10_0000, 0, false);
    assert_eq!(header.body_len(), 0);
    assert_eq!(header.message_id_len(), 1);
    let header = SrvHeader::new(0, 0x800, false);
    assert_eq!(header.is_transaction(), true);
}

#[test]
fn header_set_is_transaction_keeps_lengths() {
    let mut header = SrvHeader::new(17, 5, false);
    header.set_is_transaction();
    assert_eq!(header.body_len(), 17);
    assert_eq!(header.message_id_len(), 5);
    assert!(header.is_transaction());
}

#[test]
fn txn_new_reads_back_its_id() {
    let txn = SrvTxn::new(12345);
    assert_eq!(txn.id(), 12345);
    assert!(!txn.is_complete());
    assert!(!txn.is_response());
}

#[test]
fn txn_set_response_keeps_id() {
    let mut txn = SrvTxn::new(77);
    txn.set_response();
    assert_eq!(txn.id(), 77);
    assert_eq!(txn, SrvTxn::from(0x8000_004D));
}

#[test]
fn txn_set_complete_keeps_id() {
    let mut txn = SrvTxn::new(7);
    txn.set_complete();
    assert_eq!(txn.id(), 7);
    assert_eq!(txn, SrvTxn::from(0x4000_0007));
    txn.set_response();
    assert_eq!(txn.id(), 7);
    assert_eq!(SrvTxn::from(0xFFFF_FFFF).id(), MAX_TXN_ID);
}

#[test]
fn next_id_always_gives_a_valid_id() {
    assert_eq!(SrvTxn::next_id(0), 1);
    assert_eq!(SrvTxn::next_id(1), 1);
    assert_eq!(SrvTxn::next_id(42), 42);
    assert_eq!(SrvTxn::next_id(MAX_TXN_ID - 1), MAX_TXN_ID - 1);
    assert_eq!(SrvTxn::next_id(MAX_TXN_ID), 1);
    assert_eq!(SrvTxn::next_id(MAX_TXN_ID + 1), 1);
    assert_eq!(SrvTxn::next_id(u32::MAX), 1);
    for id in [0, 5, MAX_TXN_ID, u32::MAX] {
        assert_eq!(SrvTxn::new(SrvTxn::next_id(id)).id(), SrvTxn::next_id(id));
    }
}

#[test]
fn message_new_records_lengths() {
    let msg = SrvMessage::new("Ping".to_string(), vec![1, 2, 3]);
    assert_eq!(msg.header(), SrvHeader::new(3, 4, false));
    assert_eq!(msg.transaction(), None);
    assert!(!msg.is_transaction());
    assert!(!msg.is_complete());
    assert!(!msg.is_response());
    assert_eq!(msg.message_id(), "Ping");
    assert_eq!(msg.body(), &vec![1, 2, 3]);
    assert_eq!(msg.size(), 4 + 4 + 3);
}

#[test]
fn message_id_length_counts_utf8_bytes() {
    let msg = SrvMessage::new("é".to_string(), vec![]);
    assert_eq!(msg.header().message_id_len(), 2);
    assert_eq!(msg.size(), 6);
}

#[test]
fn set_transaction_marks_header() {
    let mut msg = SrvMessage::new("Ping".to_string(), vec![9]);
    msg.set_transaction(SrvTxn::new(5));
    assert!(msg.is_transaction());
    assert!(msg.header().is_transaction());
    assert_eq!(msg.header().body_len(), 1);
    assert_eq!(msg.transaction(), Some(SrvTxn::new(5)));
    assert_eq!(msg.size(), 4 + 4 + 4 + 1);
}

#[test]
fn reply_for_marks_response_and_completion() {
    let mut msg = SrvMessage::new("Pong".to_string(), vec![]);
    msg.reply_for(SrvTxn::new(9), false);
    assert!(msg.is_response());
    assert!(!msg.is_complete());
    assert_eq!(msg.transaction().unwrap().id(), 9);

    let mut last = SrvMessage::new("Pong".to_string(), vec![]);
    last.reply_for(SrvTxn::new(9), true);
    assert!(last.is_response());
    assert!(last.is_complete());
    assert_eq!(last.transaction(), Some(SrvTxn::from(0xC000_0009)));
}

#[test]
fn encode_writes_exact_frame() {
    let mut msg = SrvMessage::new("ab".to_string(), vec![7, 8, 9]);
    msg.set_transaction(SrvTxn::new(0x0102_0304));
    let buf = encoded(&msg);
    assert_eq!(
        &buf[..],
        &[0x80, 0x20, 0x00, 0x03, 0x01, 0x02, 0x03, 0x04, b'a', b'b', 7, 8, 9][..]
    );
    assert_eq!(buf.len(), msg.size());
}

#[test]
fn encode_appends_after_existing_bytes() {
    let msg = SrvMessage::new("x".to_string(), vec![]);
    let mut buf = BytesMut::new();
    buf.extend_from_slice(&[0xAA]);
    SrvCodec::new().encode(msg, &mut buf);
    assert_eq!(&buf[..], &[0xAA, 0x00, 0x10, 0x00, 0x00, b'x'][..]);
}

#[test]
fn decode_reads_hand_written_frame() {
    let mut buf = BytesMut::new();
    buf.extend_from_slice(&[0x00, 0x20, 0x00, 0x01, b'h', b'i', 0x55, 0xEE]);
    let msg = SrvCodec::new().decode(&mut buf).unwrap();
    assert_eq!(msg.message_id(), "hi");
    assert_eq!(msg.body(), &vec![0x55]);
    assert_eq!(msg.transaction(), None);
    assert_eq!(&buf[..], &[0xEE][..]);
}

#[test]
fn decode_waits_for_whole_frame() {
    let mut msg = SrvMessage::new("Status".to_string(), vec![1, 2, 3, 4]);
    msg.set_transaction(SrvTxn::new(3));
    let full = encoded(&msg);
    let mut codec = SrvCodec::new();
    for n in 0..full.len() {
        let mut part = BytesMut::new();
        part.extend_from_slice(&full[..n]);
        assert!(codec.can_decode(&part));
        assert!(codec.decode(&mut part).is_none());
        assert_eq!(&part[..], &full[..n]);
    }
}

#[test]
fn decode_takes_frames_in_order() {
    let first = SrvMessage::new("One".to_string(), vec![1]);
    let mut second = SrvMessage::new("Two".to_string(), vec![2, 2]);
    second.reply_for(SrvTxn::new(8), true);
    let mut buf = encoded(&first);
    SrvCodec::new().encode(second.clone(), &mut buf);
    let mut codec = SrvCodec::new();
    let a = codec.decode(&mut buf).unwrap();
    let b = codec.decode(&mut buf).unwrap();
    assert!(codec.decode(&mut buf).is_none());
    assert!(buf.is_empty());
    assert_eq!(a.message_id(), "One");
    assert_eq!(a.body(), first.body());
    assert_eq!(b.message_id(), "Two");
    assert_eq!(b.header(), second.header());
    assert_eq!(b.transaction(), second.transaction());
    assert!(b.is_complete() && b.is_response());
}

#[test]
fn reencoding_a_decoded_frame_gives_its_bytes() {
    let raw = [0x80, 0x10, 0x00, 0x02, 0x00, 0x00, 0x00, 0x2A, b'z', 0x10, 0x20];
    let mut buf = BytesMut::new();
    buf.extend_from_slice(&raw);
    let msg = SrvCodec::new().decode(&mut buf).unwrap();
    assert_eq!(&encoded(&msg)[..], &raw[..]);
}

#[test]
fn can_decode_rejects_invalid_utf8_identifier() {
    let mut buf = BytesMut::new();
    buf.extend_from_slice(&[0x00, 0x10, 0x00, 0x00, 0xFF]);
    assert!(!SrvCodec::new().can_decode(&buf));
    let mut incomplete = BytesMut::new();
    incomplete.extend_from_slice(&[0x00, 0x20, 0x00, 0x00, 0xFF]);
    assert!(SrvCodec::new().can_decode(&incomplete));
}

#[test]
fn decode_gives_utf8_identifier_back() {
    let msg = SrvMessage::new("naïve".to_string(), vec![0]);
    let mut buf = encoded(&msg);
    let decoded = SrvCodec::new().decode(&mut buf).unwrap();
    assert_eq!(decoded.message_id(), "naïve");
}

#[test]
fn has_message_id_compares_whole_identifier() {
    let msg = SrvMessage::new("NetErr".to_string(), vec![]);
    assert!(msg.has_message_id("NetErr"));
    assert!(!msg.has_message_id("NetEr"));
    assert!(!msg.has_message_id("NetErs"));
    assert!(!msg.has_message_id(""));
}

#[test]
fn can_encode_accepts_ordinary_frames() {
    let msg = SrvMessage::new("Ping".to_string(), vec![1, 2]);
    let buf = BytesMut::new();
    assert!(SrvCodec::new().can_encode(&msg, &buf));
}

#[test]
fn message_new_is_not_a_transaction() {
    let msg = SrvMessage::new("x".repeat(100), vec![0; 10]);
    assert!(!msg.header().is_transaction());
    assert!(!msg.is_transaction());
}

#[test]
fn txn_debug_string() {
    let mut txn = SrvTxn::new(305);
    assert_eq!(txn.debug_string(), "SrvTxn[id: 305, is_complete: false, is_response: false]");
    txn.set_complete();
    txn.set_response();
    assert_eq!(txn.debug_string(), "SrvTxn[id: 305, is_complete: true, is_response: true]");
    assert_eq!(SrvTxn::new(0).debug_string(), "SrvTxn[id: 0, is_complete: false, is_response: false]");
}

#[test]
fn header_debug_string() {
    let header = SrvHeader::new(305888, 40, true);
    assert_eq!(header.debug_string(), "SrvHeader[body_len: 305888, message_id_len: 40, is_txn: true]");
    assert_eq!(
        SrvHeader::new(0, 0, false).debug_string(),
        "SrvHeader[body_len: 0, message_id_len: 0, is_txn: false]"
    );
}

#[test]
fn message_debug_string() {
    let mut msg = SrvMessage::new("Ping".to_string(), vec![1, 2]);
    assert_eq!(
        msg.debug_string(),
        "SrvHeader[body_len: 2, message_id_len: 4, is_txn: false], None, \"Ping\""
    );
    assert_eq!(
        msg.debug_string_with_id_text("<id>"),
        "SrvHeader[body_len: 2, message_id_len: 4, is_txn: false], None, <id>"
    );
    msg.set_transaction(SrvTxn::new(10));
    assert_eq!(
        msg.debug_string(),
        "SrvHeader[body_len: 2, message_id_len: 4, is_txn: true], \
         Some(SrvTxn[id: 10, is_complete: false, is_response: false]), \"Ping\""
    );
    let quoted = SrvMessage::new("a\"b".to_string(), vec![]);
    assert!(quoted.debug_string().ends_with(", \"a\\\"b\""));
}

#[test]
fn transaction_bit_agrees_after_changes() {
    let mut msg = SrvMessage::new("Ping".to_string(), vec![]);
    assert_eq!(msg.is_transaction(), msg.header().is_transaction());
    msg.set_transaction(SrvTxn::new(1));
    assert_eq!(msg.is_transaction(), msg.header().is_transaction());
    msg.reply_for(SrvTxn::new(2), true);
    assert_eq!(msg.is_transaction(), msg.header().is_transaction());
    let mut buf = BytesMut::new();
    SrvCodec::new().encode(msg, &mut buf);
    let decoded = SrvCodec::new().decode(&mut buf).unwrap();
    assert_eq!(decoded.is_transaction(), decoded.header().is_transaction());
}
