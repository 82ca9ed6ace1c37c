use bytes::BytesMut;
use habitat_sup::{SrvCodec, SrvHeader, SrvMessage, SrvTxn, MAX_TXN_ID};

#[test]
fn test_header_pack_unpack() {
    let body_value = 305888;
    let message_id_value = 40;
    let header = SrvHeader::new(body_value, message_id_value, true);
    assert_eq!(header.body_len(), body_value as usize);
    assert_eq!(header.message_id_len(), message_id_value as usize);
    assert_eq!(header.is_transaction(), true);
}

#[test]
fn test_txn_set_complete() {
    let mut header = SrvHeader::new(0, 0, false);
    assert_eq!(header.is_transaction(), false);
    header.set_is_transaction();
    assert_eq!(header.is_transaction(), true);
}

#[test]
fn test_txn_pack_unpack() {
    let mut txn = SrvTxn::new(MAX_TXN_ID);
    assert_eq!(txn.is_complete(), false);
    assert_eq!(txn.is_response(), false);

    txn.set_complete();
    assert_eq!(txn.is_complete(), true);
    assert_eq!(txn.is_response(), false);

    txn.set_response();
    assert_eq!(txn.is_complete(), true);
    assert_eq!(txn.is_response(), true);
}

/// The protobuf encoding of a `NetErr` whose `code` field is `NotFound` (field 1, value 2)
/// and whose `msg` field is "this" (field 2).
fn net_err_body() -> Vec<u8> {
    vec![0x08, 0x02, 0x12, 0x04, b't', b'h', b'i', b's']
}

#[test]
fn test_codec() {
    let mut codec = SrvCodec::new();
    let msg = SrvMessage::new("NetErr".to_string(), net_err_body());
    let mut buf = BytesMut::new();
    codec.encode(msg.clone(), &mut buf);
    assert!(codec.can_decode(&buf));
    let decoded = codec.decode(&mut buf).unwrap();

    assert_eq!(decoded.header(), msg.header());
    assert_eq!(decoded.message_id(), msg.message_id());
    assert_eq!(decoded.transaction(), msg.transaction());
    assert_eq!(decoded.body(), msg.body());
}
