use ring_node::codec::{
    parse_pdu, NetAlivePdu, NetCloseConnectionPdu, NetGetNodePdu, NetGetNodeResponsePdu,
    NetJoinPdu, NetJoinResponsePdu, NetLeavingPdu, NetNewRangePdu, NetNewRangeResponsePdu,
    ParseError, ParsePdu, StunLookupPdu, StunResponsePdu, ValInsertPdu, ValLookupPdu,
    ValLookupResponsePdu, ValRemovePdu, NET_ALIVE_SIZE, NET_CLOSE_CONNECTION_SIZE,
    NET_GET_NODE_RESPONSE_SIZE, NET_GET_NODE_SIZE, NET_JOIN_RESPONSE_SIZE, NET_JOIN_SIZE,
    NET_LEAVING_SIZE, NET_NEW_RANGE_RESPONSE_SIZE, NET_NEW_RANGE_RESPONSE_ID, NET_NEW_RANGE_SIZE,
    SSN_LENGTH, STUN_LOOKUP_SIZE, STUN_RESPONSE_SIZE, VAL_LOOKUP_SIZE, VAL_REMOVE_SIZE, PDU,
};

#[test]
fn test_net_alive() {
    let a = NetAlivePdu::new();
    let b: Vec<u8> = a.to_bytes();
    assert_eq!(b.len(), NET_ALIVE_SIZE);
    let (_a, b) = NetAlivePdu::try_parse(&b).unwrap();
    assert_eq!(b, NET_ALIVE_SIZE);
}

#[test]
fn test_net_get_node() {
    let a = NetGetNodePdu::new();
    let b: Vec<u8> = a.to_bytes();
    assert_eq!(b.len(), NET_GET_NODE_SIZE);
    let (_a, b) = NetGetNodePdu::try_parse(&b).unwrap();
    assert_eq!(b, NET_GET_NODE_SIZE);
}

#[test]
fn test_net_get_node_response() {
    let a = NetGetNodeResponsePdu::new(123456, 1234);
    let b: Vec<u8> = a.to_bytes();
    assert_eq!(b.len(), NET_GET_NODE_RESPONSE_SIZE);
    let (a, b) = NetGetNodeResponsePdu::try_parse(&b).unwrap();
    assert_eq!(b, NET_GET_NODE_RESPONSE_SIZE);
    assert_eq!(123456, a.address);
    assert_eq!(1234, a.port);
}

#[test]
fn test_net_join() {
    let a = NetJoinPdu::new(1010, 1011, 10, 1122, 1123);
    let b: Vec<u8> = a.to_bytes();
    assert_eq!(b.len(), NET_JOIN_SIZE);
    let (a, b) = NetJoinPdu::try_parse(&b).unwrap();
    assert_eq!(b, NET_JOIN_SIZE);
    assert_eq!(1010, a.src_address);
    assert_eq!(1011, a.src_port);
    assert_eq!(10, a.max_span);
    assert_eq!(1122, a.max_address);
    assert_eq!(1123, a.max_port);
}

#[test]
fn test_net_join_response() {
    let a = NetJoinResponsePdu::new(123456, 1234, 10, 20);
    let b: Vec<u8> = a.to_bytes();
    assert_eq!(b.len(), NET_JOIN_RESPONSE_SIZE);
    let (a, b) = NetJoinResponsePdu::try_parse(&b).unwrap();
    assert_eq!(b, NET_JOIN_RESPONSE_SIZE);
    assert_eq!(123456, a.next_address);
    assert_eq!(1234, a.next_port);
    assert_eq!(10, a.range_start);
    assert_eq!(20, a.range_end);
}

#[test]
fn test_net_close_connection() {
    let a = NetCloseConnectionPdu::new();
    let b: Vec<u8> = a.to_bytes();
    assert_eq!(b.len(), NET_CLOSE_CONNECTION_SIZE);
    let (_a, b) = NetCloseConnectionPdu::try_parse(&b).unwrap();
    assert_eq!(b, NET_CLOSE_CONNECTION_SIZE);
}

#[test]
fn test_net_new_range() {
    let a = NetNewRangePdu::new(1, 255);
    let b: Vec<u8> = a.to_bytes();
    assert_eq!(b.len(), NET_NEW_RANGE_SIZE);
    let (a, b) = NetNewRangePdu::try_parse(&b).unwrap();
    assert_eq!(b, NET_NEW_RANGE_SIZE);
    assert_eq!(a.range_start, 1);
    assert_eq!(a.range_end, 255);
}

#[test]
fn test_net_new_range_response() {
    let a = NetNewRangeResponsePdu::new();
    let b: Vec<u8> = a.to_bytes();
    assert_eq!(b.len(), NET_NEW_RANGE_RESPONSE_SIZE);
    let (a, b) = NetNewRangeResponsePdu::try_parse(&b).unwrap();
    assert_eq!(b, NET_NEW_RANGE_RESPONSE_SIZE);
    assert_eq!(a.pdu_type, NET_NEW_RANGE_RESPONSE_ID);
}

#[test]
fn test_net_leaving() {
    let a = NetLeavingPdu::new(12345, 255);
    let b: Vec<u8> = a.to_bytes();
    assert_eq!(b.len(), NET_LEAVING_SIZE);
    let (a, b) = NetLeavingPdu::try_parse(&b).unwrap();
    assert_eq!(b, NET_LEAVING_SIZE);
    assert_eq!(a.new_address, 12345);
    assert_eq!(a.new_port, 255);
}

#[test]
fn test_val_insert() {
    let ssn = "111111111111".to_owned();
    let name = "Test".to_owned();
    let email = "Emai".to_owned();
    let a = ValInsertPdu::new(ssn.clone(), name.clone(), email.clone());
    let b: Vec<u8> = a.to_bytes();
    let len = 1 + SSN_LENGTH + 1 + name.len() + 1 + email.len();
    assert_eq!(b.len(), len);
    let (a, b) = ValInsertPdu::try_parse(&b).unwrap();
    assert_eq!(b, len);
    assert_eq!(a.ssn, ssn);
    assert_eq!(a.name_length, name.len() as u8);
    assert_eq!(a.name, name);
    assert_eq!(a.email_length, email.len() as u8);
    assert_eq!(a.email, email);
}

#[test]
fn test_val_remove() {
    let ssn = "111111111111".to_owned();
    let a = ValRemovePdu::new(ssn.clone());
    let b: Vec<u8> = a.to_bytes();
    assert_eq!(b.len(), VAL_REMOVE_SIZE);
    let (a, b) = ValRemovePdu::try_parse(&b).unwrap();
    assert_eq!(b, VAL_REMOVE_SIZE);
    assert_eq!(a.ssn, ssn);
}

#[test]
fn test_val_lookup() {
    let ssn = "111111111111".to_owned();
    let a = ValLookupPdu::new(ssn.clone(), 12345, 1234);
    let b: Vec<u8> = a.to_bytes();
    assert_eq!(b.len(), VAL_LOOKUP_SIZE);
    let (a, b) = ValLookupPdu::try_parse(&b).unwrap();
    assert_eq!(b, VAL_LOOKUP_SIZE);
    assert_eq!(a.ssn, ssn);
    assert_eq!(a.sender_address, 12345);
    assert_eq!(a.sender_port, 1234);
}

#[test]
fn test_val_lookup_response() {
    let ssn = "111111111111".to_owned();
    let name = "Test".to_owned();
    let email = "Emai".to_owned();
    let a = ValLookupResponsePdu::new(ssn.clone(), name.clone(), email.clone());
    let b: Vec<u8> = a.to_bytes();
    let len = 1 + SSN_LENGTH + 1 + name.len() + 1 + email.len();
    assert_eq!(b.len(), len);
    let (a, b) = ValLookupResponsePdu::try_parse(&b).unwrap();
    assert_eq!(b, len);
    assert_eq!(a.ssn, ssn);
    assert_eq!(a.name_length, name.len() as u8);
    assert_eq!(a.name, name);
    assert_eq!(a.email_length, email.len() as u8);
    assert_eq!(a.email, email);
}

#[test]
fn test_stun_lookup() {
    let a = StunLookupPdu::new();
    let b: Vec<u8> = a.to_bytes();
    assert_eq!(b.len(), STUN_LOOKUP_SIZE);
    let (_a, b) = StunLookupPdu::try_parse(&b).unwrap();
    assert_eq!(b, STUN_LOOKUP_SIZE);
}

#[test]
fn test_stun_response() {
    let a = StunResponsePdu::new(12345);
    let b: Vec<u8> = a.to_bytes();
    assert_eq!(b.len(), STUN_RESPONSE_SIZE);
    let (a, b) = StunResponsePdu::try_parse(&b).unwrap();
    assert_eq!(b, STUN_RESPONSE_SIZE);
    assert_eq!(a.address, 12345);
}

#[test]
fn test_val_lookup_response_keeps_own_tag() {
    // Same wire layout as an insert, but the decoder must keep the
    // response's own tag so the round trip is exact.
    let a = ValLookupResponsePdu::new("222222222222".to_owned(), "N".to_owned(), "E".to_owned());
    let tag = a.pdu_type;
    let b = a.to_bytes();
    let (a, _) = ValLookupResponsePdu::try_parse(&b).unwrap();
    assert_eq!(a.pdu_type, tag);
}

#[test]
fn test_val_insert_boundary_empty_strings() {
    let a = ValInsertPdu::new("000000000000".to_owned(), String::new(), String::new());
    let b = a.to_bytes();
    assert_eq!(b.len(), 1 + SSN_LENGTH + 1 + 0 + 1 + 0);
    let (a, used) = ValInsertPdu::try_parse(&b).unwrap();
    assert_eq!(used, b.len());
    assert_eq!(a.ssn, "000000000000");
    assert_eq!(a.name, "");
    assert_eq!(a.email, "");
}

#[test]
fn test_net_get_node_response_zero_addr_roundtrip() {
    let a = NetGetNodeResponsePdu::new(0, 0);
    let b = a.to_bytes();
    let (a, _) = NetGetNodeResponsePdu::try_parse(&b).unwrap();
    assert_eq!(a.address, 0);
    assert_eq!(a.port, 0);
}

#[test]
fn test_parse_pdu_dispatch() {
    let bytes = PDU::NetJoin(NetJoinPdu::new(7, 8, 9, 10, 11)).to_bytes();
    match parse_pdu(&bytes) {
        Ok(Some((PDU::NetJoin(p), used))) => {
            assert_eq!(used, NET_JOIN_SIZE);
            assert_eq!(p.src_address, 7);
            assert_eq!(p.src_port, 8);
            assert_eq!(p.max_span, 9);
        }
        other => panic!("expected a complete join, got {:?}", other),
    }
}

#[test]
fn test_parse_pdu_incomplete() {
    // A join is 14 bytes; the first 5 alone decode to nothing yet.
    let bytes = PDU::NetJoin(NetJoinPdu::new(7, 8, 9, 10, 11)).to_bytes();
    assert!(matches!(parse_pdu(&bytes[..5]), Ok(None)));
    assert!(matches!(parse_pdu(&[]), Ok(None)));
}

#[test]
fn test_parse_pdu_unknown_tag() {
    let bytes = [42u8, 0, 0];
    assert!(matches!(parse_pdu(&bytes), Err(ParseError::UnknownTag(42))));
}

#[test]
fn test_val_insert_incomplete_variable_fields() {
    let a = ValInsertPdu::new("111111111111".to_owned(), "Name".to_owned(), "Mail".to_owned());
    let b = a.to_bytes();
    // Cutting the buffer anywhere short of the full size leaves the
    // decoder waiting for more bytes.
    for cut in 0..b.len() {
        assert!(ValInsertPdu::try_parse(&b[..cut]).is_none());
    }
}

#[test]
fn test_exact_wire_layout() {
    // Tag byte first, then the fields, big-endian, no padding.
    let b = NetJoinResponsePdu::new(0x01020304, 0x0506, 7, 8).to_bytes();
    assert_eq!(b, vec![4, 1, 2, 3, 4, 5, 6, 7, 8]);
    let b = NetJoinPdu::new(0x0A0B0C0D, 0x0E0F, 3, 0x10111213, 0x1415).to_bytes();
    assert_eq!(
        b,
        vec![3, 0x0A, 0x0B, 0x0C, 0x0D, 0x0E, 0x0F, 3, 0x10, 0x11, 0x12, 0x13, 0x14, 0x15]
    );
    let b = ValInsertPdu::new("ABCDEFGHIJKL".to_owned(), "xy".to_owned(), "z".to_owned())
        .to_bytes();
    let mut expected = vec![100u8];
    expected.extend(b"ABCDEFGHIJKL");
    expected.push(2);
    expected.extend(b"xy");
    expected.push(1);
    expected.extend(b"z");
    assert_eq!(b, expected);
}

#[test]
fn test_char_low_bits_on_wire() {
    // Characters above 255 are truncated to their low eight bits.
    let a = ValInsertPdu::new("111111111111".to_owned(), "\u{0141}".to_owned(), String::new());
    let b = a.to_bytes();
    assert_eq!(b[1 + SSN_LENGTH + 1], 0x41);
}
