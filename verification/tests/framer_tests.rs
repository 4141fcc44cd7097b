use ring_node::addr::PeerAddr;
use ring_node::codec::{NetJoinPdu, NetNewRangePdu, StunResponsePdu, ValInsertPdu, PDU};
use ring_node::framer::{FramerError, TcpWrapper, UdpWrapper, BUFFER_SIZE};

fn addr(ip: u32, port: u16) -> PeerAddr {
    PeerAddr::new(ip, port)
}

#[test]
fn test_tcp_framer_accumulates_partial_reads() {
    let mut w = TcpWrapper::new();
    let peer = addr(7, 70);
    let bytes = PDU::NetJoin(NetJoinPdu::new(1, 2, 3, 4, 5)).to_bytes();
    // The first half of the message decodes to nothing yet.
    w.feed(&bytes[..6], peer).unwrap();
    assert!(w.next_pdu().is_none());
    // The rest completes it.
    w.feed(&bytes[6..], peer).unwrap();
    let (pdu, from) = w.next_pdu().unwrap();
    assert_eq!(from, peer);
    match pdu {
        PDU::NetJoin(j) => {
            assert_eq!(j.src_address, 1);
            assert_eq!(j.src_port, 2);
            assert_eq!(j.max_span, 3);
        }
        other => panic!("expected the join back, got {:?}", other),
    }
    assert!(w.next_pdu().is_none());
}

#[test]
fn test_framer_queue_is_fifo() {
    let mut w = TcpWrapper::new();
    let peer = addr(7, 70);
    let mut bytes = PDU::NetNewRange(NetNewRangePdu::new(0, 127)).to_bytes();
    bytes.extend(PDU::StunResponse(StunResponsePdu::new(42)).to_bytes());
    w.feed(&bytes, peer).unwrap();
    assert!(matches!(w.next_pdu().unwrap().0, PDU::NetNewRange(_)));
    assert!(matches!(w.next_pdu().unwrap().0, PDU::StunResponse(_)));
    assert!(w.next_pdu().is_none());
}

#[test]
fn test_udp_framer_tags_messages_with_sender() {
    let mut w = UdpWrapper::new();
    let first = PDU::StunResponse(StunResponsePdu::new(1)).to_bytes();
    let second = PDU::StunResponse(StunResponsePdu::new(2)).to_bytes();
    w.feed(&first, addr(10, 100)).unwrap();
    w.feed(&second, addr(20, 200)).unwrap();
    let (pdu, from) = w.next_pdu().unwrap();
    assert_eq!(from, addr(10, 100));
    assert!(matches!(pdu, PDU::StunResponse(p) if p.address == 1));
    let (pdu, from) = w.next_pdu().unwrap();
    assert_eq!(from, addr(20, 200));
    assert!(matches!(pdu, PDU::StunResponse(p) if p.address == 2));
}

#[test]
fn test_framer_string_fields_survive_framing() {
    let mut w = UdpWrapper::new();
    let msg = PDU::ValInsert(ValInsertPdu::new(
        "111111111111".to_owned(),
        "Name".to_owned(),
        "mail@example".to_owned(),
    ));
    w.feed(&msg.to_bytes(), addr(3, 30)).unwrap();
    match w.next_pdu().unwrap().0 {
        PDU::ValInsert(p) => {
            assert_eq!(p.ssn, "111111111111");
            assert_eq!(p.name, "Name");
            assert_eq!(p.email, "mail@example");
        }
        other => panic!("expected the insert back, got {:?}", other),
    }
}

#[test]
fn test_framer_unknown_tag_is_fatal_but_keeps_queue() {
    let mut w = TcpWrapper::new();
    let peer = addr(7, 70);
    let mut bytes = PDU::StunResponse(StunResponsePdu::new(9)).to_bytes();
    bytes.push(42);  // no PDU kind owns tag 42
    let r = w.feed(&bytes, peer);
    assert_eq!(r.unwrap_err(), FramerError::UnknownTag(42));
    // The message decoded before the bad tag is still queued.
    assert!(matches!(w.next_pdu().unwrap().0, PDU::StunResponse(_)));
}

#[test]
fn test_framer_overflow_is_fatal() {
    let mut w = TcpWrapper::new();
    let peer = addr(7, 70);
    // One read of more bytes than the buffer may ever hold is fatal.
    let chunk = vec![0u8; BUFFER_SIZE + 1];
    let r = w.feed(&chunk, peer);
    assert_eq!(r.unwrap_err(), FramerError::BufferOverflow);
}
