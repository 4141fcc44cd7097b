use ring_node::addr::PeerAddr;
use ring_node::codec::{
    NetAlivePdu, NetGetNodeResponsePdu, NetJoinPdu, NetLeavingPdu, NetNewRangePdu,
    NetNewRangeResponsePdu, StunResponsePdu, ValInsertPdu, ValLookupPdu, ValRemovePdu, PDU,
};
use ring_node::node::{Action, Node, NodeError, Phase, Source};
use ring_node::record::Entry;

// Bucket values used below: "111111111111" hashes to 17,
// "222222222222" to 93, "333333333333" to 169, "999999999999" to 113.

fn addr(ip: u32, port: u16) -> PeerAddr {
    PeerAddr::new(ip, port)
}

fn main_loop_node(lo: u8, hi: u8) -> Node {
    let mut n = Node::new(addr(1, 1000), addr(2, 2000));
    n.phase = Phase::MainLoop;
    n.own_address = Some(2);
    n.hash_range = (lo, hi);
    n
}

fn insert_pdu(ssn: &str, name: &str, email: &str) -> ValInsertPdu {
    ValInsertPdu::new(ssn.to_owned(), name.to_owned(), email.to_owned())
}

#[test]
fn test_hash() {
    let ssn = String::from("aaaaabbbbbcc");
    assert_eq!(Entry::hash_ssn(&ssn), 26);
}

#[test]
fn test_hash_stable_across_calls() {
    let ssn = String::from("aaaaabbbbbcc");
    let first = Entry::hash_ssn(&ssn);
    let second = Entry::hash_ssn(&ssn);
    assert_eq!(first, second);
    let e = Entry::new(ssn, "a".to_owned(), "b".to_owned());
    assert_eq!(e.hash(), first);
}

#[test]
fn test_seed_bootstrap_claims_whole_range() {
    let mut n = Node::new(addr(1, 1000), addr(2, 2000));
    let act = n.start();
    assert!(matches!(act, Action::SendUdp(PDU::StunLookup(_), t) if t == addr(1, 1000)));
    assert_eq!(n.phase, Phase::AwaitAddress);

    let act = n.on_stun_response(PDU::StunResponse(StunResponsePdu::new(9))).unwrap();
    assert!(matches!(act, Action::SendUdp(PDU::NetGetNode(_), t) if t == addr(1, 1000)));
    assert_eq!(n.own_address, Some(9));

    // The tracker knows nobody: this node is first and seeds the ring.
    let acts = n
        .on_get_node_response(PDU::NetGetNodeResponse(NetGetNodeResponsePdu::new(0, 0)))
        .unwrap();
    assert!(acts.is_empty());
    assert_eq!(n.phase, Phase::MainLoop);
    assert_eq!(n.hash_range, (0, 255));

    // Any single node covers the whole space: the insert lands here.
    let r = n.handle_val_insert(insert_pdu("111111111111", "A", "B")).unwrap();
    assert!(r.is_none());
    assert_eq!(n.values.len(), 1);
    assert_eq!(n.values[0].ssn, "111111111111");
}

#[test]
fn test_join_bootstrap_adopts_assigned_range() {
    let mut n = Node::new(addr(1, 1000), addr(2, 2000));
    n.start();
    n.on_stun_response(PDU::StunResponse(StunResponsePdu::new(9))).unwrap();

    let acts = n
        .on_get_node_response(PDU::NetGetNodeResponse(NetGetNodeResponsePdu::new(5, 50)))
        .unwrap();
    assert_eq!(acts.len(), 2);
    match &acts[0] {
        Action::SendUdp(PDU::NetJoin(j), t) => {
            assert_eq!(*t, addr(5, 50));
            assert_eq!(j.src_address, 9);
            assert_eq!(j.src_port, 2000);
            assert_eq!(j.max_span, 0);
            assert_eq!(j.max_address, 0);
            assert_eq!(j.max_port, 0);
        }
        other => panic!("expected the join to go out first, got {:?}", other),
    }
    assert!(matches!(acts[1], Action::AcceptPredecessor));
    assert_eq!(n.phase, Phase::AwaitJoinResponse);

    let act = n
        .on_join_response(PDU::NetJoinResponse(ring_node::codec::NetJoinResponsePdu::new(
            7, 70, 128, 255,
        )))
        .unwrap();
    assert!(matches!(act, Action::ConnectSuccessor(c) if c == addr(7, 70)));
    assert_eq!(n.phase, Phase::MainLoop);
    assert_eq!(n.hash_range, (128, 255));
    assert_eq!(n.successor, Some(addr(7, 70)));
}

#[test]
fn test_two_node_split_gives_upper_half() {
    // The admitting node keeps 0..=127 and the joiner gets 128..=255.
    let mut n = main_loop_node(0, 255);
    let acts = n.admit_join(NetJoinPdu::new(7, 70, 0, 0, 0)).unwrap();
    assert_eq!(n.hash_range, (0, 127));
    assert_eq!(n.successor, Some(addr(7, 70)));
    assert!(n.predecessor);
    assert_eq!(acts.len(), 3);
    assert!(matches!(acts[0], Action::ConnectSuccessor(c) if c == addr(7, 70)));
    match &acts[1] {
        Action::SendToSuccessor(PDU::NetJoinResponse(r)) => {
            assert_eq!(r.next_address, 2);
            assert_eq!(r.next_port, 2000);
            assert_eq!(r.range_start, 128);
            assert_eq!(r.range_end, 255);
        }
        other => panic!("expected the join response, got {:?}", other),
    }
    assert!(matches!(acts[2], Action::AcceptPredecessor));
}

#[test]
fn test_split_transfers_upper_records() {
    let mut n = main_loop_node(0, 255);
    n.handle_val_insert(insert_pdu("111111111111", "low", "l")).unwrap();
    n.handle_val_insert(insert_pdu("333333333333", "high", "h")).unwrap();
    let acts = n.admit_join(NetJoinPdu::new(7, 70, 0, 0, 0)).unwrap();
    // "333333333333" (bucket 169) moves to the joiner; bucket 17 stays.
    assert_eq!(n.values.len(), 1);
    assert_eq!(n.values[0].ssn, "111111111111");
    assert_eq!(acts.len(), 4);
    match &acts[2] {
        Action::SendToSuccessor(PDU::ValInsert(p)) => {
            assert_eq!(p.ssn, "333333333333");
            assert_eq!(p.name, "high");
        }
        other => panic!("expected the record transfer, got {:?}", other),
    }
}

#[test]
fn test_forward_outside_range_reaches_owner() {
    // A value message for a bucket outside the node's range travels
    // on unmodified and is applied by the owning node.
    let mut first = main_loop_node(0, 127);
    first.successor = Some(addr(7, 70));
    let r = first.handle_val_insert(insert_pdu("333333333333", "N", "E")).unwrap();
    let forwarded = match r {
        Some(Action::SendToSuccessor(PDU::ValInsert(p))) => p,
        other => panic!("expected a forward to the successor, got {:?}", other),
    };
    assert_eq!(forwarded.ssn, "333333333333");
    assert_eq!(forwarded.name, "N");
    assert_eq!(forwarded.email, "E");
    assert!(first.values.is_empty());

    let mut owner = main_loop_node(128, 255);
    let r = owner.handle_val_insert(forwarded).unwrap();
    assert!(r.is_none());
    assert_eq!(owner.values.len(), 1);
    assert_eq!(owner.values[0].ssn, "333333333333");
}

#[test]
fn test_forward_without_successor_is_fatal() {
    let mut n = main_loop_node(0, 127);
    let r = n.handle_val_insert(insert_pdu("333333333333", "N", "E"));
    assert_eq!(r.unwrap_err(), NodeError::NoSuccessor);
}

#[test]
fn test_lookup_returns_stored_record() {
    let mut n = main_loop_node(0, 255);
    n.handle_val_insert(insert_pdu("222222222222", "Ada", "a@b")).unwrap();
    let act = n
        .handle_val_lookup(ValLookupPdu::new("222222222222".to_owned(), 44, 440))
        .unwrap();
    match act {
        Action::SendUdp(PDU::ValLookupResponse(p), t) => {
            assert_eq!(t, addr(44, 440));
            assert_eq!(p.ssn, "222222222222");
            assert_eq!(p.name, "Ada");
            assert_eq!(p.email, "a@b");
        }
        other => panic!("expected the answer by UDP, got {:?}", other),
    }
}

#[test]
fn test_lookup_missing_key_yields_empty_response() {
    // A lookup for a key never stored — and for one stored then
    // removed — always yields the all-zero empty answer.
    let mut n = main_loop_node(0, 255);
    let act = n
        .handle_val_lookup(ValLookupPdu::new("999999999999".to_owned(), 44, 440))
        .unwrap();
    match act {
        Action::SendUdp(PDU::ValLookupResponse(p), t) => {
            assert_eq!(t, addr(44, 440));
            assert_eq!(p.ssn, "000000000000");
            assert_eq!(p.name, "");
            assert_eq!(p.email, "");
        }
        other => panic!("expected the empty answer, got {:?}", other),
    }

    n.handle_val_insert(insert_pdu("999999999999", "N", "E")).unwrap();
    n.handle_val_remove(ValRemovePdu::new("999999999999".to_owned())).unwrap();
    let act = n
        .handle_val_lookup(ValLookupPdu::new("999999999999".to_owned(), 44, 440))
        .unwrap();
    match act {
        Action::SendUdp(PDU::ValLookupResponse(p), _) => {
            assert_eq!(p.ssn, "000000000000");
            assert_eq!(p.name, "");
        }
        other => panic!("expected the empty answer, got {:?}", other),
    }
}

#[test]
fn test_insert_overwrites_by_key() {
    let mut n = main_loop_node(0, 255);
    n.handle_val_insert(insert_pdu("111111111111", "old", "o")).unwrap();
    n.handle_val_insert(insert_pdu("111111111111", "new", "n")).unwrap();
    assert_eq!(n.values.len(), 1);
    assert_eq!(n.values[0].name, "new");
    let act = n
        .handle_val_lookup(ValLookupPdu::new("111111111111".to_owned(), 44, 440))
        .unwrap();
    match act {
        Action::SendUdp(PDU::ValLookupResponse(p), _) => assert_eq!(p.name, "new"),
        other => panic!("expected the answer by UDP, got {:?}", other),
    }
}

#[test]
fn test_remove_deletes_only_that_key() {
    let mut n = main_loop_node(0, 255);
    n.handle_val_insert(insert_pdu("111111111111", "a", "x")).unwrap();
    n.handle_val_insert(insert_pdu("222222222222", "b", "y")).unwrap();
    let r = n.handle_val_remove(ValRemovePdu::new("111111111111".to_owned())).unwrap();
    assert!(r.is_none());
    assert_eq!(n.values.len(), 1);
    assert_eq!(n.values[0].ssn, "222222222222");
}

#[test]
fn test_sole_node_terminates_silently() {
    // The sole node receiving a shutdown request terminates at once
    // without sending any network traffic.
    let mut n = main_loop_node(0, 255);
    let act = n.begin_leave().unwrap();
    assert!(act.is_none());
    assert_eq!(n.phase, Phase::Terminated);
}

#[test]
fn test_leave_hands_range_to_successor_when_at_zero() {
    let mut n = main_loop_node(0, 127);
    n.successor = Some(addr(7, 70));
    n.successor_listen = Some(addr(7, 70));
    n.predecessor = true;
    n.handle_val_insert(insert_pdu("111111111111", "N", "E")).unwrap();

    let act = n.begin_leave().unwrap().unwrap();
    match act {
        Action::SendToSuccessor(PDU::NetNewRange(p)) => {
            assert_eq!(p.range_start, 0);
            assert_eq!(p.range_end, 127);
        }
        other => panic!("expected the range to go to the successor, got {:?}", other),
    }
    assert_eq!(n.phase, Phase::AwaitRangeAck);

    let acts = n
        .on_range_ack(PDU::NetNewRangeResponse(NetNewRangeResponsePdu::new()))
        .unwrap();
    assert_eq!(acts.len(), 5);
    assert!(matches!(&acts[0], Action::SendToSuccessor(PDU::ValInsert(p)) if p.ssn == "111111111111"));
    assert!(matches!(&acts[1], Action::SendToSuccessor(PDU::NetCloseConnection(_))));
    assert!(matches!(acts[2], Action::CloseSuccessor));
    match &acts[3] {
        Action::SendToPredecessor(PDU::NetLeaving(p)) => {
            assert_eq!(p.new_address, 7);
            assert_eq!(p.new_port, 70);
        }
        other => panic!("expected the goodbye to the predecessor, got {:?}", other),
    }
    assert!(matches!(acts[4], Action::ClosePredecessor));
    assert_eq!(n.phase, Phase::Terminated);
    assert!(n.values.is_empty());
}

#[test]
fn test_leave_hands_range_to_predecessor_otherwise() {
    let mut n = main_loop_node(128, 255);
    n.successor = Some(addr(7, 70));
    n.successor_listen = Some(addr(7, 70));
    n.predecessor = true;
    let act = n.begin_leave().unwrap().unwrap();
    assert!(matches!(act, Action::SendToPredecessor(PDU::NetNewRange(_))));
}

#[test]
fn test_absorb_range_upward_and_downward() {
    // A departing successor's range extends this node upward.
    let mut n = main_loop_node(0, 127);
    n.successor = Some(addr(7, 70));
    n.predecessor = true;
    let acts = n.on_new_range(NetNewRangePdu::new(128, 255)).unwrap();
    assert_eq!(n.hash_range, (0, 255));
    assert_eq!(acts.len(), 1);
    assert!(matches!(&acts[0], Action::SendToSuccessor(PDU::NetNewRangeResponse(_))));

    // A departing predecessor's range extends this node downward.
    let mut n = main_loop_node(128, 255);
    n.successor = Some(addr(7, 70));
    n.predecessor = true;
    let acts = n.on_new_range(NetNewRangePdu::new(0, 127)).unwrap();
    assert_eq!(n.hash_range, (0, 255));
    assert_eq!(acts.len(), 1);
    assert!(matches!(&acts[0], Action::SendToPredecessor(PDU::NetNewRangeResponse(_))));
}

#[test]
fn test_neighbor_leaving_moves_successor_link() {
    let mut n = main_loop_node(0, 127);
    n.successor = Some(addr(7, 70));
    let acts = n.on_neighbor_leaving(NetLeavingPdu::new(9, 90));
    assert_eq!(acts.len(), 2);
    assert!(matches!(acts[0], Action::CloseSuccessor));
    assert!(matches!(acts[1], Action::ConnectSuccessor(c) if c == addr(9, 90)));
    assert_eq!(n.successor, Some(addr(9, 90)));

    // When the named replacement is this node itself, the ring has
    // shrunk to one node and both links drop.
    let mut n = main_loop_node(0, 255);
    n.successor = Some(addr(7, 70));
    n.predecessor = true;
    let acts = n.on_neighbor_leaving(NetLeavingPdu::new(2, 2000));
    assert_eq!(acts.len(), 2);
    assert!(matches!(acts[0], Action::CloseSuccessor));
    assert!(matches!(acts[1], Action::ClosePredecessor));
    assert!(n.successor.is_none());
    assert!(!n.predecessor);
}

#[test]
fn test_predecessor_closed() {
    // The sole node stays alone.
    let mut n = main_loop_node(0, 255);
    n.predecessor = true;
    let acts = n.on_predecessor_closed();
    assert_eq!(acts.len(), 1);
    assert!(matches!(acts[0], Action::ClosePredecessor));
    assert!(!n.predecessor);

    // A node owning part of the space awaits a new predecessor.
    let mut n = main_loop_node(0, 127);
    n.predecessor = true;
    let acts = n.on_predecessor_closed();
    assert_eq!(acts.len(), 2);
    assert!(matches!(acts[1], Action::AcceptPredecessor));
    assert!(n.predecessor);
}

#[test]
fn test_forward_join_updates_widest_fields() {
    // This node's span beats the recorded widest: the join forwards
    // with this node's endpoint in the widest fields.
    let mut n = main_loop_node(0, 127);
    n.successor = Some(addr(7, 70));
    let acts = n.admit_join(NetJoinPdu::new(9, 90, 50, 8, 80)).unwrap();
    assert_eq!(acts.len(), 1);
    match &acts[0] {
        Action::SendToSuccessor(PDU::NetJoin(j)) => {
            assert_eq!(j.max_span, 127);
            assert_eq!(j.max_address, 2);
            assert_eq!(j.max_port, 2000);
            assert_eq!(j.src_address, 9);
            assert_eq!(j.src_port, 90);
        }
        other => panic!("expected the join to travel on, got {:?}", other),
    }

    // A narrower span leaves the fields as they came.
    let mut n = main_loop_node(100, 110);
    n.successor = Some(addr(7, 70));
    let acts = n.admit_join(NetJoinPdu::new(9, 90, 50, 8, 80)).unwrap();
    match &acts[0] {
        Action::SendToSuccessor(PDU::NetJoin(j)) => {
            assert_eq!(j.max_span, 50);
            assert_eq!(j.max_address, 8);
            assert_eq!(j.max_port, 80);
        }
        other => panic!("expected the join to travel on, got {:?}", other),
    }
}

#[test]
fn test_widest_node_admits_join() {
    // The join names this node's endpoint as widest: it reconnects
    // its successor link to the joiner and hands over the upper half,
    // pointing the joiner at the old successor.
    let mut n = main_loop_node(0, 255);
    n.successor = Some(addr(5, 50));
    n.successor_listen = Some(addr(5, 50));
    let acts = n.admit_join(NetJoinPdu::new(7, 70, 255, 2, 2000)).unwrap();
    assert_eq!(n.hash_range, (0, 127));
    assert_eq!(n.successor, Some(addr(7, 70)));
    assert_eq!(acts.len(), 4);
    assert!(matches!(&acts[0], Action::SendToSuccessor(PDU::NetCloseConnection(_))));
    assert!(matches!(acts[1], Action::CloseSuccessor));
    assert!(matches!(acts[2], Action::ConnectSuccessor(c) if c == addr(7, 70)));
    match &acts[3] {
        Action::SendToSuccessor(PDU::NetJoinResponse(r)) => {
            assert_eq!(r.next_address, 5);
            assert_eq!(r.next_port, 50);
            assert_eq!(r.range_start, 128);
            assert_eq!(r.range_end, 255);
        }
        other => panic!("expected the join response, got {:?}", other),
    }
}

#[test]
fn test_handle_message_dispatch_and_drop() {
    let mut n = main_loop_node(0, 255);
    // A value operation dispatches to its handler.
    let acts = n
        .handle_message(
            PDU::ValInsert(insert_pdu("111111111111", "N", "E")),
            Source::UDP(addr(44, 440)),
        )
        .unwrap();
    assert!(acts.is_empty());
    assert_eq!(n.values.len(), 1);
    // A close notice from anyone but the predecessor is a violation.
    let r = n.handle_message(
        PDU::NetCloseConnection(ring_node::codec::NetCloseConnectionPdu::new()),
        Source::Successor(addr(7, 70)),
    );
    assert_eq!(r.unwrap_err(), NodeError::UnexpectedPdu);
    // A message the main loop has no rule for is dropped.
    let acts = n
        .handle_message(PDU::NetAlive(NetAlivePdu::new()), Source::UDP(addr(44, 440)))
        .unwrap();
    assert!(acts.is_empty());
    assert_eq!(n.values.len(), 1);
}

#[test]
fn test_heartbeat_rate_limited() {
    let mut n = main_loop_node(0, 255);
    let first = n.send_alive(5);
    assert!(matches!(first, Some(Action::SendUdp(PDU::NetAlive(_), t)) if t == addr(1, 1000)));
    assert!(n.send_alive(10).is_none());
    assert!(n.send_alive(15).is_none());
    assert!(matches!(n.send_alive(16), Some(_)));
}

#[test]
fn test_error_variants() {
    // The wrong reply where one specific kind is expected.
    let mut n = Node::new(addr(1, 1000), addr(2, 2000));
    n.start();
    let r = n.on_stun_response(PDU::NetAlive(NetAlivePdu::new()));
    assert_eq!(r.unwrap_err(), NodeError::UnexpectedPdu);

    // A single-bucket range cannot be split for a joiner.
    let mut n = main_loop_node(5, 5);
    let r = n.admit_join(NetJoinPdu::new(7, 70, 0, 0, 0));
    assert_eq!(r.unwrap_err(), NodeError::UnsplittableRange);

    // A range hand-over whose bounds are inverted.
    let mut n = main_loop_node(0, 127);
    n.successor = Some(addr(7, 70));
    let r = n.on_new_range(NetNewRangePdu::new(128, 100));
    assert_eq!(r.unwrap_err(), NodeError::InvalidRange);

    // Departure with a successor needs the predecessor link.
    let mut n = main_loop_node(0, 127);
    n.successor = Some(addr(7, 70));
    let r = n.begin_leave();
    assert_eq!(r.unwrap_err(), NodeError::NoPredecessor);

    // Departure cannot name a successor it never learned.
    let mut n = main_loop_node(0, 127);
    n.phase = Phase::AwaitRangeAck;
    n.successor = Some(addr(7, 70));
    n.successor_listen = None;
    n.predecessor = true;
    let r = n.on_range_ack(PDU::NetNewRangeResponse(NetNewRangeResponsePdu::new()));
    assert_eq!(r.unwrap_err(), NodeError::NoSuccessorListen);

    // The wrong reply while waiting for the range acknowledgement.
    let mut n = main_loop_node(0, 127);
    n.phase = Phase::AwaitRangeAck;
    n.successor = Some(addr(7, 70));
    n.successor_listen = Some(addr(7, 70));
    n.predecessor = true;
    let r = n.on_range_ack(PDU::NetAlive(NetAlivePdu::new()));
    assert_eq!(r.unwrap_err(), NodeError::UnexpectedPdu);
}
