//! The node's state machine: bootstrap, ring membership, record
//! storage and routing, and graceful departure.
//!
//! The machine is pure: every transition is a function from the
//! current state and one input (a decoded message, a clock reading, a
//! shutdown request) to the next state and a list of actions.  The
//! caller owns the sockets, performs each action in order — sends,
//! connects, accepts — and feeds the next input back in.  Fatal
//! conditions (a reply of the wrong kind where one specific kind is
//! expected, a missing link the rules say must exist) come back as
//! errors, never as panics.

use vstd::prelude::*;
use vstd::pervasive::unreached;
use vstd::string::StringExecFns;

use crate::addr::PeerAddr;
use crate::codec::{
    NetAlivePdu, NetCloseConnectionPdu, NetGetNodePdu, NetJoinPdu, NetJoinResponsePdu,
    NetLeavingPdu, NetNewRangePdu, NetNewRangeResponsePdu, PduModel, StunLookupPdu, ValInsertModel,
    ValInsertPdu, ValLookupModel, ValLookupPdu, ValLookupResponseModel, ValLookupResponsePdu,
    ValRemoveModel, ValRemovePdu, PDU, NET_ALIVE_ID, NET_CLOSE_CONNECTION_ID, NET_GET_NODE_ID,
    NET_JOIN_ID, NET_JOIN_RESPONSE_ID, NET_LEAVING_ID, NET_NEW_RANGE_RESPONSE_ID, SSN_LENGTH,
    STUN_LOOKUP_ID, VAL_INSERT_ID, VAL_LOOKUP_RESPONSE_ID,
};
use crate::record::{spec_bucket, Entry, EntryModel};

verus! {

/// Seconds of silence after which a heartbeat is owed to the tracker.
pub const ALIVE_INTERVAL_SECS: u64 = 10;

/// Where the node stands: either inside its main dispatch loop, or
/// blocked waiting for one specific reply, or finished.
#[derive(Clone, Copy, Debug, PartialEq, Eq, Structural)]
pub enum Phase {
    /// Freshly created; nothing sent yet.
    Start,
    /// Address discovery sent; waiting for the tracker's answer.
    AwaitAddress,
    /// Peer discovery sent; waiting for the tracker's answer.
    AwaitPeer,
    /// Join sent to a peer; waiting for the insertion point's answer.
    AwaitJoinResponse,
    /// In the ring (possibly alone), dispatching traffic.
    MainLoop,
    /// Departure announced; waiting for the neighbor to take the range.
    AwaitRangeAck,
    /// Shut down; the caller's loop must stop.
    Terminated,
}

/// Which socket a message arrived on.
#[derive(Clone, Copy, Debug, PartialEq, Eq, Structural)]
pub enum Source {
    UDP(PeerAddr),
    Successor(PeerAddr),
    Predecessor(PeerAddr),
}

/// One thing the caller must do on the node's behalf, in list order.
#[derive(Debug)]
pub enum Action {
    /// Send the message over the UDP socket to the given endpoint.
    SendUdp(PDU, PeerAddr),
    /// Send the message over the successor link.
    SendToSuccessor(PDU),
    /// Send the message over the predecessor link.
    SendToPredecessor(PDU),
    /// Open the successor link to the given endpoint.
    ConnectSuccessor(PeerAddr),
    /// Shut the successor link down.
    CloseSuccessor,
    /// Wait for and accept one inbound predecessor connection.
    AcceptPredecessor,
    /// Shut the predecessor link down.
    ClosePredecessor,
}

/// The fatal conditions a transition can report.
#[derive(Clone, Copy, Debug, PartialEq, Eq, Structural)]
pub enum NodeError {
    /// A reply of the wrong kind arrived where one specific kind was
    /// expected, or a control message came from the wrong link.
    UnexpectedPdu,
    /// An operation needed the successor link and there is none.
    NoSuccessor,
    /// An operation needed the predecessor link and there is none.
    NoPredecessor,
    /// Departure needs the successor's listen address and none is known.
    NoSuccessorListen,
    /// A peer handed this node a range whose start exceeds its end.
    InvalidRange,
    /// A join cannot be admitted because this node's range is a
    /// single bucket and cannot be split.
    UnsplittableRange,
}

/// A stored record small enough to be re-sent in a transfer.
pub open spec fn wf_entry(e: EntryModel) -> bool {
    e.name.len() <= 255 && e.email.len() <= 255
}

/// Every record of a store can be re-sent.
pub open spec fn wf_records(rs: Seq<EntryModel>) -> bool {
    forall|i: int| 0 <= i < rs.len() ==> wf_entry(#[trigger] rs[i])
}

/// Whether bucket `b` lies in the inclusive range `lo..=hi`.
pub open spec fn in_range(lo: u8, hi: u8, b: u8) -> bool {
    lo <= b <= hi
}

/// The all-zero key that marks an empty lookup answer.
pub open spec fn zero_ssn() -> Seq<char> {
    Seq::new(SSN_LENGTH as nat, |i: int| '0')
}

/// The first stored record whose key is `ssn`, if any.
pub open spec fn spec_lookup(vs: Seq<EntryModel>, ssn: Seq<char>) -> Option<EntryModel>
    decreases vs.len(),
{
    if vs.len() == 0 {
        None
    } else if vs[0].ssn == ssn {
        Some(vs[0])
    } else {
        spec_lookup(vs.drop_first(), ssn)
    }
}

/// The store with every record keyed `ssn` removed.
pub open spec fn without_ssn(vs: Seq<EntryModel>, ssn: Seq<char>) -> Seq<EntryModel>
    decreases vs.len(),
{
    if vs.len() == 0 {
        Seq::empty()
    } else {
        let rest = without_ssn(vs.drop_last(), ssn);
        if vs.last().ssn == ssn {
            rest
        } else {
            rest.push(vs.last())
        }
    }
}

/// The records whose buckets lie inside `lo..=hi`, in store order.
pub open spec fn entries_inside(vs: Seq<EntryModel>, lo: u8, hi: u8) -> Seq<EntryModel>
    decreases vs.len(),
{
    if vs.len() == 0 {
        Seq::empty()
    } else {
        let rest = entries_inside(vs.drop_last(), lo, hi);
        if in_range(lo, hi, spec_bucket(vs.last().ssn)) {
            rest.push(vs.last())
        } else {
            rest
        }
    }
}

/// The records whose buckets lie outside `lo..=hi`, in store order.
pub open spec fn entries_outside(vs: Seq<EntryModel>, lo: u8, hi: u8) -> Seq<EntryModel>
    decreases vs.len(),
{
    if vs.len() == 0 {
        Seq::empty()
    } else {
        let rest = entries_outside(vs.drop_last(), lo, hi);
        if in_range(lo, hi, spec_bucket(vs.last().ssn)) {
            rest
        } else {
            rest.push(vs.last())
        }
    }
}

/// The node's whole runtime state, sockets aside.
pub struct Node {
    /// Where the state machine stands.
    pub phase: Phase,
    /// The tracker's endpoint, fixed at construction.
    pub tracker_addr: PeerAddr,
    /// The endpoint this node accepts its predecessor on, as the
    /// caller bound it.
    pub listen_addr: PeerAddr,
    /// The node's public IPv4 address, once the tracker has told it.
    pub own_address: Option<u32>,
    /// The records owned locally.
    pub values: Vec<Entry>,
    /// The inclusive bucket range owned locally.
    pub hash_range: (u8, u8),
    /// When the last heartbeat went out, in the caller's monotonic
    /// seconds; `None` until the first one.
    pub last_alive: Option<u64>,
    /// The connected successor's endpoint, if the link exists.
    pub successor: Option<PeerAddr>,
    /// The successor's listen endpoint, named to the predecessor on
    /// departure.
    pub successor_listen: Option<PeerAddr>,
    /// Whether a predecessor is connected.
    pub predecessor: bool,
}

impl Node {
    /// The stored records as mathematical values.
    pub open spec fn records(&self) -> Seq<EntryModel> {
        self.values@.map_values(|e: Entry| e@)
    }

    /// The state invariant: the range is a real interval, every
    /// stored record can be re-sent, and once bootstrap has passed
    /// address discovery the node knows its own address.
    pub open spec fn wf(&self) -> bool {
        &&& self.hash_range.0 <= self.hash_range.1
        &&& wf_records(self.records())
        &&& !(self.phase is Start) && !(self.phase is AwaitAddress) ==> self.own_address is Some
    }
}

/// Everything two states share when a transition touches nothing.
pub open spec fn state_eq(a: Node, b: Node) -> bool {
    &&& a.phase == b.phase
    &&& a.tracker_addr == b.tracker_addr
    &&& a.listen_addr == b.listen_addr
    &&& a.own_address == b.own_address
    &&& a.records() == b.records()
    &&& a.hash_range == b.hash_range
    &&& a.last_alive == b.last_alive
    &&& a.successor == b.successor
    &&& a.successor_listen == b.successor_listen
    &&& a.predecessor == b.predecessor
}

impl Node {
    /// A fresh node pointed at its tracker, before anything is sent.
    pub fn new(tracker_addr: PeerAddr, listen_addr: PeerAddr) -> (r: Node)
        ensures
            r.phase == Phase::Start,
            r.tracker_addr == tracker_addr,
            r.listen_addr == listen_addr,
            r.own_address is None,
            r.records() == Seq::<EntryModel>::empty(),
            r.hash_range == (0u8, 0u8),
            r.last_alive is None,
            r.successor is None,
            r.successor_listen is None,
            !r.predecessor,
            r.wf(),
    {
        let r = Node {
            phase: Phase::Start,
            tracker_addr,
            listen_addr,
            own_address: None,
            values: Vec::new(),
            hash_range: (0, 0),
            last_alive: None,
            successor: None,
            successor_listen: None,
            predecessor: false,
        };
        assert(r.records() =~= Seq::<EntryModel>::empty());
        r
    }

    /// Kicks bootstrap off: address discovery goes to the tracker.
    pub fn start(&mut self) -> (r: Action)
        requires
            old(self).phase == Phase::Start,
        ensures
            final(self).phase == Phase::AwaitAddress,
            state_eq(*final(self), Node { phase: Phase::AwaitAddress, ..*old(self) }),
            (r matches Action::SendUdp(p, a) && p@ == PduModel::StunLookup(
                StunLookupPdu { pdu_type: STUN_LOOKUP_ID },
            ) && a == old(self).tracker_addr),
    {
        self.phase = Phase::AwaitAddress;
        Action::SendUdp(PDU::StunLookup(StunLookupPdu::new()), self.tracker_addr)
    }

    /// Records the tracker's address answer and sends peer discovery.
    /// Anything but the expected answer is the fatal protocol
    /// violation, and the state does not move.
    pub fn on_stun_response(&mut self, pdu: PDU) -> (r: Result<Action, NodeError>)
        requires
            old(self).phase == Phase::AwaitAddress,
            old(self).wf(),
        ensures
            match r {
                Ok(a) => {
                    &&& pdu@ matches PduModel::StunResponse(p) && final(self).own_address == Some(
                        p.address,
                    )
                    &&& final(self).phase == Phase::AwaitPeer
                    &&& state_eq(
                        *final(self),
                        Node {
                            phase: Phase::AwaitPeer,
                            own_address: final(self).own_address,
                            ..*old(self)
                        },
                    )
                    &&& (a matches Action::SendUdp(p, t) && p@ == PduModel::NetGetNode(
                        NetGetNodePdu { pdu_type: NET_GET_NODE_ID },
                    ) && t == old(self).tracker_addr)
                    &&& final(self).wf()
                },
                Err(e) => {
                    &&& !(pdu@ matches PduModel::StunResponse(_))
                    &&& e == NodeError::UnexpectedPdu
                    &&& state_eq(*final(self), *old(self))
                },
            },
    {
        match pdu {
            PDU::StunResponse(p) => {
                self.own_address = Some(p.address);
                self.phase = Phase::AwaitPeer;
                Ok(Action::SendUdp(PDU::NetGetNode(NetGetNodePdu::new()), self.tracker_addr))
            },
            _ => Err(NodeError::UnexpectedPdu),
        }
    }

    /// Takes the tracker's peer answer.  The all-zero sentinel means
    /// this node is first: it claims the whole bucket space and
    /// enters its main loop as the seed.  A real peer means a join:
    /// the node sends its join request there and starts accepting a
    /// predecessor.
    pub fn on_get_node_response(&mut self, pdu: PDU) -> (r: Result<Vec<Action>, NodeError>)
        requires
            old(self).phase == Phase::AwaitPeer,
            old(self).wf(),
        ensures
            match r {
                Ok(acts) => {
                    &&& pdu@ matches PduModel::NetGetNodeResponse(p)
                    &&& (pdu@ matches PduModel::NetGetNodeResponse(p) ==> {
                        if p.address == 0 && p.port == 0 {
                            &&& final(self).phase == Phase::MainLoop
                            &&& final(self).hash_range == (0u8, 255u8)
                            &&& acts@.len() == 0
                            &&& state_eq(
                                *final(self),
                                Node {
                                    phase: Phase::MainLoop,
                                    hash_range: (0u8, 255u8),
                                    ..*old(self)
                                },
                            )
                        } else {
                            &&& final(self).phase == Phase::AwaitJoinResponse
                            &&& final(self).predecessor
                            &&& state_eq(
                                *final(self),
                                Node {
                                    phase: Phase::AwaitJoinResponse,
                                    predecessor: true,
                                    ..*old(self)
                                },
                            )
                            &&& acts@.len() == 2
                            &&& (acts@[0] matches Action::SendUdp(j, t) && t == PeerAddr {
                                ip: p.address,
                                port: p.port,
                            } && j@ == PduModel::NetJoin(
                                NetJoinPdu {
                                    pdu_type: NET_JOIN_ID,
                                    src_address: old(self).own_address->0,
                                    src_port: old(self).listen_addr.port,
                                    max_span: 0u8,
                                    max_address: 0u32,
                                    max_port: 0u16,
                                },
                            ))
                            &&& acts@[1] is AcceptPredecessor
                        }
                    })
                    &&& final(self).wf()
                },
                Err(e) => {
                    &&& !(pdu@ matches PduModel::NetGetNodeResponse(_))
                    &&& e == NodeError::UnexpectedPdu
                    &&& state_eq(*final(self), *old(self))
                },
            },
    {
        match pdu {
            PDU::NetGetNodeResponse(p) => {
                if p.address == 0 && p.port == 0 {
                    self.hash_range = (0, 255);
                    self.phase = Phase::MainLoop;
                    Ok(Vec::new())
                } else {
                    let own = match self.own_address {
                        Some(a) => a,
                        None => unreached(),  // wf says the address is known here
                    };
                    let join = NetJoinPdu::new(own, self.listen_addr.port, 0, 0, 0);
                    let mut acts: Vec<Action> = Vec::new();
                    acts.push(
                        Action::SendUdp(PDU::NetJoin(join), PeerAddr { ip: p.address, port: p.port }),
                    );
                    acts.push(Action::AcceptPredecessor);
                    self.predecessor = true;
                    self.phase = Phase::AwaitJoinResponse;
                    Ok(acts)
                }
            },
            _ => Err(NodeError::UnexpectedPdu),
        }
    }

    /// Adopts the range the insertion point assigned and connects to
    /// the successor it named.
    pub fn on_join_response(&mut self, pdu: PDU) -> (r: Result<Action, NodeError>)
        requires
            old(self).phase == Phase::AwaitJoinResponse,
            old(self).wf(),
        ensures
            match r {
                Ok(a) => {
                    &&& pdu@ matches PduModel::NetJoinResponse(p)
                    &&& (pdu@ matches PduModel::NetJoinResponse(p) ==> {
                        let next = PeerAddr { ip: p.next_address, port: p.next_port };
                        &&& p.range_start <= p.range_end
                        &&& final(self).phase == Phase::MainLoop
                        &&& final(self).hash_range == (p.range_start, p.range_end)
                        &&& final(self).successor == Some(next)
                        &&& final(self).successor_listen == Some(next)
                        &&& a matches Action::ConnectSuccessor(c) && c == next
                        &&& state_eq(
                            *final(self),
                            Node {
                                phase: Phase::MainLoop,
                                hash_range: (p.range_start, p.range_end),
                                successor: Some(next),
                                successor_listen: Some(next),
                                ..*old(self)
                            },
                        )
                    })
                    &&& final(self).wf()
                },
                Err(e) => {
                    &&& (e == NodeError::UnexpectedPdu && !(pdu@ matches PduModel::NetJoinResponse(
                        _,
                    ))) || (e == NodeError::InvalidRange && (pdu@ matches
                        PduModel::NetJoinResponse(p) && p.range_start > p.range_end))
                    &&& state_eq(*final(self), *old(self))
                },
            },
    {
        match pdu {
            PDU::NetJoinResponse(p) => {
                if p.range_start > p.range_end {
                    return Err(NodeError::InvalidRange);
                }
                let next = PeerAddr { ip: p.next_address, port: p.next_port };
                self.hash_range = (p.range_start, p.range_end);
                self.successor = Some(next);
                self.successor_listen = Some(next);
                self.phase = Phase::MainLoop;
                Ok(Action::ConnectSuccessor(next))
            },
            _ => Err(NodeError::UnexpectedPdu),
        }
    }

    /// Sends the periodic heartbeat if enough time has passed since
    /// the last one.  `now_secs` is the caller's monotonic clock.
    pub fn send_alive(&mut self, now_secs: u64) -> (r: Option<Action>)
        requires
            old(self).last_alive matches Some(t) ==> t <= now_secs,
        ensures
            match r {
                Some(a) => {
                    &&& (old(self).last_alive is None || now_secs - old(self).last_alive->0
                        > ALIVE_INTERVAL_SECS)
                    &&& (a matches Action::SendUdp(p, t) && p@ == PduModel::NetAlive(
                        NetAlivePdu { pdu_type: NET_ALIVE_ID },
                    ) && t == old(self).tracker_addr)
                    &&& state_eq(
                        *final(self),
                        Node { last_alive: Some(now_secs), ..*old(self) },
                    )
                },
                None => {
                    &&& old(self).last_alive matches Some(t) && now_secs - t
                        <= ALIVE_INTERVAL_SECS
                    &&& state_eq(*final(self), *old(self))
                },
            },
    {
        let due = match self.last_alive {
            None => true,
            Some(t) => now_secs - t > ALIVE_INTERVAL_SECS,
        };
        if due {
            self.last_alive = Some(now_secs);
            Some(Action::SendUdp(PDU::NetAlive(NetAlivePdu::new()), self.tracker_addr))
        } else {
            None
        }
    }
}

// ---------------------------------------------------------------------------
// Record routing
// ---------------------------------------------------------------------------

/// `m` is the insert message that re-sends record `e`.
pub open spec fn val_insert_of(m: PduModel, e: EntryModel) -> bool {
    m matches PduModel::ValInsert(v) && v == (ValInsertModel {
        pdu_type: VAL_INSERT_ID,
        ssn: e.ssn,
        name_length: e.name.len() as u8,
        name: e.name,
        email_length: e.email.len() as u8,
        email: e.email,
    })
}

/// `a` re-sends record `e` toward the chosen neighbor.
pub open spec fn is_transfer_send(a: Action, to_successor: bool, e: EntryModel) -> bool {
    match a {
        Action::SendToSuccessor(p) => to_successor && val_insert_of(p@, e),
        Action::SendToPredecessor(p) => !to_successor && val_insert_of(p@, e),
        _ => false,
    }
}

/// What handling an insert does: store the record when its bucket is
/// owned here, forward the message unmodified otherwise, and fail
/// when forwarding is owed but no successor link exists.
pub open spec fn insert_post(
    pre: Node,
    post: Node,
    m: ValInsertModel,
    r: Result<Seq<Action>, NodeError>,
) -> bool {
    if in_range(pre.hash_range.0, pre.hash_range.1, spec_bucket(m.ssn)) {
        &&& r matches Ok(acts) && acts.len() == 0
        &&& post.records() == without_ssn(pre.records(), m.ssn).push(
            EntryModel { ssn: m.ssn, name: m.name, email: m.email },
        )
        &&& state_eq(post, (Node { values: post.values, ..pre }))
    } else if pre.successor is Some {
        &&& r matches Ok(acts) && acts.len() == 1 && (acts[0] matches Action::SendToSuccessor(p)
            && p@ == PduModel::ValInsert(m))
        &&& state_eq(post, pre)
    } else {
        &&& r == Err::<Seq<Action>, NodeError>(NodeError::NoSuccessor)
        &&& state_eq(post, pre)
    }
}

/// What handling a lookup does: answer the requester directly — with
/// the first record stored under the key, or with the all-zero empty
/// answer when none is — when the bucket is owned here; forward the
/// message unmodified otherwise.
pub open spec fn lookup_post(
    pre: Node,
    post: Node,
    m: ValLookupModel,
    r: Result<Seq<Action>, NodeError>,
) -> bool {
    &&& state_eq(post, pre)
    &&& if in_range(pre.hash_range.0, pre.hash_range.1, spec_bucket(m.ssn)) {
        let requester = (PeerAddr { ip: m.sender_address, port: m.sender_port });
        let answer = match spec_lookup(pre.records(), m.ssn) {
            Some(e) => (ValLookupResponseModel {
                pdu_type: VAL_LOOKUP_RESPONSE_ID,
                ssn: e.ssn,
                name_length: e.name.len() as u8,
                name: e.name,
                email_length: e.email.len() as u8,
                email: e.email,
            }),
            None => (ValLookupResponseModel {
                pdu_type: VAL_LOOKUP_RESPONSE_ID,
                ssn: zero_ssn(),
                name_length: 0u8,
                name: Seq::<char>::empty(),
                email_length: 0u8,
                email: Seq::<char>::empty(),
            }),
        };
        r matches Ok(acts) && acts.len() == 1 && (acts[0] matches Action::SendUdp(p, t) && t
            == requester && p@ == PduModel::ValLookupResponse(answer))
    } else if pre.successor is Some {
        r matches Ok(acts) && acts.len() == 1 && (acts[0] matches Action::SendToSuccessor(p) && p@
            == PduModel::ValLookup(m))
    } else {
        r == Err::<Seq<Action>, NodeError>(NodeError::NoSuccessor)
    }
}

/// What handling a remove does: delete every record stored under the
/// key when its bucket is owned here, forward the message unmodified
/// otherwise.
pub open spec fn remove_post(
    pre: Node,
    post: Node,
    m: ValRemoveModel,
    r: Result<Seq<Action>, NodeError>,
) -> bool {
    if in_range(pre.hash_range.0, pre.hash_range.1, spec_bucket(m.ssn)) {
        &&& r matches Ok(acts) && acts.len() == 0
        &&& post.records() == without_ssn(pre.records(), m.ssn)
        &&& state_eq(post, (Node { values: post.values, ..pre }))
    } else if pre.successor is Some {
        &&& r matches Ok(acts) && acts.len() == 1 && (acts[0] matches Action::SendToSuccessor(p)
            && p@ == PduModel::ValRemove(m))
        &&& state_eq(post, pre)
    } else {
        &&& r == Err::<Seq<Action>, NodeError>(NodeError::NoSuccessor)
        &&& state_eq(post, pre)
    }
}

/// If no record of `vs` is keyed `ssn`, the lookup comes up empty.
proof fn lemma_lookup_none(vs: Seq<EntryModel>, ssn: Seq<char>)
    requires
        forall|j: int| 0 <= j < vs.len() ==> (#[trigger] vs[j]).ssn != ssn,
    ensures
        spec_lookup(vs, ssn) is None,
    decreases vs.len(),
{
    if vs.len() > 0 {
        assert(vs[0].ssn != ssn);
        assert(forall|j: int|
            0 <= j < vs.drop_first().len() ==> (#[trigger] vs.drop_first()[j]).ssn != ssn);
        lemma_lookup_none(vs.drop_first(), ssn);
    }
}

/// If `i` is the first index keyed `ssn`, the lookup returns that
/// record.
proof fn lemma_lookup_found(vs: Seq<EntryModel>, ssn: Seq<char>, i: int)
    requires
        0 <= i < vs.len(),
        vs[i].ssn == ssn,
        forall|j: int| 0 <= j < i ==> (#[trigger] vs[j]).ssn != ssn,
    ensures
        spec_lookup(vs, ssn) == Some(vs[i]),
    decreases i,
{
    if i > 0 {
        assert(vs[0].ssn != ssn);
        assert(forall|j: int|
            0 <= j < i - 1 ==> (#[trigger] vs.drop_first()[j]).ssn != ssn);
        lemma_lookup_found(vs.drop_first(), ssn, i - 1);
    }
}

/// Nothing kept by `without_ssn` is keyed `ssn`.
proof fn lemma_without_ssn_elements(vs: Seq<EntryModel>, ssn: Seq<char>)
    ensures
        forall|i: int|
            0 <= i < without_ssn(vs, ssn).len() ==> (#[trigger] without_ssn(vs, ssn)[i]).ssn
                != ssn,
    decreases vs.len(),
{
    if vs.len() > 0 {
        lemma_without_ssn_elements(vs.drop_last(), ssn);
        let rest = without_ssn(vs.drop_last(), ssn);
        if vs.last().ssn != ssn {
            assert forall|i: int|
                0 <= i < rest.push(vs.last()).len() implies (#[trigger] rest.push(
                vs.last(),
            )[i]).ssn != ssn by {
                if i < rest.len() {
                    assert(rest.push(vs.last())[i] == rest[i]);
                } else {
                    assert(rest.push(vs.last())[i] == vs.last());
                }
            }
        }
    }
}

/// Deleting a key leaves nothing for a lookup of it to find: the
/// store answers exactly as it does for a key never stored.
pub proof fn lemma_removed_key_not_found(vs: Seq<EntryModel>, ssn: Seq<char>)
    ensures
        spec_lookup(without_ssn(vs, ssn), ssn) is None,
{
    lemma_without_ssn_elements(vs, ssn);
    lemma_lookup_none(without_ssn(vs, ssn), ssn);
}

/// Storing a record — overwrite included — makes it the one a lookup
/// of its key finds.
pub proof fn lemma_stored_record_found(vs: Seq<EntryModel>, e: EntryModel)
    ensures
        spec_lookup(without_ssn(vs, e.ssn).push(e), e.ssn) == Some(e),
{
    let out = without_ssn(vs, e.ssn).push(e);
    lemma_without_ssn_elements(vs, e.ssn);
    lemma_lookup_found(out, e.ssn, out.len() - 1);
}

/// The empty lookup answer's key, as a string.
fn make_zero_ssn() -> (r: String)
    ensures
        r@ == zero_ssn(),
{
    let r = String::from_str("000000000000");
    proof {
        reveal_strlit("000000000000");
        assert(r@ =~= zero_ssn());
    }
    r
}

/// A field-for-field copy of a stored record.
fn clone_entry(e: &Entry) -> (r: Entry)
    ensures
        r@ == e@,
{
    Entry::new(e.ssn.clone(), e.name.clone(), e.email.clone())
}

impl Node {
    /// Whether this node itself owns the bucket of `ssn`.
    pub fn in_my_range(&self, ssn: &String) -> (r: bool)
        ensures
            r == in_range(self.hash_range.0, self.hash_range.1, spec_bucket(ssn@)),
    {
        let b = Entry::hash_ssn(ssn);
        self.hash_range.0 <= b && b <= self.hash_range.1
    }

    /// Splits the owned range at its midpoint: this node keeps the
    /// lower half and the returned upper half goes to a joiner.
    pub fn split_range(&mut self) -> (r: (u8, u8))
        requires
            old(self).hash_range.0 < old(self).hash_range.1,
        ensures
            final(self).hash_range.0 == old(self).hash_range.0,
            final(self).hash_range.1 == old(self).hash_range.0 + (old(self).hash_range.1 - old(
                self,
            ).hash_range.0) / 2,
            r.0 == final(self).hash_range.1 + 1,
            r.1 == old(self).hash_range.1,
            state_eq(
                *final(self),
                (Node { hash_range: final(self).hash_range, ..*old(self) }),
            ),
    {
        let (min, max) = self.hash_range;
        let maxp: u8 = (max - min) / 2 + min;
        self.hash_range = (min, maxp);
        (maxp + 1, max)
    }

    /// Drops every record stored under `ssn`, keeping the rest in
    /// store order.
    fn retain_without(&mut self, ssn: &String)
        requires
            old(self).wf(),
        ensures
            final(self).wf(),
            final(self).phase == old(self).phase,
            final(self).records() == without_ssn(old(self).records(), ssn@),
            state_eq(*final(self), (Node { values: final(self).values, ..*old(self) })),
    {
        let n = self.values.len();
        let mut kept: Vec<Entry> = Vec::new();
        let mut i: usize = 0;
        while i < n
            invariant
                i <= n,
                n == self.values@.len(),
                self.values@ == old(self).values@,
                old(self).wf(),
                kept@.map_values(|e: Entry| e@) == without_ssn(
                    old(self).records().take(i as int),
                    ssn@,
                ),
                wf_records(kept@.map_values(|e: Entry| e@)),
            decreases n - i,
        {
            let ghost pre = kept@.map_values(|e: Entry| e@);
            let e = &self.values[i];
            proof {
                assert(old(self).records().take(i + 1 as int).drop_last() =~= old(
                    self,
                ).records().take(i as int));
                assert(old(self).records().take(i + 1 as int).last() == old(
                    self,
                ).records()[i as int]);
            }
            if !(e.ssn == *ssn) {
                kept.push(clone_entry(e));
                assert(kept@.map_values(|e: Entry| e@) =~= pre.push(
                    old(self).records()[i as int],
                ));
            }
            i = i + 1;
        }
        proof {
            assert(old(self).records().take(n as int) =~= old(self).records());
        }
        self.values = kept;
    }

    /// Stores the record if its bucket is owned here, overwriting any
    /// record already stored under the key; otherwise forwards the
    /// message unmodified to the successor, whose absence is the
    /// fatal bookkeeping violation.
    pub fn handle_val_insert(&mut self, pdu: ValInsertPdu) -> (r: Result<Option<Action>, NodeError>)
        requires
            old(self).phase == Phase::MainLoop,
            old(self).wf(),
            pdu.name@.len() <= 255,
            pdu.email@.len() <= 255,
        ensures
            final(self).wf(),
            final(self).phase == Phase::MainLoop,
            insert_post(
                *old(self),
                *final(self),
                pdu@,
                (match r {
                    Ok(None) => Ok(Seq::<Action>::empty()),
                    Ok(Some(a)) => Ok(seq![a]),
                    Err(e) => Err::<Seq<Action>, NodeError>(e),
                }),
            ),
    {
        if self.in_my_range(&pdu.ssn) {
            self.retain_without(&pdu.ssn);
            let e = Entry::new(pdu.ssn, pdu.name, pdu.email);
            self.values.push(e);
            proof {
                assert(self.records() =~= without_ssn(old(self).records(), pdu.ssn@).push(
                    EntryModel { ssn: pdu.ssn@, name: pdu.name@, email: pdu.email@ },
                ));
            }
            Ok(None)
        } else {
            match self.successor {
                Some(_) => Ok(Some(Action::SendToSuccessor(PDU::ValInsert(pdu)))),
                None => Err(NodeError::NoSuccessor),
            }
        }
    }

    /// Answers a lookup for a bucket owned here — with the stored
    /// record, or with the all-zero empty answer when nothing is
    /// stored under the key — directly to the requester's declared
    /// return address; forwards other buckets to the successor.
    pub fn handle_val_lookup(&mut self, pdu: ValLookupPdu) -> (r: Result<Action, NodeError>)
        requires
            old(self).phase == Phase::MainLoop,
            old(self).wf(),
        ensures
            final(self).wf(),
            state_eq(*final(self), *old(self)),
            lookup_post(
                *old(self),
                *final(self),
                pdu@,
                (match r {
                    Ok(a) => Ok(seq![a]),
                    Err(e) => Err::<Seq<Action>, NodeError>(e),
                }),
            ),
    {
        if self.in_my_range(&pdu.ssn) {
            let requester = PeerAddr { ip: pdu.sender_address, port: pdu.sender_port };
            let n = self.values.len();
            let mut i: usize = 0;
            while i < n
                invariant
                    i <= n,
                    n == self.values@.len(),
                    *self == *old(self),
                    old(self).wf(),
                    requester == (PeerAddr { ip: pdu.sender_address, port: pdu.sender_port }),
                    in_range(old(self).hash_range.0, old(self).hash_range.1, spec_bucket(pdu.ssn@)),
                    forall|j: int|
                        0 <= j < i ==> (#[trigger] old(self).records()[j]).ssn != pdu.ssn@,
                decreases n - i,
            {
                let e = &self.values[i];
                if e.ssn == pdu.ssn {
                    proof {
                        assert(old(self).records()[i as int].ssn == pdu.ssn@);
                        lemma_lookup_found(old(self).records(), pdu.ssn@, i as int);
                        assert(wf_entry(old(self).records()[i as int]));
                    }
                    let resp = ValLookupResponsePdu::new(
                        e.ssn.clone(),
                        e.name.clone(),
                        e.email.clone(),
                    );
                    return Ok(Action::SendUdp(PDU::ValLookupResponse(resp), requester));
                }
                proof {
                    assert(old(self).records()[i as int].ssn != pdu.ssn@);
                }
                i = i + 1;
            }
            proof {
                lemma_lookup_none(old(self).records(), pdu.ssn@);
            }
            let resp = ValLookupResponsePdu::new(make_zero_ssn(), String::new(), String::new());
            Ok(Action::SendUdp(PDU::ValLookupResponse(resp), requester))
        } else {
            match self.successor {
                Some(_) => Ok(Action::SendToSuccessor(PDU::ValLookup(pdu))),
                None => Err(NodeError::NoSuccessor),
            }
        }
    }

    /// Deletes every record stored under the key if its bucket is
    /// owned here; otherwise forwards the message unmodified to the
    /// successor.
    pub fn handle_val_remove(&mut self, pdu: ValRemovePdu) -> (r: Result<Option<Action>, NodeError>)
        requires
            old(self).phase == Phase::MainLoop,
            old(self).wf(),
        ensures
            final(self).wf(),
            final(self).phase == Phase::MainLoop,
            remove_post(
                *old(self),
                *final(self),
                pdu@,
                (match r {
                    Ok(None) => Ok(Seq::<Action>::empty()),
                    Ok(Some(a)) => Ok(seq![a]),
                    Err(e) => Err::<Seq<Action>, NodeError>(e),
                }),
            ),
    {
        if self.in_my_range(&pdu.ssn) {
            self.retain_without(&pdu.ssn);
            Ok(None)
        } else {
            match self.successor {
                Some(_) => Ok(Some(Action::SendToSuccessor(PDU::ValRemove(pdu)))),
                None => Err(NodeError::NoSuccessor),
            }
        }
    }

    /// Hands every stored record whose bucket lies in `lo..=hi` to
    /// the chosen neighbor, as one insert message each in store
    /// order, and keeps the rest.
    pub fn transfer(&mut self, to_successor: bool, range_start: u8, range_end: u8) -> (r: Vec<
        Action,
    >)
        requires
            old(self).wf(),
            to_successor ==> old(self).successor is Some,
            !to_successor ==> old(self).predecessor,
        ensures
            final(self).wf(),
            final(self).records() == entries_outside(old(self).records(), range_start, range_end),
            state_eq(*final(self), (Node { values: final(self).values, ..*old(self) })),
            r@.len() == entries_inside(old(self).records(), range_start, range_end).len(),
            forall|i: int|
                0 <= i < r@.len() ==> is_transfer_send(
                    #[trigger] r@[i],
                    to_successor,
                    entries_inside(old(self).records(), range_start, range_end)[i],
                ),
    {
        let n = self.values.len();
        let mut kept: Vec<Entry> = Vec::new();
        let mut acts: Vec<Action> = Vec::new();
        let mut i: usize = 0;
        while i < n
            invariant
                i <= n,
                n == self.values@.len(),
                self.values@ == old(self).values@,
                old(self).wf(),
                to_successor ==> old(self).successor is Some,
                !to_successor ==> old(self).predecessor,
                kept@.map_values(|e: Entry| e@) == entries_outside(
                    old(self).records().take(i as int),
                    range_start,
                    range_end,
                ),
                wf_records(kept@.map_values(|e: Entry| e@)),
                acts@.len() == entries_inside(
                    old(self).records().take(i as int),
                    range_start,
                    range_end,
                ).len(),
                forall|j: int|
                    0 <= j < acts@.len() ==> is_transfer_send(
                        #[trigger] acts@[j],
                        to_successor,
                        entries_inside(
                            old(self).records().take(i as int),
                            range_start,
                            range_end,
                        )[j],
                    ),
            decreases n - i,
        {
            let ghost pre_kept = kept@.map_values(|e: Entry| e@);
            let ghost pre_inside = entries_inside(
                old(self).records().take(i as int),
                range_start,
                range_end,
            );
            let e = &self.values[i];
            proof {
                assert(old(self).records().take(i + 1 as int).drop_last() =~= old(
                    self,
                ).records().take(i as int));
                assert(old(self).records().take(i + 1 as int).last() == old(
                    self,
                ).records()[i as int]);
                assert(wf_entry(old(self).records()[i as int]));
            }
            let b = Entry::hash_ssn(&e.ssn);
            if range_start <= b && b <= range_end {
                let copy = clone_entry(e);
                let insert = ValInsertPdu::new(copy.ssn, copy.name, copy.email);
                if to_successor {
                    acts.push(Action::SendToSuccessor(PDU::ValInsert(insert)));
                } else {
                    acts.push(Action::SendToPredecessor(PDU::ValInsert(insert)));
                }
                assert(entries_inside(
                    old(self).records().take(i + 1 as int),
                    range_start,
                    range_end,
                ) =~= pre_inside.push(old(self).records()[i as int]));
            } else {
                kept.push(clone_entry(e));
                assert(kept@.map_values(|e: Entry| e@) =~= pre_kept.push(
                    old(self).records()[i as int],
                ));
            }
            i = i + 1;
        }
        proof {
            assert(old(self).records().take(n as int) =~= old(self).records());
        }
        self.values = kept;
        acts
    }
}

// ---------------------------------------------------------------------------
// Ring membership
// ---------------------------------------------------------------------------

/// `m` is the join answer that assigns `lo..=hi` and names `next` as
/// the successor to connect to.
pub open spec fn join_response_of(m: PduModel, next: PeerAddr, lo: u8, hi: u8) -> bool {
    m == PduModel::NetJoinResponse(
        NetJoinResponsePdu {
            pdu_type: NET_JOIN_RESPONSE_ID,
            next_address: next.ip,
            next_port: next.port,
            range_start: lo,
            range_end: hi,
        },
    )
}

/// What admitting a join does.  A node alone in the ring becomes the
/// insertion point at once; otherwise the node the join names as
/// widest splits its range, and every other node forwards the join
/// toward its successor, updating the widest-range fields if its own
/// range beats them.  The insertion point keeps the lower half of its
/// range, hands the upper half and the records in it to the joiner,
/// and points the joiner at its old successor (itself, when alone).
/// A single-bucket range cannot be split.
pub open spec fn admit_join_post(
    pre: Node,
    post: Node,
    pdu: NetJoinPdu,
    r: Result<Seq<Action>, NodeError>,
) -> bool {
    let lo = pre.hash_range.0;
    let hi = pre.hash_range.1;
    let mid = (lo + (hi - lo) / 2) as u8;
    let upper_lo = (mid + 1) as u8;
    let joiner = (PeerAddr { ip: pdu.src_address, port: pdu.src_port });
    let inside = entries_inside(pre.records(), upper_lo, hi);
    if pre.successor is None {
        if lo == hi {
            r == Err::<Seq<Action>, NodeError>(NodeError::UnsplittableRange) && state_eq(post, pre)
        } else {
            &&& r matches Ok(acts) && {
                &&& acts.len() == inside.len() + 3
                &&& acts[0] matches Action::ConnectSuccessor(c) && c == joiner
                &&& acts[1] matches Action::SendToSuccessor(p) && join_response_of(
                    p@,
                    (PeerAddr { ip: pre.own_address->0, port: pre.listen_addr.port }),
                    upper_lo,
                    hi,
                )
                &&& forall|k: int|
                    0 <= k < inside.len() ==> is_transfer_send(
                        #[trigger] acts[2 + k],
                        true,
                        inside[k],
                    )
                &&& acts[acts.len() - 1] is AcceptPredecessor
            }
            &&& post.hash_range == (lo, mid)
            &&& post.successor == Some(joiner)
            &&& post.successor_listen == Some(joiner)
            &&& post.predecessor
            &&& post.records() == entries_outside(pre.records(), upper_lo, hi)
            &&& state_eq(
                post,
                (Node {
                    values: post.values,
                    hash_range: (lo, mid),
                    successor: Some(joiner),
                    successor_listen: Some(joiner),
                    predecessor: true,
                    ..pre
                }),
            )
        }
    } else if pre.listen_addr == (PeerAddr { ip: pdu.max_address, port: pdu.max_port }) {
        if lo == hi {
            r == Err::<Seq<Action>, NodeError>(NodeError::UnsplittableRange) && state_eq(post, pre)
        } else {
            &&& r matches Ok(acts) && {
                &&& acts.len() == inside.len() + 4
                &&& acts[0] matches Action::SendToSuccessor(p) && p@
                    == PduModel::NetCloseConnection(
                    NetCloseConnectionPdu { pdu_type: NET_CLOSE_CONNECTION_ID },
                )
                &&& acts[1] is CloseSuccessor
                &&& acts[2] matches Action::ConnectSuccessor(c) && c == joiner
                &&& acts[3] matches Action::SendToSuccessor(p) && join_response_of(
                    p@,
                    pre.successor->0,
                    upper_lo,
                    hi,
                )
                &&& forall|k: int|
                    0 <= k < inside.len() ==> is_transfer_send(
                        #[trigger] acts[4 + k],
                        true,
                        inside[k],
                    )
            }
            &&& post.hash_range == (lo, mid)
            &&& post.successor == Some(joiner)
            &&& post.successor_listen == Some(joiner)
            &&& post.records() == entries_outside(pre.records(), upper_lo, hi)
            &&& state_eq(
                post,
                (Node {
                    values: post.values,
                    hash_range: (lo, mid),
                    successor: Some(joiner),
                    successor_listen: Some(joiner),
                    ..pre
                }),
            )
        }
    } else {
        let span = (hi - lo) as u8;
        let fwd = if span > pdu.max_span {
            (NetJoinPdu {
                max_span: span,
                max_address: pre.listen_addr.ip,
                max_port: pre.listen_addr.port,
                ..pdu
            })
        } else {
            pdu
        };
        &&& r matches Ok(acts) && acts.len() == 1 && (acts[0] matches Action::SendToSuccessor(p)
            && p@ == PduModel::NetJoin(fwd))
        &&& state_eq(post, pre)
    }
}

/// What absorbing a departing neighbor's range does: a range starting
/// right above this node's extends it upward and is acknowledged to
/// the successor; any other extends it downward and is acknowledged
/// to the predecessor.
pub open spec fn new_range_post(
    pre: Node,
    post: Node,
    pdu: NetNewRangePdu,
    r: Result<Seq<Action>, NodeError>,
) -> bool {
    let lo = pre.hash_range.0;
    let hi = pre.hash_range.1;
    let ack = PduModel::NetNewRangeResponse(
        NetNewRangeResponsePdu { pdu_type: NET_NEW_RANGE_RESPONSE_ID },
    );
    if hi != 255 && pdu.range_start == hi + 1 {
        if pdu.range_end < pdu.range_start {
            r == Err::<Seq<Action>, NodeError>(NodeError::InvalidRange) && state_eq(post, pre)
        } else if pre.successor is None {
            r == Err::<Seq<Action>, NodeError>(NodeError::NoSuccessor) && state_eq(post, pre)
        } else {
            &&& r matches Ok(acts) && acts.len() == 1 && (acts[0] matches
                Action::SendToSuccessor(p) && p@ == ack)
            &&& post.hash_range == (lo, pdu.range_end)
            &&& state_eq(post, (Node { hash_range: (lo, pdu.range_end), ..pre }))
        }
    } else {
        if pdu.range_start > hi {
            r == Err::<Seq<Action>, NodeError>(NodeError::InvalidRange) && state_eq(post, pre)
        } else if !pre.predecessor {
            r == Err::<Seq<Action>, NodeError>(NodeError::NoPredecessor) && state_eq(post, pre)
        } else {
            &&& r matches Ok(acts) && acts.len() == 1 && (acts[0] matches
                Action::SendToPredecessor(p) && p@ == ack)
            &&& post.hash_range == (pdu.range_start, hi)
            &&& state_eq(post, (Node { hash_range: (pdu.range_start, hi), ..pre }))
        }
    }
}

/// What a neighbor's goodbye does: if the replacement it names is
/// this node itself, the ring has shrunk to this node alone and both
/// links drop; otherwise the successor link moves to the named
/// replacement.
pub open spec fn leaving_post(pre: Node, post: Node, pdu: NetLeavingPdu, acts: Seq<Action>) -> bool {
    let replacement = (PeerAddr { ip: pdu.new_address, port: pdu.new_port });
    if pdu.new_address == pre.own_address->0 && pdu.new_port == pre.listen_addr.port {
        &&& acts.len() == 2
        &&& acts[0] is CloseSuccessor
        &&& acts[1] is ClosePredecessor
        &&& post.successor is None
        &&& !post.predecessor
        &&& state_eq(
            post,
            (Node { successor: None, predecessor: false, ..pre }),
        )
    } else {
        &&& acts.len() == 2
        &&& acts[0] is CloseSuccessor
        &&& acts[1] matches Action::ConnectSuccessor(c) && c == replacement
        &&& post.successor == Some(replacement)
        &&& post.successor_listen == Some(replacement)
        &&& state_eq(
            post,
            (Node {
                successor: Some(replacement),
                successor_listen: Some(replacement),
                ..pre
            }),
        )
    }
}

/// What a predecessor's close does: the link drops, and unless this
/// node already owns the whole space (and so is the sole node), a new
/// predecessor is awaited.
pub open spec fn predecessor_closed_post(pre: Node, post: Node, acts: Seq<Action>) -> bool {
    if pre.hash_range == (0u8, 255u8) {
        &&& acts.len() == 1
        &&& acts[0] is ClosePredecessor
        &&& !post.predecessor
        &&& state_eq(post, (Node { predecessor: false, ..pre }))
    } else {
        &&& acts.len() == 2
        &&& acts[0] is ClosePredecessor
        &&& acts[1] is AcceptPredecessor
        &&& post.predecessor
        &&& state_eq(post, (Node { predecessor: true, ..pre }))
    }
}

impl Node {
    /// Admits, splits for, or forwards a join request.
    pub fn admit_join(&mut self, pdu: NetJoinPdu) -> (r: Result<Vec<Action>, NodeError>)
        requires
            old(self).phase == Phase::MainLoop,
            old(self).wf(),
        ensures
            final(self).wf(),
            final(self).phase == Phase::MainLoop,
            admit_join_post(
                *old(self),
                *final(self),
                pdu,
                (match r {
                    Ok(acts) => Ok(acts@),
                    Err(e) => Err::<Seq<Action>, NodeError>(e),
                }),
            ),
    {
        let joiner = PeerAddr { ip: pdu.src_address, port: pdu.src_port };
        match self.successor {
            None => {
                if self.hash_range.0 == self.hash_range.1 {
                    return Err(NodeError::UnsplittableRange);
                }
                let mut acts: Vec<Action> = Vec::new();
                acts.push(Action::ConnectSuccessor(joiner));
                self.successor = Some(joiner);
                self.successor_listen = Some(joiner);
                let (mins, maxs) = self.split_range();
                let own = match self.own_address {
                    Some(a) => a,
                    None => unreached(),  // wf says the address is known here
                };
                let resp = NetJoinResponsePdu::new(own, self.listen_addr.port, mins, maxs);
                acts.push(Action::SendToSuccessor(PDU::NetJoinResponse(resp)));
                let mut sends = self.transfer(true, mins, maxs);
                let ghost pre_acts = acts@;
                let ghost send_seq = sends@;
                acts.append(&mut sends);
                acts.push(Action::AcceptPredecessor);
                self.predecessor = true;
                proof {
                    assert(acts@ =~= pre_acts + send_seq + seq![Action::AcceptPredecessor]);
                }
                Ok(acts)
            },
            Some(old_successor) => {
                if self.listen_addr.ip == pdu.max_address && self.listen_addr.port
                    == pdu.max_port {
                    if self.hash_range.0 == self.hash_range.1 {
                        return Err(NodeError::UnsplittableRange);
                    }
                    let mut acts: Vec<Action> = Vec::new();
                    acts.push(
                        Action::SendToSuccessor(PDU::NetCloseConnection(NetCloseConnectionPdu::new())),
                    );
                    acts.push(Action::CloseSuccessor);
                    acts.push(Action::ConnectSuccessor(joiner));
                    self.successor = Some(joiner);
                    self.successor_listen = Some(joiner);
                    let (mins, maxs) = self.split_range();
                    let resp = NetJoinResponsePdu::new(
                        old_successor.ip,
                        old_successor.port,
                        mins,
                        maxs,
                    );
                    acts.push(Action::SendToSuccessor(PDU::NetJoinResponse(resp)));
                    let mut sends = self.transfer(true, mins, maxs);
                    let ghost pre_acts = acts@;
                    let ghost send_seq = sends@;
                    acts.append(&mut sends);
                    proof {
                        assert(acts@ =~= pre_acts + send_seq);
                    }
                    Ok(acts)
                } else {
                    let (min, max) = self.hash_range;
                    let span = max - min;
                    let fwd = if span > pdu.max_span {
                        NetJoinPdu {
                            pdu_type: pdu.pdu_type,
                            src_address: pdu.src_address,
                            src_port: pdu.src_port,
                            max_span: span,
                            max_address: self.listen_addr.ip,
                            max_port: self.listen_addr.port,
                        }
                    } else {
                        pdu
                    };
                    let mut acts: Vec<Action> = Vec::new();
                    acts.push(Action::SendToSuccessor(PDU::NetJoin(fwd)));
                    Ok(acts)
                }
            },
        }
    }

    /// Absorbs the range a departing neighbor hands over and
    /// acknowledges it.
    pub fn on_new_range(&mut self, pdu: NetNewRangePdu) -> (r: Result<Vec<Action>, NodeError>)
        requires
            old(self).phase == Phase::MainLoop,
            old(self).wf(),
        ensures
            final(self).wf(),
            final(self).phase == Phase::MainLoop,
            new_range_post(
                *old(self),
                *final(self),
                pdu,
                (match r {
                    Ok(acts) => Ok(acts@),
                    Err(e) => Err::<Seq<Action>, NodeError>(e),
                }),
            ),
    {
        let (min, max) = self.hash_range;
        let ack = NetNewRangeResponsePdu::new();
        if max != 255 && pdu.range_start == max + 1 {
            if pdu.range_end < pdu.range_start {
                return Err(NodeError::InvalidRange);
            }
            if self.successor.is_none() {
                return Err(NodeError::NoSuccessor);
            }
            self.hash_range = (min, pdu.range_end);
            let mut acts: Vec<Action> = Vec::new();
            acts.push(Action::SendToSuccessor(PDU::NetNewRangeResponse(ack)));
            Ok(acts)
        } else {
            if pdu.range_start > max {
                return Err(NodeError::InvalidRange);
            }
            if !self.predecessor {
                return Err(NodeError::NoPredecessor);
            }
            self.hash_range = (pdu.range_start, max);
            let mut acts: Vec<Action> = Vec::new();
            acts.push(Action::SendToPredecessor(PDU::NetNewRangeResponse(ack)));
            Ok(acts)
        }
    }

    /// Reacts to a neighbor's goodbye: drops to a sole node when the
    /// goodbye names this node as the replacement, otherwise moves
    /// the successor link to the replacement.
    pub fn on_neighbor_leaving(&mut self, pdu: NetLeavingPdu) -> (r: Vec<Action>)
        requires
            old(self).phase == Phase::MainLoop,
            old(self).wf(),
        ensures
            final(self).wf(),
            final(self).phase == Phase::MainLoop,
            leaving_post(*old(self), *final(self), pdu, r@),
    {
        let own = match self.own_address {
            Some(a) => a,
            None => unreached(),  // wf says the address is known here
        };
        let mut acts: Vec<Action> = Vec::new();
        if pdu.new_address == own && pdu.new_port == self.listen_addr.port {
            self.successor = None;
            self.predecessor = false;
            acts.push(Action::CloseSuccessor);
            acts.push(Action::ClosePredecessor);
        } else {
            let replacement = PeerAddr { ip: pdu.new_address, port: pdu.new_port };
            self.successor = Some(replacement);
            self.successor_listen = Some(replacement);
            acts.push(Action::CloseSuccessor);
            acts.push(Action::ConnectSuccessor(replacement));
        }
        acts
    }

    /// Reacts to the predecessor closing its link: the sole node
    /// stays alone, every other node waits for its new predecessor.
    pub fn on_predecessor_closed(&mut self) -> (r: Vec<Action>)
        requires
            old(self).phase == Phase::MainLoop,
            old(self).wf(),
        ensures
            final(self).wf(),
            final(self).phase == Phase::MainLoop,
            predecessor_closed_post(*old(self), *final(self), r@),
    {
        let mut acts: Vec<Action> = Vec::new();
        acts.push(Action::ClosePredecessor);
        if self.hash_range.0 == 0 && self.hash_range.1 == 255 {
            self.predecessor = false;
        } else {
            acts.push(Action::AcceptPredecessor);
            self.predecessor = true;
        }
        acts
    }
}

// ---------------------------------------------------------------------------
// The main dispatch loop and graceful departure
// ---------------------------------------------------------------------------

impl Node {
    /// Dispatches one message popped from a framer while in the main
    /// loop.  Joins, range hand-overs, goodbyes and value operations
    /// go to their handlers; a close notice is honored only from the
    /// predecessor; anything else is dropped where the protocol has
    /// no answer to it.
    pub fn handle_message(&mut self, pdu: PDU, source: Source) -> (r: Result<Vec<Action>, NodeError>)
        requires
            old(self).phase == Phase::MainLoop,
            old(self).wf(),
            pdu@ matches PduModel::ValInsert(m) ==> m.name.len() <= 255 && m.email.len() <= 255,
        ensures
            final(self).wf(),
            final(self).phase == Phase::MainLoop,
            ({
                let rs = (match r {
                    Ok(acts) => Ok(acts@),
                    Err(e) => Err::<Seq<Action>, NodeError>(e),
                });
                match pdu@ {
                    PduModel::NetJoin(m) => admit_join_post(*old(self), *final(self), m, rs),
                    PduModel::NetCloseConnection(_) => match source {
                        Source::Predecessor(_) => r matches Ok(acts) && predecessor_closed_post(
                            *old(self),
                            *final(self),
                            acts@,
                        ),
                        _ => r == Err::<Vec<Action>, NodeError>(NodeError::UnexpectedPdu)
                            && state_eq(*final(self), *old(self)),
                    },
                    PduModel::NetNewRange(m) => new_range_post(*old(self), *final(self), m, rs),
                    PduModel::NetLeaving(m) => r matches Ok(acts) && leaving_post(
                        *old(self),
                        *final(self),
                        m,
                        acts@,
                    ),
                    PduModel::ValInsert(m) => insert_post(*old(self), *final(self), m, rs),
                    PduModel::ValRemove(m) => remove_post(*old(self), *final(self), m, rs),
                    PduModel::ValLookup(m) => lookup_post(*old(self), *final(self), m, rs),
                    _ => r matches Ok(acts) && acts@.len() == 0 && state_eq(
                        *final(self),
                        *old(self),
                    ),
                }
            }),
    {
        match pdu {
            PDU::NetJoin(p) => self.admit_join(p),
            PDU::NetCloseConnection(_) => match source {
                Source::Predecessor(_) => Ok(self.on_predecessor_closed()),
                _ => Err(NodeError::UnexpectedPdu),
            },
            PDU::NetNewRange(p) => self.on_new_range(p),
            PDU::NetLeaving(p) => Ok(self.on_neighbor_leaving(p)),
            PDU::ValInsert(p) => match self.handle_val_insert(p) {
                Ok(None) => Ok(Vec::new()),
                Ok(Some(a)) => {
                    let mut acts: Vec<Action> = Vec::new();
                    acts.push(a);
                    Ok(acts)
                },
                Err(e) => Err(e),
            },
            PDU::ValRemove(p) => match self.handle_val_remove(p) {
                Ok(None) => Ok(Vec::new()),
                Ok(Some(a)) => {
                    let mut acts: Vec<Action> = Vec::new();
                    acts.push(a);
                    Ok(acts)
                },
                Err(e) => Err(e),
            },
            PDU::ValLookup(p) => match self.handle_val_lookup(p) {
                Ok(a) => {
                    let mut acts: Vec<Action> = Vec::new();
                    acts.push(a);
                    Ok(acts)
                },
                Err(e) => Err(e),
            },
            _ => Ok(Vec::new()),
        }
    }

    /// Acts on a shutdown request observed at the end of a main-loop
    /// turn.  The sole node terminates at once, sending nothing; a
    /// node with a successor announces its range to the neighbor that
    /// must absorb it — the successor when the range starts at zero,
    /// the predecessor otherwise — and waits for the acknowledgement.
    pub fn begin_leave(&mut self) -> (r: Result<Option<Action>, NodeError>)
        requires
            old(self).phase == Phase::MainLoop,
            old(self).wf(),
        ensures
            final(self).wf(),
            match r {
                Ok(act) => {
                    if old(self).successor is None {
                        &&& act is None
                        &&& final(self).phase == Phase::Terminated
                        &&& state_eq(
                            *final(self),
                            (Node { phase: Phase::Terminated, ..*old(self) }),
                        )
                    } else {
                        let hand_over = PduModel::NetNewRange(
                            NetNewRangePdu {
                                pdu_type: crate::codec::NET_NEW_RANGE_ID,
                                range_start: old(self).hash_range.0,
                                range_end: old(self).hash_range.1,
                            },
                        );
                        &&& final(self).phase == Phase::AwaitRangeAck
                        &&& state_eq(
                            *final(self),
                            (Node { phase: Phase::AwaitRangeAck, ..*old(self) }),
                        )
                        &&& act matches Some(a) && (if old(self).hash_range.0 == 0 {
                            a matches Action::SendToSuccessor(p) && p@ == hand_over
                        } else {
                            a matches Action::SendToPredecessor(p) && p@ == hand_over
                        })
                    }
                },
                Err(e) => {
                    &&& e == NodeError::NoPredecessor
                    &&& old(self).successor is Some
                    &&& !old(self).predecessor
                    &&& state_eq(*final(self), *old(self))
                },
            },
    {
        if self.successor.is_none() {
            self.phase = Phase::Terminated;
            return Ok(None);
        }
        if !self.predecessor {
            return Err(NodeError::NoPredecessor);
        }
        let (min, max) = self.hash_range;
        let hand_over = NetNewRangePdu::new(min, max);
        self.phase = Phase::AwaitRangeAck;
        if min == 0 {
            Ok(Some(Action::SendToSuccessor(PDU::NetNewRange(hand_over))))
        } else {
            Ok(Some(Action::SendToPredecessor(PDU::NetNewRange(hand_over))))
        }
    }

    /// Finishes departure once the absorbing neighbor has
    /// acknowledged the range: every remaining record goes to that
    /// neighbor, the successor link is closed with a notice, and the
    /// predecessor is told which node replaces this one before its
    /// link closes too.  A reply of the wrong kind is the fatal
    /// protocol violation.
    pub fn on_range_ack(&mut self, pdu: PDU) -> (r: Result<Vec<Action>, NodeError>)
        requires
            old(self).phase == Phase::AwaitRangeAck,
            old(self).wf(),
        ensures
            final(self).wf(),
            match r {
                Ok(acts) => {
                    let lo = old(self).hash_range.0;
                    let hi = old(self).hash_range.1;
                    let to_successor = lo == 0;
                    let inside = entries_inside(old(self).records(), lo, hi);
                    let farewell = PduModel::NetLeaving(
                        NetLeavingPdu {
                            pdu_type: NET_LEAVING_ID,
                            new_address: old(self).successor_listen->0.ip,
                            new_port: old(self).successor_listen->0.port,
                        },
                    );
                    &&& pdu@ matches PduModel::NetNewRangeResponse(_)
                    &&& old(self).successor is Some
                    &&& old(self).successor_listen is Some
                    &&& old(self).predecessor
                    &&& final(self).phase == Phase::Terminated
                    &&& final(self).records() == entries_outside(old(self).records(), lo, hi)
                    &&& final(self).successor is None
                    &&& !final(self).predecessor
                    &&& state_eq(
                        *final(self),
                        (Node {
                            phase: Phase::Terminated,
                            values: final(self).values,
                            successor: None,
                            predecessor: false,
                            ..*old(self)
                        }),
                    )
                    &&& acts@.len() == inside.len() + 4
                    &&& forall|k: int|
                        0 <= k < inside.len() ==> is_transfer_send(
                            #[trigger] acts@[k],
                            to_successor,
                            inside[k],
                        )
                    &&& acts@[acts@.len() - 4] matches Action::SendToSuccessor(p) && p@
                        == PduModel::NetCloseConnection(
                        NetCloseConnectionPdu { pdu_type: NET_CLOSE_CONNECTION_ID },
                    )
                    &&& acts@[acts@.len() - 3] is CloseSuccessor
                    &&& acts@[acts@.len() - 2] matches Action::SendToPredecessor(p) && p@
                        == farewell
                    &&& acts@[acts@.len() - 1] is ClosePredecessor
                },
                Err(e) => {
                    &&& state_eq(*final(self), *old(self))
                    &&& match e {
                        NodeError::UnexpectedPdu => !(pdu@ matches PduModel::NetNewRangeResponse(
                            _,
                        )),
                        NodeError::NoSuccessor => old(self).successor is None,
                        NodeError::NoSuccessorListen => old(self).successor_listen is None,
                        NodeError::NoPredecessor => !old(self).predecessor,
                        _ => false,
                    }
                },
            },
    {
        match pdu {
            PDU::NetNewRangeResponse(_) => {},
            _ => {
                return Err(NodeError::UnexpectedPdu);
            },
        }
        if self.successor.is_none() {
            return Err(NodeError::NoSuccessor);
        }
        let replacement = match self.successor_listen {
            Some(a) => a,
            None => {
                return Err(NodeError::NoSuccessorListen);
            },
        };
        if !self.predecessor {
            return Err(NodeError::NoPredecessor);
        }
        let (min, max) = self.hash_range;
        let to_successor = min == 0;
        let mut acts = self.transfer(to_successor, min, max);
        let ghost send_seq = acts@;
        acts.push(Action::SendToSuccessor(PDU::NetCloseConnection(NetCloseConnectionPdu::new())));
        acts.push(Action::CloseSuccessor);
        let farewell = NetLeavingPdu::new(replacement.ip, replacement.port);
        acts.push(Action::SendToPredecessor(PDU::NetLeaving(farewell)));
        acts.push(Action::ClosePredecessor);
        self.successor = None;
        self.predecessor = false;
        self.phase = Phase::Terminated;
        Ok(acts)
    }
}

} // verus!
