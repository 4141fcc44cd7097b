//! The framer: turns raw transport bytes into a FIFO of typed
//! messages.
//!
//! One framer serves one socket or connection.  Received bytes are
//! appended to a bounded internal buffer; complete PDUs are decoded
//! off its front, paired with the sender's address, and queued in
//! arrival order, and the consumed prefix is discarded.  Overflowing
//! the buffer and meeting an unknown type tag are both fatal; an
//! incomplete message at the front of the buffer simply waits for
//! more bytes.  The socket reads themselves happen outside the
//! library: callers hand in whatever bytes arrived.

use vstd::prelude::*;
use std::collections::VecDeque;

use crate::addr::PeerAddr;
use crate::codec::{parse_pdu, spec_parse_pdu, ParseError, PduModel, SpecParsed, PDU};

verus! {

/// Capacity of a framer's accumulation buffer; filling past it is
/// fatal.
pub const BUFFER_SIZE: usize = 25600;

/// One decoded message and the address it came from.
pub type Message = (PDU, PeerAddr);

/// The fatal framing failures: more buffered bytes than the buffer
/// may hold, or a leading type tag no PDU kind owns.
#[derive(Clone, Copy, Debug, PartialEq, Eq, Structural)]
pub enum FramerError {
    BufferOverflow,
    UnknownTag(u8),
}

/// The mathematical state of a framer: the queued messages, each with
/// its sender, and the bytes still waiting for completion.
pub struct FramerView {
    pub queue: Seq<(PduModel, PeerAddr)>,
    pub buffer: Seq<u8>,
}

/// The messages that greedy decoding extracts from the front of `b`.
pub open spec fn spec_drain_msgs(b: Seq<u8>) -> Seq<PduModel>
    decreases b.len(),
{
    match spec_parse_pdu(b) {
        SpecParsed::Complete(m, n) => if 1 <= n <= b.len() {
            seq![m] + spec_drain_msgs(b.skip(n))
        } else {
            seq![m]
        },
        _ => seq![],
    }
}

/// The bytes left after greedy decoding stops, either short of a
/// whole message or at an unknown tag.
pub open spec fn spec_drain_rest(b: Seq<u8>) -> Seq<u8>
    decreases b.len(),
{
    match spec_parse_pdu(b) {
        SpecParsed::Complete(m, n) => if 1 <= n <= b.len() {
            spec_drain_rest(b.skip(n))
        } else {
            b
        },
        _ => b,
    }
}

/// Greedy decoding never stops short: the bytes left after draining
/// a buffer never begin with a complete message, only with an
/// incomplete one or an unknown tag.
pub proof fn lemma_drain_rest_never_complete(b: Seq<u8>)
    ensures
        !(spec_parse_pdu(spec_drain_rest(b)) is Complete),
    decreases b.len(),
{
    match spec_parse_pdu(b) {
        SpecParsed::Complete(_m, n) => {
            crate::codec::lemma_complete_parse_consumes(b);
            lemma_drain_rest_never_complete(b.skip(n));
        },
        SpecParsed::Incomplete => {},
        SpecParsed::Unknown(_) => {},
    }
}

/// Copies `bytes` onto the end of `v`.
fn append_bytes(v: &mut Vec<u8>, bytes: &[u8])
    ensures
        final(v)@ == old(v)@ + bytes@,
{
    let n = bytes.len();
    let mut i: usize = 0;
    while i < n
        invariant
            i <= n,
            n == bytes@.len(),
            v@ == old(v)@ + bytes@.take(i as int),
        decreases n - i,
    {
        v.push(bytes[i]);
        assert(v@ =~= old(v)@ + bytes@.take(i + 1 as int));
        i = i + 1;
    }
    assert(bytes@.take(n as int) =~= bytes@);
}

/// Replaces `v` by everything from position `n` on.
fn drop_prefix(v: &mut Vec<u8>, n: usize)
    requires
        n <= old(v)@.len(),
    ensures
        final(v)@ == old(v)@.skip(n as int),
{
    let len = v.len();
    let mut rest: Vec<u8> = Vec::new();
    let mut i: usize = n;
    while i < len
        invariant
            n <= i <= len,
            len == v@.len(),
            v@ == old(v)@,
            rest@ == v@.subrange(n as int, i as int),
        decreases len - i,
    {
        rest.push(v[i]);
        assert(rest@ =~= v@.subrange(n as int, i + 1 as int));
        i = i + 1;
    }
    assert(rest@ =~= old(v)@.skip(n as int));
    *v = rest;
}

/// Decodes every complete message off the front of `buffer`, queueing
/// each with `sender`, until the front is incomplete (success) or
/// holds an unknown tag (fatal).
fn drain_buffer(queue: &mut VecDeque<Message>, buffer: &mut Vec<u8>, sender: PeerAddr) -> (r: Result<
    (),
    FramerError,
>)
    ensures
        final(queue)@.map_values(|m: Message| (m.0@, m.1)) == old(queue)@.map_values(
            |m: Message| (m.0@, m.1),
        ) + spec_drain_msgs(old(buffer)@).map_values(|m: PduModel| (m, sender)),
        final(buffer)@ == spec_drain_rest(old(buffer)@),
        final(buffer)@.len() <= old(buffer)@.len(),
        match r {
            Ok(_) => !(spec_parse_pdu(spec_drain_rest(old(buffer)@)) is Unknown),
            Err(e) => {
                &&& e matches FramerError::UnknownTag(t)
                &&& spec_parse_pdu(spec_drain_rest(old(buffer)@)) == SpecParsed::Unknown(t)
            },
        },
{
    loop
        invariant
            old(queue)@.map_values(|m: Message| (m.0@, m.1)) + spec_drain_msgs(
                old(buffer)@,
            ).map_values(|m: PduModel| (m, sender)) == queue@.map_values(|m: Message| (m.0@, m.1))
                + spec_drain_msgs(buffer@).map_values(|m: PduModel| (m, sender)),
            spec_drain_rest(buffer@) == spec_drain_rest(old(buffer)@),
            buffer@.len() <= old(buffer)@.len(),
        decreases buffer@.len(),
    {
        let parsed = parse_pdu(buffer.as_slice());
        match parsed {
            Ok(Some((pdu, used))) => {
                proof {
                    assert(spec_drain_msgs(buffer@) =~= seq![pdu@] + spec_drain_msgs(
                        buffer@.skip(used as int),
                    ));
                    assert(spec_drain_msgs(buffer@).map_values(|m: PduModel| (m, sender)) =~= seq![
                        (pdu@, sender),
                    ] + spec_drain_msgs(buffer@.skip(used as int)).map_values(
                        |m: PduModel| (m, sender),
                    ));
                }
                let ghost pre_queue = queue@;
                queue.push_back((pdu, sender));
                assert(queue@.map_values(|m: Message| (m.0@, m.1)) =~= pre_queue.map_values(
                    |m: Message| (m.0@, m.1),
                ) + seq![(pdu@, sender)]);
                drop_prefix(buffer, used);
            },
            Ok(None) => {
                return Ok(());
            },
            Err(ParseError::UnknownTag(t)) => {
                return Err(FramerError::UnknownTag(t));
            },
        }
    }
}

/// The framer for the stream link to one ring neighbor.  Peer-closed
/// detection (a zero-length read) happens at the socket and is
/// reported by the caller's read loop; messages already queued here
/// survive it.
pub struct TcpWrapper {
    incoming_queue: VecDeque<Message>,
    buffer: Vec<u8>,
}

impl View for TcpWrapper {
    type V = FramerView;

    closed spec fn view(&self) -> FramerView {
        FramerView {
            queue: self.incoming_queue@.map_values(|m: Message| (m.0@, m.1)),
            buffer: self.buffer@,
        }
    }
}

impl TcpWrapper {
    /// The buffer never holds more than its capacity.
    pub closed spec fn wf(&self) -> bool {
        self.buffer@.len() <= BUFFER_SIZE
    }

    pub fn new() -> (r: TcpWrapper)
        ensures
            r@.queue == Seq::<(PduModel, PeerAddr)>::empty(),
            r@.buffer == Seq::<u8>::empty(),
            r.wf(),
    {
        let r = TcpWrapper { incoming_queue: VecDeque::new(), buffer: Vec::new() };
        assert(r@.queue =~= Seq::<(PduModel, PeerAddr)>::empty());
        r
    }

    /// Absorbs bytes read from the connection, attributed to `peer`,
    /// and decodes every complete message they finish.
    pub fn feed(&mut self, bytes: &[u8], peer: PeerAddr) -> (r: Result<(), FramerError>)
        requires
            old(self).wf(),
        ensures
            final(self).wf(),
            match r {
                Ok(_) => {
                    &&& old(self)@.buffer.len() + bytes@.len() <= BUFFER_SIZE
                    &&& final(self)@.queue == old(self)@.queue + spec_drain_msgs(
                        old(self)@.buffer + bytes@,
                    ).map_values(|m: PduModel| (m, peer))
                    &&& final(self)@.buffer == spec_drain_rest(old(self)@.buffer + bytes@)
                    &&& !(spec_parse_pdu(final(self)@.buffer) is Unknown)
                },
                Err(FramerError::BufferOverflow) => {
                    &&& old(self)@.buffer.len() + bytes@.len() > BUFFER_SIZE
                    &&& final(self)@ == old(self)@
                },
                Err(FramerError::UnknownTag(t)) => {
                    &&& old(self)@.buffer.len() + bytes@.len() <= BUFFER_SIZE
                    &&& final(self)@.queue == old(self)@.queue + spec_drain_msgs(
                        old(self)@.buffer + bytes@,
                    ).map_values(|m: PduModel| (m, peer))
                    &&& final(self)@.buffer == spec_drain_rest(old(self)@.buffer + bytes@)
                    &&& spec_parse_pdu(final(self)@.buffer) == SpecParsed::Unknown(t)
                },
            },
    {
        if bytes.len() > BUFFER_SIZE - self.buffer.len() {
            return Err(FramerError::BufferOverflow);
        }
        append_bytes(&mut self.buffer, bytes);
        drain_buffer(&mut self.incoming_queue, &mut self.buffer, peer)
    }

    /// Pops the oldest queued message, in arrival order.
    pub fn next_pdu(&mut self) -> (r: Option<Message>)
        requires
            old(self).wf(),
        ensures
            final(self).wf(),
            final(self)@.buffer == old(self)@.buffer,
            match r {
                Some(m) => {
                    &&& old(self)@.queue.len() > 0
                    &&& (m.0@, m.1) == old(self)@.queue[0]
                    &&& final(self)@.queue == old(self)@.queue.drop_first()
                },
                None => {
                    &&& old(self)@.queue.len() == 0
                    &&& final(self)@.queue == old(self)@.queue
                },
            },
    {
        let r = self.incoming_queue.pop_front();
        proof {
            if old(self)@.queue.len() > 0 {
                assert(self.incoming_queue@.map_values(|m: Message| (m.0@, m.1)) =~= old(
                    self,
                )@.queue.drop_first());
            }
        }
        r
    }
}

/// The framer for the node's datagram socket.  Each received datagram
/// is absorbed with the address it came from, and the messages it
/// completes are tagged with that sender.
pub struct UdpWrapper {
    incoming_queue: VecDeque<Message>,
    buffer: Vec<u8>,
}

impl View for UdpWrapper {
    type V = FramerView;

    closed spec fn view(&self) -> FramerView {
        FramerView {
            queue: self.incoming_queue@.map_values(|m: Message| (m.0@, m.1)),
            buffer: self.buffer@,
        }
    }
}

impl UdpWrapper {
    /// The buffer never holds more than its capacity.
    pub closed spec fn wf(&self) -> bool {
        self.buffer@.len() <= BUFFER_SIZE
    }

    pub fn new() -> (r: UdpWrapper)
        ensures
            r@.queue == Seq::<(PduModel, PeerAddr)>::empty(),
            r@.buffer == Seq::<u8>::empty(),
            r.wf(),
    {
        let r = UdpWrapper { incoming_queue: VecDeque::new(), buffer: Vec::new() };
        assert(r@.queue =~= Seq::<(PduModel, PeerAddr)>::empty());
        r
    }

    /// Absorbs one received datagram and its sender address, and
    /// decodes every complete message it finishes.
    pub fn feed(&mut self, bytes: &[u8], sender: PeerAddr) -> (r: Result<(), FramerError>)
        requires
            old(self).wf(),
        ensures
            final(self).wf(),
            match r {
                Ok(_) => {
                    &&& old(self)@.buffer.len() + bytes@.len() <= BUFFER_SIZE
                    &&& final(self)@.queue == old(self)@.queue + spec_drain_msgs(
                        old(self)@.buffer + bytes@,
                    ).map_values(|m: PduModel| (m, sender))
                    &&& final(self)@.buffer == spec_drain_rest(old(self)@.buffer + bytes@)
                    &&& !(spec_parse_pdu(final(self)@.buffer) is Unknown)
                },
                Err(FramerError::BufferOverflow) => {
                    &&& old(self)@.buffer.len() + bytes@.len() > BUFFER_SIZE
                    &&& final(self)@ == old(self)@
                },
                Err(FramerError::UnknownTag(t)) => {
                    &&& old(self)@.buffer.len() + bytes@.len() <= BUFFER_SIZE
                    &&& final(self)@.queue == old(self)@.queue + spec_drain_msgs(
                        old(self)@.buffer + bytes@,
                    ).map_values(|m: PduModel| (m, sender))
                    &&& final(self)@.buffer == spec_drain_rest(old(self)@.buffer + bytes@)
                    &&& spec_parse_pdu(final(self)@.buffer) == SpecParsed::Unknown(t)
                },
            },
    {
        if bytes.len() > BUFFER_SIZE - self.buffer.len() {
            return Err(FramerError::BufferOverflow);
        }
        append_bytes(&mut self.buffer, bytes);
        drain_buffer(&mut self.incoming_queue, &mut self.buffer, sender)
    }

    /// Pops the oldest queued message, in arrival order.
    pub fn next_pdu(&mut self) -> (r: Option<Message>)
        requires
            old(self).wf(),
        ensures
            final(self).wf(),
            final(self)@.buffer == old(self)@.buffer,
            match r {
                Some(m) => {
                    &&& old(self)@.queue.len() > 0
                    &&& (m.0@, m.1) == old(self)@.queue[0]
                    &&& final(self)@.queue == old(self)@.queue.drop_first()
                },
                None => {
                    &&& old(self)@.queue.len() == 0
                    &&& final(self)@.queue == old(self)@.queue
                },
            },
    {
        let r = self.incoming_queue.pop_front();
        proof {
            if old(self)@.queue.len() > 0 {
                assert(self.incoming_queue@.map_values(|m: Message| (m.0@, m.1)) =~= old(
                    self,
                )@.queue.drop_first());
            }
        }
        r
    }
}

} // verus!
