//! The wire protocol: the PDU catalog and its codec.
//!
//! Every PDU is one byte of type tag followed by its fields; multi-byte
//! integers are big-endian and there is no padding.  String fields are
//! carried one byte per character, taking the low eight bits of each
//! character's code point.  Encoding never fails.  Decoding consumes a
//! prefix of a buffer and reports the decoded value together with the
//! exact number of bytes consumed, or reports "incomplete" when the
//! buffer is too short; an unrecognized leading tag is a protocol
//! error, not an incomplete read.

use vstd::prelude::*;
use vstd::string::StrSliceExecFns;

use crate::addr::PeerAddr;

verus! {

pub const NET_ALIVE_ID: u8 = 0;
pub const NET_GET_NODE_ID: u8 = 1;
pub const NET_GET_NODE_RESPONSE_ID: u8 = 2;
pub const NET_JOIN_ID: u8 = 3;
pub const NET_JOIN_RESPONSE_ID: u8 = 4;
pub const NET_CLOSE_CONNECTION_ID: u8 = 5;
pub const NET_NEW_RANGE_ID: u8 = 6;
pub const NET_LEAVING_ID: u8 = 7;
pub const NET_NEW_RANGE_RESPONSE_ID: u8 = 8;

pub const VAL_INSERT_ID: u8 = 100;
pub const VAL_REMOVE_ID: u8 = 101;
pub const VAL_LOOKUP_ID: u8 = 102;
pub const VAL_LOOKUP_RESPONSE_ID: u8 = 103;

pub const STUN_LOOKUP_ID: u8 = 200;
pub const STUN_RESPONSE_ID: u8 = 201;

pub const SSN_LENGTH: usize = 12;

pub const NET_ALIVE_SIZE: usize = 1;
pub const NET_GET_NODE_SIZE: usize = 1;
pub const NET_GET_NODE_RESPONSE_SIZE: usize = 1 + 4 + 2;
pub const NET_JOIN_SIZE: usize = 1 + 4 + 2 + 1 + 4 + 2;
pub const NET_JOIN_RESPONSE_SIZE: usize = 1 + 4 + 2 + 1 + 1;
pub const NET_CLOSE_CONNECTION_SIZE: usize = 1;
pub const NET_NEW_RANGE_SIZE: usize = 1 + 1 + 1;
pub const NET_NEW_RANGE_RESPONSE_SIZE: usize = 1;
pub const NET_LEAVING_SIZE: usize = 1 + 4 + 2;
pub const VAL_REMOVE_SIZE: usize = 1 + 12;
pub const VAL_LOOKUP_SIZE: usize = 1 + 12 + 4 + 2;
pub const STUN_LOOKUP_SIZE: usize = 1;
pub const STUN_RESPONSE_SIZE: usize = 1 + 4;

// ---------------------------------------------------------------------------
// Byte-level building blocks
// ---------------------------------------------------------------------------

/// The two big-endian bytes of a 16-bit integer.
pub open spec fn be16(x: u16) -> Seq<u8> {
    seq![(x / 0x100) as u8, (x % 0x100) as u8]
}

/// The four big-endian bytes of a 32-bit integer.
pub open spec fn be32(x: u32) -> Seq<u8> {
    seq![
        (x / 0x1000000) as u8,
        ((x / 0x10000) % 0x100) as u8,
        ((x / 0x100) % 0x100) as u8,
        (x % 0x100) as u8,
    ]
}

/// The 16-bit integer read from two big-endian bytes.
pub open spec fn be16_val(hi: u8, lo: u8) -> u16 {
    (hi * 0x100 + lo) as u16
}

/// The 32-bit integer read from four big-endian bytes.
pub open spec fn be32_val(b0: u8, b1: u8, b2: u8, b3: u8) -> u32 {
    (b0 * 0x1000000 + b1 * 0x10000 + b2 * 0x100 + b3) as u32
}

/// The single wire byte of a character: the low eight bits of its code
/// point.
pub open spec fn char_byte(c: char) -> u8 {
    ((c as u32) % 0x100) as u8
}

/// The character a wire byte decodes to.
pub open spec fn byte_char(b: u8) -> char {
    b as char
}

/// A string as it goes on the wire, one byte per character.
pub open spec fn chars_bytes(s: Seq<char>) -> Seq<u8> {
    s.map_values(|c: char| char_byte(c))
}

/// The characters read back from wire bytes.
pub open spec fn bytes_chars(b: Seq<u8>) -> Seq<char> {
    b.map_values(|x: u8| byte_char(x))
}

/// True when every character of `s` fits in one wire byte, so that
/// encoding loses nothing.
pub open spec fn single_byte_chars(s: Seq<char>) -> bool {
    forall|i: int| 0 <= i < s.len() ==> (#[trigger] s[i] as u32) < 0x100
}

/// The key field as encoded: the first `SSN_LENGTH` characters, or the
/// whole string if it is shorter.
pub open spec fn ssn_wire_chars(s: Seq<char>) -> Seq<char> {
    if s.len() <= SSN_LENGTH { s } else { s.take(SSN_LENGTH as int) }
}

proof fn lemma_be16_val_roundtrip(x: u16)
    ensures
        be16_val((x / 0x100) as u8, (x % 0x100) as u8) == x,
{
}

proof fn lemma_be32_val_roundtrip(x: u32)
    ensures
        be32_val(
            (x / 0x1000000) as u8,
            ((x / 0x10000) % 0x100) as u8,
            ((x / 0x100) % 0x100) as u8,
            (x % 0x100) as u8,
        ) == x,
{
    assert(x / 0x1000000 * 0x1000000 + (x / 0x10000) % 0x100 * 0x10000 + (x / 0x100) % 0x100
        * 0x100 + x % 0x100 == x) by (nonlinear_arith);
}

/// A single-byte character survives the encode/decode round trip.
pub proof fn lemma_char_byte_roundtrip(c: char)
    requires
        (c as u32) < 0x100,
    ensures
        byte_char(char_byte(c)) == c,
{
}

// Executable helpers, each proved against the spec above.

fn push_byte(v: &mut Vec<u8>, b: u8)
    ensures
        final(v)@ == old(v)@ + seq![b],
{
    v.push(b);
}

fn push_be16(v: &mut Vec<u8>, x: u16)
    ensures
        final(v)@ == old(v)@ + be16(x),
{
    v.push((x / 0x100) as u8);
    v.push((x % 0x100) as u8);
    assert(v@ =~= old(v)@ + be16(x));
}

fn push_be32(v: &mut Vec<u8>, x: u32)
    ensures
        final(v)@ == old(v)@ + be32(x),
{
    v.push((x / 0x1000000) as u8);
    v.push(((x / 0x10000) % 0x100) as u8);
    v.push(((x / 0x100) % 0x100) as u8);
    v.push((x % 0x100) as u8);
    assert(v@ =~= old(v)@ + be32(x));
}

/// Relies on `String::push`: appends one character to the string.
#[verifier::external_body]
fn push_char(s: &mut String, c: char)
    ensures
        final(s)@ == old(s)@.push(c),
{
    s.push(c);
}

/// Appends the wire bytes of every character of `s`.
fn push_chars_bytes(v: &mut Vec<u8>, s: &str)
    ensures
        final(v)@ == old(v)@ + chars_bytes(s@),
{
    let n = s.unicode_len();
    let mut i: usize = 0;
    while i < n
        invariant
            i <= n,
            n == s@.len(),
            v@ == old(v)@ + chars_bytes(s@.take(i as int)),
        decreases n - i,
    {
        let c = s.get_char(i);
        v.push(((c as u32) % 0x100) as u8);
        assert(v@ =~= old(v)@ + chars_bytes(s@.take(i + 1 as int)));
        i = i + 1;
    }
    assert(s@.take(n as int) =~= s@);
}

/// Appends the wire bytes of the key field: the first `SSN_LENGTH`
/// characters of `s`, or all of them if there are fewer.
fn push_ssn_bytes(v: &mut Vec<u8>, s: &str)
    ensures
        final(v)@ == old(v)@ + chars_bytes(ssn_wire_chars(s@)),
{
    let n = s.unicode_len();
    let limit = if n < SSN_LENGTH { n } else { SSN_LENGTH };
    let mut i: usize = 0;
    while i < limit
        invariant
            i <= limit,
            limit == if n < SSN_LENGTH { n as int } else { SSN_LENGTH as int },
            n == s@.len(),
            v@ == old(v)@ + chars_bytes(s@.take(i as int)),
        decreases limit - i,
    {
        let c = s.get_char(i);
        v.push(((c as u32) % 0x100) as u8);
        assert(v@ =~= old(v)@ + chars_bytes(s@.take(i + 1 as int)));
        i = i + 1;
    }
    assert(s@.take(limit as int) =~= ssn_wire_chars(s@));
}

/// Reads the characters of a length-`count` wire string starting at
/// `off`.
fn read_chars(buffer: &[u8], off: usize, count: usize) -> (r: String)
    requires
        off + count <= buffer@.len(),
    ensures
        r@ == bytes_chars(buffer@.subrange(off as int, off + count)),
{
    let blen = buffer.len();
    let mut s = String::new();
    let mut i: usize = 0;
    while i < count
        invariant
            i <= count,
            off + count <= blen,
            blen == buffer@.len(),
            s@ == bytes_chars(buffer@.subrange(off as int, off + i)),
        decreases count - i,
    {
        let c: char = buffer[off + i] as char;
        push_char(&mut s, c);
        assert(s@ =~= bytes_chars(buffer@.subrange(off as int, off + i + 1)));
        i = i + 1;
    }
    s
}

/// Reads a big-endian 16-bit integer at `off`.
fn read_be16(buffer: &[u8], off: usize) -> (r: u16)
    requires
        off + 2 <= buffer@.len(),
    ensures
        r == be16_val(buffer@[off as int], buffer@[off + 1]),
{
    (buffer[off] as u16) * 0x100 + (buffer[off + 1] as u16)
}

/// Reads a big-endian 32-bit integer at `off`.
fn read_be32(buffer: &[u8], off: usize) -> (r: u32)
    requires
        off + 4 <= buffer@.len(),
    ensures
        r == be32_val(buffer@[off as int], buffer@[off + 1], buffer@[off + 2], buffer@[off + 3]),
{
    (buffer[off] as u32) * 0x1000000 + (buffer[off + 1] as u32) * 0x10000 + (buffer[off
        + 2] as u32) * 0x100 + (buffer[off + 3] as u32)
}

// ---------------------------------------------------------------------------
// The PDU catalog
// ---------------------------------------------------------------------------

/// Decoding a PDU type from a byte buffer: the decoded value is
/// `Self::spec_parse`'s, and the reported size is the exact number of
/// bytes its encoding occupies at the front of the buffer.
pub trait ParsePdu: View + Sized {
    /// What a prefix of `b` decodes to, and how many bytes it takes,
    /// or `None` when `b` is too short.
    spec fn spec_parse(b: Seq<u8>) -> Option<(Self::V, int)>;

    fn try_parse(buffer: &[u8]) -> (r: Option<(Self, usize)>)
        ensures
            match r {
                Some((p, n)) => Self::spec_parse(buffer@) == Some((p@, n as int)) && 1 <= n
                    <= buffer@.len(),
                None => Self::spec_parse(buffer@) is None,
            },
    ;
}

/// A liveness heartbeat to the tracker.  Payload-free.
#[derive(Clone, Copy, Debug, PartialEq, Eq, Structural)]
pub struct NetAlivePdu {
    pub pdu_type: u8,
}

impl View for NetAlivePdu {
    type V = NetAlivePdu;

    open spec fn view(&self) -> NetAlivePdu {
        *self
    }
}

pub open spec fn spec_net_alive_bytes(p: NetAlivePdu) -> Seq<u8> {
    seq![p.pdu_type]
}

pub open spec fn spec_parse_net_alive(b: Seq<u8>) -> Option<(NetAlivePdu, int)> {
    if b.len() < NET_ALIVE_SIZE {
        None
    } else {
        Some((NetAlivePdu { pdu_type: b[0] }, NET_ALIVE_SIZE as int))
    }
}

impl NetAlivePdu {
    pub fn new() -> (r: NetAlivePdu)
        ensures
            r.pdu_type == NET_ALIVE_ID,
    {
        NetAlivePdu { pdu_type: NET_ALIVE_ID }
    }

    pub fn to_bytes(&self) -> (r: Vec<u8>)
        ensures
            r@ == spec_net_alive_bytes(*self),
    {
        let mut v: Vec<u8> = Vec::new();
        push_byte(&mut v, self.pdu_type);
        assert(v@ =~= spec_net_alive_bytes(*self));
        v
    }
}

impl ParsePdu for NetAlivePdu {
    open spec fn spec_parse(b: Seq<u8>) -> Option<(NetAlivePdu, int)> {
        spec_parse_net_alive(b)
    }

    fn try_parse(buffer: &[u8]) -> (r: Option<(Self, usize)>) {
        if buffer.len() < NET_ALIVE_SIZE {
            return None;
        }
        Some((NetAlivePdu { pdu_type: buffer[0] }, NET_ALIVE_SIZE))
    }
}

/// A request to the tracker for one currently-alive peer.  Payload-free.
#[derive(Clone, Copy, Debug, PartialEq, Eq, Structural)]
pub struct NetGetNodePdu {
    pub pdu_type: u8,
}

impl View for NetGetNodePdu {
    type V = NetGetNodePdu;

    open spec fn view(&self) -> NetGetNodePdu {
        *self
    }
}

pub open spec fn spec_net_get_node_bytes(p: NetGetNodePdu) -> Seq<u8> {
    seq![p.pdu_type]
}

pub open spec fn spec_parse_net_get_node(b: Seq<u8>) -> Option<(NetGetNodePdu, int)> {
    if b.len() < NET_GET_NODE_SIZE {
        None
    } else {
        Some((NetGetNodePdu { pdu_type: b[0] }, NET_GET_NODE_SIZE as int))
    }
}

impl NetGetNodePdu {
    pub fn new() -> (r: NetGetNodePdu)
        ensures
            r.pdu_type == NET_GET_NODE_ID,
    {
        NetGetNodePdu { pdu_type: NET_GET_NODE_ID }
    }

    pub fn to_bytes(&self) -> (r: Vec<u8>)
        ensures
            r@ == spec_net_get_node_bytes(*self),
    {
        let mut v: Vec<u8> = Vec::new();
        push_byte(&mut v, self.pdu_type);
        assert(v@ =~= spec_net_get_node_bytes(*self));
        v
    }
}

impl ParsePdu for NetGetNodePdu {
    open spec fn spec_parse(b: Seq<u8>) -> Option<(NetGetNodePdu, int)> {
        spec_parse_net_get_node(b)
    }

    fn try_parse(buffer: &[u8]) -> (r: Option<(Self, usize)>) {
        if buffer.len() < NET_GET_NODE_SIZE {
            return None;
        }
        Some((NetGetNodePdu { pdu_type: buffer[0] }, NET_GET_NODE_SIZE))
    }
}

/// The tracker's answer to a peer request: one peer's address, or the
/// all-zero sentinel when no peer is alive.
#[derive(Clone, Copy, Debug, PartialEq, Eq, Structural)]
pub struct NetGetNodeResponsePdu {
    pub pdu_type: u8,
    pub address: u32,
    pub port: u16,
}

impl View for NetGetNodeResponsePdu {
    type V = NetGetNodeResponsePdu;

    open spec fn view(&self) -> NetGetNodeResponsePdu {
        *self
    }
}

pub open spec fn spec_net_get_node_response_bytes(p: NetGetNodeResponsePdu) -> Seq<u8> {
    seq![p.pdu_type] + be32(p.address) + be16(p.port)
}

pub open spec fn spec_parse_net_get_node_response(b: Seq<u8>) -> Option<
    (NetGetNodeResponsePdu, int),
> {
    if b.len() < NET_GET_NODE_RESPONSE_SIZE {
        None
    } else {
        Some(
            (
                NetGetNodeResponsePdu {
                    pdu_type: b[0],
                    address: be32_val(b[1], b[2], b[3], b[4]),
                    port: be16_val(b[5], b[6]),
                },
                NET_GET_NODE_RESPONSE_SIZE as int,
            ),
        )
    }
}

impl NetGetNodeResponsePdu {
    pub fn new(address: u32, port: u16) -> (r: NetGetNodeResponsePdu)
        ensures
            r.pdu_type == NET_GET_NODE_RESPONSE_ID,
            r.address == address,
            r.port == port,
    {
        NetGetNodeResponsePdu { pdu_type: NET_GET_NODE_RESPONSE_ID, address, port }
    }

    /// The peer endpoint this response names.
    pub fn get_addr(&self) -> (r: PeerAddr)
        ensures
            r.ip == self.address,
            r.port == self.port,
    {
        PeerAddr { ip: self.address, port: self.port }
    }

    pub fn to_bytes(&self) -> (r: Vec<u8>)
        ensures
            r@ == spec_net_get_node_response_bytes(*self),
    {
        let mut v: Vec<u8> = Vec::new();
        push_byte(&mut v, self.pdu_type);
        push_be32(&mut v, self.address);
        push_be16(&mut v, self.port);
        v
    }
}

impl ParsePdu for NetGetNodeResponsePdu {
    open spec fn spec_parse(b: Seq<u8>) -> Option<(NetGetNodeResponsePdu, int)> {
        spec_parse_net_get_node_response(b)
    }

    fn try_parse(buffer: &[u8]) -> (r: Option<(Self, usize)>) {
        if buffer.len() < NET_GET_NODE_RESPONSE_SIZE {
            return None;
        }
        let pdu = NetGetNodeResponsePdu {
            pdu_type: buffer[0],
            address: read_be32(buffer, 1),
            port: read_be16(buffer, 5),
        };
        Some((pdu, NET_GET_NODE_RESPONSE_SIZE))
    }
}

/// A joining node's request, forwarded around the ring while it tracks
/// the widest range seen so far.
#[derive(Clone, Copy, Debug, PartialEq, Eq, Structural)]
pub struct NetJoinPdu {
    pub pdu_type: u8,
    pub src_address: u32,
    pub src_port: u16,
    pub max_span: u8,
    pub max_address: u32,
    pub max_port: u16,
}

impl View for NetJoinPdu {
    type V = NetJoinPdu;

    open spec fn view(&self) -> NetJoinPdu {
        *self
    }
}

pub open spec fn spec_net_join_bytes(p: NetJoinPdu) -> Seq<u8> {
    seq![p.pdu_type] + be32(p.src_address) + be16(p.src_port) + seq![p.max_span] + be32(
        p.max_address,
    ) + be16(p.max_port)
}

pub open spec fn spec_parse_net_join(b: Seq<u8>) -> Option<(NetJoinPdu, int)> {
    if b.len() < NET_JOIN_SIZE {
        None
    } else {
        Some(
            (
                NetJoinPdu {
                    pdu_type: b[0],
                    src_address: be32_val(b[1], b[2], b[3], b[4]),
                    src_port: be16_val(b[5], b[6]),
                    max_span: b[7],
                    max_address: be32_val(b[8], b[9], b[10], b[11]),
                    max_port: be16_val(b[12], b[13]),
                },
                NET_JOIN_SIZE as int,
            ),
        )
    }
}

impl NetJoinPdu {
    pub fn new(src_address: u32, src_port: u16, max_span: u8, max_address: u32, max_port: u16) -> (r:
        NetJoinPdu)
        ensures
            r.pdu_type == NET_JOIN_ID,
            r.src_address == src_address,
            r.src_port == src_port,
            r.max_span == max_span,
            r.max_address == max_address,
            r.max_port == max_port,
    {
        NetJoinPdu { pdu_type: NET_JOIN_ID, src_address, src_port, max_span, max_address, max_port }
    }

    /// The endpoint of the widest-range node recorded so far.
    pub fn get_max_socket_addr(&self) -> (r: PeerAddr)
        ensures
            r.ip == self.max_address,
            r.port == self.max_port,
    {
        PeerAddr { ip: self.max_address, port: self.max_port }
    }

    /// The joining node's own endpoint.
    pub fn get_src_socket_addr(&self) -> (r: PeerAddr)
        ensures
            r.ip == self.src_address,
            r.port == self.src_port,
    {
        PeerAddr { ip: self.src_address, port: self.src_port }
    }

    pub fn to_bytes(&self) -> (r: Vec<u8>)
        ensures
            r@ == spec_net_join_bytes(*self),
    {
        let mut v: Vec<u8> = Vec::new();
        push_byte(&mut v, self.pdu_type);
        push_be32(&mut v, self.src_address);
        push_be16(&mut v, self.src_port);
        push_byte(&mut v, self.max_span);
        push_be32(&mut v, self.max_address);
        push_be16(&mut v, self.max_port);
        v
    }
}

impl ParsePdu for NetJoinPdu {
    open spec fn spec_parse(b: Seq<u8>) -> Option<(NetJoinPdu, int)> {
        spec_parse_net_join(b)
    }

    fn try_parse(buffer: &[u8]) -> (r: Option<(Self, usize)>) {
        if buffer.len() < NET_JOIN_SIZE {
            return None;
        }
        let pdu = NetJoinPdu {
            pdu_type: buffer[0],
            src_address: read_be32(buffer, 1),
            src_port: read_be16(buffer, 5),
            max_span: buffer[7],
            max_address: read_be32(buffer, 8),
            max_port: read_be16(buffer, 12),
        };
        Some((pdu, NET_JOIN_SIZE))
    }
}

/// The insertion point's answer to a join: the joiner's new range and
/// the successor it must connect to.
#[derive(Clone, Copy, Debug, PartialEq, Eq, Structural)]
pub struct NetJoinResponsePdu {
    pub pdu_type: u8,
    pub next_address: u32,
    pub next_port: u16,
    pub range_start: u8,
    pub range_end: u8,
}

impl View for NetJoinResponsePdu {
    type V = NetJoinResponsePdu;

    open spec fn view(&self) -> NetJoinResponsePdu {
        *self
    }
}

pub open spec fn spec_net_join_response_bytes(p: NetJoinResponsePdu) -> Seq<u8> {
    seq![p.pdu_type] + be32(p.next_address) + be16(p.next_port) + seq![p.range_start, p.range_end]
}

pub open spec fn spec_parse_net_join_response(b: Seq<u8>) -> Option<(NetJoinResponsePdu, int)> {
    if b.len() < NET_JOIN_RESPONSE_SIZE {
        None
    } else {
        Some(
            (
                NetJoinResponsePdu {
                    pdu_type: b[0],
                    next_address: be32_val(b[1], b[2], b[3], b[4]),
                    next_port: be16_val(b[5], b[6]),
                    range_start: b[7],
                    range_end: b[8],
                },
                NET_JOIN_RESPONSE_SIZE as int,
            ),
        )
    }
}

impl NetJoinResponsePdu {
    pub fn new(next_address: u32, next_port: u16, range_start: u8, range_end: u8) -> (r:
        NetJoinResponsePdu)
        ensures
            r.pdu_type == NET_JOIN_RESPONSE_ID,
            r.next_address == next_address,
            r.next_port == next_port,
            r.range_start == range_start,
            r.range_end == range_end,
    {
        NetJoinResponsePdu {
            pdu_type: NET_JOIN_RESPONSE_ID,
            next_address,
            next_port,
            range_start,
            range_end,
        }
    }

    /// The successor endpoint the joiner must connect to.
    pub fn get_next_addr(&self) -> (r: PeerAddr)
        ensures
            r.ip == self.next_address,
            r.port == self.next_port,
    {
        PeerAddr { ip: self.next_address, port: self.next_port }
    }

    pub fn to_bytes(&self) -> (r: Vec<u8>)
        ensures
            r@ == spec_net_join_response_bytes(*self),
    {
        let mut v: Vec<u8> = Vec::new();
        push_byte(&mut v, self.pdu_type);
        push_be32(&mut v, self.next_address);
        push_be16(&mut v, self.next_port);
        push_byte(&mut v, self.range_start);
        push_byte(&mut v, self.range_end);
        assert(v@ =~= spec_net_join_response_bytes(*self));
        v
    }
}

impl ParsePdu for NetJoinResponsePdu {
    open spec fn spec_parse(b: Seq<u8>) -> Option<(NetJoinResponsePdu, int)> {
        spec_parse_net_join_response(b)
    }

    fn try_parse(buffer: &[u8]) -> (r: Option<(Self, usize)>) {
        if buffer.len() < NET_JOIN_RESPONSE_SIZE {
            return None;
        }
        let pdu = NetJoinResponsePdu {
            pdu_type: buffer[0],
            next_address: read_be32(buffer, 1),
            next_port: read_be16(buffer, 5),
            range_start: buffer[7],
            range_end: buffer[8],
        };
        Some((pdu, NET_JOIN_RESPONSE_SIZE))
    }
}

/// A notice that the sender is closing this ring link.  Payload-free.
#[derive(Clone, Copy, Debug, PartialEq, Eq, Structural)]
pub struct NetCloseConnectionPdu {
    pub pdu_type: u8,
}

impl View for NetCloseConnectionPdu {
    type V = NetCloseConnectionPdu;

    open spec fn view(&self) -> NetCloseConnectionPdu {
        *self
    }
}

pub open spec fn spec_net_close_connection_bytes(p: NetCloseConnectionPdu) -> Seq<u8> {
    seq![p.pdu_type]
}

pub open spec fn spec_parse_net_close_connection(b: Seq<u8>) -> Option<
    (NetCloseConnectionPdu, int),
> {
    if b.len() < NET_CLOSE_CONNECTION_SIZE {
        None
    } else {
        Some((NetCloseConnectionPdu { pdu_type: b[0] }, NET_CLOSE_CONNECTION_SIZE as int))
    }
}

impl NetCloseConnectionPdu {
    pub fn new() -> (r: NetCloseConnectionPdu)
        ensures
            r.pdu_type == NET_CLOSE_CONNECTION_ID,
    {
        NetCloseConnectionPdu { pdu_type: NET_CLOSE_CONNECTION_ID }
    }

    pub fn to_bytes(&self) -> (r: Vec<u8>)
        ensures
            r@ == spec_net_close_connection_bytes(*self),
    {
        let mut v: Vec<u8> = Vec::new();
        push_byte(&mut v, self.pdu_type);
        assert(v@ =~= spec_net_close_connection_bytes(*self));
        v
    }
}

impl ParsePdu for NetCloseConnectionPdu {
    open spec fn spec_parse(b: Seq<u8>) -> Option<(NetCloseConnectionPdu, int)> {
        spec_parse_net_close_connection(b)
    }

    fn try_parse(buffer: &[u8]) -> (r: Option<(Self, usize)>) {
        if buffer.len() < NET_CLOSE_CONNECTION_SIZE {
            return None;
        }
        Some((NetCloseConnectionPdu { pdu_type: buffer[0] }, NET_CLOSE_CONNECTION_SIZE))
    }
}

/// A departing node's range, offered to the neighbor that should
/// absorb it.
#[derive(Clone, Copy, Debug, PartialEq, Eq, Structural)]
pub struct NetNewRangePdu {
    pub pdu_type: u8,
    pub range_start: u8,
    pub range_end: u8,
}

impl View for NetNewRangePdu {
    type V = NetNewRangePdu;

    open spec fn view(&self) -> NetNewRangePdu {
        *self
    }
}

pub open spec fn spec_net_new_range_bytes(p: NetNewRangePdu) -> Seq<u8> {
    seq![p.pdu_type, p.range_start, p.range_end]
}

pub open spec fn spec_parse_net_new_range(b: Seq<u8>) -> Option<(NetNewRangePdu, int)> {
    if b.len() < NET_NEW_RANGE_SIZE {
        None
    } else {
        Some(
            (
                NetNewRangePdu { pdu_type: b[0], range_start: b[1], range_end: b[2] },
                NET_NEW_RANGE_SIZE as int,
            ),
        )
    }
}

impl NetNewRangePdu {
    pub fn new(range_start: u8, range_end: u8) -> (r: NetNewRangePdu)
        ensures
            r.pdu_type == NET_NEW_RANGE_ID,
            r.range_start == range_start,
            r.range_end == range_end,
    {
        NetNewRangePdu { pdu_type: NET_NEW_RANGE_ID, range_start, range_end }
    }

    pub fn to_bytes(&self) -> (r: Vec<u8>)
        ensures
            r@ == spec_net_new_range_bytes(*self),
    {
        let mut v: Vec<u8> = Vec::new();
        push_byte(&mut v, self.pdu_type);
        push_byte(&mut v, self.range_start);
        push_byte(&mut v, self.range_end);
        assert(v@ =~= spec_net_new_range_bytes(*self));
        v
    }
}

impl ParsePdu for NetNewRangePdu {
    open spec fn spec_parse(b: Seq<u8>) -> Option<(NetNewRangePdu, int)> {
        spec_parse_net_new_range(b)
    }

    fn try_parse(buffer: &[u8]) -> (r: Option<(Self, usize)>) {
        if buffer.len() < NET_NEW_RANGE_SIZE {
            return None;
        }
        let pdu = NetNewRangePdu { pdu_type: buffer[0], range_start: buffer[1], range_end: buffer[2] };
        Some((pdu, NET_NEW_RANGE_SIZE))
    }
}

/// The acknowledgement that an offered range was absorbed.  Payload-free.
#[derive(Clone, Copy, Debug, PartialEq, Eq, Structural)]
pub struct NetNewRangeResponsePdu {
    pub pdu_type: u8,
}

impl View for NetNewRangeResponsePdu {
    type V = NetNewRangeResponsePdu;

    open spec fn view(&self) -> NetNewRangeResponsePdu {
        *self
    }
}

pub open spec fn spec_net_new_range_response_bytes(p: NetNewRangeResponsePdu) -> Seq<u8> {
    seq![p.pdu_type]
}

pub open spec fn spec_parse_net_new_range_response(b: Seq<u8>) -> Option<
    (NetNewRangeResponsePdu, int),
> {
    if b.len() < NET_NEW_RANGE_RESPONSE_SIZE {
        None
    } else {
        Some((NetNewRangeResponsePdu { pdu_type: b[0] }, NET_NEW_RANGE_RESPONSE_SIZE as int))
    }
}

impl NetNewRangeResponsePdu {
    pub fn new() -> (r: NetNewRangeResponsePdu)
        ensures
            r.pdu_type == NET_NEW_RANGE_RESPONSE_ID,
    {
        NetNewRangeResponsePdu { pdu_type: NET_NEW_RANGE_RESPONSE_ID }
    }

    pub fn to_bytes(&self) -> (r: Vec<u8>)
        ensures
            r@ == spec_net_new_range_response_bytes(*self),
    {
        let mut v: Vec<u8> = Vec::new();
        push_byte(&mut v, self.pdu_type);
        assert(v@ =~= spec_net_new_range_response_bytes(*self));
        v
    }
}

impl ParsePdu for NetNewRangeResponsePdu {
    open spec fn spec_parse(b: Seq<u8>) -> Option<(NetNewRangeResponsePdu, int)> {
        spec_parse_net_new_range_response(b)
    }

    fn try_parse(buffer: &[u8]) -> (r: Option<(Self, usize)>) {
        if buffer.len() < NET_NEW_RANGE_RESPONSE_SIZE {
            return None;
        }
        Some((NetNewRangeResponsePdu { pdu_type: buffer[0] }, NET_NEW_RANGE_RESPONSE_SIZE))
    }
}

/// A departing node's goodbye to its predecessor, naming the successor
/// that replaces it.
#[derive(Clone, Copy, Debug, PartialEq, Eq, Structural)]
pub struct NetLeavingPdu {
    pub pdu_type: u8,
    pub new_address: u32,
    pub new_port: u16,
}

impl View for NetLeavingPdu {
    type V = NetLeavingPdu;

    open spec fn view(&self) -> NetLeavingPdu {
        *self
    }
}

pub open spec fn spec_net_leaving_bytes(p: NetLeavingPdu) -> Seq<u8> {
    seq![p.pdu_type] + be32(p.new_address) + be16(p.new_port)
}

pub open spec fn spec_parse_net_leaving(b: Seq<u8>) -> Option<(NetLeavingPdu, int)> {
    if b.len() < NET_LEAVING_SIZE {
        None
    } else {
        Some(
            (
                NetLeavingPdu {
                    pdu_type: b[0],
                    new_address: be32_val(b[1], b[2], b[3], b[4]),
                    new_port: be16_val(b[5], b[6]),
                },
                NET_LEAVING_SIZE as int,
            ),
        )
    }
}

impl NetLeavingPdu {
    pub fn new(new_address: u32, new_port: u16) -> (r: NetLeavingPdu)
        ensures
            r.pdu_type == NET_LEAVING_ID,
            r.new_address == new_address,
            r.new_port == new_port,
    {
        NetLeavingPdu { pdu_type: NET_LEAVING_ID, new_address, new_port }
    }

    /// The replacement successor's endpoint.
    pub fn get_new_addr(&self) -> (r: PeerAddr)
        ensures
            r.ip == self.new_address,
            r.port == self.new_port,
    {
        PeerAddr { ip: self.new_address, port: self.new_port }
    }

    pub fn to_bytes(&self) -> (r: Vec<u8>)
        ensures
            r@ == spec_net_leaving_bytes(*self),
    {
        let mut v: Vec<u8> = Vec::new();
        push_byte(&mut v, self.pdu_type);
        push_be32(&mut v, self.new_address);
        push_be16(&mut v, self.new_port);
        v
    }
}

impl ParsePdu for NetLeavingPdu {
    open spec fn spec_parse(b: Seq<u8>) -> Option<(NetLeavingPdu, int)> {
        spec_parse_net_leaving(b)
    }

    fn try_parse(buffer: &[u8]) -> (r: Option<(Self, usize)>) {
        if buffer.len() < NET_LEAVING_SIZE {
            return None;
        }
        let pdu = NetLeavingPdu {
            pdu_type: buffer[0],
            new_address: read_be32(buffer, 1),
            new_port: read_be16(buffer, 5),
        };
        Some((pdu, NET_LEAVING_SIZE))
    }
}

/// A request for the sender's public address as the tracker sees it.
/// Payload-free.
#[derive(Clone, Copy, Debug, PartialEq, Eq, Structural)]
pub struct StunLookupPdu {
    pub pdu_type: u8,
}

impl View for StunLookupPdu {
    type V = StunLookupPdu;

    open spec fn view(&self) -> StunLookupPdu {
        *self
    }
}

pub open spec fn spec_stun_lookup_bytes(p: StunLookupPdu) -> Seq<u8> {
    seq![p.pdu_type]
}

pub open spec fn spec_parse_stun_lookup(b: Seq<u8>) -> Option<(StunLookupPdu, int)> {
    if b.len() < STUN_LOOKUP_SIZE {
        None
    } else {
        Some((StunLookupPdu { pdu_type: b[0] }, STUN_LOOKUP_SIZE as int))
    }
}

impl StunLookupPdu {
    pub fn new() -> (r: StunLookupPdu)
        ensures
            r.pdu_type == STUN_LOOKUP_ID,
    {
        StunLookupPdu { pdu_type: STUN_LOOKUP_ID }
    }

    pub fn to_bytes(&self) -> (r: Vec<u8>)
        ensures
            r@ == spec_stun_lookup_bytes(*self),
    {
        let mut v: Vec<u8> = Vec::new();
        push_byte(&mut v, self.pdu_type);
        assert(v@ =~= spec_stun_lookup_bytes(*self));
        v
    }
}

impl ParsePdu for StunLookupPdu {
    open spec fn spec_parse(b: Seq<u8>) -> Option<(StunLookupPdu, int)> {
        spec_parse_stun_lookup(b)
    }

    fn try_parse(buffer: &[u8]) -> (r: Option<(Self, usize)>) {
        if buffer.len() < STUN_LOOKUP_SIZE {
            return None;
        }
        Some((StunLookupPdu { pdu_type: buffer[0] }, STUN_LOOKUP_SIZE))
    }
}

/// The tracker's address-discovery answer: the requester's public
/// IPv4 address.
#[derive(Clone, Copy, Debug, PartialEq, Eq, Structural)]
pub struct StunResponsePdu {
    pub pdu_type: u8,
    pub address: u32,
}

impl View for StunResponsePdu {
    type V = StunResponsePdu;

    open spec fn view(&self) -> StunResponsePdu {
        *self
    }
}

pub open spec fn spec_stun_response_bytes(p: StunResponsePdu) -> Seq<u8> {
    seq![p.pdu_type] + be32(p.address)
}

pub open spec fn spec_parse_stun_response(b: Seq<u8>) -> Option<(StunResponsePdu, int)> {
    if b.len() < STUN_RESPONSE_SIZE {
        None
    } else {
        Some(
            (
                StunResponsePdu { pdu_type: b[0], address: be32_val(b[1], b[2], b[3], b[4]) },
                STUN_RESPONSE_SIZE as int,
            ),
        )
    }
}

impl StunResponsePdu {
    pub fn new(address: u32) -> (r: StunResponsePdu)
        ensures
            r.pdu_type == STUN_RESPONSE_ID,
            r.address == address,
    {
        StunResponsePdu { pdu_type: STUN_RESPONSE_ID, address }
    }

    pub fn to_bytes(&self) -> (r: Vec<u8>)
        ensures
            r@ == spec_stun_response_bytes(*self),
    {
        let mut v: Vec<u8> = Vec::new();
        push_byte(&mut v, self.pdu_type);
        push_be32(&mut v, self.address);
        v
    }
}

impl ParsePdu for StunResponsePdu {
    open spec fn spec_parse(b: Seq<u8>) -> Option<(StunResponsePdu, int)> {
        spec_parse_stun_response(b)
    }

    fn try_parse(buffer: &[u8]) -> (r: Option<(Self, usize)>) {
        if buffer.len() < STUN_RESPONSE_SIZE {
            return None;
        }
        let pdu = StunResponsePdu { pdu_type: buffer[0], address: read_be32(buffer, 1) };
        Some((pdu, STUN_RESPONSE_SIZE))
    }
}

/// A record offered for storage: the 12-character key and two
/// length-prefixed string fields.
#[derive(Debug)]
pub struct ValInsertPdu {
    pub pdu_type: u8,
    pub ssn: String,
    pub name_length: u8,
    pub name: String,
    pub email_length: u8,
    pub email: String,
}

/// The mathematical value of a `ValInsertPdu`: its strings as
/// character sequences.
pub struct ValInsertModel {
    pub pdu_type: u8,
    pub ssn: Seq<char>,
    pub name_length: u8,
    pub name: Seq<char>,
    pub email_length: u8,
    pub email: Seq<char>,
}

impl View for ValInsertPdu {
    type V = ValInsertModel;

    open spec fn view(&self) -> ValInsertModel {
        ValInsertModel {
            pdu_type: self.pdu_type,
            ssn: self.ssn@,
            name_length: self.name_length,
            name: self.name@,
            email_length: self.email_length,
            email: self.email@,
        }
    }
}

pub open spec fn spec_val_insert_bytes(m: ValInsertModel) -> Seq<u8> {
    seq![m.pdu_type] + chars_bytes(ssn_wire_chars(m.ssn)) + seq![m.name_length] + chars_bytes(
        m.name,
    ) + seq![m.email_length] + chars_bytes(m.email)
}

pub open spec fn spec_parse_val_insert(b: Seq<u8>) -> Option<(ValInsertModel, int)> {
    if b.len() < 14 {
        None
    } else {
        let nl = b[13] as int;
        if b.len() < 15 + nl {
            None
        } else {
            let el = b[14 + nl] as int;
            if b.len() < 15 + nl + el {
                None
            } else {
                Some(
                    (
                        ValInsertModel {
                            pdu_type: b[0],
                            ssn: bytes_chars(b.subrange(1, 13)),
                            name_length: b[13],
                            name: bytes_chars(b.subrange(14, 14 + nl)),
                            email_length: b[14 + nl],
                            email: bytes_chars(b.subrange(15 + nl, 15 + nl + el)),
                        },
                        15 + nl + el,
                    ),
                )
            }
        }
    }
}

impl ValInsertPdu {
    pub fn new(ssn: String, name: String, email: String) -> (r: ValInsertPdu)
        requires
            name@.len() <= 255,
            email@.len() <= 255,
        ensures
            r.pdu_type == VAL_INSERT_ID,
            r.ssn@ == ssn@,
            r.name_length == name@.len(),
            r.name@ == name@,
            r.email_length == email@.len(),
            r.email@ == email@,
    {
        let name_length = name.as_str().unicode_len() as u8;
        let email_length = email.as_str().unicode_len() as u8;
        ValInsertPdu { pdu_type: VAL_INSERT_ID, ssn, name_length, name, email_length, email }
    }

    pub fn to_bytes(&self) -> (r: Vec<u8>)
        ensures
            r@ == spec_val_insert_bytes(self@),
    {
        let mut v: Vec<u8> = Vec::new();
        push_byte(&mut v, self.pdu_type);
        push_ssn_bytes(&mut v, self.ssn.as_str());
        push_byte(&mut v, self.name_length);
        push_chars_bytes(&mut v, self.name.as_str());
        push_byte(&mut v, self.email_length);
        push_chars_bytes(&mut v, self.email.as_str());
        assert(v@ =~= spec_val_insert_bytes(self@));
        v
    }
}

impl ParsePdu for ValInsertPdu {
    open spec fn spec_parse(b: Seq<u8>) -> Option<(ValInsertModel, int)> {
        spec_parse_val_insert(b)
    }

    fn try_parse(buffer: &[u8]) -> (r: Option<(Self, usize)>) {
        if buffer.len() < 14 {
            return None;
        }
        let nl = buffer[13] as usize;
        if buffer.len() < 15 + nl {
            return None;
        }
        let el = buffer[14 + nl] as usize;
        if buffer.len() < 15 + nl + el {
            return None;
        }
        let pdu = ValInsertPdu {
            pdu_type: buffer[0],
            ssn: read_chars(buffer, 1, SSN_LENGTH),
            name_length: buffer[13],
            name: read_chars(buffer, 14, nl),
            email_length: buffer[14 + nl],
            email: read_chars(buffer, 15 + nl, el),
        };
        Some((pdu, 15 + nl + el))
    }
}

/// A request to delete the record stored under a key.
#[derive(Debug)]
pub struct ValRemovePdu {
    pub pdu_type: u8,
    pub ssn: String,
}

/// The mathematical value of a `ValRemovePdu`.
pub struct ValRemoveModel {
    pub pdu_type: u8,
    pub ssn: Seq<char>,
}

impl View for ValRemovePdu {
    type V = ValRemoveModel;

    open spec fn view(&self) -> ValRemoveModel {
        ValRemoveModel { pdu_type: self.pdu_type, ssn: self.ssn@ }
    }
}

pub open spec fn spec_val_remove_bytes(m: ValRemoveModel) -> Seq<u8> {
    seq![m.pdu_type] + chars_bytes(ssn_wire_chars(m.ssn))
}

pub open spec fn spec_parse_val_remove(b: Seq<u8>) -> Option<(ValRemoveModel, int)> {
    if b.len() < VAL_REMOVE_SIZE {
        None
    } else {
        Some(
            (
                ValRemoveModel { pdu_type: b[0], ssn: bytes_chars(b.subrange(1, 13)) },
                VAL_REMOVE_SIZE as int,
            ),
        )
    }
}

impl ValRemovePdu {
    pub fn new(ssn: String) -> (r: ValRemovePdu)
        ensures
            r.pdu_type == VAL_REMOVE_ID,
            r.ssn@ == ssn@,
    {
        ValRemovePdu { pdu_type: VAL_REMOVE_ID, ssn }
    }

    pub fn to_bytes(&self) -> (r: Vec<u8>)
        ensures
            r@ == spec_val_remove_bytes(self@),
    {
        let mut v: Vec<u8> = Vec::new();
        push_byte(&mut v, self.pdu_type);
        push_ssn_bytes(&mut v, self.ssn.as_str());
        assert(v@ =~= spec_val_remove_bytes(self@));
        v
    }
}

impl ParsePdu for ValRemovePdu {
    open spec fn spec_parse(b: Seq<u8>) -> Option<(ValRemoveModel, int)> {
        spec_parse_val_remove(b)
    }

    fn try_parse(buffer: &[u8]) -> (r: Option<(Self, usize)>) {
        if buffer.len() < VAL_REMOVE_SIZE {
            return None;
        }
        let pdu = ValRemovePdu { pdu_type: buffer[0], ssn: read_chars(buffer, 1, SSN_LENGTH) };
        Some((pdu, VAL_REMOVE_SIZE))
    }
}

/// A request for the record stored under a key, carrying the return
/// address the answer must be sent to.
#[derive(Debug)]
pub struct ValLookupPdu {
    pub pdu_type: u8,
    pub ssn: String,
    pub sender_address: u32,
    pub sender_port: u16,
}

/// The mathematical value of a `ValLookupPdu`.
pub struct ValLookupModel {
    pub pdu_type: u8,
    pub ssn: Seq<char>,
    pub sender_address: u32,
    pub sender_port: u16,
}

impl View for ValLookupPdu {
    type V = ValLookupModel;

    open spec fn view(&self) -> ValLookupModel {
        ValLookupModel {
            pdu_type: self.pdu_type,
            ssn: self.ssn@,
            sender_address: self.sender_address,
            sender_port: self.sender_port,
        }
    }
}

pub open spec fn spec_val_lookup_bytes(m: ValLookupModel) -> Seq<u8> {
    seq![m.pdu_type] + chars_bytes(ssn_wire_chars(m.ssn)) + be32(m.sender_address) + be16(
        m.sender_port,
    )
}

pub open spec fn spec_parse_val_lookup(b: Seq<u8>) -> Option<(ValLookupModel, int)> {
    if b.len() < VAL_LOOKUP_SIZE {
        None
    } else {
        Some(
            (
                ValLookupModel {
                    pdu_type: b[0],
                    ssn: bytes_chars(b.subrange(1, 13)),
                    sender_address: be32_val(b[13], b[14], b[15], b[16]),
                    sender_port: be16_val(b[17], b[18]),
                },
                VAL_LOOKUP_SIZE as int,
            ),
        )
    }
}

impl ValLookupPdu {
    pub fn new(ssn: String, sender_address: u32, sender_port: u16) -> (r: ValLookupPdu)
        ensures
            r.pdu_type == VAL_LOOKUP_ID,
            r.ssn@ == ssn@,
            r.sender_address == sender_address,
            r.sender_port == sender_port,
    {
        ValLookupPdu { pdu_type: VAL_LOOKUP_ID, ssn, sender_address, sender_port }
    }

    pub fn to_bytes(&self) -> (r: Vec<u8>)
        ensures
            r@ == spec_val_lookup_bytes(self@),
    {
        let mut v: Vec<u8> = Vec::new();
        push_byte(&mut v, self.pdu_type);
        push_ssn_bytes(&mut v, self.ssn.as_str());
        push_be32(&mut v, self.sender_address);
        push_be16(&mut v, self.sender_port);
        assert(v@ =~= spec_val_lookup_bytes(self@));
        v
    }
}

impl ParsePdu for ValLookupPdu {
    open spec fn spec_parse(b: Seq<u8>) -> Option<(ValLookupModel, int)> {
        spec_parse_val_lookup(b)
    }

    fn try_parse(buffer: &[u8]) -> (r: Option<(Self, usize)>) {
        if buffer.len() < VAL_LOOKUP_SIZE {
            return None;
        }
        let pdu = ValLookupPdu {
            pdu_type: buffer[0],
            ssn: read_chars(buffer, 1, SSN_LENGTH),
            sender_address: read_be32(buffer, 13),
            sender_port: read_be16(buffer, 17),
        };
        Some((pdu, VAL_LOOKUP_SIZE))
    }
}

/// The answer to a lookup: the stored record, or all-zero key and
/// empty fields when nothing is stored under the key.  Same wire
/// layout as `ValInsertPdu`.
#[derive(Debug)]
pub struct ValLookupResponsePdu {
    pub pdu_type: u8,
    pub ssn: String,
    pub name_length: u8,
    pub name: String,
    pub email_length: u8,
    pub email: String,
}

/// The mathematical value of a `ValLookupResponsePdu`.
pub struct ValLookupResponseModel {
    pub pdu_type: u8,
    pub ssn: Seq<char>,
    pub name_length: u8,
    pub name: Seq<char>,
    pub email_length: u8,
    pub email: Seq<char>,
}

impl View for ValLookupResponsePdu {
    type V = ValLookupResponseModel;

    open spec fn view(&self) -> ValLookupResponseModel {
        ValLookupResponseModel {
            pdu_type: self.pdu_type,
            ssn: self.ssn@,
            name_length: self.name_length,
            name: self.name@,
            email_length: self.email_length,
            email: self.email@,
        }
    }
}

pub open spec fn spec_val_lookup_response_bytes(m: ValLookupResponseModel) -> Seq<u8> {
    seq![m.pdu_type] + chars_bytes(ssn_wire_chars(m.ssn)) + seq![m.name_length] + chars_bytes(
        m.name,
    ) + seq![m.email_length] + chars_bytes(m.email)
}

pub open spec fn spec_parse_val_lookup_response(b: Seq<u8>) -> Option<
    (ValLookupResponseModel, int),
> {
    if b.len() < 14 {
        None
    } else {
        let nl = b[13] as int;
        if b.len() < 15 + nl {
            None
        } else {
            let el = b[14 + nl] as int;
            if b.len() < 15 + nl + el {
                None
            } else {
                Some(
                    (
                        ValLookupResponseModel {
                            pdu_type: b[0],
                            ssn: bytes_chars(b.subrange(1, 13)),
                            name_length: b[13],
                            name: bytes_chars(b.subrange(14, 14 + nl)),
                            email_length: b[14 + nl],
                            email: bytes_chars(b.subrange(15 + nl, 15 + nl + el)),
                        },
                        15 + nl + el,
                    ),
                )
            }
        }
    }
}

impl ValLookupResponsePdu {
    pub fn new(ssn: String, name: String, email: String) -> (r: ValLookupResponsePdu)
        requires
            name@.len() <= 255,
            email@.len() <= 255,
        ensures
            r.pdu_type == VAL_LOOKUP_RESPONSE_ID,
            r.ssn@ == ssn@,
            r.name_length == name@.len(),
            r.name@ == name@,
            r.email_length == email@.len(),
            r.email@ == email@,
    {
        let name_length = name.as_str().unicode_len() as u8;
        let email_length = email.as_str().unicode_len() as u8;
        ValLookupResponsePdu {
            pdu_type: VAL_LOOKUP_RESPONSE_ID,
            ssn,
            name_length,
            name,
            email_length,
            email,
        }
    }

    pub fn to_bytes(&self) -> (r: Vec<u8>)
        ensures
            r@ == spec_val_lookup_response_bytes(self@),
    {
        let mut v: Vec<u8> = Vec::new();
        push_byte(&mut v, self.pdu_type);
        push_ssn_bytes(&mut v, self.ssn.as_str());
        push_byte(&mut v, self.name_length);
        push_chars_bytes(&mut v, self.name.as_str());
        push_byte(&mut v, self.email_length);
        push_chars_bytes(&mut v, self.email.as_str());
        assert(v@ =~= spec_val_lookup_response_bytes(self@));
        v
    }
}

impl ParsePdu for ValLookupResponsePdu {
    open spec fn spec_parse(b: Seq<u8>) -> Option<(ValLookupResponseModel, int)> {
        spec_parse_val_lookup_response(b)
    }

    fn try_parse(buffer: &[u8]) -> (r: Option<(Self, usize)>) {
        if buffer.len() < 14 {
            return None;
        }
        let nl = buffer[13] as usize;
        if buffer.len() < 15 + nl {
            return None;
        }
        let el = buffer[14 + nl] as usize;
        if buffer.len() < 15 + nl + el {
            return None;
        }
        let pdu = ValLookupResponsePdu {
            pdu_type: buffer[0],
            ssn: read_chars(buffer, 1, SSN_LENGTH),
            name_length: buffer[13],
            name: read_chars(buffer, 14, nl),
            email_length: buffer[14 + nl],
            email: read_chars(buffer, 15 + nl, el),
        };
        Some((pdu, 15 + nl + el))
    }
}

// ---------------------------------------------------------------------------
// The tagged union of all message kinds
// ---------------------------------------------------------------------------

/// One typed wire message: the tagged union of every PDU kind.
#[derive(Debug)]
pub enum PDU {
    NetAlive(NetAlivePdu),
    NetGetNode(NetGetNodePdu),
    NetGetNodeResponse(NetGetNodeResponsePdu),
    NetJoin(NetJoinPdu),
    NetJoinResponse(NetJoinResponsePdu),
    NetCloseConnection(NetCloseConnectionPdu),
    NetNewRange(NetNewRangePdu),
    NetNewRangeResponse(NetNewRangeResponsePdu),
    NetLeaving(NetLeavingPdu),
    ValInsert(ValInsertPdu),
    ValRemove(ValRemovePdu),
    ValLookup(ValLookupPdu),
    ValLookupResponse(ValLookupResponsePdu),
    StunLookup(StunLookupPdu),
    StunResponse(StunResponsePdu),
}

/// The mathematical value of a `PDU`.
pub enum PduModel {
    NetAlive(NetAlivePdu),
    NetGetNode(NetGetNodePdu),
    NetGetNodeResponse(NetGetNodeResponsePdu),
    NetJoin(NetJoinPdu),
    NetJoinResponse(NetJoinResponsePdu),
    NetCloseConnection(NetCloseConnectionPdu),
    NetNewRange(NetNewRangePdu),
    NetNewRangeResponse(NetNewRangeResponsePdu),
    NetLeaving(NetLeavingPdu),
    ValInsert(ValInsertModel),
    ValRemove(ValRemoveModel),
    ValLookup(ValLookupModel),
    ValLookupResponse(ValLookupResponseModel),
    StunLookup(StunLookupPdu),
    StunResponse(StunResponsePdu),
}

impl View for PDU {
    type V = PduModel;

    open spec fn view(&self) -> PduModel {
        match self {
            PDU::NetAlive(p) => PduModel::NetAlive(*p),
            PDU::NetGetNode(p) => PduModel::NetGetNode(*p),
            PDU::NetGetNodeResponse(p) => PduModel::NetGetNodeResponse(*p),
            PDU::NetJoin(p) => PduModel::NetJoin(*p),
            PDU::NetJoinResponse(p) => PduModel::NetJoinResponse(*p),
            PDU::NetCloseConnection(p) => PduModel::NetCloseConnection(*p),
            PDU::NetNewRange(p) => PduModel::NetNewRange(*p),
            PDU::NetNewRangeResponse(p) => PduModel::NetNewRangeResponse(*p),
            PDU::NetLeaving(p) => PduModel::NetLeaving(*p),
            PDU::ValInsert(p) => PduModel::ValInsert(p@),
            PDU::ValRemove(p) => PduModel::ValRemove(p@),
            PDU::ValLookup(p) => PduModel::ValLookup(p@),
            PDU::ValLookupResponse(p) => PduModel::ValLookupResponse(p@),
            PDU::StunLookup(p) => PduModel::StunLookup(*p),
            PDU::StunResponse(p) => PduModel::StunResponse(*p),
        }
    }
}

/// The exact wire bytes of a message.
pub open spec fn spec_pdu_bytes(m: PduModel) -> Seq<u8> {
    match m {
        PduModel::NetAlive(p) => spec_net_alive_bytes(p),
        PduModel::NetGetNode(p) => spec_net_get_node_bytes(p),
        PduModel::NetGetNodeResponse(p) => spec_net_get_node_response_bytes(p),
        PduModel::NetJoin(p) => spec_net_join_bytes(p),
        PduModel::NetJoinResponse(p) => spec_net_join_response_bytes(p),
        PduModel::NetCloseConnection(p) => spec_net_close_connection_bytes(p),
        PduModel::NetNewRange(p) => spec_net_new_range_bytes(p),
        PduModel::NetNewRangeResponse(p) => spec_net_new_range_response_bytes(p),
        PduModel::NetLeaving(p) => spec_net_leaving_bytes(p),
        PduModel::ValInsert(p) => spec_val_insert_bytes(p),
        PduModel::ValRemove(p) => spec_val_remove_bytes(p),
        PduModel::ValLookup(p) => spec_val_lookup_bytes(p),
        PduModel::ValLookupResponse(p) => spec_val_lookup_response_bytes(p),
        PduModel::StunLookup(p) => spec_stun_lookup_bytes(p),
        PduModel::StunResponse(p) => spec_stun_response_bytes(p),
    }
}

impl PDU {
    /// Encodes the message to its exact wire bytes.  Encoding never
    /// fails.
    pub fn to_bytes(self) -> (r: Vec<u8>)
        ensures
            r@ == spec_pdu_bytes(self@),
    {
        match self {
            PDU::NetAlive(p) => p.to_bytes(),
            PDU::NetGetNode(p) => p.to_bytes(),
            PDU::NetGetNodeResponse(p) => p.to_bytes(),
            PDU::NetJoin(p) => p.to_bytes(),
            PDU::NetJoinResponse(p) => p.to_bytes(),
            PDU::NetCloseConnection(p) => p.to_bytes(),
            PDU::NetNewRange(p) => p.to_bytes(),
            PDU::NetNewRangeResponse(p) => p.to_bytes(),
            PDU::NetLeaving(p) => p.to_bytes(),
            PDU::ValInsert(p) => p.to_bytes(),
            PDU::ValRemove(p) => p.to_bytes(),
            PDU::ValLookup(p) => p.to_bytes(),
            PDU::ValLookupResponse(p) => p.to_bytes(),
            PDU::StunLookup(p) => p.to_bytes(),
            PDU::StunResponse(p) => p.to_bytes(),
        }
    }
}

// ---------------------------------------------------------------------------
// Parsing a message off the front of a buffer
// ---------------------------------------------------------------------------

/// The fatal codec error: a leading type tag outside every catalogued
/// range.
#[derive(Clone, Copy, Debug, PartialEq, Eq, Structural)]
pub enum ParseError {
    UnknownTag(u8),
}

/// What the front of a byte buffer holds: nothing decodable yet, a
/// tag no PDU kind owns, or a complete message and its exact size.
pub enum SpecParsed {
    Incomplete,
    Unknown(u8),
    Complete(PduModel, int),
}

/// Parses one message off the front of `b`, dispatching on the
/// leading type tag.
pub open spec fn spec_parse_pdu(b: Seq<u8>) -> SpecParsed {
    if b.len() == 0 {
        SpecParsed::Incomplete
    } else {
        let t = b[0];
        if t == NET_ALIVE_ID {
            match spec_parse_net_alive(b) {
                Some((m, n)) => SpecParsed::Complete(PduModel::NetAlive(m), n),
                None => SpecParsed::Incomplete,
            }
        } else if t == NET_GET_NODE_ID {
            match spec_parse_net_get_node(b) {
                Some((m, n)) => SpecParsed::Complete(PduModel::NetGetNode(m), n),
                None => SpecParsed::Incomplete,
            }
        } else if t == NET_GET_NODE_RESPONSE_ID {
            match spec_parse_net_get_node_response(b) {
                Some((m, n)) => SpecParsed::Complete(PduModel::NetGetNodeResponse(m), n),
                None => SpecParsed::Incomplete,
            }
        } else if t == NET_JOIN_ID {
            match spec_parse_net_join(b) {
                Some((m, n)) => SpecParsed::Complete(PduModel::NetJoin(m), n),
                None => SpecParsed::Incomplete,
            }
        } else if t == NET_JOIN_RESPONSE_ID {
            match spec_parse_net_join_response(b) {
                Some((m, n)) => SpecParsed::Complete(PduModel::NetJoinResponse(m), n),
                None => SpecParsed::Incomplete,
            }
        } else if t == NET_CLOSE_CONNECTION_ID {
            match spec_parse_net_close_connection(b) {
                Some((m, n)) => SpecParsed::Complete(PduModel::NetCloseConnection(m), n),
                None => SpecParsed::Incomplete,
            }
        } else if t == NET_NEW_RANGE_ID {
            match spec_parse_net_new_range(b) {
                Some((m, n)) => SpecParsed::Complete(PduModel::NetNewRange(m), n),
                None => SpecParsed::Incomplete,
            }
        } else if t == NET_LEAVING_ID {
            match spec_parse_net_leaving(b) {
                Some((m, n)) => SpecParsed::Complete(PduModel::NetLeaving(m), n),
                None => SpecParsed::Incomplete,
            }
        } else if t == NET_NEW_RANGE_RESPONSE_ID {
            match spec_parse_net_new_range_response(b) {
                Some((m, n)) => SpecParsed::Complete(PduModel::NetNewRangeResponse(m), n),
                None => SpecParsed::Incomplete,
            }
        } else if t == VAL_INSERT_ID {
            match spec_parse_val_insert(b) {
                Some((m, n)) => SpecParsed::Complete(PduModel::ValInsert(m), n),
                None => SpecParsed::Incomplete,
            }
        } else if t == VAL_REMOVE_ID {
            match spec_parse_val_remove(b) {
                Some((m, n)) => SpecParsed::Complete(PduModel::ValRemove(m), n),
                None => SpecParsed::Incomplete,
            }
        } else if t == VAL_LOOKUP_ID {
            match spec_parse_val_lookup(b) {
                Some((m, n)) => SpecParsed::Complete(PduModel::ValLookup(m), n),
                None => SpecParsed::Incomplete,
            }
        } else if t == VAL_LOOKUP_RESPONSE_ID {
            match spec_parse_val_lookup_response(b) {
                Some((m, n)) => SpecParsed::Complete(PduModel::ValLookupResponse(m), n),
                None => SpecParsed::Incomplete,
            }
        } else if t == STUN_LOOKUP_ID {
            match spec_parse_stun_lookup(b) {
                Some((m, n)) => SpecParsed::Complete(PduModel::StunLookup(m), n),
                None => SpecParsed::Incomplete,
            }
        } else if t == STUN_RESPONSE_ID {
            match spec_parse_stun_response(b) {
                Some((m, n)) => SpecParsed::Complete(PduModel::StunResponse(m), n),
                None => SpecParsed::Incomplete,
            }
        } else {
            SpecParsed::Unknown(t)
        }
    }
}

/// Parses a ring-control message (tags 0 through 8) off the front of
/// the buffer.
pub fn parse_net_pdu(buffer: &[u8]) -> (r: Option<(PDU, usize)>)
    requires
        buffer@.len() > 0,
        buffer@[0] <= 8,
    ensures
        match r {
            Some((p, n)) => spec_parse_pdu(buffer@) == SpecParsed::Complete(p@, n as int) && 1 <= n
                <= buffer@.len(),
            None => spec_parse_pdu(buffer@) is Incomplete,
        },
{
    let t = buffer[0];
    if t == NET_ALIVE_ID {
        match NetAlivePdu::try_parse(buffer) {
            Some((p, n)) => Some((PDU::NetAlive(p), n)),
            None => None,
        }
    } else if t == NET_GET_NODE_ID {
        match NetGetNodePdu::try_parse(buffer) {
            Some((p, n)) => Some((PDU::NetGetNode(p), n)),
            None => None,
        }
    } else if t == NET_GET_NODE_RESPONSE_ID {
        match NetGetNodeResponsePdu::try_parse(buffer) {
            Some((p, n)) => Some((PDU::NetGetNodeResponse(p), n)),
            None => None,
        }
    } else if t == NET_JOIN_ID {
        match NetJoinPdu::try_parse(buffer) {
            Some((p, n)) => Some((PDU::NetJoin(p), n)),
            None => None,
        }
    } else if t == NET_JOIN_RESPONSE_ID {
        match NetJoinResponsePdu::try_parse(buffer) {
            Some((p, n)) => Some((PDU::NetJoinResponse(p), n)),
            None => None,
        }
    } else if t == NET_CLOSE_CONNECTION_ID {
        match NetCloseConnectionPdu::try_parse(buffer) {
            Some((p, n)) => Some((PDU::NetCloseConnection(p), n)),
            None => None,
        }
    } else if t == NET_NEW_RANGE_ID {
        match NetNewRangePdu::try_parse(buffer) {
            Some((p, n)) => Some((PDU::NetNewRange(p), n)),
            None => None,
        }
    } else if t == NET_LEAVING_ID {
        match NetLeavingPdu::try_parse(buffer) {
            Some((p, n)) => Some((PDU::NetLeaving(p), n)),
            None => None,
        }
    } else {
        match NetNewRangeResponsePdu::try_parse(buffer) {
            Some((p, n)) => Some((PDU::NetNewRangeResponse(p), n)),
            None => None,
        }
    }
}

/// Parses a value-operation message (tags 100 through 103) off the
/// front of the buffer.
pub fn parse_val_pdu(buffer: &[u8]) -> (r: Option<(PDU, usize)>)
    requires
        buffer@.len() > 0,
        100 <= buffer@[0] <= 103,
    ensures
        match r {
            Some((p, n)) => spec_parse_pdu(buffer@) == SpecParsed::Complete(p@, n as int) && 1 <= n
                <= buffer@.len(),
            None => spec_parse_pdu(buffer@) is Incomplete,
        },
{
    let t = buffer[0];
    if t == VAL_INSERT_ID {
        match ValInsertPdu::try_parse(buffer) {
            Some((p, n)) => Some((PDU::ValInsert(p), n)),
            None => None,
        }
    } else if t == VAL_REMOVE_ID {
        match ValRemovePdu::try_parse(buffer) {
            Some((p, n)) => Some((PDU::ValRemove(p), n)),
            None => None,
        }
    } else if t == VAL_LOOKUP_ID {
        match ValLookupPdu::try_parse(buffer) {
            Some((p, n)) => Some((PDU::ValLookup(p), n)),
            None => None,
        }
    } else {
        match ValLookupResponsePdu::try_parse(buffer) {
            Some((p, n)) => Some((PDU::ValLookupResponse(p), n)),
            None => None,
        }
    }
}

/// Parses an address-discovery message (tags 200 and 201) off the
/// front of the buffer.
pub fn parse_stun_pdu(buffer: &[u8]) -> (r: Option<(PDU, usize)>)
    requires
        buffer@.len() > 0,
        200 <= buffer@[0] <= 201,
    ensures
        match r {
            Some((p, n)) => spec_parse_pdu(buffer@) == SpecParsed::Complete(p@, n as int) && 1 <= n
                <= buffer@.len(),
            None => spec_parse_pdu(buffer@) is Incomplete,
        },
{
    let t = buffer[0];
    if t == STUN_LOOKUP_ID {
        match StunLookupPdu::try_parse(buffer) {
            Some((p, n)) => Some((PDU::StunLookup(p), n)),
            None => None,
        }
    } else {
        match StunResponsePdu::try_parse(buffer) {
            Some((p, n)) => Some((PDU::StunResponse(p), n)),
            None => None,
        }
    }
}

/// Parses one message off the front of the buffer.  `Ok(None)` means
/// the buffer holds no complete message yet and the caller must wait
/// for more bytes; an unrecognized leading tag is the fatal protocol
/// error.
pub fn parse_pdu(buffer: &[u8]) -> (r: Result<Option<(PDU, usize)>, ParseError>)
    ensures
        match r {
            Ok(Some((p, n))) => spec_parse_pdu(buffer@) == SpecParsed::Complete(p@, n as int) && 1
                <= n <= buffer@.len(),
            Ok(None) => spec_parse_pdu(buffer@) is Incomplete,
            Err(e) => buffer@.len() > 0 && e == ParseError::UnknownTag(buffer@[0]) && spec_parse_pdu(
                buffer@,
            ) == SpecParsed::Unknown(buffer@[0]),
        },
{
    if buffer.len() == 0 {
        return Ok(None);
    }
    let t = buffer[0];
    if t <= 8 {
        Ok(parse_net_pdu(buffer))
    } else if 100 <= t && t <= 103 {
        Ok(parse_val_pdu(buffer))
    } else if 200 <= t && t <= 201 {
        Ok(parse_stun_pdu(buffer))
    } else {
        Err(ParseError::UnknownTag(t))
    }
}

/// A complete parse consumes at least the tag byte and never more
/// than the buffer holds.
pub proof fn lemma_complete_parse_consumes(b: Seq<u8>)
    ensures
        spec_parse_pdu(b) matches SpecParsed::Complete(m, n) ==> 1 <= n <= b.len(),
{
}

// ---------------------------------------------------------------------------
// The codec round trip
// ---------------------------------------------------------------------------

/// Well-formed string fields of a record-carrying message: the key is
/// exactly `SSN_LENGTH` characters, the declared lengths match the
/// strings, everything fits its length byte, and every character fits
/// in one wire byte.
pub open spec fn wf_record_strings(
    ssn: Seq<char>,
    name_length: u8,
    name: Seq<char>,
    email_length: u8,
    email: Seq<char>,
) -> bool {
    &&& ssn.len() == SSN_LENGTH
    &&& single_byte_chars(ssn)
    &&& name_length == name.len()
    &&& name.len() <= 255
    &&& single_byte_chars(name)
    &&& email_length == email.len()
    &&& email.len() <= 255
    &&& single_byte_chars(email)
}

/// A message as a correct sender builds it: the tag byte names its
/// own kind, and string fields are consistent with their length
/// bytes and representable on the wire.
pub open spec fn wf_pdu(m: PduModel) -> bool {
    match m {
        PduModel::NetAlive(p) => p.pdu_type == NET_ALIVE_ID,
        PduModel::NetGetNode(p) => p.pdu_type == NET_GET_NODE_ID,
        PduModel::NetGetNodeResponse(p) => p.pdu_type == NET_GET_NODE_RESPONSE_ID,
        PduModel::NetJoin(p) => p.pdu_type == NET_JOIN_ID,
        PduModel::NetJoinResponse(p) => p.pdu_type == NET_JOIN_RESPONSE_ID,
        PduModel::NetCloseConnection(p) => p.pdu_type == NET_CLOSE_CONNECTION_ID,
        PduModel::NetNewRange(p) => p.pdu_type == NET_NEW_RANGE_ID,
        PduModel::NetNewRangeResponse(p) => p.pdu_type == NET_NEW_RANGE_RESPONSE_ID,
        PduModel::NetLeaving(p) => p.pdu_type == NET_LEAVING_ID,
        PduModel::ValInsert(p) => p.pdu_type == VAL_INSERT_ID && wf_record_strings(
            p.ssn,
            p.name_length,
            p.name,
            p.email_length,
            p.email,
        ),
        PduModel::ValRemove(p) => p.pdu_type == VAL_REMOVE_ID && p.ssn.len() == SSN_LENGTH
            && single_byte_chars(p.ssn),
        PduModel::ValLookup(p) => p.pdu_type == VAL_LOOKUP_ID && p.ssn.len() == SSN_LENGTH
            && single_byte_chars(p.ssn),
        PduModel::ValLookupResponse(p) => p.pdu_type == VAL_LOOKUP_RESPONSE_ID && wf_record_strings(
            p.ssn,
            p.name_length,
            p.name,
            p.email_length,
            p.email,
        ),
        PduModel::StunLookup(p) => p.pdu_type == STUN_LOOKUP_ID,
        PduModel::StunResponse(p) => p.pdu_type == STUN_RESPONSE_ID,
    }
}

/// Encoding a single-byte string and reading it back is the identity.
proof fn lemma_chars_bytes_roundtrip(s: Seq<char>)
    requires
        single_byte_chars(s),
    ensures
        bytes_chars(chars_bytes(s)) =~= s,
{
    assert forall|i: int| 0 <= i < s.len() implies bytes_chars(chars_bytes(s))[i] == s[i] by {
        lemma_char_byte_roundtrip(s[i]);
    }
}

proof fn lemma_round_trip_net_join(p: NetJoinPdu)
    ensures
        spec_parse_net_join(spec_net_join_bytes(p)) == Some((p, NET_JOIN_SIZE as int)),
{
    let b = spec_net_join_bytes(p);
    assert(b.len() == NET_JOIN_SIZE);
    lemma_be32_val_roundtrip(p.src_address);
    lemma_be16_val_roundtrip(p.src_port);
    lemma_be32_val_roundtrip(p.max_address);
    lemma_be16_val_roundtrip(p.max_port);
    assert((spec_parse_net_join(b)->0).0 == p);
}

proof fn lemma_round_trip_net_get_node_response(p: NetGetNodeResponsePdu)
    ensures
        spec_parse_net_get_node_response(spec_net_get_node_response_bytes(p)) == Some(
            (p, NET_GET_NODE_RESPONSE_SIZE as int),
        ),
{
    let b = spec_net_get_node_response_bytes(p);
    assert(b.len() == NET_GET_NODE_RESPONSE_SIZE);
    lemma_be32_val_roundtrip(p.address);
    lemma_be16_val_roundtrip(p.port);
    assert((spec_parse_net_get_node_response(b)->0).0 == p);
}

proof fn lemma_round_trip_net_join_response(p: NetJoinResponsePdu)
    ensures
        spec_parse_net_join_response(spec_net_join_response_bytes(p)) == Some(
            (p, NET_JOIN_RESPONSE_SIZE as int),
        ),
{
    let b = spec_net_join_response_bytes(p);
    assert(b.len() == NET_JOIN_RESPONSE_SIZE);
    lemma_be32_val_roundtrip(p.next_address);
    lemma_be16_val_roundtrip(p.next_port);
    assert((spec_parse_net_join_response(b)->0).0 == p);
}

proof fn lemma_round_trip_net_leaving(p: NetLeavingPdu)
    ensures
        spec_parse_net_leaving(spec_net_leaving_bytes(p)) == Some((p, NET_LEAVING_SIZE as int)),
{
    let b = spec_net_leaving_bytes(p);
    assert(b.len() == NET_LEAVING_SIZE);
    lemma_be32_val_roundtrip(p.new_address);
    lemma_be16_val_roundtrip(p.new_port);
    assert((spec_parse_net_leaving(b)->0).0 == p);
}

proof fn lemma_round_trip_stun_response(p: StunResponsePdu)
    ensures
        spec_parse_stun_response(spec_stun_response_bytes(p)) == Some(
            (p, STUN_RESPONSE_SIZE as int),
        ),
{
    let b = spec_stun_response_bytes(p);
    assert(b.len() == STUN_RESPONSE_SIZE);
    lemma_be32_val_roundtrip(p.address);
    assert((spec_parse_stun_response(b)->0).0 == p);
}

proof fn lemma_round_trip_val_remove(p: ValRemoveModel)
    requires
        p.ssn.len() == SSN_LENGTH,
        single_byte_chars(p.ssn),
    ensures
        spec_parse_val_remove(spec_val_remove_bytes(p)) == Some((p, VAL_REMOVE_SIZE as int)),
{
    let b = spec_val_remove_bytes(p);
    assert(b.len() == VAL_REMOVE_SIZE);
    assert(b.subrange(1, 13) =~= chars_bytes(p.ssn));
    lemma_chars_bytes_roundtrip(p.ssn);
    assert((spec_parse_val_remove(b)->0).0 == p);
}

proof fn lemma_round_trip_val_lookup(p: ValLookupModel)
    requires
        p.ssn.len() == SSN_LENGTH,
        single_byte_chars(p.ssn),
    ensures
        spec_parse_val_lookup(spec_val_lookup_bytes(p)) == Some((p, VAL_LOOKUP_SIZE as int)),
{
    let b = spec_val_lookup_bytes(p);
    assert(b.len() == VAL_LOOKUP_SIZE);
    assert(b.subrange(1, 13) =~= chars_bytes(p.ssn));
    lemma_chars_bytes_roundtrip(p.ssn);
    lemma_be32_val_roundtrip(p.sender_address);
    lemma_be16_val_roundtrip(p.sender_port);
    assert((spec_parse_val_lookup(b)->0).0 == p);
}

proof fn lemma_round_trip_val_insert(p: ValInsertModel)
    requires
        wf_record_strings(p.ssn, p.name_length, p.name, p.email_length, p.email),
    ensures
        spec_parse_val_insert(spec_val_insert_bytes(p)) == Some(
            (p, spec_val_insert_bytes(p).len() as int),
        ),
{
    let b = spec_val_insert_bytes(p);
    let nl = p.name.len() as int;
    let el = p.email.len() as int;
    assert(b.len() == 15 + nl + el);
    assert(b[13] == p.name_length);
    assert(b[14 + nl] == p.email_length);
    assert(b.subrange(1, 13) =~= chars_bytes(p.ssn));
    assert(b.subrange(14, 14 + nl) =~= chars_bytes(p.name));
    assert(b.subrange(15 + nl, 15 + nl + el) =~= chars_bytes(p.email));
    lemma_chars_bytes_roundtrip(p.ssn);
    lemma_chars_bytes_roundtrip(p.name);
    lemma_chars_bytes_roundtrip(p.email);
    assert((spec_parse_val_insert(b)->0).0 == p);
}

proof fn lemma_round_trip_val_lookup_response(p: ValLookupResponseModel)
    requires
        wf_record_strings(p.ssn, p.name_length, p.name, p.email_length, p.email),
    ensures
        spec_parse_val_lookup_response(spec_val_lookup_response_bytes(p)) == Some(
            (p, spec_val_lookup_response_bytes(p).len() as int),
        ),
{
    let b = spec_val_lookup_response_bytes(p);
    let nl = p.name.len() as int;
    let el = p.email.len() as int;
    assert(b.len() == 15 + nl + el);
    assert(b[13] == p.name_length);
    assert(b[14 + nl] == p.email_length);
    assert(b.subrange(1, 13) =~= chars_bytes(p.ssn));
    assert(b.subrange(14, 14 + nl) =~= chars_bytes(p.name));
    assert(b.subrange(15 + nl, 15 + nl + el) =~= chars_bytes(p.email));
    lemma_chars_bytes_roundtrip(p.ssn);
    lemma_chars_bytes_roundtrip(p.name);
    lemma_chars_bytes_roundtrip(p.email);
    assert((spec_parse_val_lookup_response(b)->0).0 == p);
}

/// The codec round trip: decoding the encoding of any well-formed
/// message of any kind yields the message itself, and the decoder
/// reports exactly the encoded byte length as consumed.
pub proof fn lemma_pdu_round_trip(m: PduModel)
    requires
        wf_pdu(m),
    ensures
        spec_parse_pdu(spec_pdu_bytes(m)) == SpecParsed::Complete(m, spec_pdu_bytes(m).len() as int),
{
    let b = spec_pdu_bytes(m);
    match m {
        PduModel::NetAlive(p) => {
            assert(b[0] == NET_ALIVE_ID);
            assert((spec_parse_net_alive(b)->0).0 == p);
        },
        PduModel::NetGetNode(p) => {
            assert(b[0] == NET_GET_NODE_ID);
            assert((spec_parse_net_get_node(b)->0).0 == p);
        },
        PduModel::NetGetNodeResponse(p) => {
            assert(b[0] == NET_GET_NODE_RESPONSE_ID);
            lemma_round_trip_net_get_node_response(p);
        },
        PduModel::NetJoin(p) => {
            assert(b[0] == NET_JOIN_ID);
            lemma_round_trip_net_join(p);
        },
        PduModel::NetJoinResponse(p) => {
            assert(b[0] == NET_JOIN_RESPONSE_ID);
            lemma_round_trip_net_join_response(p);
        },
        PduModel::NetCloseConnection(p) => {
            assert(b[0] == NET_CLOSE_CONNECTION_ID);
            assert((spec_parse_net_close_connection(b)->0).0 == p);
        },
        PduModel::NetNewRange(p) => {
            assert(b[0] == NET_NEW_RANGE_ID);
            assert((spec_parse_net_new_range(b)->0).0 == p);
        },
        PduModel::NetNewRangeResponse(p) => {
            assert(b[0] == NET_NEW_RANGE_RESPONSE_ID);
            assert((spec_parse_net_new_range_response(b)->0).0 == p);
        },
        PduModel::NetLeaving(p) => {
            assert(b[0] == NET_LEAVING_ID);
            lemma_round_trip_net_leaving(p);
        },
        PduModel::ValInsert(p) => {
            assert(b[0] == VAL_INSERT_ID);
            lemma_round_trip_val_insert(p);
        },
        PduModel::ValRemove(p) => {
            assert(b[0] == VAL_REMOVE_ID);
            lemma_round_trip_val_remove(p);
        },
        PduModel::ValLookup(p) => {
            assert(b[0] == VAL_LOOKUP_ID);
            lemma_round_trip_val_lookup(p);
        },
        PduModel::ValLookupResponse(p) => {
            assert(b[0] == VAL_LOOKUP_RESPONSE_ID);
            lemma_round_trip_val_lookup_response(p);
        },
        PduModel::StunLookup(p) => {
            assert(b[0] == STUN_LOOKUP_ID);
            assert((spec_parse_stun_lookup(b)->0).0 == p);
        },
        PduModel::StunResponse(p) => {
            assert(b[0] == STUN_RESPONSE_ID);
            lemma_round_trip_stun_response(p);
        },
    }
}

} // verus!
