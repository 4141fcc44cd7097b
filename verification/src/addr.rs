//! Plain IPv4 socket addresses as the wire protocol carries them: a
//! 32-bit host address and a 16-bit port, both in host integer form.

use vstd::prelude::*;

verus! {

/// An IPv4 endpoint, as a plain pair of integers.
#[derive(Clone, Copy, Debug, PartialEq, Eq, Structural)]
pub struct PeerAddr {
    pub ip: u32,
    pub port: u16,
}

impl PeerAddr {
    pub fn new(ip: u32, port: u16) -> (r: PeerAddr)
        ensures
            r.ip == ip,
            r.port == port,
    {
        PeerAddr { ip, port }
    }

    /// The all-zero sentinel the tracker answers with when it knows no peer.
    pub fn is_unspecified(&self) -> (r: bool)
        ensures
            r == (self.ip == 0 && self.port == 0),
    {
        self.ip == 0 && self.port == 0
    }
}

} // verus!
