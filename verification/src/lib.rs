//! A self-organizing ring of peer nodes that jointly store key/value
//! records, partitioned by a consistent-hash range.
//!
//! The crate covers the node's core: the binary wire protocol (PDU
//! catalog and codec), the framer that turns raw socket bytes into a
//! queue of typed messages, the key-hash function, and the node's
//! join/leave/routing state machine.  Socket I/O itself lives outside
//! the library: callers feed received bytes in and carry out the
//! actions the state machine hands back.

pub mod addr;
pub mod codec;
pub mod framer;
pub mod node;
pub mod record;
pub mod ring;
