//! The destination of the datagrams: a host, a port and a default target
//! index, together with the payloads that each send operation transmits.
//!
//! The library builds and pins down the payload bytes; performing the actual
//! transmission is I/O and is left to the caller, behind the
//! [`IntegerUdpSender`] trait.

use vstd::prelude::*;

use crate::codec::{encode_datagram, encodes, lemma_pair_determines_datagram};

verus! {

/// A remote receiver: host address, port, and the default player index this
/// sender controls. Immutable once constructed; construction performs no I/O.
pub struct WowIntegerTarget {
    /// Player host address to target (IPv4, IPv6 or hostname).
    pub ip: String,
    /// Player port to target.
    pub port: u16,
    /// Player index to control by default.
    pub index: i32,
}

impl WowIntegerTarget {
    /// Creates a new target with the given host, port, and default index.
    pub fn new(ip: &str, port: u16, index: i32) -> (r: WowIntegerTarget)
        ensures
            r.ip@ == ip@,
            r.port == port,
            r.index == index,
    {
        WowIntegerTarget { ip: ip.to_owned(), port, index }
    }

    /// The payload of a send to the default target: `(default index, code)`.
    pub fn datagram_to_target(&self, code: i32) -> (r: Vec<u8>)
        ensures
            encodes(r@, self.index, code),
    {
        encode_datagram(self.index, code)
    }

    /// The payload of a send to the player at `index`: `(index, code)`.
    pub fn datagram_to_target_at_index(&self, index: i32, code: i32) -> (r: Vec<u8>)
        ensures
            encodes(r@, index, code),
    {
        encode_datagram(index, code)
    }

    /// The payload of a send to all players. There is exactly one configured
    /// destination per target, so this degenerates to the default-target
    /// payload.
    pub fn datagram_to_all(&self, code: i32) -> (r: Vec<u8>)
        ensures
            encodes(r@, self.index, code),
    {
        encode_datagram(self.index, code)
    }
}

/// A send to the default target and a send to the default index spelled out
/// produce byte-identical datagrams, as do a send to all players: every
/// payload that encodes `(t.index, code)` is the same byte sequence.
pub proof fn lemma_default_send_is_indexed_send(
    t: WowIntegerTarget,
    code: i32,
    a: Seq<u8>,
    b: Seq<u8>,
)
    requires
        encodes(a, t.index, code),
        encodes(b, t.index, code),
    ensures
        a == b,
{
    lemma_pair_determines_datagram(a, b, t.index, code);
}

/// The one error class of this layer: a transport failure (endpoint
/// allocation or transmission), surfaced synchronously to the caller.
#[derive(Debug)]
pub struct SendError {
    /// What the local network stack reported.
    pub message: String,
}

/// The send operations over an unreliable datagram transport. The library
/// pins down the payload of each operation; an implementation performs the
/// transmission, which is I/O, and reports any transport failure through its
/// result.
pub trait IntegerUdpSender {
    /// Sends an integer code to the target player at its default index.
    fn send_integer_to_target(&self, value: i32) -> Result<(), SendError>;

    /// Sends an integer code to the target player at a specific index.
    fn send_integer_to_target_at_index(&self, index: i32, value: i32) -> Result<(), SendError>;

    /// Sends an integer code to all players. With a single configured
    /// destination this degenerates to a send to the default target.
    fn send_integer_to_all(&self, value: i32) -> Result<(), SendError>;
}

} // verus!
