//! Addresses as the socket calls of the system leave them.

use vstd::prelude::*;

verus! {

/// The address of the other end of a connection.
#[derive(Clone, Copy, Debug, PartialEq, Eq)]
pub struct Peer {
    pub ip: (u8, u8, u8, u8),
    pub port: u16,
}

/// The address in the bytes that `accept` fills: the port from the third byte on, the higher byte
/// first, and the four bytes of the address behind it.
pub fn peer_of(storage: &[u8]) -> (r: Peer)
    requires
        storage@.len() >= 8,
    ensures
        r.port == 256 * storage@[2] + storage@[3],
        r.ip == (storage@[4], storage@[5], storage@[6], storage@[7]),
{
    Peer {
        ip: (storage[4], storage[5], storage[6], storage[7]),
        port: 256 * storage[2] as u16 + storage[3] as u16,
    }
}

} // verus!
