//! Plain-value models of socket addresses: an IP address (v4 or v6) and a
//! socket address pairing an IP with a port. The transport layer hands these
//! to the library; nothing here performs any I/O.

use vstd::prelude::*;

verus! {

/// An IP address, held as its numeric value.
#[derive(Clone, Copy, Debug, PartialEq, Eq, Hash, Structural)]
pub enum Ip {
    V4(u32),
    V6(u128),
}

/// A socket address: an IP address and a port.
#[derive(Clone, Copy, Debug, PartialEq, Eq, Hash, Structural)]
pub struct SockAddr {
    pub ip: Ip,
    pub port: u16,
}

impl SockAddr {
    /// The address's IP, without the port.
    pub fn ip(&self) -> (r: Ip)
        ensures
            r == self.ip,
    {
        self.ip
    }
}

} // verus!
