//! The address of a peer, as plain numbers.

use vstd::prelude::*;

verus! {

/// The UDP port reserved for NTP.
pub const NTP_PORT: u16 = 123;

/// An IP address and port, with the extra fields that IPv6 carries. Two
/// addresses are equal when every field is.
#[derive(Debug, Copy, Clone, PartialEq, Eq, Structural)]
#[allow(inconsistent_fields)]
pub enum PeerAddr {
    /// An IPv4 address as a 32-bit number, first octet highest.
    V4 { ip: u32, port: u16 },
    /// An IPv6 address as a 128-bit number, first segment highest.
    V6 { ip: u128, port: u16, flowinfo: u32, scope_id: u32 },
}

impl PeerAddr {
    /// The port of either kind of address.
    pub open spec fn spec_port(&self) -> u16 {
        match *self {
            PeerAddr::V4 { port, .. } => port,
            PeerAddr::V6 { port, .. } => port,
        }
    }

    /// The port of either kind of address.
    #[verifier::when_used_as_spec(spec_port)]
    pub fn port(&self) -> (p: u16)
        ensures
            p == self.spec_port(),
    {
        match self {
            PeerAddr::V4 { port, .. } => *port,
            PeerAddr::V6 { port, .. } => *port,
        }
    }
}

} // verus!
