//! Network identities of peers, as plain values.

use vstd::prelude::*;

verus! {

/// An IP address: the 32 bits of an IPv4 address or the 128 bits of an IPv6
/// address, most significant octet first. An IPv4 address never equals an
/// IPv6 address.
#[derive(Clone, Copy, Debug, PartialEq, Eq, Hash, Structural)]
pub enum IpAddress {
    V4(u32),
    V6(u128),
}

/// The socket address of a peer: what a session is keyed by.
///
/// Two addresses are the same peer only if every field agrees; an IPv6
/// address carries its flow information and scope besides IP and port.
#[derive(Clone, Copy, Debug, PartialEq, Eq, Hash, Structural)]
#[allow(inconsistent_fields)]
pub enum Address {
    V4 { ip: u32, port: u16 },
    V6 { ip: u128, port: u16, flowinfo: u32, scope_id: u32 },
}

impl Address {
    /// The IP part of the address.
    pub open spec fn spec_ip(&self) -> IpAddress {
        match *self {
            Address::V4 { ip, .. } => IpAddress::V4(ip),
            Address::V6 { ip, .. } => IpAddress::V6(ip),
        }
    }

    /// The port part of the address.
    pub open spec fn spec_port(&self) -> u16 {
        match *self {
            Address::V4 { port, .. } => port,
            Address::V6 { port, .. } => port,
        }
    }

    /// The IP part of the address.
    #[verifier::when_used_as_spec(spec_ip)]
    pub fn ip(&self) -> (ip: IpAddress)
        ensures
            ip == self.spec_ip(),
    {
        match self {
            Address::V4 { ip, .. } => IpAddress::V4(*ip),
            Address::V6 { ip, .. } => IpAddress::V6(*ip),
        }
    }

    /// The port part of the address.
    #[verifier::when_used_as_spec(spec_port)]
    pub fn port(&self) -> (port: u16)
        ensures
            port == self.spec_port(),
    {
        match self {
            Address::V4 { port, .. } => *port,
            Address::V6 { port, .. } => *port,
        }
    }
}

} // verus!
