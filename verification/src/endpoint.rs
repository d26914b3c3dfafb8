//! The network address of a peer.

use vstd::prelude::*;

verus! {

/// The address family of an endpoint.
#[derive(Clone, Copy, Debug, PartialEq, Eq, Structural)]
pub enum Family {
    /// Internet protocol version 4.
    V4,
    /// Internet protocol version 6.
    V6,
}

/// A resolved network address: a host address and a port, of one family.
///
/// A version 4 host address is held as the big-endian number of its four
/// octets, a version 6 host address as the big-endian number of its
/// sixteen. Two endpoints are the same peer when all their parts agree.
#[allow(inconsistent_fields)]
#[derive(Clone, Copy, Debug, PartialEq, Eq, Structural)]
pub enum Endpoint {
    /// A version 4 socket address.
    V4 { host: u32, port: u16 },
    /// A version 6 socket address, with its flow label and scope.
    V6 { host: u128, port: u16, flowinfo: u32, scope_id: u32 },
}

impl Endpoint {
    /// The family of this endpoint.
    pub open spec fn spec_family(self) -> Family {
        match self {
            Endpoint::V4 { .. } => Family::V4,
            Endpoint::V6 { .. } => Family::V6,
        }
    }

    /// The port of this endpoint.
    pub open spec fn spec_port(self) -> u16 {
        match self {
            Endpoint::V4 { port, .. } => port,
            Endpoint::V6 { port, .. } => port,
        }
    }

    /// The endpoint that leaves both the local address and the local port
    /// to the system, in the given family: `0.0.0.0:0` or `[::]:0`.
    pub open spec fn unspecified(family: Family) -> Endpoint {
        match family {
            Family::V4 => Endpoint::V4 { host: 0, port: 0 },
            Family::V6 => Endpoint::V6 { host: 0, port: 0, flowinfo: 0, scope_id: 0 },
        }
    }

    /// The family of this endpoint.
    #[verifier::when_used_as_spec(spec_family)]
    pub fn family(self) -> (family: Family)
        ensures
            family == self.spec_family(),
    {
        match self {
            Endpoint::V4 { .. } => Family::V4,
            Endpoint::V6 { .. } => Family::V6,
        }
    }

    /// The port of this endpoint.
    #[verifier::when_used_as_spec(spec_port)]
    pub fn port(self) -> (port: u16)
        ensures
            port == self.spec_port(),
    {
        match self {
            Endpoint::V4 { port, .. } => port,
            Endpoint::V6 { port, .. } => port,
        }
    }

    /// The local endpoint to bind for talking to `self`: any address and
    /// any port, in the family of `self`.
    pub fn bind_address(self) -> (local: Endpoint)
        ensures
            local == Endpoint::unspecified(self.spec_family()),
    {
        match self {
            Endpoint::V4 { .. } => Endpoint::V4 { host: 0, port: 0 },
            Endpoint::V6 { .. } => Endpoint::V6 { host: 0, port: 0, flowinfo: 0, scope_id: 0 },
        }
    }
}

} // verus!
