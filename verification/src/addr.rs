//! Socket-address model: plain-value representation of IPv4/IPv6 UDP endpoints.

use vstd::prelude::*;

verus! {

/// A UDP endpoint: an IPv4 or IPv6 address together with a port.
#[derive(Clone, Copy, PartialEq, Eq, Structural, Debug)]
pub enum NetAddr {
    V4 { ip: u32, port: u16 },
    V6 { ip: u128, port: u16 },
}

impl NetAddr {
    /// True iff this endpoint is an IPv6 one.
    pub fn is_ipv6(&self) -> (r: bool)
        ensures
            r == self is V6,
    {
        match self {
            NetAddr::V4 { .. } => false,
            NetAddr::V6 { .. } => true,
        }
    }
}

} // verus!
