//! Network addresses as plain values.

use vstd::prelude::*;

verus! {

/// The address of one end of a connection: an IP address and a port, held as
/// integers. Two addresses are equal exactly when every field is equal, so an
/// address can tag a payload with the connection it arrived on.
#[allow(inconsistent_fields)]
#[derive(Clone, Copy, Debug, PartialEq, Eq, Hash, Structural)]
pub enum Address {
    /// An IPv4 address (`ip` holds the four octets, first octet highest) and a port.
    V4 { ip: u32, port: u16 },
    /// An IPv6 address (`ip` holds the sixteen octets, first octet highest),
    /// a port, and the flow information and scope identifier that belong to it.
    V6 { ip: u128, port: u16, flowinfo: u32, scope_id: u32 },
}

impl Address {
    /// Whether `self` and `other` name the same endpoint.
    pub fn same_as(&self, other: &Address) -> (same: bool)
        ensures
            same == (*self == *other),
    {
        *self == *other
    }
}

} // verus!
