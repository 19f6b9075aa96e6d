//! Network addresses as plain values.
use vstd::prelude::*;

verus! {

/// An IP address and port. An IPv4 address is held in the low 32 bits of
/// `ip` with `v6` false; `flowinfo` and `scope_id` are zero for it.
#[derive(Clone, Copy, Debug, PartialEq, Eq, Structural)]
pub struct Endpoint {
    pub v6: bool,
    pub ip: u128,
    pub port: u16,
    pub flowinfo: u32,
    pub scope_id: u32,
}

impl Endpoint {
    /// An IPv4 endpoint; `ip` holds the four octets, most significant first.
    pub fn v4(ip: u32, port: u16) -> (r: Endpoint)
        ensures
            r == (Endpoint { v6: false, ip: ip as u128, port, flowinfo: 0, scope_id: 0 }),
    {
        Endpoint { v6: false, ip: ip as u128, port, flowinfo: 0, scope_id: 0 }
    }

    /// An IPv6 endpoint.
    pub fn v6(ip: u128, port: u16, flowinfo: u32, scope_id: u32) -> (r: Endpoint)
        ensures
            r == (Endpoint { v6: true, ip, port, flowinfo, scope_id }),
    {
        Endpoint { v6: true, ip, port, flowinfo, scope_id }
    }
}

} // verus!
