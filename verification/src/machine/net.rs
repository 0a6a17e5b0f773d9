//! Network policy shared by the API layer and the backends.
use vstd::prelude::*;

verus! {

/// An IP address: IPv4 as its four octets, IPv6 as its 128-bit value.
#[derive(Debug, Clone, Copy, PartialEq, Eq, Structural)]
pub enum NetAddr {
    V4(u8, u8, u8, u8),
    V6(u128),
}

/// RFC 1918 private or RFC 3927 link-local IPv4.
pub open spec fn spec_is_local_network_ip(ip: NetAddr) -> bool {
    match ip {
        NetAddr::V4(a, b, _, _) => a == 10 || (a == 172 && 16 <= b <= 31) || (a == 192 && b == 168)
            || (a == 169 && b == 254),
        NetAddr::V6(_) => false,
    }
}

/// Is this an address a home embroidery machine could plausibly have,
/// i.e. a private (RFC 1918) or link-local IPv4 address?
///
/// This is also the rule the localhost API applies to every target address:
/// the bridge refuses to act as a proxy to loopback services or the public
/// internet. IPv6 targets are refused.
pub fn is_local_network_ip(ip: NetAddr) -> (r: bool)
    ensures
        r == spec_is_local_network_ip(ip),
{
    match ip {
        NetAddr::V4(a, b, _, _) => a == 10 || (a == 172 && 16 <= b && b <= 31) || (a == 192 && b
            == 168) || (a == 169 && b == 254),
        NetAddr::V6(_) => false,
    }
}

/// `a` sorts before `b` in `std::net::IpAddr`'s order: IPv4 before IPv6,
/// IPv4 by octets, IPv6 by value.
pub open spec fn addr_lt(a: NetAddr, b: NetAddr) -> bool {
    match (a, b) {
        (NetAddr::V4(a0, a1, a2, a3), NetAddr::V4(b0, b1, b2, b3)) => a0 < b0 || (a0 == b0 && (a1
            < b1 || (a1 == b1 && (a2 < b2 || (a2 == b2 && a3 < b3))))),
        (NetAddr::V4(..), NetAddr::V6(_)) => true,
        (NetAddr::V6(_), NetAddr::V4(..)) => false,
        (NetAddr::V6(x), NetAddr::V6(y)) => x < y,
    }
}

/// Executable [`addr_lt`].
pub fn addr_less(a: NetAddr, b: NetAddr) -> (r: bool)
    ensures
        r == addr_lt(a, b),
{
    match (a, b) {
        (NetAddr::V4(a0, a1, a2, a3), NetAddr::V4(b0, b1, b2, b3)) => a0 < b0 || (a0 == b0 && (a1
            < b1 || (a1 == b1 && (a2 < b2 || (a2 == b2 && a3 < b3))))),
        (NetAddr::V4(..), NetAddr::V6(_)) => true,
        (NetAddr::V6(_), NetAddr::V4(..)) => false,
        (NetAddr::V6(x), NetAddr::V6(y)) => x < y,
    }
}

} // verus!
