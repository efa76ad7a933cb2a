//! The access filter: callers are trusted by the network address they
//! connect from, and everything that is not known to be local is refused.

use vstd::prelude::*;
use crate::error::{RegistryError, RegistryErrorView};

verus! {

/// A network address as the transport layer reports it: the four octets
/// of an IPv4 address or the eight 16-bit groups of an IPv6 address, most
/// significant first.
#[derive(Clone, Copy, Debug, PartialEq, Eq)]
pub enum IpAddress {
    V4([u8; 4]),
    V6([u16; 8]),
}

/// IPv4 loopback: 127.0.0.0/8.
pub open spec fn is_loopback_v4(octets: Seq<u8>) -> bool {
    octets[0] == 127
}

/// IPv4 private use: 10.0.0.0/8, 172.16.0.0/12 and 192.168.0.0/16.
pub open spec fn is_private_v4(octets: Seq<u8>) -> bool {
    ||| octets[0] == 10
    ||| (octets[0] == 172 && 16 <= octets[1] <= 31)
    ||| (octets[0] == 192 && octets[1] == 168)
}

/// IPv6 loopback: the single address `::1`.
pub open spec fn is_loopback_v6(groups: Seq<u16>) -> bool {
    &&& forall|i: int| 0 <= i < 7 ==> groups[i] == 0
    &&& groups[7] == 1
}

/// Whether an address belongs to the local network: an IPv4 loopback or
/// private-use address, or the IPv6 loopback address.
pub open spec fn is_local(ip: IpAddress) -> bool {
    match ip {
        IpAddress::V4(octets) => is_loopback_v4(octets@) || is_private_v4(octets@),
        IpAddress::V6(groups) => is_loopback_v6(groups@),
    }
}

/// Whether a caller is trusted: its address is known and is local. A caller
/// whose address is missing is not trusted.
pub open spec fn is_trusted(peer: Option<IpAddress>) -> bool {
    match peer {
        Some(ip) => is_local(ip),
        None => false,
    }
}

/// Decides whether `ip` belongs to the local network.
pub fn is_local_ip(ip: &IpAddress) -> (local: bool)
    ensures
        local == is_local(*ip),
{
    match ip {
        IpAddress::V4(octets) => {
            let first: u8 = octets[0];
            let second: u8 = octets[1];
            first == 127 || first == 10 || (first == 172 && 16 <= second && second <= 31) || (first
                == 192 && second == 168)
        },
        IpAddress::V6(groups) => {
            groups[0] == 0 && groups[1] == 0 && groups[2] == 0 && groups[3] == 0 && groups[4] == 0
                && groups[5] == 0 && groups[6] == 0 && groups[7] == 1
        },
    }
}

/// The filter that lets only callers from the local network through.
#[derive(Clone, Copy, Debug)]
pub struct LocalNetworkOnly;

impl LocalNetworkOnly {
    /// Checks a caller before its request is dispatched. `peer` is the
    /// address of the connection the request came in on, or `None` where
    /// the transport has none to give. Succeeds exactly for a trusted
    /// caller; every other caller gets `AccessDenied`.
    pub fn check(&self, peer: Option<IpAddress>) -> (admitted: Result<(), RegistryError>)
        ensures
            admitted is Ok <==> is_trusted(peer),
            admitted matches Err(e) ==> e@ == RegistryErrorView::AccessDenied,
    {
        match peer {
            Some(ip) => {
                if is_local_ip(&ip) {
                    Ok(())
                } else {
                    Err(RegistryError::AccessDenied)
                }
            },
            None => Err(RegistryError::AccessDenied),
        }
    }
}

} // verus!
