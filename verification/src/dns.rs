//! Decisions of the interface-bound DNS resolver.
//!
//! Resolution itself runs outside the library; what is fixed here is the
//! set of upstream servers and the static fallback override used when the
//! portal's own host cannot be resolved (the portal is reachable before
//! any DNS works).

use vstd::prelude::*;
use crate::bind::IpAddress;
use crate::text::str_eq;

verus! {

/// The host of the captive portal's pages.
pub open spec fn portal_host() -> Seq<char> {
    "p.njupt.edu.cn"@
}

/// The upstream DNS servers the resolver is configured with.
pub fn upstream_dns_servers() -> (r: Vec<IpAddress>)
    ensures
        r@ =~= seq![IpAddress::V4(8, 8, 8, 8), IpAddress::V4(114, 114, 114, 114)],
{
    let mut r: Vec<IpAddress> = Vec::new();
    r.push(IpAddress::V4(8, 8, 8, 8));
    r.push(IpAddress::V4(114, 114, 114, 114));
    r
}

/// The static fallback address for a host whose resolution failed: only the
/// portal's own host has one.
pub fn fallback_addr_for(host: &str) -> (r: Option<IpAddress>)
    ensures
        host@ == portal_host() ==> r == Some(IpAddress::V4(10, 10, 244, 11)),
        host@ != portal_host() ==> r is None,
{
    if str_eq(host, "p.njupt.edu.cn") {
        Some(IpAddress::V4(10, 10, 244, 11))
    } else {
        None
    }
}

} // verus!
