//! Filter decisions of the per-OS network-change listeners.
//!
//! The listeners themselves subscribe to OS facilities outside the library;
//! which of their events deserve a wake signal is decided here.

use vstd::prelude::*;

verus! {

/// The OS's connectivity-level hint, as the Windows-family listener
/// receives it with each notification.
#[derive(Debug, Clone, Copy)]
pub enum ConnectivityLevelHint {
    Unknown,
    NoTraffic,
    LocalAccess,
    InternetAccess,
    ConstrainedInternetAccess,
    Hidden,
}

/// Whether a connectivity-level notification deserves a wake: only the
/// levels that look like a captive portal — constrained internet access,
/// or local access only — do.
pub fn connectivity_hint_warrants_check(hint: &ConnectivityLevelHint) -> (r: bool)
    ensures
        r == (hint is ConstrainedInternetAccess || hint is LocalAccess),
{
    match hint {
        ConnectivityLevelHint::ConstrainedInternetAccess => true,
        ConnectivityLevelHint::LocalAccess => true,
        _ => false,
    }
}

/// Whether a routing-table event deserves a wake, as the Linux-family
/// listener filters them: only a new route that carries a gateway, and —
/// when an interface is configured by a non-empty name — only one whose
/// output interface resolves to that name.  `oif_name` is the resolved
/// name of the route's output interface, if it has one that resolves.
pub fn route_event_warrants_check(
    has_gateway: bool,
    oif_name: Option<&str>,
    configured_interface: Option<&str>,
) -> (r: bool)
    ensures
        r == (has_gateway && match configured_interface {
            Option::None => true,
            Option::Some(c) => c@.len() == 0 || (oif_name matches Some(o) && o@ == c@),
        }),
{
    if !has_gateway {
        return false;
    }
    let c = match configured_interface {
        None => {
            return true;
        },
        Some(c) => c,
    };
    if c.unicode_len() == 0 {
        return true;
    }
    match oif_name {
        Some(o) => crate::text::str_eq(o, c),
        None => false,
    }
}

} // verus!
