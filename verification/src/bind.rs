//! Resolving a named network interface to a bind target.
//!
//! The HTTP client can be pinned to one interface.  On this
//! operating-system family the socket is best bound at the device level, by
//! interface name; binding to one of the interface's addresses is the
//! fallback strategy, preferring the address family of the peer.

use vstd::prelude::*;
use vstd::string::*;
use crate::text::str_eq;
use network_interface::NetworkInterfaceConfig;

verus! {

/// An interface address, as plain values.
#[derive(Debug, Clone, Copy, PartialEq, Eq, Structural)]
pub enum IpAddress {
    /// An IPv4 address, one octet per field.
    V4(u8, u8, u8, u8),
    /// An IPv6 address, as its 128-bit value.
    V6(u128),
}

impl IpAddress {
    /// Whether this is an IPv4 address.
    pub open spec fn spec_is_v4(&self) -> bool {
        self is V4
    }

    pub fn is_v4(&self) -> (r: bool)
        ensures
            r == self.spec_is_v4(),
    {
        match self {
            IpAddress::V4(..) => true,
            IpAddress::V6(..) => false,
        }
    }
}

/// A network interface as the library reads it: its name and addresses.
#[derive(Debug)]
pub struct InterfaceInfo {
    pub name: String,
    pub addrs: Vec<IpAddress>,
}

/// Why an interface could not be bound.
#[derive(Debug)]
pub enum SmartBindToInterfaceError {
    /// No interface of the requested name, or none of its addresses is
    /// usable.
    InterfaceNotFound(String),
    /// The interface table could not be read; the message is the reader's.
    GetNetworkInterfaces(String),
}

/// How the HTTP client should be bound.
#[derive(Debug)]
pub enum BindTarget {
    /// No binding requested.
    NoBind,
    /// Bind at the device level, by interface name.
    Device(String),
    /// Bind to this local address.
    Address(IpAddress),
}

/// Whether `a`'s family matches the preference (`true` prefers IPv4).
pub open spec fn family_matches(a: IpAddress, prefer_v4: bool) -> bool {
    a.spec_is_v4() == prefer_v4
}

/// `a` is the address the selection rule picks from `addrs`: the first one
/// of the preferred family, else the first address of any family.
pub open spec fn is_selected_bind_addr(addrs: Seq<IpAddress>, prefer_v4: bool, a: IpAddress) -> bool {
    if exists|k: int| 0 <= k < addrs.len() && family_matches(#[trigger] addrs[k], prefer_v4) {
        exists|i: int|
            {
                &&& 0 <= i < addrs.len()
                &&& a == addrs[i]
                &&& family_matches(addrs[i], prefer_v4)
                &&& forall|k: int| 0 <= k < i ==> !family_matches(#[trigger] addrs[k], prefer_v4)
            }
    } else {
        addrs.len() > 0 && a == addrs[0]
    }
}

/// The preferred bind address among `addrs`: the first one of the preferred
/// family, else the first address of any family, else none.
pub fn select_bind_addr(addrs: &Vec<IpAddress>, prefer_v4: bool) -> (r: Option<IpAddress>)
    ensures
        (r is None) == (addrs@.len() == 0),
        r matches Some(a) ==> is_selected_bind_addr(addrs@, prefer_v4, a),
{
    let n = addrs.len();
    let mut i: usize = 0;
    while i < n
        invariant
            n == addrs@.len(),
            i <= n,
            forall|k: int| 0 <= k < i ==> !family_matches(#[trigger] addrs@[k], prefer_v4),
        decreases n - i,
    {
        if addrs[i].is_v4() == prefer_v4 {
            return Some(addrs[i]);
        }
        i += 1;
    }
    if n > 0 {
        Some(addrs[0])
    } else {
        None
    }
}

/// The first interface of the given name, if any.
pub fn find_interface(interfaces: &Vec<InterfaceInfo>, name: &str) -> (r: Option<usize>)
    ensures
        r matches Some(i) ==> i < interfaces@.len() && interfaces@[i as int].name@ == name@
            && forall|k: int| 0 <= k < i ==> interfaces@[k].name@ != name@,
        r is None ==> forall|k: int|
            0 <= k < interfaces@.len() ==> (#[trigger] interfaces@[k].name)@ != name@,
{
    let n = interfaces.len();
    let mut i: usize = 0;
    while i < n
        invariant
            n == interfaces@.len(),
            i <= n,
            forall|k: int| 0 <= k < i ==> (#[trigger] interfaces@[k].name)@ != name@,
        decreases n - i,
    {
        if str_eq(interfaces[i].name.as_str(), name) {
            return Some(i);
        }
        i += 1;
    }
    None
}

/// Relies on `network_interface`'s `NetworkInterfaceConfig::show`: the OS's
/// interface table, reduced to names and addresses.  What it holds depends
/// on the host, so nothing is promised of it.
#[verifier::external_body]
fn read_network_interfaces() -> Result<Vec<InterfaceInfo>, String> {
    let list = network_interface::NetworkInterface::show().map_err(|e| e.to_string())?;
    Ok(list.into_iter().map(|ni| InterfaceInfo {
        name: ni.name,
        addrs: ni.addr.into_iter().map(|a| match a {
            network_interface::Addr::V4(v) => { let o = v.ip.octets(); IpAddress::V4(o[0], o[1], o[2], o[3]) },
            network_interface::Addr::V6(v) => IpAddress::V6(u128::from_be_bytes(v.ip.octets())),
        }).collect(),
    }).collect())
}

/// What the bind decision owes over a table: nothing to bind for an empty
/// name; a failure carrying the name when the table lacks it, or when the
/// name's first bearer has no address and an address was wanted; else the
/// device by name, or the selected address of the name's first bearer.
pub open spec fn bind_target_matches(
    interfaces: Seq<InterfaceInfo>,
    name: Seq<char>,
    prefer_v4: bool,
    device_binding: bool,
    r: Result<BindTarget, SmartBindToInterfaceError>,
) -> bool {
    if name.len() == 0 {
        r == Ok::<BindTarget, SmartBindToInterfaceError>(BindTarget::NoBind)
    } else if forall|k: int| 0 <= k < interfaces.len() ==> (#[trigger] interfaces[k].name)@ != name {
        r matches Err(SmartBindToInterfaceError::InterfaceNotFound(s)) && s@ == name
    } else if device_binding {
        r matches Ok(BindTarget::Device(d)) && d@ == name
    } else {
        exists|i: int|
            {
                &&& 0 <= i < interfaces.len()
                &&& (#[trigger] interfaces[i].name)@ == name
                &&& forall|k: int| 0 <= k < i ==> interfaces[k].name@ != name
                &&& if interfaces[i].addrs@.len() == 0 {
                    r matches Err(SmartBindToInterfaceError::InterfaceNotFound(s)) && s@ == name
                } else {
                    r matches Ok(BindTarget::Address(a)) && is_selected_bind_addr(
                        interfaces[i].addrs@,
                        prefer_v4,
                        a,
                    )
                }
            }
    }
}

/// The bind decision for a named interface, over the interface table,
/// exactly as [`bind_target_matches`] owes it.
pub fn smart_bind_target(
    interfaces: &Vec<InterfaceInfo>,
    interface: &str,
    prefer_v4: bool,
    device_binding: bool,
) -> (r: Result<BindTarget, SmartBindToInterfaceError>)
    ensures
        bind_target_matches(interfaces@, interface@, prefer_v4, device_binding, r),
{
    if interface.unicode_len() == 0 {
        return Ok(BindTarget::NoBind);
    }
    let idx = match find_interface(interfaces, interface) {
        Some(i) => i,
        None => {
            return Err(
                SmartBindToInterfaceError::InterfaceNotFound(String::from_str(interface)),
            );
        },
    };
    proof {
        assert((#[trigger] interfaces@[idx as int].name)@ == interface@);
    }
    if device_binding {
        return Ok(BindTarget::Device(String::from_str(interface)));
    }
    let r = match select_bind_addr(&interfaces[idx].addrs, prefer_v4) {
        Some(a) => Ok(BindTarget::Address(a)),
        None => Err(SmartBindToInterfaceError::InterfaceNotFound(String::from_str(interface))),
    };
    proof {
        assert(bind_target_matches(interfaces@, interface@, prefer_v4, device_binding, r)) by {
            let i = idx as int;
            assert(0 <= i < interfaces@.len() && interfaces@[i].name@ == interface@ && (forall|
                k: int,
            | 0 <= k < i ==> interfaces@[k].name@ != interface@) && if interfaces@[i].addrs@.len()
                == 0 {
                r matches Err(SmartBindToInterfaceError::InterfaceNotFound(s)) && s@ == interface@
            } else {
                r matches Ok(BindTarget::Address(a)) && is_selected_bind_addr(
                    interfaces@[i].addrs@,
                    prefer_v4,
                    a,
                )
            });
        }
    }
    r
}

/// The bind decision for an optionally configured interface, over this
/// host's interface table.  No configured interface, or an empty name,
/// asks for no binding; otherwise either reading the table failed, or the
/// result is what [`bind_target_matches`] owes over the table that was
/// read.
pub fn resolve_bind_target(interface: Option<&str>, prefer_v4: bool, device_binding: bool) -> (r:
    Result<BindTarget, SmartBindToInterfaceError>)
    ensures
        interface is None ==> r == Ok::<BindTarget, SmartBindToInterfaceError>(BindTarget::NoBind),
        interface matches Some(name) ==> {
            ||| r matches Err(SmartBindToInterfaceError::GetNetworkInterfaces(_))
            ||| exists|table: Seq<InterfaceInfo>|
                #[trigger] bind_target_matches(table, name@, prefer_v4, device_binding, r)
        },
        r matches Ok(t) ==> match t {
            BindTarget::NoBind => interface is None || (interface matches Some(name) && name@.len()
                == 0),
            BindTarget::Device(d) => device_binding && (interface matches Some(name) && d@
                == name@),
            BindTarget::Address(_) => !device_binding,
        },
{
    let name = match interface {
        None => {
            return Ok(BindTarget::NoBind);
        },
        Some(name) => name,
    };
    if name.unicode_len() == 0 {
        proof {
            let table = Seq::<InterfaceInfo>::empty();
            assert(bind_target_matches(
                table,
                name@,
                prefer_v4,
                device_binding,
                Ok::<BindTarget, SmartBindToInterfaceError>(BindTarget::NoBind),
            ));
        }
        return Ok(BindTarget::NoBind);
    }
    let interfaces = match read_network_interfaces() {
        Ok(list) => list,
        Err(message) => {
            return Err(SmartBindToInterfaceError::GetNetworkInterfaces(message));
        },
    };
    let r = smart_bind_target(&interfaces, name, prefer_v4, device_binding);
    proof {
        assert(bind_target_matches(interfaces@, name@, prefer_v4, device_binding, r));
    }
    r
}

} // verus!
