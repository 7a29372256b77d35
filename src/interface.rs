use vstd::prelude::*;

use crate::addr::{Ipv4, MacAddress};

verus! {

/// An address assigned to an interface.
#[derive(Clone, Copy, Debug, PartialEq, Eq, Structural)]
pub enum IpNet {
    V4 { ip: Ipv4, mask: Ipv4 },
    V6,
}

/// What the scanner reads of a link-layer interface.
#[derive(Debug)]
pub struct InterfaceInfo {
    pub name: String,
    pub is_up: bool,
    pub is_broadcast: bool,
    pub is_loopback: bool,
    pub is_running: bool,
    pub mac: Option<MacAddress>,
    pub ips: Vec<IpNet>,
}

pub open spec fn has_ipv4(ips: Seq<IpNet>) -> bool {
    exists|i: int| 0 <= i < ips.len() && ips[i] is V4
}

/// Whether an interface may serve as the default one: up, broadcast-capable,
/// not loopback, with an IPv4 address and a hardware address.
pub open spec fn is_default_candidate(iface: InterfaceInfo) -> bool {
    &&& iface.is_up
    &&& iface.is_broadcast
    &&& !iface.is_loopback
    &&& iface.ips@.len() > 0
    &&& has_ipv4(iface.ips@)
    &&& iface.mac is Some
}

/// Whether `k` is the position of the first default candidate of `ifaces`.
pub open spec fn is_first_candidate(ifaces: Seq<InterfaceInfo>, k: int) -> bool {
    &&& 0 <= k < ifaces.len()
    &&& is_default_candidate(ifaces[k])
    &&& forall|j: int| 0 <= j < k ==> !is_default_candidate(#[trigger] ifaces[j])
}

/// Whether `k` is the position of the first IPv4 entry of `ips`.
pub open spec fn is_first_ipv4(ips: Seq<IpNet>, k: int) -> bool {
    &&& 0 <= k < ips.len()
    &&& ips[k] is V4
    &&& forall|j: int| 0 <= j < k ==> !(#[trigger] ips[j] is V4)
}

/// The running flag of the first interface of `ifaces` named `name`; false
/// where there is none.
pub open spec fn running_spec(name: Seq<char>, ifaces: Seq<InterfaceInfo>) -> bool {
    exists|k: int|
        0 <= k < ifaces.len() && ifaces[k].name@ == name && ifaces[k].is_running && forall|j: int|
            0 <= j < k ==> (#[trigger] ifaces[j]).name@ != name
}

/// The position of the first interface that may serve as the default one.
pub fn select_default_interface(interfaces: &Vec<InterfaceInfo>) -> (r: Option<usize>)
    ensures
        match r {
            Some(k) => is_first_candidate(interfaces@, k as int),
            None => forall|j: int|
                0 <= j < interfaces@.len() ==> !is_default_candidate(#[trigger] interfaces@[j]),
        },
{
    let mut i: usize = 0;
    while i < interfaces.len()
        invariant
            i <= interfaces@.len(),
            forall|j: int| 0 <= j < i ==> !is_default_candidate(#[trigger] interfaces@[j]),
        decreases interfaces@.len() - i,
    {
        let iface = &interfaces[i];
        if iface.is_up && iface.is_broadcast && !iface.is_loopback && iface.ips.len() > 0
            && first_ipv4(&iface.ips).is_some() && iface.mac.is_some() {
            return Some(i);
        }
        i = i + 1;
    }
    None
}

/// The position of the first IPv4 entry of `ips`.
pub fn first_ipv4(ips: &Vec<IpNet>) -> (r: Option<usize>)
    ensures
        match r {
            Some(k) => is_first_ipv4(ips@, k as int),
            None => !has_ipv4(ips@),
        },
{
    let mut i: usize = 0;
    while i < ips.len()
        invariant
            i <= ips@.len(),
            forall|j: int| 0 <= j < i ==> !(#[trigger] ips@[j] is V4),
        decreases ips@.len() - i,
    {
        if let IpNet::V4 { .. } = ips[i] {
            return Some(i);
        }
        i = i + 1;
    }
    None
}

/// Whether the interface named as `interface` is running, going by a fresh
/// enumeration `current` of the host's interfaces; absent means not running.
pub fn is_interface_connected(interface: &InterfaceInfo, current: &Vec<InterfaceInfo>) -> (r: bool)
    ensures
        r == running_spec(interface.name@, current@),
{
    let mut i: usize = 0;
    while i < current.len()
        invariant
            i <= current@.len(),
            forall|j: int| 0 <= j < i ==> (#[trigger] current@[j]).name@ != interface.name@,
        decreases current@.len() - i,
    {
        if current[i].name == interface.name {
            proof {
                if current@[i as int].is_running {
                    assert(running_spec(interface.name@, current@));
                } else {
                    assert forall|k: int| 0 <= k < current@.len() && current@[k].name@ == interface.name@
                        && current@[k].is_running implies exists|j: int| 0 <= j < k && (#[trigger] current@[j]).name@ == interface.name@ by {
                        assert(k != i);
                        assert(current@[i as int].name@ == interface.name@);
                    }
                }
            }
            return current[i].is_running;
        }
        i = i + 1;
    }
    false
}

} // verus!
