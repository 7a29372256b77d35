use vstd::prelude::*;

use crate::addr::{Ipv4, MacAddress};
use crate::error::{ArpScannerErr, InterfaceErr};
use crate::interface::{
    first_ipv4, is_default_candidate, is_first_candidate, is_first_ipv4, select_default_interface,
    InterfaceInfo, IpNet,
};
use crate::subnet::{compute_subnet_ips, host_range};

verus! {

/// What the scanner settles at startup: the interface it works on, its own
/// addresses, and the hosts each sweep asks for.
#[derive(Debug)]
pub struct ScanPlan {
    /// Position of the chosen interface in the enumeration.
    pub interface_index: usize,
    pub source_mac: MacAddress,
    pub source_ip: Ipv4,
    pub subnet_mask: Ipv4,
    /// Every host address of the subnet, ascending.
    pub targets: Vec<Ipv4>,
}

/// Whether `plan` is the one that `ifaces` calls for: the first candidate
/// interface, its hardware address, its first IPv4 address and mask, and the
/// hosts of that subnet.
pub open spec fn plan_matches(ifaces: Seq<InterfaceInfo>, plan: ScanPlan) -> bool {
    let iface = ifaces[plan.interface_index as int];
    &&& is_first_candidate(ifaces, plan.interface_index as int)
    &&& iface.mac == Some(plan.source_mac)
    &&& exists|k: int|
        is_first_ipv4(iface.ips@, k) && iface.ips@[k] == (IpNet::V4 {
            ip: plan.source_ip,
            mask: plan.subnet_mask,
        })
    &&& plan.targets@.len() == host_range(plan.source_ip@, plan.subnet_mask@).len()
    &&& forall|i: int|
        0 <= i < plan.targets@.len() ==> #[trigger] plan.targets@[i]@ as int == host_range(
            plan.source_ip@,
            plan.subnet_mask@,
        )[i]
}

/// Chooses the interface to scan from an enumeration of the host's
/// interfaces and works out the addresses to sweep. Fails with `NotFound`
/// exactly when no interface may serve as the default one.
pub fn plan_scan(interfaces: &Vec<InterfaceInfo>) -> (r: Result<ScanPlan, ArpScannerErr>)
    ensures
        match r {
            Ok(plan) => plan_matches(interfaces@, plan),
            Err(e) => e == ArpScannerErr::InterfaceError(InterfaceErr::NotFound)
                && forall|j: int|
                0 <= j < interfaces@.len() ==> !is_default_candidate(#[trigger] interfaces@[j]),
        },
        r is Err <==> forall|j: int|
            0 <= j < interfaces@.len() ==> !is_default_candidate(#[trigger] interfaces@[j]),
{
    let index = match select_default_interface(interfaces) {
        Some(k) => k,
        None => return Err(ArpScannerErr::InterfaceError(InterfaceErr::NotFound)),
    };
    let interface = &interfaces[index];
    let source_mac = match interface.mac {
        Some(mac) => mac,
        None => return Err(ArpScannerErr::InterfaceError(InterfaceErr::NoMac)),
    };
    let k = match first_ipv4(&interface.ips) {
        Some(k) => k,
        None => return Err(ArpScannerErr::InterfaceError(InterfaceErr::NoIpv4)),
    };
    let (source_ip, subnet_mask) = match interface.ips[k] {
        IpNet::V4 { ip, mask } => (ip, mask),
        IpNet::V6 => return Err(ArpScannerErr::InterfaceError(InterfaceErr::NoIpv4)),
    };
    let targets = compute_subnet_ips(source_ip, subnet_mask);
    let plan = ScanPlan { interface_index: index, source_mac, source_ip, subnet_mask, targets };
    assert(is_first_ipv4(interface.ips@, k as int));
    Ok(plan)
}

} // verus!
