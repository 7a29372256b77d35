use ark_scanner::addr::{Ipv4, MacAddress};
use ark_scanner::error::{ArpScannerErr, InterfaceErr};
use ark_scanner::interface::{first_ipv4, is_interface_connected, select_default_interface, InterfaceInfo, IpNet};
use ark_scanner::scanner::plan_scan;

fn iface(name: &str, loopback: bool, mac: Option<MacAddress>, ips: Vec<IpNet>) -> InterfaceInfo {
    InterfaceInfo {
        name: name.to_string(),
        is_up: true,
        is_broadcast: !loopback,
        is_loopback: loopback,
        is_running: true,
        mac,
        ips,
    }
}

fn v4(a: u8, b: u8, c: u8, d: u8, prefix_mask: [u8; 4]) -> IpNet {
    IpNet::V4 {
        ip: Ipv4::new(a, b, c, d),
        mask: Ipv4::new(prefix_mask[0], prefix_mask[1], prefix_mask[2], prefix_mask[3]),
    }
}

fn host() -> Vec<InterfaceInfo> {
    let mac = MacAddress(0x02, 1, 2, 3, 4, 5);
    vec![
        iface("lo", true, None, vec![v4(127, 0, 0, 1, [255, 0, 0, 0])]),
        iface("wg0", false, None, vec![v4(10, 9, 0, 1, [255, 255, 255, 0])]),
        iface("eth0", false, Some(mac), vec![IpNet::V6, v4(192, 168, 1, 50, [255, 255, 255, 0])]),
        iface("eth1", false, Some(mac), vec![v4(10, 0, 0, 1, [255, 255, 255, 252])]),
    ]
}

#[test]
fn default_interface_is_first_candidate() {
    assert_eq!(select_default_interface(&host()), Some(2));
    let mut only_v6 = host();
    only_v6[2].ips = vec![IpNet::V6];
    assert_eq!(select_default_interface(&only_v6), Some(3));
    let mut down = host();
    down[2].is_up = false;
    down[3].ips.clear();
    assert_eq!(select_default_interface(&down), None);
}

#[test]
fn first_ipv4_entry() {
    assert_eq!(first_ipv4(&vec![IpNet::V6, IpNet::V6]), None);
    assert_eq!(first_ipv4(&vec![IpNet::V6, v4(1, 2, 3, 4, [255, 0, 0, 0])]), Some(1));
}

#[test]
fn plan_for_host() {
    let plan = plan_scan(&host()).unwrap();
    assert_eq!(plan.interface_index, 2);
    assert_eq!(plan.source_mac, MacAddress(0x02, 1, 2, 3, 4, 5));
    assert_eq!(plan.source_ip.octets(), [192, 168, 1, 50]);
    assert_eq!(plan.subnet_mask.octets(), [255, 255, 255, 0]);
    assert_eq!(plan.targets.len(), 254);
    assert_eq!(plan.targets[0].octets(), [192, 168, 1, 1]);
}

#[test]
fn plan_without_candidate() {
    let ifaces = vec![iface("lo", true, None, vec![v4(127, 0, 0, 1, [255, 0, 0, 0])])];
    match plan_scan(&ifaces) {
        Err(ArpScannerErr::InterfaceError(InterfaceErr::NotFound)) => {}
        other => panic!("unexpected {:?}", other),
    }
    assert!(plan_scan(&vec![]).is_err());
}

#[test]
fn link_state_by_name() {
    let mut now = host();
    assert!(is_interface_connected(&host()[2], &now));
    now[2].is_running = false;
    assert!(!is_interface_connected(&host()[2], &now));
    now.remove(2);
    assert!(!is_interface_connected(&host()[2], &now));
    let mut twice = host();
    twice[2].is_running = false;
    twice.push(iface("eth0", false, None, vec![]));
    assert!(!is_interface_connected(&host()[2], &twice));
}

#[test]
fn error_messages() {
    assert_eq!(
        ArpScannerErr::InterfaceError(InterfaceErr::NotFound).message(),
        "[arp scanner error]: unable to choose default network interface"
    );
    assert_eq!(
        ArpScannerErr::InterfaceError(InterfaceErr::NoMac).message(),
        "[arp scanner error]: chosen network interface is missing mac address"
    );
    assert_eq!(
        ArpScannerErr::InterfaceError(InterfaceErr::NoIpv4).message(),
        "[arp scanner error]: chosen network interface is missing ipv4 address"
    );
    assert_eq!(
        ArpScannerErr::InterfaceError(InterfaceErr::InvalidMask).message(),
        "[arp scanner error]: chosen network interface is missing ipv4 subnet mask"
    );
    assert_eq!(
        ArpScannerErr::UnsupportedMask.message(),
        "[arp scanner error]: network has unsupported subnet mask"
    );
    assert_eq!(
        ArpScannerErr::OpenChannelError("PermissionDenied".to_string()).message(),
        "[arp scanner error]: unable to open channel for network interface: PermissionDenied"
    );
}
