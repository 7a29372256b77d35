use ark_scanner::addr::{Ipv4, MacAddress};
use ark_scanner::frame::{arp_sweep, classify_inbound, gen_arp_request, InboundFrame};

fn own_mac() -> MacAddress {
    MacAddress(0x02, 0x11, 0x22, 0x33, 0x44, 0x55)
}

#[test]
fn arp_request_layout() {
    let frame = gen_arp_request(own_mac(), Ipv4::new(192, 168, 1, 50), Ipv4::new(192, 168, 1, 7));
    assert_eq!(frame.len(), 42);
    assert_eq!(&frame[0..6], &[0xff; 6]);
    assert_eq!(&frame[6..12], &[0x02, 0x11, 0x22, 0x33, 0x44, 0x55]);
    assert_eq!(&frame[12..14], &[0x08, 0x06]);
    assert_eq!(&frame[14..20], &[0x00, 0x01, 0x08, 0x00, 6, 4]);
    assert_eq!(&frame[20..22], &[0x00, 0x01]);
    assert_eq!(&frame[22..28], &[0x02, 0x11, 0x22, 0x33, 0x44, 0x55]);
    assert_eq!(&frame[28..32], &[192, 168, 1, 50]);
    assert_eq!(&frame[32..38], &[0xff; 6]);
    assert_eq!(&frame[38..42], &[192, 168, 1, 7]);
}

#[test]
fn arp_request_reads_back_as_arp_from_sender() {
    let mac = MacAddress(0xde, 0xad, 0xbe, 0xef, 0x00, 0x01);
    let frame = gen_arp_request(mac, Ipv4::new(10, 0, 0, 1), Ipv4::new(10, 0, 0, 2));
    assert_eq!(classify_inbound(&frame), InboundFrame::ArpFrame { source_mac: mac });
}

#[test]
fn non_arp_frame_is_ignored() {
    let mut frame = gen_arp_request(own_mac(), Ipv4::new(10, 0, 0, 1), Ipv4::new(10, 0, 0, 2));
    frame[12] = 0x08;
    frame[13] = 0x00;
    assert_eq!(classify_inbound(&frame), InboundFrame::Ignore);
}

#[test]
fn short_frame_is_ignored() {
    let frame = [0xffu8, 0xff, 0xff, 0xff, 0xff, 0xff, 1, 2, 3, 4, 5, 6, 0x08];
    assert_eq!(classify_inbound(&frame), InboundFrame::Ignore);
    assert_eq!(classify_inbound(&[]), InboundFrame::Ignore);
}

#[test]
fn source_is_read_from_ethernet_header() {
    let mut frame = gen_arp_request(own_mac(), Ipv4::new(10, 0, 0, 1), Ipv4::new(10, 0, 0, 2));
    frame[22] = 0x99;
    assert_eq!(classify_inbound(&frame), InboundFrame::ArpFrame { source_mac: own_mac() });
}

#[test]
fn sweep_has_one_request_per_target() {
    let targets = vec![Ipv4::new(10, 0, 0, 1), Ipv4::new(10, 0, 0, 2), Ipv4::new(10, 0, 0, 3)];
    let frames = arp_sweep(own_mac(), Ipv4::new(10, 0, 0, 9), &targets);
    assert_eq!(frames.len(), 3);
    for (frame, target) in frames.iter().zip(targets.iter()) {
        assert_eq!(frame, &gen_arp_request(own_mac(), Ipv4::new(10, 0, 0, 9), *target));
        assert_eq!(&frame[38..42], &target.octets());
    }
}

#[test]
fn broadcast_address() {
    assert!(MacAddress::broadcast().is_broadcast());
    assert!(!own_mac().is_broadcast());
}
