use vstd::prelude::*;

use crate::addr::{Ipv4, MacAddress};

verus! {

/// Length of an Ethernet header: destination, source and EtherType.
pub const ETHERNET_HEADER_LEN: usize = 14;

/// Length of an ARP request wrapped in its Ethernet frame.
pub const ETHERNET_FRAME_LEN: usize = 42;

/// What an inbound frame means to the scanner.
#[derive(Clone, Copy, Debug, PartialEq, Eq, Structural)]
pub enum InboundFrame {
    /// Not an ARP frame, or too short to hold an Ethernet header.
    Ignore,
    /// An ARP frame, with the source address of its Ethernet header.
    ArpFrame { source_mac: MacAddress },
}

pub open spec fn broadcast_bytes() -> Seq<u8> {
    seq![0xffu8, 0xff, 0xff, 0xff, 0xff, 0xff]
}

/// The Ethernet header of an ARP broadcast from `source_mac`.
pub open spec fn arp_ethernet_header(source_mac: MacAddress) -> Seq<u8> {
    broadcast_bytes() + source_mac@ + seq![0x08u8, 0x06]
}

/// An ARP request body: Ethernet hardware, IPv4 protocol, address lengths
/// 6 and 4, operation 1, then sender and target addresses.
pub open spec fn arp_request_body(source_mac: MacAddress, source_ip: Ipv4, target_ip: Ipv4) -> Seq<u8> {
    seq![0x00u8, 0x01, 0x08, 0x00, 6, 4, 0x00, 0x01] + source_mac@ + source_ip.octets_spec()
        + broadcast_bytes() + target_ip.octets_spec()
}

/// The whole frame of an ARP request asking who holds `target_ip`.
pub open spec fn arp_request_frame(source_mac: MacAddress, source_ip: Ipv4, target_ip: Ipv4) -> Seq<u8> {
    arp_ethernet_header(source_mac) + arp_request_body(source_mac, source_ip, target_ip)
}

/// How an inbound frame is classified: by the EtherType of its header, with
/// the source address read from the header and not from the ARP body.
pub open spec fn classify_spec(bytes: Seq<u8>) -> InboundFrame {
    if bytes.len() >= 14 && bytes[12] == 0x08 && bytes[13] == 0x06 {
        InboundFrame::ArpFrame {
            source_mac: MacAddress(bytes[6], bytes[7], bytes[8], bytes[9], bytes[10], bytes[11]),
        }
    } else {
        InboundFrame::Ignore
    }
}

fn push_mac(out: &mut Vec<u8>, mac: MacAddress)
    ensures
        final(out)@ == old(out)@ + mac@,
{
    out.push(mac.0);
    out.push(mac.1);
    out.push(mac.2);
    out.push(mac.3);
    out.push(mac.4);
    out.push(mac.5);
    assert(final(out)@ =~= old(out)@ + mac@);
}

fn push_ip(out: &mut Vec<u8>, ip: Ipv4)
    ensures
        final(out)@ == old(out)@ + ip.octets_spec(),
{
    let o = ip.octets();
    out.push(o[0]);
    out.push(o[1]);
    out.push(o[2]);
    out.push(o[3]);
    assert(final(out)@ =~= old(out)@ + ip.octets_spec());
}

/// Builds the broadcast Ethernet frame of an ARP request from `source_mac`
/// and `source_ip` asking who holds `target_ip`.
pub fn gen_arp_request(source_mac: MacAddress, source_ip: Ipv4, target_ip: Ipv4) -> (r: Vec<u8>)
    ensures
        r@ == arp_request_frame(source_mac, source_ip, target_ip),
        r@.len() == ETHERNET_FRAME_LEN,
        r@.subrange(0, 6) == broadcast_bytes(),
        r@.subrange(6, 12) == source_mac@,
        r@.subrange(12, 14) == seq![0x08u8, 0x06],
        r@.subrange(20, 22) == seq![0x00u8, 0x01],
{
    let target_mac = MacAddress::broadcast();
    let mut out: Vec<u8> = Vec::new();
    push_mac(&mut out, target_mac);
    push_mac(&mut out, source_mac);
    out.push(0x08);
    out.push(0x06);
    // hardware type, protocol type, address lengths, operation
    out.push(0x00);
    out.push(0x01);
    out.push(0x08);
    out.push(0x00);
    out.push(6);
    out.push(4);
    out.push(0x00);
    out.push(0x01);
    push_mac(&mut out, source_mac);
    push_ip(&mut out, source_ip);
    push_mac(&mut out, target_mac);
    push_ip(&mut out, target_ip);
    assert(out@ =~= arp_request_frame(source_mac, source_ip, target_ip));
    assert(out@.subrange(0, 6) =~= broadcast_bytes());
    assert(out@.subrange(6, 12) =~= source_mac@);
    assert(out@.subrange(12, 14) =~= seq![0x08u8, 0x06]);
    assert(out@.subrange(20, 22) =~= seq![0x00u8, 0x01]);
    out
}

/// Classifies a frame read from the link.
pub fn classify_inbound(bytes: &[u8]) -> (r: InboundFrame)
    ensures
        r == classify_spec(bytes@),
{
    if bytes.len() >= ETHERNET_HEADER_LEN && bytes[12] == 0x08 && bytes[13] == 0x06 {
        InboundFrame::ArpFrame {
            source_mac: MacAddress(bytes[6], bytes[7], bytes[8], bytes[9], bytes[10], bytes[11]),
        }
    } else {
        InboundFrame::Ignore
    }
}

/// The frames of one sweep: an ARP request for each target, in order.
pub fn arp_sweep(source_mac: MacAddress, source_ip: Ipv4, targets: &Vec<Ipv4>) -> (r: Vec<Vec<u8>>)
    ensures
        r@.len() == targets@.len(),
        forall|i: int|
            0 <= i < targets@.len() ==> #[trigger] r@[i]@ == arp_request_frame(
                source_mac,
                source_ip,
                targets@[i],
            ),
{
    let mut out: Vec<Vec<u8>> = Vec::new();
    let mut i: usize = 0;
    while i < targets.len()
        invariant
            i <= targets@.len(),
            out@.len() == i,
            forall|j: int|
                0 <= j < i ==> #[trigger] out@[j]@ == arp_request_frame(
                    source_mac,
                    source_ip,
                    targets@[j],
                ),
        decreases targets@.len() - i,
    {
        let frame = gen_arp_request(source_mac, source_ip, targets[i]);
        out.push(frame);
        i = i + 1;
    }
    out
}

/// Reading back a generated request gives an ARP frame from the address
/// that built it.
pub proof fn lemma_request_classifies_as_arp(source_mac: MacAddress, source_ip: Ipv4, target_ip: Ipv4)
    ensures
        classify_spec(arp_request_frame(source_mac, source_ip, target_ip))
            == (InboundFrame::ArpFrame { source_mac }),
{
    let f = arp_request_frame(source_mac, source_ip, target_ip);
    assert(f[6] == source_mac.0 && f[7] == source_mac.1 && f[8] == source_mac.2);
    assert(f[9] == source_mac.3 && f[10] == source_mac.4 && f[11] == source_mac.5);
    assert(f[12] == 0x08 && f[13] == 0x06);
}

} // verus!
