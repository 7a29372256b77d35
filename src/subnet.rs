use vstd::prelude::*;

use crate::addr::Ipv4;
use vstd::arithmetic::power2::pow2;

verus! {

/// The network address of the subnet of `ip` under `mask`.
pub open spec fn network_of(ip: u32, mask: u32) -> u32 {
    ip & mask
}

/// The broadcast address of the subnet of `ip` under `mask`.
pub open spec fn broadcast_of(ip: u32, mask: u32) -> u32 {
    ip | !mask
}

/// The host addresses of the subnet, network and broadcast left out.
pub open spec fn host_range(ip: u32, mask: u32) -> Seq<int> {
    let first = network_of(ip, mask) as int + 1;
    let last = broadcast_of(ip, mask) as int;
    Seq::new(if last > first { (last - first) as nat } else { 0 }, |i: int| first + i)
}

proof fn lemma_broadcast_above_network(ip: u32, mask: u32)
    ensures
        ip & mask <= ip | !mask,
        (ip | !mask) - (ip & mask) == !mask,
{
    assert(ip & mask <= ip | !mask) by (bit_vector);
    assert((ip | !mask) - (ip & mask) == !mask) by (bit_vector)
        requires
            ip & mask <= ip | !mask,
    ;
}

/// Every host address of the subnet of `source_ip` under `mask`, in
/// ascending order; empty for a mask that leaves fewer than two host bits.
pub fn compute_subnet_ips(source_ip: Ipv4, mask: Ipv4) -> (r: Vec<Ipv4>)
    ensures
        r@.len() == host_range(source_ip@, mask@).len(),
        forall|i: int|
            0 <= i < r@.len() ==> #[trigger] r@[i]@ as int == host_range(source_ip@, mask@)[i],
{
    let network: u32 = source_ip.0 & mask.0;
    let broadcast: u32 = source_ip.0 | !mask.0;
    proof {
        lemma_broadcast_above_network(source_ip.0, mask.0);
    }
    let mut out: Vec<Ipv4> = Vec::new();
    if broadcast > network {
        let mut raw: u32 = network + 1;
        while raw < broadcast
            invariant
                network < raw <= broadcast,
                out@.len() == raw - network - 1,
                forall|j: int| 0 <= j < out@.len() ==> #[trigger] out@[j]@ == network + 1 + j,
            decreases broadcast - raw,
        {
            out.push(Ipv4(raw));
            raw = raw + 1;
        }
    }
    out
}

/// For a mask whose host part is `host_bits` low bits, with at least two of
/// them, the host addresses rise strictly, leave out the network and the
/// broadcast address, and number `2^host_bits - 2`.
pub proof fn lemma_subnet_hosts(ip: u32, mask: u32, host_bits: nat)
    requires
        2 <= host_bits <= 32,
        !mask as int == pow2(host_bits) - 1,
    ensures
        host_range(ip, mask).len() == pow2(host_bits) - 2,
        forall|i: int, j: int|
            0 <= i < j < host_range(ip, mask).len() ==> host_range(ip, mask)[i] < host_range(ip, mask)[j],
        !host_range(ip, mask).contains(network_of(ip, mask) as int),
        !host_range(ip, mask).contains(broadcast_of(ip, mask) as int),
{
    lemma_broadcast_above_network(ip, mask);
    vstd::arithmetic::power2::lemma2_to64();
    if host_bits > 2 {
        vstd::arithmetic::power2::lemma_pow2_strictly_increases(2, host_bits);
    }
    let h = host_range(ip, mask);
    if h.contains(network_of(ip, mask) as int) {
        let k = choose|k: int| 0 <= k < h.len() && h[k] == network_of(ip, mask) as int;
        assert(h[k] == network_of(ip, mask) as int + 1 + k);
    }
    if h.contains(broadcast_of(ip, mask) as int) {
        let k = choose|k: int| 0 <= k < h.len() && h[k] == broadcast_of(ip, mask) as int;
        assert(h[k] == network_of(ip, mask) as int + 1 + k);
    }
}

} // verus!
