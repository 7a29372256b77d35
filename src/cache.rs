use vstd::prelude::*;

use crate::addr::MacAddress;
use crate::frame::{classify_inbound, classify_spec, InboundFrame};

verus! {

/// One observed address with the monotonic time it was last seen, in the
/// unit that the caller also gives timeouts in.
#[derive(Clone, Copy, Debug)]
pub struct CacheEntry {
    pub mac: MacAddress,
    pub seen_at: u64,
}

/// Time between two sweeps of the janitor, in milliseconds.
pub const JANITOR_PERIOD_MILLIS: u64 = 5000;

/// Whether an address last seen at `seen_at` has expired at time `now`.
pub open spec fn is_expired(seen_at: u64, now: u64, timeout: u64) -> bool {
    now as int - seen_at as int >= timeout as int
}

/// The entries of `m` that have not expired at time `now`.
pub open spec fn unexpired(m: Map<MacAddress, u64>, now: u64, timeout: u64) -> Map<MacAddress, u64> {
    m.restrict(m.dom().filter(|k: MacAddress| !is_expired(m[k], now, timeout)))
}

/// What a frame read from the link does to the cache of a host whose own
/// address is `own_mac`: an ARP frame from another address refreshes it.
pub open spec fn after_frame(
    m: Map<MacAddress, u64>,
    bytes: Seq<u8>,
    own_mac: MacAddress,
    now: u64,
) -> Map<MacAddress, u64> {
    match classify_spec(bytes) {
        InboundFrame::ArpFrame { source_mac } => if source_mac != own_mac {
            m.insert(source_mac, now)
        } else {
            m
        },
        InboundFrame::Ignore => m,
    }
}

/// The addresses seen recently on the link, each with the time it was last seen.
pub struct MacCache {
    entries: Vec<CacheEntry>,
}

impl MacCache {
    /// The cache as a map from address to the time it was last seen.
    pub closed spec fn view(&self) -> Map<MacAddress, u64> {
        Map::new(
            |m: MacAddress| exists|i: int| 0 <= i < self.entries@.len() && self.entries@[i].mac == m,
            |m: MacAddress|
                self.entries@[choose|i: int|
                    0 <= i < self.entries@.len() && self.entries@[i].mac == m].seen_at,
        )
    }

    /// Each address stands in at most one entry.
    pub closed spec fn wf(&self) -> bool {
        forall|i: int, j: int|
            0 <= i < self.entries@.len() && 0 <= j < self.entries@.len() && i != j
                ==> self.entries@[i].mac != self.entries@[j].mac
    }

    proof fn lemma_entry(&self, k: int)
        requires
            self.wf(),
            0 <= k < self.entries@.len(),
        ensures
            self@.contains_key(self.entries@[k].mac),
            self@[self.entries@[k].mac] == self.entries@[k].seen_at,
    {
        let m = self.entries@[k].mac;
        assert(exists|i: int| 0 <= i < self.entries@.len() && self.entries@[i].mac == m);
        let c = choose|i: int| 0 <= i < self.entries@.len() && self.entries@[i].mac == m;
        assert(c == k);
    }

    proof fn lemma_size(&self)
        requires
            self.wf(),
        ensures
            self@.dom().finite(),
            self@.dom().len() == self.entries@.len(),
    {
        let keys = self.entries@.map_values(|e: CacheEntry| e.mac);
        assert(keys.no_duplicates()) by {
            assert forall|i: int, j: int| 0 <= i < keys.len() && 0 <= j < keys.len() && i != j
                implies keys[i] != keys[j] by {}
        }
        assert(self@.dom() =~= keys.to_set()) by {
            assert forall|m: MacAddress| self@.dom().contains(m) implies keys.to_set().contains(m) by {
                let i = choose|i: int| 0 <= i < self.entries@.len() && self.entries@[i].mac == m;
                assert(keys[i] == m);
            }
            assert forall|m: MacAddress| keys.to_set().contains(m) implies self@.dom().contains(m) by {
                let i = choose|i: int| 0 <= i < keys.len() && keys[i] == m;
                assert(self.entries@[i].mac == m);
            }
        }
        keys.unique_seq_to_set();
    }

    /// An empty cache.
    pub fn new() -> (r: MacCache)
        ensures
            r.wf(),
            r@ == Map::<MacAddress, u64>::empty(),
            r@.dom().finite(),
    {
        let r = MacCache { entries: Vec::new() };
        assert(r@ =~= Map::<MacAddress, u64>::empty());
        proof {
            r.lemma_size();
        }
        r
    }

    fn position(&self, mac: MacAddress) -> (r: Option<usize>)
        requires
            self.wf(),
        ensures
            match r {
                Some(k) => k < self.entries@.len() && self.entries@[k as int].mac == mac,
                None => !self@.contains_key(mac),
            },
    {
        let mut i: usize = 0;
        while i < self.entries.len()
            invariant
                i <= self.entries@.len(),
                forall|j: int| 0 <= j < i ==> self.entries@[j].mac != mac,
            decreases self.entries@.len() - i,
        {
            if self.entries[i].mac == mac {
                return Some(i);
            }
            i = i + 1;
        }
        None
    }

    /// Records that `mac` was seen at time `now`, adding it or refreshing it.
    pub fn add(&mut self, mac: MacAddress, now: u64)
        requires
            old(self).wf(),
        ensures
            final(self).wf(),
            final(self)@ == old(self)@.insert(mac, now),
            final(self)@.dom().finite(),
    {
        let ghost pre = *self;
        let entry = CacheEntry { mac, seen_at: now };
        match self.position(mac) {
            Some(k) => {
                self.entries.set(k, entry);
                proof {
                    assert forall|m: MacAddress| #[trigger] self@.contains_key(m) == pre@.insert(mac, now).contains_key(m) by {
                        if m != mac && self@.contains_key(m) {
                            let i = choose|i: int| 0 <= i < self.entries@.len() && self.entries@[i].mac == m;
                            assert(pre.entries@[i].mac == m);
                        }
                        if m != mac && pre@.contains_key(m) {
                            let i = choose|i: int| 0 <= i < pre.entries@.len() && pre.entries@[i].mac == m;
                            assert(self.entries@[i].mac == m);
                        }
                        if m == mac {
                            assert(self.entries@[k as int].mac == m);
                        }
                    }
                    assert forall|m: MacAddress| #[trigger] self@.contains_key(m) implies self@[m] == pre@.insert(mac, now)[m] by {
                        let i = choose|i: int| 0 <= i < self.entries@.len() && self.entries@[i].mac == m;
                        self.lemma_entry(i);
                        if m != mac {
                            pre.lemma_entry(i);
                        }
                    }
                    assert(self@ =~= pre@.insert(mac, now));
                }
            },
            None => {
                self.entries.push(entry);
                proof {
                    let n = pre.entries@.len() as int;
                    assert forall|m: MacAddress| #[trigger] self@.contains_key(m) == pre@.insert(mac, now).contains_key(m) by {
                        if m != mac && self@.contains_key(m) {
                            let i = choose|i: int| 0 <= i < self.entries@.len() && self.entries@[i].mac == m;
                            assert(pre.entries@[i].mac == m);
                        }
                        if m != mac && pre@.contains_key(m) {
                            let i = choose|i: int| 0 <= i < pre.entries@.len() && pre.entries@[i].mac == m;
                            assert(self.entries@[i].mac == m);
                        }
                        if m == mac {
                            assert(self.entries@[n].mac == m);
                        }
                    }
                    assert forall|m: MacAddress| #[trigger] self@.contains_key(m) implies self@[m] == pre@.insert(mac, now)[m] by {
                        let i = choose|i: int| 0 <= i < self.entries@.len() && self.entries@[i].mac == m;
                        self.lemma_entry(i);
                        if m != mac {
                            pre.lemma_entry(i);
                        }
                    }
                    assert(self@ =~= pre@.insert(mac, now));
                }
            },
        }
        proof {
            self.lemma_size();
        }
    }

    /// Forgets `mac`, if it is there.
    pub fn delete(&mut self, mac: MacAddress)
        requires
            old(self).wf(),
        ensures
            final(self).wf(),
            final(self)@ == old(self)@.remove(mac),
            final(self)@.dom().finite(),
    {
        let ghost pre = *self;
        match self.position(mac) {
            Some(k) => {
                self.entries.remove(k);
                proof {
                    assert forall|i: int| 0 <= i < self.entries@.len() implies #[trigger] self.entries@[i]
                        == pre.entries@[if i < k { i } else { i + 1 }] by {}
                    assert forall|m: MacAddress| #[trigger] self@.contains_key(m) == pre@.remove(mac).contains_key(m) by {
                        if self@.contains_key(m) {
                            let i = choose|i: int| 0 <= i < self.entries@.len() && self.entries@[i].mac == m;
                            let j = if i < k { i } else { i + 1 };
                            assert(pre.entries@[j].mac == m);
                        }
                        if m != mac && pre@.contains_key(m) {
                            let j = choose|j: int| 0 <= j < pre.entries@.len() && pre.entries@[j].mac == m;
                            let i = if j < k { j } else { j - 1 };
                            assert(self.entries@[i].mac == m);
                        }
                    }
                    assert forall|m: MacAddress| #[trigger] self@.contains_key(m) implies self@[m] == pre@[m] by {
                        let i = choose|i: int| 0 <= i < self.entries@.len() && self.entries@[i].mac == m;
                        self.lemma_entry(i);
                        pre.lemma_entry(if i < k { i } else { i + 1 });
                    }
                    assert(self@ =~= pre@.remove(mac));
                }
            },
            None => {
                assert(self@ =~= pre@.remove(mac));
            },
        }
        proof {
            self.lemma_size();
        }
    }

    /// The number of addresses in the cache.
    pub fn size(&self) -> (r: usize)
        requires
            self.wf(),
        ensures
            r == self@.len(),
    {
        proof {
            self.lemma_size();
        }
        self.entries.len()
    }

    /// Every entry, each address once, with the time it was last seen.
    pub fn iter(&self) -> (r: Vec<CacheEntry>)
        requires
            self.wf(),
        ensures
            r@.len() == self@.len(),
            forall|i: int| 0 <= i < r@.len() ==> #[trigger] self@.contains_key(r@[i].mac)
                && self@[r@[i].mac] == r@[i].seen_at,
            forall|m: MacAddress| #[trigger] self@.contains_key(m) ==> exists|i: int|
                0 <= i < r@.len() && r@[i].mac == m,
    {
        proof {
            self.lemma_size();
            assert forall|i: int| 0 <= i < self.entries@.len() implies #[trigger] self@.contains_key(self.entries@[i].mac)
                && self@[self.entries@[i].mac] == self.entries@[i].seen_at by {
                self.lemma_entry(i);
            }
        }
        self.entries.clone()
    }

    /// The addresses that have expired at time `now`; the cache is left as it is.
    pub fn expired(&self, now: u64, timeout: u64) -> (r: Vec<MacAddress>)
        requires
            self.wf(),
        ensures
            forall|m: MacAddress| #[trigger] r@.contains(m) <==> (self@.contains_key(m)
                && is_expired(self@[m], now, timeout)),
    {
        let mut out: Vec<MacAddress> = Vec::new();
        let mut i: usize = 0;
        while i < self.entries.len()
            invariant
                self.wf(),
                i <= self.entries@.len(),
                forall|m: MacAddress| #[trigger] out@.contains(m) <==> exists|j: int|
                    0 <= j < i && self.entries@[j].mac == m && is_expired(self.entries@[j].seen_at, now, timeout),
            decreases self.entries@.len() - i,
        {
            let e = self.entries[i];
            let ghost before = out@;
            if now as u128 >= e.seen_at as u128 + timeout as u128 {
                out.push(e.mac);
                proof {
                    assert forall|m: MacAddress| #[trigger] out@.contains(m) <==> exists|j: int|
                        0 <= j < i + 1 && self.entries@[j].mac == m && is_expired(self.entries@[j].seen_at, now, timeout) by {
                        if out@.contains(m) && m != e.mac {
                            let k = choose|k: int| 0 <= k < out@.len() && out@[k] == m;
                            assert(before[k] == m);
                            assert(before.contains(m));
                        }
                        if m == e.mac {
                            assert(out@[before.len() as int] == m);
                            assert(self.entries@[i as int].mac == m
                                && is_expired(self.entries@[i as int].seen_at, now, timeout));
                        }
                        if exists|j: int| 0 <= j < i + 1 && self.entries@[j].mac == m
                            && is_expired(self.entries@[j].seen_at, now, timeout) {
                            let j = choose|j: int| 0 <= j < i + 1 && self.entries@[j].mac == m
                                && is_expired(self.entries@[j].seen_at, now, timeout);
                            if j < i {
                                assert(before.contains(m));
                                let k = choose|k: int| 0 <= k < before.len() && before[k] == m;
                                assert(out@[k] == m);
                            }
                        }
                    }
                }
            } else {
                proof {
                    assert forall|m: MacAddress| #[trigger] out@.contains(m) <==> exists|j: int|
                        0 <= j < i + 1 && self.entries@[j].mac == m && is_expired(self.entries@[j].seen_at, now, timeout) by {
                        if exists|j: int| 0 <= j < i + 1 && self.entries@[j].mac == m
                            && is_expired(self.entries@[j].seen_at, now, timeout) {
                            let j = choose|j: int| 0 <= j < i + 1 && self.entries@[j].mac == m
                                && is_expired(self.entries@[j].seen_at, now, timeout);
                            assert(j != i);
                        }
                    }
                }
            }
            i = i + 1;
        }
        proof {
            assert forall|m: MacAddress| #[trigger] out@.contains(m) <==> (self@.contains_key(m)
                && is_expired(self@[m], now, timeout)) by {
                if out@.contains(m) {
                    let j = choose|j: int| 0 <= j < self.entries@.len() && self.entries@[j].mac == m
                        && is_expired(self.entries@[j].seen_at, now, timeout);
                    self.lemma_entry(j);
                }
                if self@.contains_key(m) {
                    let j = choose|j: int| 0 <= j < self.entries@.len() && self.entries@[j].mac == m;
                    self.lemma_entry(j);
                }
            }
        }
        out
    }

    /// Drops every address that has expired at time `now`, and returns them.
    /// The expired addresses are collected first and deleted after, within
    /// the one call.
    pub fn sweep_expired(&mut self, now: u64, timeout: u64) -> (r: Vec<MacAddress>)
        requires
            old(self).wf(),
        ensures
            final(self).wf(),
            final(self)@ == unexpired(old(self)@, now, timeout),
            final(self)@.dom().finite(),
            forall|m: MacAddress| #[trigger] r@.contains(m) <==> (old(self)@.contains_key(m)
                && is_expired(old(self)@[m], now, timeout)),
    {
        let ghost pre = self@;
        let stale = self.expired(now, timeout);
        let mut i: usize = 0;
        while i < stale.len()
            invariant
                self.wf(),
                i <= stale@.len(),
                forall|m: MacAddress| #[trigger] self@.contains_key(m) <==> (pre.contains_key(m)
                    && !stale@.subrange(0, i as int).contains(m)),
                forall|m: MacAddress| #[trigger] self@.contains_key(m) ==> self@[m] == pre[m],
            decreases stale@.len() - i,
        {
            let ghost before = self@;
            self.delete(stale[i]);
            proof {
                let s0 = stale@.subrange(0, i as int);
                let s1 = stale@.subrange(0, i + 1);
                assert(s1 =~= s0.push(stale@[i as int]));
                assert forall|m: MacAddress| #[trigger] self@.contains_key(m) <==> (pre.contains_key(m)
                    && !s1.contains(m)) by {
                    if s0.contains(m) {
                        let k = choose|k: int| 0 <= k < s0.len() && s0[k] == m;
                        assert(s1[k] == m);
                    }
                    if s1.contains(m) && m != stale@[i as int] {
                        let k = choose|k: int| 0 <= k < s1.len() && s1[k] == m;
                        assert(s0[k] == m);
                    }
                    if m == stale@[i as int] {
                        assert(s1[i as int] == m);
                    }
                }
            }
            i = i + 1;
        }
        proof {
            assert(stale@.subrange(0, stale@.len() as int) =~= stale@);
            assert(self@ =~= unexpired(pre, now, timeout));
            self.lemma_size();
        }
        stale
    }

    /// Handles a frame read from the link by a host whose own address is
    /// `own_mac`: an ARP frame from another address is recorded as seen at
    /// `now`; any other frame is left out. Returns whether it was recorded.
    pub fn record_frame(&mut self, bytes: &[u8], own_mac: MacAddress, now: u64) -> (r: bool)
        requires
            old(self).wf(),
        ensures
            final(self).wf(),
            final(self)@ == after_frame(old(self)@, bytes@, own_mac, now),
            final(self)@.dom().finite(),
            r == (classify_spec(bytes@) matches InboundFrame::ArpFrame { source_mac }
                && source_mac != own_mac),
    {
        let recorded = match classify_inbound(bytes) {
            InboundFrame::ArpFrame { source_mac } => {
                if source_mac != own_mac {
                    self.add(source_mac, now);
                    true
                } else {
                    false
                }
            },
            InboundFrame::Ignore => false,
        };
        proof {
            self.lemma_size();
        }
        recorded
    }
}

/// An address last refreshed at least `timeout` before `now` is
/// gone after a sweep at `now`, and the swept cache is what it would be had
/// that address never been recorded.
pub proof fn lemma_sweep_drops_stale(
    m: Map<MacAddress, u64>,
    mac: MacAddress,
    now: u64,
    timeout: u64,
)
    requires
        m.contains_key(mac),
        m[mac] as int + timeout as int <= now as int,
    ensures
        !unexpired(m, now, timeout).contains_key(mac),
        unexpired(m, now, timeout) == unexpired(m.remove(mac), now, timeout),
{
    assert(unexpired(m, now, timeout) =~= unexpired(m.remove(mac), now, timeout));
}

/// The time of the first sweep at or after `t`, where the janitor sweeps at
/// `start`, `start + period`, `start + 2 * period`, and so on.
pub open spec fn first_sweep_from(start: int, period: int, t: int) -> int {
    if t <= start {
        start
    } else {
        start + ((t - start + period - 1) / period) * period
    }
}

/// With the janitor sweeping every `period` from `start`, an address last
/// refreshed at `m[mac]`, no earlier than `start`, expires at the first sweep
/// at or after `m[mac] + timeout`; that sweep comes before
/// `m[mac] + timeout + period`, and every sweep from then on leaves it out.
pub proof fn lemma_gone_within_one_period(
    m: Map<MacAddress, u64>,
    mac: MacAddress,
    start: int,
    period: int,
    timeout: u64,
)
    requires
        period > 0,
        m.contains_key(mac),
        start <= m[mac],
    ensures
        m[mac] + timeout <= first_sweep_from(start, period, m[mac] + timeout),
        first_sweep_from(start, period, m[mac] + timeout) < m[mac] + timeout + period,
        forall|now: u64|
            now >= first_sweep_from(start, period, m[mac] + timeout) ==> !(#[trigger] unexpired(
                m,
                now,
                timeout,
            )).contains_key(mac),
{
    let t = m[mac] + timeout;
    let d = t - start;
    let q = (d + period - 1) / period;
    let r = (d + period - 1) % period;
    assert(d + period - 1 == q * period + r && 0 <= r < period) by {
        vstd::arithmetic::div_mod::lemma_fundamental_div_mod(d + period - 1, period);
    }
    assert(d <= q * period < d + period) by (nonlinear_arith)
        requires
            d + period - 1 == q * period + r,
            0 <= r < period,
    ;
}

} // verus!
