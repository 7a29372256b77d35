use vstd::prelude::*;

verus! {

/// A 48-bit hardware address, its six bytes in transmission order.
#[derive(Clone, Copy, Debug, PartialEq, Eq, Structural)]
pub struct MacAddress(pub u8, pub u8, pub u8, pub u8, pub u8, pub u8);

impl MacAddress {
    /// The six bytes of the address.
    pub open spec fn view(&self) -> Seq<u8> {
        seq![self.0, self.1, self.2, self.3, self.4, self.5]
    }

    pub open spec fn is_broadcast_spec(&self) -> bool {
        self@ == seq![0xffu8, 0xff, 0xff, 0xff, 0xff, 0xff]
    }

    /// The address `FF:FF:FF:FF:FF:FF`.
    pub fn broadcast() -> (r: MacAddress)
        ensures
            r.is_broadcast_spec(),
    {
        MacAddress(0xff, 0xff, 0xff, 0xff, 0xff, 0xff)
    }

    pub fn is_broadcast(&self) -> (r: bool)
        ensures
            r == self.is_broadcast_spec(),
    {
        let r = self.0 == 0xff && self.1 == 0xff && self.2 == 0xff && self.3 == 0xff
            && self.4 == 0xff && self.5 == 0xff;
        assert(r == (self@ =~= seq![0xffu8, 0xff, 0xff, 0xff, 0xff, 0xff]));
        r
    }
}

/// An IPv4 address as a 32-bit number, the first dotted-quad octet most significant.
#[derive(Clone, Copy, Debug, PartialEq, Eq, Structural)]
pub struct Ipv4(pub u32);

/// The number that the four octets `a.b.c.d` stand for.
pub open spec fn octets_value(a: u8, b: u8, c: u8, d: u8) -> int {
    a as int * 0x1000000 + b as int * 0x10000 + c as int * 0x100 + d as int
}

/// The four octets of `v`, most significant first.
pub open spec fn value_octets(v: u32) -> Seq<u8> {
    seq![
        (v / 0x1000000) as u8,
        ((v / 0x10000) % 0x100) as u8,
        ((v / 0x100) % 0x100) as u8,
        (v % 0x100) as u8,
    ]
}

impl Ipv4 {
    pub open spec fn view(&self) -> u32 {
        self.0
    }

    /// The four octets of the address in network order.
    pub open spec fn octets_spec(&self) -> Seq<u8> {
        value_octets(self.0)
    }

    /// The address `a.b.c.d`.
    pub fn new(a: u8, b: u8, c: u8, d: u8) -> (r: Ipv4)
        ensures
            r@ as int == octets_value(a, b, c, d),
            r.octets_spec() == seq![a, b, c, d],
    {
        let v: u32 = a as u32 * 0x1000000 + b as u32 * 0x10000 + c as u32 * 0x100 + d as u32;
        assert(v / 0x1000000 == a as u32) by (nonlinear_arith)
            requires v == a as u32 * 0x1000000 + b as u32 * 0x10000 + c as u32 * 0x100 + d as u32,
                a <= 255, b <= 255, c <= 255, d <= 255;
        assert((v / 0x10000) % 0x100 == b as u32) by (nonlinear_arith)
            requires v == a as u32 * 0x1000000 + b as u32 * 0x10000 + c as u32 * 0x100 + d as u32,
                a <= 255, b <= 255, c <= 255, d <= 255;
        assert((v / 0x100) % 0x100 == c as u32) by (nonlinear_arith)
            requires v == a as u32 * 0x1000000 + b as u32 * 0x10000 + c as u32 * 0x100 + d as u32,
                a <= 255, b <= 255, c <= 255, d <= 255;
        assert(v % 0x100 == d as u32) by (nonlinear_arith)
            requires v == a as u32 * 0x1000000 + b as u32 * 0x10000 + c as u32 * 0x100 + d as u32,
                a <= 255, b <= 255, c <= 255, d <= 255;
        let r = Ipv4(v);
        assert(r.octets_spec() =~= seq![a, b, c, d]);
        r
    }

    /// The four octets of the address in network order.
    pub fn octets(&self) -> (r: [u8; 4])
        ensures
            r@ == self.octets_spec(),
    {
        let v = self.0;
        let r = [(v / 0x1000000) as u8, ((v / 0x10000) % 0x100) as u8, ((v / 0x100) % 0x100) as u8, (v % 0x100) as u8];
        assert(r@ =~= self.octets_spec());
        r
    }
}

} // verus!
