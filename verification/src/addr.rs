//! Plain-value model of IP addresses and CIDR scopes.
//!
//! A v4 address is its 32 address bits, a v6 address its 128 bits. A scope
//! is a base address together with a prefix length; an address lies in the
//! scope when it has the same family and agrees with the base address on the
//! first `prefix` bits.

use vstd::prelude::*;
use crate::AddressFamily;

verus! {

#[derive(Clone, Copy, Debug, PartialEq, Eq, Structural)]
pub enum Addr {
    V4(u32),
    V6(u128),
}

impl Addr {
    pub open spec fn spec_family(&self) -> AddressFamily {
        match self {
            Addr::V4(_) => AddressFamily::IPv4,
            Addr::V6(_) => AddressFamily::IPv6,
        }
    }

    #[verifier::when_used_as_spec(spec_family)]
    pub fn family(&self) -> (r: AddressFamily)
        ensures
            r == self.spec_family(),
    {
        match self {
            Addr::V4(_) => AddressFamily::IPv4,
            Addr::V6(_) => AddressFamily::IPv6,
        }
    }
}

/// A CIDR scope: all addresses of `addr`'s family that share its first
/// `prefix` bits.
#[derive(Clone, Copy, Debug, PartialEq, Eq, Structural)]
pub struct Cidr {
    pub addr: Addr,
    pub prefix: u8,
}

/// Whether `a` agrees with `b` on the first `p` of 32 bits.
pub open spec fn prefix_match_v4(a: u32, b: u32, p: u8) -> bool {
    if p == 0 {
        true
    } else if p >= 32 {
        a == b
    } else {
        a >> ((32 - p) as u32) == b >> ((32 - p) as u32)
    }
}

/// Whether `a` agrees with `b` on the first `p` of 128 bits.
pub open spec fn prefix_match_v6(a: u128, b: u128, p: u8) -> bool {
    if p == 0 {
        true
    } else if p >= 128 {
        a == b
    } else {
        a >> ((128 - p) as u128) == b >> ((128 - p) as u128)
    }
}

/// Whether address `a` lies in scope `c`: same family, first `c.prefix`
/// bits equal.
pub open spec fn addr_in_cidr(a: Addr, c: Cidr) -> bool {
    match (a, c.addr) {
        (Addr::V4(x), Addr::V4(b)) => prefix_match_v4(x, b, c.prefix),
        (Addr::V6(x), Addr::V6(b)) => prefix_match_v6(x, b, c.prefix),
        _ => false,
    }
}

impl Cidr {
    /// A scope is well formed when its prefix length does not exceed the
    /// family's address width.
    pub open spec fn wf(self) -> bool {
        match self.addr {
            Addr::V4(_) => self.prefix <= 32,
            Addr::V6(_) => self.prefix <= 128,
        }
    }

    pub open spec fn spec_family(&self) -> AddressFamily {
        self.addr.spec_family()
    }

    #[verifier::when_used_as_spec(spec_family)]
    pub fn family(&self) -> (r: AddressFamily)
        ensures
            r == self.spec_family(),
    {
        self.addr.family()
    }

    /// The default v4 scope: every v4 address.
    pub fn v4_default() -> (r: Cidr)
        ensures
            r == (Cidr { addr: Addr::V4(0), prefix: 0u8 }),
    {
        Cidr { addr: Addr::V4(0), prefix: 0 }
    }

    /// The default v6 scope: global unicast, the first three bits `001`.
    pub fn v6_default() -> (r: Cidr)
        ensures
            r == (Cidr { addr: Addr::V6(0x20000000000000000000000000000000), prefix: 3u8 }),
    {
        Cidr { addr: Addr::V6(0x20000000000000000000000000000000), prefix: 3 }
    }

    pub fn contains(&self, a: &Addr) -> (r: bool)
        requires
            self.wf(),
        ensures
            r == addr_in_cidr(*a, *self),
    {
        match (a, &self.addr) {
            (Addr::V4(x), Addr::V4(b)) => {
                if self.prefix == 0 {
                    true
                } else if self.prefix >= 32 {
                    x == b
                } else {
                    let s: u32 = (32 - self.prefix) as u32;
                    (*x >> s) == (*b >> s)
                }
            }
            (Addr::V6(x), Addr::V6(b)) => {
                if self.prefix == 0 {
                    true
                } else if self.prefix >= 128 {
                    x == b
                } else {
                    let s: u32 = (128 - self.prefix) as u32;
                    (*x >> s) == (*b >> s)
                }
            }
            _ => false,
        }
    }
}

/// What `cidr::IpCidr::from_str` parses a string into: `None` on a parse
/// error, else the family (`true` for v4), the address bits (a v4 address
/// in the low 32 bits) and the prefix length.
pub uninterp spec fn cidr_of(s: Seq<char>) -> Option<(bool, u128, u8)>;

/// Relies on cidr's `IpCidr::from_str` (with `first_address` and
/// `network_length` reading the result): the outcome depends on the input
/// string alone, and a parsed scope never has a prefix length beyond its
/// family's address width.
#[verifier::external_body]
pub fn parse_cidr(s: &str) -> (r: Option<Cidr>)
    ensures
        match r {
            None => cidr_of(s@) is None,
            Some(c) => {
                &&& c.wf()
                &&& match c.addr {
                    Addr::V4(b) => cidr_of(s@) == Some((true, b as u128, c.prefix)),
                    Addr::V6(b) => cidr_of(s@) == Some((false, b, c.prefix)),
                }
            },
        },
{
    match <cidr::IpCidr as core::str::FromStr>::from_str(s) {
        Ok(c) => {
            let prefix = c.network_length();
            let addr = match c.first_address() {
                core::net::IpAddr::V4(a) => Addr::V4(a.to_bits()),
                core::net::IpAddr::V6(a) => Addr::V6(a.to_bits()),
            };
            Some(Cidr { addr, prefix })
        }
        Err(_) => None,
    }
}

/// The mask keeping the upper 64 bits of a v6 address: its /64 prefix.
pub open spec fn v6_high_mask() -> u128 {
    0xffff_ffff_ffff_ffff_0000_0000_0000_0000
}

/// The mask keeping the lower 64 bits of a v6 address: its interface
/// identifier.
pub open spec fn v6_low_mask() -> u128 {
    0x0000_0000_0000_0000_ffff_ffff_ffff_ffff
}

/// The neighbor address derived from a locally learned v6 address and a
/// configured host template: the prefix of the former, the interface
/// identifier of the latter.
pub open spec fn spliced_v6(prefix_addr: u128, template: u128) -> u128 {
    (prefix_addr & v6_high_mask()) | (template & v6_low_mask())
}

pub fn neighbor_address(current: u128, template: u128) -> (r: u128)
    ensures
        r == spliced_v6(current, template),
{
    (current & 0xffff_ffff_ffff_ffff_0000_0000_0000_0000)
        | (template & 0x0000_0000_0000_0000_ffff_ffff_ffff_ffff)
}

/// The 16-bit segment of a v6 address at position `i`, counting the
/// leftmost as 0.
pub open spec fn v6_segment(a: u128, i: int) -> u16
    recommends
        0 <= i < 8,
{
    ((a >> ((7 - i) * 16)) & 0xffff) as u16
}

/// The derived neighbor address agrees with the learned address on the four
/// leading 16-bit segments and with the template on the four trailing ones.
pub proof fn lemma_neighbor_segments(p: u128, t: u128)
    ensures
        forall|i: int| 0 <= i < 4 ==> v6_segment(spliced_v6(p, t), i) == v6_segment(p, i),
        forall|i: int| 4 <= i < 8 ==> v6_segment(spliced_v6(p, t), i) == v6_segment(t, i),
{
    let s = spliced_v6(p, t);
    assert(s == (p & 0xffff_ffff_ffff_ffff_0000_0000_0000_0000)
        | (t & 0x0000_0000_0000_0000_ffff_ffff_ffff_ffff));
    assert forall|i: int| 0 <= i < 4 implies v6_segment(s, i) == v6_segment(p, i) by {
        let x = (p & 0xffff_ffff_ffff_ffff_0000_0000_0000_0000)
            | (t & 0x0000_0000_0000_0000_ffff_ffff_ffff_ffff);
        if i == 0 {
            assert((x >> 112) & 0xffff == (p >> 112) & 0xffff) by (bit_vector)
                requires
                    x == (p & 0xffff_ffff_ffff_ffff_0000_0000_0000_0000)
                        | (t & 0x0000_0000_0000_0000_ffff_ffff_ffff_ffff),
            ;
        } else if i == 1 {
            assert((x >> 96) & 0xffff == (p >> 96) & 0xffff) by (bit_vector)
                requires
                    x == (p & 0xffff_ffff_ffff_ffff_0000_0000_0000_0000)
                        | (t & 0x0000_0000_0000_0000_ffff_ffff_ffff_ffff),
            ;
        } else if i == 2 {
            assert((x >> 80) & 0xffff == (p >> 80) & 0xffff) by (bit_vector)
                requires
                    x == (p & 0xffff_ffff_ffff_ffff_0000_0000_0000_0000)
                        | (t & 0x0000_0000_0000_0000_ffff_ffff_ffff_ffff),
            ;
        } else {
            assert((x >> 64) & 0xffff == (p >> 64) & 0xffff) by (bit_vector)
                requires
                    x == (p & 0xffff_ffff_ffff_ffff_0000_0000_0000_0000)
                        | (t & 0x0000_0000_0000_0000_ffff_ffff_ffff_ffff),
            ;
        }
    }
    assert forall|i: int| 4 <= i < 8 implies v6_segment(s, i) == v6_segment(t, i) by {
        let x = (p & 0xffff_ffff_ffff_ffff_0000_0000_0000_0000)
            | (t & 0x0000_0000_0000_0000_ffff_ffff_ffff_ffff);
        if i == 4 {
            assert((x >> 48) & 0xffff == (t >> 48) & 0xffff) by (bit_vector)
                requires
                    x == (p & 0xffff_ffff_ffff_ffff_0000_0000_0000_0000)
                        | (t & 0x0000_0000_0000_0000_ffff_ffff_ffff_ffff),
            ;
        } else if i == 5 {
            assert((x >> 32) & 0xffff == (t >> 32) & 0xffff) by (bit_vector)
                requires
                    x == (p & 0xffff_ffff_ffff_ffff_0000_0000_0000_0000)
                        | (t & 0x0000_0000_0000_0000_ffff_ffff_ffff_ffff),
            ;
        } else if i == 6 {
            assert((x >> 16) & 0xffff == (t >> 16) & 0xffff) by (bit_vector)
                requires
                    x == (p & 0xffff_ffff_ffff_ffff_0000_0000_0000_0000)
                        | (t & 0x0000_0000_0000_0000_ffff_ffff_ffff_ffff),
            ;
        } else {
            assert((x >> 0) & 0xffff == (t >> 0) & 0xffff) by (bit_vector)
                requires
                    x == (p & 0xffff_ffff_ffff_ffff_0000_0000_0000_0000)
                        | (t & 0x0000_0000_0000_0000_ffff_ffff_ffff_ffff),
            ;
        }
    }
}

} // verus!
