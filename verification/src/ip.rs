//! Plain-value model of IPv4 addressing: an address as a 32-bit integer and
//! a CIDR block (address plus prefix length). The access point is configured
//! with one such block, and the DHCP service leases addresses inside it.

use vstd::prelude::*;

verus! {

/// An IPv4 address, stored as the big-endian integer value of its four
/// octets (`a.b.c.d` is `a*2^24 + b*2^16 + c*2^8 + d`).
#[derive(Clone, Copy, Debug, PartialEq, Eq, Structural)]
pub struct Ipv4Address {
    pub bits: u32,
}

impl Ipv4Address {
    /// Build an address from its four dotted-quad octets.
    pub fn new(a: u8, b: u8, c: u8, d: u8) -> (r: Self)
        ensures
            r.bits == a as int * 0x100_0000 + b as int * 0x1_0000 + c as int * 0x100 + d as int,
    {
        let bits: u32 = ((a as u32) << 24u32) | ((b as u32) << 16u32) | ((c as u32) << 8u32)
            | (d as u32);
        proof {
            assert(((a as u32) << 24u32) | ((b as u32) << 16u32) | ((c as u32) << 8u32)
                | (d as u32) == a as u32 * 0x100_0000 + b as u32 * 0x1_0000 + c as u32 * 0x100
                + d as u32) by (bit_vector);
        }
        Ipv4Address { bits }
    }

    /// The all-zero address, used to bind a socket on every interface.
    pub fn unspecified() -> (r: Self)
        ensures
            r.bits == 0,
    {
        Ipv4Address { bits: 0 }
    }

    /// The four dotted-quad octets of the address, most significant first.
    pub fn octets(&self) -> (r: [u8; 4])
        ensures
            r[0] == self.bits / 0x100_0000,
            r[1] == self.bits / 0x1_0000 % 0x100,
            r[2] == self.bits / 0x100 % 0x100,
            r[3] == self.bits % 0x100,
    {
        let b = self.bits;
        let r: [u8; 4] = [(b >> 24u32) as u8, (b >> 16u32) as u8, (b >> 8u32) as u8, b as u8];
        proof {
            assert((b >> 24u32) as u8 == b / 0x100_0000 && (b >> 16u32) as u8 == b / 0x1_0000 % 0x100
                && (b >> 8u32) as u8 == b / 0x100 % 0x100 && b as u8 == b % 0x100) by (bit_vector);
        }
        r
    }
}

/// The network mask selected by a prefix length: the `prefix_len` most
/// significant bits set.
pub open spec fn netmask_of(prefix_len: u8) -> u32
    recommends
        prefix_len <= 32,
{
    if prefix_len == 0 {
        0u32
    } else {
        (0xffff_ffffu32 << (32 - prefix_len) as u32) as u32
    }
}

/// An IPv4 CIDR block: an address together with the length of its network
/// prefix. The node's own address and its subnet in one value.
#[derive(Clone, Copy, Debug, PartialEq, Eq, Structural)]
pub struct Ipv4Cidr {
    pub address: Ipv4Address,
    pub prefix_len: u8,
}

impl Ipv4Cidr {
    /// A prefix length is at most the 32 bits of an IPv4 address.
    pub open spec fn wf(&self) -> bool {
        self.prefix_len <= 32
    }

    /// Build a CIDR block from an address and a prefix length.
    pub fn new(address: Ipv4Address, prefix_len: u8) -> (r: Self)
        requires
            prefix_len <= 32,
        ensures
            r.address == address,
            r.prefix_len == prefix_len,
            r.wf(),
    {
        Ipv4Cidr { address, prefix_len }
    }

    /// The network mask of the block.
    pub fn netmask(&self) -> (r: u32)
        requires
            self.wf(),
        ensures
            r == netmask_of(self.prefix_len),
    {
        if self.prefix_len == 0 {
            0
        } else {
            0xffff_ffffu32 << (32 - self.prefix_len) as u32
        }
    }

    /// Whether `ip` lies in the same subnet as the block's address, that is,
    /// agrees with it on every bit that the network mask selects.
    pub fn contains(&self, ip: &Ipv4Address) -> (r: bool)
        requires
            self.wf(),
        ensures
            r == (ip.bits & netmask_of(self.prefix_len) == self.address.bits & netmask_of(
                self.prefix_len,
            )),
    {
        let mask = self.netmask();
        ip.bits & mask == self.address.bits & mask
    }
}

} // verus!
