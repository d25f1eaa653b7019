//! Locality classifier: which addresses belong to the monitored host's own
//! networks. Built once; never changed afterwards.

use crate::packet::IpAddress;
use vstd::arithmetic::power2::{lemma2_to64, pow2};
use vstd::bits::lemma_u32_shr_is_div;
use vstd::prelude::*;

verus! {

/// Bits of an IPv4 address.
pub const ADDRESS_BITS: u8 = 32;

/// Bits that a prefix of the given length leaves to the host part.
pub open spec fn host_bits(prefix: u8) -> nat {
    if prefix >= ADDRESS_BITS {
        0
    } else {
        (ADDRESS_BITS - prefix) as nat
    }
}

/// `ip` lies in the network `network/prefix`: the two agree in their leading
/// `prefix` bits. A prefix of zero holds every address.
pub open spec fn in_network(ip: u32, network: u32, prefix: u8) -> bool {
    ip as nat / pow2(host_bits(prefix)) == network as nat / pow2(host_bits(prefix))
}

/// `ip` lies in one of `ranges`.
pub open spec fn in_any_network(ip: u32, ranges: Seq<(u32, u8)>) -> bool {
    exists|i: int| 0 <= i < ranges.len() && in_network(ip, (#[trigger] ranges[i]).0, ranges[i].1)
}

/// Number of one bits in the binary form of `value`.
pub open spec fn ones(value: nat) -> nat
    decreases value,
{
    if value == 0 {
        0
    } else {
        value % 2 + ones(value / 2)
    }
}

/// The reserved IPv4 ranges that always count as local: private use
/// (10/8, 172.16/12, 192.168/16), loopback (127/8), link-local (169.254/16),
/// "this network" (0/8), multicast (224/4) and the reserved top (240/4).
pub open spec fn reserved_ranges() -> Seq<(u32, u8)> {
    seq![
        (0x0A00_0000u32, 8u8),
        (0xAC10_0000u32, 12u8),
        (0xC0A8_0000u32, 16u8),
        (0x7F00_0000u32, 8u8),
        (0xA9FE_0000u32, 16u8),
        (0x0000_0000u32, 8u8),
        (0xE000_0000u32, 4u8),
        (0xF000_0000u32, 4u8),
    ]
}

/// The range that an interface address and its netmask configure: none unless
/// the address is IPv4 and a netmask is given.
pub open spec fn configured_ranges(local_ip: Option<IpAddress>, local_subnet: Option<u32>) -> Seq<
    (u32, u8),
> {
    match (local_ip, local_subnet) {
        (Some(IpAddress::V4(ip)), Some(mask)) => seq![(ip & mask, ones(mask as nat) as u8)],
        _ => Seq::empty(),
    }
}

/// The local network set of an interface: its configured range, if it has
/// one, then the reserved ranges.
pub open spec fn local_ranges(local_ip: Option<IpAddress>, local_subnet: Option<u32>) -> Seq<
    (u32, u8),
> {
    configured_ranges(local_ip, local_subnet) + reserved_ranges()
}

/// A number below 2^32 has at most 32 one bits.
pub proof fn ones_is_bounded(value: nat, bits: nat)
    requires
        value < pow2(bits),
    ensures
        ones(value) <= bits,
    decreases bits,
{
    if bits == 0 {
        lemma2_to64();
    } else if value > 0 {
        vstd::arithmetic::power2::lemma_pow2_unfold(bits);
        ones_is_bounded(value / 2, (bits - 1) as nat);
    }
}

/// A netmask has at most 32 one bits: its prefix length fits the eight bits
/// that a range keeps for it.
pub proof fn prefix_length_is_bounded(subnet_mask: u32)
    ensures
        ones(subnet_mask as nat) <= ADDRESS_BITS,
{
    lemma2_to64();
    ones_is_bounded(subnet_mask as nat, 32);
}

/// Prefix length of a netmask: the number of its one bits.
pub fn calculate_prefix_length(subnet_mask: u32) -> (prefix: u8)
    ensures
        prefix == ones(subnet_mask as nat),
        prefix <= ADDRESS_BITS,
{
    let mut rest: u32 = subnet_mask;
    let mut count: u8 = 0;
    proof {
        lemma2_to64();
        ones_is_bounded(subnet_mask as nat, 32);
    }
    while rest != 0
        invariant
            count + ones(rest as nat) == ones(subnet_mask as nat),
            ones(subnet_mask as nat) <= 32,
        decreases rest,
    {
        if rest % 2 == 1 {
            count = count + 1;
        }
        rest = rest / 2;
    }
    count
}

/// Network address of an interface: the bits of `ip` that the netmask keeps.
pub fn calculate_network_address(ip: u32, subnet_mask: u32) -> (network: u32)
    ensures
        network == ip & subnet_mask,
{
    ip & subnet_mask
}

/// Decides [`in_network`].
pub fn network_contains(network: u32, prefix: u8, ip: u32) -> (r: bool)
    ensures
        r == in_network(ip, network, prefix),
{
    proof {
        lemma2_to64();
    }
    if prefix == 0 {
        true
    } else if prefix >= ADDRESS_BITS {
        assert(ip as nat / 1 == ip && network as nat / 1 == network);
        ip == network
    } else {
        let shift: u32 = (ADDRESS_BITS - prefix) as u32;
        proof {
            lemma_u32_shr_is_div(ip, shift);
            lemma_u32_shr_is_div(network, shift);
        }
        (ip >> shift) == (network >> shift)
    }
}

/// The addresses that share their quotient by `size` with `network` are those
/// of one block of `size` addresses.
proof fn same_quotient_is_one_block(network: int, size: int, ip: int)
    requires
        size > 0,
        0 <= network,
        0 <= ip,
    ensures
        (network / size) * size <= network < (network / size) * size + size,
        ip / size == network / size <==> (network / size) * size <= ip < (network / size) * size
            + size,
{
    vstd::arithmetic::div_mod::lemma_fundamental_div_mod(network, size);
    vstd::arithmetic::div_mod::lemma_fundamental_div_mod(ip, size);
    vstd::arithmetic::div_mod::lemma_mod_bound(network, size);
    vstd::arithmetic::div_mod::lemma_mod_bound(ip, size);
    let q = network / size;
    let r = ip / size;
    assert(size * q == q * size) by (nonlinear_arith);
    assert(size * r == r * size) by (nonlinear_arith);
    if r < q {
        assert(r * size + size <= q * size) by (nonlinear_arith)
            requires
                r + 1 <= q,
                size > 0,
        ;
    }
    if r > q {
        assert(q * size + size <= r * size) by (nonlinear_arith)
            requires
                q + 1 <= r,
                size > 0,
        ;
    }
}

/// First and last address of the network `network/prefix`.
pub fn calculate_ip_range(network: u32, prefix: u8) -> (range: (u32, u32))
    ensures
        range.0 <= range.1,
        forall|ip: u32| in_network(ip, network, prefix) <==> range.0 <= ip <= range.1,
{
    proof {
        lemma2_to64();
    }
    if prefix == 0 {
        assert forall|ip: u32| in_network(ip, network, prefix) by {
            assert(ip as nat / 0x1_0000_0000 == 0 && network as nat / 0x1_0000_0000 == 0);
        }
        (0, u32::MAX)
    } else if prefix >= ADDRESS_BITS {
        assert forall|ip: u32| in_network(ip, network, prefix) <==> ip == network by {
            assert(ip as nat / 1 == ip && network as nat / 1 == network);
        }
        (network, network)
    } else {
        let shift: u32 = (ADDRESS_BITS - prefix) as u32;
        proof {
            vstd::arithmetic::power2::lemma_pow2_strictly_increases(shift as nat, 32);
            vstd::arithmetic::power2::lemma_pow2_pos(shift as nat);
            vstd::bits::lemma_u32_shl_is_mul(1u32, shift);
        }
        let mask: u32 = (1u32 << shift) - 1u32;
        proof {
            let size = pow2(shift as nat) as int;
            let blocks = pow2(prefix as nat) as int;
            let q = network as int / size;
            vstd::arithmetic::power2::lemma_pow2_adds(prefix as nat, shift as nat);
            same_quotient_is_one_block(network as int, size, network as int);
            vstd::arithmetic::div_mod::lemma_fundamental_div_mod(network as int, size);
            assert(size * q == q * size) by (nonlinear_arith);
            assert(q < blocks) by (nonlinear_arith)
                requires
                    q * size <= network,
                    network < blocks * size,
                    size > 0,
            ;
            assert(q * size + size <= blocks * size) by (nonlinear_arith)
                requires
                    q + 1 <= blocks,
                    size > 0,
            ;
        }
        let first: u32 = network - network % (mask + 1);
        let last: u32 = first + mask;
        proof {
            let size = pow2(shift as nat) as int;
            assert forall|ip: u32| in_network(ip, network, prefix) <==> first <= ip <= last by {
                same_quotient_is_one_block(network as int, size, ip as int);
            }
        }
        (first, last)
    }
}

/// The reserved ranges, as a list.
pub fn reserved_range_list() -> (list: Vec<(u32, u8)>)
    ensures
        list@ == reserved_ranges(),
{
    let mut list: Vec<(u32, u8)> = Vec::new();
    list.push((0x0A00_0000u32, 8u8));
    list.push((0xAC10_0000u32, 12u8));
    list.push((0xC0A8_0000u32, 16u8));
    list.push((0x7F00_0000u32, 8u8));
    list.push((0xA9FE_0000u32, 16u8));
    list.push((0x0000_0000u32, 8u8));
    list.push((0xE000_0000u32, 4u8));
    list.push((0xF000_0000u32, 4u8));
    list
}

/// Decides [`in_any_network`].
pub fn any_network_contains(ranges: &Vec<(u32, u8)>, ip: u32) -> (r: bool)
    ensures
        r == in_any_network(ip, ranges@),
{
    let mut i: usize = 0;
    while i < ranges.len()
        invariant
            i <= ranges.len(),
            forall|j: int| 0 <= j < i ==> !in_network(ip, (#[trigger] ranges@[j]).0, ranges@[j].1),
        decreases ranges.len() - i,
    {
        let (network, prefix) = ranges[i];
        if network_contains(network, prefix, ip) {
            return true;
        }
        i = i + 1;
    }
    false
}

/// Whether an IPv4 address lies in one of the reserved ranges.
pub fn is_private_ipv4(ip: u32) -> (r: bool)
    ensures
        r == in_any_network(ip, reserved_ranges()),
{
    let list = reserved_range_list();
    any_network_contains(&list, ip)
}

/// The range that the interface configures, as a list of none or one.
fn configured_range_list(local_ip: Option<IpAddress>, local_subnet: Option<u32>) -> (ranges: Vec<
    (u32, u8),
>)
    ensures
        ranges@ == configured_ranges(local_ip, local_subnet),
{
    let mut ranges: Vec<(u32, u8)> = Vec::new();
    match (local_ip, local_subnet) {
        (Some(IpAddress::V4(ip)), Some(mask)) => {
            let prefix = calculate_prefix_length(mask);
            let network = calculate_network_address(ip, mask);
            ranges.push((network, prefix));
        },
        _ => {
        },
    }
    ranges
}

/// Builds the local network ranges of an interface with the given address
/// and netmask: first the network that the two configure, where the address
/// is IPv4 and a netmask is given, then the eight reserved ranges.
pub fn build_local_network_ranges(local_ip: Option<IpAddress>, local_subnet: Option<u32>) -> (ranges:
    Vec<(u32, u8)>)
    ensures
        ranges@ == local_ranges(local_ip, local_subnet),
{
    let mut ranges = configured_range_list(local_ip, local_subnet);
    let mut reserved = reserved_range_list();
    ranges.append(&mut reserved);
    ranges
}

/// The local network set: an ordered list of IPv4 networks, each a network
/// address with a prefix length.
#[derive(Debug)]
pub struct LocalNetworks {
    ranges: Vec<(u32, u8)>,
}

impl View for LocalNetworks {
    type V = Seq<(u32, u8)>;

    closed spec fn view(&self) -> Seq<(u32, u8)> {
        self.ranges@
    }
}

impl LocalNetworks {
    /// `ip` is local: an IPv4 address in one of the networks. No IPv6 address
    /// is local.
    pub open spec fn spec_is_local(&self, ip: IpAddress) -> bool {
        match ip {
            IpAddress::V4(v4) => in_any_network(v4, self@),
            IpAddress::V6(_) => false,
        }
    }

    /// Neither `a` nor `b` is local.
    pub open spec fn spec_is_global_pair(&self, a: IpAddress, b: IpAddress) -> bool {
        !self.spec_is_local(a) && !self.spec_is_local(b)
    }

    /// Builds the set for an interface with the given address and netmask:
    /// the network they configure, where the address is IPv4 and a netmask is
    /// given, then the reserved ranges.
    pub fn new(local_ip: Option<IpAddress>, local_subnet: Option<u32>) -> (set: LocalNetworks)
        ensures
            set@ == local_ranges(local_ip, local_subnet),
    {
        LocalNetworks { ranges: build_local_network_ranges(local_ip, local_subnet) }
    }

    /// The networks, in order.
    pub fn ranges(&self) -> (ranges: &Vec<(u32, u8)>)
        ensures
            ranges@ == self@,
    {
        &self.ranges
    }

    /// Decides [`LocalNetworks::spec_is_local`].
    pub fn is_local(&self, ip: IpAddress) -> (r: bool)
        ensures
            r == self.spec_is_local(ip),
    {
        match ip {
            IpAddress::V4(v4) => any_network_contains(&self.ranges, v4),
            IpAddress::V6(_) => false,
        }
    }

    /// Decides [`LocalNetworks::spec_is_global_pair`].
    pub fn is_global_pair(&self, a: IpAddress, b: IpAddress) -> (r: bool)
        ensures
            r == self.spec_is_global_pair(a, b),
    {
        !self.is_local(a) && !self.is_local(b)
    }
}

} // verus!
