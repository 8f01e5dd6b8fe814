//! Networks as sets of addresses, and routes that leave some networks out.
//!
//! A network is a prefix: the addresses whose first bits are those of the
//! network's address. Taking one network out of another leaves the siblings
//! of the prefixes that lead from the larger to the smaller one.

use vstd::prelude::*;
use crate::dns::IpAddress;
use crate::tun_provider::IpNetwork;

verus! {

/// The number of bits of an address.
pub open spec fn bit_count(address: IpAddress) -> int {
    match address {
        IpAddress::V4(_) => 32,
        IpAddress::V6(_) => 128,
    }
}

/// Bit `position` of a byte, counted from the most significant one.
pub open spec fn byte_bit(byte: u8, position: int) -> bool {
    (byte >> ((7 - position) as u8)) & 1u8 == 1u8
}

/// Bit `position` of an address, counted from the most significant one.
pub open spec fn bit_of(address: IpAddress, position: int) -> bool {
    match address {
        IpAddress::V4(bytes) => byte_bit(bytes[position / 8], position % 8),
        IpAddress::V6(bytes) => byte_bit(bytes[position / 8], position % 8),
    }
}

/// Both addresses are IPv4 addresses, or both are IPv6 addresses.
pub open spec fn same_family(a: IpAddress, b: IpAddress) -> bool {
    (a is V4) == (b is V4)
}

fn bit_in_byte(byte: u8, position: usize) -> (set: bool)
    requires
        position < 8,
    ensures
        set == byte_bit(byte, position as int),
{
    let shift: u8 = (7 - position) as u8;
    (byte >> shift) & 1 == 1
}

/// Reads bit `position` of an address.
pub fn bit(address: &IpAddress, position: usize) -> (set: bool)
    requires
        position < bit_count(*address),
    ensures
        set == bit_of(*address, position as int),
{
    match address {
        IpAddress::V4(bytes) => bit_in_byte(bytes[position / 8], position % 8),
        IpAddress::V6(bytes) => bit_in_byte(bytes[position / 8], position % 8),
    }
}

/// The byte that agrees with `byte` before bit `position`, differs from it
/// at that bit, and is zero behind it.
fn branch_byte(byte: u8, position: usize) -> (out: u8)
    requires
        position < 8,
    ensures
        forall|j: int|
            0 <= j < 8 ==> #[trigger] byte_bit(out, j) == (if j < position {
                byte_bit(byte, j)
            } else if j == position {
                !byte_bit(byte, j)
            } else {
                false
            }),
{
    let shift: u8 = position as u8;
    let keep: u8 = !(0x7fu8 >> shift);
    let flip: u8 = 0x80u8 >> shift;
    let out = (byte & keep) ^ flip;
    assert forall|j: int| 0 <= j < 8 implies #[trigger] byte_bit(out, j) == (if j < position {
        byte_bit(byte, j)
    } else if j == position {
        !byte_bit(byte, j)
    } else {
        false
    }) by {
        let at: u8 = j as u8;
        assert(shift < 8 && at < 8 && out == (byte & !(0x7fu8 >> shift)) ^ (0x80u8 >> shift) ==> ((
        out >> (7 - at) as u8) & 1u8 == 1u8) == (if at < shift {
            (byte >> (7 - at) as u8) & 1u8 == 1u8
        } else if at == shift {
            !((byte >> (7 - at) as u8) & 1u8 == 1u8)
        } else {
            false
        })) by (bit_vector);
    }
    out
}

/// Two bytes with the same bits are the same byte.
pub proof fn lemma_same_bits_same_byte(a: u8, b: u8)
    requires
        forall|j: int| 0 <= j < 8 ==> #[trigger] byte_bit(a, j) == byte_bit(b, j),
    ensures
        a == b,
{
    assert(byte_bit(a, 0) == byte_bit(b, 0));
    assert(byte_bit(a, 1) == byte_bit(b, 1));
    assert(byte_bit(a, 2) == byte_bit(b, 2));
    assert(byte_bit(a, 3) == byte_bit(b, 3));
    assert(byte_bit(a, 4) == byte_bit(b, 4));
    assert(byte_bit(a, 5) == byte_bit(b, 5));
    assert(byte_bit(a, 6) == byte_bit(b, 6));
    assert(byte_bit(a, 7) == byte_bit(b, 7));
    assert(a == b) by (bit_vector)
        requires
            ((a >> 7u8) & 1u8 == 1u8) == ((b >> 7u8) & 1u8 == 1u8),
            ((a >> 6u8) & 1u8 == 1u8) == ((b >> 6u8) & 1u8 == 1u8),
            ((a >> 5u8) & 1u8 == 1u8) == ((b >> 5u8) & 1u8 == 1u8),
            ((a >> 4u8) & 1u8 == 1u8) == ((b >> 4u8) & 1u8 == 1u8),
            ((a >> 3u8) & 1u8 == 1u8) == ((b >> 3u8) & 1u8 == 1u8),
            ((a >> 2u8) & 1u8 == 1u8) == ((b >> 2u8) & 1u8 == 1u8),
            ((a >> 1u8) & 1u8 == 1u8) == ((b >> 1u8) & 1u8 == 1u8),
            ((a >> 0u8) & 1u8 == 1u8) == ((b >> 0u8) & 1u8 == 1u8),
    ;
}

/// `out` agrees with `of` before bit `position`, differs from it at that
/// bit, and is zero behind it.
pub open spec fn is_branch(out: IpAddress, of: IpAddress, position: int) -> bool {
    &&& same_family(out, of)
    &&& forall|i: int|
        0 <= i < bit_count(of) ==> #[trigger] bit_of(out, i) == (if i < position {
            bit_of(of, i)
        } else if i == position {
            !bit_of(of, i)
        } else {
            false
        })
}

fn branch_bytes<const N: usize>(bytes: &[u8; N], position: usize) -> (out: [u8; N])
    requires
        position < 8 * N,
    ensures
        forall|i: int|
            0 <= i < 8 * N ==> #[trigger] byte_bit(out[i / 8], i % 8) == (if i < position {
                byte_bit(bytes[i / 8], i % 8)
            } else if i == position {
                !byte_bit(bytes[i / 8], i % 8)
            } else {
                false
            }),
{
    let at = position / 8;
    let mut out = *bytes;
    out[at] = branch_byte(bytes[at], position % 8);
    let mut k = at + 1;
    while k < N
        invariant
            at == position / 8,
            at < k <= N,
            forall|b: int| 0 <= b < at ==> out[b] == bytes[b],
            forall|j: int|
                0 <= j < 8 ==> #[trigger] byte_bit(out[at as int], j) == (if j < position % 8 {
                    byte_bit(bytes[at as int], j)
                } else if j == position % 8 {
                    !byte_bit(bytes[at as int], j)
                } else {
                    false
                }),
            forall|b: int| at < b < k ==> out[b] == 0,
        decreases N - k,
    {
        out[k] = 0;
        k += 1;
    }
    assert forall|i: int| 0 <= i < 8 * N implies #[trigger] byte_bit(out[i / 8], i % 8) == (if i
        < position {
        byte_bit(bytes[i / 8], i % 8)
    } else if i == position {
        !byte_bit(bytes[i / 8], i % 8)
    } else {
        false
    }) by {
        let b = i / 8;
        let j = i % 8;
        if b > at {
            let shift: u8 = (7 - j) as u8;
            assert((0u8 >> shift) & 1u8 != 1u8) by (bit_vector);
        }
    }
    out
}

/// Makes the address that agrees with `address` before bit `position`,
/// differs from it at that bit, and is zero behind it.
pub fn branch(address: &IpAddress, position: usize) -> (out: IpAddress)
    requires
        position < bit_count(*address),
    ensures
        is_branch(out, *address, position as int),
{
    match address {
        IpAddress::V4(bytes) => IpAddress::V4(branch_bytes(bytes, position)),
        IpAddress::V6(bytes) => IpAddress::V6(branch_bytes(bytes, position)),
    }
}

/// The length of the prefix of a network: what it says, but not more than
/// its address has bits.
pub open spec fn prefix_len(network: IpNetwork) -> int {
    if network.prefix <= bit_count(network.address) {
        network.prefix as int
    } else {
        bit_count(network.address)
    }
}

/// `address` lies in `network`: it is of the same family, and its first
/// bits are those of the network.
pub open spec fn covers(network: IpNetwork, address: IpAddress) -> bool {
    &&& same_family(network.address, address)
    &&& forall|i: int|
        0 <= i < prefix_len(network) ==> #[trigger] bit_of(network.address, i) == bit_of(
            address,
            i,
        )
}

/// `address` lies in one of `networks`.
pub open spec fn covered_by(networks: Seq<IpNetwork>, address: IpAddress) -> bool {
    exists|k: int| 0 <= k < networks.len() && covers(#[trigger] networks[k], address)
}

fn is_v4(address: &IpAddress) -> (v4: bool)
    ensures
        v4 == address is V4,
{
    match address {
        IpAddress::V4(_) => true,
        IpAddress::V6(_) => false,
    }
}

fn bits(address: &IpAddress) -> (count: usize)
    ensures
        count == bit_count(*address),
{
    match address {
        IpAddress::V4(_) => 32,
        IpAddress::V6(_) => 128,
    }
}

fn prefix_of(network: &IpNetwork) -> (len: usize)
    ensures
        len == prefix_len(*network),
{
    let count = bits(&network.address);
    if network.prefix as usize <= count {
        network.prefix as usize
    } else {
        count
    }
}

/// Tells whether `address` lies in `network`.
pub fn contains(network: &IpNetwork, address: &IpAddress) -> (inside: bool)
    ensures
        inside == covers(*network, *address),
{
    if is_v4(&network.address) != is_v4(address) {
        return false;
    }
    let len = prefix_of(network);
    let mut at: usize = 0;
    while at < len
        invariant
            at <= len,
            len == prefix_len(*network),
            same_family(network.address, *address),
            forall|i: int|
                0 <= i < at ==> #[trigger] bit_of(network.address, i) == bit_of(*address, i),
        decreases len - at,
    {
        if bit(&network.address, at) != bit(address, at) {
            return false;
        }
        at += 1;
    }
    true
}

/// Two addresses that differ in one of their first bits differ in a first
/// one.
proof fn lemma_first_difference(a: IpAddress, b: IpAddress, limit: int) -> (at: int)
    requires
        exists|i: int| 0 <= i < limit && #[trigger] bit_of(a, i) != bit_of(b, i),
    ensures
        0 <= at < limit,
        bit_of(a, at) != bit_of(b, at),
        forall|i: int| 0 <= i < at ==> #[trigger] bit_of(a, i) == bit_of(b, i),
    decreases limit,
{
    if exists|i: int| 0 <= i < limit - 1 && #[trigger] bit_of(a, i) != bit_of(b, i) {
        lemma_first_difference(a, b, limit - 1)
    } else {
        limit - 1
    }
}

/// The blocks that are left of `network` when `other`, which lies inside
/// it, is taken out: for each prefix length between theirs, the sibling of
/// the prefix of `other` of that length.
pub open spec fn is_split(network: IpNetwork, other: IpNetwork, blocks: Seq<IpNetwork>) -> bool {
    &&& blocks.len() == prefix_len(other) - prefix_len(network)
    &&& forall|j: int|
        0 <= j < blocks.len() ==> (#[trigger] blocks[j]).prefix == prefix_len(network) + j + 1
            && is_branch(blocks[j].address, other.address, prefix_len(network) + j)
}

/// The blocks of a split hold exactly the addresses of the larger network
/// that are not in the smaller one.
pub proof fn lemma_split_covers(
    network: IpNetwork,
    other: IpNetwork,
    blocks: Seq<IpNetwork>,
    address: IpAddress,
)
    requires
        prefix_len(network) < prefix_len(other),
        covers(network, other.address),
        is_split(network, other, blocks),
    ensures
        covered_by(blocks, address) <==> (covers(network, address) && !covers(other, address)),
{
    let p = prefix_len(network);
    let q = prefix_len(other);
    if covered_by(blocks, address) {
        let j = choose|j: int| 0 <= j < blocks.len() && covers(#[trigger] blocks[j], address);
        let block = blocks[j];
        let k = p + j;
        assert(prefix_len(block) == k + 1);
        assert forall|i: int| 0 <= i < p implies #[trigger] bit_of(network.address, i) == bit_of(
            address,
            i,
        ) by {
            assert(bit_of(block.address, i) == bit_of(address, i));
            assert(bit_of(block.address, i) == bit_of(other.address, i));
            assert(bit_of(network.address, i) == bit_of(other.address, i));
        }
        assert(bit_of(block.address, k) == bit_of(address, k));
        assert(bit_of(block.address, k) == !bit_of(other.address, k));
        assert(bit_of(other.address, k) != bit_of(address, k));
    }
    if covers(network, address) && !covers(other, address) {
        let at = lemma_first_difference(other.address, address, q);
        if at < p {
            assert(bit_of(network.address, at) == bit_of(address, at));
            assert(bit_of(network.address, at) == bit_of(other.address, at));
        }
        let j = at - p;
        let block = blocks[j];
        assert(prefix_len(block) == at + 1);
        assert forall|i: int| 0 <= i < at + 1 implies #[trigger] bit_of(block.address, i)
            == bit_of(address, i) by {
            if i < at {
                assert(bit_of(other.address, i) == bit_of(address, i));
            }
        }
        assert(covers(blocks[j], address));
    }
}

/// A network whose address lies in another network with a prefix that is
/// not longer lies in that network as a whole.
pub proof fn lemma_nested_networks(network: IpNetwork, other: IpNetwork)
    requires
        prefix_len(other) <= prefix_len(network),
        covers(other, network.address),
    ensures
        forall|address: IpAddress| covers(network, address) ==> covers(other, address),
{
    assert forall|address: IpAddress| covers(network, address) implies covers(other, address) by {
        assert forall|i: int| 0 <= i < prefix_len(other) implies #[trigger] bit_of(
            other.address,
            i,
        ) == bit_of(address, i) by {
            assert(bit_of(network.address, i) == bit_of(address, i));
        }
    }
}

/// Two networks of which the one with the shorter prefix does not hold the
/// address of the other have no address in common; nor have networks of
/// different families.
pub proof fn lemma_networks_apart(network: IpNetwork, other: IpNetwork)
    requires
        !same_family(network.address, other.address) || (prefix_len(other) <= prefix_len(network)
            && !covers(other, network.address)) || (prefix_len(network) <= prefix_len(other)
            && !covers(network, other.address)),
    ensures
        forall|address: IpAddress| covers(network, address) ==> !covers(other, address),
{
    if same_family(network.address, other.address) {
        if prefix_len(other) <= prefix_len(network) && !covers(other, network.address) {
            let at = lemma_first_difference(other.address, network.address, prefix_len(other));
            assert forall|address: IpAddress| covers(network, address) implies !covers(
                other,
                address,
            ) by {
                assert(bit_of(network.address, at) == bit_of(address, at));
            }
        } else {
            let at = lemma_first_difference(network.address, other.address, prefix_len(network));
            assert forall|address: IpAddress| covers(network, address) implies !covers(
                other,
                address,
            ) by {
                assert(bit_of(network.address, at) == bit_of(address, at));
            }
        }
    }
}

/// The first network lies in the second: they are of one family, the
/// prefix of the second is not longer, and it holds the address of the
/// first.
pub open spec fn lies_within(inner: IpNetwork, outer: IpNetwork) -> bool {
    &&& same_family(inner.address, outer.address)
    &&& prefix_len(outer) <= prefix_len(inner)
    &&& covers(outer, inner.address)
}

/// Takes `other` out of `network`: returns networks that together hold
/// exactly the addresses of `network` that are not in `other`. Nothing is
/// left of a network that lies in the other one. Where the other one lies
/// inside the network, the siblings of its prefixes are left, the largest
/// first. Otherwise the two have nothing in common, and the network is
/// left as it is.
pub fn subtract(network: IpNetwork, other: IpNetwork) -> (rest: Vec<IpNetwork>)
    ensures
        forall|address: IpAddress| #[trigger]
            covered_by(rest@, address) <==> (covers(network, address) && !covers(other, address)),
        lies_within(network, other) ==> rest@.len() == 0,
        !lies_within(network, other) && lies_within(other, network) ==> is_split(
            network,
            other,
            rest@,
        ),
        !lies_within(network, other) && !lies_within(other, network) ==> rest@ == seq![network],
{
    let mut rest: Vec<IpNetwork> = Vec::new();
    let p = prefix_of(&network);
    let q = prefix_of(&other);
    if is_v4(&network.address) == is_v4(&other.address) {
        if q <= p && contains(&other, &network.address) {
            proof {
                lemma_nested_networks(network, other);
            }
            assert forall|address: IpAddress| #[trigger]
                covered_by(rest@, address) <==> (covers(network, address) && !covers(
                    other,
                    address,
                )) by {}
            return rest;
        }
        if p < q && contains(&network, &other.address) {
            let mut k = p;
            while k < q
                invariant
                    p <= k <= q,
                    p == prefix_len(network),
                    q == prefix_len(other),
                    same_family(network.address, other.address),
                    rest@.len() == k - p,
                    forall|j: int|
                        0 <= j < rest@.len() ==> (#[trigger] rest@[j]).prefix == p + j + 1
                            && is_branch(rest@[j].address, other.address, p + j),
                decreases q - k,
            {
                rest.push(IpNetwork { address: branch(&other.address, k), prefix: (k + 1) as u8 });
                k += 1;
            }
            assert forall|address: IpAddress| #[trigger]
                covered_by(rest@, address) <==> (covers(network, address) && !covers(
                    other,
                    address,
                )) by {
                lemma_split_covers(network, other, rest@, address);
            }
            return rest;
        }
    }
    proof {
        lemma_networks_apart(network, other);
    }
    rest.push(network);
    assert forall|address: IpAddress| #[trigger]
        covered_by(rest@, address) <==> (covers(network, address) && !covers(other, address)) by {
        if covers(network, address) {
            assert(covers(rest@[0], address));
        }
    }
    assert(rest@ =~= seq![network]);
    rest
}

/// An address lies in one of two lists of networks exactly when it lies in
/// one of the networks of either.
pub proof fn lemma_covered_by_concat(
    first: Seq<IpNetwork>,
    second: Seq<IpNetwork>,
    address: IpAddress,
)
    ensures
        covered_by(first + second, address) <==> (covered_by(first, address) || covered_by(
            second,
            address,
        )),
{
    let both = first + second;
    if covered_by(first, address) {
        let k = choose|k: int| 0 <= k < first.len() && covers(#[trigger] first[k], address);
        assert(both[k] == first[k]);
    }
    if covered_by(second, address) {
        let k = choose|k: int| 0 <= k < second.len() && covers(#[trigger] second[k], address);
        assert(both[first.len() + k] == second[k]);
    }
    if covered_by(both, address) {
        let k = choose|k: int| 0 <= k < both.len() && covers(#[trigger] both[k], address);
        if k < first.len() {
            assert(first[k] == both[k]);
        } else {
            assert(second[k - first.len()] == both[k]);
        }
    }
}

/// An address lies in the first networks of a list and the next one exactly
/// when it lies in the first ones or in the next one.
proof fn lemma_covered_by_next(networks: Seq<IpNetwork>, at: int, address: IpAddress)
    requires
        0 <= at < networks.len(),
    ensures
        covered_by(networks.take(at + 1), address) <==> (covered_by(networks.take(at), address)
            || covers(networks[at], address)),
{
    let one = seq![networks[at]];
    assert(networks.take(at + 1) =~= networks.take(at) + one);
    lemma_covered_by_concat(networks.take(at), one, address);
    if covers(networks[at], address) {
        assert(covers(one[0], address));
    }
    if covered_by(one, address) {
        let k = choose|k: int| 0 <= k < one.len() && covers(#[trigger] one[k], address);
        assert(one[k] == networks[at]);
    }
}

/// Takes `other` out of each of `networks`: returns networks that together
/// hold exactly the addresses of `networks` that are not in `other`.
fn sub_each(networks: &Vec<IpNetwork>, other: IpNetwork) -> (rest: Vec<IpNetwork>)
    ensures
        forall|address: IpAddress| #[trigger]
            covered_by(rest@, address) <==> (covered_by(networks@, address) && !covers(
                other,
                address,
            )),
{
    let mut rest: Vec<IpNetwork> = Vec::new();
    let mut at: usize = 0;
    assert(networks@.take(0) =~= Seq::<IpNetwork>::empty());
    while at < networks.len()
        invariant
            at <= networks.len(),
            forall|address: IpAddress| #[trigger]
                covered_by(rest@, address) <==> (covered_by(networks@.take(at as int), address)
                    && !covers(other, address)),
        decreases networks.len() - at,
    {
        let ghost before = rest@;
        let mut pieces = subtract(networks[at], other);
        let ghost added = pieces@;
        rest.append(&mut pieces);
        assert forall|address: IpAddress| #[trigger]
            covered_by(rest@, address) <==> (covered_by(networks@.take(at + 1), address)
                && !covers(other, address)) by {
            lemma_covered_by_concat(before, added, address);
            lemma_covered_by_next(networks@, at as int, address);
        }
        at += 1;
    }
    assert(networks@.take(at as int) =~= networks@);
    rest
}

/// Copies a list of networks.
pub fn copy_networks(networks: &Vec<IpNetwork>) -> (copy: Vec<IpNetwork>)
    ensures
        copy@ == networks@,
{
    let mut copy: Vec<IpNetwork> = Vec::new();
    let mut at: usize = 0;
    while at < networks.len()
        invariant
            at <= networks.len(),
            copy@ == networks@.take(at as int),
        decreases networks.len() - at,
    {
        copy.push(networks[at]);
        assert(networks@.take(at + 1) =~= networks@.take(at as int).push(networks@[at as int]));
        at += 1;
    }
    assert(networks@.take(at as int) =~= networks@);
    copy
}

/// Takes all of `others` out of each of `networks`: returns networks that
/// together hold exactly the addresses of `networks` that are in none of
/// `others`.
pub fn sub_all_of(networks: &Vec<IpNetwork>, others: &Vec<IpNetwork>) -> (rest: Vec<IpNetwork>)
    ensures
        forall|address: IpAddress| #[trigger]
            covered_by(rest@, address) <==> (covered_by(networks@, address) && !covered_by(
                others@,
                address,
            )),
{
    let mut rest = copy_networks(networks);
    let mut at: usize = 0;
    assert(others@.take(0) =~= Seq::<IpNetwork>::empty());
    while at < others.len()
        invariant
            at <= others.len(),
            forall|address: IpAddress| #[trigger]
                covered_by(rest@, address) <==> (covered_by(networks@, address) && !covered_by(
                    others@.take(at as int),
                    address,
                )),
        decreases others.len() - at,
    {
        let ghost before = rest@;
        rest = sub_each(&rest, others[at]);
        assert forall|address: IpAddress| #[trigger]
            covered_by(rest@, address) <==> (covered_by(networks@, address) && !covered_by(
                others@.take(at + 1),
                address,
            )) by {
            lemma_covered_by_next(others@, at as int, address);
            assert(covered_by(before, address) <==> (covered_by(networks@, address)
                && !covered_by(others@.take(at as int), address)));
        }
        at += 1;
    }
    assert(others@.take(at as int) =~= others@);
    rest
}

/// Takes all of `others` out of `network`: returns networks that together
/// hold exactly the addresses of `network` that are in none of `others`.
pub fn sub_all(network: IpNetwork, others: &Vec<IpNetwork>) -> (rest: Vec<IpNetwork>)
    ensures
        forall|address: IpAddress| #[trigger]
            covered_by(rest@, address) <==> (covers(network, address) && !covered_by(
                others@,
                address,
            )),
{
    let mut only: Vec<IpNetwork> = Vec::new();
    only.push(network);
    assert forall|address: IpAddress| covered_by(only@, address) <==> covers(
        network,
        address,
    ) by {
        if covers(network, address) {
            assert(covers(only@[0], address));
        }
    }
    sub_all_of(&only, others)
}

/// The network that holds `address` and nothing else.
pub open spec fn host_network_of(address: IpAddress) -> IpNetwork {
    IpNetwork { address, prefix: bit_count(address) as u8 }
}

/// Makes the network that holds `address` and nothing else.
pub fn host_network(address: IpAddress) -> (network: IpNetwork)
    ensures
        network == host_network_of(address),
{
    let prefix: u8 = match address {
        IpAddress::V4(_) => 32,
        IpAddress::V6(_) => 128,
    };
    IpNetwork { address, prefix }
}

} // verus!
