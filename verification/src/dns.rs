//! Which DNS resolvers a tunnel is configured with.
//!
//! Content is blocked on the side of the resolver: each kind of content has
//! a bit, and the bits of all kinds that are to be blocked, joined, make the
//! last byte of the resolver's address.

use vstd::prelude::*;
use crate::routes::{bit_of, byte_bit, covers, lemma_same_bits_same_byte};
use crate::tun_provider::IpNetwork;

verus! {

/// An IPv4 or IPv6 address, as its bytes in network order.
#[derive(Clone, Copy, Debug, PartialEq, Eq)]
pub enum IpAddress {
    V4([u8; 4]),
    V6([u8; 16]),
}

/// The bit of advertisements in the last byte of a blocking resolver.
pub const DNS_AD_BLOCKING_IP_BIT: u8 = 0b0000_0001;

/// The bit of trackers.
pub const DNS_TRACKER_BLOCKING_IP_BIT: u8 = 0b0000_0010;

/// The bit of malware.
pub const DNS_MALWARE_BLOCKING_IP_BIT: u8 = 0b0000_0100;

/// The bit of adult content.
pub const DNS_ADULT_BLOCKING_IP_BIT: u8 = 0b0000_1000;

/// The bit of gambling.
pub const DNS_GAMBLING_BLOCKING_IP_BIT: u8 = 0b0001_0000;

/// The bit of social media.
pub const DNS_SOCIAL_MEDIA_BLOCKING_IP_BIT: u8 = 0b0010_0000;

/// Whether the default resolver or the user's own resolvers are in force.
#[derive(Clone, Copy, Debug, PartialEq, Eq)]
pub enum DnsState {
    Default,
    Custom,
}

/// What the default resolver is asked to block.
#[derive(Clone, Copy, Debug, PartialEq, Eq)]
pub struct DefaultDnsOptions {
    pub block_ads: bool,
    pub block_trackers: bool,
    pub block_malware: bool,
    pub block_adult_content: bool,
    pub block_gambling: bool,
    pub block_social_media: bool,
}

/// A resolver of the user's own, and whether its address is a local one:
/// private, link-local or loopback.
#[derive(Clone, Copy, Debug, PartialEq, Eq)]
pub struct CustomResolver {
    pub address: IpAddress,
    pub is_local: bool,
}

/// The resolvers of the user's own.
#[derive(Debug, PartialEq, Eq)]
pub struct CustomDnsOptions {
    pub addresses: Vec<CustomResolver>,
}

/// The DNS part of the settings.
#[derive(Debug, PartialEq, Eq)]
pub struct DnsOptions {
    pub state: DnsState,
    pub default_options: DefaultDnsOptions,
    pub custom_options: CustomDnsOptions,
}

/// The resolvers to configure.
#[derive(Debug, PartialEq, Eq)]
pub enum DnsConfig {
    /// Use the default gateway of the tunnel.
    Default,
    /// Use these resolvers: some through the tunnel, some outside it.
    Override { tunnel_config: Vec<IpAddress>, non_tunnel_config: Vec<IpAddress> },
}

/// The resolvers to configure, as contracts see them.
pub enum DnsConfigView {
    Default,
    Override { tunnel_config: Seq<IpAddress>, non_tunnel_config: Seq<IpAddress> },
}

impl View for DnsConfig {
    type V = DnsConfigView;

    open spec fn view(&self) -> DnsConfigView {
        match self {
            DnsConfig::Default => DnsConfigView::Default,
            DnsConfig::Override { tunnel_config, non_tunnel_config } => DnsConfigView::Override {
                tunnel_config: tunnel_config@,
                non_tunnel_config: non_tunnel_config@,
            },
        }
    }
}

/// The bit of a kind of content if it is to be blocked, and no bit if not.
pub open spec fn bit_if(block: bool, bit: u8) -> u8 {
    if block {
        bit
    } else {
        0
    }
}

/// The last byte of the blocking resolver: the bits of all kinds of content
/// that are to be blocked.
pub open spec fn blocking_byte(options: DefaultDnsOptions) -> u8 {
    bit_if(options.block_ads, DNS_AD_BLOCKING_IP_BIT) | bit_if(
        options.block_trackers,
        DNS_TRACKER_BLOCKING_IP_BIT,
    ) | bit_if(options.block_malware, DNS_MALWARE_BLOCKING_IP_BIT) | bit_if(
        options.block_adult_content,
        DNS_ADULT_BLOCKING_IP_BIT,
    ) | bit_if(options.block_gambling, DNS_GAMBLING_BLOCKING_IP_BIT) | bit_if(
        options.block_social_media,
        DNS_SOCIAL_MEDIA_BLOCKING_IP_BIT,
    )
}

/// Nothing is to be blocked.
pub open spec fn blocks_nothing(options: DefaultDnsOptions) -> bool {
    &&& !options.block_ads
    &&& !options.block_trackers
    &&& !options.block_malware
    &&& !options.block_adult_content
    &&& !options.block_gambling
    &&& !options.block_social_media
}

/// The IPv4 address of the resolver that blocks the content of `byte`:
/// 100.64.0.0 with `byte` as its last byte.
pub open spec fn blocking_resolver_v4(byte: u8) -> IpAddress {
    IpAddress::V4([100u8, 64u8, 0u8, byte])
}

/// The IPv6 address of the resolver that blocks the content of `byte`:
/// fc00:100:64:: with `byte` as its last byte.
pub open spec fn blocking_resolver_v6(byte: u8) -> IpAddress {
    IpAddress::V6(
        [0xfcu8, 0u8, 0x01u8, 0u8, 0u8, 0x64u8, 0u8, 0u8, 0u8, 0u8, 0u8, 0u8, 0u8, 0u8, 0u8, byte],
    )
}

/// The address is an IPv6 address in fc00:100:64::/64, the network of the
/// blocking resolvers.
pub open spec fn is_content_blocker_v6(address: IpAddress) -> bool {
    match address {
        IpAddress::V4(_) => false,
        IpAddress::V6(bytes) => {
            &&& bytes[0] == 0xfc
            &&& bytes[1] == 0
            &&& bytes[2] == 0x01
            &&& bytes[3] == 0
            &&& bytes[4] == 0
            &&& bytes[5] == 0x64
            &&& bytes[6] == 0
            &&& bytes[7] == 0
        },
    }
}

/// The network of the blocking resolvers over IPv6: fc00:100:64::/64.
pub open spec fn content_blocker_network() -> IpNetwork {
    IpNetwork {
        address: IpAddress::V6(
            [
                0xfcu8,
                0u8,
                0x01u8,
                0u8,
                0u8,
                0x64u8,
                0u8,
                0u8,
                0u8,
                0u8,
                0u8,
                0u8,
                0u8,
                0u8,
                0u8,
                0u8,
            ],
        ),
        prefix: 64,
    }
}

/// The blocking resolvers over IPv6 are the addresses of their network.
pub proof fn lemma_content_blockers_are_a_network(address: IpAddress)
    ensures
        is_content_blocker_v6(address) <==> covers(content_blocker_network(), address),
{
    let network = content_blocker_network();
    if let IpAddress::V6(bytes) = address {
        let base = network.address->V6_0;
        if is_content_blocker_v6(address) {
            assert forall|i: int| 0 <= i < 64 implies #[trigger] bit_of(network.address, i)
                == bit_of(address, i) by {
                assert(base[i / 8] == bytes[i / 8]);
            }
        }
        if covers(network, address) {
            assert forall|b: int| 0 <= b < 8 implies base[b] == bytes[b] by {
                assert forall|j: int| 0 <= j < 8 implies #[trigger] byte_bit(base[b], j)
                    == byte_bit(bytes[b], j) by {
                    assert(bit_of(network.address, 8 * b + j) == bit_of(address, 8 * b + j));
                }
                lemma_same_bits_same_byte(base[b], bytes[b]);
            }
        }
    }
}

/// A resolver is configured on the tunnel interface unless its address is a
/// local one; a blocking resolver always is.
pub open spec fn goes_through_tunnel(resolver: CustomResolver) -> bool {
    !resolver.is_local || is_content_blocker_v6(resolver.address)
}

/// The addresses of the resolvers that go through the tunnel, if `through`
/// is set, or of those that do not, in the order given.
pub open spec fn addresses_where(resolvers: Seq<CustomResolver>, through: bool) -> Seq<IpAddress>
    decreases resolvers.len(),
{
    if resolvers.len() == 0 {
        Seq::empty()
    } else if goes_through_tunnel(resolvers.last()) == through {
        addresses_where(resolvers.drop_last(), through).push(resolvers.last().address)
    } else {
        addresses_where(resolvers.drop_last(), through)
    }
}

/// Every resolver goes to exactly one side: the addresses that go through
/// the tunnel and those that do not are, together, as many as there are
/// resolvers.
pub proof fn lemma_every_resolver_is_placed(resolvers: Seq<CustomResolver>)
    ensures
        addresses_where(resolvers, true).len() + addresses_where(resolvers, false).len()
            == resolvers.len(),
    decreases resolvers.len(),
{
    if resolvers.len() > 0 {
        lemma_every_resolver_is_placed(resolvers.drop_last());
    }
}

/// An address is configured on a side only for a resolver that belongs
/// there.
pub proof fn lemma_placed_where_it_belongs(resolvers: Seq<CustomResolver>, through: bool, at: int)
    requires
        0 <= at < addresses_where(resolvers, through).len(),
    ensures
        exists|k: int|
            0 <= k < resolvers.len() && goes_through_tunnel(#[trigger] resolvers[k]) == through
                && resolvers[k].address == addresses_where(resolvers, through)[at],
    decreases resolvers.len(),
{
    let rest = resolvers.drop_last();
    let last = resolvers.len() - 1;
    if goes_through_tunnel(resolvers.last()) == through && at == addresses_where(
        rest,
        through,
    ).len() {
        assert(resolvers[last] == resolvers.last());
    } else {
        lemma_placed_where_it_belongs(rest, through, at);
        let k = choose|k: int|
            0 <= k < rest.len() && goes_through_tunnel(#[trigger] rest[k]) == through
                && rest[k].address == addresses_where(rest, through)[at];
        assert(resolvers[k] == rest[k]);
    }
}

/// The resolvers that the default state asks for.
pub open spec fn default_resolvers(options: DefaultDnsOptions, with_ipv6: bool) -> DnsConfigView {
    let byte = blocking_byte(options);
    if byte == 0 {
        DnsConfigView::Default
    } else {
        DnsConfigView::Override {
            tunnel_config: if with_ipv6 {
                seq![blocking_resolver_v4(byte), blocking_resolver_v6(byte)]
            } else {
                seq![blocking_resolver_v4(byte)]
            },
            non_tunnel_config: Seq::empty(),
        }
    }
}

/// The resolvers that `options` ask for.
pub open spec fn resolvers_of(options: DnsOptions, with_ipv6: bool) -> DnsConfigView {
    match options.state {
        DnsState::Default => default_resolvers(options.default_options, with_ipv6),
        DnsState::Custom => if options.custom_options.addresses@.len() == 0 {
            DnsConfigView::Default
        } else {
            DnsConfigView::Override {
                tunnel_config: addresses_where(options.custom_options.addresses@, true),
                non_tunnel_config: addresses_where(options.custom_options.addresses@, false),
            }
        },
    }
}

fn blocking_bit(block: bool, bit: u8) -> (out: u8)
    ensures
        out == bit_if(block, bit),
{
    if block {
        bit
    } else {
        0
    }
}

/// Computes the last byte of the blocking resolver.
pub fn blocking_last_byte(options: &DefaultDnsOptions) -> (byte: u8)
    ensures
        byte == blocking_byte(*options),
        byte == 0 <==> blocks_nothing(*options),
{
    let last_byte = blocking_bit(options.block_ads, DNS_AD_BLOCKING_IP_BIT) | blocking_bit(
        options.block_trackers,
        DNS_TRACKER_BLOCKING_IP_BIT,
    ) | blocking_bit(options.block_malware, DNS_MALWARE_BLOCKING_IP_BIT) | blocking_bit(
        options.block_adult_content,
        DNS_ADULT_BLOCKING_IP_BIT,
    ) | blocking_bit(options.block_gambling, DNS_GAMBLING_BLOCKING_IP_BIT) | blocking_bit(
        options.block_social_media,
        DNS_SOCIAL_MEDIA_BLOCKING_IP_BIT,
    );
    proof {
        lemma_blocking_byte(*options);
    }
    last_byte
}

/// The byte of no content is zero, the byte of any content is not, and the
/// byte tells for each kind of content whether it is blocked.
pub proof fn lemma_blocking_byte(options: DefaultDnsOptions)
    ensures
        blocking_byte(options) == 0 <==> blocks_nothing(options),
        blocking_byte(options) & DNS_AD_BLOCKING_IP_BIT != 0 <==> options.block_ads,
        blocking_byte(options) & DNS_TRACKER_BLOCKING_IP_BIT != 0 <==> options.block_trackers,
        blocking_byte(options) & DNS_MALWARE_BLOCKING_IP_BIT != 0 <==> options.block_malware,
        blocking_byte(options) & DNS_ADULT_BLOCKING_IP_BIT != 0 <==> options.block_adult_content,
        blocking_byte(options) & DNS_GAMBLING_BLOCKING_IP_BIT != 0 <==> options.block_gambling,
        blocking_byte(options) & DNS_SOCIAL_MEDIA_BLOCKING_IP_BIT != 0
            <==> options.block_social_media,
        blocking_byte(options) < 64,
{
    let a = bit_if(options.block_ads, DNS_AD_BLOCKING_IP_BIT);
    let b = bit_if(options.block_trackers, DNS_TRACKER_BLOCKING_IP_BIT);
    let c = bit_if(options.block_malware, DNS_MALWARE_BLOCKING_IP_BIT);
    let d = bit_if(options.block_adult_content, DNS_ADULT_BLOCKING_IP_BIT);
    let e = bit_if(options.block_gambling, DNS_GAMBLING_BLOCKING_IP_BIT);
    let f = bit_if(options.block_social_media, DNS_SOCIAL_MEDIA_BLOCKING_IP_BIT);
    let byte = a | b | c | d | e | f;
    assert((a == 0 || a == 1) && (b == 0 || b == 2) && (c == 0 || c == 4) && (d == 0 || d == 8)
        && (e == 0 || e == 16) && (f == 0 || f == 32) && byte == a | b | c | d | e | f ==> {
        &&& (byte == 0 <==> (a == 0 && b == 0 && c == 0 && d == 0 && e == 0 && f == 0))
        &&& (byte & 1 != 0 <==> a != 0)
        &&& (byte & 2 != 0 <==> b != 0)
        &&& (byte & 4 != 0 <==> c != 0)
        &&& (byte & 8 != 0 <==> d != 0)
        &&& (byte & 16 != 0 <==> e != 0)
        &&& (byte & 32 != 0 <==> f != 0)
        &&& byte < 64
    }) by (bit_vector);
}

/// Tells whether `address` is the address of a blocking resolver over IPv6.
pub fn is_v6_content_blocker(address: &IpAddress) -> (blocker: bool)
    ensures
        blocker == is_content_blocker_v6(*address),
{
    match address {
        IpAddress::V4(_) => false,
        IpAddress::V6(bytes) => {
            bytes[0] == 0xfc && bytes[1] == 0 && bytes[2] == 0x01 && bytes[3] == 0 && bytes[4] == 0
                && bytes[5] == 0x64 && bytes[6] == 0 && bytes[7] == 0
        },
    }
}

/// Tells whether a resolver is configured on the tunnel interface rather
/// than outside the tunnel.
pub fn is_tunnel_interface_config(resolver: &CustomResolver) -> (through: bool)
    ensures
        through == goes_through_tunnel(*resolver),
{
    !resolver.is_local || is_v6_content_blocker(&resolver.address)
}

/// Returns the resolvers to configure. `Default` stands for the default
/// gateway of the tunnel: no content is to be blocked, or the user has named
/// no resolver. `with_ipv6` adds the IPv6 address of the blocking resolver
/// to its IPv4 address, for platforms that need both.
pub fn addresses_from_options(options: &DnsOptions, with_ipv6: bool) -> (config: DnsConfig)
    ensures
        config@ == resolvers_of(*options, with_ipv6),
{
    match options.state {
        DnsState::Default => {
            let last_byte = blocking_last_byte(&options.default_options);
            if last_byte != 0 {
                let dns4_ip: [u8; 4] = [100, 64, 0, last_byte];
                let mut tunnel_config: Vec<IpAddress> = Vec::new();
                tunnel_config.push(IpAddress::V4(dns4_ip));
                if with_ipv6 {
                    let dns6_ip: [u8; 16] = [
                        0xfc,
                        0,
                        0x01,
                        0,
                        0,
                        0x64,
                        0,
                        0,
                        0,
                        0,
                        0,
                        0,
                        0,
                        0,
                        0,
                        last_byte,
                    ];
                    tunnel_config.push(IpAddress::V6(dns6_ip));
                    assert(tunnel_config@ =~= seq![
                        blocking_resolver_v4(last_byte),
                        blocking_resolver_v6(last_byte),
                    ]);
                } else {
                    assert(tunnel_config@ =~= seq![blocking_resolver_v4(last_byte)]);
                }
                DnsConfig::Override { tunnel_config, non_tunnel_config: Vec::new() }
            } else {
                DnsConfig::Default
            }
        },
        DnsState::Custom => {
            let resolvers = &options.custom_options.addresses;
            if resolvers.len() == 0 {
                return DnsConfig::Default;
            }
            let mut tunnel_config: Vec<IpAddress> = Vec::new();
            let mut non_tunnel_config: Vec<IpAddress> = Vec::new();
            let mut at: usize = 0;
            assert(resolvers@.take(0) =~= Seq::<CustomResolver>::empty());
            while at < resolvers.len()
                invariant
                    at <= resolvers.len(),
                    tunnel_config@ == addresses_where(resolvers@.take(at as int), true),
                    non_tunnel_config@ == addresses_where(resolvers@.take(at as int), false),
                decreases resolvers.len() - at,
            {
                assert(resolvers@.take(at + 1).drop_last() =~= resolvers@.take(at as int));
                assert(resolvers@.take(at + 1).last() == resolvers@[at as int]);
                if is_tunnel_interface_config(&resolvers[at]) {
                    tunnel_config.push(resolvers[at].address);
                } else {
                    non_tunnel_config.push(resolvers[at].address);
                }
                at += 1;
            }
            assert(resolvers@.take(at as int) =~= resolvers@);
            DnsConfig::Override { tunnel_config, non_tunnel_config }
        },
    }
}

} // verus!
