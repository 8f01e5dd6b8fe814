use mullvad_core::dns::IpAddress;
use mullvad_core::routes::{
    bit, branch, contains, copy_networks, host_network, sub_all, sub_all_of, subtract,
};
use mullvad_core::tun_provider::{
    resolve_dns_servers, resolve_routes, InetNetwork, IpNetwork, TunConfig, VpnServiceConfig,
};

fn v4(a: u8, b: u8, c: u8, d: u8) -> IpAddress {
    IpAddress::V4([a, b, c, d])
}

fn v6(groups: [u16; 8]) -> IpAddress {
    let mut bytes = [0u8; 16];
    for (at, group) in groups.iter().enumerate() {
        bytes[2 * at] = (group >> 8) as u8;
        bytes[2 * at + 1] = (group & 0xff) as u8;
    }
    IpAddress::V6(bytes)
}

fn net4(a: u8, b: u8, c: u8, d: u8, prefix: u8) -> IpNetwork {
    IpNetwork { address: v4(a, b, c, d), prefix }
}

fn net6(groups: [u16; 8], prefix: u8) -> IpNetwork {
    IpNetwork { address: v6(groups), prefix }
}

fn covered(networks: &[IpNetwork], address: &IpAddress) -> bool {
    networks.iter().any(|network| contains(network, address))
}

/// Addresses on and around the borders of the networks used below.
fn samples() -> Vec<IpAddress> {
    let mut samples = vec![
        v6([0, 0, 0, 0, 0, 0, 0, 0]),
        v6([0, 0, 0, 0, 0, 0, 0, 1]),
        v6([0xfe80, 0, 0, 0, 0, 0, 0, 1]),
        v6([0xfebf, 0xffff, 0, 0, 0, 0, 0, 1]),
        v6([0xfec0, 0, 0, 0, 0, 0, 0, 0]),
        v6([0xfc00, 0x100, 0x64, 0, 0, 0, 0, 1]),
        v6([0xfdff, 0, 0, 0, 0, 0, 0, 9]),
        v6([0x2001, 0xdb8, 0, 0, 0, 0, 0, 1]),
        v6([0xffff; 8]),
    ];
    for a in [0u8, 9, 10, 11, 12, 127, 128, 172, 192, 193, 255] {
        for b in [0u8, 15, 16, 31, 32, 64, 167, 168, 169, 255] {
            for d in [0u8, 1, 255] {
                samples.push(v4(a, b, 0, d));
                samples.push(v4(a, b, 255, d));
            }
        }
    }
    samples
}

#[test]
fn bits_are_counted_from_the_most_significant() {
    let address = v4(0b1000_0000, 0b0000_0001, 0, 0b0000_0010);
    assert!(bit(&address, 0));
    assert!(!bit(&address, 1));
    assert!(bit(&address, 15));
    assert!(!bit(&address, 14));
    assert!(bit(&address, 30));
    assert!(!bit(&address, 31));
    let address = v6([0, 0, 0, 0, 0, 0, 0, 1]);
    assert!(bit(&address, 127));
    assert!(!bit(&address, 126));
}

#[test]
fn branch_flips_one_bit_and_clears_the_rest() {
    assert_eq!(v4(128, 0, 0, 0), branch(&v4(10, 1, 2, 3), 0));
    assert_eq!(v4(0, 0, 0, 0), branch(&v4(10, 1, 2, 3), 4));
    assert_eq!(v4(11, 0, 0, 0), branch(&v4(10, 1, 2, 3), 7));
    assert_eq!(v4(10, 128, 0, 0), branch(&v4(10, 1, 2, 3), 8));
    assert_eq!(v4(10, 1, 2, 2), branch(&v4(10, 1, 2, 3), 31));
    assert_eq!(
        v6([0xfe80, 0, 0, 0, 0, 0, 0, 0]),
        branch(&v6([0xfec0, 1, 2, 3, 4, 5, 6, 7]), 9)
    );
}

#[test]
fn networks_hold_the_addresses_with_their_prefix() {
    let private = net4(10, 0, 0, 0, 8);
    assert!(contains(&private, &v4(10, 0, 0, 0)));
    assert!(contains(&private, &v4(10, 255, 255, 255)));
    assert!(!contains(&private, &v4(11, 0, 0, 0)));
    assert!(!contains(&private, &v4(9, 255, 255, 255)));
    assert!(!contains(&private, &v6([0x0a00, 0, 0, 0, 0, 0, 0, 0])));
    assert!(contains(&net4(1, 2, 3, 4, 0), &v4(200, 1, 1, 1)));
    assert!(contains(&net4(1, 2, 3, 4, 32), &v4(1, 2, 3, 4)));
    assert!(!contains(&net4(1, 2, 3, 4, 32), &v4(1, 2, 3, 5)));
    // Bits behind the prefix do not count.
    assert!(contains(&net4(172, 16, 99, 1, 12), &v4(172, 31, 0, 1)));
    assert!(!contains(&net4(172, 16, 99, 1, 12), &v4(172, 32, 0, 1)));
    // A prefix longer than the address counts as the whole address.
    assert!(contains(&net4(1, 2, 3, 4, 200), &v4(1, 2, 3, 4)));
    assert!(!contains(&net4(1, 2, 3, 4, 200), &v4(1, 2, 3, 5)));
    let link_local = net6([0xfe80, 0, 0, 0, 0, 0, 0, 0], 10);
    assert!(contains(&link_local, &v6([0xfebf, 1, 2, 3, 4, 5, 6, 7])));
    assert!(!contains(&link_local, &v6([0xfec0, 0, 0, 0, 0, 0, 0, 0])));
}

#[test]
fn subtracting_splits_along_the_prefix() {
    assert_eq!(
        vec![
            net4(128, 0, 0, 0, 1),
            net4(64, 0, 0, 0, 2),
            net4(32, 0, 0, 0, 3),
            net4(16, 0, 0, 0, 4),
            net4(0, 0, 0, 0, 5),
            net4(12, 0, 0, 0, 6),
            net4(8, 0, 0, 0, 7),
            net4(11, 0, 0, 0, 8),
        ],
        subtract(net4(0, 0, 0, 0, 0), net4(10, 0, 0, 0, 8))
    );
    assert_eq!(
        vec![net4(192, 168, 128, 0, 17), net4(192, 168, 64, 0, 18)],
        subtract(net4(192, 168, 0, 0, 16), net4(192, 168, 0, 0, 18))
    );
}

#[test]
fn subtracting_what_is_apart_changes_nothing() {
    let network = net4(192, 168, 0, 0, 16);
    assert_eq!(vec![network], subtract(network, net4(10, 0, 0, 0, 8)));
    assert_eq!(vec![network], subtract(network, net4(192, 169, 0, 0, 24)));
    assert_eq!(vec![network], subtract(network, net6([0xc0a8, 0, 0, 0, 0, 0, 0, 0], 16)));
}

#[test]
fn subtracting_what_holds_the_network_leaves_nothing() {
    let network = net4(192, 168, 0, 0, 16);
    assert!(subtract(network, network).is_empty());
    assert!(subtract(network, net4(192, 0, 0, 0, 8)).is_empty());
    assert!(subtract(network, net4(0, 0, 0, 0, 0)).is_empty());
    assert!(subtract(net4(192, 168, 77, 1, 16), net4(192, 168, 1, 1, 16)).is_empty());
}

#[test]
fn difference_holds_what_is_in_one_and_not_in_the_other() {
    let networks = [
        net4(0, 0, 0, 0, 0),
        net4(10, 0, 0, 0, 8),
        net4(10, 64, 0, 1, 32),
        net4(172, 16, 0, 0, 12),
        net4(192, 168, 0, 0, 16),
        net4(192, 168, 255, 0, 24),
        net4(128, 0, 0, 0, 1),
        net6([0, 0, 0, 0, 0, 0, 0, 0], 0),
        net6([0xfe80, 0, 0, 0, 0, 0, 0, 0], 10),
        net6([0xfc00, 0, 0, 0, 0, 0, 0, 0], 7),
        net6([0xfc00, 0x100, 0x64, 0, 0, 0, 0, 1], 128),
    ];
    for network in networks {
        for other in networks {
            let rest = subtract(network, other);
            for address in samples() {
                assert_eq!(
                    contains(&network, &address) && !contains(&other, &address),
                    covered(&rest, &address),
                    "{:?} without {:?} at {:?}",
                    network,
                    other,
                    address
                );
            }
        }
    }
}

#[test]
fn several_networks_are_taken_out_one_after_the_other() {
    let others = vec![net4(10, 0, 0, 0, 8), net4(192, 168, 0, 0, 16), net4(172, 16, 0, 0, 12)];
    let rest = sub_all(net4(0, 0, 0, 0, 0), &others);
    for address in samples() {
        let expected = matches!(address, IpAddress::V4(_)) && !covered(&others, &address);
        assert_eq!(expected, covered(&rest, &address), "{:?}", address);
    }
    assert_eq!(vec![net4(1, 0, 0, 0, 8)], sub_all(net4(1, 0, 0, 0, 8), &vec![]));

    let both = vec![net4(0, 0, 0, 0, 0), net6([0; 8], 0)];
    let rest = sub_all_of(&both, &others);
    for address in samples() {
        assert_eq!(!covered(&others, &address), covered(&rest, &address), "{:?}", address);
    }
    assert_eq!(both, copy_networks(&both));
}

#[test]
fn host_networks_hold_one_address() {
    assert_eq!(net4(10, 64, 0, 1, 32), host_network(v4(10, 64, 0, 1)));
    assert_eq!(net6([1, 2, 3, 4, 5, 6, 7, 8], 128), host_network(v6([1, 2, 3, 4, 5, 6, 7, 8])));
}

fn tun_config(allow_lan: bool) -> TunConfig {
    TunConfig {
        addresses: vec![v4(10, 64, 12, 7)],
        mtu: 1380,
        ipv4_gateway: [10, 64, 0, 1],
        ipv6_gateway: Some([0xfc, 0, 0xbb, 0xbb, 0xbb, 0xbb, 0xbb, 0x01, 0, 0, 0, 0, 0, 0, 0, 1]),
        routes: vec![net4(0, 0, 0, 0, 0), net6([0; 8], 0)],
        allow_lan,
        dns_servers: None,
        excluded_packages: vec!["net.example.browser".to_owned()],
    }
}

fn lan_networks() -> Vec<IpNetwork> {
    vec![
        net4(10, 0, 0, 0, 8),
        net4(172, 16, 0, 0, 12),
        net4(192, 168, 0, 0, 16),
        net4(169, 254, 0, 0, 16),
        net6([0xfe80, 0, 0, 0, 0, 0, 0, 0], 10),
        net6([0xfc00, 0, 0, 0, 0, 0, 0, 0], 7),
    ]
}

fn as_networks(routes: &[InetNetwork]) -> Vec<IpNetwork> {
    routes
        .iter()
        .map(|route| IpNetwork { address: route.address, prefix: route.prefix as u8 })
        .collect()
}

#[test]
fn routes_are_kept_as_they_are_without_local_traffic() {
    let routes = resolve_routes(&tun_config(false), &lan_networks());
    assert_eq!(
        vec![
            InetNetwork { address: v4(0, 0, 0, 0), prefix: 0 },
            InetNetwork { address: v6([0; 8]), prefix: 0 },
        ],
        routes
    );
}

#[test]
fn local_networks_are_left_out_of_the_routes_but_for_the_gateways() {
    let config = tun_config(true);
    let routes = as_networks(&resolve_routes(&config, &lan_networks()));
    let gateway4 = v4(10, 64, 0, 1);
    let gateway6 = v6([0xfc00, 0xbbbb, 0xbbbb, 0xbb01, 0, 0, 0, 1]);
    assert!(covered(&routes, &gateway4));
    assert!(covered(&routes, &gateway6));
    assert!(covered(&routes, &v4(8, 8, 8, 8)));
    assert!(covered(&routes, &v6([0x2001, 0xdb8, 0, 0, 0, 0, 0, 1])));
    assert!(!covered(&routes, &v4(10, 64, 0, 2)));
    assert!(!covered(&routes, &v4(10, 64, 0, 0)));
    assert!(!covered(&routes, &v4(192, 168, 1, 1)));
    assert!(!covered(&routes, &v4(172, 31, 255, 255)));
    assert!(covered(&routes, &v4(172, 32, 0, 0)));
    assert!(!covered(&routes, &v6([0xfe80, 0, 0, 0, 0, 0, 0, 1])));
    assert!(!covered(&routes, &v6([0xfc00, 0xbbbb, 0xbbbb, 0xbb01, 0, 0, 0, 2])));
    let mut addresses = samples();
    addresses.push(gateway4);
    addresses.push(gateway6);
    for address in addresses {
        let local = covered(&lan_networks(), &address) && address != gateway4 && address != gateway6;
        assert_eq!(!local, covered(&routes, &address), "{:?}", address);
    }
}

#[test]
fn dns_servers_default_to_the_gateways() {
    let mut config = tun_config(true);
    assert_eq!(
        vec![v4(10, 64, 0, 1), v6([0xfc00, 0xbbbb, 0xbbbb, 0xbb01, 0, 0, 0, 1])],
        resolve_dns_servers(&config)
    );
    assert_eq!(resolve_dns_servers(&config), config.gateways());
    config.ipv6_gateway = None;
    assert_eq!(vec![v4(10, 64, 0, 1)], resolve_dns_servers(&config));
    config.dns_servers = Some(vec![v4(1, 1, 1, 1), v4(9, 9, 9, 9)]);
    assert_eq!(vec![v4(1, 1, 1, 1), v4(9, 9, 9, 9)], resolve_dns_servers(&config));
    config.dns_servers = Some(vec![]);
    assert!(resolve_dns_servers(&config).is_empty());
}

#[test]
fn service_config_takes_over_the_tunnel_config() {
    let config = VpnServiceConfig::new(tun_config(false), &lan_networks());
    assert_eq!(vec![v4(10, 64, 12, 7)], config.addresses);
    assert_eq!(
        vec![v4(10, 64, 0, 1), v6([0xfc00, 0xbbbb, 0xbbbb, 0xbb01, 0, 0, 0, 1])],
        config.dns_servers
    );
    assert_eq!(
        vec![
            InetNetwork { address: v4(0, 0, 0, 0), prefix: 0 },
            InetNetwork { address: v6([0; 8]), prefix: 0 },
        ],
        config.routes
    );
    assert_eq!(vec!["net.example.browser".to_owned()], config.excluded_packages);
    assert_eq!(1380, config.mtu);
    let with_lan = VpnServiceConfig::new(tun_config(true), &lan_networks());
    assert_eq!(
        resolve_routes(&tun_config(true), &lan_networks()),
        with_lan.routes
    );
}
