//! What the answers of the platform's VPN service mean to a tunnel
//! provider.
//!
//! The calls into the service belong to the caller. What came back is
//! handed in as plain values, and what it means comes out.

use vstd::prelude::*;
use crate::dns::IpAddress;
use crate::routes::{covered_by, host_network, host_network_of, sub_all_of};

verus! {

/// The name of the tunnel interface.
pub const INTERFACE_NAME: &'static str = "tun";

/// The method of the service that lets a socket bypass the tunnel.
pub const BYPASS_METHOD: &'static str = "bypass";

/// The method of the service that closes the tunnel.
pub const CLOSE_TUN_METHOD: &'static str = "closeTun";

/// Errors that occur while setting up a tunnel with the VPN service.
#[derive(Debug, PartialEq, Eq)]
pub enum Error {
    /// The current thread could not be attached to the virtual machine.
    AttachJvmToThread,
    /// The socket was not allowed to bypass the tunnel.
    Bypass,
    /// The named method of the service failed.
    CallMethod(&'static str),
    /// No second handle to the virtual machine could be had.
    CloneJavaVm,
    /// The service has no method of this name.
    FindMethod(&'static str),
    /// The tunnel was configured with DNS servers that the service rejects.
    InvalidDnsServers(Vec<IpAddress>),
    /// The named method returned what it should not: the second field
    /// describes the value.
    InvalidMethodResult(&'static str, String),
    /// The tunnel device could not be created.
    TunnelDeviceError,
    /// The routes did not come up in time.
    RoutesTimedOut,
    /// The user has not set up the VPN profile.
    NotPrepared,
    /// Another legacy VPN profile is always on.
    OtherLegacyAlwaysOnVpn,
    /// Another VPN application is always on.
    OtherAlwaysOnApp { app_name: String },
}

/// What the service answers when asked for a tunnel device.
#[derive(Debug, PartialEq, Eq)]
pub enum CreateTunResult {
    Success { tun_fd: i32 },
    InvalidDnsServers { addresses: Vec<IpAddress> },
    EstablishError,
    OtherLegacyAlwaysOnVpn,
    OtherAlwaysOnApp { app_name: String },
    NotPrepared,
}

/// The descriptor of the tunnel device, or the error that the answer of the
/// service stands for.
pub open spec fn tun_fd_of(result: CreateTunResult) -> Result<i32, Error> {
    match result {
        CreateTunResult::Success { tun_fd } => Ok(tun_fd),
        CreateTunResult::InvalidDnsServers { addresses } => Err(
            Error::InvalidDnsServers(addresses),
        ),
        CreateTunResult::EstablishError => Err(Error::TunnelDeviceError),
        CreateTunResult::OtherLegacyAlwaysOnVpn => Err(Error::OtherLegacyAlwaysOnVpn),
        CreateTunResult::OtherAlwaysOnApp { app_name } => Err(Error::OtherAlwaysOnApp { app_name }),
        CreateTunResult::NotPrepared => Err(Error::NotPrepared),
    }
}

impl CreateTunResult {
    /// Turns the answer of the service into the descriptor of the tunnel
    /// device or an error.
    pub fn into_result(self) -> (result: Result<i32, Error>)
        ensures
            result == tun_fd_of(self),
    {
        match self {
            CreateTunResult::Success { tun_fd } => Ok(tun_fd),
            CreateTunResult::InvalidDnsServers { addresses } => Err(
                Error::InvalidDnsServers(addresses),
            ),
            CreateTunResult::EstablishError => Err(Error::TunnelDeviceError),
            CreateTunResult::OtherLegacyAlwaysOnVpn => Err(Error::OtherLegacyAlwaysOnVpn),
            CreateTunResult::OtherAlwaysOnApp { app_name } => Err(
                Error::OtherAlwaysOnApp { app_name },
            ),
            CreateTunResult::NotPrepared => Err(Error::NotPrepared),
        }
    }
}

/// The kind of a value that a method of the service returned.
#[derive(Clone, Copy, Debug, PartialEq, Eq)]
pub enum ValueKind {
    /// A boolean, as the byte that stands for it.
    Bool(u8),
    /// Nothing.
    Void,
    /// Anything else.
    Other,
}

/// A value that a method of the service returned, with its description for
/// error messages.
#[derive(Debug, PartialEq, Eq)]
pub struct MethodValue {
    pub kind: ValueKind,
    pub description: String,
}

/// What the answer to a request to bypass the tunnel means: any boolean but
/// zero allows it, zero refuses it, and anything else is no answer.
pub open spec fn bypass_outcome(value: MethodValue) -> Result<(), Error> {
    match value.kind {
        ValueKind::Bool(byte) => if byte == 0 {
            Err(Error::Bypass)
        } else {
            Ok(())
        },
        _ => Err(Error::InvalidMethodResult(BYPASS_METHOD, value.description)),
    }
}

/// Reads the answer to a request to bypass the tunnel.
pub fn bypass_result(value: MethodValue) -> (result: Result<(), Error>)
    ensures
        result == bypass_outcome(value),
{
    match value.kind {
        ValueKind::Bool(byte) => {
            if byte == 0 {
                Err(Error::Bypass)
            } else {
                Ok(())
            }
        },
        ValueKind::Void => Err(Error::InvalidMethodResult(BYPASS_METHOD, value.description)),
        ValueKind::Other => Err(Error::InvalidMethodResult(BYPASS_METHOD, value.description)),
    }
}

/// The error of closing the tunnel, if there is one: the call failed, or it
/// returned a value where it should have returned nothing.
pub open spec fn close_tun_failure(result: Result<MethodValue, Error>) -> Option<Error> {
    match result {
        Ok(value) => match value.kind {
            ValueKind::Void => None,
            _ => Some(Error::InvalidMethodResult(CLOSE_TUN_METHOD, value.description)),
        },
        Err(error) => Some(error),
    }
}

/// Reads the result of closing the tunnel. The caller logs the error, if
/// any; closing itself does not fail.
pub fn close_tun_error(result: Result<MethodValue, Error>) -> (error: Option<Error>)
    ensures
        error == close_tun_failure(result),
{
    match result {
        Ok(value) => match value.kind {
            ValueKind::Void => None,
            ValueKind::Bool(_) => Some(
                Error::InvalidMethodResult(CLOSE_TUN_METHOD, value.description),
            ),
            ValueKind::Other => Some(
                Error::InvalidMethodResult(CLOSE_TUN_METHOD, value.description),
            ),
        },
        Err(error) => Some(error),
    }
}

/// A network: an address and the length of its prefix in bits.
#[derive(Clone, Copy, Debug, PartialEq, Eq)]
pub struct IpNetwork {
    pub address: IpAddress,
    pub prefix: u8,
}

/// A network in the form in which the VPN service takes a route.
#[derive(Clone, Copy, Debug, PartialEq, Eq)]
pub struct InetNetwork {
    pub address: IpAddress,
    pub prefix: i16,
}

impl InetNetwork {
    /// The route to a network.
    pub fn from_network(ip_network: IpNetwork) -> (route: InetNetwork)
        ensures
            route.address == ip_network.address,
            route.prefix == ip_network.prefix,
    {
        InetNetwork { address: ip_network.address, prefix: ip_network.prefix as i16 }
    }
}

/// The routes to a list of networks, in the order given.
pub open spec fn routes_of(networks: Seq<IpNetwork>) -> Seq<InetNetwork> {
    networks.map_values(
        |network: IpNetwork| InetNetwork { address: network.address, prefix: network.prefix as i16 },
    )
}

/// Turns the networks of a tunnel that keeps local traffic inside into the
/// routes of the VPN service.
pub fn routes_without_lan(networks: &Vec<IpNetwork>) -> (routes: Vec<InetNetwork>)
    ensures
        routes@ == routes_of(networks@),
{
    let mut routes: Vec<InetNetwork> = Vec::new();
    let mut at: usize = 0;
    while at < networks.len()
        invariant
            at <= networks.len(),
            routes@ == routes_of(networks@.take(at as int)),
        decreases networks.len() - at,
    {
        routes.push(InetNetwork::from_network(networks[at]));
        assert(routes@ =~= routes_of(networks@.take(at + 1)));
        at += 1;
    }
    assert(networks@.take(at as int) =~= networks@);
    routes
}

/// The configuration of a tunnel device.
#[derive(Debug, PartialEq, Eq)]
pub struct TunConfig {
    /// The addresses of the tunnel interface.
    pub addresses: Vec<IpAddress>,
    /// The maximum transmission unit of the tunnel.
    pub mtu: u16,
    /// The IPv4 address of the gateway inside the tunnel.
    pub ipv4_gateway: [u8; 4],
    /// The IPv6 address of the gateway inside the tunnel, if it has one.
    pub ipv6_gateway: Option<[u8; 16]>,
    /// The networks that are routed through the tunnel.
    pub routes: Vec<IpNetwork>,
    /// Whether traffic to local networks stays outside the tunnel.
    pub allow_lan: bool,
    /// The DNS servers to use. `None` stands for the gateways; an empty list
    /// switches DNS off.
    pub dns_servers: Option<Vec<IpAddress>>,
    /// The applications that are kept out of the tunnel.
    pub excluded_packages: Vec<String>,
}

/// The configuration in the form in which the VPN service takes it.
#[derive(Debug, PartialEq, Eq)]
pub struct VpnServiceConfig {
    /// The addresses of the tunnel interface.
    pub addresses: Vec<IpAddress>,
    /// The DNS servers to use.
    pub dns_servers: Vec<IpAddress>,
    /// The routes of the tunnel.
    pub routes: Vec<InetNetwork>,
    /// The applications that are kept out of the tunnel.
    pub excluded_packages: Vec<String>,
    /// The maximum transmission unit of the tunnel.
    pub mtu: u16,
}

/// The addresses of the gateways of a tunnel: the IPv4 gateway, and the
/// IPv6 gateway if there is one.
pub open spec fn gateways_of(config: TunConfig) -> Seq<IpAddress> {
    match config.ipv6_gateway {
        Some(gateway) => seq![IpAddress::V4(config.ipv4_gateway), IpAddress::V6(gateway)],
        None => seq![IpAddress::V4(config.ipv4_gateway)],
    }
}

/// The DNS servers of a tunnel: those that are configured, or the gateways
/// where none are.
pub open spec fn dns_servers_of(config: TunConfig) -> Seq<IpAddress> {
    match config.dns_servers {
        Some(servers) => servers@,
        None => gateways_of(config),
    }
}

/// The networks that must stay routed through the tunnel whatever is local:
/// each gateway by itself.
pub open spec fn required_routes(config: TunConfig) -> Seq<IpNetwork> {
    gateways_of(config).map_values(|gateway: IpAddress| host_network_of(gateway))
}

/// The address is local and no gateway: traffic to it stays outside the
/// tunnel.
pub open spec fn kept_local(
    config: TunConfig,
    lan_networks: Seq<IpNetwork>,
    address: IpAddress,
) -> bool {
    covered_by(lan_networks, address) && !covered_by(required_routes(config), address)
}

/// No gateway is kept local, whatever the local networks are.
pub proof fn lemma_gateways_are_not_kept_local(
    config: TunConfig,
    lan_networks: Seq<IpNetwork>,
    k: int,
)
    requires
        0 <= k < gateways_of(config).len(),
    ensures
        !kept_local(config, lan_networks, gateways_of(config)[k]),
{
    let gateway = gateways_of(config)[k];
    assert(required_routes(config)[k] == host_network_of(gateway));
    assert(crate::routes::covers(required_routes(config)[k], gateway));
}

/// The networks that routes stand for.
pub open spec fn networks_of(routes: Seq<InetNetwork>) -> Seq<IpNetwork> {
    routes.map_values(
        |route: InetNetwork| IpNetwork { address: route.address, prefix: route.prefix as u8 },
    )
}

impl TunConfig {
    /// The addresses of the gateways of the tunnel.
    pub fn gateways(&self) -> (gateways: Vec<IpAddress>)
        ensures
            gateways@ == gateways_of(*self),
    {
        let mut gateways: Vec<IpAddress> = Vec::new();
        gateways.push(IpAddress::V4(self.ipv4_gateway));
        match self.ipv6_gateway {
            Some(gateway) => {
                gateways.push(IpAddress::V6(gateway));
                assert(gateways@ =~= gateways_of(*self));
            },
            None => {
                assert(gateways@ =~= gateways_of(*self));
            },
        }
        gateways
    }
}

/// Returns the DNS servers of the tunnel: the configured ones, or the
/// gateways where none are configured.
pub fn resolve_dns_servers(config: &TunConfig) -> (servers: Vec<IpAddress>)
    ensures
        servers@ == dns_servers_of(*config),
{
    match &config.dns_servers {
        Some(configured) => {
            let mut servers: Vec<IpAddress> = Vec::new();
            let mut at: usize = 0;
            while at < configured.len()
                invariant
                    at <= configured.len(),
                    servers@ == configured@.take(at as int),
                decreases configured.len() - at,
            {
                servers.push(configured[at]);
                assert(configured@.take(at + 1) =~= configured@.take(at as int).push(
                    configured@[at as int],
                ));
                at += 1;
            }
            assert(configured@.take(at as int) =~= configured@);
            servers
        },
        None => config.gateways(),
    }
}

/// Returns the routes of the tunnel. Where local traffic is allowed, the
/// local networks are taken out of the routes, but for the gateways, so
/// that local traffic does not go into the tunnel: the routes then hold
/// exactly the addresses of the configured routes that are not local or
/// are a gateway.
pub fn resolve_routes(config: &TunConfig, lan_networks: &Vec<IpNetwork>) -> (routes: Vec<
    InetNetwork,
>)
    ensures
        !config.allow_lan ==> routes@ == routes_of(config.routes@),
        config.allow_lan ==> forall|address: IpAddress| #[trigger]
            covered_by(networks_of(routes@), address) <==> (covered_by(config.routes@, address)
                && !kept_local(*config, lan_networks@, address)),
{
    if !config.allow_lan {
        return routes_without_lan(&config.routes);
    }
    let gateways = config.gateways();
    let mut required: Vec<IpNetwork> = Vec::new();
    let mut at: usize = 0;
    while at < gateways.len()
        invariant
            at <= gateways.len(),
            gateways@ == gateways_of(*config),
            required@ == required_routes(*config).take(at as int),
        decreases gateways.len() - at,
    {
        required.push(host_network(gateways[at]));
        assert(required@ =~= required_routes(*config).take(at + 1));
        at += 1;
    }
    assert(required_routes(*config).take(at as int) =~= required_routes(*config));
    let local = sub_all_of(lan_networks, &required);
    let networks = sub_all_of(&config.routes, &local);
    let routes = routes_without_lan(&networks);
    assert(networks_of(routes@) =~= networks@);
    routes
}

impl VpnServiceConfig {
    /// Turns the configuration of a tunnel into that of the VPN service.
    pub fn new(tun_config: TunConfig, lan_networks: &Vec<IpNetwork>) -> (config: VpnServiceConfig)
        ensures
            config.addresses == tun_config.addresses,
            config.dns_servers@ == dns_servers_of(tun_config),
            !tun_config.allow_lan ==> config.routes@ == routes_of(tun_config.routes@),
            tun_config.allow_lan ==> forall|address: IpAddress| #[trigger]
                covered_by(networks_of(config.routes@), address) <==> (covered_by(
                    tun_config.routes@,
                    address,
                ) && !kept_local(tun_config, lan_networks@, address)),
            config.excluded_packages == tun_config.excluded_packages,
            config.mtu == tun_config.mtu,
    {
        let dns_servers = resolve_dns_servers(&tun_config);
        let routes = resolve_routes(&tun_config, lan_networks);
        VpnServiceConfig {
            addresses: tun_config.addresses,
            dns_servers,
            routes,
            excluded_packages: tun_config.excluded_packages,
            mtu: tun_config.mtu,
        }
    }
}

} // verus!
