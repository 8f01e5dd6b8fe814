use mullvad_core::dns::IpAddress;
use mullvad_core::tun_provider::{
    bypass_result, close_tun_error, routes_without_lan, CreateTunResult, Error, InetNetwork,
    IpNetwork, MethodValue, ValueKind, INTERFACE_NAME,
};

fn value(kind: ValueKind, description: &str) -> MethodValue {
    MethodValue { kind, description: description.to_owned() }
}

#[test]
fn tun_results_become_descriptors_or_errors() {
    assert_eq!(Ok(7), CreateTunResult::Success { tun_fd: 7 }.into_result());
    let addresses = vec![IpAddress::V4([10, 0, 0, 1])];
    assert_eq!(
        Err(Error::InvalidDnsServers(addresses.clone())),
        CreateTunResult::InvalidDnsServers { addresses }.into_result()
    );
    assert_eq!(Err(Error::TunnelDeviceError), CreateTunResult::EstablishError.into_result());
    assert_eq!(
        Err(Error::OtherLegacyAlwaysOnVpn),
        CreateTunResult::OtherLegacyAlwaysOnVpn.into_result()
    );
    assert_eq!(
        Err(Error::OtherAlwaysOnApp { app_name: "Other VPN".to_owned() }),
        CreateTunResult::OtherAlwaysOnApp { app_name: "Other VPN".to_owned() }.into_result()
    );
    assert_eq!(Err(Error::NotPrepared), CreateTunResult::NotPrepared.into_result());
}

#[test]
fn bypass_is_allowed_by_any_boolean_but_zero() {
    assert_eq!(Ok(()), bypass_result(value(ValueKind::Bool(1), "Bool(1)")));
    assert_eq!(Ok(()), bypass_result(value(ValueKind::Bool(255), "Bool(255)")));
    assert_eq!(Err(Error::Bypass), bypass_result(value(ValueKind::Bool(0), "Bool(0)")));
    assert_eq!(
        Err(Error::InvalidMethodResult("bypass", "Void".to_owned())),
        bypass_result(value(ValueKind::Void, "Void"))
    );
    assert_eq!(
        Err(Error::InvalidMethodResult("bypass", "Int(3)".to_owned())),
        bypass_result(value(ValueKind::Other, "Int(3)"))
    );
}

#[test]
fn closing_the_tunnel_returns_nothing() {
    assert_eq!(None, close_tun_error(Ok(value(ValueKind::Void, "Void"))));
    assert_eq!(
        Some(Error::InvalidMethodResult("closeTun", "Bool(1)".to_owned())),
        close_tun_error(Ok(value(ValueKind::Bool(1), "Bool(1)")))
    );
    assert_eq!(
        Some(Error::InvalidMethodResult("closeTun", "Int(0)".to_owned())),
        close_tun_error(Ok(value(ValueKind::Other, "Int(0)")))
    );
    assert_eq!(
        Some(Error::CallMethod("closeTun")),
        close_tun_error(Err(Error::CallMethod("closeTun")))
    );
}

#[test]
fn routes_keep_address_and_prefix() {
    let v4 = IpAddress::V4([0, 0, 0, 0]);
    let v6 = IpAddress::V6([0; 16]);
    assert_eq!(
        InetNetwork { address: v4, prefix: 0 },
        InetNetwork::from_network(IpNetwork { address: v4, prefix: 0 })
    );
    assert_eq!(
        vec![InetNetwork { address: v4, prefix: 32 }, InetNetwork { address: v6, prefix: 128 }],
        routes_without_lan(&vec![
            IpNetwork { address: v4, prefix: 32 },
            IpNetwork { address: v6, prefix: 128 },
        ])
    );
    assert!(routes_without_lan(&vec![]).is_empty());
}

#[test]
fn interface_is_called_tun() {
    assert_eq!("tun", INTERFACE_NAME);
}

#[test]
fn errors_of_the_call_are_handed_on() {
    let errors = || {
        vec![
            Error::AttachJvmToThread,
            Error::Bypass,
            Error::CallMethod("closeTun"),
            Error::CloneJavaVm,
            Error::FindMethod("closeTun"),
            Error::InvalidDnsServers(vec![IpAddress::V6([0xfd; 16])]),
            Error::InvalidMethodResult("openTun", "Int(1)".to_owned()),
            Error::TunnelDeviceError,
            Error::RoutesTimedOut,
            Error::NotPrepared,
            Error::OtherLegacyAlwaysOnVpn,
            Error::OtherAlwaysOnApp { app_name: "Other VPN".to_owned() },
        ]
    };
    for (error, expected) in errors().into_iter().zip(errors()) {
        assert_eq!(Some(expected), close_tun_error(Err(error)));
    }
}

